//! Field metadata as the attribute spells it.
use vstd::prelude::*;

verus! {

#[derive(Clone, Debug)]
pub struct FieldMeta {
    /// E.g., "text", "string", or "none"
    pub indexed_as: Option<String>,
}

} // verus!
