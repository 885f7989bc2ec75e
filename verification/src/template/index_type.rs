//! How a field is indexed.
use vstd::prelude::*;

verus! {

#[allow(non_camel_case_types)]
#[derive(Debug, Clone, Copy, PartialEq, Eq, Structural)]
pub enum IndexType {
    indexed_string,
    indexed_text,
    indexed,
    not_indexed,
}

} // verus!
