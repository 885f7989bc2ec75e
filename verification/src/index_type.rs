//! How a field is indexed.
use vstd::prelude::*;

verus! {

#[allow(non_camel_case_types)]
#[derive(Debug, Clone, Copy, PartialEq, Eq, Structural)]
pub enum IndexType {
    /// String Indexed but untokenized
    indexed_string,
    /// String Indexed but tokenized
    indexed_text,
    /// Number Indexed
    indexed,
    not_indexed,
}

} // verus!
