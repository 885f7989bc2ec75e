//! Structs whose values are indexed as documents.
use vstd::prelude::*;

use crate::document::{Document, Term};
use crate::schema::Schema;
use crate::struct_info::StructInfo;

verus! {

/// A struct whose values can be written to an index and read back from it.
pub trait Indexable: Clone + Sized {
    /// The document that holds this value.
    fn as_document(&self) -> Document;

    /// The value that a document holds.
    fn from_doc(doc: Document) -> Self;

    /// The term that finds this value by its id field.
    fn get_id_term(&self) -> Term;

    /// The schema of the index that holds values of this type.
    fn generate_schema() -> Schema;

    /// What the schema says of each field.
    fn get_struct_info() -> StructInfo;
}

} // verus!
