//! Structs whose values are indexed as documents.
use vstd::prelude::*;

use super::struct_info::StructInfo;
use crate::document::{Document, Term};

verus! {

pub trait Indexable: Clone + Sized {
    fn get_struct_info() -> StructInfo;

    fn as_document(&self) -> Document;

    fn from_doc(doc: Document) -> Self;

    fn get_id_term(&self) -> Term;
}

} // verus!
