//! What the schema says of one field of an indexed struct.
use vstd::prelude::*;

use crate::index_type::IndexType;

verus! {

#[derive(Debug)]
pub struct FieldInfo {
    pub is_id: bool,
    pub field_name: String,
    pub index_type: IndexType,
    pub stored: bool,
}

impl FieldInfo {
    /// A field that is not the id; without an index type it is not indexed.
    pub fn new(field_name: String, index_type: Option<IndexType>, stored: bool) -> (r: Self)
        ensures
            !r.is_id,
            r.field_name == field_name,
            r.index_type == match index_type {
                Some(t) => t,
                None => IndexType::not_indexed,
            },
            r.stored == stored,
    {
        let index_type = match index_type {
            Some(t) => t,
            None => IndexType::not_indexed,
        };
        FieldInfo { is_id: false, field_name, index_type, stored }
    }

    /// The id field: indexed and stored.
    pub fn new_id_field(field_name: String) -> (r: Self)
        ensures
            r.is_id,
            r.field_name == field_name,
            r.index_type == IndexType::indexed,
            r.stored,
    {
        FieldInfo { is_id: true, field_name, index_type: IndexType::indexed, stored: true }
    }
}

} // verus!
