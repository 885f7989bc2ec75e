//! What the schema says of an indexed struct.
use vstd::prelude::*;

use crate::field_info::FieldInfo;

verus! {

pub struct StructInfo {
    pub struct_name: String,
    pub fields: Vec<FieldInfo>,
}

impl StructInfo {
    /// A struct named `name` with no fields yet.
    pub fn new(name: String) -> (r: Self)
        ensures
            r.struct_name == name,
            r.fields@.len() == 0,
    {
        StructInfo { struct_name: name, fields: Vec::new() }
    }
}

} // verus!
