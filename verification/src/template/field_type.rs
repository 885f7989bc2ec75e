//! The supported field types, by type name.
use vstd::prelude::*;

verus! {

#[derive(Debug, Clone, Copy, PartialEq, Eq, Structural)]
pub enum FieldType {
    String,
    I32,
    Unhandled,
}

impl FieldType {
    /// `I32` for `i32`, `String` for `String`, `Unhandled` for any other name.
    pub fn get_field_type(_type: &str) -> (r: Self)
        ensures
            r == if _type@ == "i32"@ {
                FieldType::I32
            } else if _type@ == "String"@ {
                FieldType::String
            } else {
                FieldType::Unhandled
            },
    {
        let t = String::from_str(_type);
        if t == String::from_str("i32") {
            FieldType::I32
        } else if t == String::from_str("String") {
            FieldType::String
        } else {
            FieldType::Unhandled
        }
    }
}

} // verus!
