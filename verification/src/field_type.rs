//! The Rust type of a struct field, by its type name.
use vstd::prelude::*;

verus! {

#[derive(Debug, Clone, Copy, PartialEq, Eq, Structural)]
pub enum FieldType {
    String,
    I32,
    I64,
    U32,
    U64,
    F64,
    Bool,
    Date,
    VecString,
    Unhandled,
}

/// The field type named `name`.
pub open spec fn spec_field_type(name: Seq<char>) -> FieldType {
    if name == "i32"@ {
        FieldType::I32
    } else if name == "i64"@ {
        FieldType::I64
    } else if name == "u32"@ {
        FieldType::U32
    } else if name == "u64"@ {
        FieldType::U64
    } else if name == "f64"@ {
        FieldType::F64
    } else if name == "bool"@ {
        FieldType::Bool
    } else if name == "DateTime"@ {
        FieldType::Date
    } else if name == "String"@ {
        FieldType::String
    } else if name == "Vec"@ {
        FieldType::VecString
    } else {
        FieldType::Unhandled
    }
}

impl FieldType {
    /// The field type of a type named `_type`; `Unhandled` for names that
    /// are none of the supported types.
    pub fn get_field_type(_type: &str) -> (r: Self)
        ensures
            r == spec_field_type(_type@),
    {
        let t = String::from_str(_type);
        if t == String::from_str("i32") {
            FieldType::I32
        } else if t == String::from_str("i64") {
            FieldType::I64
        } else if t == String::from_str("u32") {
            FieldType::U32
        } else if t == String::from_str("u64") {
            FieldType::U64
        } else if t == String::from_str("f64") {
            FieldType::F64
        } else if t == String::from_str("bool") {
            FieldType::Bool
        } else if t == String::from_str("DateTime") {
            FieldType::Date
        } else if t == String::from_str("String") {
            FieldType::String
        } else if t == String::from_str("Vec") {
            FieldType::VecString
        } else {
            FieldType::Unhandled
        }
    }
}

} // verus!
