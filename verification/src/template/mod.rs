//! The first form of the schema description: each field says its own type.
pub mod field_info;
pub mod field_type;
pub mod index_type;
pub mod indexable;
pub mod struct_info;
