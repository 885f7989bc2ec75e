//! Field metadata models of the derive.
use vstd::prelude::*;

verus! {

#[derive(Clone, Copy, Debug, PartialEq, Eq, Structural)]
pub enum IndexType {
    Text,
    String,
    NotIndexed,
}

/// Enum for field storage type
#[derive(Clone, Copy, Debug, PartialEq, Eq, Structural)]
pub enum StorageType {
    Stored,
    NotStored,
}

/// Struct to hold field metadata
#[derive(Clone, Copy, Debug, PartialEq, Eq, Structural)]
pub struct FieldMeta {
    pub index_type: IndexType,
    pub storage_type: StorageType,
}

} // verus!
