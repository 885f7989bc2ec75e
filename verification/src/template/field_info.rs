//! One field of the schema, with its type.
use vstd::prelude::*;

use super::field_type::FieldType;
use super::index_type::IndexType;
use crate::schema::{
    has_name, numeric_entry, FieldEntryView, Indexing, NumericOptions, SchemaBuilder,
    SchemaFieldType, TextOptions,
};

verus! {

pub struct FieldInfo {
    pub is_id: bool,
    pub field_type: FieldType,
    pub field_name: String,
    pub index_type: IndexType,
    pub stored: bool,
}

/// A field of this type can be declared with this index type: strings with
/// any, `i32` fields indexed or not indexed, unhandled types with none.
pub open spec fn supported(field_type: FieldType, index_type: IndexType) -> bool {
    match field_type {
        FieldType::String => true,
        FieldType::I32 => index_type == IndexType::indexed || index_type == IndexType::not_indexed,
        FieldType::Unhandled => false,
    }
}

/// The schema entry of a field.
pub open spec fn field_entry(name: Seq<char>, field_type: FieldType, index_type: IndexType, stored: bool) -> FieldEntryView {
    match field_type {
        FieldType::I32 => numeric_entry(
            name,
            SchemaFieldType::I64,
            NumericOptions { indexed: index_type == IndexType::indexed, stored },
        ),
        _ => FieldEntryView {
            name,
            field_type: SchemaFieldType::Str,
            indexing: match index_type {
                IndexType::indexed_string | IndexType::indexed => Indexing::Raw,
                IndexType::indexed_text => Indexing::Tokenized,
                IndexType::not_indexed => Indexing::NotIndexed,
            },
            stored,
        },
    }
}

impl FieldInfo {
    /// A field that is not the id; without an index type it is not indexed.
    pub fn new(field_name: String, field_type: FieldType, index_type: Option<IndexType>, stored: bool) -> (r: Self)
        ensures
            !r.is_id,
            r.field_type == field_type,
            r.field_name == field_name,
            r.index_type == match index_type {
                Some(t) => t,
                None => IndexType::not_indexed,
            },
            r.stored == stored,
    {
        let index_type = match index_type {
            Some(t) => t,
            None => IndexType::not_indexed,
        };
        FieldInfo { is_id: false, field_type, field_name, index_type, stored }
    }

    /// The id field: indexed and stored.
    pub fn new_id_field(field_name: String, field_type: FieldType) -> (r: Self)
        ensures
            r.is_id,
            r.field_type == field_type,
            r.field_name == field_name,
            r.index_type == IndexType::indexed,
            r.stored,
    {
        FieldInfo { is_id: true, field_type, field_name, index_type: IndexType::indexed, stored: true }
    }

    /// Adds this field to the schema.
    pub fn add_to_schema(&self, schema_builder: &mut SchemaBuilder)
        requires
            supported(self.field_type, self.index_type),
            !has_name(old(schema_builder).entries(), self.field_name@),
            old(schema_builder).entries().len() < u32::MAX,
        ensures
            final(schema_builder).entries() == old(schema_builder).entries().push(
                field_entry(self.field_name@, self.field_type, self.index_type, self.stored),
            ),
    {
        match self.field_type {
            FieldType::I32 => {
                let mut numeric_options = match self.index_type {
                    IndexType::indexed => NumericOptions::indexed(),
                    _ => NumericOptions::none(),
                };
                if self.stored {
                    numeric_options = numeric_options.set_stored();
                }
                schema_builder.add_i64_field(self.field_name.as_str(), numeric_options);
            },
            _ => {
                let mut text_options = match self.index_type {
                    IndexType::indexed_string => TextOptions::string(),
                    IndexType::indexed_text => TextOptions::text(),
                    IndexType::indexed => TextOptions::string(),
                    IndexType::not_indexed => TextOptions::none(),
                };
                if self.stored {
                    text_options = text_options.set_stored();
                }
                schema_builder.add_text_field(self.field_name.as_str(), text_options);
            },
        }
    }
}

} // verus!
