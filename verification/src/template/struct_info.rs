//! The fields of an indexed struct, and the schema they make.
use vstd::prelude::*;

use super::field_info::{field_entry, supported, FieldInfo};
use crate::schema::{has_name, FieldEntryView, Schema, SchemaBuilder};

verus! {

pub struct StructInfo {
    pub struct_name: String,
    pub fields: Vec<FieldInfo>,
}

/// The schema entries of `fields`, in order.
pub open spec fn field_entries(fields: Seq<FieldInfo>) -> Seq<FieldEntryView> {
    fields.map_values(|f: FieldInfo| field_entry(f.field_name@, f.field_type, f.index_type, f.stored))
}

/// Every field has a supported type and index type, and no two fields share
/// a name: the fields make a schema.
pub open spec fn fields_make_schema(fields: Seq<FieldInfo>) -> bool {
    &&& fields.len() < u32::MAX
    &&& forall|i: int| 0 <= i < fields.len() ==> supported(#[trigger] fields[i].field_type, fields[i].index_type)
    &&& forall|i: int, j: int|
        0 <= i < fields.len() && 0 <= j < fields.len() && i != j ==> #[trigger] fields[i].field_name@
            != #[trigger] fields[j].field_name@
}

impl StructInfo {
    /// A struct named `name` with no fields yet.
    pub fn new(name: String) -> (r: Self)
        ensures
            r.struct_name == name,
            r.fields@.len() == 0,
    {
        StructInfo { struct_name: name, fields: Vec::new() }
    }

    /// Adds `field` after the others.
    pub fn add_field(&mut self, field: FieldInfo)
        ensures
            final(self).struct_name == old(self).struct_name,
            final(self).fields@ == old(self).fields@.push(field),
    {
        self.fields.push(field);
    }

    /// The schema with one entry per field, in order.
    pub fn generate_schema(&self) -> (r: Schema)
        requires
            fields_make_schema(self.fields@),
        ensures
            r.entries() == field_entries(self.fields@),
    {
        let mut schema_builder = SchemaBuilder::new();
        let mut i: usize = 0;
        while i < self.fields.len()
            invariant
                i <= self.fields@.len(),
                fields_make_schema(self.fields@),
                schema_builder.entries() == field_entries(self.fields@.take(i as int)),
            decreases self.fields@.len() - i,
        {
            proof {
                let f = self.fields@[i as int];
                let es = schema_builder.entries();
                if has_name(es, f.field_name@) {
                    let k = choose|k: int| 0 <= k < es.len() && #[trigger] es[k].name == f.field_name@;
                    assert(es[k].name == self.fields@[k].field_name@);
                }
                assert(supported(self.fields@[i as int].field_type, self.fields@[i as int].index_type));
            }
            self.fields[i].add_to_schema(&mut schema_builder);
            proof {
                assert(field_entries(self.fields@.take(i + 1)) =~= field_entries(self.fields@.take(i as int)).push(
                    field_entry(
                        self.fields@[i as int].field_name@,
                        self.fields@[i as int].field_type,
                        self.fields@[i as int].index_type,
                        self.fields@[i as int].stored,
                    ),
                ));
            }
            i += 1;
        }
        assert(self.fields@.take(i as int) =~= self.fields@);
        schema_builder.build()
    }

    /// The first field marked as the id.
    pub fn get_id_field(&self) -> (r: &FieldInfo)
        requires
            exists|i: int| 0 <= i < self.fields@.len() && (#[trigger] self.fields@[i]).is_id,
        ensures
            exists|i: int|
                0 <= i < self.fields@.len() && self.fields@[i] == *r && r.is_id && forall|j: int|
                    0 <= j < i ==> !(#[trigger] self.fields@[j]).is_id,
    {
        let mut i: usize = 0;
        while i < self.fields.len()
            invariant
                i <= self.fields@.len(),
                forall|j: int| 0 <= j < i ==> !(#[trigger] self.fields@[j]).is_id,
            decreases self.fields@.len() - i,
        {
            if self.fields[i].is_id {
                return &self.fields[i];
            }
            i += 1;
        }
        assert(false);
        &self.fields[0]
    }
}

} // verus!
