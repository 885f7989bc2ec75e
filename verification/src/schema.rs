//! A description of an index schema: its fields in the order they were
//! added, each with its name, value type, indexing and storage.
//!
//! The field ids of this description are the positions of the fields, as
//! in the index that is built from it.
use vstd::prelude::*;

verus! {

/// The value type of a schema field, as a range query names it.
#[derive(Debug, Clone, Copy, PartialEq, Eq, Structural)]
pub enum ValueType {
    Str,
    U64,
    I64,
    F64,
    Bool,
    Date,
    Facet,
    Bytes,
    Json,
    IpAddr,
}

/// The kind of a schema field.
#[derive(Debug, Clone, Copy, PartialEq, Eq, Structural)]
pub enum SchemaFieldType {
    Str,
    U64,
    I64,
    F64,
    Bool,
    Date,
    Facet,
    Bytes,
    JsonObject,
    IpAddr,
}

/// The value type that range queries on a field of kind `t` use: the
/// matching type for strings, integers, floats, booleans and dates, and
/// `Str` for every other kind.
pub open spec fn spec_value_type(t: SchemaFieldType) -> ValueType {
    match t {
        SchemaFieldType::Str => ValueType::Str,
        SchemaFieldType::U64 => ValueType::U64,
        SchemaFieldType::I64 => ValueType::I64,
        SchemaFieldType::F64 => ValueType::F64,
        SchemaFieldType::Bool => ValueType::Bool,
        SchemaFieldType::Date => ValueType::Date,
        _ => ValueType::Str,
    }
}

/// Get the value type for a field from its field type.
pub fn get_field_value_type(field_type: &SchemaFieldType) -> (r: ValueType)
    ensures
        r == spec_value_type(*field_type),
{
    match field_type {
        SchemaFieldType::Str => ValueType::Str,
        SchemaFieldType::U64 => ValueType::U64,
        SchemaFieldType::I64 => ValueType::I64,
        SchemaFieldType::F64 => ValueType::F64,
        SchemaFieldType::Bool => ValueType::Bool,
        SchemaFieldType::Date => ValueType::Date,
        _ => ValueType::Str,
    }
}

/// How a field's values are indexed: not at all, each value as one term
/// (strings untokenized, numbers as they are), or split into word tokens.
#[derive(Debug, Clone, Copy, PartialEq, Eq, Structural)]
pub enum Indexing {
    NotIndexed,
    Raw,
    Tokenized,
}

/// The id of a field: its position in the schema.
#[derive(Debug, Clone, Copy, PartialEq, Eq, Structural)]
pub struct Field(pub u32);

/// The abstract content of a field entry.
pub struct FieldEntryView {
    pub name: Seq<char>,
    pub field_type: SchemaFieldType,
    pub indexing: Indexing,
    pub stored: bool,
}

/// One field of a schema.
#[derive(Debug)]
pub struct FieldEntry {
    pub name: String,
    pub field_type: SchemaFieldType,
    pub indexing: Indexing,
    pub stored: bool,
}

impl View for FieldEntry {
    type V = FieldEntryView;

    open spec fn view(&self) -> FieldEntryView {
        FieldEntryView {
            name: self.name@,
            field_type: self.field_type,
            indexing: self.indexing,
            stored: self.stored,
        }
    }
}

/// Options of a text field.
#[derive(Debug, Clone, Copy, PartialEq, Eq, Structural)]
pub struct TextOptions {
    pub indexing: Indexing,
    pub stored: bool,
}

impl TextOptions {
    /// Indexed as one untokenized term, not stored.
    pub fn string() -> (r: Self)
        ensures
            r == (TextOptions { indexing: Indexing::Raw, stored: false }),
    {
        TextOptions { indexing: Indexing::Raw, stored: false }
    }

    /// Indexed as word tokens, not stored.
    pub fn text() -> (r: Self)
        ensures
            r == (TextOptions { indexing: Indexing::Tokenized, stored: false }),
    {
        TextOptions { indexing: Indexing::Tokenized, stored: false }
    }

    /// Neither indexed nor stored.
    pub fn none() -> (r: Self)
        ensures
            r == (TextOptions { indexing: Indexing::NotIndexed, stored: false }),
    {
        TextOptions { indexing: Indexing::NotIndexed, stored: false }
    }

    pub fn set_stored(self) -> (r: Self)
        ensures
            r == (TextOptions { stored: true, ..self }),
    {
        TextOptions { stored: true, ..self }
    }
}

/// Options of a numeric, boolean or date field.
#[derive(Debug, Clone, Copy, PartialEq, Eq, Structural)]
pub struct NumericOptions {
    pub indexed: bool,
    pub stored: bool,
}

impl NumericOptions {
    /// Indexed, not stored.
    pub fn indexed() -> (r: Self)
        ensures
            r == (NumericOptions { indexed: true, stored: false }),
    {
        NumericOptions { indexed: true, stored: false }
    }

    /// Neither indexed nor stored.
    pub fn none() -> (r: Self)
        ensures
            r == (NumericOptions { indexed: false, stored: false }),
    {
        NumericOptions { indexed: false, stored: false }
    }

    pub fn set_indexed(self) -> (r: Self)
        ensures
            r == (NumericOptions { indexed: true, ..self }),
    {
        NumericOptions { indexed: true, ..self }
    }

    pub fn set_stored(self) -> (r: Self)
        ensures
            r == (NumericOptions { stored: true, ..self }),
    {
        NumericOptions { stored: true, ..self }
    }
}

/// Whether some entry of `entries` is named `name`.
pub open spec fn has_name(entries: Seq<FieldEntryView>, name: Seq<char>) -> bool {
    exists|i: int| 0 <= i < entries.len() && #[trigger] entries[i].name == name
}

/// No two entries share a name.
pub open spec fn distinct_names(entries: Seq<FieldEntryView>) -> bool {
    forall|i: int, j: int|
        0 <= i < entries.len() && 0 <= j < entries.len() && i != j ==> #[trigger] entries[i].name
            != #[trigger] entries[j].name
}

/// The schema under construction.
#[derive(Debug)]
pub struct SchemaBuilder {
    fields: Vec<FieldEntry>,
}

/// A finished schema.
#[derive(Debug)]
pub struct Schema {
    fields: Vec<FieldEntry>,
}

impl SchemaBuilder {
    #[verifier::type_invariant]
    spec fn inv(self) -> bool {
        self.fields@.len() <= u32::MAX
    }

    /// The entries added so far, in order.
    pub closed spec fn entries(&self) -> Seq<FieldEntryView> {
        self.fields@.map_values(|e: FieldEntry| e@)
    }

    pub fn new() -> (r: Self)
        ensures
            r.entries() == Seq::<FieldEntryView>::empty(),
    {
        let r = SchemaBuilder { fields: Vec::new() };
        assert(r.entries() =~= Seq::<FieldEntryView>::empty());
        r
    }

    /// Whether a field named `name` was added already.
    pub fn has_field(&self, name: &str) -> (r: bool)
        ensures
            r == has_name(self.entries(), name@),
    {
        let target = String::from_str(name);
        let mut i: usize = 0;
        while i < self.fields.len()
            invariant
                i <= self.fields@.len(),
                target@ == name@,
                forall|j: int| 0 <= j < i ==> self.entries()[j].name != name@,
            decreases self.fields@.len() - i,
        {
            if self.fields[i].name == target {
                assert(self.entries()[i as int].name == name@);
                return true;
            }
            i += 1;
        }
        false
    }

    fn push_entry(&mut self, entry: FieldEntry) -> (r: Field)
        requires
            old(self).entries().len() < u32::MAX,
        ensures
            final(self).entries() == old(self).entries().push(entry@),
            r == Field(old(self).entries().len() as u32),
    {
        proof {
            use_type_invariant(&*self);
        }
        let id = self.fields.len() as u32;
        let mut fields: Vec<FieldEntry> = Vec::new();
        std::mem::swap(&mut fields, &mut self.fields);
        fields.push(entry);
        self.fields = fields;
        assert(self.entries() =~= old(self).entries().push(entry@));
        Field(id)
    }

    /// Adds a text field named `name`.
    pub fn add_text_field(&mut self, name: &str, options: TextOptions) -> (r: Field)
        requires
            !has_name(old(self).entries(), name@),
            old(self).entries().len() < u32::MAX,
        ensures
            final(self).entries() == old(self).entries().push(
                FieldEntryView {
                    name: name@,
                    field_type: SchemaFieldType::Str,
                    indexing: options.indexing,
                    stored: options.stored,
                },
            ),
            r == Field(old(self).entries().len() as u32),
    {
        self.push_entry(
            FieldEntry {
                name: String::from_str(name),
                field_type: SchemaFieldType::Str,
                indexing: options.indexing,
                stored: options.stored,
            },
        )
    }

    fn add_numeric_field(&mut self, name: &str, field_type: SchemaFieldType, options: NumericOptions) -> (r: Field)
        requires
            !has_name(old(self).entries(), name@),
            old(self).entries().len() < u32::MAX,
        ensures
            final(self).entries() == old(self).entries().push(numeric_entry(name@, field_type, options)),
            r == Field(old(self).entries().len() as u32),
    {
        let indexing = if options.indexed {
            Indexing::Raw
        } else {
            Indexing::NotIndexed
        };
        self.push_entry(
            FieldEntry { name: String::from_str(name), field_type, indexing, stored: options.stored },
        )
    }

    /// Adds a signed integer field named `name`.
    pub fn add_i64_field(&mut self, name: &str, options: NumericOptions) -> (r: Field)
        requires
            !has_name(old(self).entries(), name@),
            old(self).entries().len() < u32::MAX,
        ensures
            final(self).entries() == old(self).entries().push(numeric_entry(name@, SchemaFieldType::I64, options)),
            r == Field(old(self).entries().len() as u32),
    {
        self.add_numeric_field(name, SchemaFieldType::I64, options)
    }

    /// Adds an unsigned integer field named `name`.
    pub fn add_u64_field(&mut self, name: &str, options: NumericOptions) -> (r: Field)
        requires
            !has_name(old(self).entries(), name@),
            old(self).entries().len() < u32::MAX,
        ensures
            final(self).entries() == old(self).entries().push(numeric_entry(name@, SchemaFieldType::U64, options)),
            r == Field(old(self).entries().len() as u32),
    {
        self.add_numeric_field(name, SchemaFieldType::U64, options)
    }

    /// Adds a floating-point field named `name`.
    pub fn add_f64_field(&mut self, name: &str, options: NumericOptions) -> (r: Field)
        requires
            !has_name(old(self).entries(), name@),
            old(self).entries().len() < u32::MAX,
        ensures
            final(self).entries() == old(self).entries().push(numeric_entry(name@, SchemaFieldType::F64, options)),
            r == Field(old(self).entries().len() as u32),
    {
        self.add_numeric_field(name, SchemaFieldType::F64, options)
    }

    /// Adds a boolean field named `name`.
    pub fn add_bool_field(&mut self, name: &str, options: NumericOptions) -> (r: Field)
        requires
            !has_name(old(self).entries(), name@),
            old(self).entries().len() < u32::MAX,
        ensures
            final(self).entries() == old(self).entries().push(numeric_entry(name@, SchemaFieldType::Bool, options)),
            r == Field(old(self).entries().len() as u32),
    {
        self.add_numeric_field(name, SchemaFieldType::Bool, options)
    }

    /// Adds a date field named `name`.
    pub fn add_date_field(&mut self, name: &str, options: NumericOptions) -> (r: Field)
        requires
            !has_name(old(self).entries(), name@),
            old(self).entries().len() < u32::MAX,
        ensures
            final(self).entries() == old(self).entries().push(numeric_entry(name@, SchemaFieldType::Date, options)),
            r == Field(old(self).entries().len() as u32),
    {
        self.add_numeric_field(name, SchemaFieldType::Date, options)
    }

    /// The finished schema, with the entries added.
    pub fn build(self) -> (r: Schema)
        ensures
            r.entries() == self.entries(),
    {
        proof {
            use_type_invariant(&self);
        }
        Schema { fields: self.fields }
    }
}

/// The entry of a numeric, boolean or date field.
pub open spec fn numeric_entry(name: Seq<char>, field_type: SchemaFieldType, options: NumericOptions) -> FieldEntryView {
    FieldEntryView {
        name,
        field_type,
        indexing: if options.indexed {
            Indexing::Raw
        } else {
            Indexing::NotIndexed
        },
        stored: options.stored,
    }
}

/// The position of the first entry named `name` (meaningful when there is one).
pub open spec fn field_position(entries: Seq<FieldEntryView>, name: Seq<char>) -> int {
    choose|i: int|
        0 <= i < entries.len() && entries[i].name == name && forall|j: int|
            0 <= j < i ==> #[trigger] entries[j].name != name
}

/// The first entry named `name` is at position `i`.
pub proof fn lemma_field_position(entries: Seq<FieldEntryView>, name: Seq<char>, i: int)
    requires
        0 <= i < entries.len(),
        entries[i].name == name,
        forall|j: int| 0 <= j < i ==> #[trigger] entries[j].name != name,
    ensures
        field_position(entries, name) == i,
{
    let k = field_position(entries, name);
    assert(0 <= k < entries.len() && entries[k].name == name);
    if k < i {
        assert(entries[k].name != name);
    }
    if i < k {
        assert(entries[i].name != name);
    }
}

impl Schema {
    #[verifier::type_invariant]
    spec fn inv(self) -> bool {
        self.fields@.len() <= u32::MAX
    }

    /// The entries of the schema, in order.
    pub closed spec fn entries(&self) -> Seq<FieldEntryView> {
        self.fields@.map_values(|e: FieldEntry| e@)
    }

    pub fn num_fields(&self) -> (r: usize)
        ensures
            r == self.entries().len(),
    {
        self.fields.len()
    }

    /// The id of the first field named `name`, if the schema has one.
    pub fn get_field(&self, name: &str) -> (r: Option<Field>)
        ensures
            match r {
                Some(f) => {
                    &&& has_name(self.entries(), name@)
                    &&& f.0 == field_position(self.entries(), name@)
                    &&& f.0 < self.entries().len()
                    &&& self.entries()[f.0 as int].name == name@
                },
                None => !has_name(self.entries(), name@),
            },
    {
        proof {
            use_type_invariant(self);
        }
        let target = String::from_str(name);
        let mut i: usize = 0;
        while i < self.fields.len()
            invariant
                i <= self.fields@.len(),
                self.fields@.len() <= u32::MAX,
                self.fields@.len() == self.entries().len(),
                target@ == name@,
                forall|j: int| 0 <= j < i ==> #[trigger] self.entries()[j].name != name@,
            decreases self.fields@.len() - i,
        {
            if self.fields[i].name == target {
                proof {
                    lemma_field_position(self.entries(), name@, i as int);
                }
                return Some(Field(i as u32));
            }
            i += 1;
        }
        None
    }

    /// The entry of field `field`.
    pub fn get_field_entry(&self, field: Field) -> (r: &FieldEntry)
        requires
            field.0 < self.entries().len(),
        ensures
            r@ == self.entries()[field.0 as int],
    {
        &self.fields[field.0 as usize]
    }
}

} // verus!
