//! The types that a field of an indexed struct can have: how each is
//! declared in the schema, written into a document, read back from one, and
//! turned into a term.
use vstd::prelude::*;

use crate::document::{values_of, Document, OwnedValue, OwnedValueView, Term};
use crate::index_type::IndexType;
use crate::schema::{
    has_name, numeric_entry, spec_value_type, Field, FieldEntryView, Indexing, NumericOptions,
    SchemaBuilder, SchemaFieldType, TextOptions, ValueType,
};
use crate::search_query::{FilterValue, IntoFilterValue, ValueView};

verus! {

/// The document entries that `values` of `field` make, in order.
pub open spec fn field_entries(field: Field, values: Seq<OwnedValueView>) -> Seq<(Field, OwnedValueView)> {
    values.map_values(|v: OwnedValueView| (field, v))
}

/// The term value that finds a stored value: the same value, of the same
/// kind; none for a value of another kind.
pub open spec fn term_of_stored(v: OwnedValueView) -> Option<ValueView> {
    match v {
        OwnedValueView::Str(s) => Some(ValueView::Str(s)),
        OwnedValueView::U64(u) => Some(ValueView::U64(u)),
        OwnedValueView::I64(i) => Some(ValueView::I64(i)),
        OwnedValueView::F64(b) => Some(ValueView::F64(b)),
        OwnedValueView::Bool(b) => Some(ValueView::Bool(b)),
        OwnedValueView::Date(d) => Some(ValueView::Date(d)),
        OwnedValueView::Other => None,
    }
}

/// The kind of a term value.
pub open spec fn value_kind(v: ValueView) -> ValueType {
    match v {
        ValueView::Str(_) => ValueType::Str,
        ValueView::U64(_) => ValueType::U64,
        ValueView::I64(_) => ValueType::I64,
        ValueView::F64(_) => ValueType::F64,
        ValueView::Bool(_) => ValueType::Bool,
        ValueView::Date(_) => ValueType::Date,
    }
}

/// Types that can be indexed and stored as the value of a field.
pub trait IndexField: Sized {
    /// The index types that a field of this type can be declared with.
    spec fn accepts_index_type(index_type: IndexType) -> bool;

    /// Whether a value of this type is one value of its field (rather than
    /// several).
    spec fn single_valued() -> bool;

    /// The schema entry of a field of this type.
    spec fn schema_entry(name: Seq<char>, stored: bool, index_type: IndexType) -> FieldEntryView;

    /// The values that a document holds for `self`.
    spec fn document_values(&self) -> Seq<OwnedValueView>;

    /// Whether a stored value can be read back as a value of this type.
    spec fn decodable(value: OwnedValueView) -> bool;

    /// `x` is what the stored value `value` reads back as.
    spec fn decodes_to(value: OwnedValueView, x: Self) -> bool;

    /// The value of the term that finds `self`.
    spec fn term_value(&self) -> ValueView;

    /// Declaring a field of this type keeps its name and storage, and
    /// indexes it exactly when the index type is not `not_indexed`.
    proof fn lemma_declaration(name: Seq<char>, stored: bool, index_type: IndexType)
        requires
            Self::accepts_index_type(index_type),
        ensures
            Self::schema_entry(name, stored, index_type).name == name,
            Self::schema_entry(name, stored, index_type).stored == stored,
            (Self::schema_entry(name, stored, index_type).indexing == Indexing::NotIndexed) <==> (index_type
                == IndexType::not_indexed),
    ;

    /// A single value is written as one stored value; its term is that
    /// stored value, and of the kind that range filters use on a field of
    /// this type.
    proof fn lemma_term_of_value(&self, name: Seq<char>, stored: bool, index_type: IndexType)
        requires
            Self::single_valued(),
        ensures
            self.document_values().len() == 1,
            term_of_stored(self.document_values()[0]) == Some(self.term_value()),
            value_kind(self.term_value()) == spec_value_type(
                Self::schema_entry(name, stored, index_type).field_type,
            ),
    ;

    /// Returns the type name for schema generation
    fn field_type_name() -> &'static str;

    /// Adds a field with this type to the schema
    fn add_to_schema(builder: &mut SchemaBuilder, name: &str, stored: bool, index_type: IndexType)
        requires
            Self::accepts_index_type(index_type),
            !has_name(old(builder).entries(), name@),
            old(builder).entries().len() < u32::MAX,
        ensures
            final(builder).entries() == old(builder).entries().push(
                Self::schema_entry(name@, stored, index_type),
            ),
    ;

    /// Adds this value to a document
    fn add_to_document(&self, doc: &mut Document, field: Field)
        ensures
            final(doc).entries() == old(doc).entries() + field_entries(field, self.document_values()),
    ;

    /// Converts an OwnedValue back to this type
    fn from_owned_value(value: &OwnedValue) -> (r: Option<Self>)
        requires
            Self::single_valued(),
        ensures
            r is Some <==> Self::decodable(value@),
            r matches Some(x) ==> Self::decodes_to(value@, x),
    ;

    /// Creates a term for this value (used for delete operations)
    fn to_term(&self, field: Field) -> (r: Term)
        requires
            Self::single_valued(),
        ensures
            r@ == (field, self.term_value()),
    ;
}

/// A point in time, as nanoseconds since the Unix epoch.
#[derive(Debug, Clone, Copy, PartialEq, Eq, Structural)]
pub struct DateTime {
    pub timestamp_nanos: i64,
}

impl DateTime {
    pub fn from_timestamp_nanos(timestamp_nanos: i64) -> (r: Self)
        ensures
            r.timestamp_nanos == timestamp_nanos,
    {
        DateTime { timestamp_nanos }
    }

    pub fn into_timestamp_nanos(self) -> (r: i64)
        ensures
            r == self.timestamp_nanos,
    {
        self.timestamp_nanos
    }
}

/// A 64-bit floating-point number, held as its IEEE-754 bit pattern.
#[derive(Debug, Clone, Copy, PartialEq, Eq, Structural)]
pub struct Float64 {
    pub bits: u64,
}

impl IntoFilterValue for DateTime {
    open spec fn value_view(&self) -> ValueView {
        ValueView::Date(self.timestamp_nanos)
    }

    fn into_filter_value(self) -> (r: FilterValue) {
        FilterValue::Date(self.timestamp_nanos)
    }
}

impl IntoFilterValue for Float64 {
    open spec fn value_view(&self) -> ValueView {
        ValueView::F64(self.bits)
    }

    fn into_filter_value(self) -> (r: FilterValue) {
        FilterValue::F64(self.bits)
    }
}

/// The indexing that the text options for `index_type` give.
pub open spec fn text_indexing(index_type: IndexType) -> Indexing {
    match index_type {
        IndexType::indexed_string | IndexType::indexed => Indexing::Raw,
        IndexType::indexed_text => Indexing::Tokenized,
        IndexType::not_indexed => Indexing::NotIndexed,
    }
}

/// The index types a numeric, boolean or date field accepts.
pub open spec fn numeric_index_type(index_type: IndexType) -> bool {
    index_type == IndexType::indexed || index_type == IndexType::not_indexed
}

/// The options of a numeric, boolean or date field.
pub open spec fn numeric_options(stored: bool, index_type: IndexType) -> NumericOptions {
    NumericOptions { indexed: index_type == IndexType::indexed, stored }
}

fn numeric_options_for(stored: bool, index_type: IndexType) -> (r: NumericOptions)
    requires
        numeric_index_type(index_type),
    ensures
        r == numeric_options(stored, index_type),
{
    let mut opts = match index_type {
        IndexType::indexed => NumericOptions::indexed(),
        _ => NumericOptions::none(),
    };
    if stored {
        opts = opts.set_stored();
    }
    opts
}

proof fn lemma_one_entry(field: Field, v: OwnedValueView)
    ensures
        field_entries(field, seq![v]) == seq![(field, v)],
{
    assert(field_entries(field, seq![v]) =~= seq![(field, v)]);
}

// String implementation
impl IndexField for String {
    open spec fn accepts_index_type(index_type: IndexType) -> bool {
        true
    }

    open spec fn single_valued() -> bool {
        true
    }

    open spec fn schema_entry(name: Seq<char>, stored: bool, index_type: IndexType) -> FieldEntryView {
        FieldEntryView {
            name,
            field_type: SchemaFieldType::Str,
            indexing: text_indexing(index_type),
            stored,
        }
    }

    open spec fn document_values(&self) -> Seq<OwnedValueView> {
        seq![OwnedValueView::Str(self@)]
    }

    open spec fn decodable(value: OwnedValueView) -> bool {
        value is Str
    }

    open spec fn decodes_to(value: OwnedValueView, x: Self) -> bool {
        value == OwnedValueView::Str(x@)
    }

    open spec fn term_value(&self) -> ValueView {
        ValueView::Str(self@)
    }

    fn field_type_name() -> (r: &'static str)
        ensures
            r@ == "String"@,
    {
        "String"
    }

    proof fn lemma_declaration(name: Seq<char>, stored: bool, index_type: IndexType) {
    }

    proof fn lemma_term_of_value(&self, name: Seq<char>, stored: bool, index_type: IndexType) {
    }

    fn add_to_schema(builder: &mut SchemaBuilder, name: &str, stored: bool, index_type: IndexType) {
        let mut opts = match index_type {
            IndexType::indexed_string | IndexType::indexed => TextOptions::string(),
            IndexType::indexed_text => TextOptions::text(),
            IndexType::not_indexed => TextOptions::none(),
        };
        if stored {
            opts = opts.set_stored();
        }
        builder.add_text_field(name, opts);
    }

    fn add_to_document(&self, doc: &mut Document, field: Field) {
        proof {
            lemma_one_entry(field, OwnedValueView::Str(self@));
        }
        doc.add_text(field, self.as_str());
    }

    fn from_owned_value(value: &OwnedValue) -> (r: Option<Self>) {
        match value {
            OwnedValue::Str(s) => Some(s.clone()),
            _ => None,
        }
    }

    fn to_term(&self, field: Field) -> (r: Term) {
        Term { field, value: FilterValue::Str(self.clone()) }
    }
}

// i32 implementation (stored as i64)
impl IndexField for i32 {
    open spec fn accepts_index_type(index_type: IndexType) -> bool {
        numeric_index_type(index_type)
    }

    open spec fn single_valued() -> bool {
        true
    }

    open spec fn schema_entry(name: Seq<char>, stored: bool, index_type: IndexType) -> FieldEntryView {
        numeric_entry(name, SchemaFieldType::I64, numeric_options(stored, index_type))
    }

    open spec fn document_values(&self) -> Seq<OwnedValueView> {
        seq![OwnedValueView::I64(*self as i64)]
    }

    open spec fn decodable(value: OwnedValueView) -> bool {
        value is I64
    }

    open spec fn decodes_to(value: OwnedValueView, x: Self) -> bool {
        value matches OwnedValueView::I64(i) && x == i as i32
    }

    open spec fn term_value(&self) -> ValueView {
        ValueView::I64(*self as i64)
    }

    fn field_type_name() -> (r: &'static str)
        ensures
            r@ == "i32"@,
    {
        "i32"
    }

    proof fn lemma_declaration(name: Seq<char>, stored: bool, index_type: IndexType) {
    }

    proof fn lemma_term_of_value(&self, name: Seq<char>, stored: bool, index_type: IndexType) {
    }

    fn add_to_schema(builder: &mut SchemaBuilder, name: &str, stored: bool, index_type: IndexType) {
        let opts = numeric_options_for(stored, index_type);
        builder.add_i64_field(name, opts);
    }

    fn add_to_document(&self, doc: &mut Document, field: Field) {
        proof {
            lemma_one_entry(field, OwnedValueView::I64(*self as i64));
        }
        doc.add_i64(field, *self as i64);
    }

    fn from_owned_value(value: &OwnedValue) -> (r: Option<Self>) {
        match value {
            OwnedValue::I64(i) => Some(*i as i32),
            _ => None,
        }
    }

    fn to_term(&self, field: Field) -> (r: Term) {
        Term { field, value: FilterValue::I64(*self as i64) }
    }
}

// i64 implementation
impl IndexField for i64 {
    open spec fn accepts_index_type(index_type: IndexType) -> bool {
        numeric_index_type(index_type)
    }

    open spec fn single_valued() -> bool {
        true
    }

    open spec fn schema_entry(name: Seq<char>, stored: bool, index_type: IndexType) -> FieldEntryView {
        numeric_entry(name, SchemaFieldType::I64, numeric_options(stored, index_type))
    }

    open spec fn document_values(&self) -> Seq<OwnedValueView> {
        seq![OwnedValueView::I64(*self)]
    }

    open spec fn decodable(value: OwnedValueView) -> bool {
        value is I64
    }

    open spec fn decodes_to(value: OwnedValueView, x: Self) -> bool {
        value == OwnedValueView::I64(x)
    }

    open spec fn term_value(&self) -> ValueView {
        ValueView::I64(*self)
    }

    fn field_type_name() -> (r: &'static str)
        ensures
            r@ == "i64"@,
    {
        "i64"
    }

    proof fn lemma_declaration(name: Seq<char>, stored: bool, index_type: IndexType) {
    }

    proof fn lemma_term_of_value(&self, name: Seq<char>, stored: bool, index_type: IndexType) {
    }

    fn add_to_schema(builder: &mut SchemaBuilder, name: &str, stored: bool, index_type: IndexType) {
        let opts = numeric_options_for(stored, index_type);
        builder.add_i64_field(name, opts);
    }

    fn add_to_document(&self, doc: &mut Document, field: Field) {
        proof {
            lemma_one_entry(field, OwnedValueView::I64(*self));
        }
        doc.add_i64(field, *self);
    }

    fn from_owned_value(value: &OwnedValue) -> (r: Option<Self>) {
        match value {
            OwnedValue::I64(i) => Some(*i),
            _ => None,
        }
    }

    fn to_term(&self, field: Field) -> (r: Term) {
        Term { field, value: FilterValue::I64(*self) }
    }
}

// u32 implementation (stored as u64)
impl IndexField for u32 {
    open spec fn accepts_index_type(index_type: IndexType) -> bool {
        numeric_index_type(index_type)
    }

    open spec fn single_valued() -> bool {
        true
    }

    open spec fn schema_entry(name: Seq<char>, stored: bool, index_type: IndexType) -> FieldEntryView {
        numeric_entry(name, SchemaFieldType::U64, numeric_options(stored, index_type))
    }

    open spec fn document_values(&self) -> Seq<OwnedValueView> {
        seq![OwnedValueView::U64(*self as u64)]
    }

    open spec fn decodable(value: OwnedValueView) -> bool {
        value is U64
    }

    open spec fn decodes_to(value: OwnedValueView, x: Self) -> bool {
        value matches OwnedValueView::U64(u) && x == u as u32
    }

    open spec fn term_value(&self) -> ValueView {
        ValueView::U64(*self as u64)
    }

    fn field_type_name() -> (r: &'static str)
        ensures
            r@ == "u32"@,
    {
        "u32"
    }

    proof fn lemma_declaration(name: Seq<char>, stored: bool, index_type: IndexType) {
    }

    proof fn lemma_term_of_value(&self, name: Seq<char>, stored: bool, index_type: IndexType) {
    }

    fn add_to_schema(builder: &mut SchemaBuilder, name: &str, stored: bool, index_type: IndexType) {
        let opts = numeric_options_for(stored, index_type);
        builder.add_u64_field(name, opts);
    }

    fn add_to_document(&self, doc: &mut Document, field: Field) {
        proof {
            lemma_one_entry(field, OwnedValueView::U64(*self as u64));
        }
        doc.add_u64(field, *self as u64);
    }

    fn from_owned_value(value: &OwnedValue) -> (r: Option<Self>) {
        match value {
            OwnedValue::U64(u) => Some(*u as u32),
            _ => None,
        }
    }

    fn to_term(&self, field: Field) -> (r: Term) {
        Term { field, value: FilterValue::U64(*self as u64) }
    }
}

// u64 implementation
impl IndexField for u64 {
    open spec fn accepts_index_type(index_type: IndexType) -> bool {
        numeric_index_type(index_type)
    }

    open spec fn single_valued() -> bool {
        true
    }

    open spec fn schema_entry(name: Seq<char>, stored: bool, index_type: IndexType) -> FieldEntryView {
        numeric_entry(name, SchemaFieldType::U64, numeric_options(stored, index_type))
    }

    open spec fn document_values(&self) -> Seq<OwnedValueView> {
        seq![OwnedValueView::U64(*self)]
    }

    open spec fn decodable(value: OwnedValueView) -> bool {
        value is U64
    }

    open spec fn decodes_to(value: OwnedValueView, x: Self) -> bool {
        value == OwnedValueView::U64(x)
    }

    open spec fn term_value(&self) -> ValueView {
        ValueView::U64(*self)
    }

    fn field_type_name() -> (r: &'static str)
        ensures
            r@ == "u64"@,
    {
        "u64"
    }

    proof fn lemma_declaration(name: Seq<char>, stored: bool, index_type: IndexType) {
    }

    proof fn lemma_term_of_value(&self, name: Seq<char>, stored: bool, index_type: IndexType) {
    }

    fn add_to_schema(builder: &mut SchemaBuilder, name: &str, stored: bool, index_type: IndexType) {
        let opts = numeric_options_for(stored, index_type);
        builder.add_u64_field(name, opts);
    }

    fn add_to_document(&self, doc: &mut Document, field: Field) {
        proof {
            lemma_one_entry(field, OwnedValueView::U64(*self));
        }
        doc.add_u64(field, *self);
    }

    fn from_owned_value(value: &OwnedValue) -> (r: Option<Self>) {
        match value {
            OwnedValue::U64(u) => Some(*u),
            _ => None,
        }
    }

    fn to_term(&self, field: Field) -> (r: Term) {
        Term { field, value: FilterValue::U64(*self) }
    }
}

// 64-bit floating-point implementation
impl IndexField for Float64 {
    open spec fn accepts_index_type(index_type: IndexType) -> bool {
        numeric_index_type(index_type)
    }

    open spec fn single_valued() -> bool {
        true
    }

    open spec fn schema_entry(name: Seq<char>, stored: bool, index_type: IndexType) -> FieldEntryView {
        numeric_entry(name, SchemaFieldType::F64, numeric_options(stored, index_type))
    }

    open spec fn document_values(&self) -> Seq<OwnedValueView> {
        seq![OwnedValueView::F64(self.bits)]
    }

    open spec fn decodable(value: OwnedValueView) -> bool {
        value is F64
    }

    open spec fn decodes_to(value: OwnedValueView, x: Self) -> bool {
        value == OwnedValueView::F64(x.bits)
    }

    open spec fn term_value(&self) -> ValueView {
        ValueView::F64(self.bits)
    }

    fn field_type_name() -> (r: &'static str)
        ensures
            r@ == "f64"@,
    {
        "f64"
    }

    proof fn lemma_declaration(name: Seq<char>, stored: bool, index_type: IndexType) {
    }

    proof fn lemma_term_of_value(&self, name: Seq<char>, stored: bool, index_type: IndexType) {
    }

    fn add_to_schema(builder: &mut SchemaBuilder, name: &str, stored: bool, index_type: IndexType) {
        let opts = numeric_options_for(stored, index_type);
        builder.add_f64_field(name, opts);
    }

    fn add_to_document(&self, doc: &mut Document, field: Field) {
        proof {
            lemma_one_entry(field, OwnedValueView::F64(self.bits));
        }
        doc.add_f64(field, self.bits);
    }

    fn from_owned_value(value: &OwnedValue) -> (r: Option<Self>) {
        match value {
            OwnedValue::F64(b) => Some(Float64 { bits: *b }),
            _ => None,
        }
    }

    fn to_term(&self, field: Field) -> (r: Term) {
        Term { field, value: FilterValue::F64(self.bits) }
    }
}

// bool implementation
impl IndexField for bool {
    open spec fn accepts_index_type(index_type: IndexType) -> bool {
        numeric_index_type(index_type)
    }

    open spec fn single_valued() -> bool {
        true
    }

    open spec fn schema_entry(name: Seq<char>, stored: bool, index_type: IndexType) -> FieldEntryView {
        numeric_entry(name, SchemaFieldType::Bool, numeric_options(stored, index_type))
    }

    open spec fn document_values(&self) -> Seq<OwnedValueView> {
        seq![OwnedValueView::Bool(*self)]
    }

    open spec fn decodable(value: OwnedValueView) -> bool {
        value is Bool
    }

    open spec fn decodes_to(value: OwnedValueView, x: Self) -> bool {
        value == OwnedValueView::Bool(x)
    }

    open spec fn term_value(&self) -> ValueView {
        ValueView::Bool(*self)
    }

    fn field_type_name() -> (r: &'static str)
        ensures
            r@ == "bool"@,
    {
        "bool"
    }

    proof fn lemma_declaration(name: Seq<char>, stored: bool, index_type: IndexType) {
    }

    proof fn lemma_term_of_value(&self, name: Seq<char>, stored: bool, index_type: IndexType) {
    }

    fn add_to_schema(builder: &mut SchemaBuilder, name: &str, stored: bool, index_type: IndexType) {
        let opts = numeric_options_for(stored, index_type);
        builder.add_bool_field(name, opts);
    }

    fn add_to_document(&self, doc: &mut Document, field: Field) {
        proof {
            lemma_one_entry(field, OwnedValueView::Bool(*self));
        }
        doc.add_bool(field, *self);
    }

    fn from_owned_value(value: &OwnedValue) -> (r: Option<Self>) {
        match value {
            OwnedValue::Bool(b) => Some(*b),
            _ => None,
        }
    }

    fn to_term(&self, field: Field) -> (r: Term) {
        Term { field, value: FilterValue::Bool(*self) }
    }
}

// DateTime implementation
impl IndexField for DateTime {
    open spec fn accepts_index_type(index_type: IndexType) -> bool {
        numeric_index_type(index_type)
    }

    open spec fn single_valued() -> bool {
        true
    }

    open spec fn schema_entry(name: Seq<char>, stored: bool, index_type: IndexType) -> FieldEntryView {
        numeric_entry(name, SchemaFieldType::Date, numeric_options(stored, index_type))
    }

    open spec fn document_values(&self) -> Seq<OwnedValueView> {
        seq![OwnedValueView::Date(self.timestamp_nanos)]
    }

    open spec fn decodable(value: OwnedValueView) -> bool {
        value is Date
    }

    open spec fn decodes_to(value: OwnedValueView, x: Self) -> bool {
        value == OwnedValueView::Date(x.timestamp_nanos)
    }

    open spec fn term_value(&self) -> ValueView {
        ValueView::Date(self.timestamp_nanos)
    }

    fn field_type_name() -> (r: &'static str)
        ensures
            r@ == "DateTime"@,
    {
        "DateTime"
    }

    proof fn lemma_declaration(name: Seq<char>, stored: bool, index_type: IndexType) {
    }

    proof fn lemma_term_of_value(&self, name: Seq<char>, stored: bool, index_type: IndexType) {
    }

    fn add_to_schema(builder: &mut SchemaBuilder, name: &str, stored: bool, index_type: IndexType) {
        let mut opts = NumericOptions::none();
        match index_type {
            IndexType::indexed => {
                opts = opts.set_indexed();
            },
            _ => {},
        }
        if stored {
            opts = opts.set_stored();
        }
        builder.add_date_field(name, opts);
    }

    fn add_to_document(&self, doc: &mut Document, field: Field) {
        proof {
            lemma_one_entry(field, OwnedValueView::Date(self.timestamp_nanos));
        }
        doc.add_date(field, self.timestamp_nanos);
    }

    fn from_owned_value(value: &OwnedValue) -> (r: Option<Self>) {
        match value {
            OwnedValue::Date(d) => Some(DateTime { timestamp_nanos: *d }),
            _ => None,
        }
    }

    fn to_term(&self, field: Field) -> (r: Term) {
        Term { field, value: FilterValue::Date(self.timestamp_nanos) }
    }
}

/// The values a document holds for the items of `items`, in order.
pub open spec fn values_of_items<T: IndexField>(items: Seq<T>) -> Seq<OwnedValueView>
    decreases items.len(),
{
    if items.len() == 0 {
        Seq::empty()
    } else {
        values_of_items(items.drop_last()) + items.last().document_values()
    }
}

// Vec<T> implementation for any T: IndexField
// Note: Vec<T> only supports types that serialize to the same field type
impl<T: IndexField> IndexField for Vec<T> {
    open spec fn accepts_index_type(index_type: IndexType) -> bool {
        T::accepts_index_type(index_type)
    }

    open spec fn single_valued() -> bool {
        false
    }

    open spec fn schema_entry(name: Seq<char>, stored: bool, index_type: IndexType) -> FieldEntryView {
        T::schema_entry(name, stored, index_type)
    }

    open spec fn document_values(&self) -> Seq<OwnedValueView> {
        values_of_items(self@)
    }

    open spec fn decodable(value: OwnedValueView) -> bool {
        false
    }

    open spec fn decodes_to(value: OwnedValueView, x: Self) -> bool {
        false
    }

    open spec fn term_value(&self) -> ValueView {
        ValueView::Bool(false)
    }

    fn field_type_name() -> (r: &'static str)
        ensures
            r@ == "Vec"@,
    {
        "Vec"
    }

    proof fn lemma_declaration(name: Seq<char>, stored: bool, index_type: IndexType) {
        T::lemma_declaration(name, stored, index_type);
    }

    proof fn lemma_term_of_value(&self, name: Seq<char>, stored: bool, index_type: IndexType) {
    }

    fn add_to_schema(builder: &mut SchemaBuilder, name: &str, stored: bool, index_type: IndexType) {
        // Vec<T> uses the same schema as T (a field may hold several values)
        T::add_to_schema(builder, name, stored, index_type);
    }

    fn add_to_document(&self, doc: &mut Document, field: Field) {
        let mut i: usize = 0;
        while i < self.len()
            invariant
                i <= self@.len(),
                doc.entries() == old(doc).entries() + field_entries(field, values_of_items(self@.take(i as int))),
            decreases self@.len() - i,
        {
            let ghost before = doc.entries();
            self[i].add_to_document(doc, field);
            proof {
                let items = self@.take(i + 1);
                assert(items.drop_last() =~= self@.take(i as int));
                assert(items.last() == self@[i as int]);
                assert(field_entries(field, values_of_items(items)) =~= field_entries(
                    field,
                    values_of_items(self@.take(i as int)),
                ) + field_entries(field, self@[i as int].document_values()));
                assert(doc.entries() =~= old(doc).entries() + field_entries(field, values_of_items(items)));
            }
            i += 1;
        }
        assert(self@.take(i as int) =~= self@);
    }

    fn from_owned_value(value: &OwnedValue) -> (r: Option<Self>) {
        // Vec needs special handling: all values of the field are collected
        // by `from_doc_all`, so this is never called.
        None
    }

    fn to_term(&self, field: Field) -> (r: Term) {
        // A term finds one value; a Vec has no single value to find.
        Term { field, value: FilterValue::Bool(false) }
    }
}

/// The stored values that read back as values of `T`, in order.
pub open spec fn decodable_values<T: IndexField>(values: Seq<OwnedValueView>) -> Seq<OwnedValueView>
    decreases values.len(),
{
    if values.len() == 0 {
        Seq::empty()
    } else {
        let rest = decodable_values::<T>(values.drop_last());
        if T::decodable(values.last()) {
            rest.push(values.last())
        } else {
            rest
        }
    }
}

/// Helper trait for getting the first value from a document (for non-Vec types)
pub trait IndexFieldSingle: IndexField {
    fn from_doc_single(doc: &Document, field: Field) -> (r: Option<Self>)
        requires
            Self::single_valued(),
        ensures
            values_of(doc.entries(), field).len() == 0 ==> r is None,
            values_of(doc.entries(), field).len() > 0 ==> {
                let v = values_of(doc.entries(), field)[0];
                &&& (r is Some <==> Self::decodable(v))
                &&& (r matches Some(x) ==> Self::decodes_to(v, x))
            },
    ;
}

impl<T: IndexField> IndexFieldSingle for T {
    fn from_doc_single(doc: &Document, field: Field) -> (r: Option<Self>) {
        match doc.get_first(field) {
            Some(v) => T::from_owned_value(v),
            None => None,
        }
    }
}

// Helper trait for Vec<T> to collect all values
pub trait IndexFieldVec<T: IndexField>: IndexField {
    fn from_doc_all(doc: &Document, field: Field) -> (r: Vec<T>)
        requires
            T::single_valued(),
        ensures
            r@.len() == decodable_values::<T>(values_of(doc.entries(), field)).len(),
            forall|k: int|
                0 <= k < r@.len() ==> T::decodes_to(
                    #[trigger] decodable_values::<T>(values_of(doc.entries(), field))[k],
                    r@[k],
                ),
    ;
}

impl<T: IndexField> IndexFieldVec<T> for Vec<T> {
    fn from_doc_all(doc: &Document, field: Field) -> (r: Vec<T>) {
        let values = doc.get_all(field);
        let ghost vals = values@.map_values(|v: OwnedValue| v@);
        let mut r: Vec<T> = Vec::new();
        let mut i: usize = 0;
        while i < values.len()
            invariant
                i <= values@.len(),
                vals == values@.map_values(|v: OwnedValue| v@),
                vals == values_of(doc.entries(), field),
                T::single_valued(),
                r@.len() == decodable_values::<T>(vals.take(i as int)).len(),
                forall|k: int|
                    0 <= k < r@.len() ==> T::decodes_to(
                        #[trigger] decodable_values::<T>(vals.take(i as int))[k],
                        r@[k],
                    ),
            decreases values@.len() - i,
        {
            let ghost prev = decodable_values::<T>(vals.take(i as int));
            proof {
                assert(vals.take(i + 1).drop_last() =~= vals.take(i as int));
                assert(vals.take(i + 1).last() == vals[i as int]);
                assert(vals[i as int] == values@[i as int]@);
            }
            match T::from_owned_value(&values[i]) {
                Some(x) => {
                    r.push(x);
                },
                None => {},
            }
            i += 1;
        }
        assert(vals.take(i as int) =~= vals);
        r
    }
}

/// `x` is written as one value that reads back as `x`.
pub open spec fn reads_back<T: IndexField>(x: T) -> bool {
    &&& x.document_values().len() == 1
    &&& T::decodable(x.document_values()[0])
    &&& T::decodes_to(x.document_values()[0], x)
}

/// Every value of the single-valued field types of this library is written
/// as one value that reads back as itself.
pub proof fn lemma_single_values_read_back(
    s: String,
    a: i32,
    b: i64,
    c: u32,
    d: u64,
    f: Float64,
    g: bool,
    h: DateTime,
)
    ensures
        reads_back(s),
        reads_back(a),
        reads_back(b),
        reads_back(c),
        reads_back(d),
        reads_back(f),
        reads_back(g),
        reads_back(h),
{
}

/// A value that reads back as itself, written to a document that held no
/// value of its field, is what reading the field's first value gives.
pub proof fn lemma_write_then_read<T: IndexField>(
    before: Seq<(Field, OwnedValueView)>,
    after: Seq<(Field, OwnedValueView)>,
    field: Field,
    x: T,
)
    requires
        reads_back(x),
        values_of(before, field).len() == 0,
        after == before + field_entries(field, x.document_values()),
    ensures
        values_of(after, field).len() > 0,
        values_of(after, field)[0] == x.document_values()[0],
        T::decodable(values_of(after, field)[0]),
        T::decodes_to(values_of(after, field)[0], x),
{
    let v = x.document_values()[0];
    assert(field_entries(field, x.document_values()) =~= seq![(field, v)]);
    assert(after.drop_last() =~= before);
    assert(after.last() == (field, v));
}

/// The values of a field, after values of it were appended, are its earlier
/// values followed by the appended ones.
proof fn lemma_values_of_appended(a: Seq<(Field, OwnedValueView)>, field: Field, vs: Seq<OwnedValueView>)
    ensures
        values_of(a + field_entries(field, vs), field) == values_of(a, field) + vs,
    decreases vs.len(),
{
    if vs.len() == 0 {
        assert(a + field_entries(field, vs) =~= a);
        assert(values_of(a, field) + vs =~= values_of(a, field));
    } else {
        lemma_values_of_appended(a, field, vs.drop_last());
        let e = a + field_entries(field, vs);
        assert(e.drop_last() =~= a + field_entries(field, vs.drop_last()));
        assert(e.last() == (field, vs.last()));
        assert(values_of(a, field) + vs =~= (values_of(a, field) + vs.drop_last()).push(vs.last()));
    }
}

/// Items that each read back as themselves are written one value each.
proof fn lemma_items_read_back<T: IndexField>(xs: Seq<T>)
    requires
        forall|k: int| 0 <= k < xs.len() ==> #[trigger] reads_back(xs[k]),
    ensures
        values_of_items(xs).len() == xs.len(),
        forall|k: int| 0 <= k < xs.len() ==> #[trigger] values_of_items(xs)[k] == xs[k].document_values()[0],
    decreases xs.len(),
{
    if xs.len() > 0 {
        let dl = xs.drop_last();
        assert forall|k: int| 0 <= k < dl.len() implies #[trigger] reads_back(dl[k]) by {
            assert(dl[k] == xs[k]);
            assert(reads_back(xs[k]));
        }
        lemma_items_read_back(dl);
        assert(reads_back(xs[xs.len() - 1]));
        assert forall|k: int| 0 <= k < xs.len() implies #[trigger] values_of_items(xs)[k] == xs[k].document_values()[0] by {
            if k < xs.len() - 1 {
                assert(dl[k] == xs[k]);
            }
        }
    }
}

/// Stored values that all read back as values of `T` are all kept.
proof fn lemma_all_decodable<T: IndexField>(vs: Seq<OwnedValueView>)
    requires
        forall|k: int| 0 <= k < vs.len() ==> #[trigger] T::decodable(vs[k]),
    ensures
        decodable_values::<T>(vs) == vs,
    decreases vs.len(),
{
    if vs.len() > 0 {
        let dl = vs.drop_last();
        assert forall|k: int| 0 <= k < dl.len() implies #[trigger] T::decodable(dl[k]) by {
            assert(dl[k] == vs[k]);
        }
        lemma_all_decodable::<T>(dl);
        assert(T::decodable(vs[vs.len() - 1]));
        assert(dl.push(vs.last()) =~= vs);
    }
}

/// Items that each read back as themselves, written as the values of a
/// field that a document did not hold yet, are what reading all values of
/// the field gives, one by one and in order.
pub proof fn lemma_vec_write_then_read<T: IndexField>(
    before: Seq<(Field, OwnedValueView)>,
    after: Seq<(Field, OwnedValueView)>,
    field: Field,
    xs: Seq<T>,
)
    requires
        forall|k: int| 0 <= k < xs.len() ==> #[trigger] reads_back(xs[k]),
        values_of(before, field).len() == 0,
        after == before + field_entries(field, values_of_items(xs)),
    ensures
        decodable_values::<T>(values_of(after, field)).len() == xs.len(),
        forall|k: int|
            0 <= k < xs.len() ==> T::decodes_to(
                #[trigger] decodable_values::<T>(values_of(after, field))[k],
                xs[k],
            ),
{
    let vs = values_of_items(xs);
    lemma_values_of_appended(before, field, vs);
    assert(values_of(before, field) + vs =~= vs);
    lemma_items_read_back(xs);
    assert forall|k: int| 0 <= k < vs.len() implies #[trigger] T::decodable(vs[k]) by {
        assert(reads_back(xs[k]));
    }
    lemma_all_decodable::<T>(vs);
    assert forall|k: int| 0 <= k < xs.len() implies T::decodes_to(
        #[trigger] decodable_values::<T>(values_of(after, field))[k],
        xs[k],
    ) by {
        assert(reads_back(xs[k]));
        assert(vs[k] == xs[k].document_values()[0]);
    }
}

/// For a string field, and a field of several strings, `indexed` declares
/// the same schema entry as `indexed_string`: one untokenized term.
pub proof fn lemma_string_indexed_is_indexed_string(name: Seq<char>, stored: bool)
    ensures
        <String as IndexField>::schema_entry(name, stored, IndexType::indexed) == <String as IndexField>::schema_entry(
            name,
            stored,
            IndexType::indexed_string,
        ),
        <Vec<String> as IndexField>::schema_entry(name, stored, IndexType::indexed) == <Vec<
            String,
        > as IndexField>::schema_entry(name, stored, IndexType::indexed_string),
        <String as IndexField>::schema_entry(name, stored, IndexType::indexed).indexing == Indexing::Raw,
{
}

/// A stored value reads back as at most one value of `T`.
pub open spec fn decodes_uniquely<T: IndexField>() -> bool {
    forall|v: OwnedValueView, x: T, y: T|
        #![trigger T::decodes_to(v, x), T::decodes_to(v, y)]
        T::decodes_to(v, x) && T::decodes_to(v, y) ==> x == y
}

/// Every value of the non-text field types of this library reads back as
/// itself, and a stored value reads back as at most one of them.
pub proof fn lemma_library_types_decode_uniquely()
    ensures
        decodes_uniquely::<i32>(),
        decodes_uniquely::<i64>(),
        decodes_uniquely::<u32>(),
        decodes_uniquely::<u64>(),
        decodes_uniquely::<Float64>(),
        decodes_uniquely::<bool>(),
        decodes_uniquely::<DateTime>(),
        forall|x: i32| #[trigger] reads_back(x),
        forall|x: i64| #[trigger] reads_back(x),
        forall|x: u32| #[trigger] reads_back(x),
        forall|x: u64| #[trigger] reads_back(x),
        forall|x: Float64| #[trigger] reads_back(x),
        forall|x: bool| #[trigger] reads_back(x),
        forall|x: DateTime| #[trigger] reads_back(x),
{
}

/// Items of a type whose stored values read back uniquely, written as the
/// values of a field that a document did not hold yet: reading all values
/// of the field back (as `from_doc_all` does) gives exactly those items, in
/// order, duplicates kept.
pub proof fn lemma_vec_round_trip<T: IndexField>(
    before: Seq<(Field, OwnedValueView)>,
    after: Seq<(Field, OwnedValueView)>,
    field: Field,
    xs: Seq<T>,
    read: Seq<T>,
)
    requires
        decodes_uniquely::<T>(),
        forall|k: int| 0 <= k < xs.len() ==> #[trigger] reads_back(xs[k]),
        values_of(before, field).len() == 0,
        after == before + field_entries(field, values_of_items(xs)),
        read.len() == decodable_values::<T>(values_of(after, field)).len(),
        forall|k: int|
            0 <= k < read.len() ==> T::decodes_to(
                #[trigger] decodable_values::<T>(values_of(after, field))[k],
                read[k],
            ),
    ensures
        read == xs,
{
    lemma_vec_write_then_read(before, after, field, xs);
    let d = decodable_values::<T>(values_of(after, field));
    assert forall|k: int| 0 <= k < xs.len() implies read[k] == xs[k] by {
        assert(T::decodes_to(d[k], xs[k]));
        assert(T::decodes_to(d[k], read[k]));
    }
    assert(read =~= xs);
}

/// Strings written as the values of a field that a document did not hold
/// yet: reading all values of the field back gives the same strings, in
/// order, duplicates kept.
pub proof fn lemma_vec_string_round_trip(
    before: Seq<(Field, OwnedValueView)>,
    after: Seq<(Field, OwnedValueView)>,
    field: Field,
    xs: Seq<String>,
    read: Seq<String>,
)
    requires
        values_of(before, field).len() == 0,
        after == before + field_entries(field, values_of_items(xs)),
        read.len() == decodable_values::<String>(values_of(after, field)).len(),
        forall|k: int|
            0 <= k < read.len() ==> <String as IndexField>::decodes_to(
                #[trigger] decodable_values::<String>(values_of(after, field))[k],
                read[k],
            ),
    ensures
        read.len() == xs.len(),
        forall|k: int| 0 <= k < xs.len() ==> #[trigger] read[k]@ == xs[k]@,
{
    assert forall|k: int| 0 <= k < xs.len() implies #[trigger] reads_back(xs[k]) by {}
    lemma_vec_write_then_read(before, after, field, xs);
    let d = decodable_values::<String>(values_of(after, field));
    assert forall|k: int| 0 <= k < xs.len() implies #[trigger] read[k]@ == xs[k]@ by {
        assert(<String as IndexField>::decodes_to(d[k], xs[k]));
        assert(<String as IndexField>::decodes_to(d[k], read[k]));
    }
}

/// For every field type, declaring a field `indexed` (where the type accepts
/// it) makes it searchable, declaring it `not_indexed` does not, and the
/// value type that range filters use on it is the kind of its values' terms.
pub proof fn lemma_declared_indexing<T: IndexField>(name: Seq<char>, stored: bool, index_type: IndexType, x: T)
    requires
        T::accepts_index_type(index_type),
    ensures
        index_type == IndexType::indexed ==> T::schema_entry(name, stored, index_type).indexing
            != Indexing::NotIndexed,
        index_type == IndexType::not_indexed ==> T::schema_entry(name, stored, index_type).indexing
            == Indexing::NotIndexed,
        T::schema_entry(name, stored, index_type).stored == stored,
        T::single_valued() ==> spec_value_type(T::schema_entry(name, stored, index_type).field_type)
            == value_kind(x.term_value()),
{
    T::lemma_declaration(name, stored, index_type);
    if T::single_valued() {
        x.lemma_term_of_value(name, stored, index_type);
    }
}

/// The term of a value finds what writing the value put in a document: in
/// a document that held no value of the field, the one value the field then
/// has is the value whose term it is.
pub proof fn lemma_term_finds_written_value<T: IndexField>(
    before: Seq<(Field, OwnedValueView)>,
    after: Seq<(Field, OwnedValueView)>,
    field: Field,
    x: T,
)
    requires
        T::single_valued(),
        values_of(before, field).len() == 0,
        after == before + field_entries(field, x.document_values()),
    ensures
        values_of(after, field).len() == 1,
        term_of_stored(values_of(after, field)[0]) == Some(x.term_value()),
{
    x.lemma_term_of_value(Seq::empty(), true, IndexType::not_indexed);
    lemma_values_of_appended(before, field, x.document_values());
    assert(values_of(before, field) + x.document_values() =~= x.document_values());
}

} // verus!
