//! Documents as lists of field values, and terms.
use vstd::prelude::*;

use crate::schema::Field;
use crate::search_query::{FilterValue, ValueView};

verus! {

/// The abstract content of a stored value.
pub enum OwnedValueView {
    Str(Seq<char>),
    U64(u64),
    I64(i64),
    F64(u64),
    Bool(bool),
    Date(i64),
    Other,
}

/// A value held by a document. `F64` holds the IEEE-754 bit pattern of the
/// number, `Date` a timestamp in nanoseconds; `Other` stands for every kind
/// of value that no field type of this library produces.
#[derive(Debug, Clone)]
pub enum OwnedValue {
    Str(String),
    U64(u64),
    I64(i64),
    F64(u64),
    Bool(bool),
    Date(i64),
    Other,
}

impl View for OwnedValue {
    type V = OwnedValueView;

    open spec fn view(&self) -> OwnedValueView {
        match self {
            OwnedValue::Str(s) => OwnedValueView::Str(s@),
            OwnedValue::U64(u) => OwnedValueView::U64(*u),
            OwnedValue::I64(i) => OwnedValueView::I64(*i),
            OwnedValue::F64(b) => OwnedValueView::F64(*b),
            OwnedValue::Bool(b) => OwnedValueView::Bool(*b),
            OwnedValue::Date(d) => OwnedValueView::Date(*d),
            OwnedValue::Other => OwnedValueView::Other,
        }
    }
}

impl OwnedValue {
    /// A copy of this value with the same content.
    pub fn copy_value(&self) -> (r: OwnedValue)
        ensures
            r@ == self@,
    {
        match self {
            OwnedValue::Str(s) => OwnedValue::Str(s.clone()),
            OwnedValue::U64(u) => OwnedValue::U64(*u),
            OwnedValue::I64(i) => OwnedValue::I64(*i),
            OwnedValue::F64(b) => OwnedValue::F64(*b),
            OwnedValue::Bool(b) => OwnedValue::Bool(*b),
            OwnedValue::Date(d) => OwnedValue::Date(*d),
            OwnedValue::Other => OwnedValue::Other,
        }
    }
}

/// A document: the values of its fields, in the order they were added. A
/// field may have several values.
#[derive(Debug)]
pub struct Document {
    values: Vec<(Field, OwnedValue)>,
}

/// The abstract content of a document entry.
pub open spec fn entry_view(e: (Field, OwnedValue)) -> (Field, OwnedValueView) {
    (e.0, e.1@)
}

/// The values of `field` in `entries`, in order.
pub open spec fn values_of(entries: Seq<(Field, OwnedValueView)>, field: Field) -> Seq<OwnedValueView>
    decreases entries.len(),
{
    if entries.len() == 0 {
        Seq::empty()
    } else {
        let rest = values_of(entries.drop_last(), field);
        if entries.last().0 == field {
            rest.push(entries.last().1)
        } else {
            rest
        }
    }
}

impl Document {
    /// The entries of the document, in order.
    pub closed spec fn entries(&self) -> Seq<(Field, OwnedValueView)> {
        self.values@.map_values(|e: (Field, OwnedValue)| entry_view(e))
    }

    /// An empty document.
    pub fn new() -> (r: Self)
        ensures
            r.entries() == Seq::<(Field, OwnedValueView)>::empty(),
    {
        let r = Document { values: Vec::new() };
        assert(r.entries() =~= Seq::<(Field, OwnedValueView)>::empty());
        r
    }

    /// Adds `value` as a value of `field`.
    pub fn add_value(&mut self, field: Field, value: OwnedValue)
        ensures
            final(self).entries() == old(self).entries().push((field, value@)),
    {
        self.values.push((field, value));
        assert(self.entries() =~= old(self).entries().push((field, value@)));
    }

    pub fn add_text(&mut self, field: Field, text: &str)
        ensures
            final(self).entries() == old(self).entries().push((field, OwnedValueView::Str(text@))),
    {
        self.add_value(field, OwnedValue::Str(String::from_str(text)));
    }

    pub fn add_i64(&mut self, field: Field, value: i64)
        ensures
            final(self).entries() == old(self).entries().push((field, OwnedValueView::I64(value))),
    {
        self.add_value(field, OwnedValue::I64(value));
    }

    pub fn add_u64(&mut self, field: Field, value: u64)
        ensures
            final(self).entries() == old(self).entries().push((field, OwnedValueView::U64(value))),
    {
        self.add_value(field, OwnedValue::U64(value));
    }

    /// Adds a floating-point value, given by its IEEE-754 bit pattern.
    pub fn add_f64(&mut self, field: Field, bits: u64)
        ensures
            final(self).entries() == old(self).entries().push((field, OwnedValueView::F64(bits))),
    {
        self.add_value(field, OwnedValue::F64(bits));
    }

    pub fn add_bool(&mut self, field: Field, value: bool)
        ensures
            final(self).entries() == old(self).entries().push((field, OwnedValueView::Bool(value))),
    {
        self.add_value(field, OwnedValue::Bool(value));
    }

    /// Adds a date, given as nanoseconds since the Unix epoch.
    pub fn add_date(&mut self, field: Field, timestamp_nanos: i64)
        ensures
            final(self).entries() == old(self).entries().push((field, OwnedValueView::Date(timestamp_nanos))),
    {
        self.add_value(field, OwnedValue::Date(timestamp_nanos));
    }

    /// The number of entries.
    pub fn len(&self) -> (r: usize)
        ensures
            r == self.entries().len(),
    {
        self.values.len()
    }

    /// The entry at position `i`.
    pub fn entry(&self, i: usize) -> (r: (Field, &OwnedValue))
        requires
            i < self.entries().len(),
        ensures
            r.0 == self.entries()[i as int].0,
            r.1@ == self.entries()[i as int].1,
    {
        let e = &self.values[i];
        (e.0, &e.1)
    }

    /// The first value of `field`, if it has one.
    pub fn get_first(&self, field: Field) -> (r: Option<&OwnedValue>)
        ensures
            match r {
                Some(v) => values_of(self.entries(), field).len() > 0 && v@ == values_of(
                    self.entries(),
                    field,
                )[0],
                None => values_of(self.entries(), field).len() == 0,
            },
    {
        let mut i: usize = 0;
        while i < self.values.len()
            invariant
                i <= self.values@.len(),
                self.values@.len() == self.entries().len(),
                values_of(self.entries().take(i as int), field).len() == 0,
            decreases self.values@.len() - i,
        {
            proof {
                lemma_values_of_take(self.entries(), field, i as int);
            }
            if self.values[i].0 == field {
                proof {
                    lemma_values_of_prefix(self.entries(), field, (i + 1) as int);
                    let b = values_of(self.entries().take(i + 1), field);
                    assert(b == values_of(self.entries().take(i as int), field).push(self.entries()[i as int].1));
                    assert(b[0] == self.entries()[i as int].1);
                    assert(b[0] == values_of(self.entries(), field)[0]);
                }
                return Some(&self.values[i].1);
            }
            i += 1;
        }
        assert(self.entries().take(i as int) =~= self.entries());
        None
    }

    /// All values of `field`, in order.
    pub fn get_all(&self, field: Field) -> (r: Vec<OwnedValue>)
        ensures
            r@.map_values(|v: OwnedValue| v@) == values_of(self.entries(), field),
    {
        let mut r: Vec<OwnedValue> = Vec::new();
        let mut i: usize = 0;
        while i < self.values.len()
            invariant
                i <= self.values@.len(),
                self.values@.len() == self.entries().len(),
                r@.map_values(|v: OwnedValue| v@) == values_of(self.entries().take(i as int), field),
            decreases self.values@.len() - i,
        {
            proof {
                lemma_values_of_take(self.entries(), field, i as int);
            }
            if self.values[i].0 == field {
                let v = self.values[i].1.copy_value();
                r.push(v);
            }
            assert(r@.map_values(|v: OwnedValue| v@) =~= values_of(self.entries().take(i + 1), field));
            i += 1;
        }
        assert(self.entries().take(i as int) =~= self.entries());
        r
    }
}

/// Extending a prefix of the entries by one entry extends the values of a
/// field by that entry's value when it belongs to the field.
pub proof fn lemma_values_of_take(entries: Seq<(Field, OwnedValueView)>, field: Field, i: int)
    requires
        0 <= i < entries.len(),
    ensures
        values_of(entries.take(i + 1), field) == if entries[i].0 == field {
            values_of(entries.take(i), field).push(entries[i].1)
        } else {
            values_of(entries.take(i), field)
        },
{
    assert(entries.take(i + 1).drop_last() =~= entries.take(i));
    assert(entries.take(i + 1).last() == entries[i]);
}

/// The values of a field in a prefix of the entries are a prefix of its
/// values in all of them.
pub proof fn lemma_values_of_prefix(entries: Seq<(Field, OwnedValueView)>, field: Field, i: int)
    requires
        0 <= i <= entries.len(),
    ensures
        values_of(entries.take(i), field).len() <= values_of(entries, field).len(),
        forall|k: int|
            0 <= k < values_of(entries.take(i), field).len() ==> #[trigger] values_of(
                entries.take(i),
                field,
            )[k] == values_of(entries, field)[k],
    decreases entries.len() - i,
{
    if i < entries.len() {
        lemma_values_of_prefix(entries, field, i + 1);
        lemma_values_of_take(entries, field, i);
        let a = values_of(entries.take(i), field);
        let b = values_of(entries.take(i + 1), field);
        assert forall|k: int| 0 <= k < a.len() implies #[trigger] a[k] == values_of(entries, field)[k] by {
            assert(a[k] == b[k]);
        }
    } else {
        assert(entries.take(i) =~= entries);
    }
}

/// A term: a field and a typed value, as used to find or delete documents.
#[derive(Debug, Clone)]
pub struct Term {
    pub field: Field,
    pub value: FilterValue,
}

impl View for Term {
    type V = (Field, ValueView);

    open spec fn view(&self) -> (Field, ValueView) {
        (self.field, self.value@)
    }
}

impl FilterValue {
    /// The term for this value in `field`.
    pub fn to_term(&self, field: Field) -> (r: Term)
        ensures
            r@ == (field, self@),
    {
        Term { field, value: self.copy_value() }
    }
}

} // verus!
