//! Typed field references, filter expressions and the search query builder.
use vstd::prelude::*;
use vstd::string::*;

verus! {

/// A reference to a field of an indexed struct, by its schema name.
#[derive(Debug, Clone, Copy)]
pub struct FieldRef {
    pub name: &'static str,
}

impl FieldRef {
    pub fn new(name: &'static str) -> (r: Self)
        ensures
            r.name == name,
    {
        FieldRef { name }
    }

    pub fn name(&self) -> (r: &'static str)
        ensures
            r == self.name,
    {
        self.name
    }

    pub fn eq<V: IntoFilterValue>(self, value: V) -> (r: Filter)
        ensures
            r.is_condition(self.name@, FilterOp::Eq, value.value_view()),
    {
        condition(self.name, FilterOp::Eq, value.into_filter_value())
    }

    pub fn ne<V: IntoFilterValue>(self, value: V) -> (r: Filter)
        ensures
            r.is_condition(self.name@, FilterOp::Ne, value.value_view()),
    {
        condition(self.name, FilterOp::Ne, value.into_filter_value())
    }

    pub fn gt<V: IntoFilterValue>(self, value: V) -> (r: Filter)
        ensures
            r.is_condition(self.name@, FilterOp::Gt, value.value_view()),
    {
        condition(self.name, FilterOp::Gt, value.into_filter_value())
    }

    pub fn ge<V: IntoFilterValue>(self, value: V) -> (r: Filter)
        ensures
            r.is_condition(self.name@, FilterOp::Ge, value.value_view()),
    {
        condition(self.name, FilterOp::Ge, value.into_filter_value())
    }

    pub fn lt<V: IntoFilterValue>(self, value: V) -> (r: Filter)
        ensures
            r.is_condition(self.name@, FilterOp::Lt, value.value_view()),
    {
        condition(self.name, FilterOp::Lt, value.into_filter_value())
    }

    pub fn le<V: IntoFilterValue>(self, value: V) -> (r: Filter)
        ensures
            r.is_condition(self.name@, FilterOp::Le, value.value_view()),
    {
        condition(self.name, FilterOp::Le, value.into_filter_value())
    }
}

fn condition(name: &'static str, op: FilterOp, value: FilterValue) -> (r: Filter)
    ensures
        r.is_condition(name@, op, value@),
{
    Filter::Condition { field_name: String::from_str(name), op, value }
}

/// The abstract content of a filter value: strings by their characters.
pub enum ValueView {
    Str(Seq<char>),
    I64(i64),
    U64(u64),
    F64(u64),
    Bool(bool),
    Date(i64),
}

/// A value that a filter compares a field against.
///
/// `F64` holds the IEEE-754 bit pattern of the number (`f64::to_bits`), and
/// `Date` holds a timestamp in nanoseconds since the Unix epoch.
#[derive(Debug, Clone)]
pub enum FilterValue {
    Str(String),
    I64(i64),
    U64(u64),
    F64(u64),
    Bool(bool),
    Date(i64),
}

impl View for FilterValue {
    type V = ValueView;

    open spec fn view(&self) -> ValueView {
        match self {
            FilterValue::Str(s) => ValueView::Str(s@),
            FilterValue::I64(i) => ValueView::I64(*i),
            FilterValue::U64(u) => ValueView::U64(*u),
            FilterValue::F64(b) => ValueView::F64(*b),
            FilterValue::Bool(b) => ValueView::Bool(*b),
            FilterValue::Date(d) => ValueView::Date(*d),
        }
    }
}

impl FilterValue {
    /// A copy of this value with the same content.
    pub fn copy_value(&self) -> (r: FilterValue)
        ensures
            r@ == self@,
    {
        match self {
            FilterValue::Str(s) => FilterValue::Str(s.clone()),
            FilterValue::I64(i) => FilterValue::I64(*i),
            FilterValue::U64(u) => FilterValue::U64(*u),
            FilterValue::F64(b) => FilterValue::F64(*b),
            FilterValue::Bool(b) => FilterValue::Bool(*b),
            FilterValue::Date(d) => FilterValue::Date(*d),
        }
    }
}

/// Values that a filter can compare a field against.
pub trait IntoFilterValue: Sized {
    /// The filter value that this value becomes.
    spec fn value_view(&self) -> ValueView;

    fn into_filter_value(self) -> (r: FilterValue)
        ensures
            r@ == self.value_view(),
    ;
}

impl IntoFilterValue for FilterValue {
    open spec fn value_view(&self) -> ValueView {
        self@
    }

    fn into_filter_value(self) -> (r: FilterValue) {
        self
    }
}

impl<'a> IntoFilterValue for &'a str {
    open spec fn value_view(&self) -> ValueView {
        ValueView::Str(self@)
    }

    fn into_filter_value(self) -> (r: FilterValue) {
        FilterValue::Str(String::from_str(self))
    }
}

impl IntoFilterValue for String {
    open spec fn value_view(&self) -> ValueView {
        ValueView::Str(self@)
    }

    fn into_filter_value(self) -> (r: FilterValue) {
        FilterValue::Str(self)
    }
}

impl IntoFilterValue for i32 {
    open spec fn value_view(&self) -> ValueView {
        ValueView::I64(*self as i64)
    }

    fn into_filter_value(self) -> (r: FilterValue) {
        FilterValue::I64(self as i64)
    }
}

impl IntoFilterValue for i64 {
    open spec fn value_view(&self) -> ValueView {
        ValueView::I64(*self)
    }

    fn into_filter_value(self) -> (r: FilterValue) {
        FilterValue::I64(self)
    }
}

impl IntoFilterValue for u32 {
    open spec fn value_view(&self) -> ValueView {
        ValueView::U64(*self as u64)
    }

    fn into_filter_value(self) -> (r: FilterValue) {
        FilterValue::U64(self as u64)
    }
}

impl IntoFilterValue for u64 {
    open spec fn value_view(&self) -> ValueView {
        ValueView::U64(*self)
    }

    fn into_filter_value(self) -> (r: FilterValue) {
        FilterValue::U64(self)
    }
}

impl IntoFilterValue for bool {
    open spec fn value_view(&self) -> ValueView {
        ValueView::Bool(*self)
    }

    fn into_filter_value(self) -> (r: FilterValue) {
        FilterValue::Bool(self)
    }
}

/// The comparison a filter condition makes.
#[derive(Debug, Clone, Copy, PartialEq, Eq, Structural)]
pub enum FilterOp {
    Eq,
    Ne,
    Gt,
    Ge,
    Lt,
    Le,
}

/// A filter expression: a condition on one field, or a conjunction or
/// disjunction of filters.
#[derive(Debug)]
pub enum Filter {
    Condition { field_name: String, op: FilterOp, value: FilterValue },
    And(Vec<Filter>),
    Or(Vec<Filter>),
}

/// What a filter means for one document, given what each condition means
/// for it: a condition on a field name, with an operation and a value.
pub open spec fn filter_holds(f: Filter, cond: spec_fn(Seq<char>, FilterOp, ValueView) -> bool) -> bool
    decreases f,
{
    match f {
        Filter::Condition { field_name, op, value } => cond(field_name@, op, value@),
        Filter::And(v) => all_hold(v@, cond),
        Filter::Or(v) => any_holds(v@, cond),
    }
}

/// Every filter of `fs` holds.
pub open spec fn all_hold(fs: Seq<Filter>, cond: spec_fn(Seq<char>, FilterOp, ValueView) -> bool) -> bool
    decreases fs,
{
    if fs.len() == 0 {
        true
    } else {
        all_hold(fs.drop_last(), cond) && filter_holds(fs.last(), cond)
    }
}

/// Some filter of `fs` holds.
pub open spec fn any_holds(fs: Seq<Filter>, cond: spec_fn(Seq<char>, FilterOp, ValueView) -> bool) -> bool
    decreases fs,
{
    if fs.len() == 0 {
        false
    } else {
        any_holds(fs.drop_last(), cond) || filter_holds(fs.last(), cond)
    }
}

/// `all_hold` is the quantified conjunction.
pub proof fn lemma_all_hold(fs: Seq<Filter>, cond: spec_fn(Seq<char>, FilterOp, ValueView) -> bool)
    ensures
        all_hold(fs, cond) == forall|i: int| 0 <= i < fs.len() ==> #[trigger] filter_holds(fs[i], cond),
    decreases fs.len(),
{
    if fs.len() > 0 {
        let dl = fs.drop_last();
        lemma_all_hold(dl, cond);
        if all_hold(fs, cond) {
            assert forall|i: int| 0 <= i < fs.len() implies #[trigger] filter_holds(fs[i], cond) by {
                if i < fs.len() - 1 {
                    assert(dl[i] == fs[i]);
                    assert(filter_holds(dl[i], cond));
                }
            }
        }
        if forall|i: int| 0 <= i < fs.len() ==> #[trigger] filter_holds(fs[i], cond) {
            assert forall|i: int| 0 <= i < dl.len() implies #[trigger] filter_holds(dl[i], cond) by {
                assert(dl[i] == fs[i]);
                assert(filter_holds(fs[i], cond));
            }
            assert(filter_holds(fs[fs.len() - 1], cond));
        }
    }
}

/// `any_holds` is the quantified disjunction.
pub proof fn lemma_any_holds(fs: Seq<Filter>, cond: spec_fn(Seq<char>, FilterOp, ValueView) -> bool)
    ensures
        any_holds(fs, cond) == exists|i: int| 0 <= i < fs.len() && #[trigger] filter_holds(fs[i], cond),
    decreases fs.len(),
{
    if fs.len() > 0 {
        let dl = fs.drop_last();
        lemma_any_holds(dl, cond);
        if any_holds(fs, cond) {
            if any_holds(dl, cond) {
                let i = choose|i: int| 0 <= i < dl.len() && #[trigger] filter_holds(dl[i], cond);
                assert(dl[i] == fs[i]);
                assert(filter_holds(fs[i], cond));
            } else {
                assert(filter_holds(fs[fs.len() - 1], cond));
            }
        }
        if exists|i: int| 0 <= i < fs.len() && #[trigger] filter_holds(fs[i], cond) {
            let i = choose|i: int| 0 <= i < fs.len() && #[trigger] filter_holds(fs[i], cond);
            if i < fs.len() - 1 {
                assert(dl[i] == fs[i]);
                assert(filter_holds(dl[i], cond));
            }
        }
    }
}

impl Filter {
    /// A copy of this filter, built afresh.
    pub fn duplicate(&self) -> (r: Filter)
        ensures
            same_filter(r, *self),
        decreases self,
    {
        match self {
            Filter::Condition { field_name, op, value } => Filter::Condition {
                field_name: field_name.clone(),
                op: *op,
                value: value.copy_value(),
            },
            Filter::And(v) => Filter::And(duplicate_all(v)),
            Filter::Or(v) => Filter::Or(duplicate_all(v)),
        }
    }

    /// This filter is the single condition `name op value`.
    pub open spec fn is_condition(self, name: Seq<char>, op: FilterOp, value: ValueView) -> bool {
        &&& self matches Filter::Condition { field_name, op: o, value: v }
        &&& field_name@ == name
        &&& o == op
        &&& v@ == value
    }

    /// The conjunction of `self` and `other`; a conjunction on the left is
    /// extended rather than nested.
    pub fn and(self, other: Filter) -> (r: Filter)
        ensures
            match self {
                Filter::And(v) => r matches Filter::And(w) && w@ == v@.push(other),
                _ => r matches Filter::And(w) && w@ == seq![self, other],
            },
    {
        match self {
            Filter::And(mut v) => {
                v.push(other);
                Filter::And(v)
            },
            _ => {
                let ghost s = self;
                let mut v: Vec<Filter> = Vec::new();
                v.push(self);
                v.push(other);
                assert(v@ == seq![s, other]);
                Filter::And(v)
            },
        }
    }

    /// The disjunction of `self` and `other`; a disjunction on the left is
    /// extended rather than nested.
    pub fn or(self, other: Filter) -> (r: Filter)
        ensures
            match self {
                Filter::Or(v) => r matches Filter::Or(w) && w@ == v@.push(other),
                _ => r matches Filter::Or(w) && w@ == seq![self, other],
            },
    {
        match self {
            Filter::Or(mut v) => {
                v.push(other);
                Filter::Or(v)
            },
            _ => {
                let ghost s = self;
                let mut v: Vec<Filter> = Vec::new();
                v.push(self);
                v.push(other);
                assert(v@ == seq![s, other]);
                Filter::Or(v)
            },
        }
    }
}

fn duplicate_all(v: &Vec<Filter>) -> (r: Vec<Filter>)
    ensures
        same_filters(r@, v@),
    decreases v,
{
    let mut r: Vec<Filter> = Vec::new();
    let mut i: usize = 0;
    while i < v.len()
        invariant
            i <= v@.len(),
            same_filters(r@, v@.take(i as int)),
        decreases v@.len() - i,
    {
        assert(decreases_to!(v => v@[i as int]));
        let d = v[i].duplicate();
        let ghost before = r@;
        r.push(d);
        proof {
            assert(r@.drop_last() =~= before);
            let t = v@.take(i + 1);
            assert(t.drop_last() =~= v@.take(i as int));
            assert(t.last() == v@[i as int]);
        }
        i += 1;
    }
    assert(v@.take(i as int) =~= v@);
    r
}

/// `a` and `b` are the same filter: the same conditions, with field names
/// and values of the same content, combined the same way.
pub open spec fn same_filter(a: Filter, b: Filter) -> bool
    decreases a,
{
    match (a, b) {
        (
            Filter::Condition { field_name: n1, op: o1, value: v1 },
            Filter::Condition { field_name: n2, op: o2, value: v2 },
        ) => n1@ == n2@ && o1 == o2 && v1@ == v2@,
        (Filter::And(x), Filter::And(y)) => same_filters(x@, y@),
        (Filter::Or(x), Filter::Or(y)) => same_filters(x@, y@),
        _ => false,
    }
}

/// `a` and `b` hold the same filters, in the same order.
pub open spec fn same_filters(a: Seq<Filter>, b: Seq<Filter>) -> bool
    decreases a,
{
    if a.len() == 0 {
        b.len() == 0
    } else {
        b.len() == a.len() && same_filters(a.drop_last(), b.drop_last()) && same_filter(a.last(), b.last())
    }
}

impl Clone for Filter {
    fn clone(&self) -> (r: Self)
        ensures
            same_filter(r, *self),
    {
        self.duplicate()
    }
}

/// `a.and(b)` holds of a document exactly when both `a` and `b` hold of it,
/// whatever the conditions mean.
pub proof fn lemma_and_is_conjunction(
    a: Filter,
    b: Filter,
    r: Filter,
    cond: spec_fn(Seq<char>, FilterOp, ValueView) -> bool,
)
    requires
        match a {
            Filter::And(v) => r matches Filter::And(w) && w@ == v@.push(b),
            _ => r matches Filter::And(w) && w@ == seq![a, b],
        },
    ensures
        filter_holds(r, cond) == (filter_holds(a, cond) && filter_holds(b, cond)),
{
    let w = r->And_0;
    match a {
        Filter::And(v) => {
            assert(w@.drop_last() == v@);
        },
        _ => {
            assert(w@.drop_last() == seq![a]);
            assert(seq![a].drop_last() == Seq::<Filter>::empty());
            assert(all_hold(Seq::<Filter>::empty(), cond) == true);
            assert(seq![a].last() == a);
            assert(all_hold(seq![a], cond) == filter_holds(a, cond));
        },
    }
}

/// `a.or(b)` holds of a document exactly when `a` or `b` holds of it,
/// whatever the conditions mean.
pub proof fn lemma_or_is_disjunction(
    a: Filter,
    b: Filter,
    r: Filter,
    cond: spec_fn(Seq<char>, FilterOp, ValueView) -> bool,
)
    requires
        match a {
            Filter::Or(v) => r matches Filter::Or(w) && w@ == v@.push(b),
            _ => r matches Filter::Or(w) && w@ == seq![a, b],
        },
    ensures
        filter_holds(r, cond) == (filter_holds(a, cond) || filter_holds(b, cond)),
{
    let w = r->Or_0;
    match a {
        Filter::Or(v) => {
            assert(w@.drop_last() == v@);
        },
        _ => {
            assert(w@.drop_last() == seq![a]);
            assert(seq![a].drop_last() == Seq::<Filter>::empty());
            assert(any_holds(Seq::<Filter>::empty(), cond) == false);
            assert(seq![a].last() == a);
            assert(any_holds(seq![a], cond) == filter_holds(a, cond));
        },
    }
}

/// Values that can become the text of a search query.
pub trait IntoText: Sized {
    /// The characters of the text.
    spec fn text_view(&self) -> Seq<char>;

    fn into_text(self) -> (r: String)
        ensures
            r@ == self.text_view(),
    ;
}

impl<'a> IntoText for &'a str {
    open spec fn text_view(&self) -> Seq<char> {
        self@
    }

    fn into_text(self) -> (r: String) {
        String::from_str(self)
    }
}

impl IntoText for String {
    open spec fn text_view(&self) -> Seq<char> {
        self@
    }

    fn into_text(self) -> (r: String) {
        self
    }
}

/// A search request: the field and text to search for, an optional filter,
/// and the page of results wanted.
#[derive(Debug)]
pub struct SearchQuery {
    field: FieldRef,
    query: String,
    filter: Option<Filter>,
    page: i64,
    per_page: i64,
}

impl Clone for SearchQuery {
    /// The same request: the same field, text and page, and a filter that is
    /// the same filter.
    fn clone(&self) -> (r: Self)
        ensures
            r.field_spec() == self.field_spec(),
            r.query_spec() == self.query_spec(),
            r.page_spec() == self.page_spec(),
            r.per_page_spec() == self.per_page_spec(),
            match (r.filter_spec(), self.filter_spec()) {
                (Some(a), Some(b)) => same_filter(a, b),
                (None, None) => true,
                _ => false,
            },
    {
        let filter = match &self.filter {
            Some(f) => Some(f.duplicate()),
            None => None,
        };
        SearchQuery {
            field: self.field,
            query: self.query.clone(),
            filter,
            page: self.page,
            per_page: self.per_page,
        }
    }
}

impl SearchQuery {
    pub closed spec fn field_spec(&self) -> FieldRef {
        self.field
    }

    pub closed spec fn query_spec(&self) -> Seq<char> {
        self.query@
    }

    pub closed spec fn filter_spec(&self) -> Option<Filter> {
        self.filter
    }

    pub closed spec fn page_spec(&self) -> i64 {
        self.page
    }

    pub closed spec fn per_page_spec(&self) -> i64 {
        self.per_page
    }

    /// A query for `query` in `field`, without filter, asking for the first
    /// page of ten results.
    pub fn new<Q: IntoText>(field: FieldRef, query: Q) -> (r: Self)
        ensures
            r.field_spec() == field,
            r.query_spec() == query.text_view(),
            r.filter_spec() is None,
            r.page_spec() == 1,
            r.per_page_spec() == 10,
    {
        SearchQuery { field, query: query.into_text(), filter: None, page: 1, per_page: 10 }
    }

    /// The same query, restricted by `filter` (which replaces any earlier one).
    pub fn with_filter(self, filter: Filter) -> (r: Self)
        ensures
            r.field_spec() == self.field_spec(),
            r.query_spec() == self.query_spec(),
            r.filter_spec() == Some(filter),
            r.page_spec() == self.page_spec(),
            r.per_page_spec() == self.per_page_spec(),
    {
        let mut q = self;
        q.filter = Some(filter);
        q
    }

    /// The same query, asking for page `page` (the first page is 1).
    pub fn page(self, page: i64) -> (r: Self)
        ensures
            r.field_spec() == self.field_spec(),
            r.query_spec() == self.query_spec(),
            r.filter_spec() == self.filter_spec(),
            r.page_spec() == page,
            r.per_page_spec() == self.per_page_spec(),
    {
        let mut q = self;
        q.page = page;
        q
    }

    /// The same query, asking for `per_page` results per page.
    pub fn per_page(self, per_page: i64) -> (r: Self)
        ensures
            r.field_spec() == self.field_spec(),
            r.query_spec() == self.query_spec(),
            r.filter_spec() == self.filter_spec(),
            r.page_spec() == self.page_spec(),
            r.per_page_spec() == per_page,
    {
        let mut q = self;
        q.per_page = per_page;
        q
    }

    pub fn field(&self) -> (r: &FieldRef)
        ensures
            *r == self.field_spec(),
    {
        &self.field
    }

    pub fn query(&self) -> (r: &str)
        ensures
            r@ == self.query_spec(),
    {
        self.query.as_str()
    }

    pub fn filter(&self) -> (r: Option<&Filter>)
        ensures
            match self.filter_spec() {
                Some(f) => r == Some(&f),
                None => r is None,
            },
    {
        match &self.filter {
            Some(f) => Some(f),
            None => None,
        }
    }

    pub fn get_page(&self) -> (r: i64)
        ensures
            r == self.page_spec(),
    {
        self.page
    }

    pub fn get_per_page(&self) -> (r: i64)
        ensures
            r == self.per_page_spec(),
    {
        self.per_page
    }
}

} // verus!
