//! Query plans: the queries that searches and filters run, described as
//! data. Each variant is one kind of index query.
use vstd::prelude::*;

use crate::document::Term;
use crate::schema::{
    field_position, get_field_value_type, has_name, spec_value_type, Field, FieldEntryView, Schema,
    ValueType,
};
use crate::search_query::{Filter, FilterOp, FilterValue, SearchQuery, ValueView};
use crate::text::{lowercase, quote, quoted, split_spaces, split_spaces_exec, to_lowercase};

verus! {

/// How a clause of a boolean query takes part in it.
#[derive(Debug, Clone, Copy, PartialEq, Eq, Structural)]
pub enum Occur {
    /// The clause may match; without `Must` clauses one of the `Should`
    /// clauses must match.
    Should,
    /// The clause must match.
    Must,
    /// The clause must not match.
    MustNot,
}

/// One end of a range.
#[derive(Debug)]
pub enum TermBound {
    Included(Term),
    Excluded(Term),
    Unbounded,
}

/// The abstract content of a range end.
pub enum TermBoundView {
    Included((Field, ValueView)),
    Excluded((Field, ValueView)),
    Unbounded,
}

impl View for TermBound {
    type V = TermBoundView;

    open spec fn view(&self) -> TermBoundView {
        match self {
            TermBound::Included(t) => TermBoundView::Included(t@),
            TermBound::Excluded(t) => TermBoundView::Excluded(t@),
            TermBound::Unbounded => TermBoundView::Unbounded,
        }
    }
}

/// A query to run against an index.
#[derive(Debug)]
pub enum QueryPlan {
    /// Matches every document.
    All,
    /// `text` read by the query parser, searching `field`.
    Parsed { field: Field, text: String },
    /// Documents holding `term`.
    Term { term: Term },
    /// Documents whose field `field_name`, of type `value_type`, holds a
    /// value between `lower` and `upper`.
    Range { field_name: String, value_type: ValueType, lower: TermBound, upper: TermBound },
    /// Documents holding a term within `distance` edits of `term`.
    Fuzzy { term: Term, distance: u8, transposition_cost_one: bool },
    /// Documents whose `field` holds a term matching the regular expression
    /// `pattern`.
    Regex { pattern: String, field: Field },
    /// Documents holding `terms` as a phrase whose last word may be a prefix.
    PhrasePrefix { terms: Vec<Term> },
    /// The combination of the clauses.
    Boolean { clauses: Vec<(Occur, QueryPlan)> },
}

/// The abstract content of a query plan.
pub enum PlanView {
    All,
    Parsed { field: Field, text: Seq<char> },
    Term { term: (Field, ValueView) },
    Range {
        field_name: Seq<char>,
        value_type: ValueType,
        lower: TermBoundView,
        upper: TermBoundView,
    },
    Fuzzy { term: (Field, ValueView), distance: u8, transposition_cost_one: bool },
    Regex { pattern: Seq<char>, field: Field },
    PhrasePrefix { terms: Seq<(Field, ValueView)> },
    Boolean { clauses: Seq<(Occur, PlanView)> },
}

/// The abstract content of a plan.
pub open spec fn plan_view(p: QueryPlan) -> PlanView
    decreases p,
{
    match p {
        QueryPlan::All => PlanView::All,
        QueryPlan::Parsed { field, text } => PlanView::Parsed { field, text: text@ },
        QueryPlan::Term { term } => PlanView::Term { term: term@ },
        QueryPlan::Range { field_name, value_type, lower, upper } => PlanView::Range {
            field_name: field_name@,
            value_type,
            lower: lower@,
            upper: upper@,
        },
        QueryPlan::Fuzzy { term, distance, transposition_cost_one } => PlanView::Fuzzy {
            term: term@,
            distance,
            transposition_cost_one,
        },
        QueryPlan::Regex { pattern, field } => PlanView::Regex { pattern: pattern@, field },
        QueryPlan::PhrasePrefix { terms } => PlanView::PhrasePrefix {
            terms: terms@.map_values(|t: Term| t@),
        },
        QueryPlan::Boolean { clauses } => PlanView::Boolean { clauses: clauses_view(clauses@) },
    }
}

/// The abstract content of a list of clauses.
pub open spec fn clauses_view(cs: Seq<(Occur, QueryPlan)>) -> Seq<(Occur, PlanView)>
    decreases cs,
{
    if cs.len() == 0 {
        Seq::empty()
    } else {
        clauses_view(cs.drop_last()).push((cs.last().0, plan_view(cs.last().1)))
    }
}

impl View for QueryPlan {
    type V = PlanView;

    open spec fn view(&self) -> PlanView {
        plan_view(*self)
    }
}

/// Adding a clause adds its view.
pub proof fn lemma_clauses_view_push(cs: Seq<(Occur, QueryPlan)>, c: (Occur, QueryPlan))
    ensures
        clauses_view(cs.push(c)) == clauses_view(cs).push((c.0, plan_view(c.1))),
{
    assert(cs.push(c).drop_last() =~= cs);
}

/// The field named `name`.
pub open spec fn field_of(entries: Seq<FieldEntryView>, name: Seq<char>) -> Field {
    Field(field_position(entries, name) as u32)
}

/// The plan of the condition `name op value`, for every operation but `Ne`
/// (for which it is the plan of `Eq`): a phrase search for equal strings,
/// a term for other equal values, and a range for the comparisons.
pub open spec fn spec_condition(entries: Seq<FieldEntryView>, name: Seq<char>, op: FilterOp, value: ValueView) -> PlanView {
    let field = field_of(entries, name);
    let value_type = spec_value_type(entries[field.0 as int].field_type);
    let term = (field, value);
    match op {
        FilterOp::Eq | FilterOp::Ne => match value {
            ValueView::Str(s) => PlanView::Parsed { field, text: quoted(s) },
            _ => PlanView::Term { term },
        },
        FilterOp::Ge => PlanView::Range {
            field_name: name,
            value_type,
            lower: TermBoundView::Included(term),
            upper: TermBoundView::Unbounded,
        },
        FilterOp::Gt => PlanView::Range {
            field_name: name,
            value_type,
            lower: TermBoundView::Excluded(term),
            upper: TermBoundView::Unbounded,
        },
        FilterOp::Le => PlanView::Range {
            field_name: name,
            value_type,
            lower: TermBoundView::Unbounded,
            upper: TermBoundView::Included(term),
        },
        FilterOp::Lt => PlanView::Range {
            field_name: name,
            value_type,
            lower: TermBoundView::Unbounded,
            upper: TermBoundView::Excluded(term),
        },
    }
}

/// Every field that `f` names is in the schema.
pub open spec fn fields_known(entries: Seq<FieldEntryView>, f: Filter) -> bool
    decreases f,
{
    match f {
        Filter::Condition { field_name, .. } => has_name(entries, field_name@),
        Filter::And(v) => all_fields_known(entries, v@),
        Filter::Or(v) => all_fields_known(entries, v@),
    }
}

/// Every field that the filters of `fs` name is in the schema.
pub open spec fn all_fields_known(entries: Seq<FieldEntryView>, fs: Seq<Filter>) -> bool
    decreases fs,
{
    if fs.len() == 0 {
        true
    } else {
        all_fields_known(entries, fs.drop_last()) && fields_known(entries, fs.last())
    }
}

/// The query that a filter becomes on its own: a condition's plan; for
/// `Ne`, every document but those of the `Eq` plan; for a conjunction all of
/// the parts (`Must`), for a disjunction any of them (`Should`).
pub open spec fn spec_filter_query(entries: Seq<FieldEntryView>, f: Filter) -> PlanView
    decreases f,
{
    match f {
        Filter::Condition { field_name, op, value } => if op == FilterOp::Ne {
            PlanView::Boolean {
                clauses: seq![
                    (Occur::MustNot, spec_condition(entries, field_name@, FilterOp::Eq, value@)),
                    (Occur::Must, PlanView::All),
                ],
            }
        } else {
            spec_condition(entries, field_name@, op, value@)
        },
        Filter::And(v) => PlanView::Boolean { clauses: spec_filter_queries(entries, v@, Occur::Must) },
        Filter::Or(v) => PlanView::Boolean { clauses: spec_filter_queries(entries, v@, Occur::Should) },
    }
}

/// The query of each filter of `fs`, as a clause with `occur`.
pub open spec fn spec_filter_queries(entries: Seq<FieldEntryView>, fs: Seq<Filter>, occur: Occur) -> Seq<(Occur, PlanView)>
    decreases fs,
{
    if fs.len() == 0 {
        Seq::empty()
    } else {
        spec_filter_queries(entries, fs.drop_last(), occur).push(
            (occur, spec_filter_query(entries, fs.last())),
        )
    }
}

/// The clauses that a filter adds to a search, all of which a document
/// must pass: a condition's plan as a `Must` clause; for `Ne`, the `Eq` plan
/// as `MustNot` and a `Must` clause that matches every document; for a
/// conjunction, the query of each part as a `Must` clause; for a
/// disjunction, its query as one `Must` clause.
pub open spec fn spec_filter_clauses(entries: Seq<FieldEntryView>, f: Filter) -> Seq<(Occur, PlanView)> {
    match f {
        Filter::Condition { field_name, op, value } => if op == FilterOp::Ne {
            seq![
                (Occur::MustNot, spec_condition(entries, field_name@, FilterOp::Eq, value@)),
                (Occur::Must, PlanView::All),
            ]
        } else {
            seq![(Occur::Must, spec_condition(entries, field_name@, op, value@))]
        },
        Filter::And(v) => spec_filter_queries(entries, v@, Occur::Must),
        Filter::Or(_) => seq![(Occur::Must, spec_filter_query(entries, f))],
    }
}

/// A search query restricted by a filter: the filter's clauses and the
/// query as a `Must` clause; without filter, the query itself.
pub open spec fn spec_apply_filter(entries: Seq<FieldEntryView>, filter: Option<Filter>, query: PlanView) -> PlanView {
    match filter {
        Some(f) => PlanView::Boolean {
            clauses: spec_filter_clauses(entries, f).push((Occur::Must, query)),
        },
        None => query,
    }
}

fn copy_term(t: &Term) -> (r: Term)
    ensures
        r@ == t@,
{
    t.value.to_term(t.field)
}

fn range_query(field_name: &String, value_type: ValueType, lower: TermBound, upper: TermBound) -> (r: QueryPlan)
    ensures
        r@ == (PlanView::Range { field_name: field_name@, value_type, lower: lower@, upper: upper@ }),
{
    QueryPlan::Range { field_name: field_name.clone(), value_type, lower, upper }
}

fn equality_query(field: Field, value: &FilterValue) -> (r: QueryPlan)
    ensures
        r@ == match value@ {
            ValueView::Str(s) => PlanView::Parsed { field, text: quoted(s) },
            _ => PlanView::Term { term: (field, value@) },
        },
{
    match value {
        FilterValue::Str(s) => QueryPlan::Parsed { field, text: quote(s.as_str()) },
        _ => QueryPlan::Term { term: value.to_term(field) },
    }
}

/// The plan of the condition `field_name op value` (for `Ne`, of `Eq`).
fn condition_query(schema: &Schema, field_name: &String, op: FilterOp, value: &FilterValue) -> (r: QueryPlan)
    requires
        has_name(schema.entries(), field_name@),
    ensures
        r@ == spec_condition(schema.entries(), field_name@, op, value@),
{
    let field = match schema.get_field(field_name.as_str()) {
        Some(f) => f,
        None => {
            assert(false);
            Field(0)
        },
    };
    let value_type = get_field_value_type(&schema.get_field_entry(field).field_type);
    let ghost term = (field, value@);
    match op {
        FilterOp::Eq | FilterOp::Ne => equality_query(field, value),
        FilterOp::Ge => range_query(field_name, value_type, TermBound::Included(value.to_term(field)), TermBound::Unbounded),
        FilterOp::Gt => range_query(field_name, value_type, TermBound::Excluded(value.to_term(field)), TermBound::Unbounded),
        FilterOp::Le => range_query(field_name, value_type, TermBound::Unbounded, TermBound::Included(value.to_term(field))),
        FilterOp::Lt => range_query(field_name, value_type, TermBound::Unbounded, TermBound::Excluded(value.to_term(field))),
    }
}

/// The query that `filter` becomes on its own, as deleting by a filter
/// runs it.
pub fn filter_to_query(schema: &Schema, filter: &Filter) -> (r: QueryPlan)
    requires
        fields_known(schema.entries(), *filter),
    ensures
        r@ == spec_filter_query(schema.entries(), *filter),
    decreases filter,
{
    match filter {
        Filter::Condition { field_name, op, value } => {
            if *op == FilterOp::Ne {
                let eq_query = condition_query(schema, field_name, FilterOp::Eq, value);
                let mut clauses: Vec<(Occur, QueryPlan)> = Vec::new();
                clauses.push((Occur::MustNot, eq_query));
                clauses.push((Occur::Must, QueryPlan::All));
                proof {
                    let c0 = (Occur::MustNot, eq_query);
                    let c1 = (Occur::Must, QueryPlan::All);
                    lemma_clauses_view_push(Seq::empty(), c0);
                    assert(seq![c0] =~= Seq::<(Occur, QueryPlan)>::empty().push(c0));
                    lemma_clauses_view_push(seq![c0], c1);
                    assert(clauses@ =~= seq![c0].push(c1));
                    assert(clauses_view(Seq::empty()) =~= Seq::<(Occur, PlanView)>::empty());
                    assert(clauses_view(clauses@) =~= seq![
                        (Occur::MustNot, spec_condition(schema.entries(), field_name@, FilterOp::Eq, value@)),
                        (Occur::Must, PlanView::All),
                    ]);
                }
                QueryPlan::Boolean { clauses }
            } else {
                condition_query(schema, field_name, *op, value)
            }
        },
        Filter::And(v) => QueryPlan::Boolean { clauses: filter_queries(schema, v, Occur::Must) },
        Filter::Or(v) => QueryPlan::Boolean { clauses: filter_queries(schema, v, Occur::Should) },
    }
}

/// The query of each filter of `filters`, as a clause with `occur`.
fn filter_queries(schema: &Schema, filters: &Vec<Filter>, occur: Occur) -> (r: Vec<(Occur, QueryPlan)>)
    requires
        all_fields_known(schema.entries(), filters@),
    ensures
        clauses_view(r@) == spec_filter_queries(schema.entries(), filters@, occur),
    decreases filters,
{
    let mut r: Vec<(Occur, QueryPlan)> = Vec::new();
    let mut i: usize = 0;
    proof {
        assert(filters@.take(0) =~= Seq::<Filter>::empty());
        assert(clauses_view(r@) =~= Seq::<(Occur, PlanView)>::empty());
    }
    while i < filters.len()
        invariant
            i <= filters@.len(),
            all_fields_known(schema.entries(), filters@),
            clauses_view(r@) == spec_filter_queries(schema.entries(), filters@.take(i as int), occur),
        decreases filters@.len() - i,
    {
        proof {
            lemma_all_fields_known(schema.entries(), filters@, i as int);
            assert(decreases_to!(filters => filters@[i as int]));
        }
        let q = filter_to_query(schema, &filters[i]);
        let ghost before = r@;
        r.push((occur, q));
        proof {
            lemma_clauses_view_push(before, (occur, q));
            assert(r@ =~= before.push((occur, q)));
            let t = filters@.take(i + 1);
            assert(t.drop_last() =~= filters@.take(i as int));
            assert(t.last() == filters@[i as int]);
        }
        i += 1;
    }
    assert(filters@.take(i as int) =~= filters@);
    r
}

/// Each filter of a list whose fields are all known has known fields.
pub proof fn lemma_all_fields_known(entries: Seq<FieldEntryView>, fs: Seq<Filter>, i: int)
    requires
        all_fields_known(entries, fs),
        0 <= i < fs.len(),
    ensures
        fields_known(entries, fs[i]),
    decreases fs.len(),
{
    if i < fs.len() - 1 {
        lemma_all_fields_known(entries, fs.drop_last(), i);
        assert(fs.drop_last()[i] == fs[i]);
    }
}

/// The clauses of the condition `field_name op value`.
fn condition_clauses(schema: &Schema, field_name: &String, op: FilterOp, value: &FilterValue) -> (r: Vec<(Occur, QueryPlan)>)
    requires
        has_name(schema.entries(), field_name@),
    ensures
        clauses_view(r@) == spec_filter_clauses(
            schema.entries(),
            Filter::Condition { field_name: *field_name, op, value: *value },
        ),
{
    let mut clauses: Vec<(Occur, QueryPlan)> = Vec::new();
    if op == FilterOp::Ne {
        let eq_query = condition_query(schema, field_name, FilterOp::Eq, value);
        clauses.push((Occur::MustNot, eq_query));
        clauses.push((Occur::Must, QueryPlan::All));
        proof {
            let c0 = (Occur::MustNot, eq_query);
            let c1 = (Occur::Must, QueryPlan::All);
            lemma_clauses_view_push(Seq::empty(), c0);
            assert(seq![c0] =~= Seq::<(Occur, QueryPlan)>::empty().push(c0));
            lemma_clauses_view_push(seq![c0], c1);
            assert(clauses@ =~= seq![c0].push(c1));
            assert(clauses_view(Seq::empty()) =~= Seq::<(Occur, PlanView)>::empty());
            assert(clauses_view(clauses@) =~= seq![
                (Occur::MustNot, spec_condition(schema.entries(), field_name@, FilterOp::Eq, value@)),
                (Occur::Must, PlanView::All),
            ]);
        }
    } else {
        let q = condition_query(schema, field_name, op, value);
        clauses.push((Occur::Must, q));
        proof {
            let c0 = (Occur::Must, q);
            lemma_clauses_view_push(Seq::empty(), c0);
            assert(clauses@ =~= Seq::<(Occur, QueryPlan)>::empty().push(c0));
            assert(clauses_view(Seq::empty()) =~= Seq::<(Occur, PlanView)>::empty());
            assert(clauses_view(clauses@) =~= seq![
                (Occur::Must, spec_condition(schema.entries(), field_name@, op, value@)),
            ]);
        }
    }
    clauses
}

/// The clauses that `filter` adds to a search, all of which a document
/// must pass.
pub fn filter_to_clauses(schema: &Schema, filter: &Filter) -> (r: Vec<(Occur, QueryPlan)>)
    requires
        fields_known(schema.entries(), *filter),
    ensures
        clauses_view(r@) == spec_filter_clauses(schema.entries(), *filter),
{
    match filter {
        Filter::Condition { field_name, op, value } => condition_clauses(schema, field_name, *op, value),
        Filter::And(v) => filter_queries(schema, v, Occur::Must),
        Filter::Or(_) => {
            let q = filter_to_query(schema, filter);
            let mut clauses: Vec<(Occur, QueryPlan)> = Vec::new();
            clauses.push((Occur::Must, q));
            proof {
                let c0 = (Occur::Must, q);
                lemma_clauses_view_push(Seq::empty(), c0);
                assert(clauses@ =~= Seq::<(Occur, QueryPlan)>::empty().push(c0));
                assert(clauses_view(Seq::empty()) =~= Seq::<(Occur, PlanView)>::empty());
                assert(clauses_view(clauses@) =~= seq![(Occur::Must, spec_filter_query(schema.entries(), *filter))]);
            }
            clauses
        },
    }
}

/// `query` restricted by `filter`, as searching runs it: the filter's
/// clauses and the query as a `Must` clause; without filter, the query.
pub fn apply_filter(schema: &Schema, filter: Option<&Filter>, query: QueryPlan) -> (r: QueryPlan)
    requires
        match filter {
            Some(f) => fields_known(schema.entries(), *f),
            None => true,
        },
    ensures
        r@ == spec_apply_filter(
            schema.entries(),
            match filter {
                Some(f) => Some(*f),
                None => None,
            },
            query@,
        ),
{
    match filter {
        Some(f) => {
            let mut clauses = filter_to_clauses(schema, f);
            let ghost before = clauses@;
            clauses.push((Occur::Must, query));
            proof {
                lemma_clauses_view_push(before, (Occur::Must, query));
            }
            QueryPlan::Boolean { clauses }
        },
        None => query,
    }
}

/// The kinds of search.
#[derive(Debug, Clone, Copy, PartialEq, Eq, Structural)]
pub enum SearchKind {
    /// The text read by the query parser.
    Standard,
    /// The text as one term, matched within two edits.
    Fuzzy,
    /// The text as a regular expression over terms.
    Regex,
    /// The lowercased words of the text as a phrase prefix, or any of them
    /// within two edits.
    Hybrid,
}

/// The terms of the lowercased words of `text` (split at single spaces) in
/// `field`.
pub open spec fn hybrid_terms(field: Field, text: Seq<char>) -> Seq<(Field, ValueView)> {
    split_spaces(lowercase(text)).map_values(|p: Seq<char>| (field, ValueView::Str(p)))
}

/// The fuzzy clause of a term.
pub open spec fn fuzzy_clause(t: (Field, ValueView)) -> (Occur, PlanView) {
    (Occur::Should, PlanView::Fuzzy { term: t, distance: 2, transposition_cost_one: true })
}

/// The query of a search of kind `kind` for `text` in the field named
/// `field_name`, before any filter.
pub open spec fn spec_search_query(entries: Seq<FieldEntryView>, kind: SearchKind, field_name: Seq<char>, text: Seq<char>) -> PlanView {
    let field = field_of(entries, field_name);
    match kind {
        SearchKind::Standard => PlanView::Parsed { field, text },
        SearchKind::Fuzzy => PlanView::Fuzzy {
            term: (field, ValueView::Str(text)),
            distance: 2,
            transposition_cost_one: true,
        },
        SearchKind::Regex => PlanView::Regex { pattern: text, field },
        SearchKind::Hybrid => {
            let terms = hybrid_terms(field, text);
            PlanView::Boolean {
                clauses: seq![(Occur::Should, PlanView::PhrasePrefix { terms })] + terms.map_values(
                    |t: (Field, ValueView)| fuzzy_clause(t),
                ),
            }
        },
    }
}

fn term_list(field: Field, pieces: &Vec<String>) -> (r: Vec<Term>)
    ensures
        r@.len() == pieces@.len(),
        forall|k: int| 0 <= k < r@.len() ==> #[trigger] r@[k]@ == (field, ValueView::Str(pieces@[k]@)),
{
    let mut r: Vec<Term> = Vec::new();
    let mut i: usize = 0;
    while i < pieces.len()
        invariant
            i <= pieces@.len(),
            r@.len() == i,
            forall|k: int| 0 <= k < i ==> #[trigger] r@[k]@ == (field, ValueView::Str(pieces@[k]@)),
        decreases pieces@.len() - i,
    {
        r.push(Term { field, value: FilterValue::Str(pieces[i].clone()) });
        i += 1;
    }
    r
}

/// The hybrid query of `text` in `field`.
fn hybrid_query(field: Field, text: &str) -> (r: QueryPlan)
    ensures
        r@ == (PlanView::Boolean {
            clauses: seq![(Occur::Should, PlanView::PhrasePrefix { terms: hybrid_terms(field, text@) })]
                + hybrid_terms(field, text@).map_values(|t: (Field, ValueView)| fuzzy_clause(t)),
        }),
{
    let lowered = to_lowercase(text);
    let pieces = split_spaces_exec(lowered.as_str());
    let terms = term_list(field, &pieces);
    let fuzzy_terms = term_list(field, &pieces);
    let ghost tv = hybrid_terms(field, text@);
    proof {
        assert(pieces@.map_values(|p: String| p@) == split_spaces(lowercase(text@)));
        assert forall|k: int| 0 <= k < tv.len() implies tv[k] == #[trigger] terms@[k]@ by {
            assert(pieces@.map_values(|p: String| p@)[k] == pieces@[k]@);
        }
        assert(terms@.map_values(|t: Term| t@) =~= tv);
        assert forall|k: int| 0 <= k < tv.len() implies tv[k] == #[trigger] fuzzy_terms@[k]@ by {
            assert(pieces@.map_values(|p: String| p@)[k] == pieces@[k]@);
        }
        assert(fuzzy_terms@.map_values(|t: Term| t@) =~= tv);
    }
    let mut clauses: Vec<(Occur, QueryPlan)> = Vec::new();
    clauses.push((Occur::Should, QueryPlan::PhrasePrefix { terms }));
    proof {
        lemma_clauses_view_push(Seq::empty(), clauses@[0]);
        assert(clauses@ =~= Seq::<(Occur, QueryPlan)>::empty().push(clauses@[0]));
        assert(clauses_view(Seq::<(Occur, QueryPlan)>::empty()) =~= Seq::<(Occur, PlanView)>::empty());
    }
    let mut i: usize = 0;
    while i < fuzzy_terms.len()
        invariant
            i <= fuzzy_terms@.len(),
            fuzzy_terms@.map_values(|t: Term| t@) == tv,
            clauses_view(clauses@) == seq![(Occur::Should, PlanView::PhrasePrefix { terms: tv })]
                + tv.take(i as int).map_values(|t: (Field, ValueView)| fuzzy_clause(t)),
        decreases fuzzy_terms@.len() - i,
    {
        let t = copy_term(&fuzzy_terms[i]);
        let ghost before = clauses@;
        let c = (Occur::Should, QueryPlan::Fuzzy { term: t, distance: 2, transposition_cost_one: true });
        clauses.push(c);
        proof {
            lemma_clauses_view_push(before, c);
            assert(tv[i as int] == fuzzy_terms@[i as int]@);
            assert(tv.take(i + 1).map_values(|t: (Field, ValueView)| fuzzy_clause(t)) =~= tv.take(
                i as int,
            ).map_values(|t: (Field, ValueView)| fuzzy_clause(t)).push(fuzzy_clause(tv[i as int])));
            assert(clauses_view(clauses@) =~= seq![(Occur::Should, PlanView::PhrasePrefix { terms: tv })]
                + tv.take(i + 1).map_values(|t: (Field, ValueView)| fuzzy_clause(t)));
        }
        i += 1;
    }
    assert(tv.take(i as int) =~= tv);
    QueryPlan::Boolean { clauses }
}

/// The query of a search of kind `kind` for `text` in the field named
/// `field_name`, before any filter.
pub fn search_query(schema: &Schema, kind: SearchKind, field_name: &str, text: &str) -> (r: QueryPlan)
    requires
        has_name(schema.entries(), field_name@),
    ensures
        r@ == spec_search_query(schema.entries(), kind, field_name@, text@),
{
    let field = match schema.get_field(field_name) {
        Some(f) => f,
        None => {
            assert(false);
            Field(0)
        },
    };
    match kind {
        SearchKind::Hybrid => hybrid_query(field, text),
        _ => simple_query(field, kind, text),
    }
}

fn simple_query(field: Field, kind: SearchKind, text: &str) -> (r: QueryPlan)
    requires
        kind != SearchKind::Hybrid,
    ensures
        r@ == match kind {
            SearchKind::Standard => PlanView::Parsed { field, text: text@ },
            SearchKind::Fuzzy => PlanView::Fuzzy {
                term: (field, ValueView::Str(text@)),
                distance: 2,
                transposition_cost_one: true,
            },
            _ => PlanView::Regex { pattern: text@, field },
        },
{
    match kind {
        SearchKind::Standard => QueryPlan::Parsed { field, text: String::from_str(text) },
        SearchKind::Fuzzy => QueryPlan::Fuzzy {
            term: Term { field, value: FilterValue::Str(String::from_str(text)) },
            distance: 2,
            transposition_cost_one: true,
        },
        _ => QueryPlan::Regex { pattern: String::from_str(text), field },
    }
}

/// The query that a search runs: the search of `kind` for the query's
/// text in its field, restricted by the query's filter.
pub fn plan_search(schema: &Schema, kind: SearchKind, query: &SearchQuery) -> (r: QueryPlan)
    requires
        has_name(schema.entries(), query.field_spec().name@),
        match query.filter_spec() {
            Some(f) => fields_known(schema.entries(), f),
            None => true,
        },
    ensures
        r@ == spec_apply_filter(
            schema.entries(),
            query.filter_spec(),
            spec_search_query(schema.entries(), kind, query.field_spec().name@, query.query_spec()),
        ),
{
    let base = search_query(schema, kind, query.field().name(), query.query());
    apply_filter(schema, query.filter(), base)
}

/// Whether every field that `filter` names is in the schema.
pub fn filter_fields_known(schema: &Schema, filter: &Filter) -> (r: bool)
    ensures
        r == fields_known(schema.entries(), *filter),
    decreases filter,
{
    match filter {
        Filter::Condition { field_name, .. } => schema.get_field(field_name.as_str()).is_some(),
        Filter::And(v) => all_filter_fields_known(schema, v),
        Filter::Or(v) => all_filter_fields_known(schema, v),
    }
}

fn all_filter_fields_known(schema: &Schema, filters: &Vec<Filter>) -> (r: bool)
    ensures
        r == all_fields_known(schema.entries(), filters@),
    decreases filters,
{
    let mut i: usize = 0;
    assert(filters@.take(0) =~= Seq::<Filter>::empty());
    while i < filters.len()
        invariant
            i <= filters@.len(),
            all_fields_known(schema.entries(), filters@.take(i as int)),
        decreases filters@.len() - i,
    {
        proof {
            assert(decreases_to!(filters => filters@[i as int]));
            let t = filters@.take(i + 1);
            assert(t.drop_last() =~= filters@.take(i as int));
            assert(t.last() == filters@[i as int]);
        }
        if !filter_fields_known(schema, &filters[i]) {
            proof {
                if all_fields_known(schema.entries(), filters@) {
                    lemma_all_fields_known(schema.entries(), filters@, i as int);
                }
            }
            return false;
        }
        i += 1;
    }
    assert(filters@.take(i as int) =~= filters@);
    true
}

/// Whether the query's field and every field its filter names are in the
/// schema.
pub fn query_fields_known(schema: &Schema, query: &SearchQuery) -> (r: bool)
    ensures
        r == (has_name(schema.entries(), query.field_spec().name@) && match query.filter_spec() {
            Some(f) => fields_known(schema.entries(), f),
            None => true,
        }),
{
    let field_known = schema.get_field(query.field().name()).is_some();
    match query.filter() {
        Some(f) => field_known && filter_fields_known(schema, f),
        None => field_known,
    }
}

/// The clauses of exact-phrase filters: for each pair of a field name and a
/// text, the quoted text read by the query parser on that field, as a
/// `Must` clause.
pub open spec fn spec_phrase_clauses(entries: Seq<FieldEntryView>, filters: Seq<(Seq<char>, Seq<char>)>) -> Seq<(Occur, PlanView)> {
    filters.map_values(
        |p: (Seq<char>, Seq<char>)|
            (Occur::Must, PlanView::Parsed { field: field_of(entries, p.0), text: quoted(p.1) }),
    )
}

/// The pairs of `filters` by their characters.
pub open spec fn pairs_view(filters: Seq<(String, String)>) -> Seq<(Seq<char>, Seq<char>)> {
    filters.map_values(|p: (String, String)| (p.0@, p.1@))
}

/// The clauses of exact-phrase filters, one `Must` clause per pair of a
/// field name and a text.
pub fn new_boolean_query_filters(schema: &Schema, filters: &Vec<(String, String)>) -> (r: Vec<(Occur, QueryPlan)>)
    requires
        forall|i: int| 0 <= i < filters@.len() ==> has_name(schema.entries(), (#[trigger] filters@[i]).0@),
    ensures
        clauses_view(r@) == spec_phrase_clauses(schema.entries(), pairs_view(filters@)),
{
    let ghost target = spec_phrase_clauses(schema.entries(), pairs_view(filters@));
    assert(target.len() == filters@.len());
    let mut r: Vec<(Occur, QueryPlan)> = Vec::new();
    let mut i: usize = 0;
    while i < filters.len()
        invariant
            i <= filters@.len(),
            target == spec_phrase_clauses(schema.entries(), pairs_view(filters@)),
            forall|i: int| 0 <= i < filters@.len() ==> has_name(schema.entries(), (#[trigger] filters@[i]).0@),
            r@.len() == i,
            forall|k: int| 0 <= k < i ==> (#[trigger] r@[k]).0 == target[k].0 && plan_view(r@[k].1) == target[k].1,
        decreases filters@.len() - i,
    {
        let pair = &filters[i];
        assert(has_name(schema.entries(), filters@[i as int].0@));
        let field = match schema.get_field(pair.0.as_str()) {
            Some(f) => f,
            None => {
                assert(false);
                Field(0)
            },
        };
        let c = (Occur::Must, QueryPlan::Parsed { field, text: quote(pair.1.as_str()) });
        r.push(c);
        i += 1;
    }
    proof {
        lemma_clauses_view_matches(r@, target);
    }
    r
}

/// A list of clauses whose views are, one by one, those of `target` has
/// `target` as its view.
pub proof fn lemma_clauses_view_matches(cs: Seq<(Occur, QueryPlan)>, target: Seq<(Occur, PlanView)>)
    requires
        cs.len() == target.len(),
        forall|k: int| 0 <= k < cs.len() ==> (#[trigger] cs[k]).0 == target[k].0 && plan_view(cs[k].1) == target[k].1,
    ensures
        clauses_view(cs) == target,
{
    lemma_clauses_view_index(cs);
    assert(clauses_view(cs) =~= target);
}

/// The view of a list of clauses, clause by clause.
pub proof fn lemma_clauses_view_index(cs: Seq<(Occur, QueryPlan)>)
    ensures
        clauses_view(cs).len() == cs.len(),
        forall|k: int| 0 <= k < cs.len() ==> #[trigger] clauses_view(cs)[k] == (cs[k].0, plan_view(cs[k].1)),
    decreases cs.len(),
{
    if cs.len() > 0 {
        lemma_clauses_view_index(cs.drop_last());
        assert forall|k: int| 0 <= k < cs.len() implies #[trigger] clauses_view(cs)[k] == (cs[k].0, plan_view(cs[k].1)) by {
            if k < cs.len() - 1 {
                assert(cs.drop_last()[k] == cs[k]);
            }
        }
    }
}

/// `query` restricted by exact-phrase filters: without filters the query
/// itself, else the filters' clauses and the query as a `Must` clause.
pub fn filter_query(schema: &Schema, filters: &Vec<(String, String)>, query: QueryPlan) -> (r: QueryPlan)
    requires
        forall|i: int| 0 <= i < filters@.len() ==> has_name(schema.entries(), (#[trigger] filters@[i]).0@),
    ensures
        r@ == if filters@.len() == 0 {
            query@
        } else {
            PlanView::Boolean {
                clauses: spec_phrase_clauses(schema.entries(), pairs_view(filters@)).push(
                    (Occur::Must, query@),
                ),
            }
        },
{
    if filters.len() == 0 {
        query
    } else {
        let mut clauses = new_boolean_query_filters(schema, filters);
        let ghost before = clauses@;
        clauses.push((Occur::Must, query));
        proof {
            lemma_clauses_view_push(before, (Occur::Must, query));
        }
        QueryPlan::Boolean { clauses }
    }
}

} // verus!
