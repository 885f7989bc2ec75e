//! What query plans match, and what the plans of filters mean.
//!
//! A boolean query matches a document when none of its `MustNot` clauses
//! match and, if it has `Must` clauses, all of them match, or else, if it has
//! `Should` clauses, one of them matches (a boolean query with neither
//! matches nothing). What the other kinds of query match (phrases, terms,
//! ranges, ...) is left as a parameter `leaf`: the laws hold whatever it is.
use vstd::prelude::*;

use crate::index_field::{value_kind, IndexField};
use crate::index_type::IndexType;
use crate::query_plan::{
    field_of, fuzzy_clause, hybrid_terms, spec_apply_filter, spec_condition, spec_filter_clauses,
    spec_filter_queries, spec_filter_query, spec_search_query, Occur, PlanView, SearchKind,
    TermBoundView,
};
use crate::schema::{Field, FieldEntryView};
use crate::search_query::{all_hold, any_holds, filter_holds, Filter, FilterOp, ValueView};
use crate::text::{lemma_split_spaces_nonempty, lowercase, split_spaces};

verus! {

/// What a list of clauses says of one document.
pub struct ClauseSummary {
    pub has_must: bool,
    pub all_must: bool,
    pub has_should: bool,
    pub any_should: bool,
    pub none_must_not: bool,
}

/// The summary of no clauses.
pub open spec fn empty_summary() -> ClauseSummary {
    ClauseSummary {
        has_must: false,
        all_must: true,
        has_should: false,
        any_should: false,
        none_must_not: true,
    }
}

/// Whether `p` matches the document, where `leaf` says which plans other
/// than `All` and boolean queries match it.
pub open spec fn plan_matches(p: PlanView, leaf: spec_fn(PlanView) -> bool) -> bool
    decreases p,
{
    match p {
        PlanView::All => true,
        PlanView::Boolean { clauses } => summary_matches(summarize(clauses, leaf)),
        _ => leaf(p),
    }
}

/// Which kinds of clause `cs` has, and which of them match the document.
pub open spec fn summarize(cs: Seq<(Occur, PlanView)>, leaf: spec_fn(PlanView) -> bool) -> ClauseSummary
    decreases cs,
{
    if cs.len() == 0 {
        empty_summary()
    } else {
        let s = summarize(cs.drop_last(), leaf);
        let m = plan_matches(cs.last().1, leaf);
        match cs.last().0 {
            Occur::Must => ClauseSummary { has_must: true, all_must: s.all_must && m, ..s },
            Occur::Should => ClauseSummary { has_should: true, any_should: s.any_should || m, ..s },
            Occur::MustNot => ClauseSummary { none_must_not: s.none_must_not && !m, ..s },
        }
    }
}

/// Whether a boolean query with these clauses matches.
pub open spec fn summary_matches(s: ClauseSummary) -> bool {
    (if s.has_must {
        s.all_must
    } else {
        s.any_should
    }) && s.none_must_not
}

/// What the condition `name op value` means, given what the plans match:
/// for `Ne`, that the `Eq` plan does not match; otherwise that its plan
/// matches.
pub open spec fn condition_meaning(entries: Seq<FieldEntryView>, leaf: spec_fn(PlanView) -> bool) -> spec_fn(
    Seq<char>,
    FilterOp,
    ValueView,
) -> bool {
    |name: Seq<char>, op: FilterOp, value: ValueView|
        if op == FilterOp::Ne {
            !leaf(spec_condition(entries, name, FilterOp::Eq, value))
        } else {
            leaf(spec_condition(entries, name, op, value))
        }
}

/// No conjunction in `f` is empty.
pub open spec fn no_empty_and(f: Filter) -> bool
    decreases f,
{
    match f {
        Filter::Condition { .. } => true,
        Filter::And(v) => v@.len() > 0 && all_no_empty_and(v@),
        Filter::Or(v) => all_no_empty_and(v@),
    }
}

/// No conjunction in the filters of `fs` is empty.
pub open spec fn all_no_empty_and(fs: Seq<Filter>) -> bool
    decreases fs,
{
    if fs.len() == 0 {
        true
    } else {
        all_no_empty_and(fs.drop_last()) && no_empty_and(fs.last())
    }
}

/// A condition's plan is matched as the leaf says.
proof fn lemma_condition_is_leaf(entries: Seq<FieldEntryView>, name: Seq<char>, op: FilterOp, value: ValueView, leaf: spec_fn(PlanView) -> bool)
    ensures
        plan_matches(spec_condition(entries, name, op, value), leaf) == leaf(spec_condition(entries, name, op, value)),
{
}

/// The summary of `[(MustNot, a), (Must, All)]`.
proof fn lemma_not_summary(a: PlanView, leaf: spec_fn(PlanView) -> bool)
    ensures
        summary_matches(summarize(seq![(Occur::MustNot, a), (Occur::Must, PlanView::All)], leaf)) == !plan_matches(a, leaf),
        summarize(seq![(Occur::MustNot, a), (Occur::Must, PlanView::All)], leaf) == (ClauseSummary {
            has_must: true,
            all_must: true,
            has_should: false,
            any_should: false,
            none_must_not: !plan_matches(a, leaf),
        }),
{
    let cs = seq![(Occur::MustNot, a), (Occur::Must, PlanView::All)];
    let one = seq![(Occur::MustNot, a)];
    assert(cs.drop_last() =~= one);
    assert(cs.last() == (Occur::Must, PlanView::All));
    assert(one.drop_last() =~= Seq::<(Occur, PlanView)>::empty());
    assert(one.last() == (Occur::MustNot, a));
    assert(summarize(Seq::<(Occur, PlanView)>::empty(), leaf) == empty_summary());
    let s1 = summarize(one, leaf);
    assert(s1 == ClauseSummary { none_must_not: !plan_matches(a, leaf), ..empty_summary() });
    assert(plan_matches(PlanView::All, leaf));
    let s2 = summarize(cs, leaf);
    assert(s2 == ClauseSummary { has_must: true, all_must: s1.all_must && true, ..s1 });
}

/// The query of a filter without empty conjunctions matches exactly the
/// documents that the filter describes: what deleting by a filter removes.
pub proof fn lemma_filter_query_meaning(entries: Seq<FieldEntryView>, f: Filter, leaf: spec_fn(PlanView) -> bool)
    requires
        no_empty_and(f),
    ensures
        plan_matches(spec_filter_query(entries, f), leaf) == filter_holds(f, condition_meaning(entries, leaf)),
    decreases f,
{
    match f {
        Filter::Condition { field_name, op, value } => {
            lemma_condition_query_meaning(entries, field_name@, op, value@, leaf);
        },
        Filter::And(v) => {
            lemma_filter_queries_summary(entries, v@, Occur::Must, leaf);
        },
        Filter::Or(v) => {
            lemma_filter_queries_summary(entries, v@, Occur::Should, leaf);
        },
    }
}

/// The query of a single condition matches as the condition means.
proof fn lemma_condition_query_meaning(entries: Seq<FieldEntryView>, name: Seq<char>, op: FilterOp, value: ValueView, leaf: spec_fn(PlanView) -> bool)
    ensures
        plan_matches(
            if op == FilterOp::Ne {
                PlanView::Boolean {
                    clauses: seq![
                        (Occur::MustNot, spec_condition(entries, name, FilterOp::Eq, value)),
                        (Occur::Must, PlanView::All),
                    ],
                }
            } else {
                spec_condition(entries, name, op, value)
            },
            leaf,
        ) == condition_meaning(entries, leaf)(name, op, value),
{
    lemma_condition_is_leaf(entries, name, FilterOp::Eq, value, leaf);
    lemma_condition_is_leaf(entries, name, op, value, leaf);
    if op == FilterOp::Ne {
        lemma_not_summary(spec_condition(entries, name, FilterOp::Eq, value), leaf);
    }
}

/// The summary of the queries of `fs` as clauses with `occur`.
pub proof fn lemma_filter_queries_summary(entries: Seq<FieldEntryView>, fs: Seq<Filter>, occur: Occur, leaf: spec_fn(PlanView) -> bool)
    requires
        all_no_empty_and(fs),
        occur != Occur::MustNot,
    ensures
        summarize(spec_filter_queries(entries, fs, occur), leaf) == (if occur == Occur::Must {
            ClauseSummary {
                has_must: fs.len() > 0,
                all_must: all_hold(fs, condition_meaning(entries, leaf)),
                has_should: false,
                any_should: false,
                none_must_not: true,
            }
        } else {
            ClauseSummary {
                has_must: false,
                all_must: true,
                has_should: fs.len() > 0,
                any_should: any_holds(fs, condition_meaning(entries, leaf)),
                none_must_not: true,
            }
        }),
    decreases fs,
{
    if fs.len() > 0 {
        let qs = spec_filter_queries(entries, fs, occur);
        lemma_filter_queries_summary(entries, fs.drop_last(), occur, leaf);
        lemma_filter_query_meaning(entries, fs.last(), leaf);
        assert(qs.drop_last() =~= spec_filter_queries(entries, fs.drop_last(), occur));
        assert(qs.last() == (occur, spec_filter_query(entries, fs.last())));
    }
}

/// The filter has no empty conjunction, except perhaps itself: what a
/// search reads exactly.
pub open spec fn search_filter_ok(f: Filter) -> bool {
    match f {
        Filter::And(v) => all_no_empty_and(v@),
        _ => no_empty_and(f),
    }
}

/// The summary of a single `Must` clause.
proof fn lemma_one_must_summary(a: PlanView, leaf: spec_fn(PlanView) -> bool)
    ensures
        summarize(seq![(Occur::Must, a)], leaf) == (ClauseSummary {
            has_must: true,
            all_must: plan_matches(a, leaf),
            has_should: false,
            any_should: false,
            none_must_not: true,
        }),
{
    let cs = seq![(Occur::Must, a)];
    assert(cs.drop_last() =~= Seq::<(Occur, PlanView)>::empty());
    assert(cs.last() == (Occur::Must, a));
    assert(summarize(Seq::<(Occur, PlanView)>::empty(), leaf) == empty_summary());
}

/// The clauses that a filter adds to a search have no `Should` clause, and
/// all of them pass exactly when the filter holds; they have a `Must`
/// clause unless the filter is an empty conjunction.
pub proof fn lemma_filter_clauses_summary(entries: Seq<FieldEntryView>, f: Filter, leaf: spec_fn(PlanView) -> bool)
    requires
        search_filter_ok(f),
    ensures
        !summarize(spec_filter_clauses(entries, f), leaf).has_should,
        (summarize(spec_filter_clauses(entries, f), leaf).all_must && summarize(
            spec_filter_clauses(entries, f),
            leaf,
        ).none_must_not) == filter_holds(f, condition_meaning(entries, leaf)),
        no_empty_and(f) ==> summarize(spec_filter_clauses(entries, f), leaf).has_must,
{
    match f {
        Filter::Condition { field_name, op, value } => {
            lemma_condition_is_leaf(entries, field_name@, op, value@, leaf);
            if op == FilterOp::Ne {
                lemma_not_summary(spec_condition(entries, field_name@, FilterOp::Eq, value@), leaf);
                lemma_condition_is_leaf(entries, field_name@, FilterOp::Eq, value@, leaf);
            } else {
                lemma_one_must_summary(spec_condition(entries, field_name@, op, value@), leaf);
            }
        },
        Filter::And(v) => {
            lemma_filter_queries_summary(entries, v@, Occur::Must, leaf);
        },
        Filter::Or(v) => {
            lemma_one_must_summary(spec_filter_query(entries, f), leaf);
            lemma_filter_query_meaning(entries, f, leaf);
        },
    }
}

/// The clauses that a filter without empty conjunctions adds to a search,
/// taken as a boolean query of their own, match exactly the documents that
/// the filter describes.
pub proof fn lemma_filter_clauses_meaning(entries: Seq<FieldEntryView>, f: Filter, leaf: spec_fn(PlanView) -> bool)
    requires
        no_empty_and(f),
    ensures
        plan_matches(PlanView::Boolean { clauses: spec_filter_clauses(entries, f) }, leaf) == filter_holds(
            f,
            condition_meaning(entries, leaf),
        ),
{
    lemma_filter_clauses_summary(entries, f, leaf);
}

/// A search restricted by a filter matches exactly the documents that the
/// search matches and the filter describes (for every filter without empty
/// conjunctions below its top).
pub proof fn lemma_search_filter_meaning(entries: Seq<FieldEntryView>, f: Filter, query: PlanView, leaf: spec_fn(PlanView) -> bool)
    requires
        search_filter_ok(f),
    ensures
        plan_matches(spec_apply_filter(entries, Some(f), query), leaf) == (plan_matches(query, leaf)
            && filter_holds(f, condition_meaning(entries, leaf))),
{
    let cs = spec_filter_clauses(entries, f);
    let all = cs.push((Occur::Must, query));
    assert(all.drop_last() =~= cs);
    assert(all.last() == (Occur::Must, query));
    lemma_filter_clauses_summary(entries, f, leaf);
}

/// A search without filter matches what its query matches.
pub proof fn lemma_search_without_filter(entries: Seq<FieldEntryView>, query: PlanView, leaf: spec_fn(PlanView) -> bool)
    ensures
        plan_matches(spec_apply_filter(entries, None, query), leaf) == plan_matches(query, leaf),
{
}

/// A hybrid search has at least one term, and all of its terms are in the
/// searched field: the phrase prefix query it builds is well formed.
pub proof fn lemma_hybrid_terms(field: Field, text: Seq<char>)
    ensures
        hybrid_terms(field, text).len() >= 1,
        forall|i: int| 0 <= i < hybrid_terms(field, text).len() ==> (#[trigger] hybrid_terms(field, text)[i]).0 == field,
{
    lemma_split_spaces_nonempty(lowercase(text));
}

/// A range filter (`gt`, `ge`, `lt`, `le`) on a field declared for the
/// field type `T` reads its bound as a value of the kind of `T`'s terms (an
/// unsigned field as unsigned, a date field as a date, ...), names that
/// field, and bounds it by the filter's value on the side the operation says.
pub proof fn lemma_range_filter_value_type<T: IndexField>(
    entries: Seq<FieldEntryView>,
    name: Seq<char>,
    op: FilterOp,
    value: ValueView,
    x: T,
    stored: bool,
    index_type: IndexType,
)
    requires
        T::single_valued(),
        0 <= field_of(entries, name).0 < entries.len(),
        entries[field_of(entries, name).0 as int] == T::schema_entry(name, stored, index_type),
        op == FilterOp::Gt || op == FilterOp::Ge || op == FilterOp::Lt || op == FilterOp::Le,
    ensures
        spec_condition(entries, name, op, value) matches PlanView::Range { field_name, value_type, lower, upper }
            && field_name == name && value_type == value_kind(x.term_value()) && (op == FilterOp::Gt
            ==> lower == TermBoundView::Excluded((field_of(entries, name), value)) && upper
            == TermBoundView::Unbounded) && (op == FilterOp::Ge ==> lower == TermBoundView::Included(
            (field_of(entries, name), value),
        ) && upper == TermBoundView::Unbounded) && (op == FilterOp::Lt ==> upper
            == TermBoundView::Excluded((field_of(entries, name), value)) && lower
            == TermBoundView::Unbounded) && (op == FilterOp::Le ==> upper == TermBoundView::Included(
            (field_of(entries, name), value),
        ) && lower == TermBoundView::Unbounded),
{
    x.lemma_term_of_value(name, stored, index_type);
}

/// A hybrid search is a phrase-prefix query of the lowercased words of its
/// text (split at spaces) in the searched field, and, for each of those
/// words, the same query as a fuzzy search for that word alone, each as a
/// `Should` clause.
pub proof fn lemma_hybrid_is_phrase_prefix_or_fuzzy(entries: Seq<FieldEntryView>, name: Seq<char>, text: Seq<char>)
    ensures
        ({
            let words = split_spaces(lowercase(text));
            spec_search_query(entries, SearchKind::Hybrid, name, text) matches PlanView::Boolean { clauses }
                && clauses.len() == words.len() + 1 && clauses[0] == (
                Occur::Should,
                PlanView::PhrasePrefix {
                    terms: words.map_values(|w: Seq<char>| (field_of(entries, name), ValueView::Str(w))),
                },
            ) && forall|k: int|
                0 <= k < words.len() ==> #[trigger] clauses[k + 1] == (
                    Occur::Should,
                    spec_search_query(entries, SearchKind::Fuzzy, name, words[k]),
                )
        }),
{
    let words = split_spaces(lowercase(text));
    let field = field_of(entries, name);
    let terms = hybrid_terms(field, text);
    assert(terms =~= words.map_values(|w: Seq<char>| (field, ValueView::Str(w))));
    let clauses = seq![(Occur::Should, PlanView::PhrasePrefix { terms })] + terms.map_values(
        |t: (Field, ValueView)| fuzzy_clause(t),
    );
    assert forall|k: int| 0 <= k < words.len() implies #[trigger] clauses[k + 1] == (
        Occur::Should,
        spec_search_query(entries, SearchKind::Fuzzy, name, words[k]),
    ) by {
        assert(clauses[k + 1] == fuzzy_clause(terms[k]));
    }
}

} // verus!
