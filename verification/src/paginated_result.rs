//! Pages of search results.
use vstd::prelude::*;

use crate::document::Document;
use crate::indexable::Indexable;

verus! {

/// One page of the results of a search.
pub struct PaginatedResult<T: Indexable> {
    pub data: Vec<T>,
    pub page: i64,
    pub total_items: i64,
    pub total_pages: i64,
}

impl<T: Indexable> PaginatedResult<T> {
    pub fn new(data: Vec<T>, page: i64, total_items: i64, total_pages: i64) -> (r: Self)
        ensures
            r.data == data,
            r.page == page,
            r.total_items == total_items,
            r.total_pages == total_pages,
    {
        PaginatedResult { data, page, total_items, total_pages }
    }
}

/// Page `page` of `per_page` results can be fetched: both are positive and
/// the end of the page fits the integers that count results.
pub open spec fn page_request_valid(page: int, per_page: int) -> bool {
    &&& 1 <= page
    &&& 1 <= per_page
    &&& page * per_page <= i64::MAX
    &&& page * per_page <= usize::MAX
}

/// Whether page `page` of `per_page` results can be fetched.
pub fn is_valid_page_request(page: i64, per_page: i64) -> (r: bool)
    ensures
        r == page_request_valid(page as int, per_page as int),
{
    if page < 1 || per_page < 1 {
        return false;
    }
    match page.checked_mul(per_page) {
        Some(end) => end as u64 as u128 <= usize::MAX as u128,
        None => false,
    }
}

/// The position of the first result of page `page`: `(page - 1) * per_page`.
pub fn page_offset(page: i64, per_page: i64) -> (r: usize)
    requires
        page_request_valid(page as int, per_page as int),
    ensures
        r == (page - 1) * per_page,
{
    assert((page - 1) * per_page <= page * per_page) by (nonlinear_arith)
        requires
            1 <= page,
            1 <= per_page,
    ;
    assert(0 <= (page - 1) * per_page) by (nonlinear_arith)
        requires
            1 <= page,
            1 <= per_page,
    ;
    ((page - 1) * per_page) as usize
}

/// The number of pages that `total_items` results fill, `per_page` to a
/// page: none without results, else `total_items / per_page` rounded up.
pub open spec fn spec_total_pages(total_items: int, per_page: int) -> int {
    if total_items == 0 {
        0
    } else {
        (total_items + per_page - 1) / per_page
    }
}

/// The number of pages that `total_items` results fill, `per_page` to a page.
pub fn total_pages(total_items: usize, per_page: i64) -> (r: i64)
    requires
        1 <= per_page,
        total_items + per_page <= i64::MAX,
    ensures
        r == spec_total_pages(total_items as int, per_page as int),
{
    if total_items == 0 {
        0
    } else {
        let t = total_items as i64;
        assert(t == total_items);
        (t + per_page - 1) / per_page
    }
}

/// The pages hold all results and no page is empty: `total_pages` pages of
/// `per_page` hold the `total_items` results, and one page fewer would not.
pub proof fn lemma_total_pages_is_ceiling(total_items: int, per_page: int)
    requires
        0 <= total_items,
        1 <= per_page,
    ensures
        spec_total_pages(total_items, per_page) * per_page >= total_items,
        total_items > 0 ==> (spec_total_pages(total_items, per_page) - 1) * per_page < total_items,
        total_items == 0 ==> spec_total_pages(total_items, per_page) == 0,
{
    if total_items > 0 {
        let n = total_items + per_page - 1;
        let q = n / per_page;
        assert(q * per_page <= n && n < q * per_page + per_page) by (nonlinear_arith)
            requires
                q == n / per_page,
                1 <= per_page,
                0 <= n,
        ;
        assert((q - 1) * per_page == q * per_page - per_page) by (nonlinear_arith);
    }
}

/// Every result is on exactly one page: result `i` (counting from 0) is on
/// page `i / per_page + 1`, a page between 1 and the number of pages, and on
/// no other page.
pub proof fn lemma_each_result_on_one_page(total_items: int, per_page: int, i: int, page: int)
    requires
        1 <= per_page,
        0 <= i < total_items,
        1 <= page,
    ensures
        1 <= i / per_page + 1 <= spec_total_pages(total_items, per_page),
        (i / per_page) * per_page <= i < (i / per_page + 1) * per_page,
        ((page - 1) * per_page <= i < page * per_page) <==> page == i / per_page + 1,
{
    let q = i / per_page;
    assert(q * per_page <= i < q * per_page + per_page && 0 <= q) by (nonlinear_arith)
        requires
            q == i / per_page,
            1 <= per_page,
            0 <= i,
    ;
    assert((q + 1) * per_page == q * per_page + per_page) by (nonlinear_arith);
    lemma_total_pages_is_ceiling(total_items, per_page);
    let t = spec_total_pages(total_items, per_page);
    assert(q + 1 <= t) by (nonlinear_arith)
        requires
            t * per_page >= total_items,
            q * per_page <= i,
            i < total_items,
            1 <= per_page,
    ;
    assert(((page - 1) * per_page <= i < page * per_page) <==> page == q + 1) by (nonlinear_arith)
        requires
            q * per_page <= i < q * per_page + per_page,
            1 <= per_page,
            1 <= page,
    ;
}

/// The values that the fetched documents hold, in order.
pub fn docs_to_t<T: Indexable>(docs: Vec<Document>) -> (r: Vec<T>)
    ensures
        r@.len() == docs@.len(),
        forall|i: int| 0 <= i < r@.len() ==> call_ensures(T::from_doc, (docs@[i],), #[trigger] r@[i]),
{
    let mut rest = docs;
    let ghost all = docs@;
    let mut result: Vec<T> = Vec::new();
    while rest.len() > 0
        invariant
            result@.len() + rest@.len() == all.len(),
            rest@ == all.skip(result@.len() as int),
            forall|k: int| 0 <= k < result@.len() ==> call_ensures(T::from_doc, (all[k],), #[trigger] result@[k]),
        decreases rest@.len(),
    {
        let ghost i: int = result@.len() as int;
        let doc = rest.remove(0);
        proof {
            assert(doc == all[i]);
            assert(rest@ =~= all.skip(i + 1 as int));
        }
        result.push(T::from_doc(doc));
    }
    result
}

/// A page of results: the values that the fetched documents hold, with the
/// page number, the number of results and the number of pages they fill.
pub fn paginate<T: Indexable>(docs: Vec<Document>, page: i64, per_page: i64, total_items: usize) -> (r: PaginatedResult<T>)
    requires
        1 <= per_page,
        total_items + per_page <= i64::MAX,
    ensures
        r.data@.len() == docs@.len(),
        forall|i: int| 0 <= i < r.data@.len() ==> call_ensures(T::from_doc, (docs@[i],), #[trigger] r.data@[i]),
        r.page == page,
        r.total_items == total_items,
        r.total_pages == spec_total_pages(total_items as int, per_page as int),
{
    let pages = total_pages(total_items, per_page);
    let data = docs_to_t(docs);
    PaginatedResult::new(data, page, total_items as i64, pages)
}

} // verus!
