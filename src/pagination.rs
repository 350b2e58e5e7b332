//! Paged search: the query window for a requested page and the summary that
//! accompanies the results.
use vstd::prelude::*;
use vstd::string::StringExecFns;
use crate::model::{PaginationBody, PaginationResponse};

verus! {

/// Rows per page.
pub const PAGE_TAKE: i64 = 10;

/// What to ask the store for one page of a search.
pub struct SearchQuery {
    /// `ILIKE` pattern: the term with a `%` on each side.
    pub pattern: String,
    pub limit: i64,
    pub offset: i64,
}

/// The number of pages reported for `count` rows: four hundredths of the
/// row count, rounded to the nearest integer.
pub open spec fn total_pages(count: int) -> int {
    (4 * count + 50) / 100
}

/// The query for the page requested in `body`, or `None` when the page's
/// offset does not fit in an `i64`.
pub fn search_query(body: &PaginationBody) -> (r: Option<SearchQuery>)
    ensures
        r is Some <==> i64::MIN <= (body.page - 1) * PAGE_TAKE <= i64::MAX,
        r is Some ==> {
            let q = r.unwrap();
            &&& q.pattern@ == seq!['%'] + body.term@ + seq!['%']
            &&& q.limit == PAGE_TAKE
            &&& q.offset == (body.page - 1) * PAGE_TAKE
        },
{
    if body.page < i64::MIN / PAGE_TAKE + 1 || body.page > i64::MAX / PAGE_TAKE + 1 {
        return None;
    }
    let offset = (body.page - 1) * PAGE_TAKE;
    let mut pattern = String::new();
    pattern.push('%');
    pattern.append(body.term.as_str());
    pattern.push('%');
    assert(pattern@ =~= seq!['%'] + body.term@ + seq!['%']);
    Some(SearchQuery { pattern, limit: PAGE_TAKE, offset })
}

/// The summary for a page of a search over `count` rows, or `None` when
/// `count` is negative or the page number or page total does not fit in an
/// `i32`.
pub fn pagination_summary(count: i64, page: i64) -> (r: Option<PaginationResponse>)
    ensures
        r is Some <==> 0 <= count && i32::MIN <= page <= i32::MAX && total_pages(count as int)
            <= i32::MAX,
        r is Some ==> {
            let p = r.unwrap();
            &&& p.per_page == PAGE_TAKE
            &&& p.total_page == total_pages(count as int)
            &&& p.count == count
            &&& p.current_page == page
        },
{
    if count < 0 || page < i32::MIN as i64 || page > i32::MAX as i64 {
        return None;
    }
    let total: i64 = count / 25 + if count % 25 >= 13 { 1i64 } else { 0i64 };
    assert(total == total_pages(count as int)) by (nonlinear_arith)
        requires
            total == count / 25 + if count % 25 >= 13 { 1int } else { 0int },
            count >= 0,
    {
    }
    if total > i32::MAX as i64 {
        return None;
    }
    Some(
        PaginationResponse {
            per_page: PAGE_TAKE as i32,
            total_page: total as i32,
            count,
            current_page: page as i32,
        },
    )
}

} // verus!
