use vstd::prelude::*;

verus! {

/// Direction in which a listing is sorted.
#[derive(Debug, Clone, Copy, PartialEq, Eq, Structural, Default)]
pub enum SortOrder {
    #[default]
    Asc,
    Desc,
}

/// Page, size, free-text search and sort key of a listing request.
#[derive(Debug, Clone, Default)]
pub struct PaginationQuery {
    pub page: Option<u32>,
    pub limit: Option<u32>,
    pub search: Option<String>,
    pub sort: Option<String>,
    pub sort_order: Option<SortOrder>,
}

/// The page number asked for; the first page when none is given.
pub open spec fn page_of(q: PaginationQuery) -> u32 {
    match q.page {
        Some(p) => p,
        None => 1,
    }
}

/// The page size asked for; ten items when none is given.
pub open spec fn limit_of(q: PaginationQuery) -> u32 {
    match q.limit {
        Some(l) => l,
        None => 10,
    }
}

/// The number of items that come before the requested page.
pub open spec fn offset_of(q: PaginationQuery) -> int {
    (page_of(q) - 1) * limit_of(q)
}

/// A query whose offset can be computed in 32-bit arithmetic: the page is
/// at least one and the offset fits in a `u32`.
pub open spec fn offset_defined(q: PaginationQuery) -> bool {
    &&& page_of(q) >= 1
    &&& 0 <= offset_of(q) <= u32::MAX
}

impl PaginationQuery {
    /// The page asked for; the first when none is given.
    pub fn get_page(&self) -> (page: u32)
        ensures
            page == page_of(*self),
    {
        match self.page {
            Some(p) => p,
            None => 1,
        }
    }

    /// The page size asked for; ten when none is given.
    pub fn get_limit(&self) -> (limit: u32)
        ensures
            limit == limit_of(*self),
    {
        match self.limit {
            Some(l) => l,
            None => 10,
        }
    }

    /// How many items come before the page: `(page - 1) * limit`,
    /// computed in 32 bits as the listing does.
    pub fn get_offset(&self) -> (offset: i64)
        requires
            offset_defined(*self),
        ensures
            offset == offset_of(*self),
            offset >= 0,
    {
        let page = self.get_page();
        let limit = self.get_limit();
        proof {
            assert((page - 1) * limit <= u32::MAX);
        }
        let product: u32 = (page - 1) * limit;
        product as i64
    }

    /// A copy of the search text.
    pub fn get_search(&self) -> (search: Option<String>)
        ensures
            search == self.search,
    {
        clone_opt_string(&self.search)
    }

    /// A copy of the sort key.
    pub fn get_sort(&self) -> (sort: Option<String>)
        ensures
            sort == self.sort,
    {
        clone_opt_string(&self.sort)
    }

    /// The sort direction.
    pub fn get_sort_order(&self) -> (order: Option<SortOrder>)
        ensures
            order == self.sort_order,
    {
        self.sort_order
    }
}

/// An optional string, copied.
pub fn clone_opt_string(s: &Option<String>) -> (r: Option<String>)
    ensures
        r == *s,
{
    match s {
        Some(x) => {
            let c = x.clone();
            proof {
                assert(c@ == x@);
            }
            Some(c)
        },
        None => None,
    }
}

/// Body of a response that carries one value.
#[derive(Debug, Clone)]
pub struct ApiResponse<T> {
    pub data: T,
}

/// Body of a response that carries one page of a listing.
#[derive(Debug, Clone)]
pub struct PaginationResponse<T> {
    pub data: T,
    pub page: u32,
    pub limit: u32,
    pub total_data: u64,
    pub total_page: u64,
}

/// The number of pages needed to hold `total` items, `limit` to a page.
/// With a page size of zero there are no pages for no items and
/// `u64::MAX` pages otherwise.
pub open spec fn page_count(total: u64, limit: u32) -> int {
    if limit == 0 {
        if total == 0 { 0 } else { u64::MAX as int }
    } else {
        (total + limit - 1) / (limit as int)
    }
}

impl<T> PaginationResponse<T> {
    /// One page of a listing, with the number of pages that `total_data`
    /// items fill at `limit` a page (see `page_count`).
    pub fn new(data: T, page: u32, limit: u32, total_data: u64) -> (r: Self)
        ensures
            r.data == data,
            r.page == page,
            r.limit == limit,
            r.total_data == total_data,
            r.total_page == page_count(total_data, limit),
    {
        let total_page: u64 = if limit == 0 {
            if total_data == 0 { 0 } else { u64::MAX }
        } else {
            let l = limit as u64;
            let q = total_data / l;
            let r = total_data % l;
            proof {
                lemma_ceil_div(total_data as int, l as int);
            }
            if r == 0 { q } else { q + 1 }
        };
        PaginationResponse { data, page, limit, total_data, total_page }
    }
}

/// Ceiling division by the quotient and the remainder.
pub proof fn lemma_ceil_div(t: int, l: int)
    requires
        t >= 0,
        l > 0,
    ensures
        (t + l - 1) / l == if t % l == 0 { t / l } else { t / l + 1 },
        t % l != 0 ==> t / l < t,
{
    vstd::arithmetic::div_mod::lemma_fundamental_div_mod(t, l);
    let q = t / l;
    let r = t % l;
    assert(t == l * q + r);
    assert(0 <= r < l);
    assert(l * q == q * l) by (nonlinear_arith);
    assert(l * (q + 1) == (q + 1) * l) by (nonlinear_arith);
    if r == 0 {
        assert(t + l - 1 == l * q + (l - 1));
        vstd::arithmetic::div_mod::lemma_fundamental_div_mod_converse(t + l - 1, l, q, l - 1);
    } else {
        assert(l * (q + 1) == l * q + l) by (nonlinear_arith);
        assert(t + l - 1 == l * (q + 1) + (r - 1));
        vstd::arithmetic::div_mod::lemma_fundamental_div_mod_converse(t + l - 1, l, q + 1, r - 1);
        assert(q >= 0) by (nonlinear_arith)
            requires t == l * q + r, 0 <= r < l, t >= 0, l > 0;
        assert(l * q >= q) by (nonlinear_arith)
            requires l > 0, q >= 0;
    }
}

/// The pages hold every item and none is left empty: `page_count` pages
/// of `limit` items hold `total` items, and one page fewer would not.
pub proof fn lemma_pages_cover_total(total: u64, limit: u32)
    requires
        limit > 0,
    ensures
        page_count(total, limit) * limit >= total,
        page_count(total, limit) == 0 || (page_count(total, limit) - 1) * limit < total,
{
    let t = total as int;
    let l = limit as int;
    let c = page_count(total, limit);
    vstd::arithmetic::div_mod::lemma_fundamental_div_mod(t + l - 1, l);
    let r = (t + l - 1) % l;
    assert(t + l - 1 == l * c + r);
    assert(0 <= r < l);
    assert(c * l == l * c) by (nonlinear_arith);
    assert((c - 1) * l == c * l - l) by (nonlinear_arith);
}

} // verus!
