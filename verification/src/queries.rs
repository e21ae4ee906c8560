use vstd::prelude::*;
use crate::error::concat;
use crate::notifications::opt_text;
use crate::pagination::{PaginationQuery, SortOrder, limit_of, offset_defined, offset_of};
use crate::text::text_eq;

verus! {

/// The order in which transactions are listed.
#[derive(Debug, Clone, Copy, PartialEq, Eq, Structural)]
pub enum TransactionOrder {
    AmountAscending,
    AmountDescending,
    TimeAscending,
    TimeDescending,
}

/// The order a listing asks for: by amount when the sort key is "amount",
/// else by transaction time; ascending only when asked, else descending.
pub open spec fn transaction_order_of(sort: Option<String>, order: Option<SortOrder>) -> TransactionOrder {
    let by_amount = match sort {
        Some(s) => s@ == "amount"@,
        None => false,
    };
    let ascending = order == Some(SortOrder::Asc);
    if by_amount {
        if ascending { TransactionOrder::AmountAscending } else { TransactionOrder::AmountDescending }
    } else {
        if ascending { TransactionOrder::TimeAscending } else { TransactionOrder::TimeDescending }
    }
}

/// The order of a transaction listing; see `transaction_order_of`.
pub fn transaction_order(q: &PaginationQuery) -> (r: TransactionOrder)
    ensures
        r == transaction_order_of(q.sort, q.sort_order),
{
    let by_amount = match &q.sort {
        Some(s) => text_eq(s.as_str(), "amount"),
        None => false,
    };
    let ascending = match q.sort_order {
        Some(SortOrder::Asc) => true,
        _ => false,
    };
    if by_amount {
        if ascending { TransactionOrder::AmountAscending } else { TransactionOrder::AmountDescending }
    } else {
        if ascending { TransactionOrder::TimeAscending } else { TransactionOrder::TimeDescending }
    }
}

/// The case-insensitive pattern that matches names holding `s`.
pub open spec fn like_pattern_of(s: Seq<char>) -> Seq<char> {
    "%"@ + s + "%"@
}

/// The name pattern of a listing's search, if it has one.
pub fn search_pattern(q: &PaginationQuery) -> (r: Option<String>)
    ensures
        opt_text(r) == match q.search {
            Some(s) => Some(like_pattern_of(s@)),
            None => None,
        },
{
    match &q.search {
        Some(s) => {
            let m = concat("%", s.as_str());
            Some(concat(m.as_str(), "%"))
        },
        None => None,
    }
}

/// How many rows a listing reads, and how many it skips.
#[derive(Debug, Clone, Copy)]
pub struct PageWindow {
    pub limit: i64,
    pub offset: i64,
}

/// The rows of the page a listing asks for.
pub fn page_window(q: &PaginationQuery) -> (w: PageWindow)
    requires
        offset_defined(*q),
    ensures
        w.limit == limit_of(*q),
        w.offset == offset_of(*q),
{
    let limit = q.get_limit();
    PageWindow { limit: limit as i64, offset: q.get_offset() }
}

} // verus!
