use vstd::prelude::*;
use crate::ai::AiTransactionQuery;
use crate::clock::{Timestamp, instant_of, parse_rfc3339, rfc3339_instant};
use crate::extraction::{Named, find_containing, first_containing, named_view};
use crate::ids::Id;
use crate::pagination::PaginationQuery;
use crate::transactions::Transaction;

verus! {

/// Which transactions an analysis looks at: those of a pocket, a category,
/// a time span and a type, at most `limit` of them.
#[derive(Debug)]
pub struct AnalysisFilter {
    pub pocket_id: Option<Id>,
    pub category_id: Option<Id>,
    pub start_date: Option<Timestamp>,
    pub end_date: Option<Timestamp>,
    pub type_: Option<String>,
    pub limit: u32,
}

/// How many transactions an analysis reads when nothing else is asked.
pub open spec fn default_analysis_limit() -> u32 {
    200
}

/// The instant an optional RFC 3339 text denotes; nothing when there is no
/// text or it is not such a date.
pub open spec fn instant_denoted(s: Option<String>) -> Option<Timestamp> {
    match s {
        None => None,
        Some(t) => match rfc3339_instant(t@) {
            Some((secs, nanos)) => Some(instant_of(secs, nanos) as Timestamp),
            None => None,
        },
    }
}

/// The item among `items` whose name contains the optional name.
pub open spec fn named_match(items: Seq<Named>, name: Option<String>) -> Option<Id> {
    match name {
        None => None,
        Some(n) => first_containing(named_view(items), n@),
    }
}

fn parse_optional_date(s: &Option<String>) -> (r: Option<Timestamp>)
    ensures
        r == instant_denoted(*s),
{
    match s {
        None => None,
        Some(t) => parse_rfc3339(t.as_str()),
    }
}

fn match_optional_name(items: &Vec<Named>, name: &Option<String>) -> (r: Option<Id>)
    ensures
        r == named_match(items@, *name),
{
    match name {
        None => None,
        Some(n) => find_containing(items, n.as_str()),
    }
}

/// The filter of an analysis. `parsed` is what the language model read
/// from the user's question (nothing when there is no question); a failed
/// reading counts as no filter at all. A pocket or category is the first
/// of the user's whose name contains the name read, ignoring case; dates
/// that are not RFC 3339 are dropped; the limit defaults to 200.
pub fn analysis_filter(parsed: Option<Result<AiTransactionQuery, String>>, pockets: &Vec<Named>, categories: &Vec<Named>) -> (r: AnalysisFilter)
    ensures
        match parsed {
            Some(Ok(q)) => {
                &&& r.pocket_id == named_match(pockets@, q.pocket_name)
                &&& r.category_id == named_match(categories@, q.category_name)
                &&& r.start_date == instant_denoted(q.start_date)
                &&& r.end_date == instant_denoted(q.end_date)
                &&& r.type_ == q.transaction_type
                &&& r.limit == (match q.limit {
                    Some(l) => l,
                    None => default_analysis_limit(),
                })
            },
            _ => {
                &&& r.pocket_id is None && r.category_id is None
                &&& r.start_date is None && r.end_date is None
                &&& r.type_ is None
                &&& r.limit == default_analysis_limit()
            },
        },
{
    match parsed {
        Some(Ok(q)) => {
            let pocket_id = match_optional_name(pockets, &q.pocket_name);
            let category_id = match_optional_name(categories, &q.category_name);
            let start_date = parse_optional_date(&q.start_date);
            let end_date = parse_optional_date(&q.end_date);
            let limit = match q.limit {
                Some(l) => l,
                None => 200,
            };
            AnalysisFilter { pocket_id, category_id, start_date, end_date, type_: q.transaction_type, limit }
        },
        _ => AnalysisFilter {
            pocket_id: None,
            category_id: None,
            start_date: None,
            end_date: None,
            type_: None,
            limit: 200,
        },
    }
}

impl AnalysisFilter {
    /// The page to read: the first, of `limit` transactions.
    pub fn pagination(&self) -> (q: PaginationQuery)
        ensures
            q.page == Some(1u32),
            q.limit == Some(self.limit),
            q.search is None,
            q.sort is None,
            q.sort_order is None,
    {
        PaginationQuery { page: Some(1), limit: Some(self.limit), search: None, sort: None, sort_order: None }
    }
}

/// The transactions of a category, in their order; all of them when no
/// category is asked for.
pub open spec fn of_category(data: Seq<Transaction>, category: Option<Id>) -> Seq<Transaction> {
    match category {
        None => data,
        Some(c) => data.filter(|t: Transaction| t.category_id == Some(c)),
    }
}

/// Keeps the transactions of a category; see `of_category`.
pub fn keep_category(data: Vec<Transaction>, category: Option<Id>) -> (r: Vec<Transaction>)
    ensures
        r@ == of_category(data@, category),
{
    let c = match category {
        None => {
            return data;
        },
        Some(c) => c,
    };
    let ghost d = data@;
    let ghost pred = |t: Transaction| t.category_id == Some(c);
    let mut source = data;
    let mut rest: Vec<Transaction> = Vec::new();
    while source.len() > 0
        invariant
            source@ == d.subrange(0, source@.len() as int),
            rest@.len() + source@.len() == d.len(),
            forall|j: int| 0 <= j < rest@.len() ==> rest@[j] == d[d.len() - 1 - j],
        decreases source@.len(),
    {
        let ghost m = source@.len();
        let t = source.pop().unwrap();
        proof {
            assert(t == d[m - 1]);
        }
        rest.push(t);
        proof {
            assert(source@ =~= d.subrange(0, source@.len() as int));
        }
    }
    let mut out: Vec<Transaction> = Vec::new();
    while rest.len() > 0
        invariant
            rest@.len() <= d.len(),
            forall|j: int| 0 <= j < rest@.len() ==> rest@[j] == d[d.len() - 1 - j],
            pred == (|t: Transaction| t.category_id == Some(c)),
            out@ == d.subrange(0, d.len() - rest@.len()).filter(pred),
        decreases rest@.len(),
    {
        let ghost k = d.len() - rest@.len();
        let t = rest.pop().unwrap();
        proof {
            assert(t == d[k]);
            reveal_with_fuel(Seq::<_>::filter, 1);
            let q = d.subrange(0, k + 1);
            assert(q.drop_last() =~= d.subrange(0, k));
            assert(q.last() == t);
        }
        let keep = match t.category_id {
            Some(x) => x == c,
            None => false,
        };
        if keep {
            out.push(t);
        }
        proof {
            assert(out@ =~= d.subrange(0, k + 1).filter(pred));
        }
    }
    proof {
        assert(d.subrange(0, d.len() as int) =~= d);
    }
    out
}

} // verus!
