use vstd::prelude::*;
use crate::amount::{Amount, neg_of, value_at, lemma_neg_value};
use crate::text::text_eq;

verus! {

/// How a transaction moves money, by its type text.
#[derive(Debug, Clone, Copy, PartialEq, Eq, Structural)]
pub enum Flow {
    /// "income": money comes into the pocket.
    Income,
    /// "expense": money leaves the pocket.
    Expense,
    /// "transfer": money leaves the pocket for the destination pocket.
    Transfer,
    /// Any other type: balances are touched by zero.
    Other,
}

/// The flow that a transaction type text denotes.
pub open spec fn flow_of(t: Seq<char>) -> Flow {
    if t == "income"@ {
        Flow::Income
    } else if t == "expense"@ {
        Flow::Expense
    } else if t == "transfer"@ {
        Flow::Transfer
    } else {
        Flow::Other
    }
}

/// The flow that a transaction type denotes.
pub fn classify(type_: &str) -> (f: Flow)
    ensures
        f == flow_of(type_@),
{
    if text_eq(type_, "income") {
        Flow::Income
    } else if text_eq(type_, "expense") {
        Flow::Expense
    } else if text_eq(type_, "transfer") {
        Flow::Transfer
    } else {
        Flow::Other
    }
}

/// A change of one pocket's balance by a signed amount.
#[derive(Debug)]
pub struct BalanceUpdate {
    pub pocket_id: u128,
    pub amount: Amount,
}

/// A balance update as plain values: the pocket and the decimal.
pub open spec fn update_view(u: BalanceUpdate) -> (u128, (int, int)) {
    (u.pocket_id, u.amount@)
}

/// A list of balance updates as plain values.
pub open spec fn updates_view(us: Seq<BalanceUpdate>) -> Seq<(u128, (int, int))> {
    us.map_values(|u: BalanceUpdate| update_view(u))
}

/// The balance updates that recording a transaction makes: the pocket
/// gains an income and loses an expense or a transfer (zero for another
/// type); the destination of a transfer gains the amount.
pub open spec fn applied(pocket: u128, dest: Option<u128>, amount: (int, int), flow: Flow) -> Seq<(u128, (int, int))> {
    let first = match flow {
        Flow::Income => (pocket, amount),
        Flow::Expense => (pocket, neg_of(amount)),
        Flow::Transfer => (pocket, neg_of(amount)),
        Flow::Other => (pocket, (0int, 0int)),
    };
    match (flow, dest) {
        (Flow::Transfer, Some(d)) => seq![first, (d, amount)],
        _ => seq![first],
    }
}

/// The balance updates that take a recorded transaction back: the
/// opposite of each update of `applied`.
pub open spec fn reverted(pocket: u128, dest: Option<u128>, amount: (int, int), flow: Flow) -> Seq<(u128, (int, int))> {
    let first = match flow {
        Flow::Income => (pocket, neg_of(amount)),
        Flow::Expense => (pocket, amount),
        Flow::Transfer => (pocket, amount),
        Flow::Other => (pocket, (0int, 0int)),
    };
    match (flow, dest) {
        (Flow::Transfer, Some(d)) => seq![first, (d, neg_of(amount))],
        _ => seq![first],
    }
}

/// The balance updates that recording a transaction makes.
pub fn application_updates(pocket: u128, dest: Option<u128>, amount: &Amount, flow: Flow) -> (r: Vec<BalanceUpdate>)
    ensures
        updates_view(r@) == applied(pocket, dest, amount@, flow),
{
    let first = match flow {
        Flow::Income => BalanceUpdate { pocket_id: pocket, amount: amount.duplicate() },
        Flow::Expense => BalanceUpdate { pocket_id: pocket, amount: amount.neg() },
        Flow::Transfer => BalanceUpdate { pocket_id: pocket, amount: amount.neg() },
        Flow::Other => BalanceUpdate { pocket_id: pocket, amount: Amount::zero() },
    };
    let mut r: Vec<BalanceUpdate> = Vec::new();
    r.push(first);
    match (flow, dest) {
        (Flow::Transfer, Some(d)) => {
            r.push(BalanceUpdate { pocket_id: d, amount: amount.duplicate() });
        },
        _ => {},
    }
    proof {
        assert(updates_view(r@) =~= applied(pocket, dest, amount@, flow));
    }
    r
}

/// The balance updates that take a recorded transaction back.
pub fn reversal_updates(pocket: u128, dest: Option<u128>, amount: &Amount, flow: Flow) -> (r: Vec<BalanceUpdate>)
    ensures
        updates_view(r@) == reverted(pocket, dest, amount@, flow),
{
    let first = match flow {
        Flow::Income => BalanceUpdate { pocket_id: pocket, amount: amount.neg() },
        Flow::Expense => BalanceUpdate { pocket_id: pocket, amount: amount.duplicate() },
        Flow::Transfer => BalanceUpdate { pocket_id: pocket, amount: amount.duplicate() },
        Flow::Other => BalanceUpdate { pocket_id: pocket, amount: Amount::zero() },
    };
    let mut r: Vec<BalanceUpdate> = Vec::new();
    r.push(first);
    match (flow, dest) {
        (Flow::Transfer, Some(d)) => {
            r.push(BalanceUpdate { pocket_id: d, amount: amount.neg() });
        },
        _ => {},
    }
    proof {
        assert(updates_view(r@) =~= reverted(pocket, dest, amount@, flow));
    }
    r
}

/// The net change of one pocket's balance by a list of updates, in units
/// of `10^-k` (for a `k` no smaller than every scale in the list).
pub open spec fn net_change(us: Seq<(u128, (int, int))>, pocket: u128, k: int) -> int
    decreases us.len(),
{
    if us.len() == 0 {
        0
    } else {
        let u = us.last();
        net_change(us.drop_last(), pocket, k) + if u.0 == pocket { value_at(u.1.0, u.1.1, k) } else { 0 }
    }
}

/// The net change of all balances together by a list of updates, in units
/// of `10^-k`.
pub open spec fn total_change(us: Seq<(u128, (int, int))>, k: int) -> int
    decreases us.len(),
{
    if us.len() == 0 {
        0
    } else {
        let u = us.last();
        total_change(us.drop_last(), k) + value_at(u.1.0, u.1.1, k)
    }
}

/// Net changes add up over consecutive lists of updates.
pub proof fn lemma_net_change_concat(a: Seq<(u128, (int, int))>, b: Seq<(u128, (int, int))>, pocket: u128, k: int)
    ensures
        net_change(a + b, pocket, k) == net_change(a, pocket, k) + net_change(b, pocket, k),
    decreases b.len(),
{
    if b.len() == 0 {
        assert(a + b =~= a);
    } else {
        assert((a + b).drop_last() =~= a + b.drop_last());
        assert((a + b).last() == b.last());
        lemma_net_change_concat(a, b.drop_last(), pocket, k);
    }
}

/// Zero is zero at every scale.
proof fn lemma_zero_value(k: int)
    ensures
        value_at(0, 0, k) == 0,
{
    assert(0 * crate::amount::pow10(k as nat) == 0);
}

/// Taking a recorded transaction back restores every pocket's balance:
/// for each pocket, the updates of recording it and those of taking it
/// back add up to nothing.
pub proof fn lemma_reversal_cancels_application(pocket: u128, dest: Option<u128>, amount: (int, int), flow: Flow, q: u128, k: int)
    ensures
        net_change(applied(pocket, dest, amount, flow) + reverted(pocket, dest, amount, flow), q, k) == 0,
{
    lemma_net_change_concat(applied(pocket, dest, amount, flow), reverted(pocket, dest, amount, flow), q, k);
    lemma_neg_value(amount, k);
    lemma_zero_value(k);
    reveal_with_fuel(net_change, 3);
    let a = applied(pocket, dest, amount, flow);
    let r = reverted(pocket, dest, amount, flow);
    if a.len() == 1 {
        assert(a.drop_last().len() == 0);
        assert(r.drop_last().len() == 0);
    } else {
        assert(a.drop_last().drop_last().len() == 0);
        assert(r.drop_last().drop_last().len() == 0);
    }
}

/// Recording and then taking back, in the other order, also cancels out.
pub proof fn lemma_application_cancels_reversal(pocket: u128, dest: Option<u128>, amount: (int, int), flow: Flow, q: u128, k: int)
    ensures
        net_change(reverted(pocket, dest, amount, flow) + applied(pocket, dest, amount, flow), q, k) == 0,
{
    lemma_net_change_concat(reverted(pocket, dest, amount, flow), applied(pocket, dest, amount, flow), q, k);
    lemma_net_change_concat(applied(pocket, dest, amount, flow), reverted(pocket, dest, amount, flow), q, k);
    lemma_reversal_cancels_application(pocket, dest, amount, flow, q, k);
}

/// A transfer to a destination pocket moves money without creating or
/// destroying any: the balances together do not change.
pub proof fn lemma_transfer_conserves_money(pocket: u128, d: u128, amount: (int, int), k: int)
    ensures
        total_change(applied(pocket, Some(d), amount, Flow::Transfer), k) == 0,
{
    lemma_neg_value(amount, k);
    reveal_with_fuel(total_change, 3);
    let a = applied(pocket, Some(d), amount, Flow::Transfer);
    assert(a.drop_last().drop_last().len() == 0);
}

/// An income raises the pocket's balance by the amount and an expense
/// lowers it by the amount; a transfer lowers the source pocket by the
/// amount and raises a distinct destination pocket by it.
pub proof fn lemma_flow_directions(pocket: u128, d: u128, amount: (int, int), k: int)
    requires
        pocket != d,
    ensures
        net_change(applied(pocket, None, amount, Flow::Income), pocket, k) == value_at(amount.0, amount.1, k),
        net_change(applied(pocket, None, amount, Flow::Expense), pocket, k) == -value_at(amount.0, amount.1, k),
        net_change(applied(pocket, Some(d), amount, Flow::Transfer), pocket, k) == -value_at(amount.0, amount.1, k),
        net_change(applied(pocket, Some(d), amount, Flow::Transfer), d, k) == value_at(amount.0, amount.1, k),
{
    lemma_neg_value(amount, k);
    reveal_with_fuel(net_change, 3);
    assert(applied(pocket, None, amount, Flow::Income).drop_last().len() == 0);
    assert(applied(pocket, None, amount, Flow::Expense).drop_last().len() == 0);
    assert(applied(pocket, Some(d), amount, Flow::Transfer).drop_last().drop_last().len() == 0);
}

} // verus!
