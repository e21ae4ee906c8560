use vstd::prelude::*;
use crate::amount::Amount;
use crate::clock::Timestamp;
use crate::ids::{Id, fresh_id};
use crate::ledger::{
    BalanceUpdate, Flow, applied, reverted, flow_of, classify, updates_view, net_change,
    total_change, application_updates, reversal_updates, lemma_reversal_cancels_application,
    lemma_application_cancels_reversal, lemma_transfer_conserves_money, lemma_net_change_concat,
};
use crate::text::{text_eq, copy_text};
use crate::amount::decimal_text;
use crate::pockets::PocketResponse;
use crate::categories::CategoryResponse;
use crate::pagination::{PaginationQuery, SortOrder};

verus! {

/// A movement of money recorded against a pocket.
///
/// Its status is "pending" (awaiting review), "resolved" or "rejected"; a
/// rejected transaction has no effect on any balance.
#[derive(Debug)]
pub struct Transaction {
    pub id: Id,
    pub user_id: Id,
    pub pocket_id: Id,
    pub category_id: Option<Id>,
    pub amount: Amount,
    pub type_: String,
    pub title: String,
    pub transaction_time: Timestamp,
    pub destination_pocket_id: Option<Id>,
    pub description: Option<String>,
    pub status: String,
}

/// The status text of a rejected transaction.
pub open spec fn is_rejected(status: Seq<char>) -> bool {
    status == "rejected"@
}

/// The status text of a transaction awaiting review.
pub open spec fn is_pending(status: Seq<char>) -> bool {
    status == "pending"@
}

/// The balance updates that a transaction makes once recorded, whatever
/// its status.
pub open spec fn tx_applied(t: Transaction) -> Seq<(u128, (int, int))> {
    applied(t.pocket_id, t.destination_pocket_id, t.amount@, flow_of(t.type_@))
}

/// The balance updates that take a transaction back, whatever its status.
pub open spec fn tx_reverted(t: Transaction) -> Seq<(u128, (int, int))> {
    reverted(t.pocket_id, t.destination_pocket_id, t.amount@, flow_of(t.type_@))
}

/// The balance updates that storing a transaction makes: none when it is
/// rejected.
pub open spec fn recording_updates(t: Transaction) -> Seq<(u128, (int, int))> {
    if is_rejected(t.status@) { seq![] } else { tx_applied(t) }
}

/// The balance updates that removing a stored transaction makes: none when
/// it is rejected.
pub open spec fn removal_updates(t: Transaction) -> Seq<(u128, (int, int))> {
    if is_rejected(t.status@) { seq![] } else { tx_reverted(t) }
}

/// The status is "rejected".
pub fn status_is_rejected(status: &str) -> (b: bool)
    ensures
        b == is_rejected(status@),
{
    text_eq(status, "rejected")
}

/// The status is "pending".
pub fn status_is_pending(status: &str) -> (b: bool)
    ensures
        b == is_pending(status@),
{
    text_eq(status, "pending")
}

/// The balance updates that storing the transaction makes.
pub fn recording(t: &Transaction) -> (r: Vec<BalanceUpdate>)
    ensures
        updates_view(r@) == recording_updates(*t),
{
    if status_is_rejected(t.status.as_str()) {
        let r: Vec<BalanceUpdate> = Vec::new();
        proof {
            assert(updates_view(r@) =~= seq![]);
        }
        r
    } else {
        application_updates(t.pocket_id, t.destination_pocket_id, &t.amount, classify(t.type_.as_str()))
    }
}

/// The balance updates that removing the stored transaction makes.
pub fn removal(t: &Transaction) -> (r: Vec<BalanceUpdate>)
    ensures
        updates_view(r@) == removal_updates(*t),
{
    if status_is_rejected(t.status.as_str()) {
        let r: Vec<BalanceUpdate> = Vec::new();
        proof {
            assert(updates_view(r@) =~= seq![]);
        }
        r
    } else {
        reversal_updates(t.pocket_id, t.destination_pocket_id, &t.amount, classify(t.type_.as_str()))
    }
}

/// The destination pocket whose owner must be checked: that of a transfer.
pub open spec fn destination_checked(type_: Seq<char>, dest: Option<Id>) -> Option<Id> {
    if flow_of(type_) == Flow::Transfer { dest } else { None }
}

/// The destination pocket that must be looked up and checked before a
/// transaction of this type is stored.
pub fn destination_to_check(type_: &str, dest: Option<Id>) -> (r: Option<Id>)
    ensures
        r == destination_checked(type_@, dest),
{
    match classify(type_) {
        Flow::Transfer => dest,
        _ => None,
    }
}

/// The refusal, if any, of a pocket lookup for a user: the message for a
/// pocket not found, or for a pocket of another user.
pub open spec fn owner_refusal(lookup: Option<Id>, user_id: Id, missing: Seq<char>, denied: Seq<char>) -> Option<Seq<char>> {
    match lookup {
        None => Some(missing),
        Some(owner) => if owner != user_id { Some(denied) } else { None },
    }
}

/// Checks that a looked-up pocket (given by its owner) exists and belongs
/// to the user.
pub fn check_owner(lookup: Option<Id>, user_id: Id, missing: &str, denied: &str) -> (r: Result<(), String>)
    ensures
        match owner_refusal(lookup, user_id, missing@, denied@) {
            Some(m) => r matches Err(e) && e@ == m,
            None => r is Ok,
        },
{
    match lookup {
        None => Err(String::from_str(missing)),
        Some(owner) => {
            if owner != user_id {
                Err(String::from_str(denied))
            } else {
                Ok(())
            }
        },
    }
}

/// Why storing a new transaction is refused, if it is: its pocket is
/// missing or another user's; or it is a transfer whose destination is
/// missing or another user's.
pub open spec fn create_refusal(user_id: Id, type_: Seq<char>, dest: Option<Id>, pocket_owner: Option<Id>, destination_owner: Option<Id>) -> Option<Seq<char>> {
    match owner_refusal(pocket_owner, user_id, "Pocket not found"@, "Unauthorized pocket access"@) {
        Some(m) => Some(m),
        None => match destination_checked(type_, dest) {
            Some(_) => owner_refusal(destination_owner, user_id, "Destination pocket not found"@,
                "Unauthorized destination pocket access"@),
            None => None,
        },
    }
}

/// A transaction to store and the balance updates to make for it.
///
/// For a new transaction the transaction is stored first and the updates
/// made after; for a changed one the updates are made first.
#[derive(Debug)]
pub struct TransactionPlan {
    pub transaction: Transaction,
    pub updates: Vec<BalanceUpdate>,
}

/// The balance updates to make before a transaction is deleted.
#[derive(Debug)]
pub struct VoidPlan {
    pub transaction_id: Id,
    pub updates: Vec<BalanceUpdate>,
}

/// Records a new transaction under the given identifier.
///
/// `pocket_owner` is the owner of the pocket that `pocket_id` names, as a
/// lookup found it (`None` when there is no such pocket);
/// `destination_owner` that of the destination pocket, looked up when
/// `destination_to_check` names it. The transaction is stored as given;
/// unless it is rejected, its balance updates follow.
pub fn plan_create_transaction(
    id: Id,
    user_id: Id,
    pocket_id: Id,
    category_id: Option<Id>,
    amount: Amount,
    type_: String,
    title: String,
    transaction_time: Timestamp,
    destination_pocket_id: Option<Id>,
    description: Option<String>,
    status: String,
    pocket_owner: Option<Id>,
    destination_owner: Option<Id>,
) -> (r: Result<TransactionPlan, String>)
    ensures
        match create_refusal(user_id, type_@, destination_pocket_id, pocket_owner, destination_owner) {
            Some(m) => r matches Err(e) && e@ == m,
            None => r matches Ok(plan) && {
                let t = plan.transaction;
                &&& t.id == id
                &&& t.user_id == user_id
                &&& t.pocket_id == pocket_id
                &&& t.category_id == category_id
                &&& t.amount == amount
                &&& t.type_ == type_
                &&& t.title == title
                &&& t.transaction_time == transaction_time
                &&& t.destination_pocket_id == destination_pocket_id
                &&& t.description == description
                &&& t.status == status
                &&& updates_view(plan.updates@) == recording_updates(t)
            },
        },
{
    check_owner(pocket_owner, user_id, "Pocket not found", "Unauthorized pocket access")?;
    match destination_to_check(type_.as_str(), destination_pocket_id) {
        Some(_) => {
            check_owner(destination_owner, user_id, "Destination pocket not found",
                "Unauthorized destination pocket access")?;
        },
        None => {},
    }
    let transaction = Transaction {
        id,
        user_id,
        pocket_id,
        category_id,
        amount,
        type_,
        title,
        transaction_time,
        destination_pocket_id,
        description,
        status,
    };
    let updates = recording(&transaction);
    Ok(TransactionPlan { transaction, updates })
}

/// Records a new transaction under a fresh identifier; see
/// `plan_create_transaction`.
pub fn create_transaction(
    user_id: Id,
    pocket_id: Id,
    category_id: Option<Id>,
    amount: Amount,
    type_: String,
    title: String,
    transaction_time: Timestamp,
    destination_pocket_id: Option<Id>,
    description: Option<String>,
    status: String,
    pocket_owner: Option<Id>,
    destination_owner: Option<Id>,
) -> (r: Result<TransactionPlan, String>)
    ensures
        match create_refusal(user_id, type_@, destination_pocket_id, pocket_owner, destination_owner) {
            Some(m) => r matches Err(e) && e@ == m,
            None => r matches Ok(plan) && {
                let t = plan.transaction;
                &&& t.user_id == user_id
                &&& t.pocket_id == pocket_id
                &&& t.category_id == category_id
                &&& t.amount == amount
                &&& t.type_ == type_
                &&& t.title == title
                &&& t.transaction_time == transaction_time
                &&& t.destination_pocket_id == destination_pocket_id
                &&& t.description == description
                &&& t.status == status
                &&& updates_view(plan.updates@) == recording_updates(t)
            },
        },
{
    let id = fresh_id();
    plan_create_transaction(id, user_id, pocket_id, category_id, amount, type_, title, transaction_time,
        destination_pocket_id, description, status, pocket_owner, destination_owner)
}

/// Why an access to a stored transaction is refused, if it is: the
/// transaction is missing, its pocket is missing, or the pocket is another
/// user's.
pub open spec fn access_refusal(found: Option<Transaction>, pocket_owner: Option<Id>, user_id: Id) -> Option<Seq<char>> {
    match found {
        None => Some("Transaction not found"@),
        Some(_) => owner_refusal(pocket_owner, user_id, "Pocket not found"@, "Unauthorized transaction access"@),
    }
}

/// Checks access to a looked-up transaction, given the owner of its pocket.
fn check_access(found: &Option<Transaction>, pocket_owner: Option<Id>, user_id: Id) -> (r: Result<(), String>)
    ensures
        match access_refusal(*found, pocket_owner, user_id) {
            Some(m) => r matches Err(e) && e@ == m,
            None => r is Ok,
        },
{
    match found {
        None => Err(String::from_str("Transaction not found")),
        Some(_) => check_owner(pocket_owner, user_id, "Pocket not found", "Unauthorized transaction access"),
    }
}

/// Deletes a transaction of the user: `found` is the lookup of the
/// transaction and `pocket_owner` that of its pocket's owner. Unless it was
/// rejected, its balance updates are taken back before it is deleted.
pub fn void_transaction(found: Option<Transaction>, pocket_owner: Option<Id>, user_id: Id) -> (r: Result<VoidPlan, String>)
    ensures
        match access_refusal(found, pocket_owner, user_id) {
            Some(m) => r matches Err(e) && e@ == m,
            None => r matches Ok(plan) && plan.transaction_id == found.unwrap().id
                && updates_view(plan.updates@) == removal_updates(found.unwrap()),
        },
{
    check_access(&found, pocket_owner, user_id)?;
    match found {
        Some(t) => {
            let updates = removal(&t);
            Ok(VoidPlan { transaction_id: t.id, updates })
        },
        None => Err(String::from_str("Transaction not found")),
    }
}

/// The transaction that a lookup found, if its pocket (given by its owner)
/// belongs to the user.
pub fn get_transaction_by_id(found: Option<Transaction>, pocket_owner: Option<Id>, user_id: Id) -> (r: Option<Transaction>)
    ensures
        match found {
            Some(t) => if pocket_owner == Some(user_id) { r == Some(t) } else { r is None },
            None => r is None,
        },
{
    match found {
        Some(t) => {
            match pocket_owner {
                Some(owner) => {
                    if owner == user_id {
                        Some(t)
                    } else {
                        None
                    }
                },
                None => None,
            }
        },
        None => None,
    }
}

/// Removing a stored transaction takes back exactly what storing it did:
/// for every pocket the two lists of balance updates add up to nothing.
pub proof fn lemma_void_undoes_create(t: Transaction, pocket: Id, k: int)
    ensures
        net_change(recording_updates(t) + removal_updates(t), pocket, k) == 0,
{
    if is_rejected(t.status@) {
        assert(recording_updates(t) + removal_updates(t) =~= seq![]);
    } else {
        lemma_reversal_cancels_application(t.pocket_id, t.destination_pocket_id, t.amount@, flow_of(t.type_@), pocket, k);
    }
}

/// A rejected transaction changes no balance, neither when it is stored
/// nor when it is removed.
pub proof fn lemma_rejected_changes_nothing(t: Transaction)
    requires
        is_rejected(t.status@),
    ensures
        recording_updates(t).len() == 0,
        removal_updates(t).len() == 0,
{
}

/// A stored transfer between two pockets leaves the sum of all balances
/// unchanged.
pub proof fn lemma_transfer_keeps_total(t: Transaction, k: int)
    requires
        flow_of(t.type_@) == Flow::Transfer,
        t.destination_pocket_id is Some,
    ensures
        total_change(recording_updates(t), k) == 0,
{
    if is_rejected(t.status@) {
    } else {
        lemma_transfer_conserves_money(t.pocket_id, t.destination_pocket_id.unwrap(), t.amount@, k);
    }
}


/// Why changing a stored transaction is refused, if it is: the transaction
/// or its original pocket is missing, the original pocket is another
/// user's, or the new pocket or transfer destination is refused as for a
/// new transaction.
pub open spec fn update_refusal(
    found: Option<Transaction>,
    old_pocket_owner: Option<Id>,
    new_pocket_owner: Option<Id>,
    destination_owner: Option<Id>,
    user_id: Id,
    type_: Seq<char>,
    dest: Option<Id>,
) -> Option<Seq<char>> {
    match found {
        None => Some("Transaction not found"@),
        Some(_) => match owner_refusal(old_pocket_owner, user_id, "Original pocket not found"@, "Unauthorized pocket access"@) {
            Some(m) => Some(m),
            None => create_refusal(user_id, type_, dest, new_pocket_owner, destination_owner),
        },
    }
}

/// The status that a changed transaction takes: the one given, else the
/// one it had.
pub open spec fn target_status(status: Option<String>, old: Transaction) -> Seq<char> {
    match status {
        Some(s) => s@,
        None => old.status@,
    }
}

/// Replaces a stored transaction of the user (looked up as `found`, its
/// pocket's owner as `old_pocket_owner`) by the given fields.
/// `new_pocket_owner` is the owner of the pocket `pocket_id` names and
/// `destination_owner` that of the destination named by
/// `destination_to_check`. The old transaction's balance updates are taken
/// back unless it was rejected; the new one's are made unless it is
/// rejected; then the new transaction is stored.
pub fn update_transaction(
    id: Id,
    user_id: Id,
    found: Option<Transaction>,
    old_pocket_owner: Option<Id>,
    new_pocket_owner: Option<Id>,
    destination_owner: Option<Id>,
    pocket_id: Id,
    category_id: Option<Id>,
    amount: Amount,
    type_: String,
    title: String,
    transaction_time: Timestamp,
    destination_pocket_id: Option<Id>,
    description: Option<String>,
    status: Option<String>,
) -> (r: Result<TransactionPlan, String>)
    ensures
        match update_refusal(found, old_pocket_owner, new_pocket_owner, destination_owner, user_id, type_@,
            destination_pocket_id) {
            Some(m) => r matches Err(e) && e@ == m,
            None => r matches Ok(plan) && {
                let t = plan.transaction;
                &&& t.id == id
                &&& t.user_id == user_id
                &&& t.pocket_id == pocket_id
                &&& t.category_id == category_id
                &&& t.amount == amount
                &&& t.type_ == type_
                &&& t.title == title
                &&& t.transaction_time == transaction_time
                &&& t.destination_pocket_id == destination_pocket_id
                &&& t.description == description
                &&& t.status@ == target_status(status, found.unwrap())
                &&& status is None ==> t.status@ == found.unwrap().status@
                &&& updates_view(plan.updates@) == removal_updates(found.unwrap()) + recording_updates(t)
            },
        },
{
    let old = match found {
        None => {
            return Err(String::from_str("Transaction not found"));
        },
        Some(t) => t,
    };
    check_owner(old_pocket_owner, user_id, "Original pocket not found", "Unauthorized pocket access")?;
    check_owner(new_pocket_owner, user_id, "Pocket not found", "Unauthorized pocket access")?;
    match destination_to_check(type_.as_str(), destination_pocket_id) {
        Some(_) => {
            check_owner(destination_owner, user_id, "Destination pocket not found",
                "Unauthorized destination pocket access")?;
        },
        None => {},
    }
    let new_status = match status {
        Some(s) => s,
        None => old.status.clone(),
    };
    let mut updates = removal(&old);
    let transaction = Transaction {
        id,
        user_id,
        pocket_id,
        category_id,
        amount,
        type_,
        title,
        transaction_time,
        destination_pocket_id,
        description,
        status: new_status,
    };
    let mut added = recording(&transaction);
    let ghost before = updates@;
    let ghost extra = added@;
    updates.append(&mut added);
    proof {
        assert(updates@ == before + extra);
        assert(updates_view(before + extra) =~= updates_view(before) + updates_view(extra));
    }
    Ok(TransactionPlan { transaction, updates })
}

/// Updating a transaction without naming a status keeps the status it had,
/// and naming one sets it. So a rejected transaction updated without a
/// status stays rejected, and the update touches no balance.
pub proof fn lemma_update_keeps_unnamed_status(status: Option<String>, old: Transaction, new: Transaction)
    requires
        new.status@ == target_status(status, old),
    ensures
        status is None ==> new.status@ == old.status@,
        status matches Some(s) ==> new.status@ == s@,
        status is None && is_rejected(old.status@) ==> is_rejected(new.status@)
            && removal_updates(old) + recording_updates(new) == Seq::<(u128, (int, int))>::empty(),
{
    if status is None && is_rejected(old.status@) {
        assert(removal_updates(old) + recording_updates(new) =~= Seq::<(u128, (int, int))>::empty());
    }
}

/// Corrections made to a pending transaction when it is resolved; each
/// given field replaces the transaction's.
#[derive(Debug)]
pub struct Corrections {
    pub pocket_id: Option<Id>,
    pub category_id: Option<Id>,
    pub amount: Option<Amount>,
    pub type_: Option<String>,
    pub title: Option<String>,
    pub destination_pocket_id: Option<Id>,
    pub description: Option<String>,
}

/// A transaction with the corrections applied; its status unchanged.
pub open spec fn corrected(t: Transaction, c: Corrections) -> Transaction {
    Transaction {
        id: t.id,
        user_id: t.user_id,
        pocket_id: match c.pocket_id { Some(p) => p, None => t.pocket_id },
        category_id: if c.category_id is Some { c.category_id } else { t.category_id },
        amount: match c.amount { Some(a) => a, None => t.amount },
        type_: match c.type_ { Some(x) => x, None => t.type_ },
        title: match c.title { Some(x) => x, None => t.title },
        transaction_time: t.transaction_time,
        destination_pocket_id: if c.destination_pocket_id is Some { c.destination_pocket_id } else { t.destination_pocket_id },
        description: if c.description is Some { c.description } else { t.description },
        status: t.status,
    }
}

/// The two transactions agree on every field but the status.
pub open spec fn same_but_status(a: Transaction, b: Transaction) -> bool {
    &&& a.id == b.id
    &&& a.user_id == b.user_id
    &&& a.pocket_id == b.pocket_id
    &&& a.category_id == b.category_id
    &&& a.amount == b.amount
    &&& a.type_ == b.type_
    &&& a.title == b.title
    &&& a.transaction_time == b.transaction_time
    &&& a.destination_pocket_id == b.destination_pocket_id
    &&& a.description == b.description
}

/// Why reviewing a transaction is refused, if it is: access is refused, or
/// the transaction is no longer pending.
pub open spec fn review_refusal(found: Option<Transaction>, pocket_owner: Option<Id>, user_id: Id) -> Option<Seq<char>> {
    match access_refusal(found, pocket_owner, user_id) {
        Some(m) => Some(m),
        None => if !is_pending(found.unwrap().status@) { Some("Transaction is not pending"@) } else { None },
    }
}

/// Why resolving a transaction is refused, if it is: review is refused, a
/// corrected pocket is missing or another user's, or a corrected
/// destination is missing or another user's.
pub open spec fn resolve_refusal(
    found: Option<Transaction>,
    pocket_owner: Option<Id>,
    user_id: Id,
    c: Corrections,
    new_pocket_owner: Option<Id>,
    destination_owner: Option<Id>,
) -> Option<Seq<char>> {
    let dest_part = match c.destination_pocket_id {
        Some(_) => owner_refusal(destination_owner, user_id, "Destination pocket not found"@,
            "Unauthorized destination pocket access"@),
        None => None,
    };
    match review_refusal(found, pocket_owner, user_id) {
        Some(m) => Some(m),
        None => match c.pocket_id {
            Some(_) => match owner_refusal(new_pocket_owner, user_id, "Pocket not found"@, "Unauthorized pocket access"@) {
                Some(m) => Some(m),
                None => dest_part,
            },
            None => dest_part,
        },
    }
}

fn check_review(found: &Option<Transaction>, pocket_owner: Option<Id>, user_id: Id) -> (r: Result<(), String>)
    ensures
        match review_refusal(*found, pocket_owner, user_id) {
            Some(m) => r matches Err(e) && e@ == m,
            None => r is Ok,
        },
{
    check_access(found, pocket_owner, user_id)?;
    match found {
        Some(t) => {
            if !status_is_pending(t.status.as_str()) {
                return Err(String::from_str("Transaction is not pending"));
            }
            Ok(())
        },
        None => Err(String::from_str("Transaction not found")),
    }
}

/// Resolves a pending transaction of the user with corrections.
/// `new_pocket_owner` is the owner of the corrected pocket, when one is
/// given; `destination_owner` that of the corrected destination, when one
/// is given. The pending transaction's balance updates are taken back, the
/// corrected transaction's are made, and it is stored as "resolved".
pub fn resolve_transaction(
    user_id: Id,
    found: Option<Transaction>,
    pocket_owner: Option<Id>,
    corrections: Corrections,
    new_pocket_owner: Option<Id>,
    destination_owner: Option<Id>,
) -> (r: Result<TransactionPlan, String>)
    ensures
        match resolve_refusal(found, pocket_owner, user_id, corrections, new_pocket_owner, destination_owner) {
            Some(m) => r matches Err(e) && e@ == m,
            None => r matches Ok(plan) && {
                &&& same_but_status(plan.transaction, corrected(found.unwrap(), corrections))
                &&& plan.transaction.status@ == "resolved"@
                &&& updates_view(plan.updates@) == tx_reverted(found.unwrap())
                    + tx_applied(corrected(found.unwrap(), corrections))
                &&& updates_view(plan.updates@) == tx_reverted(found.unwrap()) + tx_applied(plan.transaction)
                &&& corrections.type_ matches Some(x) ==> plan.transaction.type_ == x
            },
        },
{
    check_review(&found, pocket_owner, user_id)?;
    match corrections.pocket_id {
        Some(_) => {
            check_owner(new_pocket_owner, user_id, "Pocket not found", "Unauthorized pocket access")?;
        },
        None => {},
    }
    match corrections.destination_pocket_id {
        Some(_) => {
            check_owner(destination_owner, user_id, "Destination pocket not found",
                "Unauthorized destination pocket access")?;
        },
        None => {},
    }
    let t = match found {
        Some(t) => t,
        None => {
            return Err(String::from_str("Transaction not found"));
        },
    };
    let mut updates = reversal_updates(t.pocket_id, t.destination_pocket_id, &t.amount, classify(t.type_.as_str()));
    let Corrections { pocket_id, category_id, amount, type_, title, destination_pocket_id, description } = corrections;
    let new_pocket = match pocket_id {
        Some(p) => p,
        None => t.pocket_id,
    };
    let new_category = if category_id.is_some() { category_id } else { t.category_id };
    let new_amount = match amount {
        Some(a) => a,
        None => t.amount,
    };
    let new_type = match type_ {
        Some(x) => x,
        None => t.type_,
    };
    let new_title = match title {
        Some(x) => x,
        None => t.title,
    };
    let new_dest = if destination_pocket_id.is_some() { destination_pocket_id } else { t.destination_pocket_id };
    let new_description = if description.is_some() { description } else { t.description };
    let mut added = application_updates(new_pocket, new_dest, &new_amount, classify(new_type.as_str()));
    let ghost before = updates@;
    let ghost extra = added@;
    updates.append(&mut added);
    proof {
        assert(updates_view(before + extra) =~= updates_view(before) + updates_view(extra));
    }
    let transaction = Transaction {
        id: t.id,
        user_id: t.user_id,
        pocket_id: new_pocket,
        category_id: new_category,
        amount: new_amount,
        type_: new_type,
        title: new_title,
        transaction_time: t.transaction_time,
        destination_pocket_id: new_dest,
        description: new_description,
        status: String::from_str("resolved"),
    };
    Ok(TransactionPlan { transaction, updates })
}

/// Resolving applies each correction given: a corrected field replaces the
/// pending transaction's and a field left out keeps it; the identifier,
/// owner and time stay. The balance updates then made are those of the
/// resolved transaction's type, pocket, destination and amount.
pub proof fn lemma_resolve_takes_corrections(pending: Transaction, c: Corrections, resolved: Transaction)
    requires
        same_but_status(resolved, corrected(pending, c)),
    ensures
        resolved.id == pending.id,
        resolved.user_id == pending.user_id,
        resolved.transaction_time == pending.transaction_time,
        c.type_ matches Some(x) ==> resolved.type_ == x,
        c.type_ is None ==> resolved.type_ == pending.type_,
        c.pocket_id matches Some(p) ==> resolved.pocket_id == p,
        c.pocket_id is None ==> resolved.pocket_id == pending.pocket_id,
        c.amount matches Some(a) ==> resolved.amount == a,
        c.amount is None ==> resolved.amount == pending.amount,
        c.title matches Some(x) ==> resolved.title == x,
        c.title is None ==> resolved.title == pending.title,
        c.category_id is Some ==> resolved.category_id == c.category_id,
        c.category_id is None ==> resolved.category_id == pending.category_id,
        c.destination_pocket_id is Some ==> resolved.destination_pocket_id == c.destination_pocket_id,
        c.destination_pocket_id is None ==> resolved.destination_pocket_id == pending.destination_pocket_id,
        c.description is Some ==> resolved.description == c.description,
        c.description is None ==> resolved.description == pending.description,
        tx_applied(corrected(pending, c)) == applied(resolved.pocket_id, resolved.destination_pocket_id,
            resolved.amount@, flow_of(resolved.type_@)),
{
}

/// Rejects a pending transaction of the user: its balance updates are
/// taken back and it is stored as "rejected".
pub fn reject_transaction(user_id: Id, found: Option<Transaction>, pocket_owner: Option<Id>) -> (r: Result<TransactionPlan, String>)
    ensures
        match review_refusal(found, pocket_owner, user_id) {
            Some(m) => r matches Err(e) && e@ == m,
            None => r matches Ok(plan) && {
                &&& same_but_status(plan.transaction, found.unwrap())
                &&& plan.transaction.status@ == "rejected"@
                &&& updates_view(plan.updates@) == tx_reverted(found.unwrap())
            },
        },
{
    check_review(&found, pocket_owner, user_id)?;
    let t = match found {
        Some(t) => t,
        None => {
            return Err(String::from_str("Transaction not found"));
        },
    };
    let updates = reversal_updates(t.pocket_id, t.destination_pocket_id, &t.amount, classify(t.type_.as_str()));
    let transaction = Transaction { status: String::from_str("rejected"), ..t };
    Ok(TransactionPlan { transaction, updates })
}

/// Rejecting a pending transaction takes back what storing it did, and the
/// rejected transaction then changes no balance even when it is deleted.
pub proof fn lemma_reject_undoes_pending(pending: Transaction, rejected: Transaction, pocket: Id, k: int)
    requires
        is_pending(pending.status@),
        same_but_status(rejected, pending),
        is_rejected(rejected.status@),
    ensures
        net_change(recording_updates(pending) + tx_reverted(pending), pocket, k) == 0,
        removal_updates(rejected).len() == 0,
{
    reveal_strlit("pending");
    reveal_strlit("rejected");
    assert("pending"@[0] != "rejected"@[0]);
    assert(!is_rejected(pending.status@));
    lemma_reversal_cancels_application(pending.pocket_id, pending.destination_pocket_id, pending.amount@,
        flow_of(pending.type_@), pocket, k);
}

/// What the stored transactions have done to one pocket's balance, in
/// units of `10^-k`: the updates of recording each of them.
pub open spec fn stored_effect(ts: Seq<Transaction>, pocket: Id, k: int) -> int
    decreases ts.len(),
{
    if ts.len() == 0 {
        0
    } else {
        stored_effect(ts.drop_last(), pocket, k) + net_change(recording_updates(ts.last()), pocket, k)
    }
}

/// The ledger holds: every pocket's balance is its base balance plus what
/// the stored transactions have done to it (a rejected one does nothing).
pub open spec fn ledger_holds(balance: spec_fn(Id) -> int, base: spec_fn(Id) -> int, ts: Seq<Transaction>, k: int) -> bool {
    forall|q: Id| #[trigger] balance(q) == base(q) + stored_effect(ts, q, k)
}

/// The balances once a list of updates is made.
pub open spec fn after_updates(balance: spec_fn(Id) -> int, us: Seq<(u128, (int, int))>, k: int) -> spec_fn(Id) -> int {
    |q: Id| balance(q) + net_change(us, q, k)
}

/// The effects of two runs of stored transactions add up.
pub proof fn lemma_stored_effect_concat(a: Seq<Transaction>, b: Seq<Transaction>, pocket: Id, k: int)
    ensures
        stored_effect(a + b, pocket, k) == stored_effect(a, pocket, k) + stored_effect(b, pocket, k),
    decreases b.len(),
{
    if b.len() == 0 {
        assert(a + b =~= a);
    } else {
        assert((a + b).drop_last() =~= a + b.drop_last());
        assert((a + b).last() == b.last());
        lemma_stored_effect_concat(a, b.drop_last(), pocket, k);
    }
}

/// One stored transaction does what recording it does.
proof fn lemma_stored_effect_one(t: Transaction, pocket: Id, k: int)
    ensures
        stored_effect(seq![t], pocket, k) == net_change(recording_updates(t), pocket, k),
{
    let one = seq![t];
    assert(one.drop_last() =~= Seq::<Transaction>::empty());
    assert(one.last() == t);
    assert(stored_effect(one.drop_last(), pocket, k) == 0);
}

/// Removing a transaction undoes, pocket by pocket, what storing it did.
proof fn lemma_removal_negates(t: Transaction, pocket: Id, k: int)
    ensures
        net_change(removal_updates(t), pocket, k) == -net_change(recording_updates(t), pocket, k),
{
    lemma_void_undoes_create(t, pocket, k);
    lemma_net_change_concat(recording_updates(t), removal_updates(t), pocket, k);
}

/// Recording a new transaction keeps the ledger: the balances after its
/// updates are the base plus what the stored transactions, it included,
/// have done.
pub proof fn lemma_create_keeps_ledger(
    balance: spec_fn(Id) -> int,
    base: spec_fn(Id) -> int,
    ts: Seq<Transaction>,
    t: Transaction,
    us: Seq<(u128, (int, int))>,
    k: int,
)
    requires
        ledger_holds(balance, base, ts, k),
        us == recording_updates(t),
    ensures
        ledger_holds(after_updates(balance, us, k), base, ts.push(t), k),
{
    assert forall|q: Id| #[trigger] after_updates(balance, us, k)(q) == base(q) + stored_effect(ts.push(t), q, k) by {
        assert(ts.push(t).drop_last() =~= ts);
        assert(balance(q) == base(q) + stored_effect(ts, q, k));
    }
}

/// Voiding a stored transaction keeps the ledger: the balances after its
/// updates are the base plus what the remaining transactions have done.
pub proof fn lemma_void_keeps_ledger(
    balance: spec_fn(Id) -> int,
    base: spec_fn(Id) -> int,
    before: Seq<Transaction>,
    t: Transaction,
    after: Seq<Transaction>,
    us: Seq<(u128, (int, int))>,
    k: int,
)
    requires
        ledger_holds(balance, base, before + seq![t] + after, k),
        us == removal_updates(t),
    ensures
        ledger_holds(after_updates(balance, us, k), base, before + after, k),
{
    assert forall|q: Id| #[trigger] after_updates(balance, us, k)(q) == base(q) + stored_effect(before + after, q, k) by {
        assert(balance(q) == base(q) + stored_effect(before + seq![t] + after, q, k));
        lemma_stored_effect_concat(before + seq![t], after, q, k);
        lemma_stored_effect_concat(before, seq![t], q, k);
        lemma_stored_effect_concat(before, after, q, k);
        lemma_stored_effect_one(t, q, k);
        lemma_removal_negates(t, q, k);
    }
}

/// Replacing a stored transaction, with the updates that take the old one
/// back and record the new one, keeps the ledger: the balances after the
/// updates are the base plus what the stored transactions, the new one in
/// the old one's place, have done. A rejected version on either side does
/// nothing.
pub proof fn lemma_replace_keeps_ledger(
    balance: spec_fn(Id) -> int,
    base: spec_fn(Id) -> int,
    before: Seq<Transaction>,
    old: Transaction,
    new: Transaction,
    after: Seq<Transaction>,
    us: Seq<(u128, (int, int))>,
    k: int,
)
    requires
        ledger_holds(balance, base, before + seq![old] + after, k),
        us == removal_updates(old) + recording_updates(new),
    ensures
        ledger_holds(after_updates(balance, us, k), base, before + seq![new] + after, k),
{
    assert forall|q: Id| #[trigger] after_updates(balance, us, k)(q) == base(q) + stored_effect(before + seq![new] + after, q, k) by {
        assert(balance(q) == base(q) + stored_effect(before + seq![old] + after, q, k));
        lemma_stored_effect_concat(before + seq![old], after, q, k);
        lemma_stored_effect_concat(before, seq![old], q, k);
        lemma_stored_effect_concat(before + seq![new], after, q, k);
        lemma_stored_effect_concat(before, seq![new], q, k);
        lemma_stored_effect_one(old, q, k);
        lemma_stored_effect_one(new, q, k);
        lemma_removal_negates(old, q, k);
        lemma_net_change_concat(removal_updates(old), recording_updates(new), q, k);
    }
}

/// Updating a stored transaction keeps the ledger: `update_transaction`'s
/// updates take the old version back and record the new one.
pub proof fn lemma_update_keeps_ledger(
    balance: spec_fn(Id) -> int,
    base: spec_fn(Id) -> int,
    before: Seq<Transaction>,
    old: Transaction,
    new: Transaction,
    after: Seq<Transaction>,
    us: Seq<(u128, (int, int))>,
    k: int,
)
    requires
        ledger_holds(balance, base, before + seq![old] + after, k),
        us == removal_updates(old) + recording_updates(new),
    ensures
        ledger_holds(after_updates(balance, us, k), base, before + seq![new] + after, k),
{
    lemma_replace_keeps_ledger(balance, base, before, old, new, after, us, k);
}

/// Resolving a pending transaction keeps the ledger: `resolve_transaction`
/// takes the pending version back and records the corrected, resolved one
/// in its place.
pub proof fn lemma_resolve_keeps_ledger(
    balance: spec_fn(Id) -> int,
    base: spec_fn(Id) -> int,
    before: Seq<Transaction>,
    old: Transaction,
    c: Corrections,
    new: Transaction,
    after: Seq<Transaction>,
    us: Seq<(u128, (int, int))>,
    k: int,
)
    requires
        ledger_holds(balance, base, before + seq![old] + after, k),
        is_pending(old.status@),
        same_but_status(new, corrected(old, c)),
        new.status@ == "resolved"@,
        us == tx_reverted(old) + tx_applied(corrected(old, c)),
    ensures
        ledger_holds(after_updates(balance, us, k), base, before + seq![new] + after, k),
{
    reveal_strlit("pending");
    reveal_strlit("resolved");
    reveal_strlit("rejected");
    assert("pending"@[0] != "rejected"@[0]);
    assert("resolved"@[2] != "rejected"@[2]);
    assert(removal_updates(old) == tx_reverted(old));
    assert(recording_updates(new) == tx_applied(new));
    assert(tx_applied(new) == tx_applied(corrected(old, c)));
    lemma_replace_keeps_ledger(balance, base, before, old, new, after, us, k);
}

/// Rejecting a pending transaction keeps the ledger: `reject_transaction`
/// takes it back, and the rejected version in its place does nothing.
pub proof fn lemma_reject_keeps_ledger(
    balance: spec_fn(Id) -> int,
    base: spec_fn(Id) -> int,
    before: Seq<Transaction>,
    old: Transaction,
    new: Transaction,
    after: Seq<Transaction>,
    us: Seq<(u128, (int, int))>,
    k: int,
)
    requires
        ledger_holds(balance, base, before + seq![old] + after, k),
        is_pending(old.status@),
        same_but_status(new, old),
        new.status@ == "rejected"@,
        us == tx_reverted(old),
    ensures
        ledger_holds(after_updates(balance, us, k), base, before + seq![new] + after, k),
{
    reveal_strlit("pending");
    reveal_strlit("rejected");
    assert("pending"@[0] != "rejected"@[0]);
    assert(removal_updates(old) == tx_reverted(old));
    assert(recording_updates(new) =~= seq![]);
    assert(us =~= removal_updates(old) + recording_updates(new));
    lemma_replace_keeps_ledger(balance, base, before, old, new, after, us, k);
}

/// No corrections at all.
pub open spec fn no_corrections(c: Corrections) -> bool {
    &&& c.pocket_id is None
    &&& c.category_id is None
    &&& c.amount is None
    &&& c.type_ is None
    &&& c.title is None
    &&& c.destination_pocket_id is None
    &&& c.description is None
}

/// Resolving a pending transaction without corrections leaves every
/// balance as it was: only the status changes.
pub proof fn lemma_resolve_as_is_keeps_balances(t: Transaction, c: Corrections, pocket: Id, k: int)
    requires
        no_corrections(c),
    ensures
        same_but_status(corrected(t, c), t),
        net_change(tx_reverted(t) + tx_applied(corrected(t, c)), pocket, k) == 0,
{
    assert(tx_applied(corrected(t, c)) == tx_applied(t));
    lemma_application_cancels_reversal(t.pocket_id, t.destination_pocket_id, t.amount@, flow_of(t.type_@), pocket, k);
}

/// Replacing a transaction by one with the same pocket, destination,
/// amount, type and status leaves every balance as it was.
pub proof fn lemma_update_unchanged_keeps_balances(old: Transaction, new: Transaction, pocket: Id, k: int)
    requires
        old.pocket_id == new.pocket_id,
        old.destination_pocket_id == new.destination_pocket_id,
        old.amount == new.amount,
        old.type_@ == new.type_@,
        old.status@ == new.status@,
    ensures
        net_change(removal_updates(old) + recording_updates(new), pocket, k) == 0,
{
    if is_rejected(old.status@) {
        assert(removal_updates(old) + recording_updates(new) =~= seq![]);
    } else {
        assert(recording_updates(new) == tx_applied(old));
        lemma_application_cancels_reversal(old.pocket_id, old.destination_pocket_id, old.amount@, flow_of(old.type_@), pocket, k);
    }
}


/// A transaction as the API shows it, with its amount as decimal text and,
/// where known, its pockets and category.
#[derive(Debug)]
pub struct TransactionResponse {
    pub id: Id,
    pub pocket_id: Id,
    pub pocket: Option<PocketResponse>,
    pub category_id: Option<Id>,
    pub category: Option<CategoryResponse>,
    pub amount: String,
    pub type_: String,
    pub title: String,
    pub transaction_time: Timestamp,
    pub destination_pocket_id: Option<Id>,
    pub destination_pocket: Option<PocketResponse>,
    pub description: Option<String>,
    pub status: String,
}

/// The response shows the transaction's own fields.
pub open spec fn shows(r: TransactionResponse, t: Transaction) -> bool {
    &&& r.id == t.id
    &&& r.pocket_id == t.pocket_id
    &&& r.category_id == t.category_id
    &&& r.amount@ == decimal_text(t.amount@.0, t.amount@.1)
    &&& r.type_ == t.type_
    &&& r.title == t.title
    &&& r.transaction_time == t.transaction_time
    &&& r.destination_pocket_id == t.destination_pocket_id
    &&& r.description == t.description
    &&& r.status == t.status
}

impl TransactionResponse {
    /// The API form of a transaction, without its pockets and category.
    pub fn from(t: Transaction) -> (r: TransactionResponse)
        ensures
            shows(r, t),
            r.pocket is None,
            r.category is None,
            r.destination_pocket is None,
    {
        let amount = t.amount.to_text();
        TransactionResponse {
            id: t.id,
            pocket_id: t.pocket_id,
            pocket: None,
            category_id: t.category_id,
            category: None,
            amount,
            type_: t.type_,
            title: t.title,
            transaction_time: t.transaction_time,
            destination_pocket_id: t.destination_pocket_id,
            destination_pocket: None,
            description: t.description,
            status: t.status,
        }
    }
}

/// The two pocket responses show the same pocket.
pub open spec fn same_pocket_response(a: PocketResponse, b: PocketResponse) -> bool {
    &&& a.id == b.id
    &&& a.name@ == b.name@
    &&& a.pocket_type@ == b.pocket_type@
    &&& a.balance@ == b.balance@
    &&& a.currency@ == b.currency@
}

/// The two category responses show the same category.
pub open spec fn same_category_response(a: CategoryResponse, b: CategoryResponse) -> bool {
    &&& a.id == b.id
    &&& a.name@ == b.name@
    &&& a.type_@ == b.type_@
}

/// The position of the last pocket with the identifier, or -1: when
/// identifiers repeat, the last one wins, as in a map built from the list.
pub open spec fn last_pocket_index(ps: Seq<PocketResponse>, id: Id) -> int
    decreases ps.len(),
{
    if ps.len() == 0 {
        -1
    } else if ps.last().id == id {
        ps.len() - 1
    } else {
        last_pocket_index(ps.drop_last(), id)
    }
}

/// The position of the last category with the identifier, or -1.
pub open spec fn last_category_index(cs: Seq<CategoryResponse>, id: Id) -> int
    decreases cs.len(),
{
    if cs.len() == 0 {
        -1
    } else if cs.last().id == id {
        cs.len() - 1
    } else {
        last_category_index(cs.drop_last(), id)
    }
}

/// The pocket that a list shows under an identifier, if any.
pub open spec fn pocket_shown(r: Option<PocketResponse>, ps: Seq<PocketResponse>, id: Option<Id>) -> bool {
    match id {
        None => r is None,
        Some(i) => {
            let k = last_pocket_index(ps, i);
            if k < 0 { r is None } else { r matches Some(p) && same_pocket_response(p, ps[k]) }
        },
    }
}

/// The category that a list shows under an identifier, if any.
pub open spec fn category_shown(r: Option<CategoryResponse>, cs: Seq<CategoryResponse>, id: Option<Id>) -> bool {
    match id {
        None => r is None,
        Some(i) => {
            let k = last_category_index(cs, i);
            if k < 0 { r is None } else { r matches Some(c) && same_category_response(c, cs[k]) }
        },
    }
}

proof fn lemma_last_pocket_index(ps: Seq<PocketResponse>, id: Id, n: int)
    requires
        0 <= n <= ps.len(),
        forall|j: int| n <= j < ps.len() ==> ps[j].id != id,
    ensures
        last_pocket_index(ps, id) == last_pocket_index(ps.subrange(0, n), id),
        -1 <= last_pocket_index(ps, id) < ps.len(),
        last_pocket_index(ps, id) >= 0 ==> ps[last_pocket_index(ps, id)].id == id,
    decreases ps.len(),
{
    if ps.len() == 0 {
        assert(ps.subrange(0, n) =~= ps);
    } else if n == ps.len() {
        assert(ps.subrange(0, n) =~= ps);
        lemma_last_pocket_index(ps.drop_last(), id, ps.len() - 1);
    } else {
        assert(ps.last().id != id);
        lemma_last_pocket_index(ps.drop_last(), id, n);
        assert(ps.drop_last().subrange(0, n) =~= ps.subrange(0, n));
    }
}

proof fn lemma_last_category_index(cs: Seq<CategoryResponse>, id: Id, n: int)
    requires
        0 <= n <= cs.len(),
        forall|j: int| n <= j < cs.len() ==> cs[j].id != id,
    ensures
        last_category_index(cs, id) == last_category_index(cs.subrange(0, n), id),
        -1 <= last_category_index(cs, id) < cs.len(),
        last_category_index(cs, id) >= 0 ==> cs[last_category_index(cs, id)].id == id,
    decreases cs.len(),
{
    if cs.len() == 0 {
        assert(cs.subrange(0, n) =~= cs);
    } else if n == cs.len() {
        assert(cs.subrange(0, n) =~= cs);
        lemma_last_category_index(cs.drop_last(), id, cs.len() - 1);
    } else {
        assert(cs.last().id != id);
        lemma_last_category_index(cs.drop_last(), id, n);
        assert(cs.drop_last().subrange(0, n) =~= cs.subrange(0, n));
    }
}

/// The pocket response with the identifier, the last when several have it.
pub fn find_pocket_response(ps: &Vec<PocketResponse>, id: Option<Id>) -> (r: Option<PocketResponse>)
    ensures
        pocket_shown(r, ps@, id),
{
    let i = match id {
        None => {
            return None;
        },
        Some(i) => i,
    };
    let mut n: usize = ps.len();
    while n > 0
        invariant
            n <= ps@.len(),
            id == Some(i),
            forall|j: int| n <= j < ps@.len() ==> ps@[j].id != i,
        decreases n,
    {
        if ps[n - 1].id == i {
            proof {
                lemma_last_pocket_index(ps@, i, n as int);
                let sub = ps@.subrange(0, n as int);
                assert(sub.last().id == i);
                assert(last_pocket_index(sub, i) == n - 1);
                assert(last_pocket_index(ps@, i) == n - 1);
            }
            let found = ps[n - 1].duplicate();
            proof {
                assert(ps@[n - 1].id == i);
            }
            return Some(found);
        }
        n = n - 1;
    }
    proof {
        lemma_last_pocket_index(ps@, i, 0);
        assert(ps@.subrange(0, 0).len() == 0);
    }
    None
}

/// The category response with the identifier, the last when several have
/// it.
pub fn find_category_response(cs: &Vec<CategoryResponse>, id: Option<Id>) -> (r: Option<CategoryResponse>)
    ensures
        category_shown(r, cs@, id),
{
    let i = match id {
        None => {
            return None;
        },
        Some(i) => i,
    };
    let mut n: usize = cs.len();
    while n > 0
        invariant
            n <= cs@.len(),
            id == Some(i),
            forall|j: int| n <= j < cs@.len() ==> cs@[j].id != i,
        decreases n,
    {
        if cs[n - 1].id == i {
            proof {
                lemma_last_category_index(cs@, i, n as int);
                let sub = cs@.subrange(0, n as int);
                assert(sub.last().id == i);
                assert(last_category_index(sub, i) == n - 1);
                assert(last_category_index(cs@, i) == n - 1);
            }
            let found = cs[n - 1].duplicate();
            proof {
                assert(cs@[n - 1].id == i);
            }
            return Some(found);
        }
        n = n - 1;
    }
    proof {
        lemma_last_category_index(cs@, i, 0);
        assert(cs@.subrange(0, 0).len() == 0);
    }
    None
}

/// The response fully shows a transaction with its pockets and category
/// as the two lists give them.
pub open spec fn populated(r: TransactionResponse, t: Transaction, ps: Seq<PocketResponse>, cs: Seq<CategoryResponse>) -> bool {
    &&& shows(r, t)
    &&& pocket_shown(r.pocket, ps, Some(t.pocket_id))
    &&& category_shown(r.category, cs, t.category_id)
    &&& pocket_shown(r.destination_pocket, ps, t.destination_pocket_id)
}

/// The API form of a transaction with its pocket, category and destination
/// pocket looked up in the user's lists.
pub fn populate(t: Transaction, ps: &Vec<PocketResponse>, cs: &Vec<CategoryResponse>) -> (r: TransactionResponse)
    ensures
        populated(r, t, ps@, cs@),
{
    let pocket = find_pocket_response(ps, Some(t.pocket_id));
    let category = find_category_response(cs, t.category_id);
    let destination_pocket = find_pocket_response(ps, t.destination_pocket_id);
    let mut r = TransactionResponse::from(t);
    r.pocket = pocket;
    r.category = category;
    r.destination_pocket = destination_pocket;
    r
}

/// The API forms of a list of transactions, each populated from the lists.
pub fn populate_all(data: Vec<Transaction>, ps: &Vec<PocketResponse>, cs: &Vec<CategoryResponse>) -> (r: Vec<TransactionResponse>)
    ensures
        r@.len() == data@.len(),
        forall|i: int| 0 <= i < data@.len() ==> populated(#[trigger] r@[i], data@[i], ps@, cs@),
{
    let mut out: Vec<TransactionResponse> = Vec::new();
    let ghost d = data@;
    let mut source = data;
    let mut rest: Vec<Transaction> = Vec::new();
    while source.len() > 0
        invariant
            source@ == d.subrange(0, source@.len() as int),
            rest@.len() + source@.len() == d.len(),
            forall|j: int| 0 <= j < rest@.len() ==> rest@[j] == d[d.len() - 1 - j],
        decreases source@.len(),
    {
        let ghost m = source@.len();
        let t = source.pop().unwrap();
        proof {
            assert(t == d[m - 1]);
        }
        rest.push(t);
        proof {
            assert(source@ =~= d.subrange(0, source@.len() as int));
        }
    }
    while rest.len() > 0
        invariant
            out@.len() + rest@.len() == d.len(),
            forall|j: int| 0 <= j < rest@.len() ==> rest@[j] == d[d.len() - 1 - j],
            forall|i: int| 0 <= i < out@.len() ==> populated(#[trigger] out@[i], d[i], ps@, cs@),
        decreases rest@.len(),
    {
        let ghost k = out@.len();
        let t = rest.pop().unwrap();
        proof {
            assert(t == d[k as int]);
        }
        let resp = populate(t, ps, cs);
        out.push(resp);
    }
    out
}

/// Body of a request that records a transaction; the amount is decimal
/// text and the status defaults to "resolved".
#[derive(Debug)]
pub struct CreateTransactionRequest {
    pub pocket_id: Id,
    pub category_id: Option<Id>,
    pub amount: String,
    pub type_: String,
    pub title: String,
    pub transaction_time: Timestamp,
    pub destination_pocket_id: Option<Id>,
    pub description: Option<String>,
    pub status: Option<String>,
}

/// Body of a request that replaces a transaction.
#[derive(Debug)]
pub struct UpdateTransactionRequest {
    pub pocket_id: Id,
    pub category_id: Option<Id>,
    pub amount: String,
    pub type_: String,
    pub title: String,
    pub transaction_time: Timestamp,
    pub destination_pocket_id: Option<Id>,
    pub description: Option<String>,
    pub status: Option<String>,
}

/// Filters and paging of a transaction listing.
#[derive(Debug)]
pub struct TransactionFilter {
    pub pocket_id: Option<Id>,
    pub start_date: Option<Timestamp>,
    pub end_date: Option<Timestamp>,
    pub type_: Option<String>,
    pub page: Option<u32>,
    pub limit: Option<u32>,
    pub search: Option<String>,
    pub sort: Option<String>,
    pub sort_order: Option<SortOrder>,
}

impl TransactionFilter {
    /// The paging part of the filter.
    pub fn pagination(&self) -> (q: PaginationQuery)
        ensures
            q.page == self.page,
            q.limit == self.limit,
            q.search == self.search,
            q.sort == self.sort,
            q.sort_order == self.sort_order,
    {
        PaginationQuery {
            page: self.page,
            limit: self.limit,
            search: crate::pagination::clone_opt_string(&self.search),
            sort: crate::pagination::clone_opt_string(&self.sort),
            sort_order: self.sort_order,
        }
    }
}

/// Body of a request that resolves a pending transaction; the amount is
/// decimal text.
#[derive(Debug)]
pub struct ResolveTransactionRequest {
    pub pocket_id: Option<Id>,
    pub category_id: Option<Id>,
    pub amount: Option<String>,
    pub type_: Option<String>,
    pub title: Option<String>,
    pub destination_pocket_id: Option<Id>,
    pub description: Option<String>,
}

/// The status of a recorded transaction when the request gives none.
pub fn requested_status(status: Option<String>) -> (s: String)
    ensures
        match status {
            Some(x) => s == x,
            None => s@ == "resolved"@,
        },
{
    match status {
        Some(x) => x,
        None => String::from_str("resolved"),
    }
}

} // verus!
