use mobile_money_backend::amount::Amount;
use mobile_money_backend::categories::CategoryResponse;
use mobile_money_backend::ledger::BalanceUpdate;
use mobile_money_backend::pockets::PocketResponse;
use mobile_money_backend::transactions::{
    get_transaction_by_id, plan_create_transaction, populate_all, reject_transaction, resolve_transaction,
    update_transaction, void_transaction, Corrections, Transaction, TransactionResponse,
};

const USER: u128 = 100;
const OTHER: u128 = 200;

fn amount(s: &str) -> Amount {
    Amount::parse(s).unwrap()
}

fn tx(type_: &str, status: &str, dest: Option<u128>) -> Transaction {
    Transaction {
        id: 1,
        user_id: USER,
        pocket_id: 10,
        category_id: Some(30),
        amount: amount("50000"),
        type_: type_.to_string(),
        title: "Tokopedia".to_string(),
        transaction_time: 1_700_000_000_000_000_000,
        destination_pocket_id: dest,
        description: Some("raw".to_string()),
        status: status.to_string(),
    }
}

fn net(updates: &[BalanceUpdate], pocket: u128) -> i128 {
    updates.iter().filter(|u| u.pocket_id == pocket).map(|u| u.amount.digits_text().parse::<i128>().unwrap()).sum()
}

fn plan(type_: &str, dest: Option<u128>, status: &str, pocket_owner: Option<u128>, dest_owner: Option<u128>)
    -> Result<mobile_money_backend::transactions::TransactionPlan, String> {
    plan_create_transaction(
        5, USER, 10, None, amount("1500"), type_.to_string(), "Coffee".to_string(), 0, dest, None,
        status.to_string(), pocket_owner, dest_owner,
    )
}

#[test]
fn create_expense_lowers_the_pocket() {
    let p = plan("expense", None, "resolved", Some(USER), None).unwrap();
    assert_eq!(p.transaction.id, 5);
    assert_eq!(p.transaction.status, "resolved");
    assert_eq!(p.updates.len(), 1);
    assert_eq!(p.updates[0].pocket_id, 10);
    assert_eq!(p.updates[0].amount.to_text(), "-1500");
}

#[test]
fn create_transfer_credits_the_destination() {
    let p = plan("transfer", Some(11), "resolved", Some(USER), Some(USER)).unwrap();
    assert_eq!(net(&p.updates, 10), -1500);
    assert_eq!(net(&p.updates, 11), 1500);
}

#[test]
fn create_rejected_changes_no_balance() {
    let p = plan("income", None, "rejected", Some(USER), None).unwrap();
    assert!(p.updates.is_empty());
}

#[test]
fn create_refuses_missing_or_foreign_pockets() {
    assert_eq!(plan("expense", None, "resolved", None, None).unwrap_err(), "Pocket not found");
    assert_eq!(plan("expense", None, "resolved", Some(OTHER), None).unwrap_err(), "Unauthorized pocket access");
    assert_eq!(plan("transfer", Some(11), "resolved", Some(USER), None).unwrap_err(), "Destination pocket not found");
    assert_eq!(
        plan("transfer", Some(11), "resolved", Some(USER), Some(OTHER)).unwrap_err(),
        "Unauthorized destination pocket access"
    );
    // only a transfer's destination is checked
    assert!(plan("expense", Some(11), "resolved", Some(USER), None).is_ok());
}

#[test]
fn void_takes_back_what_create_did() {
    let t = tx("transfer", "resolved", Some(11));
    let created = mobile_money_backend::transactions::recording(&t);
    let voided = void_transaction(Some(tx("transfer", "resolved", Some(11))), Some(USER), USER).unwrap();
    assert_eq!(voided.transaction_id, 1);
    let mut all = created;
    all.extend(voided.updates);
    for pocket in [10u128, 11u128] {
        assert_eq!(net(&all, pocket), 0);
    }
}

#[test]
fn void_of_rejected_changes_nothing() {
    let v = void_transaction(Some(tx("income", "rejected", None)), Some(USER), USER).unwrap();
    assert!(v.updates.is_empty());
}

#[test]
fn void_refusals() {
    assert_eq!(void_transaction(None, Some(USER), USER).unwrap_err(), "Transaction not found");
    assert_eq!(void_transaction(Some(tx("income", "resolved", None)), None, USER).unwrap_err(), "Pocket not found");
    assert_eq!(
        void_transaction(Some(tx("income", "resolved", None)), Some(OTHER), USER).unwrap_err(),
        "Unauthorized transaction access"
    );
}

#[test]
fn get_only_returns_own_transactions() {
    assert!(get_transaction_by_id(Some(tx("income", "resolved", None)), Some(USER), USER).is_some());
    assert!(get_transaction_by_id(Some(tx("income", "resolved", None)), Some(OTHER), USER).is_none());
    assert!(get_transaction_by_id(Some(tx("income", "resolved", None)), None, USER).is_none());
    assert!(get_transaction_by_id(None, Some(USER), USER).is_none());
}

#[test]
fn update_reverts_old_and_applies_new() {
    let old = tx("expense", "resolved", None);
    let p = update_transaction(
        1, USER, Some(old), Some(USER), Some(USER), None, 12, None, amount("700"), "income".to_string(),
        "Refund".to_string(), 5, None, None, None,
    )
    .unwrap();
    assert_eq!(p.transaction.status, "resolved");
    assert_eq!(p.transaction.pocket_id, 12);
    assert_eq!(net(&p.updates, 10), 50000);
    assert_eq!(net(&p.updates, 12), 700);
}

#[test]
fn update_with_same_fields_keeps_balances() {
    let old = tx("transfer", "resolved", Some(11));
    let p = update_transaction(
        1, USER, Some(old), Some(USER), Some(USER), Some(USER), 10, Some(30), amount("50000"),
        "transfer".to_string(), "Tokopedia".to_string(), 1_700_000_000_000_000_000, Some(11),
        Some("raw".to_string()), None,
    )
    .unwrap();
    assert_eq!(net(&p.updates, 10), 0);
    assert_eq!(net(&p.updates, 11), 0);
}

#[test]
fn update_refusals() {
    let r = update_transaction(
        1, USER, None, Some(USER), Some(USER), None, 10, None, amount("1"), "income".to_string(), "t".to_string(),
        0, None, None, None,
    );
    assert_eq!(r.unwrap_err(), "Transaction not found");
    let r = update_transaction(
        1, USER, Some(tx("income", "resolved", None)), None, Some(USER), None, 10, None, amount("1"),
        "income".to_string(), "t".to_string(), 0, None, None, None,
    );
    assert_eq!(r.unwrap_err(), "Original pocket not found");
    let r = update_transaction(
        1, USER, Some(tx("income", "resolved", None)), Some(OTHER), Some(USER), None, 10, None, amount("1"),
        "income".to_string(), "t".to_string(), 0, None, None, None,
    );
    assert_eq!(r.unwrap_err(), "Unauthorized pocket access");
    let r = update_transaction(
        1, USER, Some(tx("income", "resolved", None)), Some(USER), None, None, 10, None, amount("1"),
        "income".to_string(), "t".to_string(), 0, None, None, None,
    );
    assert_eq!(r.unwrap_err(), "Pocket not found");
}

fn no_corrections() -> Corrections {
    Corrections {
        pocket_id: None,
        category_id: None,
        amount: None,
        type_: None,
        title: None,
        destination_pocket_id: None,
        description: None,
    }
}

#[test]
fn resolve_as_is_keeps_balances() {
    let p = resolve_transaction(USER, Some(tx("expense", "pending", None)), Some(USER), no_corrections(), None, None)
        .unwrap();
    assert_eq!(p.transaction.status, "resolved");
    assert_eq!(p.transaction.title, "Tokopedia");
    assert_eq!(net(&p.updates, 10), 0);
}

#[test]
fn resolve_with_corrections_moves_the_money() {
    let mut c = no_corrections();
    c.pocket_id = Some(12);
    c.amount = Some(amount("45000"));
    c.title = Some("Groceries".to_string());
    let p = resolve_transaction(USER, Some(tx("expense", "pending", None)), Some(USER), c, Some(USER), None).unwrap();
    assert_eq!(p.transaction.pocket_id, 12);
    assert_eq!(p.transaction.title, "Groceries");
    assert_eq!(p.transaction.category_id, Some(30));
    assert_eq!(net(&p.updates, 10), 50000);
    assert_eq!(net(&p.updates, 12), -45000);
}

#[test]
fn resolve_refusals() {
    assert_eq!(
        resolve_transaction(USER, Some(tx("expense", "resolved", None)), Some(USER), no_corrections(), None, None)
            .unwrap_err(),
        "Transaction is not pending"
    );
    assert_eq!(
        resolve_transaction(USER, None, Some(USER), no_corrections(), None, None).unwrap_err(),
        "Transaction not found"
    );
    let mut c = no_corrections();
    c.destination_pocket_id = Some(13);
    assert_eq!(
        resolve_transaction(USER, Some(tx("transfer", "pending", None)), Some(USER), c, None, Some(OTHER)).unwrap_err(),
        "Unauthorized destination pocket access"
    );
}

#[test]
fn reject_undoes_the_pending_transaction() {
    let pending = tx("income", "pending", None);
    let recorded = mobile_money_backend::transactions::recording(&pending);
    let p = reject_transaction(USER, Some(tx("income", "pending", None)), Some(USER)).unwrap();
    assert_eq!(p.transaction.status, "rejected");
    let mut all = recorded;
    all.extend(p.updates);
    assert_eq!(net(&all, 10), 0);
    assert!(mobile_money_backend::transactions::removal(&p.transaction).is_empty());
}

#[test]
fn reject_refuses_other_users() {
    assert_eq!(
        reject_transaction(USER, Some(tx("income", "pending", None)), Some(OTHER)).unwrap_err(),
        "Unauthorized transaction access"
    );
}

fn pocket_response(id: u128, name: &str) -> PocketResponse {
    PocketResponse {
        id,
        name: name.to_string(),
        pocket_type: "bank".to_string(),
        balance: "0".to_string(),
        currency: "IDR".to_string(),
    }
}

#[test]
fn responses_carry_pocket_and_category() {
    let ps = vec![pocket_response(10, "Jago"), pocket_response(11, "Gopay")];
    let cs = vec![CategoryResponse { id: 30, name: "Food".to_string(), type_: "expense".to_string() }];
    let out: Vec<TransactionResponse> = populate_all(vec![tx("transfer", "resolved", Some(11))], &ps, &cs);
    assert_eq!(out.len(), 1);
    assert_eq!(out[0].amount, "50000");
    assert_eq!(out[0].pocket.as_ref().unwrap().name, "Jago");
    assert_eq!(out[0].destination_pocket.as_ref().unwrap().name, "Gopay");
    assert_eq!(out[0].category.as_ref().unwrap().name, "Food");
    let single = TransactionResponse::from(tx("income", "resolved", None));
    assert!(single.pocket.is_none());
    assert_eq!(single.title, "Tokopedia");
}

fn apply(balances: &mut std::collections::HashMap<u128, i128>, updates: &[BalanceUpdate]) {
    for u in updates {
        assert_eq!(u.amount.scale(), 0);
        *balances.entry(u.pocket_id).or_insert(0) += u.amount.digits_text().parse::<i128>().unwrap();
    }
}

fn ledger(stored: &[Transaction]) -> std::collections::HashMap<u128, i128> {
    let mut b = std::collections::HashMap::new();
    for t in stored {
        apply(&mut b, &mod_recording(t));
    }
    b
}

fn mod_recording(t: &Transaction) -> Vec<BalanceUpdate> {
    mobile_money_backend::transactions::recording(t)
}

fn same(a: &std::collections::HashMap<u128, i128>, b: &std::collections::HashMap<u128, i128>) -> bool {
    a.keys().chain(b.keys()).all(|k| a.get(k).copied().unwrap_or(0) == b.get(k).copied().unwrap_or(0))
}

#[test]
fn operations_keep_the_ledger() {
    let mut balances = std::collections::HashMap::new();
    let mut stored: Vec<Transaction> = vec![];
    let created = plan("transfer", Some(11), "pending", Some(USER), Some(USER)).unwrap();
    stored.push(created.transaction);
    apply(&mut balances, &created.updates);
    assert!(same(&balances, &ledger(&stored)));
    let mut c = no_corrections();
    c.amount = Some(amount("900"));
    c.type_ = Some("expense".to_string());
    let resolved = resolve_transaction(USER, Some(stored.pop().unwrap()), Some(USER), c, None, None).unwrap();
    apply(&mut balances, &resolved.updates);
    stored.push(resolved.transaction);
    assert!(same(&balances, &ledger(&stored)));
    let old = stored.pop().unwrap();
    let updated = update_transaction(
        old.id, USER, Some(old), Some(USER), Some(USER), None, 12, None, amount("300"), "income".to_string(),
        "Refund".to_string(), 0, None, None, Some("rejected".to_string()),
    )
    .unwrap();
    apply(&mut balances, &updated.updates);
    stored.push(updated.transaction);
    assert!(same(&balances, &ledger(&stored)));
    assert!(balances.values().all(|v| *v == 0));
}
