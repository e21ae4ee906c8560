use vstd::prelude::*;
use crate::amount::Amount;
use crate::categories::{Category, new_category};
use crate::clock::Timestamp;
use crate::ids::{fresh_id, nil_id};
use crate::pockets::{Pocket, new_pocket};

verus! {

/// A table is seeded only while it holds no row.
pub fn needs_seeding(count: i64) -> (b: bool)
    ensures
        b == (count == 0),
{
    count == 0
}

/// The pocket seeded with `name` and `pocket_type`: shared (the nil user),
/// in rupiah, with a zero balance.
pub open spec fn is_seed_pocket(p: Pocket, name: Seq<char>, pocket_type: Seq<char>) -> bool {
    &&& p.user_id == nil_id()
    &&& p.name@ == name
    &&& p._pocket_type@ == pocket_type
    &&& p.currency@ == "IDR"@
    &&& p.balance@ == (0int, 0int)
}

/// The pockets seeded into an empty table at `at` (the current time, read
/// by the caller): a cash "Main Wallet" and a "Bank Account", each with a
/// fresh identifier.
pub fn default_pockets(at: Timestamp) -> (r: Vec<Pocket>)
    ensures
        r@.len() == 2,
        r@[0]._updated_at == at && r@[1]._updated_at == at,
        is_seed_pocket(r@[0], "Main Wallet"@, "cash"@),
        is_seed_pocket(r@[1], "Bank Account"@, "bank"@),
{
    let mut r: Vec<Pocket> = Vec::new();
    let wallet = new_pocket(fresh_id(), 0, String::from_str("Main Wallet"), String::from_str("cash"),
        String::from_str("IDR"), Amount::zero(), at);
    r.push(wallet);
    let bank = new_pocket(fresh_id(), 0, String::from_str("Bank Account"), String::from_str("bank"),
        String::from_str("IDR"), Amount::zero(), at);
    r.push(bank);
    r
}

/// The shared category seeded with `name` and `type_`.
pub open spec fn is_seed_category(c: Category, name: Seq<char>, type_: Seq<char>) -> bool {
    c.user_id is None && c.name@ == name && c.type_@ == type_
}

/// The categories seeded into an empty table: four for expenses and two
/// for income, each shared and with a fresh identifier.
pub fn default_categories() -> (r: Vec<Category>)
    ensures
        r@.len() == 6,
        is_seed_category(r@[0], "Food & Beverage"@, "expense"@),
        is_seed_category(r@[1], "Transport"@, "expense"@),
        is_seed_category(r@[2], "Shopping"@, "expense"@),
        is_seed_category(r@[3], "Bills & Utilities"@, "expense"@),
        is_seed_category(r@[4], "Salary"@, "income"@),
        is_seed_category(r@[5], "Bonus"@, "income"@),
{
    let mut r: Vec<Category> = Vec::new();
    r.push(new_category(fresh_id(), String::from_str("Food & Beverage"), String::from_str("expense")));
    r.push(new_category(fresh_id(), String::from_str("Transport"), String::from_str("expense")));
    r.push(new_category(fresh_id(), String::from_str("Shopping"), String::from_str("expense")));
    r.push(new_category(fresh_id(), String::from_str("Bills & Utilities"), String::from_str("expense")));
    r.push(new_category(fresh_id(), String::from_str("Salary"), String::from_str("income")));
    r.push(new_category(fresh_id(), String::from_str("Bonus"), String::from_str("income")));
    r
}

/// The pocket rows that seeding inserts into a table of `count` rows: the
/// two default pockets when the table is empty, none otherwise.
pub open spec fn pocket_seed(count: int, rows: Seq<Pocket>) -> bool {
    if count == 0 {
        &&& rows.len() == 2
        &&& is_seed_pocket(rows[0], "Main Wallet"@, "cash"@)
        &&& is_seed_pocket(rows[1], "Bank Account"@, "bank"@)
    } else {
        rows.len() == 0
    }
}

/// The category rows that seeding inserts into a table of `count` rows:
/// the six default categories when the table is empty, none otherwise.
pub open spec fn category_seed(count: int, rows: Seq<Category>) -> bool {
    if count == 0 {
        &&& rows.len() == 6
        &&& is_seed_category(rows[0], "Food & Beverage"@, "expense"@)
        &&& is_seed_category(rows[1], "Transport"@, "expense"@)
        &&& is_seed_category(rows[2], "Shopping"@, "expense"@)
        &&& is_seed_category(rows[3], "Bills & Utilities"@, "expense"@)
        &&& is_seed_category(rows[4], "Salary"@, "income"@)
        &&& is_seed_category(rows[5], "Bonus"@, "income"@)
    } else {
        rows.len() == 0
    }
}

/// The pockets to insert when the pocket table holds `count` rows, dated
/// `at`.
pub fn pockets_to_seed(count: i64, at: Timestamp) -> (r: Vec<Pocket>)
    ensures
        pocket_seed(count as int, r@),
        count == 0 ==> r@[0]._updated_at == at && r@[1]._updated_at == at,
{
    if needs_seeding(count) {
        default_pockets(at)
    } else {
        Vec::new()
    }
}

/// The categories to insert when the category table holds `count` rows.
pub fn categories_to_seed(count: i64) -> (r: Vec<Category>)
    ensures
        category_seed(count as int, r@),
{
    if needs_seeding(count) {
        default_categories()
    } else {
        Vec::new()
    }
}

/// Seeding twice changes nothing. A first run fills each empty table with
/// its defaults and leaves a table that holds rows as it is; after it both
/// tables hold rows, so a second run inserts nothing into either.
pub proof fn lemma_seeding_twice_changes_nothing(
    pockets: Seq<Pocket>,
    categories: Seq<Category>,
    first_pockets: Seq<Pocket>,
    first_categories: Seq<Category>,
    second_pockets: Seq<Pocket>,
    second_categories: Seq<Category>,
)
    requires
        pocket_seed(pockets.len() as int, first_pockets),
        category_seed(categories.len() as int, first_categories),
        pocket_seed((pockets + first_pockets).len() as int, second_pockets),
        category_seed((categories + first_categories).len() as int, second_categories),
    ensures
        pockets.len() > 0 ==> pockets + first_pockets == pockets,
        categories.len() > 0 ==> categories + first_categories == categories,
        (pockets + first_pockets).len() > 0,
        (categories + first_categories).len() > 0,
        second_pockets.len() == 0,
        second_categories.len() == 0,
        pockets + first_pockets + second_pockets == pockets + first_pockets,
        categories + first_categories + second_categories == categories + first_categories,
{
    assert(pockets.len() > 0 ==> pockets + first_pockets =~= pockets);
    assert(categories.len() > 0 ==> categories + first_categories =~= categories);
    assert(pockets + first_pockets + second_pockets =~= pockets + first_pockets);
    assert(categories + first_categories + second_categories =~= categories + first_categories);
}

} // verus!
