use vstd::prelude::*;
use crate::amount::{Amount, decimal_text};
use crate::clock::Timestamp;
use crate::ids::{Id, fresh_id};
use crate::text::copy_text;

verus! {

/// A wallet or account of a user, with its balance.
#[derive(Debug)]
pub struct Pocket {
    pub id: Id,
    pub user_id: Id,
    pub name: String,
    pub _pocket_type: String,
    pub currency: String,
    pub balance: Amount,
    pub _updated_at: Timestamp,
}

/// A pocket as the API shows it, with its balance as decimal text.
#[derive(Debug)]
pub struct PocketResponse {
    pub id: Id,
    pub name: String,
    pub pocket_type: String,
    pub balance: String,
    pub currency: String,
}

/// Body of a request that creates a pocket.
#[derive(Debug)]
pub struct CreatePocketRequest {
    pub name: String,
    pub pocket_type: String,
    pub currency: String,
    pub balance: String,
}

/// Body of a request that renames or retypes a pocket.
#[derive(Debug)]
pub struct UpdatePocketRequest {
    pub name: String,
    pub pocket_type: String,
}

impl PocketResponse {
    /// The API form of a pocket.
    pub fn from(p: Pocket) -> (r: PocketResponse)
        ensures
            r.id == p.id,
            r.name@ == p.name@,
            r.pocket_type@ == p._pocket_type@,
            r.balance@ == decimal_text(p.balance@.0, p.balance@.1),
            r.currency@ == p.currency@,
    {
        let balance = p.balance.to_text();
        PocketResponse {
            id: p.id,
            name: p.name,
            pocket_type: p._pocket_type,
            balance,
            currency: p.currency,
        }
    }

    /// A copy of the response.
    pub fn duplicate(&self) -> (r: PocketResponse)
        ensures
            r.id == self.id,
            r.name@ == self.name@,
            r.pocket_type@ == self.pocket_type@,
            r.balance@ == self.balance@,
            r.currency@ == self.currency@,
    {
        PocketResponse {
            id: self.id,
            name: copy_text(&self.name),
            pocket_type: copy_text(&self.pocket_type),
            balance: copy_text(&self.balance),
            currency: copy_text(&self.currency),
        }
    }
}

/// Message when a pocket does not exist.
pub open spec fn pocket_not_found_text() -> Seq<char> {
    "Pocket not found"@
}

/// Message when a pocket belongs to someone else.
pub open spec fn pocket_denied_text() -> Seq<char> {
    "Unauthorized pocket access"@
}

/// The message when a pocket does not exist.
pub fn pocket_not_found() -> (s: String)
    ensures
        s@ == pocket_not_found_text(),
{
    String::from_str("Pocket not found")
}

/// The message when a pocket belongs to someone else.
pub fn pocket_denied() -> (s: String)
    ensures
        s@ == pocket_denied_text(),
{
    String::from_str("Unauthorized pocket access")
}

/// The pocket that a lookup found, if it belongs to the user: another
/// user's pocket is not shown.
pub fn get_pocket_by_id(found: Option<Pocket>, user_id: Id) -> (r: Option<Pocket>)
    ensures
        match found {
            Some(p) => if p.user_id == user_id { r == Some(p) } else { r is None },
            None => r is None,
        },
{
    match found {
        Some(p) => {
            if p.user_id == user_id {
                Some(p)
            } else {
                None
            }
        },
        None => None,
    }
}

/// A new pocket with the given identifier and time of update.
pub fn new_pocket(id: Id, user_id: Id, name: String, pocket_type: String, currency: String, balance: Amount, at: Timestamp) -> (p: Pocket)
    ensures
        p.id == id,
        p.user_id == user_id,
        p.name == name,
        p._pocket_type == pocket_type,
        p.currency == currency,
        p.balance == balance,
        p._updated_at == at,
{
    Pocket { id, user_id, name, _pocket_type: pocket_type, currency, balance, _updated_at: at }
}

/// A new pocket of the user, with a fresh identifier, saved at `at` (the
/// current time, read by the caller); it is what the repository is asked
/// to save.
pub fn create_pocket(user_id: Id, name: String, pocket_type: String, currency: String, balance: Amount, at: Timestamp) -> (p: Pocket)
    ensures
        p.user_id == user_id,
        p._updated_at == at,
        p.name == name,
        p._pocket_type == pocket_type,
        p.currency == currency,
        p.balance == balance,
{
    let id = fresh_id();
    new_pocket(id, user_id, name, pocket_type, currency, balance, at)
}

/// The pocket to save when the user renames or retypes it: a pocket that
/// was not found, or that belongs to someone else, is refused.
pub fn update_pocket(found: Option<Pocket>, user_id: Id, name: String, pocket_type: String) -> (r: Result<Pocket, String>)
    ensures
        match found {
            None => r matches Err(e) && e@ == pocket_not_found_text(),
            Some(p) => if p.user_id != user_id {
                r matches Err(e) && e@ == pocket_denied_text()
            } else {
                r matches Ok(q) && q.id == p.id && q.user_id == p.user_id && q.name == name
                    && q._pocket_type == pocket_type && q.currency == p.currency
                    && q.balance == p.balance && q._updated_at == p._updated_at
            },
        },
{
    match found {
        None => Err(pocket_not_found()),
        Some(p) => {
            if p.user_id != user_id {
                Err(pocket_denied())
            } else {
                Ok(Pocket { name, _pocket_type: pocket_type, ..p })
            }
        },
    }
}

/// The pocket to delete when the user deletes it: a pocket that was not
/// found, or that belongs to someone else, is refused.
pub fn delete_pocket(found: Option<Pocket>, user_id: Id) -> (r: Result<Id, String>)
    ensures
        match found {
            None => r matches Err(e) && e@ == pocket_not_found_text(),
            Some(p) => if p.user_id != user_id {
                r matches Err(e) && e@ == pocket_denied_text()
            } else {
                r == Ok::<Id, String>(p.id)
            },
        },
{
    match found {
        None => Err(pocket_not_found()),
        Some(p) => {
            if p.user_id != user_id {
                Err(pocket_denied())
            } else {
                Ok(p.id)
            }
        },
    }
}

} // verus!
