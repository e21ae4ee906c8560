use vstd::prelude::*;
use crate::amount::Amount;

verus! {

/// What the language model extracted from a notification.
#[derive(Debug)]
pub struct AiParsedNotification {
    pub is_transaction: bool,
    pub amount: Option<Amount>,
    pub transaction_type: Option<String>,
    pub title: Option<String>,
    pub pocket: Option<String>,
    pub category: Option<String>,
    pub destination_pocket: Option<String>,
}

/// The filters that the language model read from a question about the
/// user's transactions.
#[derive(Debug, Default)]
pub struct AiTransactionQuery {
    pub pocket_name: Option<String>,
    pub category_name: Option<String>,
    pub start_date: Option<String>,
    pub end_date: Option<String>,
    pub transaction_type: Option<String>,
    pub limit: Option<u32>,
}

/// A parsed notification that claims to be a transaction carries its
/// amount, type and title.
pub open spec fn complete_if_transaction(p: AiParsedNotification) -> bool {
    p.is_transaction ==> (p.amount is Some && p.transaction_type is Some && p.title is Some)
}

/// The complaint, if any, about what the model extracted: a notification
/// said to be a transaction must come with an amount, a type and a title,
/// checked in that order.
pub open spec fn parsed_complaint(p: AiParsedNotification) -> Option<Seq<char>> {
    if !p.is_transaction {
        None
    } else if p.amount is None {
        Some("AI failed to extract a valid amount"@)
    } else if p.transaction_type is None {
        Some("AI failed to determine transaction type"@)
    } else if p.title is None {
        Some("AI failed to generate a transaction title"@)
    } else {
        None
    }
}

/// Checks what the model extracted; see `parsed_complaint`.
pub fn validate_parsed_notification(p: AiParsedNotification) -> (r: Result<AiParsedNotification, String>)
    ensures
        match parsed_complaint(p) {
            Some(m) => r matches Err(e) && e@ == m,
            None => r == Ok::<AiParsedNotification, String>(p),
        },
        r matches Ok(q) ==> complete_if_transaction(q),
{
    if p.is_transaction {
        if p.amount.is_none() {
            return Err(String::from_str("AI failed to extract a valid amount"));
        }
        if p.transaction_type.is_none() {
            return Err(String::from_str("AI failed to determine transaction type"));
        }
        if p.title.is_none() {
            return Err(String::from_str("AI failed to generate a transaction title"));
        }
    }
    Ok(p)
}

} // verus!
