use vstd::prelude::*;
pub use crate::clock::within_chrono_range;
use crate::amount::{Amount, decimal_text, same_value};
use crate::clock::Timestamp;
use crate::ids::Id;
use crate::text::{text_eq, copy_text, string_of, join_with_space};
use crate::ai::AiParsedNotification;
use crate::extraction::{
    Named, named_view, first_related, first_mentioned, amount_fallback, type_fallback, find_by_name,
    find_mentioned, extract_amount_fallback, extract_type_fallback,
};
use crate::transactions::Transaction;
use crate::search::{first_index, lemma_first_index_found, lemma_first_index_none, lemma_first_index_exists};
use crate::pagination::PaginationQuery;

verus! {

/// Where a notification stands in the inbox.
#[derive(Debug, Clone, Copy, PartialEq, Eq, Structural)]
pub enum NotificationStatus {
    Pending,
    Processed,
    Failed,
    Ignored,
}

/// The text form of a status.
pub open spec fn status_text(s: NotificationStatus) -> Seq<char> {
    match s {
        NotificationStatus::Pending => "pending"@,
        NotificationStatus::Processed => "processed"@,
        NotificationStatus::Failed => "failed"@,
        NotificationStatus::Ignored => "ignored"@,
    }
}

/// The status a text names; any unknown text is pending.
pub open spec fn status_named(t: Seq<char>) -> NotificationStatus {
    if t == "processed"@ {
        NotificationStatus::Processed
    } else if t == "failed"@ {
        NotificationStatus::Failed
    } else if t == "ignored"@ {
        NotificationStatus::Ignored
    } else {
        NotificationStatus::Pending
    }
}

impl NotificationStatus {
    /// The text form of the status.
    pub fn to_string(&self) -> (s: String)
        ensures
            s@ == status_text(*self),
    {
        match self {
            NotificationStatus::Pending => String::from_str("pending"),
            NotificationStatus::Processed => String::from_str("processed"),
            NotificationStatus::Failed => String::from_str("failed"),
            NotificationStatus::Ignored => String::from_str("ignored"),
        }
    }

    /// The status a text names; any unknown text is pending.
    pub fn from(s: String) -> (r: NotificationStatus)
        ensures
            r == status_named(s@),
    {
        if text_eq(s.as_str(), "processed") {
            NotificationStatus::Processed
        } else if text_eq(s.as_str(), "failed") {
            NotificationStatus::Failed
        } else if text_eq(s.as_str(), "ignored") {
            NotificationStatus::Ignored
        } else {
            NotificationStatus::Pending
        }
    }
}

/// Reading back the text of a status gives the status again.
pub proof fn lemma_status_text_round_trip(s: NotificationStatus)
    ensures
        status_named(status_text(s)) == s,
{
    reveal_strlit("pending");
    reveal_strlit("processed");
    reveal_strlit("failed");
    reveal_strlit("ignored");
    assert("pending"@[1] != "processed"@[1]);
    assert("pending"@[0] != "failed"@[0]);
    assert("pending"@[0] != "ignored"@[0]);
    assert("failed"@[0] != "processed"@[0]);
    assert("ignored"@[0] != "processed"@[0]);
    assert("ignored"@[0] != "failed"@[0]);
}

/// A notification captured on the user's phone, as the inbox keeps it,
/// with what was read from it.
#[derive(Debug)]
pub struct NotificationInbox {
    pub id: Id,
    pub user_id: Id,
    pub app_package: String,
    pub raw_title: Option<String>,
    pub raw_body: String,
    pub received_at: Timestamp,
    pub status: NotificationStatus,
    pub transaction_id: Option<Id>,
    pub amount: Option<Amount>,
    pub type_: Option<String>,
    pub pocket_id: Option<Id>,
    pub category_id: Option<Id>,
    pub destination_pocket_id: Option<Id>,
    pub title: Option<String>,
}

/// An optional text as plain characters.
pub open spec fn opt_text(s: Option<String>) -> Option<Seq<char>> {
    match s {
        Some(x) => Some(x@),
        None => None,
    }
}

/// An optional amount as a plain decimal.
pub open spec fn opt_amount(a: Option<Amount>) -> Option<(int, int)> {
    match a {
        Some(x) => Some(x@),
        None => None,
    }
}

fn copy_opt_amount(a: &Option<Amount>) -> (r: Option<Amount>)
    ensures
        opt_amount(r) == opt_amount(*a),
{
    match a {
        Some(x) => Some(x.duplicate()),
        None => None,
    }
}

/// A notification as plain values.
pub struct NotificationView {
    pub id: Id,
    pub user_id: Id,
    pub app_package: Seq<char>,
    pub raw_title: Option<Seq<char>>,
    pub raw_body: Seq<char>,
    pub received_at: Timestamp,
    pub status: NotificationStatus,
    pub transaction_id: Option<Id>,
    pub amount: Option<(int, int)>,
    pub type_: Option<Seq<char>>,
    pub pocket_id: Option<Id>,
    pub category_id: Option<Id>,
    pub destination_pocket_id: Option<Id>,
    pub title: Option<Seq<char>>,
}

impl View for NotificationInbox {
    type V = NotificationView;

    open spec fn view(&self) -> NotificationView {
        NotificationView {
            id: self.id,
            user_id: self.user_id,
            app_package: self.app_package@,
            raw_title: opt_text(self.raw_title),
            raw_body: self.raw_body@,
            received_at: self.received_at,
            status: self.status,
            transaction_id: self.transaction_id,
            amount: opt_amount(self.amount),
            type_: opt_text(self.type_),
            pocket_id: self.pocket_id,
            category_id: self.category_id,
            destination_pocket_id: self.destination_pocket_id,
            title: opt_text(self.title),
        }
    }
}

/// A copy of an optional text.
pub fn copy_opt_text(s: &Option<String>) -> (r: Option<String>)
    ensures
        opt_text(r) == opt_text(*s),
{
    match s {
        Some(x) => Some(copy_text(x)),
        None => None,
    }
}

impl NotificationInbox {
    /// A copy of the notification.
    pub fn duplicate(&self) -> (r: NotificationInbox)
        ensures
            r@ == self@,
    {
        NotificationInbox {
            id: self.id,
            user_id: self.user_id,
            app_package: copy_text(&self.app_package),
            raw_title: copy_opt_text(&self.raw_title),
            raw_body: copy_text(&self.raw_body),
            received_at: self.received_at,
            status: self.status,
            transaction_id: self.transaction_id,
            amount: copy_opt_amount(&self.amount),
            type_: copy_opt_text(&self.type_),
            pocket_id: self.pocket_id,
            category_id: self.category_id,
            destination_pocket_id: self.destination_pocket_id,
            title: copy_opt_text(&self.title),
        }
    }
}

/// Body of one notification sent from the phone.
#[derive(Debug)]
pub struct CreateNotificationRequest {
    pub app_package: String,
    pub raw_title: Option<String>,
    pub raw_body: String,
}

/// A new pending notification of the user, received at the given time,
/// with nothing read from it yet.
pub fn new_notification(id: Id, user_id: Id, req: CreateNotificationRequest, received_at: Timestamp) -> (n: NotificationInbox)
    ensures
        n.id == id,
        n.user_id == user_id,
        n.app_package == req.app_package,
        n.raw_title == req.raw_title,
        n.raw_body == req.raw_body,
        n.received_at == received_at,
        n.status == NotificationStatus::Pending,
        n.transaction_id is None,
        n.amount is None,
        n.type_ is None,
        n.pocket_id is None,
        n.category_id is None,
        n.destination_pocket_id is None,
        n.title is None,
{
    NotificationInbox {
        id,
        user_id,
        app_package: req.app_package,
        raw_title: req.raw_title,
        raw_body: req.raw_body,
        received_at,
        status: NotificationStatus::Pending,
        transaction_id: None,
        amount: None,
        type_: None,
        pocket_id: None,
        category_id: None,
        destination_pocket_id: None,
        title: None,
    }
}

/// A notification as the API shows it.
#[derive(Debug)]
pub struct NotificationResponse {
    pub id: Id,
    pub app_package: String,
    pub raw_title: Option<String>,
    pub raw_body: String,
    pub status: String,
    pub received_at: Timestamp,
    pub amount: Option<String>,
    pub type_: Option<String>,
    pub pocket_id: Option<Id>,
    pub category_id: Option<Id>,
    pub destination_pocket_id: Option<Id>,
    pub title: Option<String>,
}

impl NotificationResponse {
    /// The API form of a notification: its status and amount as text.
    pub fn from(n: NotificationInbox) -> (r: NotificationResponse)
        ensures
            r.id == n.id,
            r.app_package == n.app_package,
            r.raw_title == n.raw_title,
            r.raw_body == n.raw_body,
            r.status@ == status_text(n.status),
            r.received_at == n.received_at,
            match n.amount {
                Some(a) => r.amount matches Some(t) && t@ == decimal_text(a@.0, a@.1),
                None => r.amount is None,
            },
            r.type_ == n.type_,
            r.pocket_id == n.pocket_id,
            r.category_id == n.category_id,
            r.destination_pocket_id == n.destination_pocket_id,
            r.title == n.title,
    {
        let status = n.status.to_string();
        let amount = match n.amount {
            Some(a) => Some(a.to_text()),
            None => None,
        };
        NotificationResponse {
            id: n.id,
            app_package: n.app_package,
            raw_title: n.raw_title,
            raw_body: n.raw_body,
            status,
            received_at: n.received_at,
            amount,
            type_: n.type_,
            pocket_id: n.pocket_id,
            category_id: n.category_id,
            destination_pocket_id: n.destination_pocket_id,
            title: n.title,
        }
    }
}


/// A transaction that reading a notification asks to record.
#[derive(Debug)]
pub struct TransactionRequest {
    pub pocket_id: Id,
    pub category_id: Option<Id>,
    pub amount: Amount,
    pub type_: String,
    pub title: String,
    pub transaction_time: Timestamp,
    pub destination_pocket_id: Option<Id>,
    pub description: Option<String>,
    pub status: String,
}

/// What to do with a notification once it has been read.
#[derive(Debug)]
pub enum IngestStep {
    /// Store the notification as it is.
    Store(NotificationInbox),
    /// Record the transaction, then store the notification linked to it
    /// (see `link_transaction`).
    Record(NotificationInbox, TransactionRequest),
}

/// What the model read, when it read a transaction.
pub open spec fn read_by_ai(ai: Result<Option<AiParsedNotification>, String>) -> Option<AiParsedNotification> {
    match ai {
        Ok(Some(d)) => if d.is_transaction { Some(d) } else { None },
        _ => None,
    }
}

/// The model found no transaction in the notification (a failure of the
/// model is not such a finding).
pub open spec fn ignored_by_ai(ai: Result<Option<AiParsedNotification>, String>) -> bool {
    match ai {
        Ok(None) => true,
        Ok(Some(d)) => !d.is_transaction,
        Err(_) => false,
    }
}

/// The item that a name given by the model designates, if any.
pub open spec fn matched(name: Option<String>, items: Seq<(Id, Seq<char>)>) -> Option<Id> {
    match name {
        Some(x) => first_related(items, x@),
        None => None,
    }
}

/// The pocket the model's reading designates.
pub open spec fn ai_pocket(ai: Result<Option<AiParsedNotification>, String>, ps: Seq<(Id, Seq<char>)>) -> Option<Id> {
    match read_by_ai(ai) {
        Some(d) => matched(d.pocket, ps),
        None => None,
    }
}

/// The category the model's reading designates.
pub open spec fn ai_category(ai: Result<Option<AiParsedNotification>, String>, cs: Seq<(Id, Seq<char>)>) -> Option<Id> {
    match read_by_ai(ai) {
        Some(d) => matched(d.category, cs),
        None => None,
    }
}

/// The destination pocket the model's reading designates.
pub open spec fn ai_destination(ai: Result<Option<AiParsedNotification>, String>, ps: Seq<(Id, Seq<char>)>) -> Option<Id> {
    match read_by_ai(ai) {
        Some(d) => matched(d.destination_pocket, ps),
        None => None,
    }
}

/// The notification with the model's reading copied into it.
pub open spec fn after_ai(
    n: NotificationView,
    ai: Result<Option<AiParsedNotification>, String>,
    ps: Seq<(Id, Seq<char>)>,
    cs: Seq<(Id, Seq<char>)>,
) -> NotificationView {
    match read_by_ai(ai) {
        Some(d) => NotificationView {
            amount: opt_amount(d.amount),
            type_: opt_text(d.transaction_type),
            pocket_id: matched(d.pocket, ps),
            category_id: matched(d.category, cs),
            destination_pocket_id: matched(d.destination_pocket, ps),
            title: opt_text(d.title),
            ..n
        },
        None => n,
    }
}

/// The raw title, or the empty text.
pub open spec fn raw_title_text(n: NotificationView) -> Seq<char> {
    match n.raw_title {
        Some(t) => t,
        None => Seq::empty(),
    }
}

/// The notification with an amount read from its text when none was given.
pub open spec fn with_amount(n: NotificationView) -> NotificationView {
    NotificationView {
        amount: if n.amount is None { amount_fallback(raw_title_text(n), n.raw_body) } else { n.amount },
        ..n
    }
}

/// The notification holds an amount greater than zero.
pub open spec fn has_positive_amount(n: NotificationView) -> bool {
    n.amount matches Some(a) && a.0 > 0
}

/// The notification with its type, pocket and title completed from its
/// text where they are missing.
pub open spec fn completed(n: NotificationView, ps: Seq<(Id, Seq<char>)>) -> NotificationView {
    let title = raw_title_text(n);
    NotificationView {
        type_: if n.type_ is None { Some(type_fallback(title, n.raw_body)) } else { n.type_ },
        pocket_id: if n.pocket_id is None { first_mentioned(ps, title + seq![' '] + n.raw_body) } else { n.pocket_id },
        title: if n.title is None {
            Some(match n.raw_title { Some(t) => t, None => "Notification Transaction"@ })
        } else {
            n.title
        },
        ..n
    }
}

/// The pocket chosen for the transaction: the one the text mentions when
/// the notification had none, else the one the model designated.
pub open spec fn chosen_pocket(
    n: NotificationView,
    ai: Result<Option<AiParsedNotification>, String>,
    ps: Seq<(Id, Seq<char>)>,
) -> Option<Id> {
    if n.pocket_id is None {
        first_mentioned(ps, raw_title_text(n) + seq![' '] + n.raw_body)
    } else {
        ai_pocket(ai, ps)
    }
}

/// How a notification is read and what is done with it, given what the
/// model returned and the user's pockets and categories:
/// - when the model finds no transaction, it is stored as ignored;
/// - otherwise, when no positive amount can be read (the model's, else one
///   from the text), it is stored as ignored;
/// - otherwise its type, pocket and title are completed from the text; when
///   the user has no pocket it is stored as pending;
/// - otherwise a pending transaction is recorded, in the chosen pocket or
///   else the first one, with the notification's time and raw body.
pub open spec fn ingest_outcome(
    n: NotificationView,
    ai: Result<Option<AiParsedNotification>, String>,
    ps: Seq<(Id, Seq<char>)>,
    cs: Seq<(Id, Seq<char>)>,
    r: IngestStep,
) -> bool {
    let base = after_ai(n, ai, ps, cs);
    let full = completed(with_amount(base), ps);
    if ignored_by_ai(ai) {
        r matches IngestStep::Store(m) && m@ == NotificationView { status: NotificationStatus::Ignored, ..n }
    } else if !has_positive_amount(with_amount(base)) {
        r matches IngestStep::Store(m) && m@ == NotificationView { status: NotificationStatus::Ignored, ..with_amount(base) }
    } else if ps.len() == 0 {
        r matches IngestStep::Store(m) && m@ == NotificationView { status: NotificationStatus::Pending, ..full }
    } else {
        r matches IngestStep::Record(m, t) && {
            &&& m@ == full
            &&& t.pocket_id == match chosen_pocket(base, ai, ps) { Some(p) => p, None => ps[0].0 }
            &&& t.category_id == ai_category(ai, cs)
            &&& Some(t.amount@) == full.amount
            &&& Some(t.type_@) == full.type_
            &&& Some(t.title@) == full.title
            &&& t.transaction_time == n.received_at
            &&& opt_text(t.description) == Some(n.raw_body)
            &&& t.destination_pocket_id == ai_destination(ai, ps)
            &&& t.status@ == "pending"@
        }
    }
}

fn match_name(name: &Option<String>, items: &Vec<Named>) -> (r: Option<Id>)
    ensures
        r == matched(*name, named_view(items@)),
{
    match name {
        Some(x) => find_by_name(items, x.as_str()),
        None => None,
    }
}

/// Reads one synced notification; see `ingest_outcome`. `ai` is what the
/// model returned for its title and body; `pockets` and `categories` are
/// the user's, by name.
pub fn prepare_ingest(
    n: NotificationInbox,
    ai: Result<Option<AiParsedNotification>, String>,
    pockets: &Vec<Named>,
    categories: &Vec<Named>,
) -> (r: IngestStep)
    ensures
        ingest_outcome(n@, ai, named_view(pockets@), named_view(categories@), r),
{
    let ghost ps = named_view(pockets@);
    let ghost cs = named_view(categories@);
    let ghost n0 = n@;
    let mut n = n;
    let mut pocket_id: Option<Id> = None;
    let mut category_id: Option<Id> = None;
    let mut destination_pocket_id: Option<Id> = None;
    let mut is_ignored = false;
    match ai {
        Ok(Some(d)) => {
            if !d.is_transaction {
                is_ignored = true;
            } else {
                pocket_id = match_name(&d.pocket, pockets);
                category_id = match_name(&d.category, categories);
                destination_pocket_id = match_name(&d.destination_pocket, pockets);
                n.amount = d.amount;
                n.type_ = d.transaction_type;
                n.pocket_id = pocket_id;
                n.category_id = category_id;
                n.destination_pocket_id = destination_pocket_id;
                n.title = d.title;
            }
        },
        Ok(None) => {
            is_ignored = true;
        },
        Err(_) => {},
    }
    proof {
        assert(is_ignored == ignored_by_ai(ai));
        assert(!is_ignored ==> n@ == after_ai(n0, ai, ps, cs));
        assert(pocket_id == ai_pocket(ai, ps));
        assert(category_id == ai_category(ai, cs));
        assert(destination_pocket_id == ai_destination(ai, ps));
    }
    if is_ignored {
        n.status = NotificationStatus::Ignored;
        return IngestStep::Store(n);
    }
    let ghost base = n@;
    let title: String = match &n.raw_title {
        Some(t) => copy_text(t),
        None => String::new(),
    };
    proof {
        assert(title@ == raw_title_text(base));
    }
    if n.amount.is_none() {
        n.amount = extract_amount_fallback(title.as_str(), n.raw_body.as_str());
    }
    let has_amount = match &n.amount {
        Some(a) => a.is_positive(),
        None => false,
    };
    proof {
        assert(n@ == with_amount(base));
    }
    if !has_amount {
        n.status = NotificationStatus::Ignored;
        return IngestStep::Store(n);
    }
    if n.type_.is_none() {
        n.type_ = Some(extract_type_fallback(title.as_str(), n.raw_body.as_str()));
    }
    if n.pocket_id.is_none() {
        let text = string_of(&join_with_space(title.as_str(), n.raw_body.as_str()));
        n.pocket_id = find_mentioned(pockets, text.as_str());
        pocket_id = n.pocket_id;
    }
    if n.title.is_none() {
        n.title = match &n.raw_title {
            Some(t) => Some(copy_text(t)),
            None => Some(String::from_str("Notification Transaction")),
        };
    }
    proof {
        assert(n@ == completed(with_amount(base), ps));
        assert(pocket_id == chosen_pocket(base, ai, ps));
    }
    if pockets.len() == 0 {
        n.status = NotificationStatus::Pending;
        return IngestStep::Store(n);
    }
    let final_pocket_id = match pocket_id {
        Some(p) => p,
        None => pockets[0].id,
    };
    let amount = match &n.amount {
        Some(a) => a.duplicate(),
        None => Amount::zero(),
    };
    let type_ = match &n.type_ {
        Some(t) => copy_text(t),
        None => String::from_str("expense"),
    };
    let tx_title = match &n.title {
        Some(t) => copy_text(t),
        None => String::from_str("Notification Transaction"),
    };
    let request = TransactionRequest {
        pocket_id: final_pocket_id,
        category_id,
        amount,
        type_,
        title: tx_title,
        transaction_time: n.received_at,
        destination_pocket_id,
        description: Some(copy_text(&n.raw_body)),
        status: String::from_str("pending"),
    };
    IngestStep::Record(n, request)
}

/// The notification once its transaction is recorded: linked to it and
/// processed.
pub fn link_transaction(n: NotificationInbox, transaction_id: Id) -> (r: NotificationInbox)
    ensures
        r@ == (NotificationView { transaction_id: Some(transaction_id), status: NotificationStatus::Processed, ..n@ }),
{
    NotificationInbox { transaction_id: Some(transaction_id), status: NotificationStatus::Processed, ..n }
}

/// A notification that the model finds no transaction in never yields a
/// transaction and is kept as ignored.
pub proof fn lemma_ignored_notification_records_nothing(
    n: NotificationView,
    ai: Result<Option<AiParsedNotification>, String>,
    ps: Seq<(Id, Seq<char>)>,
    cs: Seq<(Id, Seq<char>)>,
    r: IngestStep,
)
    requires
        ingest_outcome(n, ai, ps, cs, r),
        ignored_by_ai(ai) || !has_positive_amount(with_amount(after_ai(n, ai, ps, cs))),
    ensures
        r matches IngestStep::Store(m) && m@.status == NotificationStatus::Ignored,
{
}

/// Every transaction recorded from a notification is pending, has a
/// positive amount, is dated when the notification arrived and is
/// described by its raw body.
pub proof fn lemma_recorded_transaction_is_pending(
    n: NotificationView,
    ai: Result<Option<AiParsedNotification>, String>,
    ps: Seq<(Id, Seq<char>)>,
    cs: Seq<(Id, Seq<char>)>,
    m: NotificationInbox,
    t: TransactionRequest,
)
    requires
        ingest_outcome(n, ai, ps, cs, IngestStep::Record(m, t)),
    ensures
        t.status@ == "pending"@,
        t.amount@.0 > 0,
        t.transaction_time == n.received_at,
        opt_text(t.description) == Some(n.raw_body),
{
}


/// Message when a notification does not exist.
pub open spec fn notification_not_found_text() -> Seq<char> {
    "Notification not found"@
}

/// Checks that a looked-up notification exists and belongs to the user.
pub fn check_notification(found: Option<NotificationInbox>, user_id: Id) -> (r: Result<NotificationInbox, String>)
    ensures
        match found {
            None => r matches Err(e) && e@ == notification_not_found_text(),
            Some(n) => if n.user_id != user_id {
                r matches Err(e) && e@ == "Unauthorized notification access"@
            } else {
                r == Ok::<NotificationInbox, String>(n)
            },
        },
{
    match found {
        None => Err(String::from_str("Notification not found")),
        Some(n) => {
            if n.user_id != user_id {
                Err(String::from_str("Unauthorized notification access"))
            } else {
                Ok(n)
            }
        },
    }
}

/// What processing one stored notification does with the model's answer.
#[derive(Debug)]
pub enum ProcessDecision {
    /// Store the notification as ignored: the model says it is no
    /// transaction.
    StoreIgnored(NotificationInbox),
    /// Look for the transaction the model read among the user's pockets.
    Candidate(NotificationInbox, AiParsedNotification),
    /// Mark the notification ignored: the model returned nothing.
    MarkIgnored(Id),
    /// Mark the notification failed and report the model's error.
    MarkFailed(Id, String),
}

/// Decides what processing a stored notification does with the model's
/// answer.
pub fn decide_processing(n: NotificationInbox, ai: Result<Option<AiParsedNotification>, String>) -> (r: ProcessDecision)
    ensures
        match ai {
            Ok(Some(d)) => if !d.is_transaction {
                r matches ProcessDecision::StoreIgnored(m)
                    && m@ == (NotificationView { status: NotificationStatus::Ignored, ..n@ })
            } else {
                r == ProcessDecision::Candidate(n, d)
            },
            Ok(None) => r == ProcessDecision::MarkIgnored(n.id),
            Err(e) => r == ProcessDecision::MarkFailed(n.id, e),
        },
{
    match ai {
        Ok(Some(d)) => {
            if !d.is_transaction {
                ProcessDecision::StoreIgnored(NotificationInbox { status: NotificationStatus::Ignored, ..n })
            } else {
                ProcessDecision::Candidate(n, d)
            }
        },
        Ok(None) => ProcessDecision::MarkIgnored(n.id),
        Err(e) => ProcessDecision::MarkFailed(n.id, e),
    }
}

/// One day, in nanoseconds.
pub open spec fn day_nanos() -> int {
    86_400_000_000_000
}


/// A transaction read from a notification, with the window of one day
/// either side of its arrival in which a duplicate is looked for.
#[derive(Debug)]
pub struct Candidate {
    pub pocket_id: Id,
    pub category_id: Option<Id>,
    pub destination_pocket_id: Option<Id>,
    pub amount: Amount,
    pub type_: String,
    pub title: String,
    pub window_start: Timestamp,
    pub window_end: Timestamp,
}

/// The transaction the model read, placed among the user's pockets and
/// categories: in the pocket the model named (else the first pocket), with
/// the category and destination it named. There is none when the user has
/// no pocket.
pub fn candidate_for(n: &NotificationInbox, d: AiParsedNotification, pockets: &Vec<Named>, categories: &Vec<Named>) -> (r: Option<Candidate>)
    requires
        d.amount is Some,
        d.transaction_type is Some,
        d.title is Some,
        within_chrono_range(n.received_at - day_nanos()),
        within_chrono_range(n.received_at + day_nanos()),
    ensures
        pockets@.len() == 0 ==> r is None,
        pockets@.len() > 0 ==> (r matches Some(c) && {
            let ps = named_view(pockets@);
            &&& c.pocket_id == match d.pocket {
                Some(x) => match first_related(ps, x@) { Some(p) => p, None => ps[0].0 },
                None => ps[0].0,
            }
            &&& c.category_id == matched(d.category, named_view(categories@))
            &&& c.destination_pocket_id == matched(d.destination_pocket, ps)
            &&& c.amount == d.amount.unwrap()
            &&& c.type_ == d.transaction_type.unwrap()
            &&& c.title == d.title.unwrap()
            &&& c.window_start == n.received_at - day_nanos()
            &&& c.window_end == n.received_at + day_nanos()
        }),
{
    if pockets.len() == 0 {
        return None;
    }
    let pocket_id = match &d.pocket {
        Some(x) => match find_by_name(pockets, x.as_str()) {
            Some(p) => p,
            None => pockets[0].id,
        },
        None => pockets[0].id,
    };
    let category_id = match_name(&d.category, categories);
    let destination_pocket_id = match_name(&d.destination_pocket, pockets);
    let day: i128 = 86_400_000_000_000;
    let amount = match d.amount {
        Some(a) => a,
        None => Amount::zero(),
    };
    let type_ = match d.transaction_type {
        Some(t) => t,
        None => String::new(),
    };
    let title = match d.title {
        Some(t) => t,
        None => String::new(),
    };
    Some(Candidate {
        pocket_id,
        category_id,
        destination_pocket_id,
        amount,
        type_,
        title,
        window_start: n.received_at - day,
        window_end: n.received_at + day,
    })
}

/// The paging of the search for a duplicate: fifty transactions.
pub fn duplicate_search_page() -> (q: PaginationQuery)
    ensures
        q.page is None,
        q.limit == Some(50u32),
        q.search is None,
        q.sort is None,
        q.sort_order is None,
{
    PaginationQuery { page: None, limit: Some(50), search: None, sort: None, sort_order: None }
}

/// A stored transaction already records the candidate: same amount, and
/// either the same type in the same pocket, or a transfer into the pocket
/// for an income, or a transfer out of the pocket for an expense.
pub open spec fn is_duplicate(tx: Transaction, c: Candidate) -> bool {
    &&& same_value(tx.amount@, c.amount@)
    &&& {
        ||| (c.type_@ == "income"@ && tx.type_@ == "transfer"@ && tx.destination_pocket_id == Some(c.pocket_id))
        ||| (c.type_@ == "expense"@ && tx.type_@ == "transfer"@ && tx.pocket_id == c.pocket_id)
        ||| (tx.type_@ == c.type_@ && tx.pocket_id == c.pocket_id)
    }
}

fn duplicates(tx: &Transaction, c: &Candidate) -> (b: bool)
    ensures
        b == is_duplicate(*tx, *c),
{
    if !tx.amount.same_value_as(&c.amount) {
        return false;
    }
    if text_eq(c.type_.as_str(), "income") && text_eq(tx.type_.as_str(), "transfer")
        && tx.destination_pocket_id == Some(c.pocket_id) {
        return true;
    }
    if text_eq(c.type_.as_str(), "expense") && text_eq(tx.type_.as_str(), "transfer") && tx.pocket_id == c.pocket_id {
        return true;
    }
    text_eq(tx.type_.as_str(), c.type_.as_str()) && tx.pocket_id == c.pocket_id
}

/// The first of the listed transactions that already records the
/// candidate.
pub open spec fn first_duplicate(existing: Seq<Transaction>, c: Candidate) -> Option<Id> {
    let k = first_index(existing.len() as int, |i: int| is_duplicate(existing[i], c));
    if k < 0 { None } else { Some(existing[k].id) }
}

/// The first of the listed transactions that already records the
/// candidate, if any.
pub fn find_duplicate(existing: &Vec<Transaction>, c: &Candidate) -> (r: Option<Id>)
    ensures
        r == first_duplicate(existing@, *c),
{
    let ghost p = |i: int| is_duplicate(existing@[i], *c);
    let mut i: usize = 0;
    while i < existing.len()
        invariant
            i <= existing@.len(),
            p == (|i: int| is_duplicate(existing@[i], *c)),
            forall|j: int| 0 <= j < i ==> !#[trigger] p(j),
        decreases existing@.len() - i,
    {
        if duplicates(&existing[i], c) {
            proof {
                assert(p(i as int));
                lemma_first_index_found(existing@.len() as int, p, i as int);
            }
            return Some(existing[i].id);
        }
        proof {
            assert(!p(i as int));
        }
        i = i + 1;
    }
    proof {
        lemma_first_index_none(existing@.len() as int, p);
    }
    None
}

/// A listed transaction of the candidate's value is found as a duplicate
/// when it has the candidate's type and pocket, when it is a transfer into
/// the candidate's pocket and the candidate an income, or when it is a
/// transfer out of the candidate's pocket and the candidate an expense; the
/// first such transaction in the listing is the one found.
pub proof fn lemma_listed_record_is_found(existing: Seq<Transaction>, c: Candidate, i: int)
    requires
        0 <= i < existing.len(),
        same_value(existing[i].amount@, c.amount@),
        (existing[i].type_@ == c.type_@ && existing[i].pocket_id == c.pocket_id)
            || (c.type_@ == "income"@ && existing[i].type_@ == "transfer"@
                && existing[i].destination_pocket_id == Some(c.pocket_id))
            || (c.type_@ == "expense"@ && existing[i].type_@ == "transfer"@
                && existing[i].pocket_id == c.pocket_id),
    ensures
        first_duplicate(existing, c) is Some,
        (forall|j: int| 0 <= j < i ==> !is_duplicate(#[trigger] existing[j], c))
            ==> first_duplicate(existing, c) == Some(existing[i].id),
{
    let p = |j: int| is_duplicate(existing[j], c);
    assert(p(i));
    lemma_first_index_exists(existing.len() as int, p, i);
    if forall|j: int| 0 <= j < i ==> !is_duplicate(#[trigger] existing[j], c) {
        assert forall|j: int| 0 <= j < i implies !#[trigger] p(j) by {
            assert(!is_duplicate(existing[j], c));
        }
        lemma_first_index_found(existing.len() as int, p, i);
    }
}

/// The duplicate found for a candidate is a listed transaction of the
/// candidate's value that has its type and pocket, or is a transfer into
/// its pocket for an income, or a transfer out of its pocket for an
/// expense; when none is found, no listed transaction is such.
pub proof fn lemma_found_duplicate_records_candidate(existing: Seq<Transaction>, c: Candidate)
    ensures
        first_duplicate(existing, c) matches Some(id) ==> exists|i: int| {
            &&& 0 <= i < existing.len()
            &&& #[trigger] existing[i].id == id
            &&& same_value(existing[i].amount@, c.amount@)
            &&& {
                ||| (existing[i].type_@ == c.type_@ && existing[i].pocket_id == c.pocket_id)
                ||| (c.type_@ == "income"@ && existing[i].type_@ == "transfer"@
                    && existing[i].destination_pocket_id == Some(c.pocket_id))
                ||| (c.type_@ == "expense"@ && existing[i].type_@ == "transfer"@
                    && existing[i].pocket_id == c.pocket_id)
            }
        },
        first_duplicate(existing, c) is None ==> forall|i: int| 0 <= i < existing.len() ==> !{
            &&& same_value((#[trigger] existing[i]).amount@, c.amount@)
            &&& {
                ||| (existing[i].type_@ == c.type_@ && existing[i].pocket_id == c.pocket_id)
                ||| (c.type_@ == "income"@ && existing[i].type_@ == "transfer"@
                    && existing[i].destination_pocket_id == Some(c.pocket_id))
                ||| (c.type_@ == "expense"@ && existing[i].type_@ == "transfer"@
                    && existing[i].pocket_id == c.pocket_id)
            }
        },
{
    let p = |j: int| is_duplicate(existing[j], c);
    let n = existing.len() as int;
    crate::search::lemma_first_index_is_first(n, p);
    let k = first_index(n, p);
    if k >= 0 {
        assert(crate::search::is_first(n, p, k));
        assert(p(k));
        assert(existing[k].id == existing[k].id);
    } else {
        assert forall|i: int| 0 <= i < existing.len() implies !is_duplicate(#[trigger] existing[i], c) by {
            if is_duplicate(existing[i], c) {
                assert(p(i));
                lemma_first_index_exists(n, p, i);
            }
        }
    }
}

/// A transaction recorded for a candidate is its duplicate: once
/// processing a notification has recorded the transaction of
/// `candidate_request`, a listing that holds it makes processing the same
/// reading again find a duplicate and record nothing more.
pub proof fn lemma_recorded_candidate_is_duplicate(existing: Seq<Transaction>, c: Candidate, i: int)
    requires
        0 <= i < existing.len(),
        existing[i].pocket_id == c.pocket_id,
        existing[i].amount == c.amount,
        existing[i].type_@ == c.type_@,
    ensures
        is_duplicate(existing[i], c),
        first_duplicate(existing, c) is Some,
{
    let p = |j: int| is_duplicate(existing[j], c);
    assert(p(i));
    lemma_first_index_exists(existing.len() as int, p, i);
}

/// The resolved transaction to record for a candidate that has no
/// duplicate: dated when the notification arrived, described by its raw
/// body.
pub fn candidate_request(c: Candidate, n: &NotificationInbox) -> (t: TransactionRequest)
    ensures
        t.pocket_id == c.pocket_id,
        t.category_id == c.category_id,
        t.amount == c.amount,
        t.type_ == c.type_,
        t.title == c.title,
        t.transaction_time == n.received_at,
        t.destination_pocket_id == c.destination_pocket_id,
        opt_text(t.description) == Some(n.raw_body@),
        t.status@ == "resolved"@,
{
    TransactionRequest {
        pocket_id: c.pocket_id,
        category_id: c.category_id,
        amount: c.amount,
        type_: c.type_,
        title: c.title,
        transaction_time: n.received_at,
        destination_pocket_id: c.destination_pocket_id,
        description: Some(copy_text(&n.raw_body)),
        status: String::from_str("resolved"),
    }
}

} // verus!
