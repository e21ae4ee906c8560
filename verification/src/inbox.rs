use vstd::prelude::*;
use crate::ids::Id;
use crate::notifications::{NotificationInbox, NotificationView, NotificationStatus, status_named};
use crate::pagination::{PaginationQuery, offset_defined, offset_of, limit_of};
use crate::search::{first_index, is_first, lemma_first_index_found, lemma_first_index_is_first, lemma_first_index_none};
use crate::text::{lowercase, lowercase_text, chars_of, contains_chars, has_substring};

verus! {

/// Notifications as plain values.
pub open spec fn views(s: Seq<NotificationInbox>) -> Seq<NotificationView> {
    s.map_values(|n: NotificationInbox| n@)
}

/// The position of the first notification with the identifier, or -1.
pub open spec fn position_of(s: Seq<NotificationView>, id: Id) -> int {
    first_index(s.len() as int, |i: int| s[i].id == id)
}

/// The inbox after storing a notification: it replaces the first one with
/// its identifier, or comes last when there is none.
pub open spec fn stored(s: Seq<NotificationView>, v: NotificationView) -> Seq<NotificationView> {
    let k = position_of(s, v.id);
    if k >= 0 { s.update(k, v) } else { s.push(v) }
}

/// The notification with a new status (named by a text) and transaction.
pub open spec fn restatused(v: NotificationView, status: Seq<char>, transaction_id: Option<Id>) -> NotificationView {
    NotificationView { status: status_named(status), transaction_id, ..v }
}

/// A notification is still open: neither processed nor ignored.
pub open spec fn is_unresolved(v: NotificationView) -> bool {
    v.status != NotificationStatus::Processed && v.status != NotificationStatus::Ignored
}

/// A notification's raw body contains the search text, ignoring case; every
/// notification matches when there is no search text.
pub open spec fn matches_search(v: NotificationView, search: Option<Seq<char>>) -> bool {
    match search {
        Some(q) => has_substring(lowercase_text(v.raw_body), lowercase_text(q)),
        None => true,
    }
}

/// The open notifications that match the search, in inbox order.
pub open spec fn unresolved_matching(s: Seq<NotificationView>, search: Option<Seq<char>>) -> Seq<NotificationView> {
    s.filter(|v: NotificationView| is_unresolved(v) && matches_search(v, search))
}

/// Where a notification goes among notifications sorted newest first:
/// after every one received no earlier than it.
pub open spec fn insert_position(s: Seq<NotificationView>, v: NotificationView) -> int {
    let k = first_index(s.len() as int, |i: int| s[i].received_at < v.received_at);
    if k < 0 { s.len() as int } else { k }
}

/// Notifications sorted newest first; notifications received at the same
/// instant keep their order.
pub open spec fn newest_first(s: Seq<NotificationView>) -> Seq<NotificationView>
    decreases s.len(),
{
    if s.len() == 0 {
        s
    } else {
        let sorted = newest_first(s.drop_last());
        sorted.insert(insert_position(sorted, s.last()), s.last())
    }
}

/// The page that starts `offset` items in and holds at most `limit` items.
pub open spec fn page_slice(s: Seq<NotificationView>, offset: int, limit: int) -> Seq<NotificationView> {
    let lo = if offset < s.len() { offset } else { s.len() as int };
    let hi = if offset + limit < s.len() { offset + limit } else { s.len() as int };
    s.subrange(lo, hi)
}

/// The search text of a query, as plain characters.
pub open spec fn search_text(q: PaginationQuery) -> Option<Seq<char>> {
    match q.search {
        Some(x) => Some(x@),
        None => None,
    }
}

/// Notifications kept in memory, in the order they were first stored.
#[derive(Debug)]
pub struct InMemoryNotificationRepository {
    notifications: Vec<NotificationInbox>,
}

impl View for InMemoryNotificationRepository {
    type V = Seq<NotificationView>;

    closed spec fn view(&self) -> Seq<NotificationView> {
        views(self.notifications@)
    }
}

fn matches_query(n: &NotificationInbox, search: &Option<Vec<char>>, ghost_search: Ghost<Option<Seq<char>>>) -> (b: bool)
    requires
        match (search, ghost_search@) {
            (Some(q), Some(g)) => q@ == lowercase_text(g),
            (None, None) => true,
            _ => false,
        },
    ensures
        b == (is_unresolved(n@) && matches_search(n@, ghost_search@)),
{
    let open = match n.status {
        NotificationStatus::Processed => false,
        NotificationStatus::Ignored => false,
        _ => true,
    };
    if !open {
        return false;
    }
    match search {
        Some(q) => {
            let body = lowercase(n.raw_body.as_str());
            let b = chars_of(body.as_str());
            contains_chars(&b, q)
        },
        None => true,
    }
}

impl InMemoryNotificationRepository {
    /// An empty inbox.
    pub fn new() -> (r: InMemoryNotificationRepository)
        ensures
            r@ == Seq::<NotificationView>::empty(),
    {
        let r = InMemoryNotificationRepository { notifications: Vec::new() };
        proof {
            assert(r@ =~= Seq::<NotificationView>::empty());
        }
        r
    }

    fn locate(&self, id: Id) -> (r: Option<usize>)
        ensures
            match r {
                Some(k) => k as int == position_of(self@, id) && k < self@.len(),
                None => position_of(self@, id) == -1,
            },
    {
        let ghost s = self@;
        let ghost p = |i: int| s[i].id == id;
        let mut i: usize = 0;
        while i < self.notifications.len()
            invariant
                s == views(self.notifications@),
                i <= self.notifications@.len(),
                p == (|i: int| s[i].id == id),
                forall|j: int| 0 <= j < i ==> !#[trigger] p(j),
            decreases self.notifications@.len() - i,
        {
            if self.notifications[i].id == id {
                proof {
                    assert(p(i as int));
                    lemma_first_index_found(s.len() as int, p, i as int);
                }
                return Some(i);
            }
            proof {
                assert(!p(i as int));
            }
            i = i + 1;
        }
        proof {
            lemma_first_index_none(s.len() as int, p);
        }
        None
    }

    /// The first notification with the identifier, if any.
    pub fn find_by_id(&self, id: Id) -> (r: Option<NotificationInbox>)
        ensures
            position_of(self@, id) >= 0 ==> (r matches Some(n) && n@ == self@[position_of(self@, id)]),
            position_of(self@, id) < 0 ==> r is None,
    {
        match self.locate(id) {
            Some(k) => Some(self.notifications[k].duplicate()),
            None => None,
        }
    }

    /// Stores a notification: it replaces the first one with its
    /// identifier, or is added last. Gives back what was stored.
    pub fn save(&mut self, notification: NotificationInbox) -> (r: NotificationInbox)
        ensures
            final(self)@ == stored(old(self)@, notification@),
            r@ == notification@,
    {
        let copy = notification.duplicate();
        let ghost v = notification@;
        match self.locate(notification.id) {
            Some(k) => {
                self.notifications.remove(k);
                self.notifications.insert(k, notification);
                proof {
                    assert(self@ =~= stored(old(self)@, v));
                }
            },
            None => {
                self.notifications.push(notification);
                proof {
                    assert(self@ =~= stored(old(self)@, v));
                }
            },
        }
        copy
    }

    /// Sets the status (named by a text, unknown texts meaning pending) and
    /// the transaction of the first notification with the identifier;
    /// refused when there is none.
    pub fn update_status(&mut self, id: Id, status: String, transaction_id: Option<Id>) -> (r: Result<(), String>)
        ensures
            position_of(old(self)@, id) >= 0 ==> r is Ok && final(self)@ == old(self)@.update(
                position_of(old(self)@, id),
                restatused(old(self)@[position_of(old(self)@, id)], status@, transaction_id),
            ),
            position_of(old(self)@, id) < 0 ==> (r matches Err(e) && e@ == "Notification not found"@)
                && final(self)@ == old(self)@,
    {
        match self.locate(id) {
            Some(k) => {
                let n = self.notifications.remove(k);
                let ghost before = n@;
                let updated = NotificationInbox {
                    status: NotificationStatus::from(status),
                    transaction_id,
                    ..n
                };
                self.notifications.insert(k, updated);
                proof {
                    assert(self@ =~= old(self)@.update(k as int, restatused(before, status@, transaction_id)));
                }
                Ok(())
            },
            None => Err(String::from_str("Notification not found")),
        }
    }

    /// The page of open notifications whose raw body contains the search
    /// text (ignoring case), newest first, and how many such notifications
    /// there are in all.
    pub fn find_unresolved(&self, pagination: PaginationQuery) -> (r: (Vec<NotificationInbox>, u64))
        requires
            offset_defined(pagination),
        ensures
            r.1 == unresolved_matching(self@, search_text(pagination)).len(),
            views(r.0@) == page_slice(
                newest_first(unresolved_matching(self@, search_text(pagination))),
                offset_of(pagination),
                limit_of(pagination) as int,
            ),
    {
        let ghost s = self@;
        let ghost search = search_text(pagination);
        let ghost pred = |v: NotificationView| is_unresolved(v) && matches_search(v, search);
        let query: Option<Vec<char>> = match &pagination.search {
            Some(q) => {
                let lq = lowercase(q.as_str());
                Some(chars_of(lq.as_str()))
            },
            None => None,
        };
        let mut filtered: Vec<NotificationInbox> = Vec::new();
        let mut i: usize = 0;
        while i < self.notifications.len()
            invariant
                s == views(self.notifications@),
                i <= self.notifications@.len(),
                pred == (|v: NotificationView| is_unresolved(v) && matches_search(v, search)),
                match (query, search) {
                    (Some(q), Some(g)) => q@ == lowercase_text(g),
                    (None, None) => true,
                    _ => false,
                },
                views(filtered@) == s.subrange(0, i as int).filter(pred),
            decreases self.notifications@.len() - i,
        {
            let keep = matches_query(&self.notifications[i], &query, Ghost(search));
            proof {
                reveal_with_fuel(Seq::<_>::filter, 1);
                let q = s.subrange(0, i + 1);
                assert(q.drop_last() =~= s.subrange(0, i as int));
                assert(q.last() == self.notifications@[i as int]@);
            }
            if keep {
                filtered.push(self.notifications[i].duplicate());
                proof {
                    assert(views(filtered@) =~= s.subrange(0, i + 1).filter(pred));
                }
            } else {
                proof {
                    assert(views(filtered@) =~= s.subrange(0, i + 1).filter(pred));
                }
            }
            i = i + 1;
        }
        proof {
            assert(s.subrange(0, s.len() as int) =~= s);
        }
        let total = filtered.len() as u64;
        let sorted = sort_newest_first(filtered);
        let offset = pagination.get_offset() as usize;
        let limit = pagination.get_limit() as usize;
        let page = take_page(sorted, offset, limit);
        (page, total)
    }
}

/// Notifications sorted newest first, stably.
fn sort_newest_first(items: Vec<NotificationInbox>) -> (r: Vec<NotificationInbox>)
    ensures
        views(r@) == newest_first(views(items@)),
{
    let ghost all = views(items@);
    let mut source = items;
    let mut rest: Vec<NotificationInbox> = Vec::new();
    while source.len() > 0
        invariant
            views(source@) == all.subrange(0, source@.len() as int),
            rest@.len() + source@.len() == all.len(),
            forall|j: int| 0 <= j < rest@.len() ==> (#[trigger] rest@[j])@ == all[all.len() - 1 - j],
        decreases source@.len(),
    {
        let ghost m = source@.len();
        let ghost before = source@;
        let t = source.pop().unwrap();
        proof {
            assert(t == before[m - 1]);
            assert(views(before)[m - 1] == t@);
            assert(t@ == all[m - 1]);
            assert(source@ =~= before.subrange(0, m - 1));
        }
        rest.push(t);
        proof {
            assert(views(source@) =~= all.subrange(0, source@.len() as int));
        }
    }
    let mut out: Vec<NotificationInbox> = Vec::new();
    proof {
        assert(all.subrange(0, 0) =~= Seq::<NotificationView>::empty());
        assert(views(out@) =~= newest_first(all.subrange(0, 0)));
    }
    while rest.len() > 0
        invariant
            rest@.len() <= all.len(),
            forall|j: int| 0 <= j < rest@.len() ==> (#[trigger] rest@[j])@ == all[all.len() - 1 - j],
            views(out@) == newest_first(all.subrange(0, all.len() - rest@.len())),
        decreases rest@.len(),
    {
        let ghost done = all.len() - rest@.len();
        let x = rest.pop().unwrap();
        let ghost sorted = views(out@);
        proof {
            assert(x@ == all[done]);
        }
        let pos = insert_index(&out, &x);
        out.insert(pos, x);
        proof {
            let prefix = all.subrange(0, done + 1);
            assert(prefix.drop_last() =~= all.subrange(0, done));
            assert(prefix.last() == x@);
            assert(views(out@) =~= sorted.insert(pos as int, x@));
        }
    }
    proof {
        assert(all.subrange(0, all.len() as int) =~= all);
    }
    out
}

/// Where a notification goes among notifications sorted newest first.
fn insert_index(sorted: &Vec<NotificationInbox>, x: &NotificationInbox) -> (r: usize)
    ensures
        r as int == insert_position(views(sorted@), x@),
        r <= sorted@.len(),
{
    let ghost s = views(sorted@);
    let ghost p = |i: int| s[i].received_at < x@.received_at;
    let mut i: usize = 0;
    while i < sorted.len()
        invariant
            s == views(sorted@),
            i <= sorted@.len(),
            p == (|i: int| s[i].received_at < x@.received_at),
            forall|j: int| 0 <= j < i ==> !#[trigger] p(j),
        decreases sorted@.len() - i,
    {
        if sorted[i].received_at < x.received_at {
            proof {
                assert(p(i as int));
                lemma_first_index_found(s.len() as int, p, i as int);
            }
            return i;
        }
        proof {
            assert(!p(i as int));
        }
        i = i + 1;
    }
    proof {
        lemma_first_index_none(s.len() as int, p);
    }
    i
}

/// The items from `offset` on, at most `limit` of them.
fn take_page(items: Vec<NotificationInbox>, offset: usize, limit: usize) -> (r: Vec<NotificationInbox>)
    ensures
        views(r@) == page_slice(views(items@), offset as int, limit as int),
{
    let ghost all = views(items@);
    let mut items = items;
    let len = items.len();
    if offset >= len {
        let r: Vec<NotificationInbox> = Vec::new();
        proof {
            assert(views(r@) =~= page_slice(all, offset as int, limit as int));
        }
        return r;
    }
    let mut tail = items.split_off(offset);
    let keep = if limit >= len - offset { len - offset } else { limit };
    let _rest = tail.split_off(keep);
    proof {
        assert(views(tail@) =~= page_slice(all, offset as int, limit as int));
    }
    tail
}

/// Storing a notification and then looking up its identifier finds it.
pub proof fn lemma_save_then_find(s: Seq<NotificationView>, v: NotificationView)
    ensures
        position_of(stored(s, v), v.id) >= 0,
        stored(s, v)[position_of(stored(s, v), v.id)] == v,
{
    let k = position_of(s, v.id);
    let p = |i: int| s[i].id == v.id;
    let t = stored(s, v);
    let q = |i: int| t[i].id == v.id;
    if k >= 0 {
        assert(crate::search::is_first(s.len() as int, p, k));
        assert(forall|j: int| 0 <= j < k ==> !#[trigger] q(j)) by {
            assert forall|j: int| 0 <= j < k implies !#[trigger] q(j) by {
                assert(!p(j));
            }
        }
        lemma_first_index_found(t.len() as int, q, k);
    } else {
        assert forall|j: int| 0 <= j < s.len() implies !#[trigger] p(j) by {
            if p(j) {
                let w = choose|w: int| crate::search::is_first(s.len() as int, p, w);
                assert(exists|w: int| crate::search::is_first(s.len() as int, p, w)) by {
                    lemma_some_first(s.len() as int, p, j);
                }
            }
        }
        assert(forall|j: int| 0 <= j < s.len() ==> !#[trigger] q(j)) by {
            assert forall|j: int| 0 <= j < s.len() implies !#[trigger] q(j) by {
                assert(!p(j));
            }
        }
        lemma_first_index_found(t.len() as int, q, s.len() as int);
    }
}

/// Where `p` holds somewhere below `n`, it has a first position.
proof fn lemma_some_first(n: int, p: spec_fn(int) -> bool, j: int)
    requires
        0 <= j < n,
        p(j),
    ensures
        exists|w: int| crate::search::is_first(n, p, w),
    decreases j,
{
    if forall|i: int| 0 <= i < j ==> !#[trigger] p(i) {
        assert(crate::search::is_first(n, p, j));
    } else {
        let i = choose|i: int| 0 <= i < j && #[trigger] p(i);
        lemma_some_first(n, p, i);
    }
}

/// Setting a notification's status and then looking it up shows the new
/// status and transaction.
pub proof fn lemma_update_status_then_find(s: Seq<NotificationView>, id: Id, status: Seq<char>, transaction_id: Option<Id>)
    requires
        position_of(s, id) >= 0,
    ensures
        ({
            let k = position_of(s, id);
            let t = s.update(k, restatused(s[k], status, transaction_id));
            &&& position_of(t, id) == k
            &&& t[k].status == status_named(status)
            &&& t[k].transaction_id == transaction_id
        }),
{
    let k = position_of(s, id);
    let p = |i: int| s[i].id == id;
    let t = s.update(k, restatused(s[k], status, transaction_id));
    let q = |i: int| t[i].id == id;
    assert(crate::search::is_first(s.len() as int, p, k));
    assert forall|j: int| 0 <= j < k implies !#[trigger] q(j) by {
        assert(!p(j));
    }
    lemma_first_index_found(t.len() as int, q, k);
}

/// Later notifications come first.
pub open spec fn sorted_newest_first(s: Seq<NotificationView>) -> bool {
    forall|i: int, j: int| 0 <= i < j < s.len() ==> s[i].received_at >= s[j].received_at
}

/// Sorting newest first keeps every notification, as often as it occurs,
/// and puts later ones before earlier ones.
pub proof fn lemma_newest_first_sorts(s: Seq<NotificationView>)
    ensures
        sorted_newest_first(newest_first(s)),
        newest_first(s).to_multiset() == s.to_multiset(),
    decreases s.len(),
{
    if s.len() == 0 {
        return;
    }
    let rest = s.drop_last();
    let x = s.last();
    lemma_newest_first_sorts(rest);
    let t = newest_first(rest);
    let p = |i: int| t[i].received_at < x.received_at;
    let k = insert_position(t, x);
    lemma_first_index_is_first(t.len() as int, p);
    if first_index(t.len() as int, p) >= 0 {
        assert(is_first(t.len() as int, p, k));
    }
    assert(0 <= k <= t.len());
    assert forall|i: int| 0 <= i < k implies t[i].received_at >= x.received_at by {
        if first_index(t.len() as int, p) >= 0 {
            assert(!p(i));
        } else {
            if p(i) {
                assert(is_first(t.len() as int, p, first_index(t.len() as int, p))) by {
                    crate::search::lemma_first_index_exists(t.len() as int, p, i);
                }
            }
        }
    }
    assert(k < t.len() ==> t[k].received_at < x.received_at);
    let r = t.insert(k, x);
    t.insert_ensures(k, x);
    assert(r == newest_first(s));
    assert forall|i: int, j: int| 0 <= i < j < r.len() implies r[i].received_at >= r[j].received_at by {
        if j < k {
            assert(r[i] == t[i] && r[j] == t[j]);
        } else if j == k {
            assert(r[i] == t[i]);
        } else if i < k {
            assert(r[i] == t[i]);
            assert(r[j] == t[j - 1]);
        } else if i == k {
            assert(r[j] == t[j - 1]);
            assert(t[k].received_at >= t[j - 1].received_at || k == j - 1);
        } else {
            assert(r[i] == t[i - 1] && r[j] == t[j - 1]);
        }
    }
    vstd::seq_lib::to_multiset_insert(t, k, x);
    vstd::seq_lib::to_multiset_build(rest, x);
    assert(rest.push(x) =~= s);
}


/// How often a notification is among the open ones that match the search:
/// as often as the inbox holds it when it is pending or has failed and
/// matches, never otherwise.
proof fn lemma_unresolved_count(s: Seq<NotificationView>, search: Option<Seq<char>>, v: NotificationView)
    ensures
        unresolved_matching(s, search).to_multiset().count(v) == if (v.status == NotificationStatus::Pending
            || v.status == NotificationStatus::Failed) && matches_search(v, search) {
            s.to_multiset().count(v)
        } else {
            0
        },
    decreases s.len(),
{
    broadcast use vstd::multiset::group_multiset_axioms;
    reveal_with_fuel(Seq::<_>::filter, 1);
    if s.len() == 0 {
        assert(unresolved_matching(s, search) =~= s);
        s.to_multiset_ensures();
        assert(!s.contains(v));
    } else {
        let rest = s.drop_last();
        let x = s.last();
        lemma_unresolved_count(rest, search, v);
        assert(rest.push(x) =~= s);
        vstd::seq_lib::to_multiset_build(rest, x);
        assert(s.to_multiset().count(v) == rest.to_multiset().count(v) + if x == v { 1int } else { 0int });
        let fr = unresolved_matching(rest, search);
        assert(is_unresolved(v) <==> (v.status == NotificationStatus::Pending || v.status == NotificationStatus::Failed));
        if is_unresolved(x) && matches_search(x, search) {
            assert(unresolved_matching(s, search) =~= fr.push(x));
            vstd::seq_lib::to_multiset_build(fr, x);
            assert(unresolved_matching(s, search).to_multiset().count(v) == fr.to_multiset().count(v) + if x == v { 1int } else { 0int });
        } else {
            assert(unresolved_matching(s, search) =~= fr);
        }
    }
}

/// The unresolved listing, before it is cut into pages, holds every
/// notification that is pending or has failed and whose body matches the
/// search, as often as the inbox holds it, and nothing else: a processed or
/// ignored notification never appears. The total it reports is the length
/// of that listing.
pub proof fn lemma_unresolved_listing_holds_open_notifications(
    s: Seq<NotificationView>,
    search: Option<Seq<char>>,
    v: NotificationView,
)
    ensures
        ({
            let listed = newest_first(unresolved_matching(s, search));
            let open = v.status == NotificationStatus::Pending || v.status == NotificationStatus::Failed;
            let found = match search {
                Some(q) => has_substring(lowercase_text(v.raw_body), lowercase_text(q)),
                None => true,
            };
            &&& listed.to_multiset().count(v) == if open && found { s.to_multiset().count(v) } else { 0 }
            &&& listed.len() == unresolved_matching(s, search).len()
            &&& s.contains(v) && open && found ==> listed.contains(v)
        }),
{
    let u = unresolved_matching(s, search);
    lemma_newest_first_sorts(u);
    lemma_unresolved_count(s, search, v);
    u.to_multiset_ensures();
    newest_first(u).to_multiset_ensures();
    s.to_multiset_ensures();
}

} // verus!
