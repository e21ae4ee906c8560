use mobile_money_backend::ai::AiParsedNotification;
use mobile_money_backend::amount::Amount;
use mobile_money_backend::extraction::{
    extract_amount_fallback, extract_type_fallback, find_by_name, find_containing, find_mentioned, Named,
};
use mobile_money_backend::inbox::InMemoryNotificationRepository;
use mobile_money_backend::notifications::{
    candidate_for, candidate_request, check_notification, decide_processing, duplicate_search_page,
    find_duplicate, link_transaction, new_notification, prepare_ingest, CreateNotificationRequest, IngestStep,
    NotificationInbox, NotificationResponse, NotificationStatus, ProcessDecision,
};
use mobile_money_backend::pagination::PaginationQuery;
use mobile_money_backend::transactions::Transaction;

const USER: u128 = 42;
const T0: i128 = 1_700_000_000_000_000_000;

fn note(id: u128, title: Option<&str>, body: &str, at: i128) -> NotificationInbox {
    new_notification(
        id,
        USER,
        CreateNotificationRequest {
            app_package: "id.jago".to_string(),
            raw_title: title.map(|t| t.to_string()),
            raw_body: body.to_string(),
        },
        at,
    )
}

fn named(id: u128, name: &str) -> Named {
    Named { id, name: name.to_string() }
}

fn reading(is_tx: bool, amount: Option<&str>, type_: Option<&str>, title: Option<&str>, pocket: Option<&str>)
    -> AiParsedNotification {
    AiParsedNotification {
        is_transaction: is_tx,
        amount: amount.map(|a| Amount::parse(a).unwrap()),
        transaction_type: type_.map(|t| t.to_string()),
        title: title.map(|t| t.to_string()),
        pocket: pocket.map(|p| p.to_string()),
        category: Some("food".to_string()),
        destination_pocket: None,
    }
}

fn page(limit: u32, page: u32, search: Option<&str>) -> PaginationQuery {
    PaginationQuery {
        page: Some(page),
        limit: Some(limit),
        search: search.map(|s| s.to_string()),
        sort: None,
        sort_order: None,
    }
}

#[test]
fn status_text_round_trip() {
    for s in [
        NotificationStatus::Pending,
        NotificationStatus::Processed,
        NotificationStatus::Failed,
        NotificationStatus::Ignored,
    ] {
        assert_eq!(NotificationStatus::from(s.to_string()), s);
    }
    assert_eq!(NotificationStatus::Ignored.to_string(), "ignored");
    assert_eq!(NotificationStatus::from("whatever".to_string()), NotificationStatus::Pending);
}

#[test]
fn new_notification_is_pending_and_unread() {
    let n = note(1, Some("Jago"), "Rp 10.000", T0);
    assert_eq!(n.status, NotificationStatus::Pending);
    assert!(n.amount.is_none() && n.title.is_none() && n.transaction_id.is_none());
    let r = NotificationResponse::from(n);
    assert_eq!(r.status, "pending");
    assert!(r.amount.is_none());
}

#[test]
fn amount_fallback_reads_rupiah() {
    let a = extract_amount_fallback("Jago", "Transfer Rp 50.000 ke Tokopedia").unwrap();
    assert!(a.same_value_as(&Amount::parse("50000").unwrap()));
    let b = extract_amount_fallback("", "Pembayaran RP1.250,50 berhasil").unwrap();
    assert_eq!(b.to_text(), "1250.50");
}

#[test]
fn amount_fallback_reads_grouped_numbers() {
    let a = extract_amount_fallback("Dana", "Anda menerima 80.000 dari Budi").unwrap();
    assert!(a.same_value_as(&Amount::parse("80000").unwrap()));
    assert!(extract_amount_fallback("Promo", "Diskon 50 persen").is_none());
}

#[test]
fn type_fallback_reads_keywords() {
    assert_eq!(extract_type_fallback("Uang Masuk", "dari Budi"), "income");
    assert_eq!(extract_type_fallback("", "Anda MENERIMA transfer"), "income");
    assert_eq!(extract_type_fallback("Kirim uang", "ke Budi"), "transfer");
    assert_eq!(extract_type_fallback("Pembayaran", "QRIS Indomaret"), "expense");
}

#[test]
fn names_match_either_way_ignoring_case() {
    let items = vec![named(1, "Bank Jago"), named(2, "GoPay")];
    assert_eq!(find_by_name(&items, "jago"), Some(1));
    assert_eq!(find_by_name(&items, "GOPAY Wallet"), Some(2));
    assert_eq!(find_by_name(&items, "OVO"), None);
    assert_eq!(find_containing(&items, "jago"), Some(1));
    assert_eq!(find_containing(&items, "GOPAY Wallet"), None);
    assert_eq!(find_mentioned(&items, "Top up GoPay berhasil"), Some(2));
}

#[test]
fn ingest_ignores_what_the_model_rejects() {
    let n = note(1, Some("OTP"), "Kode OTP 123456", T0);
    let step = prepare_ingest(n, Ok(Some(reading(false, None, None, None, None))), &vec![named(7, "Jago")], &vec![]);
    match step {
        IngestStep::Store(m) => {
            assert_eq!(m.status, NotificationStatus::Ignored);
            assert!(m.amount.is_none());
        },
        _ => panic!("expected the notification to be stored"),
    }
    let n = note(2, None, "Rp 5.000", T0);
    match prepare_ingest(n, Ok(None), &vec![named(7, "Jago")], &vec![]) {
        IngestStep::Store(m) => assert_eq!(m.status, NotificationStatus::Ignored),
        _ => panic!("expected the notification to be stored"),
    }
}

#[test]
fn ingest_without_amount_is_ignored() {
    let n = note(3, Some("Info"), "Saldo anda aman", T0);
    match prepare_ingest(n, Err("offline".to_string()), &vec![named(7, "Jago")], &vec![]) {
        IngestStep::Store(m) => assert_eq!(m.status, NotificationStatus::Ignored),
        _ => panic!("expected the notification to be stored"),
    }
}

#[test]
fn ingest_falls_back_to_the_text_when_the_model_fails() {
    let n = note(4, Some("GoPay"), "Kirim Rp 25.000 ke Budi", T0);
    let pockets = vec![named(7, "Jago"), named(8, "gopay")];
    match prepare_ingest(n, Err("timeout".to_string()), &pockets, &vec![]) {
        IngestStep::Record(m, t) => {
            assert_eq!(m.type_.as_deref(), Some("transfer"));
            assert_eq!(m.pocket_id, Some(8));
            assert_eq!(m.title.as_deref(), Some("GoPay"));
            assert_eq!(t.pocket_id, 8);
            assert_eq!(t.status, "pending");
            assert_eq!(t.transaction_time, T0);
            assert_eq!(t.description.as_deref(), Some("Kirim Rp 25.000 ke Budi"));
            assert!(t.amount.same_value_as(&Amount::parse("25000").unwrap()));
        },
        _ => panic!("expected a transaction"),
    }
}

#[test]
fn ingest_uses_the_model_reading() {
    let n = note(5, Some("Jago"), "Pembayaran berhasil", T0);
    let ai = reading(true, Some("15000"), Some("expense"), Some("Coffee"), Some("jago"));
    let cats = vec![named(30, "Food & Beverage")];
    match prepare_ingest(n, Ok(Some(ai)), &vec![named(7, "Bank Jago")], &cats) {
        IngestStep::Record(m, t) => {
            assert_eq!(t.pocket_id, 7);
            assert_eq!(t.category_id, Some(30));
            assert_eq!(t.title, "Coffee");
            assert_eq!(t.type_, "expense");
            assert_eq!(m.category_id, Some(30));
            let linked = link_transaction(m, 99);
            assert_eq!(linked.status, NotificationStatus::Processed);
            assert_eq!(linked.transaction_id, Some(99));
        },
        _ => panic!("expected a transaction"),
    }
}

#[test]
fn ingest_without_pockets_stays_pending() {
    let n = note(6, None, "Rp 10.000 masuk", T0);
    match prepare_ingest(n, Err("down".to_string()), &vec![], &vec![]) {
        IngestStep::Store(m) => {
            assert_eq!(m.status, NotificationStatus::Pending);
            assert_eq!(m.title.as_deref(), Some("Notification Transaction"));
            assert_eq!(m.type_.as_deref(), Some("income"));
        },
        _ => panic!("expected the notification to be stored"),
    }
}

#[test]
fn processing_decisions() {
    let n = note(7, None, "x", T0);
    assert!(matches!(decide_processing(n, Ok(None)), ProcessDecision::MarkIgnored(7)));
    let n = note(8, None, "x", T0);
    match decide_processing(n, Err("boom".to_string())) {
        ProcessDecision::MarkFailed(id, e) => assert_eq!((id, e.as_str()), (8, "boom")),
        _ => panic!("expected a failure"),
    }
    let n = note(9, None, "x", T0);
    match decide_processing(n, Ok(Some(reading(false, None, None, None, None)))) {
        ProcessDecision::StoreIgnored(m) => assert_eq!(m.status, NotificationStatus::Ignored),
        _ => panic!("expected the notification to be ignored"),
    }
}

#[test]
fn notification_access_checks() {
    assert_eq!(check_notification(None, USER).unwrap_err(), "Notification not found");
    let mut n = note(10, None, "x", T0);
    n.user_id = 1;
    assert_eq!(check_notification(Some(n), USER).unwrap_err(), "Unauthorized notification access");
    assert!(check_notification(Some(note(11, None, "x", T0)), USER).is_ok());
}

fn existing(id: u128, type_: &str, pocket: u128, dest: Option<u128>, amount: &str) -> Transaction {
    Transaction {
        id,
        user_id: USER,
        pocket_id: pocket,
        category_id: None,
        amount: Amount::parse(amount).unwrap(),
        type_: type_.to_string(),
        title: "t".to_string(),
        transaction_time: T0,
        destination_pocket_id: dest,
        description: None,
        status: "resolved".to_string(),
    }
}

#[test]
fn duplicates_are_found_and_linked() {
    let n = note(12, None, "Anda menerima Rp 50.000", T0);
    let c = candidate_for(&n, reading(true, Some("50000"), Some("income"), Some("Budi"), Some("gopay")),
        &vec![named(7, "Jago"), named(8, "GoPay")], &vec![]).unwrap();
    assert_eq!(c.pocket_id, 8);
    assert_eq!(c.window_start, T0 - 86_400_000_000_000);
    assert_eq!(c.window_end, T0 + 86_400_000_000_000);
    let listed = vec![
        existing(1, "income", 7, None, "50000"),
        existing(2, "transfer", 7, Some(8), "50000.00"),
        existing(3, "income", 8, None, "50000"),
    ];
    assert_eq!(find_duplicate(&listed, &c), Some(2));
    let only_other_pocket = vec![existing(1, "income", 7, None, "50000")];
    assert_eq!(find_duplicate(&only_other_pocket, &c), None);
    let page = duplicate_search_page();
    assert_eq!(page.limit, Some(50));
    let req = candidate_request(c, &n);
    assert_eq!(req.status, "resolved");
    assert_eq!(req.pocket_id, 8);
    assert_eq!(req.transaction_time, T0);
}

#[test]
fn candidate_defaults_to_the_first_pocket() {
    let n = note(13, None, "x", T0);
    let c = candidate_for(&n, reading(true, Some("1"), Some("expense"), Some("t"), Some("OVO")),
        &vec![named(7, "Jago")], &vec![]).unwrap();
    assert_eq!(c.pocket_id, 7);
    assert!(candidate_for(&n, reading(true, Some("1"), Some("expense"), Some("t"), None), &vec![], &vec![]).is_none());
}

#[test]
fn inbox_saves_and_finds() {
    let mut repo = InMemoryNotificationRepository::new();
    repo.save(note(1, Some("a"), "first", T0));
    repo.save(note(2, Some("b"), "second", T0 + 1));
    assert_eq!(repo.find_by_id(2).unwrap().raw_body, "second");
    assert!(repo.find_by_id(3).is_none());
    let mut replaced = note(1, Some("a"), "first again", T0);
    replaced.status = NotificationStatus::Failed;
    repo.save(replaced);
    let found = repo.find_by_id(1).unwrap();
    assert_eq!(found.raw_body, "first again");
    assert_eq!(found.status, NotificationStatus::Failed);
}

#[test]
fn inbox_updates_status() {
    let mut repo = InMemoryNotificationRepository::new();
    repo.save(note(1, None, "body", T0));
    repo.update_status(1, "processed".to_string(), Some(77)).unwrap();
    let n = repo.find_by_id(1).unwrap();
    assert_eq!(n.status, NotificationStatus::Processed);
    assert_eq!(n.transaction_id, Some(77));
    assert_eq!(repo.update_status(5, "ignored".to_string(), None).unwrap_err(), "Notification not found");
}

#[test]
fn inbox_lists_open_notifications_newest_first() {
    let mut repo = InMemoryNotificationRepository::new();
    repo.save(note(1, None, "Rp 1.000 Jago", T0));
    repo.save(note(2, None, "Rp 2.000 GoPay", T0 + 20));
    repo.save(note(3, None, "Rp 3.000 jago", T0 + 10));
    let mut done = note(4, None, "Rp 4.000 Jago", T0 + 30);
    done.status = NotificationStatus::Processed;
    repo.save(done);
    let mut ignored = note(5, None, "Rp 5.000 Jago", T0 + 40);
    ignored.status = NotificationStatus::Ignored;
    repo.save(ignored);
    let (all, total) = repo.find_unresolved(page(10, 1, None));
    assert_eq!(total, 3);
    assert_eq!(all.iter().map(|n| n.id).collect::<Vec<_>>(), vec![2, 3, 1]);
    let (jago, total) = repo.find_unresolved(page(10, 1, Some("JAGO")));
    assert_eq!(total, 2);
    assert_eq!(jago.iter().map(|n| n.id).collect::<Vec<_>>(), vec![3, 1]);
    let (second, total) = repo.find_unresolved(page(2, 2, None));
    assert_eq!(total, 3);
    assert_eq!(second.iter().map(|n| n.id).collect::<Vec<_>>(), vec![1]);
    let (beyond, _) = repo.find_unresolved(page(2, 5, None));
    assert!(beyond.is_empty());
}

#[test]
fn processing_twice_records_once() {
    let n = note(20, None, "Pembayaran Rp 12.000", T0);
    let read = || reading(true, Some("12000"), Some("expense"), Some("Kopi"), Some("jago"));
    let pockets = vec![named(7, "Jago")];
    let first = candidate_for(&n, read(), &pockets, &vec![]).unwrap();
    assert_eq!(find_duplicate(&vec![], &first), None);
    let req = candidate_request(first, &n);
    let recorded = Transaction {
        id: 500,
        user_id: USER,
        pocket_id: req.pocket_id,
        category_id: req.category_id,
        amount: req.amount,
        type_: req.type_,
        title: req.title,
        transaction_time: req.transaction_time,
        destination_pocket_id: req.destination_pocket_id,
        description: req.description,
        status: req.status,
    };
    let second = candidate_for(&n, read(), &pockets, &vec![]).unwrap();
    assert_eq!(find_duplicate(&vec![recorded], &second), Some(500));
}
