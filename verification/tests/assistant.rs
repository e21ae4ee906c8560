use mobile_money_backend::ai::{validate_parsed_notification, AiParsedNotification, AiTransactionQuery};
use mobile_money_backend::amount::Amount;
use mobile_money_backend::analysis::{analysis_filter, keep_category};
use mobile_money_backend::assistant::{
    analysis_prompt, analysis_user_message, api_error_text, find_gemini_call, find_named_call, gemini_url,
    notification_outcome, notification_prompt, notification_user_message, ollama_url, query_outcome,
    query_prompt, reply_parse_text, Provider,
};
use mobile_money_backend::extraction::Named;
use mobile_money_backend::stream::{chunk_text, Framing, StreamBuffer};
use mobile_money_backend::transactions::Transaction;

fn parsed(is_tx: bool, amount: bool, type_: bool, title: bool) -> AiParsedNotification {
    AiParsedNotification {
        is_transaction: is_tx,
        amount: if amount { Some(Amount::parse("1000").unwrap()) } else { None },
        transaction_type: if type_ { Some("expense".to_string()) } else { None },
        title: if title { Some("Coffee".to_string()) } else { None },
        pocket: None,
        category: None,
        destination_pocket: None,
    }
}

fn empty_query() -> AiTransactionQuery {
    AiTransactionQuery {
        pocket_name: None,
        category_name: None,
        start_date: None,
        end_date: None,
        transaction_type: None,
        limit: None,
    }
}

#[test]
fn prompts_carry_the_inputs() {
    assert_eq!(
        notification_user_message("BCA", "Transfer Rp 50.000"),
        "Notification Title: BCA\nNotification Body: Transfer Rp 50.000"
    );
    assert!(notification_prompt().starts_with("You are a financial assistant."));
    assert!(notification_prompt().ends_with("category from the text if possible."));
    let q = query_prompt("2026-05-01T10:00:00+00:00");
    assert!(q.contains("\nCurrent date and time is 2026-05-01T10:00:00+00:00.\nExtract start_date"));
    assert!(analysis_prompt().starts_with("You are an expert personal finance AI assistant."));
}

#[test]
fn analysis_message_defaults_the_question() {
    assert_eq!(analysis_user_message("[]", Some("How much?")), "Transactions JSON:\n[]\n\nUser Query: How much?");
    assert_eq!(
        analysis_user_message("[]", None),
        "Transactions JSON:\n[]\n\nUser Query: Analyze my transactions, provide an overview of my financial status, spending habits, and actionable recommendations."
    );
}

#[test]
fn endpoints() {
    assert_eq!(
        gemini_url("gemini-1.5-flash", "KEY", false),
        "https://generativelanguage.googleapis.com/v1beta/models/gemini-1.5-flash:generateContent?key=KEY"
    );
    assert_eq!(
        gemini_url("m", "K", true),
        "https://generativelanguage.googleapis.com/v1beta/models/m:streamGenerateContent?alt=sse&key=K"
    );
    assert_eq!(ollama_url("http://localhost:11434"), "http://localhost:11434/api/chat");
}

#[test]
fn provider_error_messages() {
    assert_eq!(api_error_text(Provider::Gemini, "403 Forbidden", "no key"), "Gemini API error (403 Forbidden): no key");
    assert_eq!(api_error_text(Provider::Ollama, "500 Internal Server Error", ""), "Ollama API error (500 Internal Server Error): ");
    assert_eq!(reply_parse_text(Provider::Gemini, "eof"), "Failed to parse Gemini response: eof");
    assert_eq!(reply_parse_text(Provider::Ollama, "eof"), "eof");
}

#[test]
fn tool_calls_are_picked() {
    let names = vec!["other".to_string(), "extract_transaction".to_string(), "extract_transaction".to_string()];
    assert_eq!(find_named_call(&names, "extract_transaction"), Some(1));
    assert_eq!(find_named_call(&names, "query_transactions"), None);
    assert_eq!(find_gemini_call(&vec![]).unwrap_err(), "No candidates returned by Gemini");
    assert_eq!(find_gemini_call(&vec![vec![false, true, true], vec![true]]).unwrap(), Some(1));
    assert_eq!(find_gemini_call(&vec![vec![false], vec![true]]).unwrap(), None);
}

#[test]
fn notification_replies_are_checked() {
    assert!(notification_outcome(None).unwrap().is_none());
    assert_eq!(
        notification_outcome(Some(("query_transactions".to_string(), Ok(parsed(true, true, true, true))))).unwrap_err(),
        "Unexpected function call: query_transactions"
    );
    assert_eq!(
        notification_outcome(Some(("extract_transaction".to_string(), Err("bad json".to_string())))).unwrap_err(),
        "Failed to parse tool arguments: bad json"
    );
    assert_eq!(
        notification_outcome(Some(("extract_transaction".to_string(), Ok(parsed(true, false, true, true))))).unwrap_err(),
        "AI failed to extract a valid amount"
    );
    let ok = notification_outcome(Some(("extract_transaction".to_string(), Ok(parsed(true, true, true, true)))));
    assert_eq!(ok.unwrap().unwrap().title.as_deref(), Some("Coffee"));
    let not_tx = notification_outcome(Some(("extract_transaction".to_string(), Ok(parsed(false, false, false, false)))));
    assert!(!not_tx.unwrap().unwrap().is_transaction);
}

#[test]
fn incomplete_transactions_are_refused_in_order() {
    assert_eq!(validate_parsed_notification(parsed(true, true, false, false)).unwrap_err(), "AI failed to determine transaction type");
    assert_eq!(validate_parsed_notification(parsed(true, true, true, false)).unwrap_err(), "AI failed to generate a transaction title");
    assert!(validate_parsed_notification(parsed(false, false, false, false)).is_ok());
}

#[test]
fn query_replies() {
    let none = query_outcome(Provider::Gemini, None).unwrap();
    assert!(none.pocket_name.is_none() && none.limit.is_none());
    assert_eq!(query_outcome(Provider::Gemini, Some(Err("x".to_string()))).unwrap_err(), "Failed to parse tool args: x");
    assert_eq!(query_outcome(Provider::Ollama, Some(Err("x".to_string()))).unwrap_err(), "Failed to parse tool arguments: x");
    let mut q = empty_query();
    q.limit = Some(5);
    assert_eq!(query_outcome(Provider::Ollama, Some(Ok(q))).unwrap().limit, Some(5));
}

#[test]
fn events_are_cut_at_blank_lines() {
    let mut b = StreamBuffer::new(Framing::ServerSentEvents);
    b.push_text("data: {\"a\":1}\n\ndata: {\"b\"");
    assert_eq!(b.next_frame(), Some(Some("{\"a\":1}".to_string())));
    assert_eq!(b.next_frame(), None);
    b.push_text(":2}\n\n: keep-alive\n\n");
    assert_eq!(b.next_frame(), Some(Some("{\"b\":2}".to_string())));
    assert_eq!(b.next_frame(), Some(None));
    assert_eq!(b.next_frame(), None);
    b.push_text("data: last");
    assert_eq!(b.finish(), Some("last".to_string()));
    assert_eq!(b.finish(), None);
}

#[test]
fn json_lines_are_cut_at_line_breaks() {
    let mut b = StreamBuffer::new(Framing::JsonLines);
    b.push_text("{\"x\":1}\n{\"y\"");
    assert_eq!(b.next_frame(), Some(Some("{\"x\":1}".to_string())));
    assert_eq!(b.next_frame(), None);
    assert_eq!(b.finish(), Some("{\"y\"".to_string()));
    assert_eq!(b.finish(), None);
    let mut e = StreamBuffer::new(Framing::JsonLines);
    e.push_text("\n");
    assert_eq!(e.next_frame(), Some(Some(String::new())));
}

fn named(id: u128, name: &str) -> Named {
    Named { id, name: name.to_string() }
}

#[test]
fn analysis_filter_from_the_question() {
    let pockets = vec![named(1, "Bank Jago"), named(2, "GoPay")];
    let cats = vec![named(30, "Food & Beverage")];
    let mut q = empty_query();
    q.pocket_name = Some("gopay".to_string());
    q.category_name = Some("FOOD".to_string());
    q.start_date = Some("2026-05-01T00:00:00Z".to_string());
    q.end_date = Some("last week".to_string());
    q.transaction_type = Some("expense".to_string());
    let f = analysis_filter(Some(Ok(q)), &pockets, &cats);
    assert_eq!(f.pocket_id, Some(2));
    assert_eq!(f.category_id, Some(30));
    assert_eq!(f.start_date, Some(1_777_593_600i128 * 1_000_000_000));
    assert_eq!(f.end_date, None);
    assert_eq!(f.type_.as_deref(), Some("expense"));
    assert_eq!(f.limit, 200);
    assert_eq!(f.pagination().limit, Some(200));
    assert_eq!(f.pagination().page, Some(1));
    let failed = analysis_filter(Some(Err("offline".to_string())), &pockets, &cats);
    assert!(failed.pocket_id.is_none() && failed.start_date.is_none() && failed.type_.is_none());
    assert_eq!(failed.limit, 200);
    let mut q = empty_query();
    q.limit = Some(20);
    assert_eq!(analysis_filter(Some(Ok(q)), &pockets, &cats).limit, 20);
    assert_eq!(analysis_filter(None, &pockets, &cats).limit, 200);
}

fn tx(id: u128, category: Option<u128>) -> Transaction {
    Transaction {
        id,
        user_id: 1,
        pocket_id: 1,
        category_id: category,
        amount: Amount::parse("1").unwrap(),
        type_: "expense".to_string(),
        title: "t".to_string(),
        transaction_time: 0,
        destination_pocket_id: None,
        description: None,
        status: "resolved".to_string(),
    }
}

#[test]
fn analysis_keeps_the_category() {
    let data = vec![tx(1, Some(30)), tx(2, None), tx(3, Some(31)), tx(4, Some(30))];
    let kept = keep_category(data, Some(30));
    assert_eq!(kept.iter().map(|t| t.id).collect::<Vec<_>>(), vec![1, 4]);
    let all = keep_category(vec![tx(1, Some(30)), tx(2, None)], None);
    assert_eq!(all.len(), 2);
}

#[test]
fn chunk_text_reads_each_framing() {
    let gemini = r#"{"candidates":[{"content":{"parts":[{"text":"Hello"},{"text":"x"}]}}]}"#;
    assert_eq!(chunk_text(Framing::ServerSentEvents, gemini), Some("Hello".to_string()));
    let ollama = r#"{"message":{"role":"assistant","content":"Hi"},"done":false}"#;
    assert_eq!(chunk_text(Framing::JsonLines, ollama), Some("Hi".to_string()));
    assert_eq!(chunk_text(Framing::JsonLines, gemini), None);
    assert_eq!(chunk_text(Framing::ServerSentEvents, ollama), None);
}

#[test]
fn chunk_text_drops_empty_and_malformed_chunks() {
    assert_eq!(chunk_text(Framing::JsonLines, r#"{"message":{"content":""},"done":true}"#), None);
    assert_eq!(chunk_text(Framing::JsonLines, "not json"), None);
    assert_eq!(chunk_text(Framing::JsonLines, r#"{"message":{"content":5}}"#), None);
    assert_eq!(chunk_text(Framing::ServerSentEvents, r#"{"candidates":[]}"#), None);
    // an object where a list belongs is not read as one
    assert_eq!(
        chunk_text(Framing::ServerSentEvents, r#"{"candidates":{"0":{"content":{"parts":[{"text":"no"}]}}}}"#),
        None
    );
}
