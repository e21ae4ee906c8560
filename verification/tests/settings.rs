use mobile_money_backend::amount::Amount;
use mobile_money_backend::assistant::Provider;
use mobile_money_backend::categories::{create_category, update_category, Category, CategoryResponse};
use mobile_money_backend::config::{environment_from, parse_port, provider_from, AppEnvironment, Config, ConfigSource};
use mobile_money_backend::error::{AppError, BAD_GATEWAY, NOT_FOUND};
use mobile_money_backend::pagination::{ApiResponse, PaginationQuery, PaginationResponse, SortOrder};
use mobile_money_backend::pockets::{create_pocket, delete_pocket, get_pocket_by_id, update_pocket, Pocket, PocketResponse};
use mobile_money_backend::queries::{page_window, search_pattern, transaction_order, TransactionOrder};
use mobile_money_backend::seed::{categories_to_seed, default_categories, default_pockets, needs_seeding, pockets_to_seed};

fn source(db: Option<&str>, port: Option<&str>) -> ConfigSource {
    ConfigSource {
        database_url: db.map(|s| s.to_string()),
        port: port.map(|s| s.to_string()),
        rust_log: None,
        app_environment: None,
        ollama_host: None,
        ollama_model: None,
        ai_provider: None,
        gemini_api_key: None,
        gemini_model: None,
        jwt_secret: None,
    }
}

fn query(page: Option<u32>, limit: Option<u32>) -> PaginationQuery {
    PaginationQuery { page, limit, search: None, sort: None, sort_order: None }
}

#[test]
fn ports_read_like_u16() {
    assert_eq!(parse_port("5008"), Some(5008));
    assert_eq!(parse_port("+80"), Some(80));
    assert_eq!(parse_port("0"), Some(0));
    assert_eq!(parse_port("65535"), Some(65535));
    assert_eq!(parse_port("65536"), None);
    assert_eq!(parse_port("99999999999999999999"), None);
    assert_eq!(parse_port(""), None);
    assert_eq!(parse_port("+"), None);
    assert_eq!(parse_port("-1"), None);
    assert_eq!(parse_port("80a"), None);
    assert_eq!(parse_port(" 80"), None);
    for s in ["0", "7", "+443", "65535", "65536", "12x", "++1"] {
        assert_eq!(parse_port(s), s.parse::<u16>().ok());
    }
}

#[test]
fn config_defaults() {
    let c = Config::from_source(source(Some("postgres://db"), None)).unwrap();
    assert_eq!(c.database_url, "postgres://db");
    assert_eq!(c.server_port, 5008);
    assert_eq!(c.log_level, "mobile_money_backend=debug,tower_http=debug");
    assert_eq!(c.environment, AppEnvironment::Development);
    assert_eq!(c.ollama_host, "http://localhost:11434");
    assert_eq!(c.ollama_model, "llama3:8b");
    assert_eq!(c.ai_provider, "ollama");
    assert_eq!(c.gemini_api_key, "");
    assert_eq!(c.gemini_model, "gemini-1.5-flash");
    assert_eq!(c.jwt_secret, "super_secret_mobile_money_key_123456789");
    assert_eq!(c.provider(), Provider::Ollama);
}

#[test]
fn config_refusals() {
    assert_eq!(Config::from_source(source(None, Some("80"))).unwrap_err(), "DATABASE_URL must be set");
    assert_eq!(Config::from_source(source(Some("x"), Some("eighty"))).unwrap_err(), "PORT must be a valid number");
}

#[test]
fn config_reads_environment_and_provider() {
    let mut s = source(Some("x"), Some("9000"));
    s.app_environment = Some("PRODUCTION".to_string());
    s.ai_provider = Some("Gemini".to_string());
    let c = Config::from_source(s).unwrap();
    assert_eq!(c.server_port, 9000);
    assert_eq!(c.environment, AppEnvironment::Production);
    assert_eq!(c.provider(), Provider::Gemini);
    assert_eq!(environment_from("staging"), AppEnvironment::Development);
    assert_eq!(provider_from("openai"), Provider::Ollama);
}

#[test]
fn seeds_only_empty_tables() {
    assert!(needs_seeding(0));
    assert!(!needs_seeding(3));
    let ps = default_pockets(1_700_000_000_000_000_000);
    assert_eq!(ps.iter().map(|p| p.name.as_str()).collect::<Vec<_>>(), vec!["Main Wallet", "Bank Account"]);
    assert!(ps.iter().all(|p| p.user_id == 0 && p.currency == "IDR" && !p.balance.is_positive()));
    assert_ne!(ps[0].id, ps[1].id);
    assert!(ps.iter().all(|p| p._updated_at == 1_700_000_000_000_000_000));
    let cs = default_categories();
    assert_eq!(cs.len(), 6);
    assert_eq!(cs.iter().filter(|c| c.type_ == "income").count(), 2);
    assert!(cs.iter().all(|c| c.user_id.is_none()));
    assert_eq!(cs[3].name, "Bills & Utilities");
}

#[test]
fn seeding_twice_changes_nothing() {
    let mut pockets = Vec::new();
    let mut categories = Vec::new();
    pockets.extend(pockets_to_seed(pockets.len() as i64, 5));
    categories.extend(categories_to_seed(categories.len() as i64));
    assert_eq!(pockets.len(), 2);
    assert_eq!(categories.len(), 6);
    assert_eq!(pockets[1].name, "Bank Account");
    assert_eq!(categories[5].name, "Bonus");
    let ids: Vec<u128> = pockets.iter().map(|p| p.id).collect();
    assert!(pockets_to_seed(pockets.len() as i64, 6).is_empty());
    assert!(categories_to_seed(categories.len() as i64).is_empty());
    assert_eq!(pockets.iter().map(|p| p.id).collect::<Vec<_>>(), ids);
}

#[test]
fn pagination_defaults_and_offset() {
    let q = query(None, None);
    assert_eq!((q.get_page(), q.get_limit(), q.get_offset()), (1, 10, 0));
    let q = query(Some(3), Some(20));
    assert_eq!(q.get_offset(), 40);
    let q = PaginationQuery {
        page: None,
        limit: None,
        search: Some("jago".to_string()),
        sort: Some("amount".to_string()),
        sort_order: Some(SortOrder::Desc),
    };
    assert_eq!(q.get_search().as_deref(), Some("jago"));
    assert_eq!(q.get_sort().as_deref(), Some("amount"));
    assert_eq!(q.get_sort_order(), Some(SortOrder::Desc));
}

#[test]
fn page_counts_round_up() {
    assert_eq!(PaginationResponse::new((), 1, 10, 25).total_page, 3);
    assert_eq!(PaginationResponse::new((), 1, 10, 20).total_page, 2);
    assert_eq!(PaginationResponse::new((), 1, 10, 0).total_page, 0);
    assert_eq!(PaginationResponse::new((), 1, 0, 0).total_page, 0);
    assert_eq!(PaginationResponse::new((), 1, 0, 5).total_page, u64::MAX);
    let r = PaginationResponse::new(vec![1, 2], 2, 2, 3);
    assert_eq!((r.data, r.page, r.limit, r.total_data, r.total_page), (vec![1, 2], 2, 2, 3, 2));
    assert_eq!(ApiResponse { data: 7 }.data, 7);
}

#[test]
fn listing_order_and_search() {
    let mut q = query(None, None);
    assert_eq!(transaction_order(&q), TransactionOrder::TimeDescending);
    q.sort_order = Some(SortOrder::Asc);
    assert_eq!(transaction_order(&q), TransactionOrder::TimeAscending);
    q.sort = Some("amount".to_string());
    assert_eq!(transaction_order(&q), TransactionOrder::AmountAscending);
    q.sort_order = None;
    assert_eq!(transaction_order(&q), TransactionOrder::AmountDescending);
    q.sort = Some("title".to_string());
    assert_eq!(transaction_order(&q), TransactionOrder::TimeDescending);
    assert!(search_pattern(&q).is_none());
    q.search = Some("kopi".to_string());
    assert_eq!(search_pattern(&q).as_deref(), Some("%kopi%"));
    let w = page_window(&query(Some(2), Some(25)));
    assert_eq!((w.limit, w.offset), (25, 25));
}

fn pocket(user: u128) -> Pocket {
    Pocket {
        id: 9,
        user_id: user,
        name: "Jago".to_string(),
        _pocket_type: "bank".to_string(),
        currency: "IDR".to_string(),
        balance: Amount::parse("1500.25").unwrap(),
        _updated_at: 0,
    }
}

#[test]
fn pockets_belong_to_their_user() {
    assert!(get_pocket_by_id(Some(pocket(1)), 1).is_some());
    assert!(get_pocket_by_id(Some(pocket(2)), 1).is_none());
    assert_eq!(delete_pocket(Some(pocket(1)), 1).unwrap(), 9);
    assert_eq!(delete_pocket(Some(pocket(2)), 1).unwrap_err(), "Unauthorized pocket access");
    assert_eq!(delete_pocket(None, 1).unwrap_err(), "Pocket not found");
    let p = update_pocket(Some(pocket(1)), 1, "Jago Syariah".to_string(), "savings".to_string()).unwrap();
    assert_eq!((p.name.as_str(), p._pocket_type.as_str(), p.balance.to_text()), ("Jago Syariah", "savings", "1500.25".to_string()));
    assert_eq!(update_pocket(None, 1, "a".to_string(), "b".to_string()).unwrap_err(), "Pocket not found");
}

#[test]
fn pocket_creation_and_response() {
    let p = create_pocket(1, "Cash".to_string(), "cash".to_string(), "IDR".to_string(), Amount::parse("0").unwrap(), 42);
    assert_eq!((p.user_id, p.name.as_str(), p._updated_at), (1, "Cash", 42));
    let r = PocketResponse::from(pocket(1));
    assert_eq!((r.balance.as_str(), r.pocket_type.as_str()), ("1500.25", "bank"));
    assert_eq!(r.duplicate().name, "Jago");
}

#[test]
fn categories() {
    let c = create_category("Snacks".to_string(), "expense".to_string());
    assert!(c.user_id.is_none());
    let r = CategoryResponse::from(Category { id: 3, user_id: Some(1), name: "Gaji".to_string(), type_: "income".to_string() });
    assert_eq!((r.id, r.name.as_str()), (3, "Gaji"));
    let u = update_category(Some(Category { id: 3, user_id: Some(1), name: "a".to_string(), type_: "b".to_string() }),
        "Salary".to_string(), "income".to_string()).unwrap();
    assert_eq!((u.id, u.user_id, u.name.as_str()), (3, Some(1), "Salary"));
    assert_eq!(update_category(None, "a".to_string(), "b".to_string()).unwrap_err(), "Category not found");
}

#[test]
fn errors_carry_status_and_message() {
    let e = AppError::from((NOT_FOUND, "Transaction not found".to_string()));
    let (status, body) = e.into_body();
    assert_eq!((status, body.error.as_str()), (404, "Transaction not found"));
    assert_eq!(BAD_GATEWAY, 502);
}

