use mobile_money_backend::auth::{
    auth_response, auth_user_from_claims, bearer_token, check_decoded_token, check_email_free,
    generate_auth_claims, hash_password, login, refresh_subject, refresh_user, verify_password, Claims, User,
};
use mobile_money_backend::error::UNAUTHORIZED;
use mobile_money_backend::ids::{id_text, parse_id};

const NOW: i128 = 1_700_000_000 * 1_000_000_000 + 250_000_000;
const ID_TEXT: &str = "67e55044-10b1-426f-9247-bb680e5fe0c8";

fn claims(sub: &str, token_type: &str) -> Claims {
    Claims {
        sub: sub.to_string(),
        email: "a@b.c".to_string(),
        exp: 0,
        token_type: token_type.to_string(),
    }
}

fn user(hash: &str) -> User {
    User {
        id: 5,
        email: "a@b.c".to_string(),
        password_hash: hash.to_string(),
        username: "ani".to_string(),
        created_at: NOW,
        updated_at: NOW,
    }
}

#[test]
fn ids_print_and_parse() {
    assert_eq!(id_text(1), "00000000-0000-0000-0000-000000000001");
    assert_eq!(id_text(0x1234567890abcdef1234567890abcdef), "12345678-90ab-cdef-1234-567890abcdef");
    let id = parse_id(ID_TEXT).unwrap();
    assert_eq!(id_text(id), ID_TEXT);
    assert!(parse_id("not-a-uuid").is_err());
}

#[test]
fn claims_expire_after_an_hour_and_a_week() {
    let (access, refresh) = generate_auth_claims(1, "a@b.c", NOW).unwrap();
    assert_eq!(access.exp, 1_700_003_600);
    assert_eq!(refresh.exp, 1_700_604_800);
    assert_eq!(access.token_type, "access");
    assert_eq!(refresh.token_type, "refresh");
    assert_eq!(access.sub, "00000000-0000-0000-0000-000000000001");
    assert_eq!(refresh.email, "a@b.c");
}

#[test]
fn bearer_header_is_read() {
    assert_eq!(bearer_token(Some("Bearer abc.def")).unwrap(), "abc.def");
    let e = bearer_token(Some("Basic abc")).unwrap_err();
    assert_eq!((e.status, e.message.as_str()), (UNAUTHORIZED, "Invalid authorization header format"));
    let e = bearer_token(None).unwrap_err();
    assert_eq!((e.status, e.message.as_str()), (UNAUTHORIZED, "Missing authorization header"));
}

#[test]
fn access_tokens_name_the_user() {
    let u = auth_user_from_claims(Ok(claims(ID_TEXT, "access"))).unwrap();
    assert_eq!(u.id, parse_id(ID_TEXT).unwrap());
    assert_eq!(u.email, "a@b.c");
    let e = auth_user_from_claims(Ok(claims(ID_TEXT, "refresh"))).unwrap_err();
    assert_eq!(e.message, "Invalid token type: expected access");
    let e = auth_user_from_claims(Err("ExpiredSignature".to_string())).unwrap_err();
    assert_eq!((e.status, e.message.as_str()), (UNAUTHORIZED, "Invalid token: ExpiredSignature"));
    let e = auth_user_from_claims(Ok(claims("nobody", "access"))).unwrap_err();
    assert!(e.message.starts_with("Invalid user ID in token: "));
}

#[test]
fn refresh_tokens_name_the_user() {
    assert_eq!(refresh_subject(Ok(claims(ID_TEXT, "refresh"))).unwrap(), parse_id(ID_TEXT).unwrap());
    assert_eq!(refresh_subject(Ok(claims(ID_TEXT, "access"))).unwrap_err(), "Invalid token type: expected refresh");
    assert_eq!(refresh_subject(Ok(claims("x", "refresh"))).unwrap_err(), "Invalid user ID in token");
    assert_eq!(refresh_user(None).unwrap_err(), "User not found");
    assert!(check_decoded_token(Ok(claims("x", "refresh")), "refresh").is_ok());
}

#[test]
fn sign_up_refuses_a_taken_email() {
    assert_eq!(check_email_free(Some(user("h"))).unwrap_err(), "Email already in use");
    assert!(check_email_free(None).is_ok());
}

#[test]
fn sign_in_with_unknown_email_or_bad_hash() {
    assert_eq!(login(None, "pw").unwrap_err(), "Invalid email or password");
    assert_eq!(
        login(Some(user("not-a-hash")), "pw").unwrap_err(),
        "Password verification failed: Invalid hash: not-a-hash"
    );
    assert_eq!(
        verify_password("pw", "not-a-hash").unwrap_err(),
        "Password verification failed: Invalid hash: not-a-hash"
    );
}

#[test]
fn hashed_password_signs_in() {
    let hash = hash_password("s3cret!").unwrap();
    assert!(hash.starts_with("$2b$12$"));
    assert_eq!(hash.len(), 60);
    let u = login(Some(user(&hash)), "s3cret!").unwrap();
    assert_eq!(u.id, 5);
}

#[test]
fn auth_response_hides_the_hash() {
    let r = auth_response(user("h"), "t".to_string(), "r".to_string());
    assert_eq!(r.token, "t");
    assert_eq!(r.refresh_token, "r");
    assert_eq!(r.user.username, "ani");
    assert_eq!(r.user.id, 5);
}

#[test]
fn issued_claims_are_accepted_for_their_user() {
    let id = parse_id(ID_TEXT).unwrap();
    let (access, refresh) = generate_auth_claims(id, "a@b.c", NOW).unwrap();
    assert_eq!(auth_user_from_claims(Ok(access)).unwrap().id, id);
    assert_eq!(refresh_subject(Ok(refresh)).unwrap(), id);
}
