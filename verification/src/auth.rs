use vstd::prelude::*;
use crate::clock::Timestamp;
use crate::error::{AppError, UNAUTHORIZED, concat};
use crate::ids::{Id, parse_id, id_text, uuid_parse, uuid_text};
use crate::clock::within_chrono_range;
use crate::text::{copy_text, has_prefix, starts_with_text, text_eq};

verus! {

/// What a signed token says: the user (as UUID text), the e-mail, the
/// expiry (seconds since the epoch) and whether it is an access or a
/// refresh token.
#[derive(Debug)]
pub struct Claims {
    pub sub: String,
    pub email: String,
    pub exp: usize,
    pub token_type: String,
}

/// A registered user.
#[derive(Debug)]
pub struct User {
    pub id: Id,
    pub email: String,
    pub password_hash: String,
    pub username: String,
    pub created_at: Timestamp,
    pub updated_at: Timestamp,
}

/// A user as the API shows it.
#[derive(Debug)]
pub struct UserResponse {
    pub id: Id,
    pub email: String,
    pub username: String,
}

impl UserResponse {
    /// The API form of a user, without the password hash.
    pub fn from(u: User) -> (r: UserResponse)
        ensures
            r.id == u.id,
            r.email == u.email,
            r.username == u.username,
    {
        UserResponse { id: u.id, email: u.email, username: u.username }
    }
}

/// The tokens handed out on sign-up, sign-in and refresh.
#[derive(Debug)]
pub struct AuthResponse {
    pub token: String,
    pub refresh_token: String,
    pub user: UserResponse,
}

/// Body of a sign-up request.
#[derive(Debug)]
pub struct RegisterRequest {
    pub email: String,
    pub username: String,
    pub password: String,
}

/// Body of a sign-in request.
#[derive(Debug)]
pub struct LoginRequest {
    pub email: String,
    pub password: String,
}

/// The user making a request, as its access token names them.
#[derive(Debug)]
pub struct AuthUser {
    pub id: Id,
    pub email: String,
}

/// Nanoseconds in a second.
pub open spec fn second_nanos() -> int {
    1_000_000_000
}

/// The expiry, in seconds as a `usize`, of a token issued at `now` and
/// valid for `secs` seconds; nothing when that instant lies outside the
/// range of `chrono`.
pub open spec fn expiry_after(now: int, secs: int) -> Option<usize> {
    let t = now + secs * second_nanos();
    if within_chrono_range(t) { Some(((t / second_nanos()) as i64) as usize) } else { None }
}

/// One hour: the lifetime of an access token.
pub open spec fn access_lifetime() -> int {
    3600
}

/// Seven days: the lifetime of a refresh token.
pub open spec fn refresh_lifetime() -> int {
    604800
}

fn expiry(now: Timestamp, secs: i128) -> (r: Option<usize>)
    requires
        within_chrono_range(now as int),
        0 <= secs <= 604800,
    ensures
        r == expiry_after(now as int, secs as int),
{
    let t = now + secs * 1_000_000_000;
    if !(-8_334_601_315_200_000_000_000i128 <= t && t <= 8_210_266_876_799_999_999_999i128) {
        return None;
    }
    let s: i128 = if t >= 0 {
        t / 1_000_000_000
    } else {
        let q: i128 = (-t - 1) / 1_000_000_000;
        proof {
            assert(-(q + 1) == (t as int) / 1_000_000_000int) by (nonlinear_arith)
                requires q == (-t - 1) / 1_000_000_000, t < 0;
        }
        -q - 1
    };
    proof {
        assert(s == (t as int) / second_nanos());
        assert(-9_223_372_036_854_775_808 <= s <= 9_223_372_036_854_775_807) by (nonlinear_arith)
            requires s == t / 1_000_000_000, -8_334_601_315_200_000_000_000 <= t <= 8_210_266_876_799_999_999_999;
    }
    let secs64 = s as i64;
    Some(secs64 as usize)
}

/// Message when an expiry cannot be computed.
pub open spec fn expiry_failure_text() -> Seq<char> {
    "Failed to calculate token expiration"@
}

/// Claims issued to a user: they name the user by the UUID text (which
/// reads back as the user), the e-mail, and the token's type.
pub open spec fn issued(c: Claims, user_id: Id, email: Seq<char>, token_type: Seq<char>) -> bool {
    &&& c.sub@ == uuid_text(user_id)
    &&& uuid_parse(c.sub@) == Ok::<u128, Seq<char>>(user_id)
    &&& c.email@ == email
    &&& c.token_type@ == token_type
}

/// The claims of the access token and of the refresh token of a user,
/// issued at `now`: they name the user and e-mail, expire after one hour
/// and after seven days, and are typed "access" and "refresh".
pub fn generate_auth_claims(user_id: Id, email: &str, now: Timestamp) -> (r: Result<(Claims, Claims), String>)
    requires
        within_chrono_range(now as int),
    ensures
        match (expiry_after(now as int, access_lifetime()), expiry_after(now as int, refresh_lifetime())) {
            (Some(a), Some(f)) => r matches Ok((access, refresh)) && {
                &&& issued(access, user_id, email@, "access"@) && access.exp == a
                &&& issued(refresh, user_id, email@, "refresh"@) && refresh.exp == f
            },
            _ => r matches Err(e) && e@ == expiry_failure_text(),
        },
{
    let access_exp = match expiry(now, 3600) {
        Some(e) => e,
        None => {
            return Err(String::from_str("Failed to calculate token expiration"));
        },
    };
    let refresh_exp = match expiry(now, 604800) {
        Some(e) => e,
        None => {
            return Err(String::from_str("Failed to calculate token expiration"));
        },
    };
    let access = Claims {
        sub: id_text(user_id),
        email: copy_text(email),
        exp: access_exp,
        token_type: String::from_str("access"),
    };
    let refresh = Claims {
        sub: id_text(user_id),
        email: copy_text(email),
        exp: refresh_exp,
        token_type: String::from_str("refresh"),
    };
    Ok((access, refresh))
}

/// What accepting a decoded token of an expected type gives: the decoder's
/// complaint as `"Invalid token: ..."`, a token of another type as
/// `"Invalid token type: expected ..."`, else the claims.
pub open spec fn token_refusal(decoded: Result<Claims, String>, expected: Seq<char>) -> Option<Seq<char>> {
    match decoded {
        Err(e) => Some("Invalid token: "@ + e@),
        Ok(c) => if c.token_type@ != expected { Some("Invalid token type: expected "@ + expected) } else { None },
    }
}

/// Accepts a decoded token when it is of the expected type; see
/// `token_refusal`. `decoded` is what decoding and checking the signature
/// and expiry gave: the claims, or the decoder's message.
pub fn check_decoded_token(decoded: Result<Claims, String>, expected_type: &str) -> (r: Result<Claims, String>)
    ensures
        match token_refusal(decoded, expected_type@) {
            Some(m) => r matches Err(e) && e@ == m,
            None => r == decoded,
        },
{
    match decoded {
        Err(e) => Err(concat("Invalid token: ", e.as_str())),
        Ok(c) => {
            if !text_eq(c.token_type.as_str(), expected_type) {
                Err(concat("Invalid token type: expected ", expected_type))
            } else {
                Ok(c)
            }
        },
    }
}

/// What reading a request's authorization header gives: a complaint when
/// it is missing or does not start with "Bearer ", else the token after
/// that word.
pub open spec fn bearer_refusal(header: Option<Seq<char>>) -> Option<Seq<char>> {
    match header {
        None => Some("Missing authorization header"@),
        Some(h) => if !has_prefix(h, "Bearer "@) { Some("Invalid authorization header format"@) } else { None },
    }
}

/// The token of a bearer authorization header; a missing or malformed
/// header is refused as unauthorized. `header` is the header's value, when
/// it is present and is text.
pub fn bearer_token(header: Option<&str>) -> (r: Result<String, AppError>)
    ensures
        match bearer_refusal(match header { Some(h) => Some(h@), None => None }) {
            Some(m) => r matches Err(e) && e.status == UNAUTHORIZED && e.message@ == m,
            None => r matches Ok(t) && t@ == header.unwrap()@.subrange(7, header.unwrap()@.len() as int),
        },
{
    match header {
        None => Err(AppError { status: UNAUTHORIZED, message: String::from_str("Missing authorization header") }),
        Some(h) => {
            if !starts_with_text(h, "Bearer ") {
                return Err(AppError {
                    status: UNAUTHORIZED,
                    message: String::from_str("Invalid authorization header format"),
                });
            }
            proof {
                reveal_strlit("Bearer ");
            }
            let n = h.unicode_len();
            let token = h.substring_char(7, n);
            Ok(copy_text(token))
        },
    }
}

/// Who an access token names: the decoded token must be an access token
/// whose subject is a UUID; anything else is refused as unauthorized, with
/// the message of `check_decoded_token` or `"Invalid user ID in token: "`
/// and the UUID parser's complaint.
pub fn auth_user_from_claims(decoded: Result<Claims, String>) -> (r: Result<AuthUser, AppError>)
    ensures
        match token_refusal(decoded, "access"@) {
            Some(m) => r matches Err(e) && e.status == UNAUTHORIZED && e.message@ == m,
            None => match uuid_parse(decoded.unwrap().sub@) {
                Err(p) => r matches Err(e) && e.status == UNAUTHORIZED
                    && e.message@ == "Invalid user ID in token: "@ + p,
                Ok(id) => r matches Ok(u) && u.id == id && u.email == decoded.unwrap().email,
            },
        },
{
    let claims = match check_decoded_token(decoded, "access") {
        Ok(c) => c,
        Err(m) => {
            return Err(AppError { status: UNAUTHORIZED, message: m });
        },
    };
    match parse_id(claims.sub.as_str()) {
        Ok(id) => Ok(AuthUser { id, email: claims.email }),
        Err(p) => Err(AppError { status: UNAUTHORIZED, message: concat("Invalid user ID in token: ", p.as_str()) }),
    }
}

/// What the `bcrypt` crate's `verify` gives for a password and a stored
/// hash: whether they match, or the error's message.
pub uninterp spec fn bcrypt_verdict(password: Seq<char>, hash: Seq<char>) -> Result<bool, Seq<char>>;

/// Calls `bcrypt::hash` with the crate's default cost. The salt is random,
/// so the hash is not a function of the password; the contract claims
/// what the crate's source shows of every hash it returns: `verify` accepts
/// the password against it (both use the same first 72 bytes and the salt
/// written into the hash). Errors carry the crate's message.
#[verifier::external_body]
fn bcrypt_hash(password: &str) -> (r: Result<String, String>)
    ensures
        match r {
            Ok(h) => bcrypt_verdict(password@, h@) == Ok::<bool, Seq<char>>(true),
            Err(_) => true,
        },
{
    bcrypt::hash(password, bcrypt::DEFAULT_COST).map_err(|e| e.to_string())
}

/// Calls `bcrypt::verify`; the contract claims only that the result is a
/// function of password and hash: `bcrypt_verdict`.
#[verifier::external_body]
fn bcrypt_verify(password: &str, hash: &str) -> (r: Result<bool, String>)
    ensures
        match (r, bcrypt_verdict(password@, hash@)) {
            (Ok(b), Ok(c)) => b == c,
            (Err(e), Err(f)) => e@ == f,
            _ => false,
        },
{
    bcrypt::verify(password, hash).map_err(|e| e.to_string())
}

/// The stored hash was made from the password: checking the password
/// against it succeeds.
pub open spec fn hashes_password(password: Seq<char>, hash: Seq<char>) -> bool {
    bcrypt_verdict(password, hash) == Ok::<bool, Seq<char>>(true)
}

/// What checking a password against a stored hash gives: whether they
/// match, or `"Password verification failed: "` and bcrypt's
/// complaint.
pub open spec fn password_check(password: Seq<char>, hash: Seq<char>) -> Result<bool, Seq<char>> {
    match bcrypt_verdict(password, hash) {
        Ok(b) => Ok(b),
        Err(f) => Err("Password verification failed: "@ + f),
    }
}

/// Hashes a password for storage; failures read
/// `"Password hashing failed: ..."`. A hash that comes back verifies the
/// password.
pub fn hash_password(password: &str) -> (r: Result<String, String>)
    ensures
        r matches Ok(h) ==> hashes_password(password@, h@),
        r matches Err(e) ==> has_prefix(e@, "Password hashing failed: "@),
{
    match bcrypt_hash(password) {
        Ok(h) => Ok(h),
        Err(e) => {
            let m = concat("Password hashing failed: ", e.as_str());
            proof {
                assert(m@.subrange(0, "Password hashing failed: "@.len() as int) =~= "Password hashing failed: "@);
            }
            Err(m)
        },
    }
}

/// Checks a password against a stored hash; failures read
/// `"Password verification failed: ..."`.
pub fn verify_password(password: &str, hashed: &str) -> (r: Result<bool, String>)
    ensures
        match password_check(password@, hashed@) {
            Ok(b) => r == Ok::<bool, String>(b),
            Err(m) => r matches Err(e) && e@ == m,
        },
{
    match bcrypt_verify(password, hashed) {
        Ok(b) => Ok(b),
        Err(e) => Err(concat("Password verification failed: ", e.as_str())),
    }
}

/// Sign-up is refused when the e-mail is taken: `existing` is the lookup
/// of a user by the e-mail.
pub fn check_email_free(existing: Option<User>) -> (r: Result<(), String>)
    ensures
        existing is Some ==> (r matches Err(e) && e@ == "Email already in use"@),
        existing is None ==> r is Ok,
{
    match existing {
        Some(_) => Err(String::from_str("Email already in use")),
        None => Ok(()),
    }
}

/// Message for a failed sign-in.
pub open spec fn bad_credentials_text() -> Seq<char> {
    "Invalid email or password"@
}

/// What signing in gives: the user found by the e-mail when the password
/// matches its hash; an unknown e-mail and a wrong password the same
/// message; a hash that cannot be checked bcrypt's complaint.
pub open spec fn login_result(found: Option<User>, password: Seq<char>) -> Result<User, Seq<char>> {
    match found {
        None => Err(bad_credentials_text()),
        Some(u) => match password_check(password, u.password_hash@) {
            Ok(true) => Ok(u),
            Ok(false) => Err(bad_credentials_text()),
            Err(m) => Err(m),
        },
    }
}

/// Signs a user in: `found` is the lookup of a user by the e-mail. An
/// unknown e-mail and a wrong password get the same message; a hash that
/// cannot be checked gets bcrypt's complaint.
pub fn login(found: Option<User>, password: &str) -> (r: Result<User, String>)
    ensures
        match (r, login_result(found, password@)) {
            (Ok(a), Ok(b)) => a == b,
            (Err(e), Err(m)) => e@ == m,
            _ => false,
        },
{
    let user = match found {
        Some(u) => u,
        None => {
            return Err(String::from_str("Invalid email or password"));
        },
    };
    let valid = verify_password(password, user.password_hash.as_str())?;
    if !valid {
        return Err(String::from_str("Invalid email or password"));
    }
    Ok(user)
}

/// Who a refresh token names: the decoded token must be a refresh token
/// whose subject is a UUID.
pub fn refresh_subject(decoded: Result<Claims, String>) -> (r: Result<Id, String>)
    ensures
        match token_refusal(decoded, "refresh"@) {
            Some(m) => r matches Err(e) && e@ == m,
            None => match uuid_parse(decoded.unwrap().sub@) {
                Err(_) => r matches Err(e) && e@ == "Invalid user ID in token"@,
                Ok(id) => r == Ok::<Id, String>(id),
            },
        },
{
    let claims = check_decoded_token(decoded, "refresh")?;
    match parse_id(claims.sub.as_str()) {
        Ok(id) => Ok(id),
        Err(_) => Err(String::from_str("Invalid user ID in token")),
    }
}

/// The user a refresh token names must still exist.
pub fn refresh_user(found: Option<User>) -> (r: Result<User, String>)
    ensures
        match found {
            None => r matches Err(e) && e@ == "User not found"@,
            Some(u) => r == Ok::<User, String>(u),
        },
{
    match found {
        Some(u) => Ok(u),
        None => Err(String::from_str("User not found")),
    }
}

/// The answer to a successful sign-up, sign-in or refresh.
pub fn auth_response(user: User, token: String, refresh_token: String) -> (r: AuthResponse)
    ensures
        r.token == token,
        r.refresh_token == refresh_token,
        r.user.id == user.id,
        r.user.email == user.email,
        r.user.username == user.username,
{
    AuthResponse { token, refresh_token, user: UserResponse::from(user) }
}

/// A user whose stored hash was made from a password signs in with that
/// password: checking it succeeds and the sign-in gives the user back.
pub proof fn lemma_registered_password_signs_in(user: User, password: Seq<char>)
    requires
        hashes_password(password, user.password_hash@),
    ensures
        password_check(password, user.password_hash@) == Ok::<bool, Seq<char>>(true),
        login_result(Some(user), password) == Ok::<User, Seq<char>>(user),
{
}

/// Claims issued to a user are accepted for their own type and name the
/// user again: an access token's claims are let in as that user, a refresh
/// token's claims refresh that user.
pub proof fn lemma_issued_claims_accepted(c: Claims, user_id: Id, email: Seq<char>, token_type: Seq<char>)
    requires
        issued(c, user_id, email, token_type),
    ensures
        token_refusal(Ok::<Claims, String>(c), token_type) is None,
        uuid_parse(Ok::<Claims, String>(c).unwrap().sub@) == Ok::<u128, Seq<char>>(user_id),
{
}

} // verus!
