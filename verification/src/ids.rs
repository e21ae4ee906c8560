use vstd::prelude::*;

verus! {

/// Identifiers of users, pockets, categories, transactions and
/// notifications are 128-bit UUIDs, held as their integer value.
pub type Id = u128;

/// The nil UUID.
pub open spec fn nil_id() -> Id {
    0
}

/// What `uuid::Uuid::parse_str` gives for a text: the UUID's integer value,
/// or the parse error's message.
pub uninterp spec fn uuid_parse(s: Seq<char>) -> Result<u128, Seq<char>>;

/// Sixteen to the power `n`.
pub open spec fn pow16(n: nat) -> int
    decreases n,
{
    if n == 0 { 1 } else { 16 * pow16((n - 1) as nat) }
}

/// The lower-case hexadecimal digit of a value below sixteen.
pub open spec fn hex_digit(n: int) -> char {
    if n < 10 { (48 + n) as char } else { (87 + n) as char }
}

/// The `j`-th of the 32 hexadecimal digits of `v`, the most significant
/// first.
pub open spec fn hex_digit_at(v: u128, j: int) -> char {
    hex_digit((v as int / pow16((31 - j) as nat)) % 16)
}

/// How many hyphens come before position `i` of the hyphenated form.
pub open spec fn hyphens_before(i: int) -> int {
    if i < 8 { 0 } else if i < 13 { 1 } else if i < 18 { 2 } else if i < 23 { 3 } else { 4 }
}

/// The text that `uuid::Uuid` prints for an integer value: its 32
/// lower-case hexadecimal digits, the most significant first, in groups of
/// 8, 4, 4, 4 and 12 joined by hyphens.
pub open spec fn uuid_text(v: u128) -> Seq<char> {
    Seq::new(36, |i: int|
        if i == 8 || i == 13 || i == 18 || i == 23 { '-' } else { hex_digit_at(v, i - hyphens_before(i)) })
}


/// Calls `uuid::Uuid::new_v4`. The identifier is random: nothing is
/// claimed of it.
#[verifier::external_body]
pub(crate) fn fresh_id() -> (id: Id) {
    uuid::Uuid::new_v4().as_u128()
}

/// Calls `uuid::Uuid::parse_str`, giving the integer value or the error's
/// message. The contract claims only that the result is a function of the
/// text: `uuid_parse`.
#[verifier::external_body]
fn uuid_parse_str(s: &str) -> (r: Result<u128, String>)
    ensures
        match (r, uuid_parse(s@)) {
            (Ok(v), Ok(w)) => v == w,
            (Err(e), Err(f)) => e@ == f,
            _ => false,
        },
{
    uuid::Uuid::parse_str(s).map(|u| u.as_u128()).map_err(|e| e.to_string())
}

/// Calls `Display` of `uuid::Uuid::from_u128`; the contract claims, as
/// the crate's source shows, that the text is the hyphenated lower-case
/// form (`uuid_text`) and that `parse_str` reads it back as the value.
#[verifier::external_body]
fn uuid_to_string(v: u128) -> (r: String)
    ensures
        r@ == uuid_text(v),
        match uuid_parse(r@) {
            Ok(w) => w == v,
            Err(_) => false,
        },
{
    uuid::Uuid::from_u128(v).to_string()
}

/// Parses a UUID text into its value, or gives the parser's message.
pub fn parse_id(s: &str) -> (r: Result<Id, String>)
    ensures
        match (r, uuid_parse(s@)) {
            (Ok(v), Ok(w)) => v == w,
            (Err(e), Err(f)) => e@ == f,
            _ => false,
        },
{
    uuid_parse_str(s)
}

/// The hyphenated text of an identifier.
pub fn id_text(v: Id) -> (r: String)
    ensures
        r@ == uuid_text(v),
        uuid_parse(r@) == Ok::<u128, Seq<char>>(v),
{
    uuid_to_string(v)
}

} // verus!
