use vstd::prelude::*;
use crate::amount::{Amount, decimal_parse};
use crate::ids::Id;
use crate::pockets::Pocket;
use crate::categories::Category;
use crate::search::{first_index, lemma_first_index_found, lemma_first_index_none};
use crate::text::{
    lowercase, lowercase_text, chars_of, string_of, contains_chars, has_substring, join_with_space,
};

verus! {

/// What the first capture group of a regular expression, compiled and run
/// with the `regex` crate, matches first in a text; nothing when the
/// pattern does not compile or does not match.
pub uninterp spec fn regex_first_group(pattern: Seq<char>, text: Seq<char>) -> Option<Seq<char>>;

/// Calls `regex::Regex::new`, `captures` and `get(1)`. The contract claims
/// that the result is a function of pattern and text
/// (`regex_first_group`) and, as the crate documents of every match, that
/// the matched text occurs in the text searched. Which part matches is not
/// stated.
#[verifier::external_body]
fn first_group(pattern: &str, text: &str) -> (r: Option<String>)
    ensures
        match r {
            Some(g) => regex_first_group(pattern@, text@) == Some(g@) && has_substring(text@, g@),
            None => regex_first_group(pattern@, text@) is None,
        },
{
    regex::Regex::new(pattern).ok()?.captures(text)?.get(1).map(|m| m.as_str().to_string())
}

/// The pattern for an amount written after "Rp", in any case.
pub open spec fn rupiah_pattern() -> Seq<char> {
    "(?i)rp\\s*([0-9\\.\\,]+)"@
}

/// The pattern for a number grouped in thousands with dots, as 80.000.
pub open spec fn grouped_number_pattern() -> Seq<char> {
    "\\b([0-9]{1,3}(\\.[0-9]{3})+)\\b"@
}

/// A text without its dots.
pub open spec fn without_dots(s: Seq<char>) -> Seq<char> {
    s.filter(|c: char| c != '.')
}

/// A text with its commas turned into dots.
pub open spec fn commas_to_dots(s: Seq<char>) -> Seq<char> {
    s.map_values(|c: char| if c == ',' { '.' } else { c })
}

/// The decimal that a text parses to, if it parses.
pub open spec fn parsed_value(s: Seq<char>) -> Option<(int, int)> {
    match decimal_parse(s) {
        Ok(v) => Some(v),
        Err(_) => None,
    }
}

/// The amount read from a notification's title and body when nothing else
/// gave one: the number after "Rp" (dots as thousands separators, a comma
/// as the decimal point), else the first number grouped in thousands with
/// dots.
pub open spec fn amount_fallback(title: Seq<char>, body: Seq<char>) -> Option<(int, int)> {
    let text = title + seq![' '] + body;
    let first = match regex_first_group(rupiah_pattern(), text) {
        Some(g) => parsed_value(commas_to_dots(without_dots(g))),
        None => None,
    };
    if first is Some {
        first
    } else {
        match regex_first_group(grouped_number_pattern(), text) {
            Some(g) => parsed_value(without_dots(g)),
            None => None,
        }
    }
}

/// The characters of a text but its dots.
pub fn remove_dots(s: &Vec<char>) -> (r: Vec<char>)
    ensures
        r@ == without_dots(s@),
{
    let mut r: Vec<char> = Vec::new();
    let mut i: usize = 0;
    while i < s.len()
        invariant
            i <= s@.len(),
            r@ == without_dots(s@.subrange(0, i as int)),
        decreases s@.len() - i,
    {
        let c = s[i];
        proof {
            reveal_with_fuel(Seq::<_>::filter, 1);
            let q = s@.subrange(0, i + 1);
            assert(q.drop_last() =~= s@.subrange(0, i as int));
            assert(q.last() == c);
        }
        if c != '.' {
            r.push(c);
        }
        i = i + 1;
    }
    proof {
        assert(s@.subrange(0, s@.len() as int) =~= s@);
    }
    r
}

/// The characters of a text with commas turned into dots.
pub fn replace_commas(s: &Vec<char>) -> (r: Vec<char>)
    ensures
        r@ == commas_to_dots(s@),
{
    let mut r: Vec<char> = Vec::new();
    let mut i: usize = 0;
    while i < s.len()
        invariant
            i <= s@.len(),
            r@ == commas_to_dots(s@.subrange(0, i as int)),
        decreases s@.len() - i,
    {
        let c = s[i];
        if c == ',' {
            r.push('.');
        } else {
            r.push(c);
        }
        i = i + 1;
        proof {
            assert(r@ =~= commas_to_dots(s@.subrange(0, i as int)));
        }
    }
    proof {
        assert(s@.subrange(0, s@.len() as int) =~= s@);
    }
    r
}

/// The decimal a text parses to, if it parses.
fn parse_value(s: &Vec<char>) -> (r: Option<Amount>)
    ensures
        match parsed_value(s@) {
            Some(v) => r matches Some(a) && a@ == v,
            None => r is None,
        },
{
    let text = string_of(s);
    match Amount::parse(text.as_str()) {
        Ok(a) => Some(a),
        Err(_) => None,
    }
}

/// Reads an amount from a notification's title and body; see
/// `amount_fallback`.
pub fn extract_amount_fallback(title: &str, body: &str) -> (r: Option<Amount>)
    ensures
        match amount_fallback(title@, body@) {
            Some(v) => r matches Some(a) && a@ == v,
            None => r is None,
        },
{
    let joined = join_with_space(title, body);
    let text = string_of(&joined);
    match first_group("(?i)rp\\s*([0-9\\.\\,]+)", text.as_str()) {
        Some(g) => {
            let chars = chars_of(g.as_str());
            let cleaned = replace_commas(&remove_dots(&chars));
            match parse_value(&cleaned) {
                Some(a) => {
                    return Some(a);
                },
                None => {},
            }
        },
        None => {},
    }
    match first_group("\\b([0-9]{1,3}(\\.[0-9]{3})+)\\b", text.as_str()) {
        Some(g) => {
            let chars = chars_of(g.as_str());
            let cleaned = remove_dots(&chars);
            parse_value(&cleaned)
        },
        None => None,
    }
}

/// The words that mark an incoming payment.
pub open spec fn mentions_income(text: Seq<char>) -> bool {
    ||| has_substring(text, "uang masuk"@)
    ||| has_substring(text, "menerima"@)
    ||| has_substring(text, "received"@)
    ||| has_substring(text, "masuk"@)
    ||| has_substring(text, "tambah saldo"@)
}

/// The words that mark a transfer.
pub open spec fn mentions_transfer(text: Seq<char>) -> bool {
    ||| has_substring(text, "transfer"@)
    ||| has_substring(text, "kirim"@)
    ||| has_substring(text, "pindah"@)
}

/// The transaction type read from a notification's title and body when
/// nothing else gave one: income when the lower-cased text mentions money
/// coming in, else transfer when it mentions sending, else expense.
pub open spec fn type_fallback(title: Seq<char>, body: Seq<char>) -> Seq<char> {
    let text = lowercase_text(title + seq![' '] + body);
    if mentions_income(text) {
        "income"@
    } else if mentions_transfer(text) {
        "transfer"@
    } else {
        "expense"@
    }
}

fn mentions(text: &Vec<char>, word: &str) -> (b: bool)
    ensures
        b == has_substring(text@, word@),
{
    let w = chars_of(word);
    contains_chars(text, &w)
}

/// Reads a transaction type from a notification's title and body; see
/// `type_fallback`.
pub fn extract_type_fallback(title: &str, body: &str) -> (r: String)
    ensures
        r@ == type_fallback(title@, body@),
{
    let joined = string_of(&join_with_space(title, body));
    let lower = lowercase(joined.as_str());
    let text = chars_of(lower.as_str());
    if mentions(&text, "uang masuk") || mentions(&text, "menerima") || mentions(&text, "received")
        || mentions(&text, "masuk") || mentions(&text, "tambah saldo") {
        String::from_str("income")
    } else if mentions(&text, "transfer") || mentions(&text, "kirim") || mentions(&text, "pindah") {
        String::from_str("transfer")
    } else {
        String::from_str("expense")
    }
}

/// The type read from a notification's words: income when the lower-cased
/// title and body mention "uang masuk", "menerima", "received", "masuk" or
/// "tambah saldo"; otherwise transfer when they mention "transfer", "kirim"
/// or "pindah"; otherwise expense.
pub proof fn lemma_type_fallback_by_words(title: Seq<char>, body: Seq<char>)
    ensures
        ({
            let text = lowercase_text(title + seq![' '] + body);
            let income = has_substring(text, "uang masuk"@) || has_substring(text, "menerima"@)
                || has_substring(text, "received"@) || has_substring(text, "masuk"@)
                || has_substring(text, "tambah saldo"@);
            let transfer = has_substring(text, "transfer"@) || has_substring(text, "kirim"@)
                || has_substring(text, "pindah"@);
            &&& income ==> type_fallback(title, body) == "income"@
            &&& !income && transfer ==> type_fallback(title, body) == "transfer"@
            &&& !income && !transfer ==> type_fallback(title, body) == "expense"@
        }),
{
}

/// A pocket or category known by its name.
#[derive(Debug)]
pub struct Named {
    pub id: Id,
    pub name: String,
}

/// Named items as plain values.
pub open spec fn named_view(items: Seq<Named>) -> Seq<(Id, Seq<char>)> {
    items.map_values(|n: Named| (n.id, n.name@))
}

/// The pockets by name.
pub fn named_pockets(ps: &Vec<Pocket>) -> (r: Vec<Named>)
    ensures
        named_view(r@) == ps@.map_values(|p: Pocket| (p.id, p.name@)),
{
    let mut r: Vec<Named> = Vec::new();
    let mut i: usize = 0;
    while i < ps.len()
        invariant
            i <= ps@.len(),
            r@.len() == i,
            forall|j: int| 0 <= j < i ==> (#[trigger] r@[j]).id == ps@[j].id && r@[j].name@ == ps@[j].name@,
        decreases ps@.len() - i,
    {
        r.push(Named { id: ps[i].id, name: crate::text::copy_text(&ps[i].name) });
        i = i + 1;
    }
    proof {
        assert(named_view(r@) =~= ps@.map_values(|p: Pocket| (p.id, p.name@)));
    }
    r
}

/// The categories by name.
pub fn named_categories(cs: &Vec<Category>) -> (r: Vec<Named>)
    ensures
        named_view(r@) == cs@.map_values(|c: Category| (c.id, c.name@)),
{
    let mut r: Vec<Named> = Vec::new();
    let mut i: usize = 0;
    while i < cs.len()
        invariant
            i <= cs@.len(),
            r@.len() == i,
            forall|j: int| 0 <= j < i ==> (#[trigger] r@[j]).id == cs@[j].id && r@[j].name@ == cs@[j].name@,
        decreases cs@.len() - i,
    {
        r.push(Named { id: cs[i].id, name: crate::text::copy_text(&cs[i].name) });
        i = i + 1;
    }
    proof {
        assert(named_view(r@) =~= cs@.map_values(|c: Category| (c.id, c.name@)));
    }
    r
}

/// One lower-cased name contains the other.
pub open spec fn names_related(a: Seq<char>, b: Seq<char>) -> bool {
    has_substring(lowercase_text(a), lowercase_text(b)) || has_substring(lowercase_text(b), lowercase_text(a))
}

/// The first item whose name and the given name contain one another,
/// ignoring case.
pub open spec fn first_related(items: Seq<(Id, Seq<char>)>, name: Seq<char>) -> Option<Id> {
    let k = first_index(items.len() as int, |i: int| names_related(items[i].1, name));
    if k < 0 { None } else { Some(items[k].0) }
}

/// The first item whose lower-cased name occurs in the lower-cased text.
pub open spec fn first_mentioned(items: Seq<(Id, Seq<char>)>, text: Seq<char>) -> Option<Id> {
    let k = first_index(items.len() as int, |i: int| has_substring(lowercase_text(text), lowercase_text(items[i].1)));
    if k < 0 { None } else { Some(items[k].0) }
}

/// The first item whose name and the given name contain one another,
/// ignoring case.
pub fn find_by_name(items: &Vec<Named>, name: &str) -> (r: Option<Id>)
    ensures
        r == first_related(named_view(items@), name@),
{
    let ghost v = named_view(items@);
    let ghost p = |i: int| names_related(v[i].1, name@);
    let lname = lowercase(name);
    let q = chars_of(lname.as_str());
    let mut i: usize = 0;
    while i < items.len()
        invariant
            i <= items@.len(),
            v == named_view(items@),
            p == (|i: int| names_related(v[i].1, name@)),
            q@ == lowercase_text(name@),
            forall|j: int| 0 <= j < i ==> !#[trigger] p(j),
        decreases items@.len() - i,
    {
        let lower = lowercase(items[i].name.as_str());
        let n = chars_of(lower.as_str());
        if contains_chars(&n, &q) || contains_chars(&q, &n) {
            proof {
                assert(p(i as int));
                lemma_first_index_found(v.len() as int, p, i as int);
            }
            return Some(items[i].id);
        }
        proof {
            assert(!p(i as int));
        }
        i = i + 1;
    }
    proof {
        lemma_first_index_none(v.len() as int, p);
    }
    None
}

/// The first item whose lower-cased name occurs in the lower-cased text.
pub fn find_mentioned(items: &Vec<Named>, text: &str) -> (r: Option<Id>)
    ensures
        r == first_mentioned(named_view(items@), text@),
{
    let ghost v = named_view(items@);
    let ghost p = |i: int| has_substring(lowercase_text(text@), lowercase_text(v[i].1));
    let ltext = lowercase(text);
    let t = chars_of(ltext.as_str());
    let mut i: usize = 0;
    while i < items.len()
        invariant
            i <= items@.len(),
            v == named_view(items@),
            p == (|i: int| has_substring(lowercase_text(text@), lowercase_text(v[i].1))),
            t@ == lowercase_text(text@),
            forall|j: int| 0 <= j < i ==> !#[trigger] p(j),
        decreases items@.len() - i,
    {
        let lower = lowercase(items[i].name.as_str());
        let n = chars_of(lower.as_str());
        if contains_chars(&t, &n) {
            proof {
                assert(p(i as int));
                lemma_first_index_found(v.len() as int, p, i as int);
            }
            return Some(items[i].id);
        }
        proof {
            assert(!p(i as int));
        }
        i = i + 1;
    }
    proof {
        lemma_first_index_none(v.len() as int, p);
    }
    None
}

/// The first item whose lower-cased name contains the lower-cased name
/// given.
pub open spec fn first_containing(items: Seq<(Id, Seq<char>)>, name: Seq<char>) -> Option<Id> {
    let k = first_index(items.len() as int, |i: int| has_substring(lowercase_text(items[i].1), lowercase_text(name)));
    if k < 0 { None } else { Some(items[k].0) }
}

/// The first item whose lower-cased name contains the lower-cased name
/// given.
pub fn find_containing(items: &Vec<Named>, name: &str) -> (r: Option<Id>)
    ensures
        r == first_containing(named_view(items@), name@),
{
    let ghost v = named_view(items@);
    let ghost p = |i: int| has_substring(lowercase_text(v[i].1), lowercase_text(name@));
    let lname = lowercase(name);
    let q = chars_of(lname.as_str());
    let mut i: usize = 0;
    while i < items.len()
        invariant
            i <= items@.len(),
            v == named_view(items@),
            p == (|i: int| has_substring(lowercase_text(v[i].1), lowercase_text(name@))),
            q@ == lowercase_text(name@),
            forall|j: int| 0 <= j < i ==> !#[trigger] p(j),
        decreases items@.len() - i,
    {
        let lower = lowercase(items[i].name.as_str());
        let n = chars_of(lower.as_str());
        if contains_chars(&n, &q) {
            proof {
                assert(p(i as int));
                lemma_first_index_found(v.len() as int, p, i as int);
            }
            return Some(items[i].id);
        }
        proof {
            assert(!p(i as int));
        }
        i = i + 1;
    }
    proof {
        lemma_first_index_none(v.len() as int, p);
    }
    None
}

} // verus!
