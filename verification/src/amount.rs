use vstd::prelude::*;
use crate::error::concat;
use crate::text::{all_digits, chars_of, digits_value, lemma_digits_value_zero, slice_chars, string_of};

verus! {

/// Ten to the power `n`.
pub open spec fn pow10(n: nat) -> int
    decreases n,
{
    if n == 0 { 1 } else { 10 * pow10((n - 1) as nat) }
}

/// The value `digits * 10^-scale` expressed in units of `10^-k`, for a
/// `k` no smaller than `scale`.
pub open spec fn value_at(digits: int, scale: int, k: int) -> int {
    digits * pow10((k - scale) as nat)
}

/// A text of decimal digits with an optional leading minus sign.
pub open spec fn signed_digits(t: Seq<char>) -> bool {
    &&& t.len() > 0
    &&& if t[0] == '-' { t.len() > 1 && all_digits(t.subrange(1, t.len() as int)) } else { all_digits(t) }
}

/// The integer that such a text denotes.
pub open spec fn signed_value(t: Seq<char>) -> int {
    if t.len() > 0 && t[0] == '-' { -digits_value(t.subrange(1, t.len() as int)) } else { digits_value(t) }
}

/// An exact decimal amount of money, `value * 10^-scale`, of any size:
/// a sign, the decimal digits of the value's magnitude and the scale.
#[derive(Debug)]
pub struct Amount {
    negative: bool,
    magnitude: Vec<char>,
    scale: i64,
}

impl View for Amount {
    type V = (int, int);

    closed spec fn view(&self) -> (int, int) {
        let m = digits_value(self.magnitude@);
        (if self.negative { -m } else { m }, self.scale as int)
    }
}

/// Two decimals `(d1, s1)` and `(d2, s2)` denote the same number.
pub open spec fn same_value(a: (int, int), b: (int, int)) -> bool {
    let k = if a.1 >= b.1 { a.1 } else { b.1 };
    value_at(a.0, a.1, k) == value_at(b.0, b.1, k)
}

/// The negation of a decimal.
pub open spec fn neg_of(a: (int, int)) -> (int, int) {
    (-a.0, a.1)
}

/// What parsing a decimal text with the `bigdecimal` crate gives: the
/// parse error's message, or the unscaled value and the scale.
pub uninterp spec fn decimal_parse(s: Seq<char>) -> Result<(int, int), Seq<char>>;

/// The text that the `bigdecimal` crate prints for `value * 10^-scale`.
pub uninterp spec fn decimal_text(value: int, scale: int) -> Seq<char>;

/// Calls `<bigdecimal::BigDecimal as FromStr>::from_str` and splits the
/// result into its unscaled integer, printed by num-bigint's `Display`
/// (an optional minus sign, then decimal digits), and its scale. The
/// contract claims that the result is a function of the text
/// (`decimal_parse`) and that the integer's text has that form.
#[verifier::external_body]
fn parse_decimal(s: &str) -> (r: Result<(String, i64), String>)
    ensures
        match (r, decimal_parse(s@)) {
            (Ok((t, sc)), Ok((v, w))) => signed_digits(t@) && signed_value(t@) == v && sc as int == w,
            (Err(e), Err(f)) => e@ == f,
            _ => false,
        },
{
    let d = <bigdecimal::BigDecimal as std::str::FromStr>::from_str(s).map_err(|e| e.to_string())?;
    let (int_val, scale) = d.into_bigint_and_exponent();
    Ok((int_val.to_string(), scale))
}

/// Calls `Display` of `bigdecimal::BigDecimal::new(value, scale)`, the
/// value read from its signed digits by num-bigint's `FromStr` (which
/// accepts every such text). The contract claims only that the text is a
/// function of the value and the scale: `decimal_text`.
#[verifier::external_body]
fn format_decimal(value: &str, scale: i64) -> (r: String)
    requires
        signed_digits(value@),
    ensures
        r@ == decimal_text(signed_value(value@), scale as int),
{
    match value.parse::<bigdecimal::num_bigint::BigInt>() {
        Ok(v) => bigdecimal::BigDecimal::new(v, scale).to_string(),
        Err(_) => String::new(),
    }
}

/// Calls `==` of `bigdecimal::BigDecimal` on two decimals, each built by
/// `BigDecimal::new` from its value (read from signed digits by
/// num-bigint's `FromStr`) and its scale. The crate compares by value (two
/// zeros are equal; otherwise signs, then the values brought to one scale),
/// which the contract states as `same_value`.
#[verifier::external_body]
fn decimal_eq(a: &str, a_scale: i64, b: &str, b_scale: i64) -> (r: bool)
    requires
        signed_digits(a@),
        signed_digits(b@),
    ensures
        r == same_value((signed_value(a@), a_scale as int), (signed_value(b@), b_scale as int)),
{
    match (a.parse::<bigdecimal::num_bigint::BigInt>(), b.parse::<bigdecimal::num_bigint::BigInt>()) {
        (Ok(x), Ok(y)) => bigdecimal::BigDecimal::new(x, a_scale) == bigdecimal::BigDecimal::new(y, b_scale),
        _ => false,
    }
}

impl Amount {
    #[verifier::type_invariant]
    spec fn well_formed(self) -> bool {
        self.magnitude@.len() > 0 && all_digits(self.magnitude@)
    }

    /// The value in decimal digits, with a leading minus sign when the
    /// amount is negative; the amount is that value times `10^-scale()`.
    pub fn digits_text(&self) -> (t: String)
        ensures
            signed_digits(t@),
            signed_value(t@) == self@.0,
    {
        proof {
            use_type_invariant(self);
        }
        let m = string_of(&self.magnitude);
        if self.negative {
            let t = concat("-", m.as_str());
            proof {
                reveal_strlit("-");
                assert(t@[0] == '-');
                assert(t@.subrange(1, t@.len() as int) =~= self.magnitude@);
            }
            t
        } else {
            proof {
                if m@.len() > 0 && m@[0] == '-' {
                    assert(!('0' <= m@[0] && m@[0] <= '9'));
                }
            }
            m
        }
    }

    /// The number of decimal places.
    pub fn scale(&self) -> (s: i64)
        ensures
            s == self@.1,
    {
        self.scale
    }

    /// Zero.
    pub fn zero() -> (a: Amount)
        ensures
            a@ == (0int, 0int),
    {
        let magnitude = vec!['0'];
        proof {
            assert(magnitude@[0] == '0');
            lemma_digits_value_zero(magnitude@);
        }
        Amount { negative: false, magnitude, scale: 0 }
    }

    /// A copy of the amount.
    pub fn duplicate(&self) -> (r: Amount)
        ensures
            r@ == self@,
    {
        proof {
            use_type_invariant(self);
        }
        let n = self.magnitude.len();
        let magnitude = slice_chars(&self.magnitude, 0, n);
        proof {
            assert(magnitude@ =~= self.magnitude@);
        }
        Amount { negative: self.negative, magnitude, scale: self.scale }
    }

    /// The amount with the opposite sign, at the same scale.
    pub fn neg(&self) -> (r: Amount)
        ensures
            r@ == neg_of(self@),
    {
        proof {
            use_type_invariant(self);
        }
        let n = self.magnitude.len();
        let magnitude = slice_chars(&self.magnitude, 0, n);
        proof {
            assert(magnitude@ =~= self.magnitude@);
        }
        Amount { negative: !self.negative, magnitude, scale: self.scale }
    }

    /// The amount is greater than zero.
    pub fn is_positive(&self) -> (b: bool)
        ensures
            b == (self@.0 > 0),
    {
        proof {
            use_type_invariant(self);
            lemma_digits_value_zero(self.magnitude@);
        }
        let mut i: usize = 0;
        while i < self.magnitude.len()
            invariant
                i <= self.magnitude@.len(),
                forall|j: int| 0 <= j < i ==> self.magnitude@[j] == '0',
            decreases self.magnitude@.len() - i,
        {
            if self.magnitude[i] != '0' {
                proof {
                    use_type_invariant(self);
                    lemma_digits_value_zero(self.magnitude@);
                    assert(self.magnitude@[i as int] != '0');
                }
                return !self.negative;
            }
            i = i + 1;
        }
        proof {
            use_type_invariant(self);
            lemma_digits_value_zero(self.magnitude@);
        }
        false
    }

    /// Both amounts denote the same number, whatever their scales.
    pub fn same_value_as(&self, other: &Amount) -> (b: bool)
        ensures
            b == same_value(self@, other@),
    {
        let a = self.digits_text();
        let c = other.digits_text();
        decimal_eq(a.as_str(), self.scale, c.as_str(), other.scale)
    }

    /// The decimal text of the amount, as the `bigdecimal` crate prints it.
    pub fn to_text(&self) -> (s: String)
        ensures
            s@ == decimal_text(self@.0, self@.1),
    {
        let t = self.digits_text();
        format_decimal(t.as_str(), self.scale)
    }

    /// Parses a decimal text, of any number of digits; fails with the
    /// parser's message when the text is no decimal.
    pub fn parse(s: &str) -> (r: Result<Amount, String>)
        ensures
            match decimal_parse(s@) {
                Err(msg) => r matches Err(e) && e@ == msg,
                Ok(v) => r matches Ok(a) && a@ == v,
            },
    {
        let (text, scale) = parse_decimal(s)?;
        let c = chars_of(text.as_str());
        if c[0] == '-' {
            let n = c.len();
            let magnitude = slice_chars(&c, 1, n);
            Ok(Amount { negative: true, magnitude, scale })
        } else {
            proof {
                assert(c@[0] != '-');
            }
            Ok(Amount { negative: false, magnitude: c, scale })
        }
    }
}

/// Negation flips the value at every scale.
pub proof fn lemma_neg_value(a: (int, int), k: int)
    ensures
        value_at(neg_of(a).0, neg_of(a).1, k) == -value_at(a.0, a.1, k),
{
    let p = pow10((k - a.1) as nat);
    assert((-a.0) * p == -(a.0 * p)) by (nonlinear_arith);
}

} // verus!
