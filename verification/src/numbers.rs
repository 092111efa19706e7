//! Fixed-point ratios and decimal text for 128-bit amounts.
//!
//! Settlement amounts are plain `u128` values. Ratios (a batch's realized
//! slashing effect, a validator's uptime) are fixed-point numbers with 18
//! fractional decimal digits, held as their atomic count. The one piece of
//! arithmetic that needs a 256-bit intermediate, `floor(a * b / c)`, is
//! delegated to the settlement currency library behind an exact contract.

use vstd::prelude::*;
use vstd::arithmetic::div_mod::{lemma_div_is_ordered, lemma_div_multiples_vanish};
use vstd::arithmetic::mul::lemma_mul_inequality;
use vstd::string::StringExecFns;

verus! {

/// Number of atomic units in 1.0 of the fixed-point ratio scale
/// (18 fractional decimal digits).
pub const RATIO_FRACTIONAL: u128 = 1_000_000_000_000_000_000;

/// Relies on `cosmwasm_std::Uint128::multiply_ratio`: returns
/// `floor(a * b / c)`, computed through a 256-bit intermediate product.
/// It panics when `c == 0` or when the quotient exceeds `u128::MAX`;
/// the preconditions rule both out.
#[verifier::external_body]
pub(crate) fn mul_ratio(a: u128, b: u128, c: u128) -> (r: u128)
    requires
        c != 0,
        a * b / (c as int) <= u128::MAX,
    ensures
        r == a * b / (c as int),
{
    cosmwasm_std::Uint128::new(a).multiply_ratio(b, c).u128()
}

/// `a * b / c <= a` whenever `b <= c`: scaling by a ratio at most one
/// never enlarges the amount.
pub proof fn lemma_mul_div_le(a: int, b: int, c: int)
    requires
        0 <= a,
        0 <= b,
        0 < c,
        b <= c,
    ensures
        a * b / c <= a,
{
    lemma_mul_inequality(b, c, a);
    assert(b * a <= c * a);
    lemma_div_is_ordered(a * b, a * c, c);
    lemma_div_multiples_vanish(a, c);
    assert(c * a == a * c) by (nonlinear_arith);
}

/// `a * b / c < b` whenever `a < c`: a proper fraction of `b` stays
/// below `b`.
pub proof fn lemma_mul_div_lt(a: int, b: int, c: int)
    requires
        0 <= a,
        0 < b,
        0 < c,
        a < c,
    ensures
        a * b / c < b,
{
    lemma_mul_inequality(a, c - 1, b);
    assert(a * b <= (c - 1) * b);
    lemma_div_is_ordered(a * b, (c - 1) * b, c);
    assert(((c - 1) * b) / c <= b - 1) by {
        assert((c - 1) * b == c * b - b) by (nonlinear_arith);
        assert(c * b - b <= c * (b - 1) + (c - 1)) by (nonlinear_arith)
            requires b >= 1;
        lemma_div_is_ordered(c * b - b, c * (b - 1) + (c - 1), c);
        assert((c * (b - 1) + (c - 1)) / c == b - 1) by {
            vstd::arithmetic::div_mod::lemma_div_multiples_vanish_fancy(b - 1, c - 1, c);
        };
    };
}

/// A non-negative fixed-point ratio with 18 fractional decimal digits,
/// held as its count of atomic units: the represented value is
/// `atomics / RATIO_FRACTIONAL`.
#[derive(Clone, Copy, Debug, PartialEq, Eq, Structural)]
pub struct FixedRatio {
    pub atomics: u128,
}

impl FixedRatio {
    /// The ratio does not exceed one.
    pub open spec fn is_proper(self) -> bool {
        self.atomics <= RATIO_FRACTIONAL
    }

    /// The ratio 1.0.
    pub fn one() -> (r: FixedRatio)
        ensures
            r.atomics == RATIO_FRACTIONAL,
            r.is_proper(),
    {
        FixedRatio { atomics: RATIO_FRACTIONAL }
    }

    /// `numer / denom`, saturated at 1.0 and floored to the atomic scale.
    pub fn from_ratio_capped(numer: u128, denom: u128) -> (r: FixedRatio)
        requires
            denom > 0,
        ensures
            r.atomics == if numer >= denom {
                RATIO_FRACTIONAL as int
            } else {
                numer * RATIO_FRACTIONAL / (denom as int)
            },
            r.is_proper(),
    {
        if numer >= denom {
            FixedRatio::one()
        } else {
            proof {
                lemma_mul_div_lt(numer as int, RATIO_FRACTIONAL as int, denom as int);
            }
            FixedRatio { atomics: mul_ratio(numer, RATIO_FRACTIONAL, denom) }
        }
    }

    /// `floor(amount * self)`, for a ratio at most one.
    pub fn apply_floor(self, amount: u128) -> (r: u128)
        requires
            self.is_proper(),
        ensures
            r == amount * self.atomics / (RATIO_FRACTIONAL as int),
            r <= amount,
    {
        proof {
            lemma_mul_div_le(amount as int, self.atomics as int, RATIO_FRACTIONAL as int);
        }
        mul_ratio(amount, self.atomics, RATIO_FRACTIONAL)
    }
}

/// The decimal digit character for `d` in `0..=9`.
pub open spec fn digit_char(d: int) -> char {
    if d == 0 {
        '0'
    } else if d == 1 {
        '1'
    } else if d == 2 {
        '2'
    } else if d == 3 {
        '3'
    } else if d == 4 {
        '4'
    } else if d == 5 {
        '5'
    } else if d == 6 {
        '6'
    } else if d == 7 {
        '7'
    } else if d == 8 {
        '8'
    } else {
        '9'
    }
}

/// The decimal representation of `n`, most significant digit first,
/// without leading zeros (the single digit `0` for zero).
pub open spec fn dec_digits(n: nat) -> Seq<char>
    decreases n,
{
    if n < 10 {
        seq![digit_char(n as int)]
    } else {
        dec_digits(n / 10).push(digit_char((n % 10) as int))
    }
}

fn digit_str(d: u128) -> (s: &'static str)
    requires
        d < 10,
    ensures
        s@ =~= seq![digit_char(d as int)],
{
    proof {
        reveal_strlit("0");
        reveal_strlit("1");
        reveal_strlit("2");
        reveal_strlit("3");
        reveal_strlit("4");
        reveal_strlit("5");
        reveal_strlit("6");
        reveal_strlit("7");
        reveal_strlit("8");
        reveal_strlit("9");
    }
    if d == 0 {
        "0"
    } else if d == 1 {
        "1"
    } else if d == 2 {
        "2"
    } else if d == 3 {
        "3"
    } else if d == 4 {
        "4"
    } else if d == 5 {
        "5"
    } else if d == 6 {
        "6"
    } else if d == 7 {
        "7"
    } else if d == 8 {
        "8"
    } else {
        "9"
    }
}

/// Renders `n` in decimal.
pub fn format_u128(n: u128) -> (s: String)
    ensures
        s@ == dec_digits(n as nat),
    decreases n,
{
    if n < 10 {
        String::from_str(digit_str(n))
    } else {
        let mut s = format_u128(n / 10);
        s.append(digit_str(n % 10));
        proof {
            assert(s@ =~= dec_digits((n / 10) as nat).push(digit_char((n % 10) as int)));
        }
        s
    }
}

/// Renders `n` in decimal.
pub fn format_u64(n: u64) -> (s: String)
    ensures
        s@ == dec_digits(n as nat),
{
    format_u128(n as u128)
}

/// Whether `c` is a decimal digit.
pub open spec fn is_digit_char(c: char) -> bool {
    '0' <= c && c <= '9'
}

/// Whether every character of `s` is a decimal digit.
pub open spec fn all_digits(s: Seq<char>) -> bool {
    forall|i: int| 0 <= i < s.len() ==> is_digit_char(#[trigger] s[i])
}

/// The numeric value of a sequence of decimal digit characters.
pub open spec fn dec_value(s: Seq<char>) -> int
    decreases s.len(),
{
    if s.len() == 0 {
        0
    } else {
        dec_value(s.drop_last()) * 10 + (s.last() as int - '0' as int)
    }
}

pub proof fn lemma_dec_value_nonneg(s: Seq<char>)
    requires
        all_digits(s),
    ensures
        dec_value(s) >= 0,
    decreases s.len(),
{
    if s.len() > 0 {
        assert(all_digits(s.drop_last()));
        lemma_dec_value_nonneg(s.drop_last());
    }
}

/// A digit string is worth at least any of its prefixes.
pub proof fn lemma_dec_value_prefix_le(s: Seq<char>, k: int)
    requires
        all_digits(s),
        0 <= k <= s.len(),
    ensures
        dec_value(s.take(k)) <= dec_value(s),
    decreases s.len() - k,
{
    if k < s.len() {
        let t = s.take(k + 1);
        assert(all_digits(t));
        assert(t.drop_last() =~= s.take(k));
        lemma_dec_value_nonneg(s.take(k));
        assert(dec_value(t) == dec_value(s.take(k)) * 10 + (t.last() as int - '0' as int));
        assert(dec_value(s.take(k)) * 10 >= dec_value(s.take(k))) by (nonlinear_arith)
            requires dec_value(s.take(k)) >= 0;
        assert(t.last() as int - '0' as int >= 0);
        lemma_dec_value_prefix_le(s, k + 1);
        assert(s.take(s.len() as int) =~= s);
    } else {
        assert(s.take(k) =~= s);
    }
}

/// Parses a non-empty, all-digit decimal string whose value fits in
/// `u128`; returns `None` on any other input.
pub fn parse_u128(s: &str) -> (r: Option<u128>)
    ensures
        r is Some <==> s@.len() > 0 && all_digits(s@) && dec_value(s@) <= u128::MAX,
        r is Some ==> r->0 == dec_value(s@),
{
    let n = s.unicode_len();
    if n == 0 {
        return None;
    }
    let mut acc: u128 = 0;
    let mut i: usize = 0;
    proof {
        assert(s@.take(0) =~= Seq::<char>::empty());
    }
    while i < n
        invariant
            0 < n == s@.len(),
            0 <= i <= n,
            all_digits(s@.take(i as int)),
            acc == dec_value(s@.take(i as int)),
        decreases n - i,
    {
        let c = s.get_char(i);
        let v = c as u32;
        if v < 48 || v > 57 {
            assert(!is_digit_char(s@[i as int]));
            return None;
        }
        let d = (v - 48) as u128;
        let shifted = match acc.checked_mul(10) {
            Some(m) => m,
            None => {
                proof {
                    if all_digits(s@) {
                        let t = s@.take(i as int + 1);
                        assert(t.drop_last() =~= s@.take(i as int));
                        assert(is_digit_char(s@[i as int]));
                        assert(dec_value(t) == acc * 10 + (s@[i as int] as int - '0' as int));
                        lemma_dec_value_prefix_le(s@, i as int + 1);
                    }
                }
                return None;
            },
        };
        let next = match shifted.checked_add(d) {
            Some(a) => a,
            None => {
                proof {
                    if all_digits(s@) {
                        let t = s@.take(i as int + 1);
                        assert(t.drop_last() =~= s@.take(i as int));
                        assert(is_digit_char(s@[i as int]));
                        assert(dec_value(t) == acc * 10 + (s@[i as int] as int - '0' as int));
                        lemma_dec_value_prefix_le(s@, i as int + 1);
                    }
                }
                return None;
            },
        };
        proof {
            let t = s@.take(i as int + 1);
            assert(t.drop_last() =~= s@.take(i as int));
            assert(t.last() == s@[i as int]);
            assert(is_digit_char(s@[i as int]));
            assert(forall|j: int| 0 <= j < t.len() ==> is_digit_char(#[trigger] t[j]));
        }
        acc = next;
        i = i + 1;
    }
    proof {
        assert(s@.take(n as int) =~= s@);
    }
    Some(acc)
}

} // verus!
