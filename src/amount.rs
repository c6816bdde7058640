//! Amounts typed by the user: an exact decimal number, rounded to hundredths
//! with halves going away from zero.

use vstd::prelude::*;
use vstd::arithmetic::div_mod::lemma_fundamental_div_mod_converse;
use crate::text::{chars_of, decimal_digits, digit_char, digit_str, push_decimal};

verus! {

pub open spec fn is_digit(c: char) -> bool {
    '0' <= c && c <= '9'
}

pub open spec fn digit_value(c: char) -> nat {
    (c as int - '0' as int) as nat
}

pub open spec fn all_digits(s: Seq<char>) -> bool {
    forall|i: int| 0 <= i < s.len() ==> is_digit(#[trigger] s[i])
}

/// The number that a string of decimal digits spells.
pub open spec fn digits_value(s: Seq<char>) -> nat
    decreases s.len(),
{
    if s.len() == 0 {
        0
    } else {
        digits_value(s.drop_last()) * 10 + digit_value(s.last())
    }
}

pub open spec fn pow10(k: nat) -> nat
    decreases k,
{
    if k == 0 {
        1
    } else {
        10 * pow10((k - 1) as nat)
    }
}

/// The first position at or after `i` that does not hold a digit.
pub open spec fn skip_digits(t: Seq<char>, i: int) -> int
    decreases t.len() - i,
{
    if 0 <= i < t.len() && is_digit(t[i]) {
        skip_digits(t, i + 1)
    } else {
        i
    }
}

/// A decimal number as written: its sign, and the digits before and after
/// the point.
pub struct DecimalText {
    pub negative: bool,
    pub int_digits: Seq<char>,
    pub frac_digits: Seq<char>,
}

pub open spec fn sign_len(t: Seq<char>) -> int {
    if t.len() > 0 && (t[0] == '+' || t[0] == '-') {
        1
    } else {
        0
    }
}

/// Reads `t` as an optional sign, then digits, then optionally a point and
/// more digits, with at least one digit in all.
pub open spec fn parse_decimal(t: Seq<char>) -> Option<DecimalText> {
    let s = sign_len(t);
    let d = skip_digits(t, s);
    let negative = s == 1 && t[0] == '-';
    if d == t.len() {
        if d > s {
            Some(DecimalText { negative, int_digits: t.subrange(s, d), frac_digits: Seq::empty() })
        } else {
            None
        }
    } else if t[d] == '.' && skip_digits(t, d + 1) == t.len() && (d - s) + (t.len() - (d + 1))
        > 0 {
        Some(
            DecimalText {
                negative,
                int_digits: t.subrange(s, d),
                frac_digits: t.subrange(d + 1, t.len() as int),
            },
        )
    } else {
        None
    }
}

/// The digits of the number without its point: the number is
/// `mantissa / 10^(number of fraction digits)`.
pub open spec fn mantissa(d: DecimalText) -> nat {
    digits_value(d.int_digits + d.frac_digits)
}

/// The magnitude of the number, in hundredths, rounded to the nearest whole
/// hundredth with halves rounded up: `floor(100 * |a| + 1/2)`.
pub open spec fn rounded_hundredths(d: DecimalText) -> nat {
    let q = pow10(d.frac_digits.len());
    ((200 * mantissa(d) + q) / (2 * q)) as nat
}

#[derive(Clone, Copy, Debug, PartialEq, Eq, Structural)]
pub enum AmountError {
    /// The text is not a decimal number.
    Invalid,
    /// The number is below zero.
    Negative,
    /// The rounded number of hundredths does not fit in 64 bits.
    TooLarge,
}

/// What an amount typed as `t` is worth, in hundredths of the currency unit.
pub open spec fn amount_of(t: Seq<char>) -> Result<u64, AmountError> {
    match parse_decimal(t) {
        None => Err(AmountError::Invalid),
        Some(d) => if d.negative && mantissa(d) > 0 {
            Err(AmountError::Negative)
        } else if rounded_hundredths(d) > u64::MAX {
            Err(AmountError::TooLarge)
        } else {
            Ok(rounded_hundredths(d) as u64)
        },
    }
}

/// Whether text spells a number below zero (a minus sign and a digit that is
/// not zero).
pub open spec fn spells_negative(t: Seq<char>) -> bool {
    parse_decimal(t) matches Some(d) && d.negative && mantissa(d) > 0
}

proof fn lemma_pow10_pos(k: nat)
    ensures
        pow10(k) >= 1,
    decreases k,
{
    if k > 0 {
        lemma_pow10_pos((k - 1) as nat);
    }
}

proof fn lemma_skip_digits(t: Seq<char>, i: int)
    requires
        0 <= i <= t.len(),
    ensures
        i <= skip_digits(t, i) <= t.len(),
        all_digits(t.subrange(i, skip_digits(t, i))),
        skip_digits(t, i) < t.len() ==> !is_digit(t[skip_digits(t, i)]),
    decreases t.len() - i,
{
    if i < t.len() && is_digit(t[i]) {
        lemma_skip_digits(t, i + 1);
        let e = skip_digits(t, i);
        assert forall|j: int| 0 <= j < e - i implies is_digit(#[trigger] t.subrange(i, e)[j]) by {
            if j > 0 {
                assert(t.subrange(i, e)[j] == t.subrange(i + 1, e)[j - 1]);
            }
        }
    }
}

proof fn lemma_digits_value_append(a: Seq<char>, b: Seq<char>)
    ensures
        digits_value(a + b) == digits_value(a) * pow10(b.len()) + digits_value(b),
    decreases b.len(),
{
    if b.len() == 0 {
        assert(a + b =~= a);
        assert(pow10(0) == 1);
        assert(digits_value(b) == 0);
        assert(digits_value(a) * 1 == digits_value(a));
    } else {
        let b1 = b.drop_last();
        assert((a + b).drop_last() =~= a + b1);
        assert((a + b).last() == b.last());
        lemma_digits_value_append(a, b1);
        let va = digits_value(a);
        let pw = pow10(b1.len());
        let vb1 = digits_value(b1);
        assert(pow10(b.len()) == 10 * pw);
        assert(digits_value(b) == vb1 * 10 + digit_value(b.last()));
        assert(digits_value(a + b) == digits_value(a + b1) * 10 + digit_value(b.last()));
        assert((va * pw + vb1) * 10 == va * (10 * pw) + vb1 * 10) by (nonlinear_arith);
        assert(digits_value(a + b1) == va * pw + vb1);
    }
}

proof fn lemma_digits_value_bound(s: Seq<char>)
    requires
        all_digits(s),
    ensures
        digits_value(s) < pow10(s.len()),
    decreases s.len(),
{
    if s.len() > 0 {
        let s1 = s.drop_last();
        assert(all_digits(s1)) by {
            assert forall|i: int| 0 <= i < s1.len() implies is_digit(#[trigger] s1[i]) by {
                assert(s1[i] == s[i]);
            }
        }
        lemma_digits_value_bound(s1);
        assert(is_digit(s[s.len() - 1]));
        let v1 = digits_value(s1);
        let pw = pow10(s1.len());
        assert(v1 * 10 + 9 < 10 * pw) by (nonlinear_arith)
            requires
                v1 < pw,
        ;
    }
}

proof fn lemma_digits_value_positive(s: Seq<char>)
    requires
        all_digits(s),
    ensures
        digits_value(s) > 0 <==> exists|i: int| 0 <= i < s.len() && s[i] != '0',
    decreases s.len(),
{
    if s.len() > 0 {
        let s1 = s.drop_last();
        assert(all_digits(s1)) by {
            assert forall|i: int| 0 <= i < s1.len() implies is_digit(#[trigger] s1[i]) by {
                assert(s1[i] == s[i]);
            }
        }
        lemma_digits_value_positive(s1);
        if digits_value(s1) > 0 {
            let i = choose|i: int| 0 <= i < s1.len() && s1[i] != '0';
            assert(s[i] == s1[i]);
        } else if s.last() != '0' {
            assert(s[s.len() - 1] != '0');
        } else {
            assert forall|i: int| 0 <= i < s.len() implies s[i] == '0' by {
                if i < s1.len() {
                    assert(s[i] == s1[i]);
                }
            }
        }
    }
}

/// The hundredths that the first two fraction digits give.
pub open spec fn frac_hundredths(fp: Seq<char>) -> nat {
    (if fp.len() >= 1 {
        10 * digit_value(fp[0])
    } else {
        0
    }) + (if fp.len() >= 2 {
        digit_value(fp[1])
    } else {
        0
    })
}

/// Whether the digits after the hundredths make at least half a hundredth.
pub open spec fn rounds_up(fp: Seq<char>) -> bool {
    fp.len() >= 3 && fp[2] >= '5'
}

proof fn lemma_frac_rounding(fp: Seq<char>)
    requires
        all_digits(fp),
    ensures
        (200 * digits_value(fp) + pow10(fp.len())) / (2 * pow10(fp.len())) == frac_hundredths(fp)
            + (if rounds_up(fp) {
            1int
        } else {
            0int
        }),
{
    let k = fp.len();
    if k == 0 {
        assert(pow10(0) == 1);
        assert(1int / 2 == 0);
    } else if k == 1 {
        assert(fp.drop_last() =~= Seq::<char>::empty());
        let d0: int = digit_value(fp[0]) as int;
        assert(digits_value(fp.drop_last()) == 0);
        assert(fp.last() == fp[0]);
        assert(digits_value(fp) == d0);
        assert(pow10(1) == 10) by {
            assert(pow10(0) == 1);
        }
        lemma_fundamental_div_mod_converse(200 * d0 + 10, 20, 10 * d0, 10);
    } else if k == 2 {
        assert(fp.drop_last().drop_last() =~= Seq::<char>::empty());
        assert(fp.drop_last().last() == fp[0]);
        let d0: int = digit_value(fp[0]) as int;
        let d1: int = digit_value(fp[1]) as int;
        assert(digits_value(fp.drop_last().drop_last()) == 0);
        assert(digits_value(fp.drop_last()) == d0);
        assert(digits_value(fp) == 10 * d0 + d1);
        assert(pow10(2) == 100) by {
            assert(pow10(0) == 1);
            assert(pow10(1) == 10);
        }
        lemma_fundamental_div_mod_converse(
            200 * (10 * d0 + d1) + 100,
            200,
            10 * d0 + d1,
            100,
        );
    } else {
        let lead = fp.subrange(0, 3);
        let rest = fp.subrange(3, k as int);
        assert(fp =~= lead + rest);
        assert(all_digits(rest)) by {
            assert forall|i: int| 0 <= i < rest.len() implies is_digit(#[trigger] rest[i]) by {
                assert(rest[i] == fp[i + 3]);
            }
        }
        lemma_digits_value_append(lead, rest);
        lemma_digits_value_bound(rest);
        assert(lead.drop_last().drop_last().drop_last() =~= Seq::<char>::empty());
        assert(lead.drop_last().drop_last().last() == fp[0]);
        assert(lead.drop_last().last() == fp[1]);
        assert(lead.last() == fp[2]);
        let d0: int = digit_value(fp[0]) as int;
        let d1: int = digit_value(fp[1]) as int;
        let d2: int = digit_value(fp[2]) as int;
        assert(is_digit(fp[0]) && is_digit(fp[1]) && is_digit(fp[2]));
        assert(digits_value(lead.drop_last().drop_last().drop_last()) == 0);
        assert(digits_value(lead.drop_last().drop_last()) == d0);
        assert(digits_value(lead.drop_last()) == 10 * d0 + d1);
        let d3: int = 100 * d0 + 10 * d1 + d2;
        assert(digits_value(lead) == d3);
        let q1: int = pow10(rest.len()) as int;
        let r: int = digits_value(rest) as int;
        lemma_pow10_pos(rest.len());
        assert(pow10(k) == 1000 * q1) by {
            assert(pow10(k) == 10 * pow10((k - 1) as nat));
            assert(pow10((k - 1) as nat) == 10 * pow10((k - 2) as nat));
            assert(pow10((k - 2) as nat) == 10 * pow10((k - 3) as nat));
            assert((k - 3) as nat == rest.len());
        }
        assert(digits_value(fp) == d3 * q1 + r);
        let a = (d3 + 5) / 10;
        let b = (d3 + 5) % 10;
        assert(d3 + 5 == 10 * a + b && 0 <= b < 10);
        let x = 200 * (d3 * q1 + r) + 1000 * q1;
        let rem = 200 * (q1 * b + r);
        assert(x == a * (2000 * q1) + rem) by (nonlinear_arith)
            requires
                x == 200 * (d3 * q1 + r) + 1000 * q1,
                rem == 200 * (q1 * b + r),
                d3 + 5 == 10 * a + b,
        ;
        assert(0 <= rem < 2000 * q1) by (nonlinear_arith)
            requires
                rem == 200 * (q1 * b + r),
                0 <= b < 10,
                0 <= r < q1,
        ;
        lemma_fundamental_div_mod_converse(x, 2000 * q1, a, rem);
        assert(2 * pow10(k) == 2000 * q1);
        assert(d2 <= 9);
        lemma_fundamental_div_mod_converse(
            d3 + 5,
            10,
            10 * d0 + d1 + (if d2 >= 5 {
                1int
            } else {
                0int
            }),
            if d2 >= 5 {
                d2 - 5
            } else {
                d2 + 5
            },
        );
    }
}

/// Rounding a number written with integer digits `ip` and fraction digits
/// `fp` to hundredths only reads the first three fraction digits.
proof fn lemma_rounding(ip: Seq<char>, fp: Seq<char>)
    requires
        all_digits(ip),
        all_digits(fp),
    ensures
        (200 * digits_value(ip + fp) + pow10(fp.len())) / (2 * pow10(fp.len())) == 100
            * digits_value(ip) + frac_hundredths(fp) + (if rounds_up(fp) {
            1int
        } else {
            0int
        }),
{
    let q: int = pow10(fp.len()) as int;
    let v: int = digits_value(ip) as int;
    let f: int = digits_value(fp) as int;
    lemma_digits_value_append(ip, fp);
    lemma_pow10_pos(fp.len());
    lemma_frac_rounding(fp);
    let c = (200 * f + q) / (2 * q);
    let r = (200 * f + q) % (2 * q);
    assert(200 * f + q == c * (2 * q) + r && 0 <= r < 2 * q) by {
        vstd::arithmetic::div_mod::lemma_fundamental_div_mod(200 * f + q, 2 * q);
    }
    assert(200 * (v * q + f) + q == (100 * v + c) * (2 * q) + r) by (nonlinear_arith)
        requires
            200 * f + q == c * (2 * q) + r,
    ;
    lemma_fundamental_div_mod_converse(200 * (v * q + f) + q, 2 * q, 100 * v + c, r);
}

fn is_digit_char(c: char) -> (r: bool)
    ensures
        r == is_digit(c),
{
    '0' <= c && c <= '9'
}

fn digit_of(c: char) -> (r: u64)
    requires
        is_digit(c),
    ensures
        r == digit_value(c),
        r < 10,
{
    ((c as u32) - ('0' as u32)) as u64
}

fn skip_digits_from(t: &Vec<char>, i: usize) -> (r: usize)
    requires
        i <= t@.len(),
    ensures
        r == skip_digits(t@, i as int),
{
    let mut j = i;
    while j < t.len() && is_digit_char(t[j])
        invariant
            i <= j <= t@.len(),
            skip_digits(t@, j as int) == skip_digits(t@, i as int),
        decreases t@.len() - j,
    {
        j = j + 1;
    }
    j
}

fn any_nonzero(t: &Vec<char>, from: usize, to: usize) -> (r: bool)
    requires
        from <= to <= t@.len(),
    ensures
        r == exists|i: int| 0 <= i < to - from && t@.subrange(from as int, to as int)[i] != '0',
{
    let ghost s = t@.subrange(from as int, to as int);
    let mut j = from;
    while j < to
        invariant
            from <= j <= to <= t@.len(),
            s == t@.subrange(from as int, to as int),
            forall|i: int| 0 <= i < j - from ==> s[i] == '0',
        decreases to - j,
    {
        if t[j] != '0' {
            assert(s[j - from] != '0');
            return true;
        }
        j = j + 1;
    }
    false
}

/// Finds the parts of a decimal number in `t`: whether it is negative, where
/// the integer digits start and end, and where the fraction digits start.
fn scan_decimal(t: &Vec<char>) -> (r: Option<(bool, usize, usize, usize)>)
    ensures
        match r {
            None => parse_decimal(t@) is None,
            Some((negative, s, d, f)) => {
                &&& s <= d <= f <= t@.len()
                &&& parse_decimal(t@) == Some(
                    DecimalText {
                        negative,
                        int_digits: t@.subrange(s as int, d as int),
                        frac_digits: t@.subrange(f as int, t@.len() as int),
                    },
                )
            },
        },
{
    let n = t.len();
    let s: usize = if n > 0 && (t[0] == '+' || t[0] == '-') {
        1
    } else {
        0
    };
    let negative = s == 1 && t[0] == '-';
    proof {
        lemma_skip_digits(t@, s as int);
    }
    let d = skip_digits_from(t, s);
    if d == n {
        if d == s {
            return None;
        }
        assert(t@.subrange(n as int, n as int) =~= Seq::<char>::empty());
        Some((negative, s, d, n))
    } else {
        if t[d] != '.' {
            return None;
        }
        proof {
            lemma_skip_digits(t@, d + 1);
        }
        let e = skip_digits_from(t, d + 1);
        if e != n || (d - s) + (n - (d + 1)) == 0 {
            return None;
        }
        Some((negative, s, d, d + 1))
    }
}

/// The number of hundredths, rounded, of the number with integer digits
/// `t[s..d]` and fraction digits `t[f..]`, where it fits in 64 bits.
fn hundredths_of(t: &Vec<char>, s: usize, d: usize, f: usize) -> (r: Option<u64>)
    requires
        s <= d <= f <= t@.len(),
        all_digits(t@.subrange(s as int, d as int)),
        all_digits(t@.subrange(f as int, t@.len() as int)),
    ensures
        ({
            let ip = t@.subrange(s as int, d as int);
            let fp = t@.subrange(f as int, t@.len() as int);
            let c = 100 * digits_value(ip) + frac_hundredths(fp) + (if rounds_up(fp) {
                1int
            } else {
                0int
            });
            r == if c > u64::MAX {
                None
            } else {
                Some(c as u64)
            }
        }),
{
    let ghost ip = t@.subrange(s as int, d as int);
    let ghost fp = t@.subrange(f as int, t@.len() as int);
    let mut v: u64 = 0;
    let mut i = s;
    while i < d
        invariant
            s <= i <= d <= t@.len(),
            ip == t@.subrange(s as int, d as int),
            all_digits(ip),
            v == digits_value(t@.subrange(s as int, i as int)),
        decreases d - i,
    {
        assert(t@.subrange(s as int, i + 1).drop_last() =~= t@.subrange(s as int, i as int));
        assert(is_digit(ip[i - s]));
        let digit = digit_of(t[i]);
        if v > (u64::MAX - digit) / 10 {
            proof {
                let pre = t@.subrange(s as int, i + 1);
                assert(digits_value(pre) > u64::MAX) by (nonlinear_arith)
                    requires
                        digits_value(pre) == v * 10 + digit,
                        v > (u64::MAX - digit) / 10,
                        digit < 10,
                ;
                let rest = t@.subrange(i + 1, d as int);
                assert(ip =~= pre + rest);
                lemma_digits_value_append(pre, rest);
                lemma_pow10_pos(rest.len());
                assert(digits_value(ip) >= digits_value(pre)) by (nonlinear_arith)
                    requires
                        digits_value(ip) == digits_value(pre) * pow10(rest.len()) + digits_value(
                            rest,
                        ),
                        pow10(rest.len()) >= 1,
                ;
            }
            return None;
        }
        v = v * 10 + digit;
        i = i + 1;
    }
    assert(t@.subrange(s as int, d as int) == ip);
    let k = t.len() - f;
    let mut cents: u128 = (v as u128) * 100;
    if k >= 1 {
        assert(is_digit(fp[0]));
        cents = cents + 10 * (digit_of(t[f]) as u128);
    }
    if k >= 2 {
        assert(is_digit(fp[1]));
        cents = cents + (digit_of(t[f + 1]) as u128);
    }
    if k >= 3 && t[f + 2] >= '5' {
        cents = cents + 1;
    }
    if cents > u64::MAX as u128 {
        None
    } else {
        Some(cents as u64)
    }
}

/// Reads an amount typed by the user: a decimal number of at least zero,
/// rounded to hundredths with halves going up. The result counts
/// hundredths of the currency unit.
pub fn parse_amount(text: &str) -> (r: Result<u64, AmountError>)
    ensures
        r == amount_of(text@),
        spells_negative(text@) <==> r == Err::<u64, AmountError>(AmountError::Negative),
{
    let t = chars_of(text);
    let scanned = scan_decimal(&t);
    let (negative, s, d, f) = match scanned {
        None => {
            return Err(AmountError::Invalid);
        },
        Some(parts) => parts,
    };
    let n = t.len();
    let ghost ip = t@.subrange(s as int, d as int);
    let ghost fp = t@.subrange(f as int, n as int);
    let ghost dec = DecimalText { negative, int_digits: ip, frac_digits: fp };
    proof {
        lemma_skip_digits(t@, sign_len(t@));
        if f < n {
            lemma_skip_digits(t@, f as int);
        }
        assert(all_digits(ip));
        assert(all_digits(fp));
        lemma_digits_value_append(ip, fp);
        lemma_pow10_pos(fp.len());
        lemma_digits_value_positive(ip);
        lemma_digits_value_positive(fp);
        lemma_rounding(ip, fp);
        assert(mantissa(dec) > 0 <==> (digits_value(ip) > 0 || digits_value(fp) > 0))
            by (nonlinear_arith)
            requires
                mantissa(dec) == digits_value(ip) * pow10(fp.len()) + digits_value(fp),
                pow10(fp.len()) >= 1,
        ;
    }
    if negative && (any_nonzero(&t, s, d) || any_nonzero(&t, f, n)) {
        return Err(AmountError::Negative);
    }
    match hundredths_of(&t, s, d, f) {
        None => Err(AmountError::TooLarge),
        Some(c) => Ok(c),
    }
}

/// How an amount of `c` hundredths is shown: the whole units, then the
/// hundredths after a point with trailing zeros left out ("12.35", "12.5",
/// "5").
pub open spec fn amount_text(c: nat) -> Seq<char> {
    let f = c % 100;
    decimal_digits(c / 100) + if f == 0 {
        Seq::<char>::empty()
    } else if f % 10 == 0 {
        seq!['.', digit_char(f / 10)]
    } else {
        seq!['.', digit_char(f / 10), digit_char(f % 10)]
    }
}

/// Appends the text of an amount of `c` hundredths to `out`.
pub fn push_amount(out: &mut String, c: u64)
    ensures
        final(out)@ == old(out)@ + amount_text(c as nat),
{
    push_decimal(out, c / 100);
    let f = c % 100;
    proof {
        reveal_strlit(".");
    }
    if f != 0 {
        out.append(".");
        out.append(digit_str(f / 10));
        if f % 10 != 0 {
            out.append(digit_str(f % 10));
        }
    }
    assert(out@ =~= old(out)@ + amount_text(c as nat));
}

pub open spec fn magnitude(h: int) -> nat {
    if h < 0 {
        (-h) as nat
    } else {
        h as nat
    }
}

/// How a signed amount of `h` hundredths is shown with exactly two
/// decimals ("12.50", "-0.05").
pub open spec fn fixed_amount_text(h: int) -> Seq<char> {
    let m = magnitude(h);
    (if h < 0 {
        seq!['-']
    } else {
        Seq::<char>::empty()
    }) + decimal_digits(m / 100) + seq!['.', digit_char((m % 100) / 10), digit_char(m % 10)]
}

/// Appends the text of a signed amount of `h` hundredths, with two decimals,
/// to `out`.
pub fn push_fixed_amount(out: &mut String, h: i64)
    ensures
        final(out)@ == old(out)@ + fixed_amount_text(h as int),
{
    proof {
        reveal_strlit("-");
        reveal_strlit(".");
    }
    let m: u64 = if h < 0 {
        out.append("-");
        (0 - (h as i128)) as u64
    } else {
        h as u64
    };
    push_decimal(out, m / 100);
    out.append(".");
    out.append(digit_str((m % 100) / 10));
    out.append(digit_str(m % 10));
    assert(out@ =~= old(out)@ + fixed_amount_text(h as int));
}

} // verus!
