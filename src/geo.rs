//! Geospatial data: WGS 84 points, closed polygons and circles.
//!
//! Coordinates and distances are decimal numbers held exactly, to seven decimal places.

use vstd::prelude::*;
use crate::datetime::{digit_value, is_digit};
use crate::text::{
    is_white_space, lemma_words_append, lemma_words_tail, words_scan, chars_of, contains, find_char, first_of, push_char, slice_chars, string_of, trim,
    trim_bounds, word_bounds, words,
};

verus! {

pub open spec fn pow10(n: nat) -> int
    decreases n,
{
    if n == 0 {
        1
    } else {
        10 * pow10((n - 1) as nat)
    }
}

/// The number of units in one: a `Decimal` counts in ten-millionths.
pub const UNITS_PER_ONE: i64 = 10_000_000;

pub open spec fn all_digits(d: Seq<char>) -> bool {
    forall|i: int| 0 <= i < d.len() ==> is_digit(#[trigger] d[i])
}

/// The number that a run of decimal digits writes.
pub open spec fn digits_value(d: Seq<char>) -> int
    decreases d.len(),
{
    if d.len() == 0 {
        0
    } else {
        10 * digits_value(d.drop_last()) + digit_value(d.last())
    }
}

/// The units that an unsigned decimal writes: digits with an optional `.` and fraction, at
/// least one digit in all, at most ten before the point. Fraction digits past the seventh
/// are dropped.
pub open spec fn unsigned_units(t: Seq<char>) -> Option<int> {
    match first_of(t, '.') {
        None => if 0 < t.len() <= 10 && all_digits(t) {
            Some(digits_value(t) * pow10(7))
        } else {
            None
        },
        Some(k) => {
            let ip = t.subrange(0, k);
            let fp = t.subrange(k + 1, t.len() as int);
            let f = if fp.len() > 7 {
                fp.subrange(0, 7)
            } else {
                fp
            };
            if k <= 10 && all_digits(ip) && all_digits(fp) && (k > 0 || fp.len() > 0) {
                Some(digits_value(ip) * pow10(7) + digits_value(f) * pow10((7 - f.len()) as nat))
            } else {
                None
            }
        },
    }
}

/// The units that `s` writes: an optional sign, then an unsigned decimal.
pub open spec fn decimal_units(s: Seq<char>) -> Option<int> {
    if s.len() > 0 && s[0] == '-' {
        match unsigned_units(s.drop_first()) {
            Some(u) => Some(-u),
            None => None,
        }
    } else if s.len() > 0 && s[0] == '+' {
        unsigned_units(s.drop_first())
    } else {
        unsigned_units(s)
    }
}

pub open spec fn digit_char(n: int) -> char {
    (n + '0' as int) as char
}

/// The decimal digits of `n`, without leading zeros.
pub open spec fn nat_text(n: nat) -> Seq<char>
    decreases n,
{
    if n < 10 {
        seq![digit_char(n as int)]
    } else {
        nat_text(n / 10).push(digit_char(n as int % 10))
    }
}

/// `d` without its trailing zeros.
pub open spec fn strip_zeros(d: Seq<char>) -> Seq<char>
    decreases d.len(),
{
    if d.len() > 0 && d.last() == '0' {
        strip_zeros(d.drop_last())
    } else {
        d
    }
}

/// The seven digits of a fraction `f < 10^7`.
pub open spec fn seven_digits(f: int) -> Seq<char> {
    Seq::new(7, |i: int| digit_char((f / pow10((6 - i) as nat)) % 10))
}

/// How a number of units is written: sign, whole part, and the fraction where it is not
/// zero, without trailing zeros.
pub open spec fn decimal_text(u: int) -> Seq<char> {
    let a = if u < 0 { -u } else { u };
    let whole = a / pow10(7);
    let frac = a % pow10(7);
    (if u < 0 { seq!['-'] } else { Seq::empty() }) + nat_text(whole as nat) + (if frac != 0 {
        seq!['.'] + strip_zeros(seven_digits(frac))
    } else {
        Seq::empty()
    })
}

/// A decimal number, held exactly as a count of ten-millionths.
#[derive(Debug, Copy, Clone, PartialEq, Eq, Structural)]
pub struct Decimal {
    pub units: i64,
}

/// The error returned when text is not a decimal number.
#[derive(Debug, Copy, Clone, PartialEq, Eq, Structural)]
pub struct InvalidDecimalError;

fn digit_of(c: char) -> (r: i64)
    requires
        is_digit(c),
    ensures
        r == digit_value(c),
        0 <= r <= 9,
{
    (c as u32 - '0' as u32) as i64
}

proof fn lemma_digits_value_bound(d: Seq<char>)
    requires
        all_digits(d),
    ensures
        0 <= digits_value(d) < pow10(d.len()),
    decreases d.len(),
{
    if d.len() > 0 {
        lemma_digits_value_bound(d.drop_last());
        assert(is_digit(d[d.len() - 1]));
    }
}

/// The value of the digits `t[lo..hi]`, all of which are digits, at most ten of them.
fn value_of_digits(t: &Vec<char>, lo: usize, hi: usize) -> (r: i64)
    requires
        lo <= hi <= t@.len(),
        hi - lo <= 11,
        all_digits(t@.subrange(lo as int, hi as int)),
    ensures
        r == digits_value(t@.subrange(lo as int, hi as int)),
        0 <= r < pow10((hi - lo) as nat),
{
    let mut v: i64 = 0;
    let mut i: usize = lo;
    while i < hi
        invariant
            lo <= i <= hi <= t@.len(),
            hi - lo <= 11,
            all_digits(t@.subrange(lo as int, hi as int)),
            v == digits_value(t@.subrange(lo as int, i as int)),
            0 <= v < pow10((i - lo) as nat),
        decreases hi - i,
    {
        assert(t@.subrange(lo as int, hi as int)[i - lo] == t@[i as int]);
        proof {
            lemma_pow10_11(((i - lo) as nat));
        }
        let d = digit_of(t[i]);
        assert(t@.subrange(lo as int, i + 1).drop_last() =~= t@.subrange(lo as int, i as int));
        v = 10 * v + d;
        i = i + 1;
    }
    v
}

proof fn lemma_pow10_11(n: nat)
    requires
        n <= 11,
    ensures
        pow10(n) <= 100_000_000_000,
        pow10(n) >= 1,
{
    lemma_pow10_mono(n, 11);
    lemma_pow10_pos(n);
    reveal_with_fuel(pow10, 12);
}

fn all_digits_in(t: &Vec<char>, lo: usize, hi: usize) -> (r: bool)
    requires
        lo <= hi <= t@.len(),
    ensures
        r == all_digits(t@.subrange(lo as int, hi as int)),
{
    let mut i: usize = lo;
    while i < hi
        invariant
            lo <= i <= hi <= t@.len(),
            forall|j: int| lo <= j < i ==> is_digit(#[trigger] t@[j]),
        decreases hi - i,
    {
        if !('0' <= t[i] && t[i] <= '9') {
            assert(t@.subrange(lo as int, hi as int)[i - lo] == t@[i as int]);
            return false;
        }
        i = i + 1;
    }
    assert forall|j: int| 0 <= j < hi - lo implies is_digit(
        #[trigger] t@.subrange(lo as int, hi as int)[j],
    ) by {
        assert(t@.subrange(lo as int, hi as int)[j] == t@[lo + j]);
    }
    true
}

impl Decimal {
    /// The number with `units` ten-millionths.
    pub fn from_units(units: i64) -> (r: Decimal)
        ensures
            r.units == units,
    {
        Decimal { units }
    }

    /// The whole number `n`.
    pub fn whole(n: i32) -> (r: Decimal)
        ensures
            r.units == n as int * pow10(7),
    {
        proof {
            reveal_with_fuel(pow10, 8);
        }
        Decimal { units: n as i64 * UNITS_PER_ONE }
    }

    /// Parse an optionally signed decimal number such as `-134.9`.
    pub fn parse_chars(s: &Vec<char>) -> (r: Result<Decimal, InvalidDecimalError>)
        ensures
            match decimal_units(s@) {
                Some(u) => r == Ok::<Decimal, InvalidDecimalError>(Decimal { units: u as i64 }),
                None => r is Err,
            },
            r matches Ok(d) ==> decimal_units(s@) == Some(d.units as int),
    {
        let n = s.len();
        let neg = n > 0 && s[0] == '-';
        let skip: usize = if n > 0 && (s[0] == '-' || s[0] == '+') {
            1
        } else {
            0
        };
        let t = slice_chars(s, skip, n);
        assert(skip == 1 ==> t@ =~= s@.drop_first());
        assert(skip == 0 ==> t@ =~= s@);
        assert(neg ==> skip == 1);
        assert(decimal_units(s@) == match unsigned_units(t@) {
            Some(x) => Some(if neg { -x } else { x }),
            None => None,
        });
        let m = t.len();
        proof {
            reveal_with_fuel(pow10, 8);
        }
        let u: i64 = match find_char(&t, '.') {
            None => {
                if m == 0 || m > 10 || !all_digits_in(&t, 0, m) {
                    assert(t@.subrange(0, m as int) =~= t@);
                    return Err(InvalidDecimalError);
                }
                assert(t@.subrange(0, m as int) =~= t@);
                let w = value_of_digits(&t, 0, m);
                proof {
                    lemma_pow10_11(m as nat);
                }
                w * UNITS_PER_ONE
            },
            Some(k) => {
                let fl: usize = if m - (k + 1) > 7 {
                    7
                } else {
                    m - (k + 1)
                };
                if k > 10 || !all_digits_in(&t, 0, k) || !all_digits_in(&t, k + 1, m) || (k == 0
                    && m == k + 1) {
                    assert(first_of(t@, '.') == Some(k as int));
                    assert(unsigned_units(t@) is None);
                    return Err(InvalidDecimalError);
                }
                let w = value_of_digits(&t, 0, k);
                proof {
                    lemma_pow10_11(k as nat);
                    let fp = t@.subrange(k + 1, m as int);
                    assert(fp.subrange(0, fl as int) =~= t@.subrange(k + 1, k + 1 + fl));
                    if fl == fp.len() {
                        assert(fp =~= t@.subrange(k + 1, k + 1 + fl));
                    }
                    assert forall|j: int| 0 <= j < fl implies is_digit(
                        #[trigger] t@.subrange(k + 1, k + 1 + fl)[j],
                    ) by {
                        assert(t@.subrange(k + 1, k + 1 + fl)[j] == fp[j]);
                    }
                }
                let f = value_of_digits(&t, k + 1, k + 1 + fl);
                let scale = pow10_exec(7 - fl);
                proof {
                    lemma_pow10_11((7 - fl) as nat);
                    lemma_pow10_11(fl as nat);
                    lemma_pow10_sum(fl as nat, (7 - fl) as nat);
                    assert(f * scale < pow10(fl as nat) * pow10((7 - fl) as nat)) by (nonlinear_arith)
                        requires
                            0 <= f < pow10(fl as nat),
                            scale == pow10((7 - fl) as nat),
                            scale >= 1,
                    ;
                }
                w * UNITS_PER_ONE + f * scale
            },
        };
        Ok(Decimal { units: if neg { -u } else { u } })
    }

    /// Parse an optionally signed decimal number such as `-134.9`.
    pub fn parse(s: &str) -> (r: Result<Decimal, InvalidDecimalError>)
        ensures
            match decimal_units(s@) {
                Some(u) => r == Ok::<Decimal, InvalidDecimalError>(Decimal { units: u as i64 }),
                None => r is Err,
            },
    {
        Decimal::parse_chars(&chars_of(s))
    }

    /// The number as text: whole part, and the fraction without trailing zeros where it is
    /// not zero.
    pub fn to_string(&self) -> (r: String)
        ensures
            r@ == decimal_text(self.units as int),
    {
        let mut out = String::new();
        self.push_text(&mut out);
        out
    }

    /// Append the number's text.
    pub fn push_text(&self, out: &mut String)
        ensures
            final(out)@ == old(out)@ + decimal_text(self.units as int),
    {
        proof {
            reveal_with_fuel(pow10, 8);
        }
        let u = self.units;
        let a: u64 = if u < 0 {
            (-(u as i128)) as u64
        } else {
            u as u64
        };
        let ghost start = out@;
        if u < 0 {
            push_char(out, '-');
        }
        let ghost signed = out@;
        push_nat(out, a / 10_000_000);
        let frac = a % 10_000_000;
        if frac != 0 {
            push_char(out, '.');
            let digits = fraction_digits(frac);
            push_fraction(out, &digits);
        }
        proof {
            let sign = if u < 0 { seq!['-'] } else { Seq::<char>::empty() };
            assert(signed =~= start + sign);
            assert(a as int == if u < 0 { -u } else { u as int });
            assert(out@ =~= start + decimal_text(u as int));
        }
    }
}

/// The seven digits of a fraction.
fn fraction_digits(frac: u64) -> (r: Vec<char>)
    requires
        frac < 10_000_000,
    ensures
        r@ == seven_digits(frac as int),
{
    let mut digits: Vec<char> = Vec::new();
    let mut i: u64 = 0;
    let mut p: u64 = 1_000_000;
    proof {
        reveal_with_fuel(pow10, 8);
    }
    while i < 7
        invariant
            i <= 7,
            i < 7 ==> p == pow10((6 - i) as nat),
            frac < 10_000_000,
            digits@ == seven_digits(frac as int).subrange(0, i as int),
        decreases 7 - i,
    {
        proof {
            lemma_pow10_11((6 - i) as nat);
        }
        let d = ((frac / p) % 10) as u8;
        digits.push((d + '0' as u8) as char);
        assert(digits@ =~= seven_digits(frac as int).subrange(0, i + 1));
        if i < 6 {
            assert(pow10((6 - i) as nat) == 10 * pow10((6 - (i + 1)) as nat));
            p = p / 10;
        }
        i = i + 1;
    }
    assert(digits@ =~= seven_digits(frac as int));
    digits
}

/// Append `digits` without their trailing zeros.
fn push_fraction(out: &mut String, digits: &Vec<char>)
    requires
        digits@.len() == 7,
    ensures
        final(out)@ == old(out)@ + strip_zeros(digits@),
{
    let mut e: usize = 7;
    assert(digits@.subrange(0, 7) =~= digits@);
    while e > 0 && digits[e - 1] == '0'
        invariant
            e <= 7,
            digits@.len() == 7,
            strip_zeros(digits@.subrange(0, e as int)) == strip_zeros(digits@),
        decreases e,
    {
        assert(digits@.subrange(0, e as int).drop_last() =~= digits@.subrange(0, e - 1));
        e = e - 1;
    }
    let ghost start = out@;
    let mut j: usize = 0;
    while j < e
        invariant
            j <= e <= 7,
            digits@.len() == 7,
            out@ == start + digits@.subrange(0, j as int),
        decreases e - j,
    {
        push_char(out, digits[j]);
        assert(out@ =~= start + digits@.subrange(0, j + 1));
        j = j + 1;
    }
    assert(strip_zeros(digits@.subrange(0, e as int)) == digits@.subrange(0, e as int));
}

fn pow10_exec(n: usize) -> (r: i64)
    requires
        n <= 7,
    ensures
        r == pow10(n as nat),
    decreases n,
{
    if n == 0 {
        1
    } else {
        let p = pow10_exec(n - 1);
        proof {
            lemma_pow10_11((n - 1) as nat);
            reveal_with_fuel(pow10, 8);
            assert(pow10((n - 1) as nat) <= 1_000_000) by {
                lemma_pow10_mono((n - 1) as nat, 6);
            }
        }
        10 * p
    }
}

proof fn lemma_pow10_mono(a: nat, b: nat)
    requires
        a <= b,
    ensures
        pow10(a) <= pow10(b),
    decreases b,
{
    if a < b {
        lemma_pow10_mono(a, (b - 1) as nat);
        lemma_pow10_pos((b - 1) as nat);
    }
}

proof fn lemma_pow10_pos(n: nat)
    ensures
        pow10(n) >= 1,
    decreases n,
{
    if n > 0 {
        lemma_pow10_pos((n - 1) as nat);
    }
}

proof fn lemma_pow10_sum(a: nat, b: nat)
    ensures
        pow10(a + b) == pow10(a) * pow10(b),
    decreases a,
{
    if a > 0 {
        lemma_pow10_sum((a - 1) as nat, b);
        assert(pow10(a + b) == 10 * pow10((a - 1 + b) as nat));
        assert(10 * (pow10((a - 1) as nat) * pow10(b)) == (10 * pow10((a - 1) as nat)) * pow10(b))
            by (nonlinear_arith);
    }
}

fn push_nat(out: &mut String, n: u64)
    ensures
        final(out)@ == old(out)@ + nat_text(n as nat),
    decreases n,
{
    if n < 10 {
        push_char(out, (n as u8 + '0' as u8) as char);
        assert(final(out)@ =~= old(out)@ + nat_text(n as nat));
    } else {
        push_nat(out, n / 10);
        push_char(out, ((n % 10) as u8 + '0' as u8) as char);
        assert(final(out)@ =~= old(out)@ + nat_text(n as nat));
    }
}

proof fn lemma_nat_text(n: nat)
    ensures
        all_digits(nat_text(n)),
        digits_value(nat_text(n)) == n,
        nat_text(n).len() >= 1,
    decreases n,
{
    if n >= 10 {
        lemma_nat_text(n / 10);
        let t = nat_text(n);
        assert(t.drop_last() == nat_text(n / 10));
        assert(t.last() == digit_char(n as int % 10));
        assert(digit_value(digit_char(n as int % 10)) == n as int % 10);
        assert(digits_value(t) == 10 * digits_value(t.drop_last()) + digit_value(t.last()));
        assert(n == 10 * (n / 10) + n % 10);
        assert forall|i: int| 0 <= i < t.len() implies is_digit(#[trigger] t[i]) by {
            if i < t.len() - 1 {
                assert(t[i] == nat_text(n / 10)[i]);
            }
        }
    } else {
        let t = nat_text(n);
        assert(t.drop_last() =~= Seq::<char>::empty());
        assert(digit_value(digit_char(n as int)) == n as int);
        assert(digits_value(t) == 10 * digits_value(t.drop_last()) + digit_value(t.last()));
    }
}

proof fn lemma_nat_text_len(n: nat, k: nat)
    requires
        1 <= k,
        n < pow10(k),
    ensures
        nat_text(n).len() <= k,
    decreases n,
{
    if n >= 10 {
        if k == 1 {
            assert(pow10(1) == 10) by {
                reveal_with_fuel(pow10, 2);
            }
        } else {
            assert(n / 10 < pow10((k - 1) as nat));
            lemma_nat_text_len(n / 10, (k - 1) as nat);
        }
    }
}

/// The `k` digits of `f`, with leading zeros.
pub open spec fn digits_of(f: int, k: nat) -> Seq<char> {
    Seq::new(k, |i: int| digit_char((f / pow10((k - 1 - i) as nat)) % 10))
}

proof fn lemma_digits_of(f: int, k: nat)
    requires
        0 <= f < pow10(k),
    ensures
        all_digits(digits_of(f, k)),
        digits_value(digits_of(f, k)) == f,
    decreases k,
{
    let d = digits_of(f, k);
    assert forall|i: int| 0 <= i < d.len() implies is_digit(#[trigger] d[i]) by {
        lemma_pow10_pos((k - 1 - i) as nat);
        assert(0 <= (f / pow10((k - 1 - i) as nat)) % 10 < 10);
    }
    if k > 0 {
        let g = f / 10;
        assert(g < pow10((k - 1) as nat));
        assert(d.drop_last() =~= digits_of(g, (k - 1) as nat)) by {
            assert forall|i: int| 0 <= i < k - 1 implies #[trigger] d.drop_last()[i] == digits_of(g, (k - 1) as nat)[i] by {
                let p = pow10((k - 2 - i) as nat);
                lemma_pow10_pos((k - 2 - i) as nat);
                vstd::arithmetic::div_mod::lemma_div_denominator(f, 10, p);
                assert(pow10((k - 1 - i) as nat) == 10 * p);
            }
        }
        lemma_digits_of(g, (k - 1) as nat);
        assert(pow10(0) == 1);
        assert(d.last() == digit_char(f % 10));
    } else {
        assert(f == 0);
    }
}

proof fn lemma_strip_zeros(d: Seq<char>)
    requires
        all_digits(d),
    ensures
        strip_zeros(d).len() <= d.len(),
        strip_zeros(d) == d.subrange(0, strip_zeros(d).len() as int),
        strip_zeros(d).len() > 0 ==> strip_zeros(d).last() != '0',
        digits_value(strip_zeros(d)) * pow10((d.len() - strip_zeros(d).len()) as nat) == digits_value(d),
    decreases d.len(),
{
    if d.len() > 0 && d.last() == '0' {
        let e = d.drop_last();
        assert forall|i: int| 0 <= i < e.len() implies is_digit(#[trigger] e[i]) by {
            assert(e[i] == d[i]);
        }
        lemma_strip_zeros(e);
        let s = strip_zeros(e);
        assert(e.subrange(0, s.len() as int) =~= d.subrange(0, s.len() as int));
        let m = (e.len() - s.len()) as nat;
        assert(pow10((d.len() - s.len()) as nat) == 10 * pow10(m));
        assert(digits_value(s) * (10 * pow10(m)) == 10 * (digits_value(s) * pow10(m))) by (nonlinear_arith);
    } else {
        assert(d.subrange(0, d.len() as int) =~= d);
    }
}

/// Writing a number and parsing the text gives the same number back, for any number with
/// at most ten digits before the point.
pub proof fn lemma_decimal_round_trip(u: int)
    requires
        -100_000_000_000_000_000 < u < 100_000_000_000_000_000,
    ensures
        decimal_units(decimal_text(u)) == Some(u),
{
    reveal_with_fuel(pow10, 8);
    let a = if u < 0 { -u } else { u };
    let whole = a / pow10(7);
    let frac = a % pow10(7);
    let w = nat_text(whole as nat);
    lemma_nat_text(whole as nat);
    assert(pow10(10) == 10_000_000_000) by {
        reveal_with_fuel(pow10, 11);
    }
    lemma_nat_text_len(whole as nat, 10);
    let tail = if frac != 0 {
        seq!['.'] + strip_zeros(seven_digits(frac))
    } else {
        Seq::<char>::empty()
    };
    let t = w + tail;
    assert(decimal_text(u) == (if u < 0 { seq!['-'] } else { Seq::<char>::empty() }) + t);
    assert(w[0] != '-' && w[0] != '+' && w[0] != '.') by {
        assert(is_digit(w[0]));
    }
    if u < 0 {
        assert(decimal_text(u).drop_first() =~= t);
    } else {
        assert(decimal_text(u) =~= t);
    }
    assert(!contains(w, '.')) by {
        if contains(w, '.') {
            let j = choose|j: int| 0 <= j < w.len() && w[j] == '.';
            assert(is_digit(w[j]));
        }
    }
    if frac == 0 {
        assert(t =~= w);
        assert(first_of(t, '.') is None) by {
            lemma_first_of_absent(t);
        }
        assert(whole * pow10(7) + frac == a);
    } else {
        let d = seven_digits(frac);
        assert(d =~= digits_of(frac, 7));
        lemma_digits_of(frac, 7);
        lemma_strip_zeros(d);
        let g = strip_zeros(d);
        assert(g.len() > 0) by {
            if g.len() == 0 {
                assert(digits_value(g) == 0);
            }
        }
        assert(t[w.len() as int] == '.');
        assert(t.subrange(0, w.len() as int) =~= w);
        assert(first_of(t, '.') == Some(w.len() as int)) by {
            lemma_first_of_at(t, w.len() as int);
        }
        assert(t.subrange(w.len() as int + 1, t.len() as int) =~= g);
        assert(all_digits(g)) by {
            assert forall|i: int| 0 <= i < g.len() implies is_digit(#[trigger] g[i]) by {
                assert(g[i] == d[i]);
            }
        }
        assert(whole * pow10(7) + frac == a);
    }
}

proof fn lemma_first_of_absent(t: Seq<char>)
    requires
        !contains(t, '.'),
    ensures
        first_of(t, '.') is None,
    decreases t.len(),
{
    if t.len() > 0 {
        assert(!contains(t.drop_last(), '.')) by {
            if contains(t.drop_last(), '.') {
                let j = choose|j: int| 0 <= j < t.drop_last().len() && t.drop_last()[j] == '.';
                assert(t[j] == '.');
            }
        }
        lemma_first_of_absent(t.drop_last());
    }
}

proof fn lemma_first_of_at(t: Seq<char>, k: int)
    requires
        0 <= k < t.len(),
        t[k] == '.',
        !contains(t.subrange(0, k), '.'),
    ensures
        first_of(t, '.') == Some(k),
    decreases t.len(),
{
    if k < t.len() - 1 {
        assert(t.drop_last().subrange(0, k) =~= t.subrange(0, k));
        lemma_first_of_at(t.drop_last(), k);
        assert(t.drop_last()[k] == '.');
        assert(contains(t.drop_last(), '.'));
    } else {
        assert(t.drop_last() =~= t.subrange(0, k));
    }
}

/// The coordinates that `s` writes as `latitude,longitude`, each trimmed, if it does.
pub open spec fn point_text_units(s: Seq<char>) -> Option<(int, int)> {
    match first_of(s, ',') {
        None => None,
        Some(k) => if contains(s.subrange(k + 1, s.len() as int), ',') {
            None
        } else {
            match (
                decimal_units(trim(s.subrange(0, k))),
                decimal_units(trim(s.subrange(k + 1, s.len() as int))),
            ) {
                (Some(a), Some(b)) => Some((a, b)),
                _ => None,
            }
        },
    }
}

/// Whether a latitude and longitude, in units, lie within WGS 84 bounds.
pub open spec fn in_range(lat: int, lon: int) -> bool {
    -90 * pow10(7) <= lat <= 90 * pow10(7) && -180 * pow10(7) <= lon <= 180 * pow10(7)
}

/// The point that `s` writes, where it writes one within bounds.
pub open spec fn point_of(s: Seq<char>) -> Option<(int, int)> {
    match point_text_units(s) {
        Some((a, b)) => if in_range(a, b) {
            Some((a, b))
        } else {
            None
        },
        None => None,
    }
}

/// How a point is written.
pub open spec fn point_text(p: (int, int)) -> Seq<char> {
    decimal_text(p.0) + seq![','] + decimal_text(p.1)
}

/// A WGS 84 point.
#[derive(Debug, Copy, Clone, PartialEq, Eq, Structural)]
pub struct Point {
    latitude: Decimal,
    longitude: Decimal,
}

/// The error returned when a `Point` would be invalid.
#[derive(Debug, Copy, Clone, PartialEq, Eq, Structural)]
pub enum InvalidPointError {
    /// The text is not two comma-separated numbers.
    BadFormat,
    /// The latitude is outside [-90, 90] or the longitude outside [-180, 180].
    CoordinatesOutOfRange,
}

impl View for Point {
    type V = (int, int);

    closed spec fn view(&self) -> (int, int) {
        (self.latitude.units as int, self.longitude.units as int)
    }
}

impl Point {
    pub open spec fn wf(&self) -> bool {
        in_range(self@.0, self@.1)
    }

    /// Make a point where the coordinates are in range.
    pub fn new(latitude: Decimal, longitude: Decimal) -> (r: Result<Point, InvalidPointError>)
        ensures
            in_range(latitude.units as int, longitude.units as int) <==> r is Ok,
            r matches Ok(p) ==> p@ == (latitude.units as int, longitude.units as int) && p.wf(),
            r matches Err(e) ==> e == InvalidPointError::CoordinatesOutOfRange,
    {
        proof {
            reveal_with_fuel(pow10, 8);
        }
        if -900_000_000 <= latitude.units && latitude.units <= 900_000_000 && -1_800_000_000
            <= longitude.units && longitude.units <= 1_800_000_000 {
            Ok(Point { latitude, longitude })
        } else {
            Err(InvalidPointError::CoordinatesOutOfRange)
        }
    }

    /// The latitude.
    pub fn latitude(&self) -> (r: Decimal)
        ensures
            r.units == self@.0,
    {
        self.latitude
    }

    /// The longitude.
    pub fn longitude(&self) -> (r: Decimal)
        ensures
            r.units == self@.1,
    {
        self.longitude
    }

    /// Parse `latitude,longitude`; whitespace around each number is ignored.
    pub fn parse_chars(s: &Vec<char>) -> (r: Result<Point, InvalidPointError>)
        ensures
            point_text_units(s@) is None <==> r == Err::<Point, InvalidPointError>(
                InvalidPointError::BadFormat,
            ),
            point_of(s@) is Some <==> r is Ok,
            r matches Ok(p) ==> point_of(s@) == Some(p@) && p.wf(),
    {
        let n = s.len();
        let k = match find_char(s, ',') {
            None => {
                return Err(InvalidPointError::BadFormat);
            },
            Some(k) => k,
        };
        let rest = slice_chars(s, k + 1, n);
        if find_char(&rest, ',').is_some() {
            return Err(InvalidPointError::BadFormat);
        }
        let (a0, a1) = trim_bounds(s, 0, k);
        let (b0, b1) = trim_bounds(s, k + 1, n);
        let lat = Decimal::parse_chars(&slice_chars(s, a0, a1));
        let lon = Decimal::parse_chars(&slice_chars(s, b0, b1));
        match (lat, lon) {
            (Ok(a), Ok(b)) => Point::new(a, b),
            _ => Err(InvalidPointError::BadFormat),
        }
    }

    /// Parse `latitude,longitude`; whitespace around each number is ignored.
    pub fn parse(s: &str) -> (r: Result<Point, InvalidPointError>)
        ensures
            point_text_units(s@) is None <==> r == Err::<Point, InvalidPointError>(
                InvalidPointError::BadFormat,
            ),
            point_of(s@) is Some <==> r is Ok,
            r matches Ok(p) ==> point_of(s@) == Some(p@) && p.wf(),
    {
        Point::parse_chars(&chars_of(s))
    }

    /// Append `latitude,longitude`.
    pub fn push_text(&self, out: &mut String)
        ensures
            final(out)@ == old(out)@ + point_text(self@),
    {
        self.latitude.push_text(out);
        push_char(out, ',');
        self.longitude.push_text(out);
        assert(final(out)@ =~= old(out)@ + point_text(self@));
    }

    /// The point as `latitude,longitude`.
    pub fn to_string(&self) -> (r: String)
        ensures
            r@ == point_text(self@),
    {
        let mut out = String::new();
        self.push_text(&mut out);
        out
    }
}

/// How a polygon is written: its points separated by single spaces.
pub open spec fn polygon_text(ps: Seq<(int, int)>) -> Seq<char>
    decreases ps.len(),
{
    if ps.len() == 0 {
        Seq::empty()
    } else if ps.len() == 1 {
        point_text(ps[0])
    } else {
        polygon_text(ps.drop_last()) + seq![' '] + point_text(ps.last())
    }
}

/// Whether a sequence of points forms a closed ring of at least four points.
pub open spec fn is_ring(ps: Seq<(int, int)>) -> bool {
    ps.len() >= 4 && ps[0] == ps.last()
}

/// A closed polygon: at least four points, the last equal to the first.
#[derive(Debug, Clone, PartialEq, Eq)]
pub struct Polygon(Vec<Point>);

/// The error returned when a `Polygon` would be invalid.
#[derive(Debug, Copy, Clone, PartialEq, Eq, Structural)]
pub enum InvalidPolygonError {
    /// Fewer than four points; this many were given.
    TooFewPoints(usize),
    /// The last point differs from the first.
    ShapeNotClosed,
    /// One of the points is invalid.
    InvalidPoint(InvalidPointError),
}

impl View for Polygon {
    type V = Seq<(int, int)>;

    closed spec fn view(&self) -> Seq<(int, int)> {
        self.0@.map_values(|p: Point| p@)
    }
}

impl Polygon {
    pub closed spec fn points_wf(&self) -> bool {
        forall|i: int| 0 <= i < self.0@.len() ==> (#[trigger] self.0@[i]).wf()
    }

    pub open spec fn wf(&self) -> bool {
        is_ring(self@) && self.points_wf()
    }

    /// Make a polygon from points that form a closed ring of at least four.
    pub fn new(points: Vec<Point>) -> (r: Result<Polygon, InvalidPolygonError>)
        ensures
            points@.len() < 4 ==> r == Err::<Polygon, InvalidPolygonError>(
                InvalidPolygonError::TooFewPoints(points@.len() as usize),
            ),
            points@.len() >= 4 && points@[0]@ != points@.last()@ ==> r == Err::<
                Polygon,
                InvalidPolygonError,
            >(InvalidPolygonError::ShapeNotClosed),
            points@.len() >= 4 && points@[0]@ == points@.last()@ ==> (r matches Ok(p) && p@
                == points@.map_values(|q: Point| q@)),
            r matches Ok(p) ==> ((forall|i: int| 0 <= i < points@.len() ==> (#[trigger] points@[i]).wf()) ==> p.wf()),
    {
        let n = points.len();
        if n < 4 {
            return Err(InvalidPolygonError::TooFewPoints(n));
        }
        if points[0] != points[n - 1] {
            return Err(InvalidPolygonError::ShapeNotClosed);
        }
        let p = Polygon(points);
        proof {
            assert(p@[0] == points@[0]@);
            assert(p@.last() == points@[n - 1]@);
        }
        Ok(p)
    }

    /// The points, in order.
    pub fn iter(&self) -> (r: &[Point])
        ensures
            r@.map_values(|q: Point| q@) == self@,
    {
        self.0.as_slice()
    }

    /// The number of points.
    pub fn len(&self) -> (r: usize)
        ensures
            r == self@.len(),
    {
        self.0.len()
    }

    /// Consume the polygon, returning its points.
    pub fn into_iter(self) -> (r: Vec<Point>)
        ensures
            r@.map_values(|q: Point| q@) == self@,
    {
        self.0
    }

    /// Parse whitespace-separated points into a polygon.
    pub fn parse(s: &str) -> (r: Result<Polygon, InvalidPolygonError>)
        ensures
            (exists|k: int| 0 <= k < words(s@).len() && point_of(#[trigger] words(s@)[k]) is None)
                <==> r matches Err(InvalidPolygonError::InvalidPoint(_)),
            r matches Ok(p) ==> p.wf() && p@.len() == words(s@).len() && forall|k: int|
                0 <= k < p@.len() ==> point_of(#[trigger] words(s@)[k]) == Some(p@[k]),
            (forall|k: int| 0 <= k < words(s@).len() ==> point_of(#[trigger] words(s@)[k]) is Some)
                ==> (is_ring(Seq::new(words(s@).len(), |k: int| point_of(words(s@)[k])->0))
                <==> r is Ok),
            (forall|k: int| 0 <= k < words(s@).len() ==> point_of(#[trigger] words(s@)[k]) is Some)
                && words(s@).len() < 4 ==> r == Err::<Polygon, InvalidPolygonError>(
                InvalidPolygonError::TooFewPoints(words(s@).len() as usize),
            ),
            (forall|k: int| 0 <= k < words(s@).len() ==> point_of(#[trigger] words(s@)[k]) is Some)
                && words(s@).len() >= 4 && point_of(words(s@)[0]) != point_of(words(s@).last())
                ==> r == Err::<Polygon, InvalidPolygonError>(InvalidPolygonError::ShapeNotClosed),
    {
        let cs = chars_of(s);
        let bounds = word_bounds(&cs);
        let ghost w = words(s@);
        let mut points: Vec<Point> = Vec::new();
        let mut i: usize = 0;
        while i < bounds.len()
            invariant
                cs@ == s@,
                w == words(s@),
                bounds@.len() == w.len(),
                forall|k: int|
                    0 <= k < bounds@.len() ==> {
                        let (a, b) = #[trigger] bounds@[k];
                        a < b <= cs@.len() && cs@.subrange(a as int, b as int) == w[k]
                    },
                i <= bounds@.len(),
                points@.len() == i,
                forall|k: int| 0 <= k < i ==> point_of(w[k]) == Some((#[trigger] points@[k])@) && points@[k].wf(),
            decreases bounds.len() - i,
        {
            let (a, b) = bounds[i];
            assert(bounds@[i as int] == (a, b));
            match Point::parse_chars(&slice_chars(&cs, a, b)) {
                Ok(p) => points.push(p),
                Err(e) => {
                    return Err(InvalidPolygonError::InvalidPoint(e));
                },
            }
            i = i + 1;
        }
        let ghost ps = points@.map_values(|q: Point| q@);
        proof {
            assert forall|k: int| 0 <= k < w.len() implies point_of(#[trigger] w[k]) is Some by {
                assert(point_of(w[k]) == Some(points@[k]@));
            }
            assert(ps =~= Seq::new(w.len(), |k: int| point_of(w[k])->0));
            if exists|k: int| 0 <= k < w.len() && point_of(#[trigger] w[k]) is None {
                let k = choose|k: int| 0 <= k < w.len() && point_of(#[trigger] w[k]) is None;
                assert(point_of(w[k]) == Some(points@[k]@));
            }
        }
        let r = Polygon::new(points);
        proof {
            if r is Ok {
                let p = r->Ok_0;
                assert forall|k: int| 0 <= k < p@.len() implies point_of(#[trigger] w[k]) == Some(p@[k]) by {
                    assert(p@[k] == ps[k]);
                }
            }
        }
        r
    }

    /// The polygon as whitespace-separated points.
    pub fn to_string(&self) -> (r: String)
        ensures
            r@ == polygon_text(self@),
    {
        let mut out = String::new();
        let mut i: usize = 0;
        while i < self.0.len()
            invariant
                i <= self@.len(),
                self@.len() == self.0@.len(),
                out@ == polygon_text(self@.subrange(0, i as int)),
            decreases self.0.len() - i,
        {
            let ghost before = out@;
            if i > 0 {
                push_char(&mut out, ' ');
            }
            self.0[i].push_text(&mut out);
            proof {
                let p = self@.subrange(0, i + 1);
                assert(p.drop_last() =~= self@.subrange(0, i as int));
                assert(self@[i as int] == self.0@[i as int]@);
                if i == 0 {
                    assert(out@ =~= point_text(p[0]));
                } else {
                    assert(out@ =~= before + seq![' '] + point_text(p.last()));
                }
            }
            i = i + 1;
        }
        assert(self@.subrange(0, self@.len() as int) =~= self@);
        out
    }
}

/// The largest radius, in units, that a circle may have (exclusive).
pub const MAX_RADIUS_UNITS: i64 = 200_000_000_000;

/// A circle: a center point and a radius in kilometres, in [0, 20000).
#[derive(Debug, Copy, Clone, PartialEq, Eq, Structural)]
pub struct Circle {
    pub center: Point,
    pub radius: Decimal,
}

/// The error returned when a `Circle` would be invalid.
#[derive(Debug, Copy, Clone, PartialEq, Eq, Structural)]
pub enum InvalidCircleError {
    /// The text is not a point and a radius separated by whitespace.
    UnparseableString,
    /// The center point is invalid.
    InvalidCenterPoint(InvalidPointError),
    /// The radius is negative or not below 20000 km.
    RadiusTooLarge,
}

/// Whether a radius, in units, is allowed.
pub open spec fn radius_ok(r: int) -> bool {
    0 <= r < 20000 * pow10(7)
}

/// How a circle is written: its center, a space, and its radius.
pub open spec fn circle_text(center: (int, int), radius: int) -> Seq<char> {
    point_text(center) + seq![' '] + decimal_text(radius)
}

impl Circle {
    pub open spec fn wf(&self) -> bool {
        self.center.wf() && radius_ok(self.radius.units as int)
    }

    /// Make a circle where the radius is allowed.
    pub fn new(center: Point, radius: Decimal) -> (r: Result<Circle, InvalidCircleError>)
        ensures
            radius_ok(radius.units as int) <==> r is Ok,
            r matches Ok(c) ==> c == (Circle { center, radius }),
            r matches Err(e) ==> e == InvalidCircleError::RadiusTooLarge,
    {
        proof {
            reveal_with_fuel(pow10, 8);
        }
        if 0 <= radius.units && radius.units < MAX_RADIUS_UNITS {
            Ok(Circle { center, radius })
        } else {
            Err(InvalidCircleError::RadiusTooLarge)
        }
    }

    /// Parse `latitude,longitude radius`.
    pub fn parse(s: &str) -> (r: Result<Circle, InvalidCircleError>)
        ensures
            (words(s@).len() != 2 || decimal_units(words(s@)[1]) is None) ==> r
                == Err::<Circle, InvalidCircleError>(InvalidCircleError::UnparseableString),
            (words(s@).len() == 2 && decimal_units(words(s@)[1]) is Some) ==> (match point_of(
                words(s@)[0],
            ) {
                None => r matches Err(InvalidCircleError::InvalidCenterPoint(_)),
                Some(c) => if radius_ok(decimal_units(words(s@)[1])->0) {
                    r matches Ok(v) && v.center@ == c && v.radius.units == decimal_units(
                        words(s@)[1],
                    )->0 && v.wf()
                } else {
                    r == Err::<Circle, InvalidCircleError>(InvalidCircleError::RadiusTooLarge)
                },
            }),
    {
        let cs = chars_of(s);
        let bounds = word_bounds(&cs);
        if bounds.len() != 2 {
            return Err(InvalidCircleError::UnparseableString);
        }
        let (a, b) = bounds[0];
        let (c, d) = bounds[1];
        assert(bounds@[0] == (a, b) && bounds@[1] == (c, d));
        let radius = match Decimal::parse_chars(&slice_chars(&cs, c, d)) {
            Ok(r) => r,
            Err(_) => {
                return Err(InvalidCircleError::UnparseableString);
            },
        };
        let center = match Point::parse_chars(&slice_chars(&cs, a, b)) {
            Ok(p) => p,
            Err(e) => {
                return Err(InvalidCircleError::InvalidCenterPoint(e));
            },
        };
        Circle::new(center, radius)
    }

    /// The circle as `latitude,longitude radius`.
    pub fn to_string(&self) -> (r: String)
        ensures
            r@ == circle_text(self.center@, self.radius.units as int),
    {
        let mut out = String::new();
        self.center.push_text(&mut out);
        push_char(&mut out, ' ');
        self.radius.push_text(&mut out);
        assert(out@ =~= circle_text(self.center@, self.radius.units as int));
        out
    }
}

/// A character that may appear in the text of a number.
pub open spec fn is_number_char(c: char) -> bool {
    is_digit(c) || c == '-' || c == '.'
}

proof fn lemma_decimal_text_chars(u: int)
    ensures
        decimal_text(u).len() > 0,
        forall|i: int| 0 <= i < decimal_text(u).len() ==> is_number_char(#[trigger] decimal_text(u)[i]),
        is_digit(decimal_text(u).last()),
{
    reveal_with_fuel(pow10, 8);
    let a = if u < 0 { -u } else { u };
    let whole = a / pow10(7);
    let frac = a % pow10(7);
    let w = nat_text(whole as nat);
    lemma_nat_text(whole as nat);
    let sign = if u < 0 { seq!['-'] } else { Seq::<char>::empty() };
    let t = decimal_text(u);
    if frac != 0 {
        let d = seven_digits(frac);
        assert(d =~= digits_of(frac, 7));
        lemma_digits_of(frac, 7);
        lemma_strip_zeros(d);
        let g = strip_zeros(d);
        assert(g.len() > 0) by {
            if g.len() == 0 {
                assert(digits_value(g) == 0);
            }
        }
        assert(t =~= sign + w + (seq!['.'] + g));
        assert forall|i: int| 0 <= i < t.len() implies is_number_char(#[trigger] t[i]) by {
            if i >= sign.len() + w.len() + 1 {
                assert(t[i] == g[i - sign.len() - w.len() - 1]);
                assert(g[i - sign.len() - w.len() - 1] == d[i - sign.len() - w.len() - 1]);
            } else if i >= sign.len() && i < sign.len() + w.len() {
                assert(t[i] == w[i - sign.len()]);
            }
        }
        assert(t.last() == g.last());
        assert(g.last() == d[g.len() - 1]);
    } else {
        assert(t =~= sign + w);
        assert forall|i: int| 0 <= i < t.len() implies is_number_char(#[trigger] t[i]) by {
            if i >= sign.len() {
                assert(t[i] == w[i - sign.len()]);
            }
        }
        assert(t.last() == w.last());
    }
}

proof fn lemma_trim_number(t: Seq<char>)
    requires
        t.len() > 0,
        forall|i: int| 0 <= i < t.len() ==> is_number_char(#[trigger] t[i]),
        is_digit(t.last()),
    ensures
        trim(t) == t,
{
    assert(is_number_char(t[0]));
}

/// Writing a point and parsing the text gives the same point back.
pub proof fn lemma_point_round_trip(p: (int, int))
    requires
        in_range(p.0, p.1),
    ensures
        point_of(point_text(p)) == Some(p),
{
    reveal_with_fuel(pow10, 8);
    let a = decimal_text(p.0);
    let b = decimal_text(p.1);
    let t = point_text(p);
    lemma_decimal_text_chars(p.0);
    lemma_decimal_text_chars(p.1);
    lemma_decimal_round_trip(p.0);
    lemma_decimal_round_trip(p.1);
    lemma_trim_number(a);
    lemma_trim_number(b);
    assert(t.subrange(0, a.len() as int) =~= a);
    assert(t.subrange(a.len() as int + 1, t.len() as int) =~= b);
    assert(!contains(a, ',')) by {
        if contains(a, ',') {
            let j = choose|j: int| 0 <= j < a.len() && a[j] == ',';
            assert(is_number_char(a[j]));
        }
    }
    assert(!contains(b, ',')) by {
        if contains(b, ',') {
            let j = choose|j: int| 0 <= j < b.len() && b[j] == ',';
            assert(is_number_char(b[j]));
        }
    }
    assert(first_of(t, ',') == Some(a.len() as int)) by {
        crate::text::lemma_first_of(t, ',', a.len() as int);
    }
}

proof fn lemma_point_text_plain(p: (int, int))
    ensures
        point_text(p).len() > 0,
        forall|j: int| 0 <= j < point_text(p).len() ==> !is_white_space(#[trigger] point_text(p)[j]),
{
    let a = decimal_text(p.0);
    let b = decimal_text(p.1);
    lemma_decimal_text_chars(p.0);
    lemma_decimal_text_chars(p.1);
    let t = point_text(p);
    assert forall|j: int| 0 <= j < t.len() implies !is_white_space(#[trigger] t[j]) by {
        if j < a.len() {
            assert(t[j] == a[j]);
            assert(is_number_char(a[j]));
        } else if j > a.len() {
            assert(t[j] == b[j - a.len() - 1]);
            assert(is_number_char(b[j - a.len() - 1]));
        }
    }
}

proof fn lemma_polygon_words(ps: Seq<(int, int)>)
    requires
        ps.len() >= 1,
    ensures
        words(polygon_text(ps)) == ps.map_values(|p: (int, int)| point_text(p)),
    decreases ps.len(),
{
    let t = polygon_text(ps);
    if ps.len() == 1 {
        lemma_point_text_plain(ps[0]);
        lemma_words_tail(t, 0, 0, Seq::empty());
        assert(t.subrange(0, t.len() as int) =~= t);
        assert(ps.map_values(|p: (int, int)| point_text(p)) =~= seq![t]);
    } else {
        let x = polygon_text(ps.drop_last());
        let w = point_text(ps.last());
        lemma_point_text_plain(ps.last());
        lemma_polygon_words(ps.drop_last());
        lemma_words_append(x, w, 0, 0, Seq::empty());
        assert(ps.map_values(|p: (int, int)| point_text(p)) =~= ps.drop_last().map_values(
            |p: (int, int)| point_text(p),
        ).push(w));
    }
}

/// Writing a valid polygon and parsing the text gives back the same points: the text has
/// one word per point, and each word reads as its point.
pub proof fn lemma_polygon_round_trip(ps: Seq<(int, int)>)
    requires
        is_ring(ps),
        forall|k: int| 0 <= k < ps.len() ==> in_range(#[trigger] ps[k].0, ps[k].1),
    ensures
        words(polygon_text(ps)).len() == ps.len(),
        forall|k: int| 0 <= k < ps.len() ==> point_of(#[trigger] words(polygon_text(ps))[k]) == Some(ps[k]),
{
    lemma_polygon_words(ps);
    assert forall|k: int| 0 <= k < ps.len() implies point_of(#[trigger] words(polygon_text(ps))[k]) == Some(ps[k]) by {
        lemma_point_round_trip(ps[k]);
    }
}

/// Writing a valid circle and parsing the text gives back the same center and radius.
pub proof fn lemma_circle_round_trip(center: (int, int), radius: int)
    requires
        in_range(center.0, center.1),
        radius_ok(radius),
    ensures
        words(circle_text(center, radius)) == seq![point_text(center), decimal_text(radius)],
        point_of(point_text(center)) == Some(center),
        decimal_units(decimal_text(radius)) == Some(radius),
{
    reveal_with_fuel(pow10, 8);
    let x = point_text(center);
    let w = decimal_text(radius);
    lemma_point_text_plain(center);
    lemma_decimal_text_chars(radius);
    assert forall|j: int| 0 <= j < w.len() implies !is_white_space(#[trigger] w[j]) by {
        assert(is_number_char(w[j]));
    }
    lemma_words_append(x, w, 0, 0, Seq::empty());
    lemma_words_tail(x, 0, 0, Seq::empty());
    assert(x.subrange(0, x.len() as int) =~= x);
    assert(Seq::<Seq<char>>::empty().push(x).push(w) =~= seq![x, w]);
    lemma_point_round_trip(center);
    lemma_decimal_round_trip(radius);
}

/// The points of the polygon that `t` writes, where it writes a valid one.
pub open spec fn polygon_of(t: Seq<char>) -> Option<Seq<(int, int)>> {
    if (forall|k: int| 0 <= k < words(t).len() ==> point_of(#[trigger] words(t)[k]) is Some)
        && is_ring(Seq::new(words(t).len(), |k: int| point_of(words(t)[k])->0)) {
        Some(Seq::new(words(t).len(), |k: int| point_of(words(t)[k])->0))
    } else {
        None
    }
}

/// The texts of `v` that are not empty, in order.
pub open spec fn nonempty_texts(v: Seq<String>) -> Seq<Seq<char>>
    decreases v.len(),
{
    if v.len() == 0 {
        Seq::empty()
    } else if v.last()@.len() == 0 {
        nonempty_texts(v.drop_last())
    } else {
        nonempty_texts(v.drop_last()).push(v.last()@)
    }
}

/// Parse the texts of repeated polygon elements. An empty text stands for no polygon at all
/// rather than a malformed one; every other text must be a valid polygon.
pub fn polygons_from_texts(texts: Vec<String>) -> (r: Result<Vec<Polygon>, InvalidPolygonError>)
    ensures
        (forall|k: int| 0 <= k < nonempty_texts(texts@).len() ==> (#[trigger] polygon_of(nonempty_texts(texts@)[k])) is Some) <==> r is Ok,
        r matches Ok(ps) ==> ps@.len() == nonempty_texts(texts@).len() && forall|k: int|
            0 <= k < ps@.len() ==> Some((#[trigger] ps@[k])@) == polygon_of(nonempty_texts(texts@)[k]) && ps@[k].wf(),
{
    let mut out: Vec<Polygon> = Vec::new();
    let mut i: usize = 0;
    while i < texts.len()
        invariant
            i <= texts@.len(),
            out@.len() == nonempty_texts(texts@.subrange(0, i as int)).len(),
            forall|k: int| 0 <= k < out@.len() ==> Some((#[trigger] out@[k])@) == polygon_of(nonempty_texts(texts@.subrange(0, i as int))[k]) && out@[k].wf(),
        decreases texts.len() - i,
    {
        let ghost pre = nonempty_texts(texts@.subrange(0, i as int));
        assert(texts@.subrange(0, i + 1).drop_last() =~= texts@.subrange(0, i as int));
        let t = texts[i].as_str();
        if chars_of(t).len() > 0 {
            let ghost w = words(t@);
            match Polygon::parse(t) {
                Ok(p) => {
                    assert(p@ =~= Seq::new(w.len(), |k: int| point_of(w[k])->0));
                    out.push(p);
                },
                Err(e) => {
                    proof {
                        lemma_nonempty_texts_prefix(texts@, i as int + 1);
                        let all = nonempty_texts(texts@);
                        assert(texts@.subrange(0, i + 1).last() == texts@[i as int]);
                        assert(nonempty_texts(texts@.subrange(0, i + 1)) == pre.push(t@));
                        assert(nonempty_texts(texts@.subrange(0, i + 1))[pre.len() as int] == t@);
                        assert(all[pre.len() as int] == t@);
                        assert(polygon_of(t@) is None);
                    }
                    return Err(e);
                },
            }
        }
        i = i + 1;
    }
    assert(texts@.subrange(0, texts@.len() as int) =~= texts@);
    proof {
        let all = nonempty_texts(texts@);
        assert forall|k: int| 0 <= k < all.len() implies (#[trigger] polygon_of(all[k])) is Some by {
            assert(Some(out@[k]@) == polygon_of(all[k]));
        }
    }
    Ok(out)
}

proof fn lemma_nonempty_texts_prefix(v: Seq<String>, n: int)
    requires
        0 <= n <= v.len(),
    ensures
        nonempty_texts(v.subrange(0, n)).len() <= nonempty_texts(v).len(),
        forall|k: int| 0 <= k < nonempty_texts(v.subrange(0, n)).len() ==> #[trigger] nonempty_texts(v.subrange(0, n))[k] == nonempty_texts(v)[k],
    decreases v.len() - n,
{
    if n < v.len() {
        lemma_nonempty_texts_prefix(v, n + 1);
        let a = v.subrange(0, n);
        let b = v.subrange(0, n + 1);
        assert(b.drop_last() =~= a);
        assert forall|k: int| 0 <= k < nonempty_texts(a).len() implies #[trigger] nonempty_texts(a)[k] == nonempty_texts(v)[k] by {
            assert(nonempty_texts(b)[k] == nonempty_texts(a)[k]);
            assert(nonempty_texts(b)[k] == nonempty_texts(v)[k]);
        }
    } else {
        assert(v.subrange(0, n) =~= v);
    }
}

} // verus!
