//! SHA-1 digests, written as 40 hexadecimal digits.

use vstd::prelude::*;
use crate::text::{chars_of, push_char, string_of, trim, trim_bounds};

verus! {

/// The value of a hexadecimal digit of either case.
pub open spec fn hex_value(c: char) -> Option<u8> {
    if '0' <= c && c <= '9' {
        Some((c as u32 - '0' as u32) as u8)
    } else if 'a' <= c && c <= 'f' {
        Some((c as u32 - 'a' as u32 + 10) as u8)
    } else if 'A' <= c && c <= 'F' {
        Some((c as u32 - 'A' as u32 + 10) as u8)
    } else {
        None
    }
}

/// The lower-case hexadecimal digit for `n < 16`.
pub open spec fn hex_digit(n: u8) -> char {
    if n < 10 {
        (n + '0' as u8) as char
    } else {
        (n - 10 + 'a' as u8) as char
    }
}

/// Whether every character of `t` is a hexadecimal digit.
pub open spec fn all_hex(t: Seq<char>) -> bool {
    forall|i: int| 0 <= i < t.len() ==> (#[trigger] hex_value(t[i])) is Some
}

/// The byte that the digits at `2k` and `2k + 1` of `t` stand for.
pub open spec fn hex_byte(t: Seq<char>, k: int) -> u8 {
    (16 * hex_value(t[2 * k])->0 + hex_value(t[2 * k + 1])->0) as u8
}

/// The text of a digest: two lower-case digits per byte.
pub open spec fn hex_text(b: Seq<u8>) -> Seq<char> {
    Seq::new(2 * b.len(), |i: int| if i % 2 == 0 { hex_digit(b[i / 2] / 16) } else { hex_digit(b[i / 2] % 16) })
}

/// A SHA-1 digest.
#[derive(Debug, Copy, Clone, PartialEq, Eq)]
pub struct Sha1(pub [u8; 20]);

/// The error returned when text is not a SHA-1 digest.
#[derive(Debug, Clone, PartialEq, Eq, Structural)]
pub enum Sha1ParseError {
    /// The trimmed text is not 40 characters long; this is its length.
    Length(usize),
    /// The text holds a character that is not a hexadecimal digit.
    Digits,
}

impl View for Sha1 {
    type V = Seq<u8>;

    open spec fn view(&self) -> Seq<u8> {
        self.0@
    }
}

fn hex_value_of(c: char) -> (r: Option<u8>)
    ensures
        r == hex_value(c),
{
    if '0' <= c && c <= '9' {
        Some((c as u32 - '0' as u32) as u8)
    } else if 'a' <= c && c <= 'f' {
        Some((c as u32 - 'a' as u32 + 10) as u8)
    } else if 'A' <= c && c <= 'F' {
        Some((c as u32 - 'A' as u32 + 10) as u8)
    } else {
        None
    }
}

fn hex_digit_of(n: u8) -> (r: char)
    requires
        n < 16,
    ensures
        r == hex_digit(n),
{
    if n < 10 {
        (n + '0' as u8) as char
    } else {
        (n - 10 + 'a' as u8) as char
    }
}

impl Sha1 {
    /// Make a digest from its bytes.
    pub fn from_bytes(bytes: [u8; 20]) -> (r: Sha1)
        ensures
            r@ == bytes@,
    {
        Sha1(bytes)
    }

    /// The digest's bytes.
    pub fn as_bytes(&self) -> (r: &[u8; 20])
        ensures
            r@ == self@,
    {
        &self.0
    }

    /// Parse 40 hexadecimal digits of either case, after trimming surrounding whitespace.
    pub fn parse(s: &str) -> (r: Result<Sha1, Sha1ParseError>)
        ensures
            trim(s@).len() != 40 ==> r == Err::<Sha1, Sha1ParseError>(
                Sha1ParseError::Length(trim(s@).len() as usize),
            ),
            trim(s@).len() == 40 && !all_hex(trim(s@)) ==> r == Err::<Sha1, Sha1ParseError>(
                Sha1ParseError::Digits,
            ),
            trim(s@).len() == 40 && all_hex(trim(s@)) ==> (r matches Ok(d) && d@.len() == 20
                && forall|k: int| 0 <= k < 20 ==> #[trigger] d@[k] == hex_byte(trim(s@), k)),
    {
        let cs = chars_of(s);
        let (a, b) = trim_bounds(&cs, 0, cs.len());
        assert(cs@.subrange(0, cs@.len() as int) =~= s@);
        let ghost t = trim(s@);
        if b - a != 40 {
            return Err(Sha1ParseError::Length(b - a));
        }
        let mut bytes = [0u8; 20];
        let mut k: usize = 0;
        while k < 20
            invariant
                t == cs@.subrange(a as int, b as int),
                t == trim(s@),
                b - a == 40,
                a <= b <= cs@.len(),
                k <= 20,
                bytes@.len() == 20,
                forall|j: int| 0 <= j < 2 * k ==> (#[trigger] hex_value(t[j])) is Some,
                forall|j: int| 0 <= j < k ==> #[trigger] bytes@[j] == hex_byte(t, j),
            decreases 20 - k,
        {
            let hi = hex_value_of(cs[a + 2 * k]);
            let lo = hex_value_of(cs[a + 2 * k + 1]);
            assert(t[2 * k as int] == cs@[a + 2 * k]);
            assert(t[2 * k + 1] == cs@[a + 2 * k + 1]);
            match (hi, lo) {
                (Some(h), Some(l)) => {
                    assert(h < 16 && l < 16);
                    bytes[k] = 16 * h + l;
                },
                _ => {
                    assert(!all_hex(t));
                    return Err(Sha1ParseError::Digits);
                },
            }
            k = k + 1;
        }
        Ok(Sha1(bytes))
    }

    /// The digest as 40 lower-case hexadecimal digits.
    pub fn to_string(&self) -> (r: String)
        ensures
            r@ == hex_text(self@),
    {
        let mut out = String::new();
        let mut k: usize = 0;
        while k < 20
            invariant
                k <= 20,
                self@.len() == 20,
                out@ =~= hex_text(self@).subrange(0, 2 * k as int),
            decreases 20 - k,
        {
            let x = self.0[k];
            push_char(&mut out, hex_digit_of(x / 16));
            push_char(&mut out, hex_digit_of(x % 16));
            k = k + 1;
        }
        out
    }
}

proof fn lemma_hex_digit(n: u8)
    requires
        n < 16,
    ensures
        hex_value(hex_digit(n)) == Some(n),
{
}

/// Writing a digest and parsing the text gives the same digest back.
pub proof fn lemma_sha1_round_trip(d: Sha1)
    ensures
        trim(hex_text(d@)) == hex_text(d@),
        hex_text(d@).len() == 40,
        all_hex(hex_text(d@)),
        forall|k: int| 0 <= k < 20 ==> #[trigger] hex_byte(hex_text(d@), k) == d@[k],
{
    let t = hex_text(d@);
    assert forall|i: int| 0 <= i < t.len() implies (#[trigger] hex_value(t[i])) is Some by {
        lemma_hex_digit(d@[i / 2] / 16);
        lemma_hex_digit(d@[i / 2] % 16);
    }
    assert forall|k: int| 0 <= k < 20 implies #[trigger] hex_byte(t, k) == d@[k] by {
        lemma_hex_digit(d@[k] / 16);
        lemma_hex_digit(d@[k] % 16);
        assert((2 * k) / 2 == k);
        assert((2 * k + 1) / 2 == k);
        assert((2 * k) % 2 == 0);
        assert((2 * k + 1) % 2 == 1);
    }
    lemma_hex_digit(d@[0] / 16);
    lemma_hex_digit(d@[19] % 16);
    assert((2 * 19 + 1) / 2 == 19);
}

} // verus!
