//! Text encodings used by the service: upper-case hexadecimal for
//! password digests, decimal numbers for identifiers in URLs, and ASCII
//! upper-casing for salts.

use vstd::prelude::*;
use vstd::string::*;

verus! {

/// `String::push` appends one character to the end of the string.
pub assume_specification[ String::push ](s: &mut String, ch: char)
    ensures
        final(s)@ == old(s)@.push(ch),
;

/// The upper-case hexadecimal digit for a value below 16.
pub open spec fn hex_digit(n: int) -> char {
    if n < 10 {
        (48 + n) as char
    } else {
        (55 + n) as char
    }
}

/// Upper-case hexadecimal encoding: two digits per byte, high nibble first
/// (what `format!("{:02X}", b)` gives for each byte `b`).
pub open spec fn hex_upper(bytes: Seq<u8>) -> Seq<char> {
    Seq::new(
        2 * bytes.len(),
        |i: int|
            if i % 2 == 0 {
                hex_digit(bytes[i / 2] as int / 16)
            } else {
                hex_digit(bytes[i / 2] as int % 16)
            },
    )
}

/// A character that upper-case hexadecimal encoding can produce.
pub open spec fn is_upper_hex_char(c: char) -> bool {
    ('0' <= c <= '9') || ('A' <= c <= 'F')
}

fn hex_digit_char(n: u8) -> (c: char)
    requires
        n < 16,
    ensures
        c == hex_digit(n as int),
{
    if n < 10 {
        (48u8 + n) as char
    } else {
        (55u8 + n) as char
    }
}

/// Encodes `bytes` as upper-case hexadecimal, e.g. `[0xbe, 0x0f]` gives `"BE0F"`.
pub fn to_hex_upper(bytes: &[u8]) -> (s: String)
    requires
        2 * bytes@.len() <= usize::MAX,
    ensures
        s@ == hex_upper(bytes@),
{
    let mut s = String::new();
    let mut i: usize = 0;
    while i < bytes.len()
        invariant
            i <= bytes@.len(),
            s@.len() == 2 * i,
            forall|j: int| 0 <= j < 2 * i ==> s@[j] == #[trigger] hex_upper(bytes@)[j],
        decreases bytes@.len() - i,
    {
        let b = bytes[i];
        s.push(hex_digit_char(b / 16));
        s.push(hex_digit_char(b % 16));
        i = i + 1;
    }
    assert(s@ =~= hex_upper(bytes@));
    s
}


/// Distinct byte strings have distinct hexadecimal encodings: the encoding
/// loses nothing, so comparing two encoded digests compares the digests.
pub proof fn lemma_hex_upper_injective(a: Seq<u8>, b: Seq<u8>)
    requires
        hex_upper(a) == hex_upper(b),
    ensures
        a == b,
{
    assert(a.len() == b.len()) by {
        assert(hex_upper(a).len() == 2 * a.len());
    }
    assert forall|i: int| 0 <= i < a.len() implies a[i] == b[i] by {
        let hi = hex_upper(a)[2 * i];
        let lo = hex_upper(a)[2 * i + 1];
        assert(hi == hex_upper(b)[2 * i]);
        assert(lo == hex_upper(b)[2 * i + 1]);
        assert((2 * i) / 2 == i && (2 * i + 1) / 2 == i);
        assert((2 * i) % 2 == 0 && (2 * i + 1) % 2 == 1);
        lemma_hex_digit_injective(a[i] as int / 16, b[i] as int / 16);
        lemma_hex_digit_injective(a[i] as int % 16, b[i] as int % 16);
    }
    assert(a =~= b);
}

proof fn lemma_hex_digit_injective(m: int, n: int)
    requires
        0 <= m < 16,
        0 <= n < 16,
        hex_digit(m) == hex_digit(n),
    ensures
        m == n,
{
}

/// Every character of an upper-case hexadecimal encoding is one of `0-9A-F`.
pub proof fn lemma_hex_upper_chars(bytes: Seq<u8>)
    ensures
        hex_upper(bytes).len() == 2 * bytes.len(),
        forall|i: int| 0 <= i < hex_upper(bytes).len() ==> is_upper_hex_char(#[trigger] hex_upper(bytes)[i]),
{
    assert forall|i: int| 0 <= i < hex_upper(bytes).len() implies is_upper_hex_char(#[trigger] hex_upper(bytes)[i]) by {
        let n = if i % 2 == 0 { bytes[i / 2] as int / 16 } else { bytes[i / 2] as int % 16 };
        assert(0 <= n < 16);
        assert(hex_upper(bytes)[i] == hex_digit(n));
    }
}

/// The decimal digit for a value below 10.
pub open spec fn decimal_digit(n: nat) -> char {
    (48 + n) as char
}

/// The decimal digits of `n`, most significant first, with no leading zero.
pub open spec fn decimal_digits(n: nat) -> Seq<char>
    decreases n,
{
    if n < 10 {
        seq![decimal_digit(n)]
    } else {
        decimal_digits(n / 10).push(decimal_digit(n % 10))
    }
}

/// The decimal representation of an integer, with a leading `-` when it is
/// negative (what `format!("{}", n)` gives for an `i32`).
pub open spec fn decimal(n: int) -> Seq<char> {
    if n < 0 {
        seq!['-'] + decimal_digits((-n) as nat)
    } else {
        decimal_digits(n as nat)
    }
}

fn push_decimal_digits(s: &mut String, n: u32)
    ensures
        final(s)@ == old(s)@ + decimal_digits(n as nat),
    decreases n,
{
    if n >= 10 {
        push_decimal_digits(s, n / 10);
    }
    let d: u8 = (n % 10) as u8;
    s.push((48u8 + d) as char);
    assert(final(s)@ =~= old(s)@ + decimal_digits(n as nat));
}

/// Appends the decimal representation of `n` to `s`.
pub fn push_decimal(s: &mut String, n: i32)
    ensures
        final(s)@ == old(s)@ + decimal(n as int),
{
    if n < 0 {
        s.push('-');
        let magnitude: i64 = -(n as i64);
        push_decimal_digits(s, magnitude as u32);
    } else {
        push_decimal_digits(s, n as u32);
    }
    assert(final(s)@ =~= old(s)@ + decimal(n as int));
}

/// The decimal representation of `n` as a new string.
pub fn decimal_string(n: i32) -> (s: String)
    ensures
        s@ == decimal(n as int),
{
    let mut s = String::new();
    push_decimal(&mut s, n);
    assert(s@ =~= decimal(n as int));
    s
}

/// ASCII upper-casing of one character: `a-z` become `A-Z`, every other
/// character is kept.
pub open spec fn ascii_upper(c: char) -> char {
    if 'a' <= c <= 'z' {
        ((c as int) - 32) as char
    } else {
        c
    }
}

/// Upper-cases the ASCII letters of `s` and keeps every other character.
/// On text made of ASCII letters and digits this is what `str::to_uppercase`
/// gives.
pub fn to_ascii_uppercase(s: &str) -> (r: String)
    ensures
        r@ == s@.map_values(|c: char| ascii_upper(c)),
{
    let n = s.unicode_len();
    let mut r = String::new();
    let mut i: usize = 0;
    while i < n
        invariant
            n == s@.len(),
            i <= n,
            r@ == s@.take(i as int).map_values(|c: char| ascii_upper(c)),
        decreases n - i,
    {
        let c = s.get_char(i);
        let u = if 'a' <= c && c <= 'z' {
            ((c as u8) - 32) as char
        } else {
            c
        };
        r.push(u);
        assert(s@.take(i + 1) =~= s@.take(i as int).push(c));
        assert(r@ =~= s@.take(i + 1).map_values(|c: char| ascii_upper(c)));
        i = i + 1;
    }
    assert(s@.take(n as int) =~= s@);
    r
}


/// Whether `s` begins with `prefix`.
pub fn starts_with(s: &str, prefix: &str) -> (b: bool)
    ensures
        b == prefix@.is_prefix_of(s@),
{
    let n = prefix.unicode_len();
    let m = s.unicode_len();
    if n > m {
        return false;
    }
    let mut i: usize = 0;
    while i < n
        invariant
            n == prefix@.len(),
            m == s@.len(),
            n <= m,
            i <= n,
            forall|j: int| 0 <= j < i ==> prefix@[j] == s@[j],
        decreases n - i,
    {
        if s.get_char(i) != prefix.get_char(i) {
            return false;
        }
        i = i + 1;
    }
    true
}

} // verus!
