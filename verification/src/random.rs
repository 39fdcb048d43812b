//! Random strings of ASCII letters and digits, used for salts and session keys.

use rand::Rng;
use vstd::prelude::*;

verus! {

/// One of `A-Z`, `a-z` or `0-9`.
pub open spec fn is_ascii_alphanumeric(c: char) -> bool {
    ('A' <= c <= 'Z') || ('a' <= c <= 'z') || ('0' <= c <= '9')
}

/// Draws the next character of `rand::thread_rng().gen_ascii_chars()`.
/// In rand 0.4 that iterator never ends: each call picks a character of
/// `A-Za-z0-9`. Claimed: the result is `Some` of such a character; which
/// one is left free, as it depends on chance.
#[verifier::external_body]
fn random_ascii_alphanumeric() -> (c: Option<char>)
    ensures
        c is Some,
        is_ascii_alphanumeric(c->0),
{
    rand::thread_rng().gen_ascii_chars().next()
}

/// A random string of `length` characters, each of `A-Za-z0-9`.
pub fn rand_str(length: usize) -> (s: String)
    ensures
        s@.len() == length,
        forall|i: int| 0 <= i < s@.len() ==> is_ascii_alphanumeric(#[trigger] s@[i]),
{
    let mut s = String::new();
    let mut i: usize = 0;
    while i < length
        invariant
            i <= length,
            s@.len() == i,
            forall|j: int| 0 <= j < s@.len() ==> is_ascii_alphanumeric(#[trigger] s@[j]),
        decreases length - i,
    {
        let c = random_ascii_alphanumeric().unwrap();
        s.push(c);
        i = i + 1;
    }
    s
}

} // verus!
