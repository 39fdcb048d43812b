//! Password hashing with Argon2i, and the upper-case hexadecimal form in
//! which hashes are stored.

use argon2rs::argon2i_simple;
use vstd::prelude::*;
use vstd::utf8::*;
use crate::text::{hex_upper, is_upper_hex_char, lemma_hex_upper_chars, lemma_hex_upper_injective, to_hex_upper};

verus! {

broadcast use vstd::array::group_array_axioms, vstd::slice::group_slice_axioms;

/// The 32-byte digest that `argon2rs::argon2i_simple` computes from the
/// UTF-8 bytes of a password and of a salt.
pub uninterp spec fn argon2i_simple_digest(password: Seq<char>, salt: Seq<char>) -> Seq<u8>;

/// Inputs on which `argon2i_simple` returns: the password takes at most
/// 2^32 - 1 bytes, and the salt between 8 and 2^32 - 1 bytes, in UTF-8.
pub open spec fn argon2_accepts(password: Seq<char>, salt: Seq<char>) -> bool {
    &&& encode_utf8(password).len() <= 0xffff_ffff
    &&& 8 <= encode_utf8(salt).len() <= 0xffff_ffff
}

/// Calls `argon2rs::argon2i_simple`, which hashes the password's bytes with
/// the salt's bytes under Argon2i and its default parameters and returns a
/// 32-byte digest. Claimed: the digest is the one named by
/// `argon2i_simple_digest` for these two strings. The function asserts the
/// byte lengths that `argon2_accepts` states, so those are required here.
#[verifier::external_body]
fn argon2i_digest(password: &str, salt: &str) -> (digest: [u8; 32])
    requires
        argon2_accepts(password@, salt@),
    ensures
        digest@ == argon2i_simple_digest(password@, salt@),
{
    argon2i_simple(password, salt)
}

/// The stored form of a password: its Argon2i digest under `salt`, in
/// upper-case hexadecimal.
pub open spec fn password_hash(password: Seq<char>, salt: Seq<char>) -> Seq<char> {
    hex_upper(argon2i_simple_digest(password, salt))
}

/// Number of bytes of the UTF-8 encoding of `s`.
pub fn utf8_len(s: &str) -> (n: usize)
    ensures
        n == encode_utf8(s@).len(),
{
    s.as_bytes().len()
}

/// Hashes `password` with `salt` under Argon2i and returns the 32-byte
/// digest as 64 upper-case hexadecimal characters.
pub fn hash_argon2(password: &str, salt: &str) -> (hash: String)
    requires
        argon2_accepts(password@, salt@),
    ensures
        hash@ == password_hash(password@, salt@),
        hash@.len() == 64,
        forall|i: int| 0 <= i < hash@.len() ==> is_upper_hex_char(#[trigger] hash@[i]),
{
    let digest = argon2i_digest(password, salt);
    proof {
        lemma_hex_upper_chars(digest@);
    }
    to_hex_upper(digest.as_slice())
}

/// Two passwords have the same stored hash under a salt exactly when their
/// Argon2i digests under it are equal: comparing stored hashes compares
/// digests.
pub proof fn same_hash_iff_same_digest(p: Seq<char>, q: Seq<char>, salt: Seq<char>)
    ensures
        password_hash(p, salt) == password_hash(q, salt) <==> argon2i_simple_digest(p, salt)
            == argon2i_simple_digest(q, salt),
{
    if password_hash(p, salt) == password_hash(q, salt) {
        lemma_hex_upper_injective(argon2i_simple_digest(p, salt), argon2i_simple_digest(q, salt));
    }
}

} // verus!
