//! The credential verifier: one-way hashing of secrets and their check.
//!
//! A secret is never stored. What is stored is the SHA-256 digest of its
//! UTF-8 bytes, written as 64 hexadecimal digits. Checking a secret hashes
//! it again and compares the two texts without stopping at the first
//! difference, so the time taken does not tell where they differ.

use crate::hex::{all_digits, encode, encoded, lemma_decode_encode, lemma_encoded_injective};
use sha2::{Digest, Sha256};
use vstd::prelude::*;
use vstd::string::*;
use vstd::utf8::*;

verus! {

/// The SHA-256 digest of a byte string, as the `sha2` crate computes it.
pub uninterp spec fn sha256(data: Seq<u8>) -> Seq<u8>;

/// Calls `sha2::Sha256::digest` (the `Digest` trait's one-shot function) on
/// the bytes and copies the 32 bytes of its output. The digest depends on
/// the bytes alone, and its length is fixed by the algorithm.
#[verifier::external_body]
fn sha256_digest(data: &[u8]) -> (out: Vec<u8>)
    ensures
        out@ == sha256(data@),
        out@.len() == 32,
{
    Sha256::digest(data).to_vec()
}

/// The stored form of a secret.
pub open spec fn hash_of(secret: Seq<char>) -> Seq<char> {
    encoded(sha256(encode_utf8(secret)))
}

/// Whether a stored hash is the stored form of the secret.
pub open spec fn accepts(secret: Seq<char>, stored_hash: Seq<char>) -> bool {
    stored_hash == hash_of(secret)
}

/// The shape every stored hash has: 64 hexadecimal digits.
pub open spec fn well_formed_hash(text: Seq<char>) -> bool {
    text.len() == 64 && all_digits(text)
}

/// Hashes a secret into its stored form.
pub fn hash(secret: &str) -> (h: String)
    ensures
        h@ == hash_of(secret@),
        well_formed_hash(h@),
{
    let digest = sha256_digest(secret.as_bytes());
    let h = encode(digest.as_slice());
    proof {
        lemma_decode_encode(digest@);
    }
    h
}

/// Compares two byte strings in time that depends on their lengths alone:
/// every pair of bytes is read, whatever the earlier ones were.
pub fn constant_time_eq(a: &[u8], b: &[u8]) -> (same: bool)
    ensures
        same == (a@ == b@),
{
    if a.len() != b.len() {
        return false;
    }
    let mut diff: u8 = 0;
    let mut i: usize = 0;
    while i < a.len()
        invariant
            a@.len() == b@.len(),
            i <= a@.len(),
            diff == 0 <==> (forall|k: int| 0 <= k < i ==> a@[k] == b@[k]),
        decreases a.len() - i,
    {
        let x = a[i];
        let y = b[i];
        let d = x ^ y;
        assert((d == 0) == (x == y)) by (bit_vector)
            requires
                d == x ^ y,
        ;
        let ghost before = diff;
        diff = diff | d;
        assert((diff == 0) == (before == 0 && d == 0)) by (bit_vector)
            requires
                diff == before | d,
        ;
        i += 1;
    }
    assert((diff == 0) == (a@ =~= b@));
    diff == 0
}

/// Checks a secret against a stored hash: hashes the secret again and
/// compares in constant time. A stored hash of any other shape than 64
/// hexadecimal digits is refused like a wrong one.
pub fn verify(secret: &str, stored_hash: &str) -> (ok: bool)
    ensures
        ok == accepts(secret@, stored_hash@),
        ok ==> well_formed_hash(stored_hash@),
{
    let computed = hash(secret);
    let ok = constant_time_eq(computed.as_str().as_bytes(), stored_hash.as_bytes());
    proof {
        encode_utf8_decode_utf8(computed@);
        encode_utf8_decode_utf8(stored_hash@);
    }
    ok
}

/// A hash that the verifier produced for a secret is accepted for that
/// secret.
pub proof fn lemma_own_hash_accepted(secret: Seq<char>)
    ensures
        accepts(secret, hash_of(secret)),
{
}

/// The hash of one secret is accepted for another exactly when the two
/// secrets have the same SHA-256 digest. So a wrong secret passes only on a
/// collision of the digest.
pub proof fn lemma_other_hash_accepted_only_on_collision(s1: Seq<char>, s2: Seq<char>)
    ensures
        accepts(s1, hash_of(s2)) <==> sha256(encode_utf8(s1)) == sha256(encode_utf8(s2)),
{
    if accepts(s1, hash_of(s2)) {
        lemma_encoded_injective(sha256(encode_utf8(s1)), sha256(encode_utf8(s2)));
    }
}

} // verus!
