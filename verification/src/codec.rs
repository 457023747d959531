//! Codec primitives: Base58 decoding and the two checksum hashes.
//!
//! The outside calls (the Base58 decoder, SHA-256 and Blake2b-512) stand
//! behind trusted wrappers; everything that uses them is verified.

use base58::FromBase58;
use blake2::Blake2b512;
use sha2::{Digest, Sha256};
use vstd::prelude::*;

verus! {

/// A byte is a digit of the Bitcoin Base58 alphabet: the digits and letters
/// with the ambiguous glyphs `0`, `O`, `I` and `l` left out. In ASCII these
/// are `1`..`9` (49..57), `A`..`H` (65..72), `J`..`N` (74..78),
/// `P`..`Z` (80..90), `a`..`k` (97..107) and `m`..`z` (109..122).
pub open spec fn is_base58_byte(b: u8) -> bool {
    (49 <= b && b <= 57) || (65 <= b && b <= 72) || (74 <= b && b <= 78) || (80 <= b && b <= 90)
        || (97 <= b && b <= 107) || (109 <= b && b <= 122)
}

/// Every byte of `s` is a Base58 digit.
pub open spec fn all_base58_bytes(s: Seq<u8>) -> bool {
    forall|i: int| 0 <= i < s.len() ==> is_base58_byte(s[i])
}

/// The bytes that a Base58 string decodes to, or nothing where decoding
/// fails. The value is a function of the input alone.
pub uninterp spec fn base58_decode_of(s: Seq<u8>) -> Option<Seq<u8>>;

/// The SHA-256 digest of a byte sequence.
pub uninterp spec fn sha256_of(data: Seq<u8>) -> Seq<u8>;

/// The Blake2b-512 digest of a byte sequence.
pub uninterp spec fn blake2b512_of(data: Seq<u8>) -> Seq<u8>;

/// The longest input, in bytes, that the Base58 decoder is given. Its output
/// buffer holds 132 bytes, which covers every address-sized input; callers
/// treat anything longer as decoding to nothing.
pub const BASE58_DECODE_MAX_LEN: usize = 132;

/// Relies on `base58::FromBase58::from_base58` for `str`: decoding succeeds
/// exactly when every input byte is a digit of the Bitcoin Base58 alphabet.
/// The decoder is defined on `str`, so the slice goes through
/// `core::str::from_utf8` first; a slice that is not UTF-8 holds a byte
/// outside the ASCII alphabet and decodes to nothing either way. The
/// decoder is written for inputs of up to 132 digits (its output buffer is
/// 132 bytes); the length bound keeps the call inside that range.
#[verifier::external_body]
pub(crate) fn base58_decode(s: &[u8]) -> (r: Option<Vec<u8>>)
    requires
        s@.len() <= BASE58_DECODE_MAX_LEN,
    ensures
        r is Some <==> base58_decode_of(s@) is Some,
        r is Some <==> all_base58_bytes(s@),
        r is Some ==> r->0@ == base58_decode_of(s@)->0,
{
    match core::str::from_utf8(s) {
        Ok(text) => text.from_base58().ok(),
        Err(_) => None,
    }
}

/// Relies on `sha2::Sha256` through the `Digest` trait: a 32-byte digest
/// that is a function of the input bytes alone.
#[verifier::external_body]
fn sha256(data: &[u8]) -> (r: Vec<u8>)
    ensures
        r@ == sha256_of(data@),
        r@.len() == 32,
{
    Sha256::digest(data).to_vec()
}

/// Relies on `blake2::Blake2b512` through the `Digest` trait: a 64-byte
/// digest that is a function of the input bytes alone.
#[verifier::external_body]
pub(crate) fn blake2b512(data: &[u8]) -> (r: Vec<u8>)
    ensures
        r@ == blake2b512_of(data@),
        r@.len() == 64,
{
    Blake2b512::digest(data).to_vec()
}

/// A string passes the Base58Check test: every byte is a Base58 digit, the
/// decoded bytes number at least four, and the last four equal the first
/// four bytes of the double SHA-256 of the rest.
pub open spec fn spec_b58check_valid(s: Seq<u8>) -> bool {
    all_base58_bytes(s) && match base58_decode_of(s) {
        Some(d) => d.len() >= 4 && sha256_of(sha256_of(d.take(d.len() - 4))).take(4) == d.skip(
            d.len() - 4,
        ),
        None => false,
    }
}

/// Decode a candidate Base58Check string and verify its four-byte double
/// SHA-256 checksum.
pub fn validate_base58_checksum(address: &[u8]) -> (r: bool)
    requires
        address@.len() <= BASE58_DECODE_MAX_LEN,
    ensures
        r == spec_b58check_valid(address@),
{
    match base58_decode(address) {
        Some(decoded) => {
            let n: usize = decoded.len();
            if n < 4 {
                return false;
            }
            let split: usize = n - 4;
            let payload = vstd::slice::slice_subrange(decoded.as_slice(), 0, split);
            assert(payload@ == decoded@.take(split as int));
            let once = sha256(payload);
            let hash = sha256(once.as_slice());
            let mut i: usize = 0;
            while i < 4
                invariant
                    i <= 4,
                    n == decoded@.len(),
                    n >= 4,
                    split + 4 == n,
                    all_base58_bytes(address@),
                    base58_decode_of(address@) is Some,
                    base58_decode_of(address@)->0 == decoded@,
                    hash@ == sha256_of(sha256_of(decoded@.take(split as int))),
                    hash@.len() == 32,
                    forall|j: int| 0 <= j < i ==> hash@[j] == decoded@[split + j],
                decreases 4 - i,
            {
                if hash[i] != decoded[split + i] {
                    assert(hash@.take(4)[i as int] != decoded@.skip(split as int)[i as int]);
                    return false;
                }
                i += 1;
            }
            assert(hash@.take(4) =~= decoded@.skip(split as int));
            true
        },
        None => false,
    }
}

} // verus!
