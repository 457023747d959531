//! Family validators: one structural (and, where the encoding defines one,
//! cryptographic) check per address family.

use crate::codec::{
    all_base58_bytes, base58_decode, base58_decode_of, blake2b512, blake2b512_of,
    spec_b58check_valid, validate_base58_checksum, BASE58_DECODE_MAX_LEN,
};
use crate::registry::{spec_network_name, ss58_network_name};
use vstd::prelude::*;

verus! {

/// A byte is an ASCII hexadecimal digit (`0`..`9`, `a`..`f`, `A`..`F`).
pub open spec fn is_hex_digit_byte(b: u8) -> bool {
    (48 <= b && b <= 57) || (97 <= b && b <= 102) || (65 <= b && b <= 70)
}

/// A byte is an ASCII letter or digit.
pub open spec fn is_alnum_byte(b: u8) -> bool {
    (48 <= b && b <= 57) || (65 <= b && b <= 90) || (97 <= b && b <= 122)
}

/// A byte is an ASCII lower-case letter or digit: the character class of a
/// Bech32 data part.
pub open spec fn is_lower_alnum_byte(b: u8) -> bool {
    (48 <= b && b <= 57) || (97 <= b && b <= 122)
}

/// Every byte from `start` on is a hexadecimal digit.
fn all_hex_digits_from(address: &[u8], start: usize) -> (r: bool)
    requires
        start <= address@.len(),
    ensures
        r == forall|j: int| start <= j < address@.len() ==> is_hex_digit_byte(address@[j]),
{
    let n = address.len();
    let mut i: usize = start;
    while i < n
        invariant
            start <= i <= n,
            n == address@.len(),
            forall|j: int| start <= j < i ==> is_hex_digit_byte(address@[j]),
        decreases n - i,
    {
        let b = address[i];
        if !((48 <= b && b <= 57) || (97 <= b && b <= 102) || (65 <= b && b <= 70)) {
            assert(!is_hex_digit_byte(address@[i as int]));
            return false;
        }
        i += 1;
    }
    true
}

/// Every byte is an ASCII letter or digit.
fn all_alnum(address: &[u8]) -> (r: bool)
    ensures
        r == forall|j: int| 0 <= j < address@.len() ==> is_alnum_byte(address@[j]),
{
    let n = address.len();
    let mut i: usize = 0;
    while i < n
        invariant
            i <= n,
            n == address@.len(),
            forall|j: int| 0 <= j < i ==> is_alnum_byte(address@[j]),
        decreases n - i,
    {
        let b = address[i];
        if !((48 <= b && b <= 57) || (65 <= b && b <= 90) || (97 <= b && b <= 122)) {
            assert(!is_alnum_byte(address@[i as int]));
            return false;
        }
        i += 1;
    }
    true
}

/// Every byte from `start` on is a lower-case letter or digit.
fn all_lower_alnum_from(address: &[u8], start: usize) -> (r: bool)
    requires
        start <= address@.len(),
    ensures
        r == forall|j: int| start <= j < address@.len() ==> is_lower_alnum_byte(address@[j]),
{
    let n = address.len();
    let mut i: usize = start;
    while i < n
        invariant
            start <= i <= n,
            n == address@.len(),
            forall|j: int| start <= j < i ==> is_lower_alnum_byte(address@[j]),
        decreases n - i,
    {
        let b = address[i];
        if !((48 <= b && b <= 57) || (97 <= b && b <= 122)) {
            assert(!is_lower_alnum_byte(address@[i as int]));
            return false;
        }
        i += 1;
    }
    true
}

/// `k` is the position of the last `1` (ASCII 49) in `s`: the Bech32
/// separator between the human-readable part and the data part.
pub open spec fn is_last_sep(s: Seq<u8>, k: int) -> bool {
    0 <= k < s.len() && s[k] == 49 && (forall|j: int| k < j < s.len() ==> s[j] != 49)
}

/// Split at `k`, the candidate has a non-empty human-readable part of at
/// most 83 bytes and a data part of at least six bytes, all lower-case
/// letters or digits.
pub open spec fn bech32_split_ok(s: Seq<u8>, k: int) -> bool {
    1 <= k && k <= 83 && s.len() - (k + 1) >= 6 && (forall|j: int|
        k < j < s.len() ==> is_lower_alnum_byte(s[j]))
}

/// The simplified, structural Bech32 test: split on the last `1`, the parts
/// pass `bech32_split_ok`. Deliberately no generator-polynomial checksum is
/// computed: this family check asserts plausibility, not validity.
pub open spec fn spec_bech32_ok(s: Seq<u8>) -> bool {
    exists|k: int| is_last_sep(s, k) && bech32_split_ok(s, k)
}

proof fn lemma_last_sep_unique(s: Seq<u8>, k1: int, k2: int)
    requires
        is_last_sep(s, k1),
        is_last_sep(s, k2),
    ensures
        k1 == k2,
{
    if k1 < k2 {
        assert(s[k2] == 49);
        assert(s[k2] != 49);
    }
    if k2 < k1 {
        assert(s[k1] == 49);
        assert(s[k1] != 49);
    }
}

/// Position of the last separator byte `1`, if any.
fn find_last_sep(address: &[u8]) -> (r: Option<usize>)
    ensures
        r is Some ==> is_last_sep(address@, r->0 as int),
        r is None ==> forall|j: int| 0 <= j < address@.len() ==> address@[j] != 49,
{
    let n = address.len();
    let mut i: usize = n;
    while i > 0
        invariant
            i <= n,
            n == address@.len(),
            forall|j: int| i <= j < n ==> address@[j] != 49,
        decreases i,
    {
        if address[i - 1] == 49 {
            return Some(i - 1);
        }
        i -= 1;
    }
    None
}

/// Structural Bech32 validation, as `spec_bech32_ok` states it.
pub fn validate_bech32(address: &[u8]) -> (r: bool)
    ensures
        r == spec_bech32_ok(address@),
{
    let n = address.len();
    match find_last_sep(address) {
        Some(k) => {
            let structural = 1 <= k && k <= 83 && n - k >= 7 && all_lower_alnum_from(
                address,
                k + 1,
            );
            proof {
                if structural {
                    assert(is_last_sep(address@, k as int) && bech32_split_ok(address@, k as int));
                } else {
                    assert forall|k2: int|
                        !(is_last_sep(address@, k2) && bech32_split_ok(address@, k2)) by {
                        if is_last_sep(address@, k2) {
                            lemma_last_sep_unique(address@, k2, k as int);
                            assert(!bech32_split_ok(address@, k2));
                        }
                    }
                }
            }
            structural
        },
        None => {
            assert(!spec_bech32_ok(address@)) by {
                assert forall|k2: int|
                    !(is_last_sep(address@, k2) && bech32_split_ok(address@, k2)) by {
                    if is_last_sep(address@, k2) {
                        assert(address@[k2] == 49);
                        assert(address@[k2] != 49);
                    }
                }
            }
            false
        },
    }
}

/// The string has the shape of a Bitcoin address: a Base58Check legacy
/// (`1...`) or script (`3...`) address of 26 to 35 bytes with a verified
/// checksum, or a structurally plausible Bech32 address `bc1...` of 42 to
/// 62 bytes.
pub open spec fn spec_is_bitcoin(s: Seq<u8>) -> bool {
    (26 <= s.len() && s.len() <= 35 && (s[0] == 49 || s[0] == 51) && spec_b58check_valid(s)) || (42
        <= s.len() && s.len() <= 62 && s[0] == 98 && s[1] == 99 && s[2] == 49 && spec_bech32_ok(s))
}

pub fn is_bitcoin_address(address: &[u8]) -> (r: bool)
    ensures
        r == spec_is_bitcoin(address@),
{
    let n = address.len();
    if n >= 26 && n <= 35 && (address[0] == 49 || address[0] == 51) {
        return validate_base58_checksum(address);
    }
    if n >= 42 && n <= 62 && address[0] == 98 && address[1] == 99 && address[2] == 49 {
        return validate_bech32(address);
    }
    false
}

/// The sub-type label of a Bitcoin address, read off the leading bytes.
pub open spec fn spec_bitcoin_type(s: Seq<u8>) -> Seq<char> {
    if s.len() >= 1 && s[0] == 49 {
        "Legacy (P2PKH)"@
    } else if s.len() >= 1 && s[0] == 51 {
        "Script (P2SH)"@
    } else if s.len() >= 3 && s[0] == 98 && s[1] == 99 && s[2] == 49 {
        "Bech32 (P2WPKH/P2WSH)"@
    } else {
        "Unknown"@
    }
}

pub fn get_bitcoin_address_type(address: &[u8]) -> (r: String)
    ensures
        r@ == spec_bitcoin_type(address@),
{
    let n = address.len();
    if n >= 1 && address[0] == 49 {
        "Legacy (P2PKH)".to_owned()
    } else if n >= 1 && address[0] == 51 {
        "Script (P2SH)".to_owned()
    } else if n >= 3 && address[0] == 98 && address[1] == 99 && address[2] == 49 {
        "Bech32 (P2WPKH/P2WSH)".to_owned()
    } else {
        "Unknown".to_owned()
    }
}

/// The string has the shape of an Ethereum address: `0x` and exactly forty
/// hexadecimal digits. No EIP-55 mixed-case checksum is verified.
pub open spec fn spec_is_ethereum(s: Seq<u8>) -> bool {
    s.len() == 42 && s[0] == 48 && s[1] == 120 && (forall|j: int|
        2 <= j < 42 ==> is_hex_digit_byte(s[j]))
}

pub fn is_ethereum_address(address: &[u8]) -> (r: bool)
    ensures
        r == spec_is_ethereum(address@),
{
    if address.len() != 42 {
        return false;
    }
    if address[0] != 48 || address[1] != 120 {
        return false;
    }
    all_hex_digits_from(address, 2)
}

/// The string has the shape of a Litecoin address: Base58Check `L...` or
/// `M...` of 26 to 35 bytes with a verified checksum, or Bech32 `ltc1...`
/// of 43 to 63 bytes.
pub open spec fn spec_is_litecoin(s: Seq<u8>) -> bool {
    (26 <= s.len() && s.len() <= 35 && (s[0] == 76 || s[0] == 77) && spec_b58check_valid(s)) || (43
        <= s.len() && s.len() <= 63 && s[0] == 108 && s[1] == 116 && s[2] == 99 && s[3] == 49
        && spec_bech32_ok(s))
}

pub fn is_litecoin_address(address: &[u8]) -> (r: bool)
    ensures
        r == spec_is_litecoin(address@),
{
    let n = address.len();
    if n >= 26 && n <= 35 && (address[0] == 76 || address[0] == 77) {
        return validate_base58_checksum(address);
    }
    if n >= 43 && n <= 63 && address[0] == 108 && address[1] == 116 && address[2] == 99
        && address[3] == 49 {
        return validate_bech32(address);
    }
    false
}

/// The sub-type label of a Litecoin address, read off the leading bytes.
pub open spec fn spec_litecoin_type(s: Seq<u8>) -> Seq<char> {
    if s.len() >= 1 && s[0] == 76 {
        "Legacy (P2PKH)"@
    } else if s.len() >= 1 && s[0] == 77 {
        "Script (P2SH)"@
    } else if s.len() >= 4 && s[0] == 108 && s[1] == 116 && s[2] == 99 && s[3] == 49 {
        "Bech32"@
    } else {
        "Unknown"@
    }
}

pub fn get_litecoin_address_type(address: &[u8]) -> (r: String)
    ensures
        r@ == spec_litecoin_type(address@),
{
    let n = address.len();
    if n >= 1 && address[0] == 76 {
        "Legacy (P2PKH)".to_owned()
    } else if n >= 1 && address[0] == 77 {
        "Script (P2SH)".to_owned()
    } else if n >= 4 && address[0] == 108 && address[1] == 116 && address[2] == 99 && address[3]
        == 49 {
        "Bech32".to_owned()
    } else {
        "Unknown".to_owned()
    }
}

/// The string has the shape of a Dogecoin address: Base58Check `D...` or
/// `A...` of 26 to 35 bytes with a verified checksum.
pub open spec fn spec_is_dogecoin(s: Seq<u8>) -> bool {
    26 <= s.len() && s.len() <= 35 && (s[0] == 68 || s[0] == 65) && spec_b58check_valid(s)
}

pub fn is_dogecoin_address(address: &[u8]) -> (r: bool)
    ensures
        r == spec_is_dogecoin(address@),
{
    let n = address.len();
    if n >= 26 && n <= 35 && (address[0] == 68 || address[0] == 65) {
        return validate_base58_checksum(address);
    }
    false
}

/// The Solana heuristic: 32 to 44 bytes, all letters or digits, and the
/// first byte none of the ambiguous glyphs `0`, `O`, `I`, `l` (the
/// exclusion applies to the first character only). No checksum exists to
/// verify.
pub open spec fn spec_is_solana(s: Seq<u8>) -> bool {
    32 <= s.len() && s.len() <= 44 && (forall|j: int| 0 <= j < s.len() ==> is_alnum_byte(s[j]))
        && s[0] != 48 && s[0] != 79 && s[0] != 73 && s[0] != 108
}

pub fn is_solana_address(address: &[u8]) -> (r: bool)
    ensures
        r == spec_is_solana(address@),
{
    let n = address.len();
    n >= 32 && n <= 44 && all_alnum(address) && address[0] != 48 && address[0] != 79 && address[0]
        != 73 && address[0] != 108
}

/// The Cardano heuristic: the literal prefix `addr1` and a total length of
/// 100 to 110 bytes. No Bech32 checksum is verified.
pub open spec fn spec_is_cardano(s: Seq<u8>) -> bool {
    100 <= s.len() && s.len() <= 110 && s[0] == 97 && s[1] == 100 && s[2] == 100 && s[3] == 114
        && s[4] == 49
}

pub fn is_cardano_address(address: &[u8]) -> (r: bool)
    ensures
        r == spec_is_cardano(address@),
{
    let n = address.len();
    n >= 100 && n <= 110 && address[0] == 97 && address[1] == 100 && address[2] == 100
        && address[3] == 114 && address[4] == 49
}

/// The seven-byte ASCII domain-separation prefix `SS58PRE` hashed before an
/// SS58 payload.
pub open spec fn ss58_prefix() -> Seq<u8> {
    seq![83u8, 83u8, 53u8, 56u8, 80u8, 82u8, 69u8]
}

/// The trailing two bytes of the decoded data equal the first two bytes of
/// `Blake2b-512("SS58PRE" ++ payload)`.
pub open spec fn spec_ss58_checksum_ok(d: Seq<u8>) -> bool {
    blake2b512_of(ss58_prefix() + d.take(d.len() - 2)).take(2) == d.skip(d.len() - 2)
}

/// The network identifier encoded in decoded SS58 bytes, provided the
/// variable-width identifier is well-formed, the data is long enough for a
/// 32-byte account and a 2-byte checksum, and the checksum verifies.
pub open spec fn spec_ss58_decoded_id(d: Seq<u8>) -> Option<u16> {
    if d.len() < 35 {
        None
    } else if d[0] & 0x40 == 0 {
        if spec_ss58_checksum_ok(d) {
            Some(d[0] as u16)
        } else {
            None
        }
    } else if d[0] & 0x80 == 0 {
        if d.len() >= 36 && spec_ss58_checksum_ok(d) {
            Some((((d[0] & 0x3f) as u16) << 8) | (d[1] as u16))
        } else {
            None
        }
    } else {
        None
    }
}

/// The network identifier of a valid SS58 address string, or nothing where
/// the string is no such address. Strings of fewer than 35 digits are no
/// match outright: a Base58 digit decodes to at most one byte, so they
/// cannot reach the 35 decoded bytes an SS58 address needs. Inputs beyond
/// the Base58 decoder's range decode to nothing; every real SS58 address is
/// far shorter.
pub open spec fn spec_ss58_network_id(s: Seq<u8>) -> Option<u16> {
    if 35 <= s.len() && s.len() <= BASE58_DECODE_MAX_LEN && all_base58_bytes(s) {
        match base58_decode_of(s) {
            Some(d) => spec_ss58_decoded_id(d),
            None => None,
        }
    } else {
        None
    }
}

/// Decode and verify an SS58 address: Base58 decode, variable-width network
/// identifier, Blake2b-512 checksum, then the registry lookup for the name.
pub fn validate_ss58_address(address: &[u8]) -> (r: Option<(u16, String)>)
    ensures
        r is Some <==> spec_ss58_network_id(address@) is Some,
        r matches Some(p) ==> p.0 == spec_ss58_network_id(address@)->0 && p.1@
            == spec_network_name(p.0),
{
    if address.len() < 35 || address.len() > BASE58_DECODE_MAX_LEN {
        return None;
    }
    let decoded = match base58_decode(address) {
        Some(d) => d,
        None => {
            return None;
        },
    };
    let n = decoded.len();
    if n < 35 {
        return None;
    }
    let b0 = decoded[0];
    let network_id: u16;
    let payload_start: usize;
    if b0 & 0x40 == 0 {
        network_id = b0 as u16;
        payload_start = 1;
    } else if b0 & 0x80 == 0 {
        if n < 36 {
            return None;
        }
        network_id = (((b0 & 0x3f) as u16) << 8) | (decoded[1] as u16);
        payload_start = 2;
    } else {
        return None;
    }
    if n < payload_start + 34 {
        return None;
    }
    let payload_end = n - 2;
    let mut msg: Vec<u8> = Vec::new();
    msg.push(83);
    msg.push(83);
    msg.push(53);
    msg.push(56);
    msg.push(80);
    msg.push(82);
    msg.push(69);
    assert(msg@ =~= ss58_prefix());
    let mut i: usize = 0;
    while i < payload_end
        invariant
            i <= payload_end,
            payload_end + 2 == n,
            n == decoded@.len(),
            msg@ == ss58_prefix() + decoded@.take(i as int),
        decreases payload_end - i,
    {
        msg.push(decoded[i]);
        assert(msg@ =~= ss58_prefix() + decoded@.take(i as int + 1));
        i += 1;
    }
    assert(msg@ == ss58_prefix() + decoded@.take(payload_end as int));
    let hash = blake2b512(msg.as_slice());
    if hash[0] != decoded[payload_end] || hash[1] != decoded[payload_end + 1] {
        proof {
            let d = decoded@;
            if hash@[0] != d[payload_end as int] {
                assert(blake2b512_of(ss58_prefix() + d.take(d.len() - 2)).take(2)[0] != d.skip(
                    d.len() - 2,
                )[0]);
            } else {
                assert(blake2b512_of(ss58_prefix() + d.take(d.len() - 2)).take(2)[1] != d.skip(
                    d.len() - 2,
                )[1]);
            }
            assert(!spec_ss58_checksum_ok(d));
        }
        return None;
    }
    assert(hash@.take(2) =~= decoded@.skip(payload_end as int));
    assert(spec_ss58_checksum_ok(decoded@));
    let name = ss58_network_name(network_id);
    Some((network_id, name))
}

} // verus!
