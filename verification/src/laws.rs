//! Laws of the classifier, stated and proved over the same spec functions
//! that the executable functions' contracts use.

use crate::classify::{spec_network_of, spec_type_of, spec_valid_of};
use crate::codec::{all_base58_bytes, is_base58_byte, spec_b58check_valid};
use crate::families::{
    is_alnum_byte, is_hex_digit_byte, spec_bech32_ok, spec_is_bitcoin, spec_is_cardano,
    spec_is_dogecoin, spec_is_ethereum, spec_is_litecoin, spec_is_solana, spec_ss58_network_id,
};
use vstd::prelude::*;

verus! {

/// Classification keeps no state: its outcome is a function of the
/// classified bytes alone, so classifying the same string twice yields
/// identical results, field for field.
pub proof fn lemma_classification_idempotent(
    s: Seq<u8>,
    first: (Seq<char>, bool, Seq<char>),
    second: (Seq<char>, bool, Seq<char>),
)
    requires
        first == (spec_network_of(s), spec_valid_of(s), spec_type_of(s)),
        second == (spec_network_of(s), spec_valid_of(s), spec_type_of(s)),
    ensures
        first == second,
{
}

/// Priority ordering: the families are tried in a fixed order, and a string
/// that matches the structural shape of two families is reported as the
/// earlier one; a later family decides only where every earlier family
/// failed.
pub proof fn lemma_priority_ordering(s: Seq<u8>)
    ensures
        spec_is_bitcoin(s) ==> spec_network_of(s) == "Bitcoin"@,
        !spec_is_bitcoin(s) && spec_is_ethereum(s) ==> spec_network_of(s) == "Ethereum"@,
        !spec_is_bitcoin(s) && !spec_is_ethereum(s) && spec_is_litecoin(s) ==> spec_network_of(s)
            == "Litecoin"@,
        !spec_is_bitcoin(s) && !spec_is_ethereum(s) && !spec_is_litecoin(s) && spec_is_dogecoin(s)
            ==> spec_network_of(s) == "Dogecoin"@,
        !spec_is_bitcoin(s) && !spec_is_ethereum(s) && !spec_is_litecoin(s) && !spec_is_dogecoin(s)
            && spec_is_solana(s) ==> spec_network_of(s) == "Solana"@,
        !spec_is_bitcoin(s) && !spec_is_ethereum(s) && !spec_is_litecoin(s) && !spec_is_dogecoin(s)
            && !spec_is_solana(s) && spec_is_cardano(s) ==> spec_network_of(s) == "Cardano"@,
        !spec_is_bitcoin(s) && !spec_is_ethereum(s) && !spec_is_litecoin(s) && !spec_is_dogecoin(s)
            && !spec_is_solana(s) && !spec_is_cardano(s) && spec_ss58_network_id(s) is Some
            ==> spec_network_of(s) == crate::registry::spec_network_name(
            spec_ss58_network_id(s)->0,
        ),
{
}

/// The result invariant: a string judged not valid is reported with network
/// "Unknown" and type "Unknown" — the classifier never names a network for
/// an address it rejects.
pub proof fn lemma_invalid_is_unknown(s: Seq<u8>)
    requires
        !spec_valid_of(s),
    ensures
        spec_network_of(s) == "Unknown"@,
        spec_type_of(s) == "Unknown"@,
{
}

/// Fallback totality: the empty string, and any string holding a byte that
/// is no ASCII letter or digit (outside every family's character set), is
/// classified not valid, network and type "Unknown". The two Bech32 shapes
/// and the Cardano shape are excepted: their checks read only a prefix, a
/// length and (for Bech32) the data part, so a stray byte elsewhere does
/// not unmatch them.
pub proof fn lemma_fallback_totality(s: Seq<u8>)
    requires
        s.len() == 0 || ((exists|i: int| 0 <= i < s.len() && !is_alnum_byte(s[i]))
            && !spec_is_cardano(s) && !(s.len() >= 3 && s[0] == 98 && s[1] == 99 && s[2] == 49
            && spec_bech32_ok(s)) && !(s.len() >= 4 && s[0] == 108 && s[1] == 116 && s[2] == 99
            && s[3] == 49 && spec_bech32_ok(s))),
    ensures
        !spec_valid_of(s),
        spec_network_of(s) == "Unknown"@,
        spec_type_of(s) == "Unknown"@,
{
    if s.len() == 0 {
        assert(!spec_valid_of(s));
    } else {
        let i = choose|i: int| 0 <= i < s.len() && !is_alnum_byte(s[i]);
        assert(!all_base58_bytes(s)) by {
            if all_base58_bytes(s) {
                assert(is_base58_byte(s[i]));
                assert(is_alnum_byte(s[i]));
            }
        }
        assert(!spec_b58check_valid(s));
        assert(spec_ss58_network_id(s) is None);
        assert(!spec_is_ethereum(s)) by {
            if spec_is_ethereum(s) {
                if i >= 2 {
                    assert(is_hex_digit_byte(s[i]));
                    assert(is_alnum_byte(s[i]));
                } else {
                    assert(is_alnum_byte(s[i]));
                }
            }
        }
        assert(!spec_is_solana(s)) by {
            if spec_is_solana(s) {
                assert(is_alnum_byte(s[i]));
            }
        }
        assert(!spec_is_bitcoin(s));
        assert(!spec_is_litecoin(s));
        assert(!spec_is_dogecoin(s));
    }
}

} // verus!
