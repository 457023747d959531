//! The classification dispatcher and the result it hands back.

use crate::families::{
    get_bitcoin_address_type, get_litecoin_address_type, is_bitcoin_address, is_cardano_address,
    is_dogecoin_address, is_ethereum_address, is_litecoin_address, is_solana_address,
    spec_bitcoin_type, spec_is_bitcoin, spec_is_cardano, spec_is_dogecoin, spec_is_ethereum,
    spec_is_litecoin, spec_is_solana, spec_litecoin_type, spec_ss58_network_id,
    validate_ss58_address,
};
use crate::registry::spec_network_name;
use vstd::prelude::*;
use vstd::string::StringSliceAdditionalSpecFns;
use vstd::utf8::encode_utf8;

verus! {

/// The outcome of classifying one string: the trimmed input echoed back,
/// the network name, whether a family matched (with its checksum verified
/// where one exists), and a sub-type label scoped to that network.
pub struct AddressInfo {
    pub address: String,
    pub network: String,
    pub valid: bool,
    pub address_type: String,
}

/// Whether `char::is_whitespace` holds of a character.
pub uninterp spec fn char_is_whitespace(c: char) -> bool;

/// `s` without its leading whitespace characters.
pub open spec fn trim_start_spec(s: Seq<char>) -> Seq<char>
    decreases s.len(),
{
    if s.len() > 0 && char_is_whitespace(s[0]) {
        trim_start_spec(s.drop_first())
    } else {
        s
    }
}

/// `s` without its trailing whitespace characters.
pub open spec fn trim_end_spec(s: Seq<char>) -> Seq<char>
    decreases s.len(),
{
    if s.len() > 0 && char_is_whitespace(s.last()) {
        trim_end_spec(s.drop_last())
    } else {
        s
    }
}

/// `s` without leading and trailing whitespace.
pub open spec fn spec_trim(s: Seq<char>) -> Seq<char> {
    trim_end_spec(trim_start_spec(s))
}

/// Relies on `str::trim`: the result is the input without the leading and
/// trailing characters for which `char::is_whitespace` holds
/// (`char_is_whitespace` stands for that predicate).
#[verifier::external_body]
fn trim_ws(s: &str) -> (r: &str)
    ensures
        r@ == spec_trim(s@),
        r@.len() > 0 ==> !char_is_whitespace(r@[0]) && !char_is_whitespace(r@.last()),
{
    s.trim()
}

/// Some family matched the (trimmed) string, its checksum verified where
/// the encoding defines one.
pub open spec fn spec_valid_of(s: Seq<u8>) -> bool {
    spec_is_bitcoin(s) || spec_is_ethereum(s) || spec_is_litecoin(s) || spec_is_dogecoin(s)
        || spec_is_solana(s) || spec_is_cardano(s) || spec_ss58_network_id(s) is Some
}

/// The network reported for the (trimmed) string: the first family, in
/// priority order, whose validator accepts it, or "Unknown".
pub open spec fn spec_network_of(s: Seq<u8>) -> Seq<char> {
    if spec_is_bitcoin(s) {
        "Bitcoin"@
    } else if spec_is_ethereum(s) {
        "Ethereum"@
    } else if spec_is_litecoin(s) {
        "Litecoin"@
    } else if spec_is_dogecoin(s) {
        "Dogecoin"@
    } else if spec_is_solana(s) {
        "Solana"@
    } else if spec_is_cardano(s) {
        "Cardano"@
    } else if spec_ss58_network_id(s) is Some {
        spec_network_name(spec_ss58_network_id(s)->0)
    } else {
        "Unknown"@
    }
}

/// The sub-type label reported for the (trimmed) string, scoped to the
/// matched family.
pub open spec fn spec_type_of(s: Seq<u8>) -> Seq<char> {
    if spec_is_bitcoin(s) {
        spec_bitcoin_type(s)
    } else if spec_is_ethereum(s) {
        "Standard"@
    } else if spec_is_litecoin(s) {
        spec_litecoin_type(s)
    } else if spec_is_dogecoin(s) {
        "Standard"@
    } else if spec_is_solana(s) {
        "Standard"@
    } else if spec_is_cardano(s) {
        "Bech32"@
    } else if spec_ss58_network_id(s) is Some {
        "SS58"@
    } else {
        "Unknown"@
    }
}

/// Try the string as an SS58 (Substrate-ecosystem) address; on success the
/// result names the registered chain and is always of type "SS58".
pub fn check_polkadot_address(address: &str) -> (r: Option<AddressInfo>)
    ensures
        r is Some <==> spec_ss58_network_id(address.spec_bytes()) is Some,
        r matches Some(info) ==> info.address@ == address@ && info.network@ == spec_network_name(
            spec_ss58_network_id(address.spec_bytes())->0,
        ) && info.valid == true && info.address_type@ == "SS58"@,
{
    match validate_ss58_address(address.as_bytes()) {
        Some((_, network_name)) => Some(
            AddressInfo {
                address: address.to_owned(),
                network: network_name,
                valid: true,
                address_type: "SS58".to_owned(),
            },
        ),
        None => None,
    }
}

/// Classify a string: trim it, try each family validator in priority order
/// (Bitcoin, Ethereum, Litecoin, Dogecoin, Solana, Cardano, SS58), and
/// report the first match, or the not-valid "Unknown" fallback. Every
/// input, however malformed, yields a result.
pub fn check_address(address: &str) -> (r: AddressInfo)
    ensures
        r.address@ == spec_trim(address@),
        r.network@ == spec_network_of(encode_utf8(spec_trim(address@))),
        r.valid == spec_valid_of(encode_utf8(spec_trim(address@))),
        r.address_type@ == spec_type_of(encode_utf8(spec_trim(address@))),
{
    let trimmed = trim_ws(address);
    let bytes = trimmed.as_bytes();
    assert(bytes@ == encode_utf8(spec_trim(address@)));
    if is_bitcoin_address(bytes) {
        let address_type = get_bitcoin_address_type(bytes);
        return AddressInfo {
            address: trimmed.to_owned(),
            network: "Bitcoin".to_owned(),
            valid: true,
            address_type,
        };
    }
    if is_ethereum_address(bytes) {
        return AddressInfo {
            address: trimmed.to_owned(),
            network: "Ethereum".to_owned(),
            valid: true,
            address_type: "Standard".to_owned(),
        };
    }
    if is_litecoin_address(bytes) {
        let address_type = get_litecoin_address_type(bytes);
        return AddressInfo {
            address: trimmed.to_owned(),
            network: "Litecoin".to_owned(),
            valid: true,
            address_type,
        };
    }
    if is_dogecoin_address(bytes) {
        return AddressInfo {
            address: trimmed.to_owned(),
            network: "Dogecoin".to_owned(),
            valid: true,
            address_type: "Standard".to_owned(),
        };
    }
    if is_solana_address(bytes) {
        return AddressInfo {
            address: trimmed.to_owned(),
            network: "Solana".to_owned(),
            valid: true,
            address_type: "Standard".to_owned(),
        };
    }
    if is_cardano_address(bytes) {
        return AddressInfo {
            address: trimmed.to_owned(),
            network: "Cardano".to_owned(),
            valid: true,
            address_type: "Bech32".to_owned(),
        };
    }
    match check_polkadot_address(trimmed) {
        Some(info) => info,
        None => AddressInfo {
            address: trimmed.to_owned(),
            network: "Unknown".to_owned(),
            valid: false,
            address_type: "Unknown".to_owned(),
        },
    }
}

} // verus!
