//! Classification of cryptocurrency address strings.
//!
//! The library decides which address encoding family a text string belongs
//! to, verifying the encoding's checksum where one is defined (Base58Check
//! double-SHA-256, SS58 Blake2b-512), and reports the network, a validity
//! flag and a sub-type label.

mod classify;
mod codec;
mod families;
mod laws;
mod registry;

pub use classify::{
    char_is_whitespace, check_address, check_polkadot_address, spec_network_of, spec_trim,
    spec_type_of, spec_valid_of, trim_end_spec, trim_start_spec, AddressInfo,
};
pub use laws::{
    lemma_classification_idempotent, lemma_fallback_totality, lemma_invalid_is_unknown,
    lemma_priority_ordering,
};
pub use registry::{spec_network_name, ss58_network_name};
pub use codec::{
    all_base58_bytes, base58_decode_of, blake2b512_of, is_base58_byte, sha256_of,
    spec_b58check_valid, validate_base58_checksum, BASE58_DECODE_MAX_LEN,
};
pub use families::{
    bech32_split_ok, get_bitcoin_address_type, get_litecoin_address_type, is_alnum_byte,
    is_bitcoin_address, is_cardano_address, is_dogecoin_address, is_ethereum_address,
    is_hex_digit_byte, is_last_sep, is_litecoin_address, is_lower_alnum_byte, is_solana_address,
    spec_bech32_ok, spec_bitcoin_type, spec_is_bitcoin, spec_is_cardano, spec_is_dogecoin,
    spec_is_ethereum, spec_is_litecoin, spec_is_solana, spec_litecoin_type, spec_ss58_checksum_ok,
    spec_ss58_decoded_id, spec_ss58_network_id, ss58_prefix, validate_bech32,
    validate_ss58_address,
};
