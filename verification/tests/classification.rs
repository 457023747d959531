use address_classifier::{
    check_address, check_polkadot_address, get_bitcoin_address_type, get_litecoin_address_type,
    is_bitcoin_address, is_cardano_address, is_dogecoin_address, is_ethereum_address,
    is_litecoin_address, is_solana_address, ss58_network_name, validate_base58_checksum,
    validate_bech32, validate_ss58_address, AddressInfo,
};

const BASE58_CHARS: &str = "123456789ABCDEFGHJKLMNPQRSTUVWXYZabcdefghijkmnopqrstuvwxyz";

fn assert_unknown(info: &AddressInfo) {
    assert!(!info.valid);
    assert_eq!(info.network, "Unknown");
    assert_eq!(info.address_type, "Unknown");
}

#[test]
fn bitcoin_legacy_example_vector() {
    let info = check_address("1BvBMSEYstWetqTFn5Au4m4GFg7xJaNVN2");
    assert_eq!(info.address, "1BvBMSEYstWetqTFn5Au4m4GFg7xJaNVN2");
    assert_eq!(info.network, "Bitcoin");
    assert!(info.valid);
    assert_eq!(info.address_type, "Legacy (P2PKH)");
}

#[test]
fn bitcoin_legacy_generated() {
    let info = check_address("1eA9ctCNq41iLLnQErtTUVdxpRyZ9hZmW");
    assert_eq!(info.network, "Bitcoin");
    assert!(info.valid);
    assert_eq!(info.address_type, "Legacy (P2PKH)");
}

#[test]
fn bitcoin_script_address() {
    let info = check_address("32Wnq4482y6gaTH9vYmjaorU6iZFt2Tonc");
    assert_eq!(info.network, "Bitcoin");
    assert!(info.valid);
    assert_eq!(info.address_type, "Script (P2SH)");
}

#[test]
fn bitcoin_bech32_address() {
    let info = check_address("bc1qw508d6qejxtdg4y5r3zarvary0c5xw7kv8f3t4");
    assert_eq!(info.network, "Bitcoin");
    assert!(info.valid);
    assert_eq!(info.address_type, "Bech32 (P2WPKH/P2WSH)");
}

#[test]
fn bech32_splits_on_last_separator() {
    // The human-readable part may itself contain `1`: the split happens at
    // the last occurrence, and only the data part is charset-checked.
    let addr = format!("bc1{}1{}", "q".repeat(26), "q".repeat(12));
    assert_eq!(addr.len(), 42);
    let info = check_address(&addr);
    assert_eq!(info.network, "Bitcoin");
    assert!(info.valid);
}

#[test]
fn ethereum_example_vector() {
    let addr = format!("0x{}", "a".repeat(40));
    let info = check_address(&addr);
    assert_eq!(info.network, "Ethereum");
    assert!(info.valid);
    assert_eq!(info.address_type, "Standard");
}

#[test]
fn ethereum_uppercase_hex_accepted() {
    let addr = format!("0x{}", "AbCdEf0123456789".repeat(2)) + "aaaaaaaa";
    assert_eq!(addr.len(), 42);
    let info = check_address(&addr);
    assert_eq!(info.network, "Ethereum");
    assert!(info.valid);
}

#[test]
fn ethereum_invalid_hex_digit() {
    let addr = format!("0x{}", "g".repeat(40));
    assert_unknown(&check_address(&addr));
}

#[test]
fn ethereum_wrong_length() {
    let addr = format!("0x{}", "a".repeat(39));
    assert_unknown(&check_address(&addr));
}

#[test]
fn litecoin_legacy_addresses() {
    let info = check_address("LLELvcYzfxkeX3WpNoLh8uZC9nUPBUQHdm");
    assert_eq!(info.network, "Litecoin");
    assert!(info.valid);
    assert_eq!(info.address_type, "Legacy (P2PKH)");

    let info = check_address("M96Aeiq4CZQgvs2vprFaos6fQApqJohF61");
    assert_eq!(info.network, "Litecoin");
    assert!(info.valid);
    assert_eq!(info.address_type, "Script (P2SH)");
}

#[test]
fn litecoin_bech32_address() {
    let addr = format!("ltc1{}", "q".repeat(39));
    assert_eq!(addr.len(), 43);
    let info = check_address(&addr);
    assert_eq!(info.network, "Litecoin");
    assert!(info.valid);
    assert_eq!(info.address_type, "Bech32");
}

#[test]
fn dogecoin_address() {
    let info = check_address("D6WiiSYn7BsTM9V8jfqTp4epoTWXrdTSnr");
    assert_eq!(info.network, "Dogecoin");
    assert!(info.valid);
    assert_eq!(info.address_type, "Standard");
}

#[test]
fn solana_address() {
    let info = check_address("So11111111111111111111111111111111111111112");
    assert_eq!(info.network, "Solana");
    assert!(info.valid);
    assert_eq!(info.address_type, "Standard");
}

#[test]
fn cardano_address() {
    let addr = format!("addr1{}", "q".repeat(95));
    assert_eq!(addr.len(), 100);
    let info = check_address(&addr);
    assert_eq!(info.network, "Cardano");
    assert!(info.valid);
    assert_eq!(info.address_type, "Bech32");
}

#[test]
fn cardano_length_bounds() {
    assert_unknown(&check_address(&format!("addr1{}", "q".repeat(94))));
    assert_unknown(&check_address(&format!("addr1{}", "q".repeat(106))));
}

#[test]
fn cardano_checks_only_prefix_and_length() {
    // The Cardano heuristic reads a prefix and a length, nothing else: a
    // stray byte elsewhere does not unmatch it.
    let addr = format!("addr1{}%{}", "q".repeat(47), "q".repeat(47));
    assert_eq!(addr.len(), 100);
    let info = check_address(&addr);
    assert_eq!(info.network, "Cardano");
    assert!(info.valid);
}

#[test]
fn polkadot_ss58_example_vector() {
    let info = check_address("12KeSVQBwS9AjRA976mnJouSAoQuS5bkWudT367GBEHE8Ls");
    assert_eq!(info.network, "Polkadot");
    assert!(info.valid);
    assert_eq!(info.address_type, "SS58");
}

#[test]
fn kusama_ss58_address() {
    let info = check_address("CbeARaCxXBbUrE5xArpY7Lkj9611oLe8Q1tgQNiBtRFnrrh");
    assert_eq!(info.network, "Kusama");
    assert!(info.valid);
    assert_eq!(info.address_type, "SS58");
}

#[test]
fn ss58_simple_form_highest_identifier() {
    let info = check_address("7HcsvwboQGXw1RuPCeXGa5Zg9jowMykPdmouD6c5S3gzxYK6");
    assert_eq!(info.network, "Genshiro");
    assert!(info.valid);
}

#[test]
fn ss58_extended_form_registered() {
    let info = check_address("WuaKK8znFKfVNHA7TNW9g5g2zfJjB1Q9rufS6f38CNszuevQZ");
    assert_eq!(info.network, "Asset Hub Polkadot");
    assert!(info.valid);
    assert_eq!(info.address_type, "SS58");

    let info = check_address("YnjYwvM7KmxJX9NgxExZfBWysi9As3u1HGfVjinhavLWMYc3R");
    assert_eq!(info.network, "Calamari");
    assert!(info.valid);
}

#[test]
fn ss58_unlisted_identifier_is_substrate() {
    // Identifier 99 carries no registry entry: the address is still valid
    // SS58, on the generic "Substrate" ecosystem.
    let info = check_address("VMg1zF7wz3XUVZGcVJoXGrkR8M7tEZGptxCHoLCfvCTFa5y3a");
    assert_eq!(info.network, "Substrate");
    assert!(info.valid);
    assert_eq!(info.address_type, "SS58");

    let info = check_address("yNVMPQNfLRDUCs8JWEYt3ns6neWWYHeGcchRqnMGozZwpw6fX");
    assert_eq!(info.network, "Substrate");
    assert!(info.valid);
}

#[test]
fn ss58_reserved_form_rejected() {
    // First decoded byte has its top bit set: the reserved identifier form
    // never matches, though the checksum over the data is correct.
    assert_unknown(&check_address("LAAyGvSoyoMhA16E3L1LHKsVXLFsScyXy7GqaGZvAMPuGLxq"));
}

#[test]
fn ss58_checksum_failure_collapses_to_unknown() {
    let addr = "2".repeat(50);
    assert_unknown(&check_address(&addr));
}

#[test]
fn polkadot_example_with_last_character_altered() {
    let info = check_address("12KeSVQBwS9AjRA976mnJouSAoQuS5bkWudT367GBEHE8Lt");
    assert_unknown(&info);
}

#[test]
fn empty_string_is_unknown() {
    assert_unknown(&check_address(""));
}

#[test]
fn garbage_strings_are_unknown() {
    assert_unknown(&check_address("hello world!!!"));
    assert_unknown(&check_address("%%%%"));
    assert_unknown(&check_address("not-an-address"));
    assert_unknown(&check_address("\u{e9}aaaaaaaaaaaaaaaaaaaaaaaaaaaaaaaa"));
}

#[test]
fn very_long_base58_input_is_unknown() {
    // Longer than the Base58 decoder's buffer: no family can match.
    assert_unknown(&check_address(&"1".repeat(200)));
    assert_unknown(&check_address(&"z".repeat(500)));
}

#[test]
fn whitespace_is_trimmed_before_classification() {
    let info = check_address("  1BvBMSEYstWetqTFn5Au4m4GFg7xJaNVN2\t\n");
    assert_eq!(info.address, "1BvBMSEYstWetqTFn5Au4m4GFg7xJaNVN2");
    assert_eq!(info.network, "Bitcoin");
    assert!(info.valid);
}

#[test]
fn classification_is_idempotent() {
    for addr in [
        "1BvBMSEYstWetqTFn5Au4m4GFg7xJaNVN2",
        "12KeSVQBwS9AjRA976mnJouSAoQuS5bkWudT367GBEHE8Ls",
        "garbage",
        "",
    ] {
        let a = check_address(addr);
        let b = check_address(addr);
        assert_eq!(a.address, b.address);
        assert_eq!(a.network, b.network);
        assert_eq!(a.valid, b.valid);
        assert_eq!(a.address_type, b.address_type);
    }
}

#[test]
fn priority_bitcoin_before_solana() {
    // 34 characters of Base58: the shape satisfies the Solana heuristic
    // too, but the Bitcoin family is tried first.
    let addr = "1BvBMSEYstWetqTFn5Au4m4GFg7xJaNVN2";
    assert!(is_solana_address(addr.as_bytes()));
    assert_eq!(check_address(addr).network, "Bitcoin");
}

#[test]
fn priority_dogecoin_before_solana() {
    let addr = "D6WiiSYn7BsTM9V8jfqTp4epoTWXrdTSnr";
    assert!(is_solana_address(addr.as_bytes()));
    assert_eq!(check_address(addr).network, "Dogecoin");
}

#[test]
fn checksum_sensitive_to_single_character_flips_base58check() {
    // A short valid address (27 characters, under the Solana heuristic's
    // minimum length), so a flipped copy can only match through the
    // checksum — which must fail.
    let addr = "1111111111111111111114oLvT2";
    assert!(check_address(addr).valid);
    for i in 0..addr.len() {
        for c in ["2", "x", "Q"] {
            if &addr[i..i + 1] == c {
                continue;
            }
            let flipped = format!("{}{}{}", &addr[..i], c, &addr[i + 1..]);
            let info = check_address(&flipped);
            assert!(!info.valid, "flip at {} to {} was accepted", i, c);
        }
    }
}

#[test]
fn checksum_sensitive_to_single_character_flips_ss58() {
    let addr = "12KeSVQBwS9AjRA976mnJouSAoQuS5bkWudT367GBEHE8Ls";
    assert!(check_address(addr).valid);
    for i in 0..addr.len() {
        for c in ["3", "k", "R"] {
            if &addr[i..i + 1] == c {
                continue;
            }
            let flipped = format!("{}{}{}", &addr[..i], c, &addr[i + 1..]);
            let info = check_address(&flipped);
            assert!(!info.valid, "flip at {} to {} was accepted", i, c);
        }
    }
}

#[test]
fn base58_characters_all_accepted_by_checksum_validator() {
    // Every alphabet character decodes; the checksum then fails for this
    // arbitrary string.
    assert!(!validate_base58_checksum(BASE58_CHARS.as_bytes()));
}

#[test]
fn base58_rejects_ambiguous_glyphs() {
    assert!(!validate_base58_checksum(b"0000000000000000000000000000"));
    assert!(!validate_base58_checksum(b"1111111111111111111114oLvTO"));
    assert!(!validate_base58_checksum(b"1111111111111111111114oLvTl"));
    assert!(!validate_base58_checksum(b"1111111111111111111114oLvTI"));
}

#[test]
fn base58_checksum_direct() {
    assert!(validate_base58_checksum(b"1111111111111111111114oLvT2"));
    assert!(validate_base58_checksum(b"1BvBMSEYstWetqTFn5Au4m4GFg7xJaNVN2"));
    assert!(!validate_base58_checksum(b"1BvBMSEYstWetqTFn5Au4m4GFg7xJaNVN3"));
    assert!(!validate_base58_checksum(b""));
    assert!(!validate_base58_checksum(b"11"));
}

#[test]
fn bech32_structural_rules() {
    assert!(validate_bech32(b"bc1qw508d6qejxtdg4y5r3zarvary0c5xw7kv8f3t4"));
    // no separator
    assert!(!validate_bech32(b"bcqqqqqqqq"));
    // empty human-readable part
    assert!(!validate_bech32(b"1qqqqqq"));
    // data part shorter than six characters
    assert!(!validate_bech32(b"bc1qqqqq"));
    // data part holds an upper-case character
    assert!(!validate_bech32(b"bc1qqqqqQ"));
    // separator is the last character: empty data part
    assert!(!validate_bech32(b"bcqqqqqq1"));
}

#[test]
fn family_validators_directly() {
    assert!(is_bitcoin_address(b"1BvBMSEYstWetqTFn5Au4m4GFg7xJaNVN2"));
    assert!(!is_bitcoin_address(b"1BvBMSEYstWetqTFn5Au4m4GFg7xJaNVN3"));
    assert!(is_ethereum_address(b"0xaaaaaaaaaaaaaaaaaaaaaaaaaaaaaaaaaaaaaaaa"));
    assert!(!is_ethereum_address(b"0Xaaaaaaaaaaaaaaaaaaaaaaaaaaaaaaaaaaaaaaaa"));
    assert!(is_litecoin_address(b"LLELvcYzfxkeX3WpNoLh8uZC9nUPBUQHdm"));
    assert!(is_dogecoin_address(b"D6WiiSYn7BsTM9V8jfqTp4epoTWXrdTSnr"));
    assert!(!is_dogecoin_address(b"1BvBMSEYstWetqTFn5Au4m4GFg7xJaNVN2"));
    assert!(is_solana_address(b"So11111111111111111111111111111111111111112"));
    assert!(!is_solana_address(b"0o11111111111111111111111111111111111111112"));
    assert!(!is_solana_address(b"l111111111111111111111111111111111111111112"));
    assert!(is_cardano_address(
        format!("addr1{}", "q".repeat(95)).as_bytes(),
    ));
    assert!(!is_cardano_address(b"addr1qqqq"));
}

#[test]
fn address_type_labels() {
    assert_eq!(get_bitcoin_address_type(b"1abc"), "Legacy (P2PKH)");
    assert_eq!(get_bitcoin_address_type(b"3abc"), "Script (P2SH)");
    assert_eq!(get_bitcoin_address_type(b"bc1abc"), "Bech32 (P2WPKH/P2WSH)");
    assert_eq!(get_bitcoin_address_type(b"xyz"), "Unknown");
    assert_eq!(get_litecoin_address_type(b"Labc"), "Legacy (P2PKH)");
    assert_eq!(get_litecoin_address_type(b"Mabc"), "Script (P2SH)");
    assert_eq!(get_litecoin_address_type(b"ltc1abc"), "Bech32");
    assert_eq!(get_litecoin_address_type(b"xyz"), "Unknown");
}

#[test]
fn validate_ss58_address_directly() {
    let r = validate_ss58_address(b"12KeSVQBwS9AjRA976mnJouSAoQuS5bkWudT367GBEHE8Ls");
    assert_eq!(r, Some((0u16, "Polkadot".to_string())));
    let r = validate_ss58_address(b"WuaKK8znFKfVNHA7TNW9g5g2zfJjB1Q9rufS6f38CNszuevQZ");
    assert_eq!(r, Some((1000u16, "Asset Hub Polkadot".to_string())));
    assert_eq!(
        validate_ss58_address(b"12KeSVQBwS9AjRA976mnJouSAoQuS5bkWudT367GBEHE8Lt"),
        None,
    );
    assert_eq!(validate_ss58_address(b""), None);
}

#[test]
fn check_polkadot_address_directly() {
    let info = check_polkadot_address("CbeARaCxXBbUrE5xArpY7Lkj9611oLe8Q1tgQNiBtRFnrrh").unwrap();
    assert_eq!(info.network, "Kusama");
    assert!(info.valid);
    assert_eq!(info.address_type, "SS58");
    assert!(check_polkadot_address("garbage").is_none());
}

#[test]
fn registry_lookup() {
    assert_eq!(ss58_network_name(0), "Polkadot");
    assert_eq!(ss58_network_name(2), "Kusama");
    assert_eq!(ss58_network_name(42), "Picasso");
    assert_eq!(ss58_network_name(99), "Substrate");
    assert_eq!(ss58_network_name(1000), "Asset Hub Polkadot");
    assert_eq!(ss58_network_name(2094), "Calamari");
    assert_eq!(ss58_network_name(16383), "Substrate");
}
