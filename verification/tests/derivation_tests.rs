use image_pda::address::{Address, AddressError, parse_address, program_address, program_id_base58, system_program_address};
use image_pda::derivation::{DeriveError, derive_record_address};
use solana_pubkey::Pubkey;
use std::str::FromStr;

fn test_signer() -> Address {
    Address { bytes: (1u8..=32).collect() }
}

fn test_program() -> Address {
    program_address().unwrap()
}

#[test]
fn derivation_is_deterministic() {
    let signer = test_signer();
    let program = test_program();
    let (addr_a, bump_a) = derive_record_address(&signer, b"cat", &program).unwrap();
    let (addr_b, bump_b) = derive_record_address(&signer, b"cat", &program).unwrap();
    assert_eq!(addr_a.bytes, addr_b.bytes);
    assert_eq!(bump_a, bump_b);
}

#[test]
fn different_titles_derive_different_addresses() {
    let signer = test_signer();
    let program = test_program();
    let (addr_cat, _) = derive_record_address(&signer, b"cat", &program).unwrap();
    let (addr_dog, _) = derive_record_address(&signer, b"dog", &program).unwrap();
    assert_ne!(addr_cat.bytes, addr_dog.bytes);
}

#[test]
fn derivation_agrees_with_the_network_search() {
    let signer = test_signer();
    let program = test_program();
    let (addr, bump) = derive_record_address(&signer, b"cat", &program).unwrap();
    let program_key = Pubkey::from_str(program_id_base58()).unwrap();
    let (expected, expected_bump) =
        Pubkey::find_program_address(&[&signer.bytes, b"cat"], &program_key);
    assert_eq!(addr.bytes, expected.to_bytes().to_vec());
    assert_eq!(bump, expected_bump);
    assert_ne!(addr.bytes, signer.bytes);
}

#[test]
fn an_overlong_title_fails_before_any_derivation() {
    let signer = test_signer();
    let program = test_program();
    let title = [b'x'; 33];
    assert_eq!(
        derive_record_address(&signer, &title, &program).unwrap_err(),
        DeriveError::SeedTooLong
    );
}

#[test]
fn a_title_at_the_seed_limit_is_accepted() {
    let signer = test_signer();
    let program = test_program();
    let title = [b'x'; 32];
    assert!(derive_record_address(&signer, &title, &program).is_ok());
}

#[test]
fn parse_address_decodes_base58() {
    let parsed = parse_address("11111111111111111111111111111111").unwrap();
    assert_eq!(parsed.bytes, vec![0u8; 32]);
    let parsed_program = parse_address(program_id_base58()).unwrap();
    let expected = Pubkey::from_str(program_id_base58()).unwrap();
    assert_eq!(parsed_program.bytes, expected.to_bytes().to_vec());
}

#[test]
fn parse_address_rejects_bad_strings() {
    assert_eq!(parse_address("").unwrap_err(), AddressError::Invalid);
    assert_eq!(parse_address("not base58 0OIl").unwrap_err(), AddressError::Invalid);
    assert_eq!(parse_address("abc").unwrap_err(), AddressError::Invalid);
}

#[test]
fn the_system_program_address_is_all_zeros() {
    let system = system_program_address();
    assert_eq!(system.bytes, vec![0u8; 32]);
}
