use image_pda::address::{Address, program_address};
use image_pda::codec::{decode, encode};
use image_pda::derivation::{DeriveError, derive_record_address};
use image_pda::image::Image;
use image_pda::instruction::{build_close_instruction, build_create_instruction};
use image_pda::ops::plan_add;

fn test_signer() -> Address {
    Address { bytes: (1u8..=32).collect() }
}

#[test]
fn create_instruction_has_the_three_accounts_and_the_payload() {
    let program = program_address().unwrap();
    let signer = test_signer();
    let derived = Address { bytes: vec![7u8; 32] };
    let image = Image { url: b"https://x/1.png".to_vec(), title: b"cat".to_vec() };
    let instruction = build_create_instruction(&program, &signer, &derived, &image);

    assert_eq!(instruction.program_id.bytes, program.bytes);
    assert_eq!(instruction.data, encode(&image));
    assert_eq!(instruction.accounts.len(), 3);

    assert_eq!(instruction.accounts[0].address.bytes, signer.bytes);
    assert!(instruction.accounts[0].is_signer);
    assert!(instruction.accounts[0].is_writable);

    assert_eq!(instruction.accounts[1].address.bytes, derived.bytes);
    assert!(!instruction.accounts[1].is_signer);
    assert!(instruction.accounts[1].is_writable);

    assert_eq!(instruction.accounts[2].address.bytes, vec![0u8; 32]);
    assert!(!instruction.accounts[2].is_signer);
    assert!(!instruction.accounts[2].is_writable);
}

#[test]
fn close_instruction_has_the_three_accounts_and_no_payload() {
    let program = program_address().unwrap();
    let signer = test_signer();
    let target = Address { bytes: vec![9u8; 32] };
    let instruction = build_close_instruction(&program, &signer, &target);

    assert_eq!(instruction.program_id.bytes, program.bytes);
    assert!(instruction.data.is_empty());
    assert_eq!(instruction.accounts.len(), 3);
    assert_eq!(instruction.accounts[0].address.bytes, signer.bytes);
    assert!(instruction.accounts[0].is_signer);
    assert_eq!(instruction.accounts[1].address.bytes, target.bytes);
    assert!(instruction.accounts[1].is_writable);
    assert_eq!(instruction.accounts[2].address.bytes, vec![0u8; 32]);
}

#[test]
fn an_add_plan_carries_the_record_to_its_derived_address() {
    let program = program_address().unwrap();
    let signer = test_signer();
    let image = Image { url: b"https://x/1.png".to_vec(), title: b"cat".to_vec() };
    let plan = plan_add(&program, &signer, &image).unwrap();

    let (expected_address, expected_bump) =
        derive_record_address(&signer, b"cat", &program).unwrap();
    assert_eq!(plan.derived.bytes, expected_address.bytes);
    assert_eq!(plan.bump, expected_bump);

    assert_eq!(plan.instruction.accounts[1].address.bytes, plan.derived.bytes);
    let carried = decode(&plan.instruction.data).unwrap();
    assert_eq!(carried.url, image.url);
    assert_eq!(carried.title, image.title);
}

#[test]
fn an_add_plan_with_an_overlong_title_fails_before_any_network_call() {
    let program = program_address().unwrap();
    let signer = test_signer();
    let image = Image { url: b"https://x/1.png".to_vec(), title: vec![b't'; 40] };
    assert_eq!(plan_add(&program, &signer, &image).unwrap_err(), DeriveError::SeedTooLong);
}
