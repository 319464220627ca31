use ixkit::address::Address;
use ixkit::error::ServiceError;
use ixkit::instruction::build_initialize_mint;
use ixkit::instruction::build_mint_to;
use ixkit::instruction::build_transfer_native;
use ixkit::instruction::build_transfer_token;
use ixkit::instruction::RENT_SYSVAR_ID;
use ixkit::instruction::SYSTEM_PROGRAM_ID;
use ixkit::instruction::TOKEN_PROGRAM_ID;
use ixkit::service::initialize_mint_response;
use ixkit::service::mint_to_response;
use ixkit::service::transfer_native_response;
use ixkit::service::transfer_token_response;

fn addr(fill: u8) -> Address {
    Address { bytes: [fill; 32] }
}

#[test]
fn transfer_native_accounts_and_data() {
    let from = addr(1);
    let to = addr(2);
    let ix = build_transfer_native(&from, &to, 1000);
    assert_eq!(ix.program_id.bytes, SYSTEM_PROGRAM_ID);
    assert_eq!(ix.accounts.len(), 2);
    assert_eq!(ix.accounts[0].address.bytes, from.bytes);
    assert!(ix.accounts[0].is_signer);
    assert!(ix.accounts[0].is_writable);
    assert_eq!(ix.accounts[1].address.bytes, to.bytes);
    assert!(!ix.accounts[1].is_signer);
    assert!(ix.accounts[1].is_writable);
    // Four-byte little-endian transfer tag, then 1000 in eight little-endian bytes.
    assert_eq!(ix.data, vec![2, 0, 0, 0, 232, 3, 0, 0, 0, 0, 0, 0]);
}

#[test]
fn initialize_mint_data_layout() {
    let authority = addr(9);
    let mint = addr(4);
    let ix = build_initialize_mint(&authority, &mint, Some(&authority), 9);
    assert_eq!(ix.program_id.bytes, TOKEN_PROGRAM_ID);
    assert_eq!(ix.accounts.len(), 2);
    assert_eq!(ix.accounts[0].address.bytes, mint.bytes);
    assert!(!ix.accounts[0].is_signer);
    assert!(ix.accounts[0].is_writable);
    assert_eq!(ix.accounts[1].address.bytes, RENT_SYSVAR_ID);
    assert!(!ix.accounts[1].is_signer);
    assert!(!ix.accounts[1].is_writable);
    assert_eq!(ix.data.len(), 2 + 32 + 1 + 32);
    assert_eq!(ix.data[0], 0); // initialize-mint tag
    assert_eq!(ix.data[1], 9); // decimals is the second byte
    assert_eq!(&ix.data[2..34], &authority.bytes);
    assert_eq!(ix.data[34], 1); // option flag: freeze authority present
    assert_eq!(&ix.data[35..67], &authority.bytes);
}

#[test]
fn initialize_mint_without_freeze_authority() {
    let authority = addr(9);
    let mint = addr(4);
    let ix = build_initialize_mint(&authority, &mint, None, 0);
    assert_eq!(ix.data.len(), 2 + 32 + 1);
    assert_eq!(ix.data[34], 0); // option flag: no freeze authority
}

#[test]
fn transfer_token_accounts_and_data() {
    let source = addr(3);
    let destination = addr(5);
    let owner = addr(7);
    let ix = build_transfer_token(&source, &destination, &owner, 42);
    assert_eq!(ix.program_id.bytes, TOKEN_PROGRAM_ID);
    assert_eq!(ix.accounts.len(), 3);
    assert_eq!(ix.accounts[0].address.bytes, source.bytes);
    assert!(!ix.accounts[0].is_signer);
    assert!(ix.accounts[0].is_writable);
    assert_eq!(ix.accounts[1].address.bytes, destination.bytes);
    assert!(!ix.accounts[1].is_signer);
    assert!(ix.accounts[1].is_writable);
    assert_eq!(ix.accounts[2].address.bytes, owner.bytes);
    assert!(ix.accounts[2].is_signer);
    assert!(!ix.accounts[2].is_writable);
    assert_eq!(ix.data, vec![3, 42, 0, 0, 0, 0, 0, 0, 0]);
}

#[test]
fn mint_to_accounts_and_data() {
    let mint = addr(4);
    let destination = addr(5);
    let authority = addr(9);
    let ix = build_mint_to(&mint, &destination, &authority, u64::MAX);
    assert_eq!(ix.program_id.bytes, TOKEN_PROGRAM_ID);
    assert_eq!(ix.accounts.len(), 3);
    assert_eq!(ix.accounts[0].address.bytes, mint.bytes);
    assert!(ix.accounts[0].is_writable);
    assert_eq!(ix.accounts[1].address.bytes, destination.bytes);
    assert!(ix.accounts[1].is_writable);
    assert_eq!(ix.accounts[2].address.bytes, authority.bytes);
    assert!(ix.accounts[2].is_signer);
    assert!(!ix.accounts[2].is_writable);
    assert_eq!(ix.data, vec![7, 255, 255, 255, 255, 255, 255, 255, 255]);
}

#[test]
fn transfer_native_response_transport_form() {
    let from = addr(1);
    let to = addr(2);
    let resp = transfer_native_response(&from.encode(), &to.encode(), 1000).unwrap();
    assert_eq!(resp.program_id_text, "11111111111111111111111111111111");
    assert_eq!(resp.accounts.len(), 2);
    assert_eq!(resp.accounts[0].pubkey_text, from.encode());
    assert!(resp.accounts[0].is_signer);
    assert!(resp.accounts[0].is_writable);
    assert_eq!(resp.accounts[1].pubkey_text, to.encode());
    assert!(!resp.accounts[1].is_signer);
    assert!(resp.accounts[1].is_writable);
    assert_eq!(resp.data_base64, "AgAAAOgDAAAAAAAA");
}

#[test]
fn response_base64_matches_reference_codec() {
    let resp = transfer_token_response(&addr(3).encode(), &addr(5).encode(), &addr(7).encode(), 42)
        .unwrap();
    let expected = base64::Engine::encode(
        &base64::engine::general_purpose::STANDARD,
        [3u8, 42, 0, 0, 0, 0, 0, 0, 0],
    );
    assert_eq!(resp.data_base64, expected);
    assert_eq!(resp.data_base64, "AyoAAAAAAAAA");
}

#[test]
fn initialize_mint_response_second_data_byte_is_decimals() {
    let resp = initialize_mint_response(&addr(9).encode(), &addr(4).encode(), 9).unwrap();
    let data = base64::Engine::decode(
        &base64::engine::general_purpose::STANDARD,
        resp.data_base64.as_bytes(),
    )
    .unwrap();
    assert_eq!(data[1], 9);
    assert_eq!(resp.program_id_text, Address { bytes: TOKEN_PROGRAM_ID }.encode());
}

#[test]
fn responses_reject_bad_address_text() {
    let good = addr(1).encode();
    let short = bs58::encode([1u8; 8]).into_string();
    assert_eq!(
        transfer_native_response(&good, "0bad", 5).unwrap_err(),
        ServiceError::InvalidInput
    );
    assert_eq!(
        transfer_native_response(&short, &good, 5).unwrap_err(),
        ServiceError::InvalidInput
    );
    assert_eq!(
        initialize_mint_response("", &good, 0).unwrap_err(),
        ServiceError::InvalidInput
    );
    assert_eq!(
        transfer_token_response(&good, &good, "Il", 1).unwrap_err(),
        ServiceError::InvalidInput
    );
    assert_eq!(
        mint_to_response(&good, "", &good, 1).unwrap_err(),
        ServiceError::InvalidInput
    );
}

#[test]
fn mint_to_response_transport_form() {
    let mint = addr(4);
    let destination = addr(5);
    let authority = addr(9);
    let resp =
        mint_to_response(&mint.encode(), &destination.encode(), &authority.encode(), 7).unwrap();
    assert_eq!(resp.accounts.len(), 3);
    assert_eq!(resp.accounts[2].pubkey_text, authority.encode());
    assert!(resp.accounts[2].is_signer);
    let data = base64::Engine::decode(
        &base64::engine::general_purpose::STANDARD,
        resp.data_base64.as_bytes(),
    )
    .unwrap();
    assert_eq!(data, vec![7, 7, 0, 0, 0, 0, 0, 0, 0]);
}
