//! The library's address derivations against the host SDK's own.

use review_ledger::addr::{
    derive_comment_address, derive_counter_address, derive_mint_address,
    derive_mint_authority_address, derive_review_address, derive_reward_account_address,
    rent_sysvar_id, system_program_id, token_program_id, u64_to_be_bytes, Address,
};
use review_ledger::processor::{COMMENT_REWARD_AMOUNT, REVIEW_REWARD_AMOUNT, TOKEN_BASE_UNITS};
use solana_program::pubkey::Pubkey;

fn addr(pk: &Pubkey) -> Address {
    Address { bytes: pk.to_bytes().to_vec() }
}

#[test]
fn review_address_matches_sdk_derivation() {
    let program_id = Pubkey::new_unique();
    let author = Pubkey::new_unique();
    let title = b"Captain America".to_vec();
    let (expected, expected_bump) =
        Pubkey::find_program_address(&[author.as_ref(), &title], &program_id);
    let (got, bump) = derive_review_address(&addr(&program_id), &addr(&author), &title);
    assert_eq!(got.bytes, expected.to_bytes().to_vec());
    assert_eq!(bump, expected_bump);
}

#[test]
fn counter_address_matches_sdk_derivation() {
    let program_id = Pubkey::new_unique();
    let review = Pubkey::new_unique();
    let (expected, expected_bump) =
        Pubkey::find_program_address(&[review.as_ref(), b"comment"], &program_id);
    let (got, bump) = derive_counter_address(&addr(&program_id), &addr(&review));
    assert_eq!(got.bytes, expected.to_bytes().to_vec());
    assert_eq!(bump, expected_bump);
}

#[test]
fn comment_address_matches_sdk_derivation() {
    let program_id = Pubkey::new_unique();
    let review = Pubkey::new_unique();
    let count: u64 = 5;
    let (expected, expected_bump) =
        Pubkey::find_program_address(&[review.as_ref(), &count.to_be_bytes()], &program_id);
    let (got, bump) = derive_comment_address(&addr(&program_id), &addr(&review), count);
    assert_eq!(got.bytes, expected.to_bytes().to_vec());
    assert_eq!(bump, expected_bump);
}

#[test]
fn mint_and_authority_match_sdk_derivation() {
    let program_id = Pubkey::new_unique();
    let (mint, mint_bump) = Pubkey::find_program_address(&[b"token_mint"], &program_id);
    let (auth, auth_bump) = Pubkey::find_program_address(&[b"token_auth"], &program_id);
    let (got_mint, got_mint_bump) = derive_mint_address(&addr(&program_id));
    let (got_auth, got_auth_bump) = derive_mint_authority_address(&addr(&program_id));
    assert_eq!(got_mint.bytes, mint.to_bytes().to_vec());
    assert_eq!(got_mint_bump, mint_bump);
    assert_eq!(got_auth.bytes, auth.to_bytes().to_vec());
    assert_eq!(got_auth_bump, auth_bump);
}

#[test]
fn reward_account_matches_spl_derivation() {
    let wallet = Pubkey::new_unique();
    let mint = Pubkey::new_unique();
    #[allow(deprecated)]
    let expected = spl_associated_token_account::get_associated_token_address(&wallet, &mint);
    let got = derive_reward_account_address(&addr(&wallet), &addr(&mint));
    assert_eq!(got.bytes, expected.to_bytes().to_vec());
}

#[test]
fn big_endian_seed_bytes_match_std() {
    for value in [0u64, 1, 255, 256, u64::MAX, 0x0102030405060708] {
        assert_eq!(u64_to_be_bytes(value), value.to_be_bytes().to_vec());
    }
}

#[test]
fn well_known_identities_match_their_crates() {
    assert_eq!(token_program_id().bytes, spl_token::ID.to_bytes().to_vec());
    assert_eq!(
        system_program_id().bytes,
        solana_system_interface::program::ID.to_bytes().to_vec()
    );
    #[allow(deprecated)]
    let rent = solana_program::sysvar::rent::ID;
    assert_eq!(rent_sysvar_id().bytes, rent.to_bytes().to_vec());
}

#[test]
fn reward_amounts_are_whole_tokens() {
    assert_eq!(TOKEN_BASE_UNITS, solana_program::native_token::LAMPORTS_PER_SOL);
    assert_eq!(REVIEW_REWARD_AMOUNT, 10 * solana_program::native_token::LAMPORTS_PER_SOL);
    assert_eq!(COMMENT_REWARD_AMOUNT, 5 * solana_program::native_token::LAMPORTS_PER_SOL);
}
