//! One input for every error variant of the taxonomy, plus the wire
//! format's rejection paths.

use review_ledger::addr::{
    derive_comment_address, derive_counter_address, derive_mint_address, derive_mint_authority_address,
    derive_review_address, derive_reward_account_address, rent_sysvar_id, system_program_id,
    token_program_id, Address,
};
use review_ledger::effects::{AccountInput, ProgramEffects};
use review_ledger::error::ReviewError;
use review_ledger::instruction::MovieInstruction;
use review_ledger::processor::{add_comment, add_movie_review, initialize_token_mint, process_instruction, update_movie_review};
use solana_program::pubkey::Pubkey;

fn addr(pk: &Pubkey) -> Address {
    Address { bytes: pk.to_bytes().to_vec() }
}

fn account(key: &Address, is_signer: bool, data: Vec<u8>) -> AccountInput {
    AccountInput {
        key: Address { bytes: key.bytes.clone() },
        is_signer,
        owner: system_program_id(),
        data,
    }
}

fn valid_review_accounts(program_id: &Address, author: &Address, title: &[u8]) -> Vec<AccountInput> {
    let (review_pda, _) = derive_review_address(program_id, author, &title.to_vec());
    let (counter_pda, _) = derive_counter_address(program_id, &review_pda);
    let (mint_pda, _) = derive_mint_address(program_id);
    let (auth_pda, _) = derive_mint_authority_address(program_id);
    let user_ata = derive_reward_account_address(author, &mint_pda);
    vec![
        account(author, true, Vec::new()),
        account(&review_pda, false, Vec::new()),
        account(&counter_pda, false, Vec::new()),
        account(&mint_pda, false, Vec::new()),
        account(&auth_pda, false, Vec::new()),
        account(&user_ata, false, Vec::new()),
        account(&system_program_id(), false, Vec::new()),
        account(&token_program_id(), false, Vec::new()),
    ]
}

#[test]
fn missing_signature_is_rejected() {
    let program_id = addr(&Pubkey::new_unique());
    let author = addr(&Pubkey::new_unique());
    let mut accounts = valid_review_accounts(&program_id, &author, b"Dune");
    accounts[0].is_signer = false;
    let result = add_movie_review(&program_id, &accounts, b"Dune".to_vec(), 3, b"d".to_vec());
    assert_eq!(result.unwrap_err(), ReviewError::MissingSignature);
}

#[test]
fn wrong_review_address_is_rejected() {
    let program_id = addr(&Pubkey::new_unique());
    let author = addr(&Pubkey::new_unique());
    let mut accounts = valid_review_accounts(&program_id, &author, b"Dune");
    accounts[1].key = addr(&Pubkey::new_unique());
    let result = add_movie_review(&program_id, &accounts, b"Dune".to_vec(), 3, b"d".to_vec());
    assert_eq!(result.unwrap_err(), ReviewError::InvalidDerivedAddress);
}

#[test]
fn wrong_counter_address_is_rejected() {
    let program_id = addr(&Pubkey::new_unique());
    let author = addr(&Pubkey::new_unique());
    let mut accounts = valid_review_accounts(&program_id, &author, b"Dune");
    accounts[2].key = addr(&Pubkey::new_unique());
    let result = add_movie_review(&program_id, &accounts, b"Dune".to_vec(), 3, b"d".to_vec());
    assert_eq!(result.unwrap_err(), ReviewError::InvalidDerivedAddress);
}

#[test]
fn wrong_mint_authority_or_reward_account_is_rejected() {
    let program_id = addr(&Pubkey::new_unique());
    let author = addr(&Pubkey::new_unique());
    for position in [3usize, 4, 5, 7] {
        let mut accounts = valid_review_accounts(&program_id, &author, b"Dune");
        accounts[position].key = addr(&Pubkey::new_unique());
        let result = add_movie_review(&program_id, &accounts, b"Dune".to_vec(), 3, b"d".to_vec());
        assert_eq!(result.unwrap_err(), ReviewError::IncorrectExternalAccount);
    }
}

#[test]
fn oversized_record_is_rejected() {
    let program_id = addr(&Pubkey::new_unique());
    let author = addr(&Pubkey::new_unique());
    let accounts = valid_review_accounts(&program_id, &author, b"Dune");
    // 52 + 4 + 945 = 1001 bytes: one over the cap.
    let description = vec![b'x'; 945];
    let result = add_movie_review(&program_id, &accounts, b"Dune".to_vec(), 3, description);
    assert_eq!(result.unwrap_err(), ReviewError::RecordTooLarge);
    // 52 + 4 + 944 = 1000 bytes: exactly at the cap.
    let description = vec![b'x'; 944];
    let result = add_movie_review(&program_id, &accounts, b"Dune".to_vec(), 3, description);
    assert!(result.is_ok());
}

#[test]
fn too_few_accounts_are_rejected() {
    let program_id = addr(&Pubkey::new_unique());
    let author = addr(&Pubkey::new_unique());
    let mut accounts = valid_review_accounts(&program_id, &author, b"Dune");
    accounts.truncate(5);
    let result = add_movie_review(&program_id, &accounts, b"Dune".to_vec(), 3, b"d".to_vec());
    assert_eq!(result.unwrap_err(), ReviewError::NotEnoughAccounts);
}

#[test]
fn update_of_foreign_account_is_rejected() {
    let program_id = addr(&Pubkey::new_unique());
    let author = addr(&Pubkey::new_unique());
    // The target's owner is the system program, not this program.
    let accounts = vec![
        account(&author, true, Vec::new()),
        account(&addr(&Pubkey::new_unique()), false, Vec::new()),
    ];
    let result = update_movie_review(&program_id, &accounts, Vec::new(), 3, b"d".to_vec());
    assert_eq!(result.unwrap_err(), ReviewError::IllegalOwner);
}

#[test]
fn update_of_never_written_account_is_rejected() {
    let program_id = addr(&Pubkey::new_unique());
    let author = addr(&Pubkey::new_unique());
    let mut target = account(&addr(&Pubkey::new_unique()), false, vec![0u8; 1000]);
    target.owner = Address { bytes: program_id.bytes.clone() };
    let accounts = vec![account(&author, true, Vec::new()), target];
    // An all-zero buffer decodes to the empty reading, whose address
    // does not re-derive to the target.
    let result = update_movie_review(&program_id, &accounts, Vec::new(), 3, b"d".to_vec());
    assert_eq!(result.unwrap_err(), ReviewError::InvalidDerivedAddress);
    let mut empty_target = account(&addr(&Pubkey::new_unique()), false, Vec::new());
    empty_target.owner = Address { bytes: program_id.bytes.clone() };
    let accounts = vec![account(&author, true, Vec::new()), empty_target];
    let result = update_movie_review(&program_id, &accounts, Vec::new(), 3, b"d".to_vec());
    assert_eq!(result.unwrap_err(), ReviewError::UninitializedAccount);
}

#[test]
fn unknown_or_malformed_instructions_are_rejected() {
    let program_id = addr(&Pubkey::new_unique());
    let accounts: Vec<AccountInput> = Vec::new();
    for data in [
        Vec::new(),                  // no discriminator byte
        vec![9u8],                   // unknown operation
        vec![0u8],                   // payload missing
        vec![0u8, 255, 255, 255, 255], // length prefix overruns
        vec![2u8, 1, 0, 0, 0, b'x', b'y'], // trailing bytes
    ] {
        let result = process_instruction(&program_id, &accounts, &data);
        assert_eq!(result.unwrap_err(), ReviewError::InvalidInstruction);
    }
}

#[test]
fn instruction_bytes_parse_to_their_operations() {
    let mut data = vec![2u8];
    data.extend_from_slice(&5u32.to_le_bytes());
    data.extend_from_slice(b"hello");
    match MovieInstruction::unpack(&data) {
        Ok(MovieInstruction::AddComment { comment }) => assert_eq!(comment, b"hello".to_vec()),
        other => panic!("wrong parse: {:?}", other),
    }
    assert!(matches!(
        MovieInstruction::unpack(&vec![3u8]),
        Ok(MovieInstruction::InitializeMint)
    ));
    let data = {
        let mut d = vec![1u8];
        d.extend_from_slice(&0u32.to_le_bytes());
        d.push(4);
        d.extend_from_slice(&2u32.to_le_bytes());
        d.extend_from_slice(b"ok");
        d
    };
    match MovieInstruction::unpack(&data) {
        Ok(MovieInstruction::UpdateMovieReview { title, rating, description }) => {
            assert_eq!(title, Vec::<u8>::new());
            assert_eq!(rating, 4);
            assert_eq!(description, b"ok".to_vec());
        },
        other => panic!("wrong parse: {:?}", other),
    }
}

#[test]
fn dispatched_instruction_runs_its_handler() {
    let program_id = addr(&Pubkey::new_unique());
    let author = addr(&Pubkey::new_unique());
    let accounts = valid_review_accounts(&program_id, &author, b"Up");
    let mut data = vec![0u8];
    data.extend_from_slice(&2u32.to_le_bytes());
    data.extend_from_slice(b"Up");
    data.push(5);
    data.extend_from_slice(&4u32.to_le_bytes());
    data.extend_from_slice(b"good");
    match process_instruction(&program_id, &accounts, &data) {
        Ok(ProgramEffects::Review(e)) => {
            assert_eq!(e.reward.amount, 10_000_000_000);
        },
        other => panic!("dispatch failed: {:?}", other),
    }
}

fn valid_comment_accounts(
    program_id: &Address,
    commenter: &Address,
    review_pda: &Address,
    counter_data: Vec<u8>,
    comment_index: u64,
) -> Vec<AccountInput> {
    let (counter_pda, _) = derive_counter_address(program_id, review_pda);
    let (comment_pda, _) = derive_comment_address(program_id, review_pda, comment_index);
    let (mint_pda, _) = derive_mint_address(program_id);
    let (auth_pda, _) = derive_mint_authority_address(program_id);
    let user_ata = derive_reward_account_address(commenter, &mint_pda);
    vec![
        account(commenter, true, Vec::new()),
        account(review_pda, false, Vec::new()),
        account(&counter_pda, false, counter_data),
        account(&comment_pda, false, Vec::new()),
        account(&mint_pda, false, Vec::new()),
        account(&auth_pda, false, Vec::new()),
        account(&user_ata, false, Vec::new()),
        account(&system_program_id(), false, Vec::new()),
        account(&token_program_id(), false, Vec::new()),
    ]
}

fn fresh_counter_data(program_id: &Address, author: &Address) -> (Address, Vec<u8>) {
    let accounts = valid_review_accounts(program_id, author, b"Dune");
    let created =
        add_movie_review(program_id, &accounts, b"Dune".to_vec(), 3, b"d".to_vec()).unwrap();
    (Address { bytes: accounts[1].key.bytes.clone() }, created.counter_data)
}

#[test]
fn comment_at_wrong_sequence_index_is_rejected() {
    let program_id = addr(&Pubkey::new_unique());
    let author = addr(&Pubkey::new_unique());
    let commenter = addr(&Pubkey::new_unique());
    let (review_pda, counter_data) = fresh_counter_data(&program_id, &author);
    // The counter reads 0 but the supplied comment account sits at index 1.
    let accounts =
        valid_comment_accounts(&program_id, &commenter, &review_pda, counter_data, 1);
    let result = add_comment(&program_id, &accounts, b"hi".to_vec());
    assert_eq!(result.unwrap_err(), ReviewError::InvalidDerivedAddress);
}

#[test]
fn occupied_comment_slot_is_rejected() {
    let program_id = addr(&Pubkey::new_unique());
    let author = addr(&Pubkey::new_unique());
    let commenter = addr(&Pubkey::new_unique());
    let (review_pda, counter_data) = fresh_counter_data(&program_id, &author);
    let mut accounts =
        valid_comment_accounts(&program_id, &commenter, &review_pda, counter_data.clone(), 0);
    let first = add_comment(&program_id, &accounts, b"hi".to_vec()).unwrap();
    // The same slot already holds the first comment's record.
    accounts[3].data = first.comment_data;
    let result = add_comment(&program_id, &accounts, b"hi again".to_vec());
    assert_eq!(result.unwrap_err(), ReviewError::AlreadyInitialized);
}

#[test]
fn comment_on_unreadable_counter_is_rejected() {
    let program_id = addr(&Pubkey::new_unique());
    let author = addr(&Pubkey::new_unique());
    let commenter = addr(&Pubkey::new_unique());
    let (review_pda, _) = fresh_counter_data(&program_id, &author);
    let accounts =
        valid_comment_accounts(&program_id, &commenter, &review_pda, vec![1u8, 2u8], 0);
    let result = add_comment(&program_id, &accounts, b"hi".to_vec());
    assert_eq!(result.unwrap_err(), ReviewError::UninitializedAccount);
}

#[test]
fn mint_setup_rejects_wrong_accounts_and_missing_signature() {
    let program_id = addr(&Pubkey::new_unique());
    let payer = addr(&Pubkey::new_unique());
    let (mint_pda, _) = derive_mint_address(&program_id);
    let (auth_pda, _) = derive_mint_authority_address(&program_id);
    let good = vec![
        account(&payer, true, Vec::new()),
        account(&mint_pda, false, Vec::new()),
        account(&auth_pda, false, Vec::new()),
        account(&system_program_id(), false, Vec::new()),
        account(&token_program_id(), false, Vec::new()),
        account(&rent_sysvar_id(), false, Vec::new()),
    ];
    for position in [1usize, 2, 3, 4, 5] {
        let mut accounts = good.clone();
        accounts[position].key = addr(&Pubkey::new_unique());
        let result = initialize_token_mint(&program_id, &accounts);
        assert_eq!(result.unwrap_err(), ReviewError::IncorrectExternalAccount);
    }
    let mut accounts = good.clone();
    accounts[0].is_signer = false;
    let result = initialize_token_mint(&program_id, &accounts);
    assert_eq!(result.unwrap_err(), ReviewError::MissingSignature);
}
