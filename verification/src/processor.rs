//! The instruction handlers.
//!
//! Each handler runs the validation pipeline over the operation's
//! fixed positional account list — signer presence, derived-address
//! equality, owner and external-identity equality, domain checks, the
//! idempotency guard — short-circuiting on the first failure, and only
//! then computes its effects.  The `..._error` spec function of each
//! handler states exactly which error is returned on which inputs; the
//! `..._effects_ok` spec function pins every field of the effects of a
//! successful call.

use crate::addr::{
    Address, addr_eq, auth_seeds, comment_seeds, copy_bytes, counter_seed, counter_seeds,
    derive_comment_address, derive_counter_address, derive_mint_address,
    derive_mint_authority_address, derive_reward_account_address, derive_review_address,
    mint_seed, mint_seeds, pda_of, ata_of, review_seeds, seeds_view, spec_rent_sysvar_id,
    spec_system_program_id, spec_token_program_id, rent_sysvar_id, system_program_id,
    token_program_id, u64_to_be_bytes,
};
use crate::codec::{
    decode_comment, decode_counter, decode_review, encode_comment, encode_counter, encode_review,
    spec_decode_comment, spec_decode_counter, spec_decode_review, spec_encode_comment,
    spec_encode_counter, spec_encode_review,
};
use crate::effects::{
    AccountInput, AddCommentEffects, CreateAccountAction, CreateReviewEffects,
    InitializeMintAction, InitializeMintEffects, MintToAction, ProgramEffects,
    UpdateReviewEffects, wf_accounts,
};
use crate::error::ReviewError;
use crate::instruction::{InstructionView, MovieInstruction, spec_unpack};
use crate::state::{
    COUNTER_RECORD_SIZE, CommentView, CounterView, MovieAccountState, MovieComment,
    MovieCommentCounter, ReviewView, comment_tag, counter_tag, review_tag, spec_comment_size,
    spec_comment_tag, spec_counter_size, spec_counter_tag, spec_review_size, spec_review_tag,
};
use vstd::prelude::*;

verus! {

/// One whole reward token in base units (the mint uses 9 decimals).
pub const TOKEN_BASE_UNITS: u64 = 1_000_000_000;

/// Reward for creating a review: ten whole tokens.
pub const REVIEW_REWARD_AMOUNT: u64 = 10 * 1_000_000_000;

/// Reward for adding a comment: five whole tokens.
pub const COMMENT_REWARD_AMOUNT: u64 = 5 * 1_000_000_000;

/// Byte size of the external token ledger's mint account layout.
pub const MINT_ACCOUNT_SIZE: u64 = 82;

/// Decimal precision of the reward mint.
pub const MINT_DECIMALS: u8 = 9;

/// Capacity of a review record's backing buffer.
pub const REVIEW_CAPACITY: usize = 1000;

/// Whether a buffer already holds an initialized review record.
pub open spec fn review_present(b: Seq<u8>) -> bool {
    match spec_decode_review(b) {
        Some(v) => v.is_initialized,
        None => false,
    }
}

/// Whether a buffer already holds an initialized counter record.
pub open spec fn counter_present(b: Seq<u8>) -> bool {
    match spec_decode_counter(b) {
        Some(v) => v.is_initialized,
        None => false,
    }
}

/// Whether a buffer already holds an initialized comment record.
pub open spec fn comment_present(b: Seq<u8>) -> bool {
    match spec_decode_comment(b) {
        Some(v) => v.is_initialized,
        None => false,
    }
}

/// The review record a successful create-review writes.
pub open spec fn created_review(author: Seq<u8>, rating: u8, title: Seq<u8>, desc: Seq<u8>)
    -> ReviewView {
    ReviewView {
        discriminator: spec_review_tag(),
        is_initialized: true,
        review: author,
        rating,
        title,
        description: desc,
    }
}

/// The counter record a successful create-review writes.
pub open spec fn created_counter() -> CounterView {
    CounterView { discriminator: spec_counter_tag(), is_initialized: true, counter: 0 }
}

/// The error a create-review call returns, or `None` when every check
/// of the validation pipeline passes.  The account list is, in order:
/// author, review record, comment counter, token mint, mint authority,
/// author's reward-token account, system program, token program.
pub open spec fn create_review_error(
    pid: Seq<u8>,
    a: Seq<AccountInput>,
    title: Seq<u8>,
    rating: u8,
    desc: Seq<u8>,
) -> Option<ReviewError> {
    let rp = pda_of(review_seeds(a[0].key@, title), pid);
    if a.len() < 8 {
        Some(ReviewError::NotEnoughAccounts)
    } else if !a[0].is_signer {
        Some(ReviewError::MissingSignature)
    } else if a[1].key@ != rp.0 {
        Some(ReviewError::InvalidDerivedAddress)
    } else if a[2].key@ != pda_of(counter_seeds(rp.0), pid).0 {
        Some(ReviewError::InvalidDerivedAddress)
    } else if rating < 1 || rating > 5 {
        Some(ReviewError::InvalidRating)
    } else if a[3].key@ != pda_of(mint_seeds(), pid).0 {
        Some(ReviewError::IncorrectExternalAccount)
    } else if a[4].key@ != pda_of(auth_seeds(), pid).0 {
        Some(ReviewError::IncorrectExternalAccount)
    } else if a[5].key@ != ata_of(a[0].key@, a[3].key@) {
        Some(ReviewError::IncorrectExternalAccount)
    } else if a[7].key@ != spec_token_program_id() {
        Some(ReviewError::IncorrectExternalAccount)
    } else if spec_review_size(title.len() as int, desc.len() as int) > REVIEW_CAPACITY {
        Some(ReviewError::RecordTooLarge)
    } else if review_present(a[1].data@) {
        Some(ReviewError::AlreadyInitialized)
    } else if counter_present(a[2].data@) {
        Some(ReviewError::AlreadyInitialized)
    } else {
        None
    }
}

/// What a successful create-review call returns: allocate the review
/// record sized exactly as computed at its derived address, write the
/// new review; allocate and write the zeroed counter; mint ten whole
/// tokens to the author's reward-token account under the mint
/// authority's derivation.
pub open spec fn create_review_effects_ok(
    e: CreateReviewEffects,
    pid: Seq<u8>,
    a: Seq<AccountInput>,
    title: Seq<u8>,
    rating: u8,
    desc: Seq<u8>,
) -> bool {
    let rp = pda_of(review_seeds(a[0].key@, title), pid);
    let cp = pda_of(counter_seeds(rp.0), pid);
    let mp = pda_of(mint_seeds(), pid);
    let ap = pda_of(auth_seeds(), pid);
    &&& e.review_account.address@ == rp.0
    &&& e.review_account.bump == rp.1
    &&& e.review_account.space == spec_review_size(title.len() as int, desc.len() as int)
    &&& e.review_account.owner@ == pid
    &&& e.review_account.payer@ == a[0].key@
    &&& seeds_view(e.review_account.seeds@) == review_seeds(a[0].key@, title)
    &&& e.review_data@ == spec_encode_review(created_review(a[0].key@, rating, title, desc))
    &&& e.counter_account.address@ == cp.0
    &&& e.counter_account.bump == cp.1
    &&& e.counter_account.space == spec_counter_size()
    &&& e.counter_account.owner@ == pid
    &&& e.counter_account.payer@ == a[0].key@
    &&& seeds_view(e.counter_account.seeds@) == counter_seeds(rp.0)
    &&& e.counter_data@ == spec_encode_counter(created_counter())
    &&& e.reward.mint@ == mp.0
    &&& e.reward.destination@ == a[5].key@
    &&& e.reward.authority@ == ap.0
    &&& e.reward.authority_bump == ap.1
    &&& e.reward.amount == REVIEW_REWARD_AMOUNT
}

/// Create a review and its comment counter, and reward the author.
///
/// The title may be at most 32 bytes: it doubles as a derivation seed,
/// and the address deriver treats longer seeds as unrecoverable.
pub fn add_movie_review(
    program_id: &Address,
    accounts: &Vec<AccountInput>,
    title: Vec<u8>,
    rating: u8,
    description: Vec<u8>,
) -> (r: Result<CreateReviewEffects, ReviewError>)
    requires
        program_id.wf(),
        wf_accounts(accounts@),
        title@.len() <= 32,
    ensures
        match r {
            Ok(e) => create_review_error(program_id@, accounts@, title@, rating, description@)
                is None && create_review_effects_ok(
                e,
                program_id@,
                accounts@,
                title@,
                rating,
                description@,
            ),
            Err(err) => create_review_error(program_id@, accounts@, title@, rating, description@)
                == Some(err),
        },
{
    if accounts.len() < 8 {
        return Err(ReviewError::NotEnoughAccounts);
    }
    proof {
        assert(accounts@[0].wf());
        assert(accounts@[1].wf());
        assert(accounts@[2].wf());
        assert(accounts@[3].wf());
        assert(accounts@[4].wf());
        assert(accounts@[5].wf());
        assert(accounts@[7].wf());
    }
    let initializer = &accounts[0];
    let pda_account = &accounts[1];
    let pda_counter = &accounts[2];
    let token_mint = &accounts[3];
    let mint_auth = &accounts[4];
    let user_ata = &accounts[5];
    let token_program = &accounts[7];
    if !initializer.is_signer {
        return Err(ReviewError::MissingSignature);
    }
    let (review_pda, review_bump) = derive_review_address(program_id, &initializer.key, &title);
    if !addr_eq(&pda_account.key, &review_pda) {
        return Err(ReviewError::InvalidDerivedAddress);
    }
    let (counter_pda, counter_bump) = derive_counter_address(program_id, &review_pda);
    if !addr_eq(&pda_counter.key, &counter_pda) {
        return Err(ReviewError::InvalidDerivedAddress);
    }
    if rating < 1 || rating > 5 {
        return Err(ReviewError::InvalidRating);
    }
    let (mint_pda, _mint_bump) = derive_mint_address(program_id);
    if !addr_eq(&token_mint.key, &mint_pda) {
        return Err(ReviewError::IncorrectExternalAccount);
    }
    let (auth_pda, auth_bump) = derive_mint_authority_address(program_id);
    if !addr_eq(&mint_auth.key, &auth_pda) {
        return Err(ReviewError::IncorrectExternalAccount);
    }
    let ata = derive_reward_account_address(&initializer.key, &token_mint.key);
    if !addr_eq(&user_ata.key, &ata) {
        return Err(ReviewError::IncorrectExternalAccount);
    }
    let expected_token_program = token_program_id();
    if !addr_eq(&token_program.key, &expected_token_program) {
        return Err(ReviewError::IncorrectExternalAccount);
    }
    if title.len() > REVIEW_CAPACITY || description.len() > REVIEW_CAPACITY || 52 + title.len()
        + description.len() > REVIEW_CAPACITY {
        return Err(ReviewError::RecordTooLarge);
    }
    match decode_review(&pda_account.data) {
        Some(existing) => {
            if existing.is_initialized {
                return Err(ReviewError::AlreadyInitialized);
            }
        },
        None => {},
    }
    match decode_counter(&pda_counter.data) {
        Some(existing) => {
            if existing.is_initialized {
                return Err(ReviewError::AlreadyInitialized);
            }
        },
        None => {},
    }
    let size = MovieAccountState::get_account_size(&title, &description);
    let review_state = MovieAccountState {
        discriminator: review_tag(),
        is_initialized: true,
        review: initializer.key.dup(),
        rating,
        title: copy_bytes(&title),
        description: copy_bytes(&description),
    };
    let review_data = encode_review(&review_state);
    let counter_state = MovieCommentCounter {
        discriminator: counter_tag(),
        is_initialized: true,
        counter: 0,
    };
    let counter_data = encode_counter(&counter_state);
    let mut review_seed_list: Vec<Vec<u8>> = Vec::new();
    review_seed_list.push(initializer.key.dup().bytes);
    review_seed_list.push(title);
    let mut counter_seed_list: Vec<Vec<u8>> = Vec::new();
    counter_seed_list.push(review_pda.dup().bytes);
    counter_seed_list.push(counter_seed());
    proof {
        assert(seeds_view(review_seed_list@) =~~= review_seeds(accounts@[0].key@, title@));
        assert(seeds_view(counter_seed_list@) =~~= counter_seeds(review_pda@));
        assert(review_state@ == created_review(accounts@[0].key@, rating, title@, description@));
        assert(counter_state@ == created_counter());
    }
    Ok(
        CreateReviewEffects {
            review_account: CreateAccountAction {
                address: review_pda,
                space: size as u64,
                owner: program_id.dup(),
                payer: initializer.key.dup(),
                seeds: review_seed_list,
                bump: review_bump,
            },
            review_data,
            counter_account: CreateAccountAction {
                address: counter_pda,
                space: COUNTER_RECORD_SIZE as u64,
                owner: program_id.dup(),
                payer: initializer.key.dup(),
                seeds: counter_seed_list,
                bump: counter_bump,
            },
            counter_data,
            reward: MintToAction {
                mint: mint_pda,
                destination: ata,
                authority: auth_pda,
                authority_bump: auth_bump,
                amount: REVIEW_REWARD_AMOUNT,
            },
        },
    )
}

/// The error an add-comment call returns, or `None` when every check
/// passes.  The account list is, in order: commenter, review record,
/// comment counter, comment record, token mint, mint authority,
/// commenter's reward-token account, system program, token program.
pub open spec fn add_comment_error(pid: Seq<u8>, a: Seq<AccountInput>, comment: Seq<u8>)
    -> Option<ReviewError> {
    if a.len() < 9 {
        Some(ReviewError::NotEnoughAccounts)
    } else if !a[0].is_signer {
        Some(ReviewError::MissingSignature)
    } else {
        match spec_decode_counter(a[2].data@) {
            None => Some(ReviewError::UninitializedAccount),
            Some(c) => {
                if a[3].key@ != pda_of(comment_seeds(a[1].key@, c.counter), pid).0 {
                    Some(ReviewError::InvalidDerivedAddress)
                } else if a[4].key@ != pda_of(mint_seeds(), pid).0 {
                    Some(ReviewError::IncorrectExternalAccount)
                } else if a[5].key@ != pda_of(auth_seeds(), pid).0 {
                    Some(ReviewError::IncorrectExternalAccount)
                } else if a[6].key@ != ata_of(a[0].key@, a[4].key@) {
                    Some(ReviewError::IncorrectExternalAccount)
                } else if a[8].key@ != spec_token_program_id() {
                    Some(ReviewError::IncorrectExternalAccount)
                } else if comment_present(a[3].data@) {
                    Some(ReviewError::AlreadyInitialized)
                } else {
                    None
                }
            },
        }
    }
}

/// The comment record a successful add-comment writes at sequence
/// index `count`.
pub open spec fn created_comment(review: Seq<u8>, commenter: Seq<u8>, comment: Seq<u8>, count: u64)
    -> CommentView {
    CommentView {
        discriminator: spec_comment_tag(),
        is_initialized: true,
        review,
        commenter,
        comment,
        count,
    }
}

/// What a successful add-comment call returns: allocate the comment
/// record at the address derived from the pre-increment counter value,
/// write the comment carrying that sequence index, overwrite the
/// counter incremented by exactly one, and mint five whole tokens to
/// the commenter's reward-token account.
pub open spec fn add_comment_effects_ok(
    e: AddCommentEffects,
    pid: Seq<u8>,
    a: Seq<AccountInput>,
    comment: Seq<u8>,
) -> bool {
    match spec_decode_counter(a[2].data@) {
        None => false,
        Some(c) => {
            let cp = pda_of(comment_seeds(a[1].key@, c.counter), pid);
            let mp = pda_of(mint_seeds(), pid);
            let ap = pda_of(auth_seeds(), pid);
            &&& e.comment_account.address@ == cp.0
            &&& e.comment_account.bump == cp.1
            &&& e.comment_account.space == spec_comment_size(comment.len() as int)
            &&& e.comment_account.owner@ == pid
            &&& e.comment_account.payer@ == a[0].key@
            &&& seeds_view(e.comment_account.seeds@) == comment_seeds(a[1].key@, c.counter)
            &&& e.comment_data@ == spec_encode_comment(
                created_comment(a[1].key@, a[0].key@, comment, c.counter),
            )
            &&& c.counter < u64::MAX
            &&& e.counter_data@ == spec_encode_counter(
                CounterView {
                    discriminator: c.discriminator,
                    is_initialized: c.is_initialized,
                    counter: (c.counter + 1) as u64,
                },
            )
            &&& e.reward.mint@ == mp.0
            &&& e.reward.destination@ == a[6].key@
            &&& e.reward.authority@ == ap.0
            &&& e.reward.authority_bump == ap.1
            &&& e.reward.amount == COMMENT_REWARD_AMOUNT
        },
    }
}

/// Add a comment to a review at the counter's current sequence index,
/// increment the counter, and reward the commenter.
///
/// The comment must fit the record format's 4-byte length prefix, and
/// a counter at the maximum machine value cannot be incremented; both
/// bounds are machine limits, not domain rules.
pub fn add_comment(program_id: &Address, accounts: &Vec<AccountInput>, comment: Vec<u8>) -> (r:
    Result<AddCommentEffects, ReviewError>)
    requires
        program_id.wf(),
        wf_accounts(accounts@),
        comment@.len() <= u32::MAX,
        88 + comment@.len() <= usize::MAX,
        accounts@.len() >= 9 ==> match spec_decode_counter(accounts@[2].data@) {
            Some(c) => c.counter < u64::MAX,
            None => true,
        },
    ensures
        match r {
            Ok(e) => add_comment_error(program_id@, accounts@, comment@) is None
                && add_comment_effects_ok(e, program_id@, accounts@, comment@),
            Err(err) => add_comment_error(program_id@, accounts@, comment@) == Some(err),
        },
{
    if accounts.len() < 9 {
        return Err(ReviewError::NotEnoughAccounts);
    }
    proof {
        assert(accounts@[0].wf());
        assert(accounts@[1].wf());
        assert(accounts@[2].wf());
        assert(accounts@[3].wf());
        assert(accounts@[4].wf());
        assert(accounts@[5].wf());
        assert(accounts@[6].wf());
        assert(accounts@[8].wf());
    }
    let commenter = &accounts[0];
    let pda_review = &accounts[1];
    let pda_counter = &accounts[2];
    let pda_comment = &accounts[3];
    let token_mint = &accounts[4];
    let mint_auth = &accounts[5];
    let user_ata = &accounts[6];
    let token_program = &accounts[8];
    if !commenter.is_signer {
        return Err(ReviewError::MissingSignature);
    }
    let counter_state = match decode_counter(&pda_counter.data) {
        Some(c) => c,
        None => {
            return Err(ReviewError::UninitializedAccount);
        },
    };
    let (comment_pda, comment_bump) = derive_comment_address(
        program_id,
        &pda_review.key,
        counter_state.counter,
    );
    if !addr_eq(&pda_comment.key, &comment_pda) {
        return Err(ReviewError::InvalidDerivedAddress);
    }
    let (mint_pda, _mint_bump) = derive_mint_address(program_id);
    if !addr_eq(&token_mint.key, &mint_pda) {
        return Err(ReviewError::IncorrectExternalAccount);
    }
    let (auth_pda, auth_bump) = derive_mint_authority_address(program_id);
    if !addr_eq(&mint_auth.key, &auth_pda) {
        return Err(ReviewError::IncorrectExternalAccount);
    }
    let ata = derive_reward_account_address(&commenter.key, &token_mint.key);
    if !addr_eq(&user_ata.key, &ata) {
        return Err(ReviewError::IncorrectExternalAccount);
    }
    let expected_token_program = token_program_id();
    if !addr_eq(&token_program.key, &expected_token_program) {
        return Err(ReviewError::IncorrectExternalAccount);
    }
    match decode_comment(&pda_comment.data) {
        Some(existing) => {
            if existing.is_initialized {
                return Err(ReviewError::AlreadyInitialized);
            }
        },
        None => {},
    }
    let size = MovieComment::get_account_size(&comment);
    let comment_state = MovieComment {
        discriminator: comment_tag(),
        is_initialized: true,
        review: pda_review.key.dup(),
        commenter: commenter.key.dup(),
        comment: copy_bytes(&comment),
        count: counter_state.counter,
    };
    let comment_data = encode_comment(&comment_state);
    let new_counter_state = MovieCommentCounter {
        discriminator: counter_state.discriminator,
        is_initialized: counter_state.is_initialized,
        counter: counter_state.counter + 1,
    };
    let counter_data = encode_counter(&new_counter_state);
    let mut comment_seed_list: Vec<Vec<u8>> = Vec::new();
    comment_seed_list.push(pda_review.key.dup().bytes);
    comment_seed_list.push(u64_to_be_bytes(counter_state.counter));
    proof {
        assert(seeds_view(comment_seed_list@) =~~= comment_seeds(
            accounts@[1].key@,
            counter_state.counter,
        ));
        assert(comment_state@ == created_comment(
            accounts@[1].key@,
            accounts@[0].key@,
            comment@,
            counter_state.counter,
        ));
    }
    Ok(
        AddCommentEffects {
            comment_account: CreateAccountAction {
                address: comment_pda,
                space: size as u64,
                owner: program_id.dup(),
                payer: commenter.key.dup(),
                seeds: comment_seed_list,
                bump: comment_bump,
            },
            comment_data,
            counter_data,
            reward: MintToAction {
                mint: mint_pda,
                destination: ata,
                authority: auth_pda,
                authority_bump: auth_bump,
                amount: COMMENT_REWARD_AMOUNT,
            },
        },
    )
}

/// The error an update-review call returns, or `None` when every
/// check passes.  The account list is, in order: author, review
/// record.  The target's address is re-derived from the record's own
/// stored title, so only the original author addressing the original
/// record passes.
pub open spec fn update_review_error(pid: Seq<u8>, a: Seq<AccountInput>, rating: u8, desc: Seq<u8>)
    -> Option<ReviewError> {
    if a.len() < 2 {
        Some(ReviewError::NotEnoughAccounts)
    } else if a[1].owner@ != pid {
        Some(ReviewError::IllegalOwner)
    } else if !a[0].is_signer {
        Some(ReviewError::MissingSignature)
    } else {
        match spec_decode_review(a[1].data@) {
            None => Some(ReviewError::UninitializedAccount),
            Some(v) => {
                if a[1].key@ != pda_of(review_seeds(a[0].key@, v.title), pid).0 {
                    Some(ReviewError::InvalidDerivedAddress)
                } else if !v.is_initialized {
                    Some(ReviewError::UninitializedAccount)
                } else if rating < 1 || rating > 5 {
                    Some(ReviewError::InvalidRating)
                } else if spec_review_size(v.title.len() as int, desc.len() as int)
                    > REVIEW_CAPACITY {
                    Some(ReviewError::RecordTooLarge)
                } else {
                    None
                }
            },
        }
    }
}

/// What a successful update-review call returns: the stored record
/// re-serialized with only the rating and description replaced; the
/// discriminator, initialized flag, author and title are preserved
/// unchanged, and no storage is allocated.
pub open spec fn update_review_effects_ok(
    e: UpdateReviewEffects,
    pid: Seq<u8>,
    a: Seq<AccountInput>,
    rating: u8,
    desc: Seq<u8>,
) -> bool {
    match spec_decode_review(a[1].data@) {
        None => false,
        Some(v) => e.review_data@ == spec_encode_review(
            ReviewView {
                discriminator: v.discriminator,
                is_initialized: v.is_initialized,
                review: v.review,
                rating,
                title: v.title,
                description: desc,
            },
        ),
    }
}

/// Update a review's rating and description in place.
///
/// The title argument of the wire format is accepted but ignored: the
/// address check re-derives from the stored title, which is immutable.
pub fn update_movie_review(
    program_id: &Address,
    accounts: &Vec<AccountInput>,
    _title: Vec<u8>,
    rating: u8,
    description: Vec<u8>,
) -> (r: Result<UpdateReviewEffects, ReviewError>)
    requires
        program_id.wf(),
        wf_accounts(accounts@),
        accounts@.len() >= 2 ==> match spec_decode_review(accounts@[1].data@) {
            Some(v) => v.title.len() <= 32,
            None => true,
        },
    ensures
        match r {
            Ok(e) => update_review_error(program_id@, accounts@, rating, description@) is None
                && update_review_effects_ok(e, program_id@, accounts@, rating, description@),
            Err(err) => update_review_error(program_id@, accounts@, rating, description@)
                == Some(err),
        },
{
    if accounts.len() < 2 {
        return Err(ReviewError::NotEnoughAccounts);
    }
    proof {
        assert(accounts@[0].wf());
        assert(accounts@[1].wf());
    }
    let initializer = &accounts[0];
    let pda_account = &accounts[1];
    if !addr_eq(&pda_account.owner, program_id) {
        return Err(ReviewError::IllegalOwner);
    }
    if !initializer.is_signer {
        return Err(ReviewError::MissingSignature);
    }
    let state = match decode_review(&pda_account.data) {
        Some(s) => s,
        None => {
            return Err(ReviewError::UninitializedAccount);
        },
    };
    let (review_pda, _bump) = derive_review_address(program_id, &initializer.key, &state.title);
    if !addr_eq(&pda_account.key, &review_pda) {
        return Err(ReviewError::InvalidDerivedAddress);
    }
    if !state.is_initialized {
        return Err(ReviewError::UninitializedAccount);
    }
    if rating < 1 || rating > 5 {
        return Err(ReviewError::InvalidRating);
    }
    if state.title.len() > REVIEW_CAPACITY || description.len() > REVIEW_CAPACITY || 52
        + state.title.len() + description.len() > REVIEW_CAPACITY {
        return Err(ReviewError::RecordTooLarge);
    }
    let new_state = MovieAccountState {
        discriminator: state.discriminator,
        is_initialized: state.is_initialized,
        review: state.review,
        rating,
        title: state.title,
        description,
    };
    let review_data = encode_review(&new_state);
    Ok(UpdateReviewEffects { review_data })
}

/// The error an initialize-mint call returns, or `None` when every
/// check passes.  The account list is, in order: initializer, token
/// mint, mint authority, system program, token program, rent sysvar.
pub open spec fn initialize_mint_error(pid: Seq<u8>, a: Seq<AccountInput>) -> Option<ReviewError> {
    if a.len() < 6 {
        Some(ReviewError::NotEnoughAccounts)
    } else if !a[0].is_signer {
        Some(ReviewError::MissingSignature)
    } else if a[1].key@ != pda_of(mint_seeds(), pid).0 {
        Some(ReviewError::IncorrectExternalAccount)
    } else if a[4].key@ != spec_token_program_id() {
        Some(ReviewError::IncorrectExternalAccount)
    } else if a[2].key@ != pda_of(auth_seeds(), pid).0 {
        Some(ReviewError::IncorrectExternalAccount)
    } else if a[3].key@ != spec_system_program_id() {
        Some(ReviewError::IncorrectExternalAccount)
    } else if a[5].key@ != spec_rent_sysvar_id() {
        Some(ReviewError::IncorrectExternalAccount)
    } else if a[1].data@.len() > 0 {
        Some(ReviewError::AlreadyInitialized)
    } else {
        None
    }
}

/// What a successful initialize-mint call returns: allocate the fixed
/// 82-byte mint account at the mint's literal-seed derivation, owned
/// by the external token ledger, then initialize it with 9 decimals
/// and the mint authority's derived identity.
pub open spec fn initialize_mint_effects_ok(
    e: InitializeMintEffects,
    pid: Seq<u8>,
    a: Seq<AccountInput>,
) -> bool {
    let mp = pda_of(mint_seeds(), pid);
    let ap = pda_of(auth_seeds(), pid);
    &&& e.mint_account.address@ == mp.0
    &&& e.mint_account.bump == mp.1
    &&& e.mint_account.space == MINT_ACCOUNT_SIZE
    &&& e.mint_account.owner@ == spec_token_program_id()
    &&& e.mint_account.payer@ == a[0].key@
    &&& seeds_view(e.mint_account.seeds@) == mint_seeds()
    &&& e.init.mint@ == mp.0
    &&& e.init.authority@ == ap.0
    &&& e.init.decimals == MINT_DECIMALS
    &&& e.init.mint_bump == mp.1
}

/// One-time setup of the singleton reward mint and its authority.
///
/// A second invocation finds storage already backing the derived mint
/// address and is rejected before any effect.
pub fn initialize_token_mint(program_id: &Address, accounts: &Vec<AccountInput>) -> (r: Result<
    InitializeMintEffects,
    ReviewError,
>)
    requires
        program_id.wf(),
        wf_accounts(accounts@),
    ensures
        match r {
            Ok(e) => initialize_mint_error(program_id@, accounts@) is None
                && initialize_mint_effects_ok(e, program_id@, accounts@),
            Err(err) => initialize_mint_error(program_id@, accounts@) == Some(err),
        },
{
    if accounts.len() < 6 {
        return Err(ReviewError::NotEnoughAccounts);
    }
    proof {
        assert(accounts@[0].wf());
        assert(accounts@[1].wf());
        assert(accounts@[2].wf());
        assert(accounts@[3].wf());
        assert(accounts@[4].wf());
        assert(accounts@[5].wf());
    }
    let initializer = &accounts[0];
    let token_mint = &accounts[1];
    let mint_auth = &accounts[2];
    let system_program = &accounts[3];
    let token_program = &accounts[4];
    let sysvar_rent = &accounts[5];
    if !initializer.is_signer {
        return Err(ReviewError::MissingSignature);
    }
    let (mint_pda, mint_bump) = derive_mint_address(program_id);
    if !addr_eq(&token_mint.key, &mint_pda) {
        return Err(ReviewError::IncorrectExternalAccount);
    }
    let expected_token_program = token_program_id();
    if !addr_eq(&token_program.key, &expected_token_program) {
        return Err(ReviewError::IncorrectExternalAccount);
    }
    let (auth_pda, _auth_bump) = derive_mint_authority_address(program_id);
    if !addr_eq(&mint_auth.key, &auth_pda) {
        return Err(ReviewError::IncorrectExternalAccount);
    }
    let expected_system_program = system_program_id();
    if !addr_eq(&system_program.key, &expected_system_program) {
        return Err(ReviewError::IncorrectExternalAccount);
    }
    let expected_rent = rent_sysvar_id();
    if !addr_eq(&sysvar_rent.key, &expected_rent) {
        return Err(ReviewError::IncorrectExternalAccount);
    }
    if token_mint.data.len() > 0 {
        return Err(ReviewError::AlreadyInitialized);
    }
    let mut mint_seed_list: Vec<Vec<u8>> = Vec::new();
    mint_seed_list.push(mint_seed());
    proof {
        assert(seeds_view(mint_seed_list@) =~~= mint_seeds());
    }
    Ok(
        InitializeMintEffects {
            mint_account: CreateAccountAction {
                address: mint_pda.dup(),
                space: MINT_ACCOUNT_SIZE,
                owner: expected_token_program,
                payer: initializer.key.dup(),
                seeds: mint_seed_list,
                bump: mint_bump,
            },
            init: InitializeMintAction {
                mint: mint_pda,
                authority: auth_pda,
                decimals: MINT_DECIMALS,
                mint_bump,
            },
        },
    )
}

/// The error a whole instruction returns, or `None` when it parses
/// and its handler's validation pipeline passes.
pub open spec fn instruction_error(pid: Seq<u8>, a: Seq<AccountInput>, data: Seq<u8>)
    -> Option<ReviewError> {
    match spec_unpack(data) {
        None => Some(ReviewError::InvalidInstruction),
        Some(InstructionView::AddMovieReview { title, rating, description }) =>
            create_review_error(pid, a, title, rating, description),
        Some(InstructionView::UpdateMovieReview { title: _, rating, description }) =>
            update_review_error(pid, a, rating, description),
        Some(InstructionView::AddComment { comment }) => add_comment_error(pid, a, comment),
        Some(InstructionView::InitializeMint) => initialize_mint_error(pid, a),
    }
}

/// What a successful instruction returns: the dispatched handler's
/// effects, exactly as that handler's effects predicate states them.
pub open spec fn instruction_effects_ok(
    e: ProgramEffects,
    pid: Seq<u8>,
    a: Seq<AccountInput>,
    data: Seq<u8>,
) -> bool {
    match spec_unpack(data) {
        None => false,
        Some(InstructionView::AddMovieReview { title, rating, description }) => match e {
            ProgramEffects::Review(ef) => create_review_effects_ok(
                ef,
                pid,
                a,
                title,
                rating,
                description,
            ),
            _ => false,
        },
        Some(InstructionView::UpdateMovieReview { title: _, rating, description }) => match e {
            ProgramEffects::Update(ef) => update_review_effects_ok(ef, pid, a, rating, description),
            _ => false,
        },
        Some(InstructionView::AddComment { comment }) => match e {
            ProgramEffects::Comment(ef) => add_comment_effects_ok(ef, pid, a, comment),
            _ => false,
        },
        Some(InstructionView::InitializeMint) => match e {
            ProgramEffects::Mint(ef) => initialize_mint_effects_ok(ef, pid, a),
            _ => false,
        },
    }
}

/// The machine limits each dispatched handler needs of its inputs: a
/// title used as a derivation seed fits 32 bytes, a comment fits the
/// record format, and the counter can still be incremented.
pub open spec fn instruction_requires(a: Seq<AccountInput>, data: Seq<u8>) -> bool {
    match spec_unpack(data) {
        Some(InstructionView::AddMovieReview { title, .. }) => title.len() <= 32,
        Some(InstructionView::UpdateMovieReview { .. }) => a.len() >= 2
            ==> match spec_decode_review(a[1].data@) {
            Some(v) => v.title.len() <= 32,
            None => true,
        },
        Some(InstructionView::AddComment { comment }) => comment.len() <= u32::MAX && 88
            + comment.len() <= usize::MAX && (a.len() >= 9 ==> match spec_decode_counter(
            a[2].data@,
        ) {
            Some(c) => c.counter < u64::MAX,
            None => true,
        }),
        _ => true,
    }
}

/// Parse one instruction and run its handler over the account list.
pub fn process_instruction(
    program_id: &Address,
    accounts: &Vec<AccountInput>,
    instruction_data: &Vec<u8>,
) -> (r: Result<ProgramEffects, ReviewError>)
    requires
        program_id.wf(),
        wf_accounts(accounts@),
        instruction_requires(accounts@, instruction_data@),
    ensures
        match r {
            Ok(e) => instruction_error(program_id@, accounts@, instruction_data@) is None
                && instruction_effects_ok(e, program_id@, accounts@, instruction_data@),
            Err(err) => instruction_error(program_id@, accounts@, instruction_data@) == Some(err),
        },
{
    let parsed = match MovieInstruction::unpack(instruction_data) {
        Ok(i) => i,
        Err(e) => {
            return Err(e);
        },
    };
    match parsed {
        MovieInstruction::AddMovieReview { title, rating, description } => {
            match add_movie_review(program_id, accounts, title, rating, description) {
                Ok(e) => Ok(ProgramEffects::Review(e)),
                Err(err) => Err(err),
            }
        },
        MovieInstruction::UpdateMovieReview { title, rating, description } => {
            match update_movie_review(program_id, accounts, title, rating, description) {
                Ok(e) => Ok(ProgramEffects::Update(e)),
                Err(err) => Err(err),
            }
        },
        MovieInstruction::AddComment { comment } => {
            match add_comment(program_id, accounts, comment) {
                Ok(e) => Ok(ProgramEffects::Comment(e)),
                Err(err) => Err(err),
            }
        },
        MovieInstruction::InitializeMint => {
            match initialize_token_mint(program_id, accounts) {
                Ok(e) => Ok(ProgramEffects::Mint(e)),
                Err(err) => Err(err),
            }
        },
    }
}

} // verus!
