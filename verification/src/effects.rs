//! Inputs handed to the handlers and the effects they return.
//!
//! A handler never touches the host environment itself: it receives a
//! snapshot of each account in the operation's fixed positional list
//! and, when every check passes, describes exactly what the host must
//! do — which backing storage to allocate under which seed-based
//! signing authority, which record bytes to write, and which reward to
//! mint.  On any error nothing is returned and nothing may be applied.

use crate::addr::Address;
use vstd::prelude::*;

verus! {

/// Snapshot of one caller-supplied account: its address, whether its
/// holder signed the operation, its owning program, and its current
/// contents (empty when no storage is allocated yet).
#[derive(Clone, Debug)]
pub struct AccountInput {
    pub key: Address,
    pub is_signer: bool,
    pub owner: Address,
    pub data: Vec<u8>,
}

impl AccountInput {
    /// A well-formed snapshot carries 32-byte identities.
    pub open spec fn wf(&self) -> bool {
        self.key@.len() == 32 && self.owner@.len() == 32
    }
}

/// Every account in the list is well formed.
pub open spec fn wf_accounts(a: Seq<AccountInput>) -> bool {
    forall|i: int| 0 <= i < a.len() ==> #[trigger] a[i].wf()
}

/// Allocate rent-funded backing storage of exactly `space` bytes at a
/// derived address, owned by `owner`, paid by `payer`, authorized by
/// signing with `seeds` plus the bump byte.
#[derive(Debug)]
pub struct CreateAccountAction {
    pub address: Address,
    pub space: u64,
    pub owner: Address,
    pub payer: Address,
    pub seeds: Vec<Vec<u8>>,
    pub bump: u8,
}

/// Mint `amount` base units of the reward token to `destination`,
/// authorized by the mint authority's seed derivation and bump.
#[derive(Debug)]
pub struct MintToAction {
    pub mint: Address,
    pub destination: Address,
    pub authority: Address,
    pub authority_bump: u8,
    pub amount: u64,
}

/// Initialize the singleton mint with the given decimal precision and
/// no freeze authority (freezing is permanently disabled by design).
#[derive(Debug)]
pub struct InitializeMintAction {
    pub mint: Address,
    pub authority: Address,
    pub decimals: u8,
    pub mint_bump: u8,
}

/// Effects of a successful create-review operation, in order: allocate
/// and write the review record, allocate and write its comment
/// counter, then mint the author's reward.
#[derive(Debug)]
pub struct CreateReviewEffects {
    pub review_account: CreateAccountAction,
    pub review_data: Vec<u8>,
    pub counter_account: CreateAccountAction,
    pub counter_data: Vec<u8>,
    pub reward: MintToAction,
}

/// Effects of a successful update-review operation: overwrite the
/// review record in place.  No storage is allocated and no reward is
/// minted.
#[derive(Debug)]
pub struct UpdateReviewEffects {
    pub review_data: Vec<u8>,
}

/// Effects of a successful add-comment operation, in order: allocate
/// and write the comment record, overwrite the counter record with the
/// incremented count, then mint the commenter's reward.
#[derive(Debug)]
pub struct AddCommentEffects {
    pub comment_account: CreateAccountAction,
    pub comment_data: Vec<u8>,
    pub counter_data: Vec<u8>,
    pub reward: MintToAction,
}

/// Effects of a successful initialize-mint operation, in order:
/// allocate the mint's backing storage under the external token
/// ledger's ownership, then initialize the mint.
#[derive(Debug)]
pub struct InitializeMintEffects {
    pub mint_account: CreateAccountAction,
    pub init: InitializeMintAction,
}

/// Effects of whichever operation an instruction selected.
#[derive(Debug)]
pub enum ProgramEffects {
    Review(CreateReviewEffects),
    Update(UpdateReviewEffects),
    Comment(AddCommentEffects),
    Mint(InitializeMintEffects),
}

} // verus!
