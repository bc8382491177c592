use vstd::prelude::*;

verus! {

/// Outcome taxonomy of the instruction handlers.  Every failure of the
/// validation pipeline is reported as one of these variants; the host is
/// expected to discard all effects of the operation on any error.
#[derive(Clone, Copy, Debug, PartialEq, Eq, Structural)]
pub enum ReviewError {
    /// The account list was shorter than the handler's fixed account layout.
    NotEnoughAccounts,
    /// The instruction byte payload did not parse as any known operation.
    InvalidInstruction,
    /// The acting party did not sign the operation.
    MissingSignature,
    /// A record account was not at the address derived from its seed tuple.
    InvalidDerivedAddress,
    /// An account that must already be owned by this program is not.
    IllegalOwner,
    /// The rating was outside the accepted 1..=5 range.
    InvalidRating,
    /// The serialized record would not fit its backing buffer.
    RecordTooLarge,
    /// A creation handler targeted a record that is already initialized,
    /// or storage already exists at the target address.
    AlreadyInitialized,
    /// A mutation handler targeted a record that was never initialized.
    UninitializedAccount,
    /// A supplied mint, mint-authority, token-account, token-program,
    /// system-program or rent-sysvar identity did not match expectation.
    IncorrectExternalAccount,
}

} // verus!
