//! A verified on-chain review/comment ledger core.
//!
//! The library is the pure state-transition engine of a small review
//! program: deterministic address derivation, a binary record codec,
//! a per-instruction validation pipeline and the four instruction
//! handlers.  Each handler takes the caller-supplied account snapshots
//! as plain values and returns either the exact effects the host must
//! apply (storage to allocate, record bytes to write, tokens to mint)
//! or the error that aborts the whole operation.

pub mod addr;
pub mod codec;
pub mod effects;
pub mod error;
pub mod instruction;
pub mod laws;
pub mod processor;
pub mod state;
