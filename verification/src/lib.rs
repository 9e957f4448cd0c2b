//! An on-chain escrow core: a maker locks a quantity of fungible tokens in a
//! vault, to be released either to a taker on completion or back to the maker
//! on refund.
//!
//! This crate holds the instruction-processing logic alone: state
//! initialization, authorization checks, the fixed-layout record codec, and
//! the sequencing rules that guarantee funds move exactly once and only under
//! valid conditions.  The surrounding ledger runtime — signature
//! verification, rent accounting, and the atomic token-transfer primitive —
//! is an external collaborator: callers hand its verdicts in as plain values
//! (the proof set of signers, a rent-solvency flag) and carry the issued
//! transfer requests out.

pub mod auth;
pub mod basic;
pub mod codec;
pub mod error;
pub mod hello;
pub mod laws;
pub mod machine;
pub mod state;

pub use basic::create_escrow;
pub use basic::release_escrow;
pub use basic::CreateEscrow;
pub use basic::EscrowAccount;
pub use basic::ReleaseEscrow;
pub use error::EscrowError;
pub use hello::HelloSolana;
pub use machine::process_instruction;
pub use state::Escrow;
