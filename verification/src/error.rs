//! The error taxonomy of the escrow core.
//!
//! Every operation aborts with one of these kinds and no partial state
//! change; the caller receives the specific kind, and no operation silently
//! succeeds partially.

use vstd::prelude::*;

verus! {

/// Why an escrow operation was refused.
#[derive(Clone, Copy, Debug, PartialEq, Eq, Structural)]
pub enum EscrowError {
    /// The acting party has not proven control of its claimed identity.
    Unauthorized,
    /// Initialize was called on a record that is already initialized.
    AlreadyInitialized,
    /// The record's taker is already set: funds have left the vault.
    AlreadyCompleted,
    /// Complete or refund was called on a record that was never initialized.
    NotInitialized,
    /// The claimed maker does not match the maker stored in the record.
    RecordMismatch,
    /// The escrow record does not hold enough value to remain stored.
    StorageInsolvent,
    /// The record bytes are malformed or undersized.
    CorruptRecord,
    /// The opcode is unknown or the payload is malformed.
    InvalidInstruction,
    /// The token gateway reported that the requested transfer failed.
    TransferFailed,
}

} // verus!
