//! The escrow state machine and instruction dispatcher.
//!
//! Each operation takes the call's proof set (the identities whose control
//! the external runtime verified), the escrow record's bytes, and the
//! identities named by the call.  An operation either mutates the record
//! and/or issues a [`TokenTransfer`] request, or fails with a specific
//! [`EscrowError`] and leaves the record byte-for-byte unchanged.  The
//! external runtime makes each call atomic: the record write and the
//! requested transfer commit together or not at all.
//!
//! Per record the machine passes through three states: uninitialized,
//! initialized, and settled (taker set).  Initialization runs once;
//! completion and refund each move the record from initialized to settled,
//! so the escrowed amount leaves the vault exactly once, through exactly one
//! of the two.  To make a refund terminal within the record layout, a
//! refunded record stores the maker as its taker; this strengthens the
//! sequencing so that no funds can move twice.

use vstd::prelude::*;

use crate::auth::is_proven;
use crate::auth::spec_proven;
use crate::codec::deserialize_escrow;
use crate::codec::serialize_escrow;
use crate::codec::spec_deserialize;
use crate::codec::spec_serialize;
use crate::codec::wf_bytes;
use crate::error::EscrowError;
use crate::state::Escrow;
use crate::state::EscrowModel;
use crate::state::Pubkey;
use crate::state::TokenTransfer;
use crate::state::TransferModel;

verus! {

/// One decoded call: a tagged union with one variant per operation.
#[derive(Clone, Copy, Debug, PartialEq, Eq, Structural)]
pub enum EscrowInstruction {
    /// Opcode 0: initialize the escrow record with the given amount.
    InitEscrow { amount: u64 },
    /// Opcode 1: move the given amount from the maker into the vault.
    Deposit { amount: u64 },
    /// Opcode 2: settle to the taker.
    CompleteEscrow,
    /// Opcode 3: settle back to the maker.
    Refund,
}

/// What [`parse_instruction`] returns: byte 0 is the opcode; opcodes 0 and 1
/// carry a little-endian amount in bytes 1..9.
pub open spec fn spec_parse(data: Seq<u8>) -> Result<EscrowInstruction, EscrowError> {
    if data.len() == 0 {
        Err(EscrowError::InvalidInstruction)
    } else if data[0] == 0 {
        if data.len() >= 9 {
            Ok(
                EscrowInstruction::InitEscrow {
                    amount: vstd::bytes::spec_u64_from_le_bytes(data.subrange(1, 9)),
                },
            )
        } else {
            Err(EscrowError::InvalidInstruction)
        }
    } else if data[0] == 1 {
        if data.len() >= 9 {
            Ok(
                EscrowInstruction::Deposit {
                    amount: vstd::bytes::spec_u64_from_le_bytes(data.subrange(1, 9)),
                },
            )
        } else {
            Err(EscrowError::InvalidInstruction)
        }
    } else if data[0] == 2 {
        Ok(EscrowInstruction::CompleteEscrow)
    } else if data[0] == 3 {
        Ok(EscrowInstruction::Refund)
    } else {
        Err(EscrowError::InvalidInstruction)
    }
}

/// Decodes a call payload once at the boundary.  An unknown opcode or a
/// payload too short for its opcode fails with `InvalidInstruction`.
pub fn parse_instruction(data: &Vec<u8>) -> (r: Result<EscrowInstruction, EscrowError>)
    ensures
        r == spec_parse(data@),
{
    if data.len() == 0 {
        return Err(EscrowError::InvalidInstruction);
    }
    let opcode = data[0];
    if opcode == 0 || opcode == 1 {
        if data.len() < 9 {
            return Err(EscrowError::InvalidInstruction);
        }
        let amount = vstd::bytes::u64_from_le_bytes(
            vstd::slice::slice_subrange(data.as_slice(), 1, 9),
        );
        if opcode == 0 {
            Ok(EscrowInstruction::InitEscrow { amount })
        } else {
            Ok(EscrowInstruction::Deposit { amount })
        }
    } else if opcode == 2 {
        Ok(EscrowInstruction::CompleteEscrow)
    } else if opcode == 3 {
        Ok(EscrowInstruction::Refund)
    } else {
        Err(EscrowError::InvalidInstruction)
    }
}

/// The outcome of initialization: the new record bytes, or the exact error.
pub open spec fn spec_initialize(
    maker: Seq<u8>,
    vault: Seq<u8>,
    record: Seq<u8>,
    amount: u64,
    signers: Seq<Pubkey>,
    rent_solvent: bool,
) -> Result<Seq<u8>, EscrowError> {
    if !rent_solvent {
        Err(EscrowError::StorageInsolvent)
    } else if !spec_proven(maker, signers) {
        Err(EscrowError::Unauthorized)
    } else if !wf_bytes(record) {
        Err(EscrowError::CorruptRecord)
    } else if spec_deserialize(record).is_initialized {
        Err(EscrowError::AlreadyInitialized)
    } else {
        Ok(
            spec_serialize(
                EscrowModel {
                    is_initialized: true,
                    maker: maker,
                    taker: None,
                    vault: vault,
                    amount: amount,
                },
            ),
        )
    }
}

/// Initialize(maker, vault, escrowRecord, amount): writes the initialized
/// record.  Fails with `StorageInsolvent` when the record is not
/// rent-solvent, `Unauthorized` when the maker has not proven its identity,
/// `CorruptRecord` when the record bytes are malformed, and
/// `AlreadyInitialized` when the record was initialized before.  On failure
/// the record is unchanged; token movement into the vault is a separate
/// operation.
pub fn initialize_escrow(
    maker: &Pubkey,
    vault: &Pubkey,
    record: &mut Vec<u8>,
    amount: u64,
    signers: &Vec<Pubkey>,
    rent_solvent: bool,
) -> (r: Result<(), EscrowError>)
    ensures
        ({
            let out = spec_initialize(maker@, vault@, old(record)@, amount, signers@, rent_solvent);
            match out {
                Ok(s) => r is Ok && final(record)@ == s,
                Err(e) => r == Err::<(), EscrowError>(e) && final(record)@ == old(record)@,
            }
        }),
{
    if !rent_solvent {
        return Err(EscrowError::StorageInsolvent);
    }
    if !is_proven(maker, signers) {
        return Err(EscrowError::Unauthorized);
    }
    let parsed = deserialize_escrow(record);
    match parsed {
        Err(e) => Err(e),
        Ok(escrow) => {
            if escrow.is_initialized {
                return Err(EscrowError::AlreadyInitialized);
            }
            let initialized = Escrow {
                is_initialized: true,
                maker_pubkey: *maker,
                taker_pubkey: None,
                vault_pubkey: *vault,
                amount,
            };
            *record = serialize_escrow(&initialized);
            Ok(())
        },
    }
}

/// The outcome of a deposit: a transfer request from the maker's holding
/// record into the vault, authorized by the maker.
pub open spec fn spec_deposit(
    maker: Seq<u8>,
    vault: Seq<u8>,
    amount: u64,
    signers: Seq<Pubkey>,
) -> Result<TransferModel, EscrowError> {
    if !spec_proven(maker, signers) {
        Err(EscrowError::Unauthorized)
    } else {
        Ok(TransferModel { source: maker, destination: vault, authority: maker, amount: amount })
    }
}

/// Deposit(maker, vault): requests that the gateway move `amount` from the
/// maker's holding record into the vault, authorized by the maker.  The
/// amount is a required parameter of the call; gateway failures surface in
/// the external runtime, not here.
pub fn deposit_tokens(maker: &Pubkey, vault: &Pubkey, amount: u64, signers: &Vec<Pubkey>) -> (r:
    Result<TokenTransfer, EscrowError>)
    ensures
        ({
            let out = spec_deposit(maker@, vault@, amount, signers@);
            match out {
                Ok(t) => r is Ok && r->Ok_0@ == t,
                Err(e) => r is Err && r->Err_0 == e,
            }
        }),
{
    if !is_proven(maker, signers) {
        return Err(EscrowError::Unauthorized);
    }
    let transfer = TokenTransfer {
        source: *maker,
        destination: *vault,
        authority: *maker,
        amount,
    };
    proof {
        assert(transfer@ =~= spec_deposit(maker@, vault@, amount, signers@)->Ok_0);
    }
    Ok(transfer)
}

/// The outcome of completion: the settled record bytes and a transfer
/// request from the vault to the taker, or the exact error.
pub open spec fn spec_take(
    taker: Seq<u8>,
    maker: Seq<u8>,
    vault: Seq<u8>,
    record: Seq<u8>,
    signers: Seq<Pubkey>,
) -> Result<(Seq<u8>, TransferModel), EscrowError> {
    if !wf_bytes(record) {
        Err(EscrowError::CorruptRecord)
    } else {
        let e = spec_deserialize(record);
        if !e.is_initialized {
            Err(EscrowError::NotInitialized)
        } else if e.taker is Some {
            Err(EscrowError::AlreadyCompleted)
        } else if !spec_proven(taker, signers) {
            Err(EscrowError::Unauthorized)
        } else {
            Ok(
                (
                    spec_serialize(
                        EscrowModel {
                            is_initialized: e.is_initialized,
                            maker: e.maker,
                            taker: Some(taker),
                            vault: e.vault,
                            amount: e.amount,
                        },
                    ),
                    TransferModel {
                        source: vault,
                        destination: taker,
                        authority: maker,
                        amount: e.amount,
                    },
                ),
            )
        }
    }
}

/// Complete(taker, maker, vault, escrowRecord): sets the record's taker and
/// requests that the gateway move the stored amount from the vault to the
/// taker, authorized by the maker (the vault's delegated authority).  Fails
/// with `CorruptRecord`, `NotInitialized` before initialization,
/// `AlreadyCompleted` when the taker is already set, or `Unauthorized` when
/// the taker has not proven its identity; on failure the record is
/// unchanged.  The external runtime commits the record write and the
/// transfer atomically.
pub fn take_tokens(
    taker: &Pubkey,
    maker: &Pubkey,
    vault: &Pubkey,
    record: &mut Vec<u8>,
    signers: &Vec<Pubkey>,
) -> (r: Result<TokenTransfer, EscrowError>)
    ensures
        ({
            let out = spec_take(taker@, maker@, vault@, old(record)@, signers@);
            match out {
                Ok(st) => r is Ok && final(record)@ == st.0 && r->Ok_0@ == st.1,
                Err(e) => r is Err && r->Err_0 == e && final(record)@ == old(record)@,
            }
        }),
{
    let parsed = deserialize_escrow(record);
    match parsed {
        Err(e) => Err(e),
        Ok(escrow) => {
            if !escrow.is_initialized {
                return Err(EscrowError::NotInitialized);
            }
            match escrow.taker_pubkey {
                Some(_) => Err(EscrowError::AlreadyCompleted),
                None => {
                    if !is_proven(taker, signers) {
                        return Err(EscrowError::Unauthorized);
                    }
                    let settled = Escrow {
                        is_initialized: escrow.is_initialized,
                        maker_pubkey: escrow.maker_pubkey,
                        taker_pubkey: Some(*taker),
                        vault_pubkey: escrow.vault_pubkey,
                        amount: escrow.amount,
                    };
                    let transfer = TokenTransfer {
                        source: *vault,
                        destination: *taker,
                        authority: *maker,
                        amount: escrow.amount,
                    };
                    proof {
                        assert(settled@ =~~= EscrowModel {
                            is_initialized: escrow@.is_initialized,
                            maker: escrow@.maker,
                            taker: Some(taker@),
                            vault: escrow@.vault,
                            amount: escrow@.amount,
                        });
                        assert(transfer@ =~= spec_take(
                            taker@,
                            maker@,
                            vault@,
                            old(record)@,
                            signers@,
                        )->Ok_0.1);
                    }
                    *record = serialize_escrow(&settled);
                    Ok(transfer)
                },
            }
        },
    }
}

/// The outcome of a refund: the settled record bytes and a transfer request
/// from the vault back to the maker, or the exact error.
pub open spec fn spec_refund(
    maker: Seq<u8>,
    vault: Seq<u8>,
    record: Seq<u8>,
    signers: Seq<Pubkey>,
) -> Result<(Seq<u8>, TransferModel), EscrowError> {
    if !wf_bytes(record) {
        Err(EscrowError::CorruptRecord)
    } else {
        let e = spec_deserialize(record);
        if !e.is_initialized {
            Err(EscrowError::NotInitialized)
        } else if e.maker != maker {
            Err(EscrowError::RecordMismatch)
        } else if e.taker is Some {
            Err(EscrowError::AlreadyCompleted)
        } else if !spec_proven(maker, signers) {
            Err(EscrowError::Unauthorized)
        } else {
            Ok(
                (
                    spec_serialize(
                        EscrowModel {
                            is_initialized: e.is_initialized,
                            maker: e.maker,
                            taker: Some(maker),
                            vault: e.vault,
                            amount: e.amount,
                        },
                    ),
                    TransferModel {
                        source: vault,
                        destination: maker,
                        authority: maker,
                        amount: e.amount,
                    },
                ),
            )
        }
    }
}

/// Refund(maker, vault, escrowRecord): requests that the gateway move the
/// stored amount from the vault back to the maker, authorized by the maker.
/// A refund is valid only to the maker stored in the record
/// (`RecordMismatch` otherwise), only after initialization, and only while
/// the taker is absent — a refund after completion, or a second refund,
/// fails with `AlreadyCompleted`.  A successful refund marks the record
/// settled by storing the maker as its taker, so the escrowed amount can
/// never leave the vault a second time.
pub fn refund_tokens(
    maker: &Pubkey,
    vault: &Pubkey,
    record: &mut Vec<u8>,
    signers: &Vec<Pubkey>,
) -> (r: Result<TokenTransfer, EscrowError>)
    ensures
        ({
            let out = spec_refund(maker@, vault@, old(record)@, signers@);
            match out {
                Ok(st) => r is Ok && final(record)@ == st.0 && r->Ok_0@ == st.1,
                Err(e) => r is Err && r->Err_0 == e && final(record)@ == old(record)@,
            }
        }),
{
    let parsed = deserialize_escrow(record);
    match parsed {
        Err(e) => Err(e),
        Ok(escrow) => {
            if !escrow.is_initialized {
                return Err(EscrowError::NotInitialized);
            }
            if !crate::auth::pubkey_eq(&escrow.maker_pubkey, maker) {
                return Err(EscrowError::RecordMismatch);
            }
            match escrow.taker_pubkey {
                Some(_) => Err(EscrowError::AlreadyCompleted),
                None => {
                    if !is_proven(maker, signers) {
                        return Err(EscrowError::Unauthorized);
                    }
                    let settled = Escrow {
                        is_initialized: escrow.is_initialized,
                        maker_pubkey: escrow.maker_pubkey,
                        taker_pubkey: Some(*maker),
                        vault_pubkey: escrow.vault_pubkey,
                        amount: escrow.amount,
                    };
                    let transfer = TokenTransfer {
                        source: *vault,
                        destination: *maker,
                        authority: *maker,
                        amount: escrow.amount,
                    };
                    proof {
                        assert(settled@ =~~= EscrowModel {
                            is_initialized: escrow@.is_initialized,
                            maker: escrow@.maker,
                            taker: Some(maker@),
                            vault: escrow@.vault,
                            amount: escrow@.amount,
                        });
                        assert(transfer@ =~= spec_refund(
                            maker@,
                            vault@,
                            old(record)@,
                            signers@,
                        )->Ok_0.1);
                    }
                    *record = serialize_escrow(&settled);
                    Ok(transfer)
                },
            }
        },
    }
}

/// The outcome of one whole call: the record bytes after the call and the
/// transfer request it issues, if any, or the exact error.  Account
/// positions follow the per-call ordering: Initialize takes
/// [maker, vault, rent-context, token-program, escrowRecord]; Deposit
/// [maker, vault, token-program]; Complete
/// [taker, maker, vault, token-program, escrowRecord]; Refund
/// [maker, vault, token-program, escrowRecord].
pub open spec fn spec_process(
    accounts: Seq<Pubkey>,
    signers: Seq<Pubkey>,
    record: Seq<u8>,
    rent_solvent: bool,
    data: Seq<u8>,
) -> Result<(Seq<u8>, Option<TransferModel>), EscrowError> {
    match spec_parse(data) {
        Err(e) => Err(e),
        Ok(EscrowInstruction::InitEscrow { amount }) => {
            if accounts.len() < 5 {
                Err(EscrowError::InvalidInstruction)
            } else {
                match spec_initialize(
                    accounts[0]@,
                    accounts[1]@,
                    record,
                    amount,
                    signers,
                    rent_solvent,
                ) {
                    Ok(s) => Ok((s, None)),
                    Err(e) => Err(e),
                }
            }
        },
        Ok(EscrowInstruction::Deposit { amount }) => {
            if accounts.len() < 3 {
                Err(EscrowError::InvalidInstruction)
            } else {
                match spec_deposit(accounts[0]@, accounts[1]@, amount, signers) {
                    Ok(t) => Ok((record, Some(t))),
                    Err(e) => Err(e),
                }
            }
        },
        Ok(EscrowInstruction::CompleteEscrow) => {
            if accounts.len() < 5 {
                Err(EscrowError::InvalidInstruction)
            } else {
                match spec_take(accounts[0]@, accounts[1]@, accounts[2]@, record, signers) {
                    Ok(st) => Ok((st.0, Some(st.1))),
                    Err(e) => Err(e),
                }
            }
        },
        Ok(EscrowInstruction::Refund) => {
            if accounts.len() < 4 {
                Err(EscrowError::InvalidInstruction)
            } else {
                match spec_refund(accounts[0]@, accounts[1]@, record, signers) {
                    Ok(st) => Ok((st.0, Some(st.1))),
                    Err(e) => Err(e),
                }
            }
        },
    }
}

/// One whole call: decodes the payload's opcode and dispatches to the
/// matched operation, exhaustively.  `accounts` is the call's positional
/// account list, `signers` its proof set, `record` the escrow record's
/// bytes, and `rent_solvent` the external runtime's verdict on the record's
/// storage solvency.  A call that names too few accounts for its opcode is
/// malformed and fails with `InvalidInstruction`.  On any failure the
/// record is unchanged and no transfer is requested.
pub fn process_instruction(
    accounts: &Vec<Pubkey>,
    signers: &Vec<Pubkey>,
    record: &mut Vec<u8>,
    rent_solvent: bool,
    data: &Vec<u8>,
) -> (r: Result<Option<TokenTransfer>, EscrowError>)
    ensures
        ({
            let out = spec_process(accounts@, signers@, old(record)@, rent_solvent, data@);
            match out {
                Ok(st) => {
                    &&& r is Ok
                    &&& final(record)@ == st.0
                    &&& (match (r->Ok_0, st.1) {
                        (Some(t), Some(tm)) => t@ == tm,
                        (None, None) => true,
                        _ => false,
                    })
                },
                Err(e) => r is Err && r->Err_0 == e && final(record)@ == old(record)@,
            }
        }),
{
    let instruction = parse_instruction(data)?;
    match instruction {
        EscrowInstruction::InitEscrow { amount } => {
            if accounts.len() < 5 {
                return Err(EscrowError::InvalidInstruction);
            }
            initialize_escrow(&accounts[0], &accounts[1], record, amount, signers, rent_solvent)?;
            Ok(None)
        },
        EscrowInstruction::Deposit { amount } => {
            if accounts.len() < 3 {
                return Err(EscrowError::InvalidInstruction);
            }
            let transfer = deposit_tokens(&accounts[0], &accounts[1], amount, signers)?;
            Ok(Some(transfer))
        },
        EscrowInstruction::CompleteEscrow => {
            if accounts.len() < 5 {
                return Err(EscrowError::InvalidInstruction);
            }
            let transfer = take_tokens(&accounts[0], &accounts[1], &accounts[2], record, signers)?;
            Ok(Some(transfer))
        },
        EscrowInstruction::Refund => {
            if accounts.len() < 4 {
                return Err(EscrowError::InvalidInstruction);
            }
            let transfer = refund_tokens(&accounts[0], &accounts[1], record, signers)?;
            Ok(Some(transfer))
        },
    }
}

} // verus!
