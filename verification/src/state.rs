//! The escrow data model.
//!
//! An [`Escrow`] record tracks one escrow instance: whether it has been
//! initialized, the maker entitled to a refund, the taker (absent until
//! completion), the vault that custodies the funds, and the immutable amount.
//! A [`TokenTransfer`] is a request issued to the external token gateway.
//! Contracts speak of the abstract views [`EscrowModel`] and
//! [`TransferModel`], whose identities are plain byte sequences.

use vstd::prelude::*;

verus! {

/// An addressable identity on the ledger: 32 raw bytes.
pub type Pubkey = [u8; 32];

/// One escrow instance, as persisted in its record.
#[derive(Clone, Copy, Debug)]
pub struct Escrow {
    /// True once initialization has succeeded; guards re-initialization.
    pub is_initialized: bool,
    /// The party that created the escrow and is entitled to a refund.
    pub maker_pubkey: Pubkey,
    /// Absent until the escrow settles; set exactly once.
    pub taker_pubkey: Option<Pubkey>,
    /// The token-holding record that custodies the escrowed funds.
    pub vault_pubkey: Pubkey,
    /// Fixed at initialization: the exact quantity that must move on
    /// completion or refund.
    pub amount: u64,
}

/// The mathematical view of an [`Escrow`]: identities as byte sequences.
#[verifier::ext_equal]
pub struct EscrowModel {
    pub is_initialized: bool,
    pub maker: Seq<u8>,
    pub taker: Option<Seq<u8>>,
    pub vault: Seq<u8>,
    pub amount: u64,
}

impl EscrowModel {
    /// Each identity held by the model is exactly 32 bytes wide.
    pub open spec fn wf(self) -> bool {
        &&& self.maker.len() == 32
        &&& self.vault.len() == 32
        &&& (self.taker is Some ==> self.taker->0.len() == 32)
    }
}

impl View for Escrow {
    type V = EscrowModel;

    open spec fn view(&self) -> EscrowModel {
        EscrowModel {
            is_initialized: self.is_initialized,
            maker: self.maker_pubkey@,
            taker: match self.taker_pubkey {
                Some(t) => Some(t@),
                None => None,
            },
            vault: self.vault_pubkey@,
            amount: self.amount,
        }
    }
}

/// A request for the external token gateway: move `amount` from `source` to
/// `destination`, authorized by `authority`.  The core treats the transfer as
/// atomic and never assumes a partial one.
#[derive(Clone, Copy, Debug)]
pub struct TokenTransfer {
    pub source: Pubkey,
    pub destination: Pubkey,
    pub authority: Pubkey,
    pub amount: u64,
}

/// The mathematical view of a [`TokenTransfer`].
#[verifier::ext_equal]
pub struct TransferModel {
    pub source: Seq<u8>,
    pub destination: Seq<u8>,
    pub authority: Seq<u8>,
    pub amount: u64,
}

impl View for TokenTransfer {
    type V = TransferModel;

    open spec fn view(&self) -> TransferModel {
        TransferModel {
            source: self.source@,
            destination: self.destination@,
            authority: self.authority@,
            amount: self.amount,
        }
    }
}

} // verus!
