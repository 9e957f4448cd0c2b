//! The sequencing laws of the escrow state machine, stated over the spec
//! outcomes and proved once and for all: initialization runs at most once,
//! settlement is terminal, a refund answers only to the stored maker, and
//! the record codec is a lossless round trip.

use vstd::prelude::*;

use crate::auth::spec_proven;
use crate::codec::lemma_deserialize_serialize;
use crate::codec::lemma_serialize_deserialize;
use crate::codec::spec_deserialize;
use crate::codec::spec_serialize;
use crate::codec::wf_bytes;
use crate::error::EscrowError;
use crate::machine::spec_initialize;
use crate::machine::spec_refund;
use crate::machine::spec_take;
use crate::state::EscrowModel;
use crate::state::Pubkey;

verus! {

/// Initialization succeeds at most once per record: whatever record a
/// successful initialization writes, a second initialization of it fails —
/// with `AlreadyInitialized` whenever the second call itself is solvent and
/// authorized, and with its own earlier error otherwise.
pub proof fn lemma_initialize_at_most_once(
    maker1: Seq<u8>,
    vault1: Seq<u8>,
    record: Seq<u8>,
    amount1: u64,
    signers1: Seq<Pubkey>,
    rent1: bool,
    maker2: Seq<u8>,
    vault2: Seq<u8>,
    amount2: u64,
    signers2: Seq<Pubkey>,
    rent2: bool,
)
    requires
        maker1.len() == 32,
        vault1.len() == 32,
        spec_initialize(maker1, vault1, record, amount1, signers1, rent1) is Ok,
    ensures
        ({
            let written = spec_initialize(maker1, vault1, record, amount1, signers1, rent1)->Ok_0;
            &&& spec_initialize(maker2, vault2, written, amount2, signers2, rent2) is Err
            &&& (rent2 && spec_proven(maker2, signers2) ==> spec_initialize(
                maker2,
                vault2,
                written,
                amount2,
                signers2,
                rent2,
            ) == Err::<Seq<u8>, EscrowError>(EscrowError::AlreadyInitialized))
        }),
{
    let m = EscrowModel {
        is_initialized: true,
        maker: maker1,
        taker: None,
        vault: vault1,
        amount: amount1,
    };
    lemma_serialize_deserialize(m);
}

/// Initialization without a proven maker fails with `Unauthorized`, for
/// every record and amount; the operation's own contract adds that a failed
/// initialization leaves the record byte-for-byte unchanged.
pub proof fn lemma_initialize_unauthorized(
    maker: Seq<u8>,
    vault: Seq<u8>,
    record: Seq<u8>,
    amount: u64,
    signers: Seq<Pubkey>,
)
    requires
        !spec_proven(maker, signers),
    ensures
        spec_initialize(maker, vault, record, amount, signers, true) == Err::<
            Seq<u8>,
            EscrowError,
        >(EscrowError::Unauthorized),
{
}

/// Completion before initialization fails: on any well-formed record that
/// was never initialized, completion returns `NotInitialized` whoever calls
/// it.
pub proof fn lemma_complete_requires_initialization(
    taker: Seq<u8>,
    maker: Seq<u8>,
    vault: Seq<u8>,
    record: Seq<u8>,
    signers: Seq<Pubkey>,
)
    requires
        wf_bytes(record),
        !spec_deserialize(record).is_initialized,
    ensures
        spec_take(taker, maker, vault, record, signers) == Err::<
            (Seq<u8>, crate::state::TransferModel),
            EscrowError,
        >(EscrowError::NotInitialized),
{
}

/// A settled record — initialized, taker set — is terminal: completion
/// fails with `AlreadyCompleted`, and a refund fails too, with
/// `AlreadyCompleted` whenever the caller's maker matches the stored one.
pub proof fn lemma_settled_is_terminal(
    record: Seq<u8>,
    taker: Seq<u8>,
    maker: Seq<u8>,
    vault: Seq<u8>,
    signers: Seq<Pubkey>,
)
    requires
        wf_bytes(record),
        spec_deserialize(record).is_initialized,
        spec_deserialize(record).taker is Some,
    ensures
        spec_take(taker, maker, vault, record, signers) == Err::<
            (Seq<u8>, crate::state::TransferModel),
            EscrowError,
        >(EscrowError::AlreadyCompleted),
        spec_refund(maker, vault, record, signers) is Err,
        spec_deserialize(record).maker == maker ==> spec_refund(maker, vault, record, signers)
            == Err::<(Seq<u8>, crate::state::TransferModel), EscrowError>(
            EscrowError::AlreadyCompleted,
        ),
{
}

/// Completion succeeds at most once: whatever record a successful
/// completion writes is settled, so every later completion or refund of it
/// fails and no second transfer out of the vault can be requested.
pub proof fn lemma_complete_at_most_once(
    taker1: Seq<u8>,
    maker1: Seq<u8>,
    vault1: Seq<u8>,
    record: Seq<u8>,
    signers1: Seq<Pubkey>,
    taker2: Seq<u8>,
    maker2: Seq<u8>,
    vault2: Seq<u8>,
    signers2: Seq<Pubkey>,
)
    requires
        taker1.len() == 32,
        spec_take(taker1, maker1, vault1, record, signers1) is Ok,
    ensures
        ({
            let written = spec_take(taker1, maker1, vault1, record, signers1)->Ok_0.0;
            &&& spec_take(taker2, maker2, vault2, written, signers2) == Err::<
                (Seq<u8>, crate::state::TransferModel),
                EscrowError,
            >(EscrowError::AlreadyCompleted)
            &&& spec_refund(maker2, vault2, written, signers2) is Err
        }),
{
    let e = spec_deserialize(record);
    let settled = EscrowModel {
        is_initialized: e.is_initialized,
        maker: e.maker,
        taker: Some(taker1),
        vault: e.vault,
        amount: e.amount,
    };
    lemma_serialize_deserialize(settled);
    let written = spec_take(taker1, maker1, vault1, record, signers1)->Ok_0.0;
    lemma_settled_is_terminal(written, taker2, maker2, vault2, signers2);
}

/// A refund answers only to the stored maker: when the claimed maker
/// differs from the one in the record, the refund fails with
/// `RecordMismatch` and no transfer is requested; conversely a successful
/// refund proves the two matched.
pub proof fn lemma_refund_requires_match(
    maker: Seq<u8>,
    vault: Seq<u8>,
    record: Seq<u8>,
    signers: Seq<Pubkey>,
)
    requires
        wf_bytes(record),
        spec_deserialize(record).is_initialized,
    ensures
        spec_deserialize(record).maker != maker ==> spec_refund(maker, vault, record, signers)
            == Err::<(Seq<u8>, crate::state::TransferModel), EscrowError>(
            EscrowError::RecordMismatch,
        ),
        spec_refund(maker, vault, record, signers) is Ok ==> spec_deserialize(record).maker
            == maker,
{
}

/// A refund is terminal: whatever record a successful refund writes is
/// settled, so every later completion or second refund of it fails and the
/// escrowed amount leaves the vault exactly once.
pub proof fn lemma_refund_is_terminal(
    maker1: Seq<u8>,
    vault1: Seq<u8>,
    record: Seq<u8>,
    signers1: Seq<Pubkey>,
    taker2: Seq<u8>,
    maker2: Seq<u8>,
    vault2: Seq<u8>,
    signers2: Seq<Pubkey>,
)
    requires
        spec_refund(maker1, vault1, record, signers1) is Ok,
    ensures
        ({
            let written = spec_refund(maker1, vault1, record, signers1)->Ok_0.0;
            &&& spec_take(taker2, maker2, vault2, written, signers2) == Err::<
                (Seq<u8>, crate::state::TransferModel),
                EscrowError,
            >(EscrowError::AlreadyCompleted)
            &&& spec_refund(maker2, vault2, written, signers2) is Err
        }),
{
    let e = spec_deserialize(record);
    let settled = EscrowModel {
        is_initialized: e.is_initialized,
        maker: e.maker,
        taker: Some(maker1),
        vault: e.vault,
        amount: e.amount,
    };
    lemma_serialize_deserialize(settled);
    let written = spec_refund(maker1, vault1, record, signers1)->Ok_0.0;
    lemma_settled_is_terminal(written, taker2, maker2, vault2, signers2);
}

/// Settlement never rewrites the escrow's terms: whatever record a
/// successful completion or refund writes still holds the same maker,
/// vault and amount, and stays initialized — only the taker is set.
pub proof fn lemma_settlement_keeps_terms(
    taker: Seq<u8>,
    maker: Seq<u8>,
    vault: Seq<u8>,
    record: Seq<u8>,
    signers: Seq<Pubkey>,
)
    requires
        taker.len() == 32,
    ensures
        spec_take(taker, maker, vault, record, signers) is Ok ==> ({
            let written = spec_take(taker, maker, vault, record, signers)->Ok_0.0;
            let before = spec_deserialize(record);
            let after = spec_deserialize(written);
            &&& after.is_initialized
            &&& after.maker == before.maker
            &&& after.vault == before.vault
            &&& after.amount == before.amount
            &&& after.taker == Some(taker)
        }),
        spec_refund(maker, vault, record, signers) is Ok ==> ({
            let written = spec_refund(maker, vault, record, signers)->Ok_0.0;
            let before = spec_deserialize(record);
            let after = spec_deserialize(written);
            &&& after.is_initialized
            &&& after.maker == before.maker
            &&& after.vault == before.vault
            &&& after.amount == before.amount
            &&& after.taker == Some(maker)
        }),
{
    let e = spec_deserialize(record);
    if spec_take(taker, maker, vault, record, signers) is Ok {
        lemma_serialize_deserialize(
            EscrowModel {
                is_initialized: e.is_initialized,
                maker: e.maker,
                taker: Some(taker),
                vault: e.vault,
                amount: e.amount,
            },
        );
    }
    if spec_refund(maker, vault, record, signers) is Ok {
        lemma_serialize_deserialize(
            EscrowModel {
                is_initialized: e.is_initialized,
                maker: e.maker,
                taker: Some(maker),
                vault: e.vault,
                amount: e.amount,
            },
        );
    }
}

/// The codec is a lossless round trip: serializing what a well-formed
/// record deserializes to yields those bytes again, and deserializing the
/// serialization of a well-formed escrow yields that escrow again.
pub proof fn lemma_codec_round_trip(bytes: Seq<u8>, m: EscrowModel)
    requires
        wf_bytes(bytes),
        m.wf(),
    ensures
        spec_serialize(spec_deserialize(bytes)) == bytes,
        wf_bytes(spec_serialize(m)),
        spec_deserialize(spec_serialize(m)) == m,
{
    lemma_deserialize_serialize(bytes);
    lemma_serialize_deserialize(m);
}

} // verus!
