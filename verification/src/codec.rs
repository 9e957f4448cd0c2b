//! The record accessor: the fixed-layout codec for [`Escrow`] records.
//!
//! Layout, 106 bytes in all:
//! - byte 0: initialization flag (0 or 1)
//! - bytes 1..33: maker identity
//! - byte 33: taker presence tag (0 or 1)
//! - bytes 34..66: taker identity, or all zero when the tag is 0
//! - bytes 66..98: vault identity
//! - bytes 98..106: amount, little-endian
//!
//! Deserialization of malformed or undersized bytes fails with
//! [`EscrowError::CorruptRecord`] rather than panicking; serialization
//! always writes exactly [`RECORD_LEN`] bytes, so a record written back in
//! place keeps its prior byte length.

use vstd::bytes::lemma_auto_spec_u64_to_from_le_bytes;
use vstd::bytes::spec_u64_from_le_bytes;
use vstd::bytes::spec_u64_to_le_bytes;
use vstd::bytes::u64_from_le_bytes;
use vstd::bytes::u64_to_le_bytes;
use vstd::prelude::*;
use vstd::slice::slice_subrange;

use crate::error::EscrowError;
use crate::state::Escrow;
use crate::state::EscrowModel;
use crate::state::Pubkey;

verus! {

/// The exact byte length of a serialized escrow record.
pub const RECORD_LEN: usize = 106;

/// The serialized form of an escrow model.
pub open spec fn spec_serialize(m: EscrowModel) -> Seq<u8> {
    seq![if m.is_initialized { 1u8 } else { 0u8 }] + m.maker + (match m.taker {
        Some(t) => seq![1u8] + t,
        None => seq![0u8] + Seq::new(32, |i: int| 0u8),
    }) + m.vault + spec_u64_to_le_bytes(m.amount)
}

/// True when `s` is a well-formed serialized escrow record: exactly
/// [`RECORD_LEN`] bytes, both one-byte fields hold 0 or 1, and an absent
/// taker leaves its 32 bytes zero.
pub open spec fn wf_bytes(s: Seq<u8>) -> bool {
    &&& s.len() == RECORD_LEN
    &&& (s[0] == 0 || s[0] == 1)
    &&& (s[33] == 0 || s[33] == 1)
    &&& (s[33] == 0 ==> forall|j: int| 34 <= j < 66 ==> s[j] == 0)
}

/// The escrow model read from a well-formed serialized record.
pub open spec fn spec_deserialize(s: Seq<u8>) -> EscrowModel
    recommends
        wf_bytes(s),
{
    EscrowModel {
        is_initialized: s[0] == 1,
        maker: s.subrange(1, 33),
        taker: if s[33] == 1 {
            Some(s.subrange(34, 66))
        } else {
            None
        },
        vault: s.subrange(66, 98),
        amount: spec_u64_from_le_bytes(s.subrange(98, 106)),
    }
}

/// Appends the 32 bytes of an identity to `dst`.
fn push_pubkey(dst: &mut Vec<u8>, src: &Pubkey)
    ensures
        final(dst)@ == old(dst)@ + src@,
{
    let ghost dst0 = dst@;
    let mut k: usize = 0;
    while k < 32
        invariant
            k <= 32,
            dst@ == dst0 + src@.subrange(0, k as int),
        decreases 32 - k,
    {
        dst.push(src[k]);
        proof {
            assert(dst0 + src@.subrange(0, k as int) + seq![src@[k as int]] =~= dst0
                + src@.subrange(0, k + 1));
        }
        k = k + 1;
    }
    proof {
        assert(src@.subrange(0, 32) =~= src@);
    }
}

/// Reads the 32-byte identity starting at `off`.
fn read_pubkey(bytes: &Vec<u8>, off: usize) -> (p: Pubkey)
    requires
        off + 32 <= bytes@.len(),
    ensures
        p@ == bytes@.subrange(off as int, off + 32),
{
    let n = bytes.len();
    let mut p: Pubkey = [0u8; 32];
    let mut k: usize = 0;
    while k < 32
        invariant
            k <= 32,
            off + 32 <= n,
            n == bytes@.len(),
            forall|j: int| 0 <= j < k ==> p@[j] == bytes@[off + j],
        decreases 32 - k,
    {
        p[k] = bytes[off + k];
        k = k + 1;
    }
    proof {
        assert(p@ =~= bytes@.subrange(off as int, off + 32));
    }
    p
}

/// Serializes an escrow into a fresh record of exactly [`RECORD_LEN`] bytes.
pub fn serialize_escrow(e: &Escrow) -> (out: Vec<u8>)
    ensures
        out@ == spec_serialize(e@),
        out@.len() == RECORD_LEN,
{
    let mut out: Vec<u8> = Vec::new();
    out.push(if e.is_initialized {
        1
    } else {
        0
    });
    push_pubkey(&mut out, &e.maker_pubkey);
    match &e.taker_pubkey {
        Some(t) => {
            out.push(1);
            push_pubkey(&mut out, t);
        },
        None => {
            out.push(0);
            let ghost before = out@;
            let mut k: usize = 0;
            while k < 32
                invariant
                    k <= 32,
                    out@ == before + Seq::new(k as nat, |i: int| 0u8),
                decreases 32 - k,
            {
                out.push(0);
                proof {
                    assert(before + Seq::new(k as nat, |i: int| 0u8) + seq![0u8] =~= before
                        + Seq::new((k + 1) as nat, |i: int| 0u8));
                }
                k = k + 1;
            }
        },
    }
    push_pubkey(&mut out, &e.vault_pubkey);
    let mut amount_bytes = u64_to_le_bytes(e.amount);
    let ghost with_vault = out@;
    let mut k: usize = 0;
    while k < amount_bytes.len()
        invariant
            k <= amount_bytes@.len(),
            amount_bytes@ == spec_u64_to_le_bytes(e.amount),
            out@ == with_vault + amount_bytes@.subrange(0, k as int),
        decreases amount_bytes@.len() - k,
    {
        out.push(amount_bytes[k]);
        proof {
            assert(with_vault + amount_bytes@.subrange(0, k as int) + seq![amount_bytes@[k as int]]
                =~= with_vault + amount_bytes@.subrange(0, k + 1));
        }
        k = k + 1;
    }
    proof {
        assert(amount_bytes@.subrange(0, amount_bytes@.len() as int) =~= amount_bytes@);
        assert(out@ =~= spec_serialize(e@));
    }
    out
}

/// Deserializes an escrow record.  Returns the parsed escrow exactly when
/// the bytes are well-formed, and `CorruptRecord` otherwise.
pub fn deserialize_escrow(bytes: &Vec<u8>) -> (r: Result<Escrow, EscrowError>)
    ensures
        r is Ok <==> wf_bytes(bytes@),
        r is Ok ==> r->Ok_0@ == spec_deserialize(bytes@),
        r is Err ==> r->Err_0 == EscrowError::CorruptRecord,
{
    if bytes.len() != RECORD_LEN {
        return Err(EscrowError::CorruptRecord);
    }
    let flag = bytes[0];
    if flag > 1 {
        return Err(EscrowError::CorruptRecord);
    }
    let maker = read_pubkey(bytes, 1);
    let tag = bytes[33];
    if tag > 1 {
        return Err(EscrowError::CorruptRecord);
    }
    let taker: Option<Pubkey> = if tag == 1 {
        Some(read_pubkey(bytes, 34))
    } else {
        let mut k: usize = 0;
        while k < 32
            invariant
                k <= 32,
                bytes@.len() == RECORD_LEN,
                bytes@[33] == 0,
                forall|j: int| 34 <= j < 34 + k ==> bytes@[j] == 0,
            decreases 32 - k,
        {
            if bytes[34 + k] != 0 {
                return Err(EscrowError::CorruptRecord);
            }
            k = k + 1;
        }
        None
    };
    let vault = read_pubkey(bytes, 66);
    let amount = u64_from_le_bytes(slice_subrange(bytes.as_slice(), 98, 106));
    let e = Escrow {
        is_initialized: flag == 1,
        maker_pubkey: maker,
        taker_pubkey: taker,
        vault_pubkey: vault,
        amount,
    };
    proof {
        assert(e@ =~~= spec_deserialize(bytes@));
    }
    Ok(e)
}

/// Serializing any escrow read from a well-formed record yields those very
/// bytes again: the codec loses nothing that the record held.
pub proof fn lemma_deserialize_serialize(s: Seq<u8>)
    requires
        wf_bytes(s),
    ensures
        spec_serialize(spec_deserialize(s)) == s,
{
    lemma_auto_spec_u64_to_from_le_bytes();
    let m = spec_deserialize(s);
    assert(s.subrange(98, 106).len() == 8);
    assert(spec_u64_to_le_bytes(spec_u64_from_le_bytes(s.subrange(98, 106))) == s.subrange(
        98,
        106,
    ));
    assert(spec_serialize(m) =~= s);
}

/// Deserializing the serialization of any well-formed escrow model yields
/// the model again, and the serialized bytes are well-formed.
pub proof fn lemma_serialize_deserialize(m: EscrowModel)
    requires
        m.wf(),
    ensures
        wf_bytes(spec_serialize(m)),
        spec_deserialize(spec_serialize(m)) == m,
{
    lemma_auto_spec_u64_to_from_le_bytes();
    let s = spec_serialize(m);
    assert(spec_u64_to_le_bytes(m.amount).len() == 8);
    assert(s.len() == RECORD_LEN);
    assert(s.subrange(1, 33) =~= m.maker);
    assert(s.subrange(66, 98) =~= m.vault);
    assert(s.subrange(98, 106) =~= spec_u64_to_le_bytes(m.amount));
    match m.taker {
        Some(t) => {
            assert(s[33] == 1);
            assert(s.subrange(34, 66) =~= t);
        },
        None => {
            assert(s[33] == 0);
        },
    }
    assert(spec_deserialize(s) =~~= m);
}

} // verus!
