use escrow::auth::is_proven;
use escrow::basic::CreateEscrow;
use escrow::basic::EscrowAccount;
use escrow::basic::ReleaseEscrow;
use escrow::basic::{create_escrow, release_escrow};
use escrow::codec::{deserialize_escrow, serialize_escrow, RECORD_LEN};
use escrow::error::EscrowError;
use escrow::hello::HelloSolana;
use escrow::machine::{
    deposit_tokens, initialize_escrow, parse_instruction, process_instruction, refund_tokens,
    take_tokens, EscrowInstruction,
};
use escrow::state::Escrow;

/// An identity whose 32 bytes all hold `b`.
fn key(b: u8) -> [u8; 32] {
    [b; 32]
}

/// A freshly allocated, zeroed escrow record.
fn fresh_record() -> Vec<u8> {
    vec![0u8; RECORD_LEN]
}

/// The payload of an opcode that carries a little-endian amount.
fn payload(opcode: u8, amount: u64) -> Vec<u8> {
    let mut data = vec![opcode];
    data.extend_from_slice(&amount.to_le_bytes());
    data
}

#[test]
fn test_init_escrow() {
    let maker = key(1);
    let vault = key(2);
    let rent_context = key(3);
    let token_program = key(4);
    let escrow_record = key(5);
    let mut record = fresh_record();
    let accounts = vec![maker, vault, rent_context, token_program, escrow_record];
    let signers = vec![maker];

    let r = process_instruction(&accounts, &signers, &mut record, true, &payload(0, 1000));
    assert!(r.is_ok());
    assert!(r.unwrap().is_none());

    let written = deserialize_escrow(&record).unwrap();
    assert!(written.is_initialized);
    assert_eq!(written.maker_pubkey, maker);
    assert_eq!(written.taker_pubkey, None);
    assert_eq!(written.vault_pubkey, vault);
    assert_eq!(written.amount, 1000);
}

#[test]
fn test_deposit_escrow() {
    let maker = key(1);
    let vault = key(2);
    let token_program = key(4);
    let mut record = fresh_record();
    let before = record.clone();
    let accounts = vec![maker, vault, token_program];
    let signers = vec![maker];

    let r = process_instruction(&accounts, &signers, &mut record, true, &payload(1, 1000));
    let transfer = r.unwrap().unwrap();
    assert_eq!(transfer.source, maker);
    assert_eq!(transfer.destination, vault);
    assert_eq!(transfer.authority, maker);
    assert_eq!(transfer.amount, 1000);
    assert_eq!(record, before);
}

#[test]
fn test_complete_escrow() {
    let maker = key(1);
    let taker = key(9);
    let vault = key(2);
    let mut record = fresh_record();
    initialize_escrow(&maker, &vault, &mut record, 1000, &vec![maker], true).unwrap();

    let transfer = take_tokens(&taker, &maker, &vault, &mut record, &vec![taker]).unwrap();
    assert_eq!(transfer.source, vault);
    assert_eq!(transfer.destination, taker);
    assert_eq!(transfer.authority, maker);
    assert_eq!(transfer.amount, 1000);

    let written = deserialize_escrow(&record).unwrap();
    assert_eq!(written.taker_pubkey, Some(taker));
    assert_eq!(written.amount, 1000);
}

#[test]
fn test_refund_escrow() {
    let maker = key(1);
    let vault = key(2);
    let mut record = fresh_record();
    initialize_escrow(&maker, &vault, &mut record, 750, &vec![maker], true).unwrap();

    let transfer = refund_tokens(&maker, &vault, &mut record, &vec![maker]).unwrap();
    assert_eq!(transfer.source, vault);
    assert_eq!(transfer.destination, maker);
    assert_eq!(transfer.authority, maker);
    assert_eq!(transfer.amount, 750);
}

#[test]
fn test_invalid_scenarios() {
    let maker = key(1);
    let vault = key(2);
    let mut record = fresh_record();
    let accounts = vec![maker, vault, key(3), key(4), key(5)];
    let signers = vec![maker];

    // Empty payload.
    let r = process_instruction(&accounts, &signers, &mut record, true, &vec![]);
    assert_eq!(r.unwrap_err(), EscrowError::InvalidInstruction);

    // Unknown opcode.
    let r = process_instruction(&accounts, &signers, &mut record, true, &vec![7]);
    assert_eq!(r.unwrap_err(), EscrowError::InvalidInstruction);

    // Initialize payload too short for its amount.
    let r = process_instruction(&accounts, &signers, &mut record, true, &vec![0, 1, 2]);
    assert_eq!(r.unwrap_err(), EscrowError::InvalidInstruction);

    // Too few accounts for the opcode.
    let r = process_instruction(&vec![maker], &signers, &mut record, true, &payload(0, 10));
    assert_eq!(r.unwrap_err(), EscrowError::InvalidInstruction);

    // Nothing above touched the record.
    assert_eq!(record, fresh_record());
}

#[test]
fn test_reinitialize_fails() {
    let maker = key(1);
    let vault = key(2);
    let mut record = fresh_record();
    initialize_escrow(&maker, &vault, &mut record, 1000, &vec![maker], true).unwrap();
    let once = record.clone();

    let again = initialize_escrow(&key(6), &key(7), &mut record, 42, &vec![key(6)], true);
    assert_eq!(again.unwrap_err(), EscrowError::AlreadyInitialized);
    assert_eq!(record, once);
}

#[test]
fn test_init_unauthorized_leaves_record() {
    let maker = key(1);
    let vault = key(2);
    let mut record = fresh_record();
    let before = record.clone();

    // The proof set holds someone else, so the maker is not proven.
    let r = initialize_escrow(&maker, &vault, &mut record, 1000, &vec![key(8)], true);
    assert_eq!(r.unwrap_err(), EscrowError::Unauthorized);
    assert_eq!(record, before);

    let r = initialize_escrow(&maker, &vault, &mut record, 1000, &vec![], true);
    assert_eq!(r.unwrap_err(), EscrowError::Unauthorized);
    assert_eq!(record, before);
}

#[test]
fn test_storage_insolvent() {
    let maker = key(1);
    let mut record = fresh_record();
    let before = record.clone();
    let r = initialize_escrow(&maker, &key(2), &mut record, 1000, &vec![maker], false);
    assert_eq!(r.unwrap_err(), EscrowError::StorageInsolvent);
    assert_eq!(record, before);
}

#[test]
fn test_complete_before_initialize() {
    let maker = key(1);
    let taker = key(9);
    let vault = key(2);
    let mut record = fresh_record();
    let before = record.clone();

    let r = take_tokens(&taker, &maker, &vault, &mut record, &vec![taker]);
    assert_eq!(r.unwrap_err(), EscrowError::NotInitialized);
    assert_eq!(record, before);
}

#[test]
fn test_complete_twice_fails() {
    let maker = key(1);
    let taker = key(9);
    let vault = key(2);
    let mut record = fresh_record();
    initialize_escrow(&maker, &vault, &mut record, 1000, &vec![maker], true).unwrap();
    take_tokens(&taker, &maker, &vault, &mut record, &vec![taker]).unwrap();
    let settled = record.clone();

    let again = take_tokens(&key(10), &maker, &vault, &mut record, &vec![key(10)]);
    assert_eq!(again.unwrap_err(), EscrowError::AlreadyCompleted);
    assert_eq!(record, settled);
}

#[test]
fn test_complete_unauthorized() {
    let maker = key(1);
    let taker = key(9);
    let vault = key(2);
    let mut record = fresh_record();
    initialize_escrow(&maker, &vault, &mut record, 1000, &vec![maker], true).unwrap();
    let before = record.clone();

    // The maker signed, but the taker did not.
    let r = take_tokens(&taker, &maker, &vault, &mut record, &vec![maker]);
    assert_eq!(r.unwrap_err(), EscrowError::Unauthorized);
    assert_eq!(record, before);
}

#[test]
fn test_refund_mismatch() {
    let maker = key(1);
    let stranger = key(11);
    let vault = key(2);
    let mut record = fresh_record();
    initialize_escrow(&maker, &vault, &mut record, 500, &vec![maker], true).unwrap();
    let before = record.clone();

    // A mismatched maker is refused even when it signed: no transfer is
    // requested, so the vault balance stays untouched.
    let r = refund_tokens(&stranger, &vault, &mut record, &vec![stranger]);
    assert_eq!(r.unwrap_err(), EscrowError::RecordMismatch);
    assert_eq!(record, before);
}

#[test]
fn test_refund_unauthorized() {
    let maker = key(1);
    let vault = key(2);
    let mut record = fresh_record();
    initialize_escrow(&maker, &vault, &mut record, 500, &vec![maker], true).unwrap();
    let before = record.clone();

    let r = refund_tokens(&maker, &vault, &mut record, &vec![key(3)]);
    assert_eq!(r.unwrap_err(), EscrowError::Unauthorized);
    assert_eq!(record, before);
}

#[test]
fn test_deposit_unauthorized() {
    let maker = key(1);
    let r = deposit_tokens(&maker, &key(2), 1000, &vec![]);
    assert_eq!(r.unwrap_err(), EscrowError::Unauthorized);
}

#[test]
fn test_serialize_round_trip() {
    let original = Escrow {
        is_initialized: true,
        maker_pubkey: key(1),
        taker_pubkey: Some(key(9)),
        vault_pubkey: key(2),
        amount: 123_456_789,
    };
    let bytes = serialize_escrow(&original);
    assert_eq!(bytes.len(), RECORD_LEN);
    let parsed = deserialize_escrow(&bytes).unwrap();
    assert_eq!(parsed.is_initialized, original.is_initialized);
    assert_eq!(parsed.maker_pubkey, original.maker_pubkey);
    assert_eq!(parsed.taker_pubkey, original.taker_pubkey);
    assert_eq!(parsed.vault_pubkey, original.vault_pubkey);
    assert_eq!(parsed.amount, original.amount);

    // And bytes-first: a validly-initialized record re-serializes to the
    // very same bytes.
    let reserialized = serialize_escrow(&parsed);
    assert_eq!(reserialized, bytes);
}

#[test]
fn test_serialized_layout() {
    let e = Escrow {
        is_initialized: true,
        maker_pubkey: key(0xaa),
        taker_pubkey: None,
        vault_pubkey: key(0xbb),
        amount: 0x0102030405060708,
    };
    let bytes = serialize_escrow(&e);
    let mut expected = vec![1u8];
    expected.extend_from_slice(&[0xaa; 32]);
    expected.push(0);
    expected.extend_from_slice(&[0u8; 32]);
    expected.extend_from_slice(&[0xbb; 32]);
    expected.extend_from_slice(&[0x08, 0x07, 0x06, 0x05, 0x04, 0x03, 0x02, 0x01]);
    assert_eq!(bytes, expected);
}

#[test]
fn test_corrupt_records() {
    // Undersized.
    let short = vec![0u8; RECORD_LEN - 1];
    assert_eq!(
        deserialize_escrow(&short).unwrap_err(),
        EscrowError::CorruptRecord
    );

    // Oversized.
    let long = vec![0u8; RECORD_LEN + 1];
    assert_eq!(
        deserialize_escrow(&long).unwrap_err(),
        EscrowError::CorruptRecord
    );

    // A flag byte that is neither 0 nor 1.
    let mut bad_flag = vec![0u8; RECORD_LEN];
    bad_flag[0] = 2;
    assert_eq!(
        deserialize_escrow(&bad_flag).unwrap_err(),
        EscrowError::CorruptRecord
    );

    // A taker tag that is neither 0 nor 1.
    let mut bad_tag = vec![0u8; RECORD_LEN];
    bad_tag[33] = 2;
    assert_eq!(
        deserialize_escrow(&bad_tag).unwrap_err(),
        EscrowError::CorruptRecord
    );

    // An absent taker whose 32 bytes are not all zero.
    let mut bad_padding = vec![0u8; RECORD_LEN];
    bad_padding[40] = 5;
    assert_eq!(
        deserialize_escrow(&bad_padding).unwrap_err(),
        EscrowError::CorruptRecord
    );

    // Operations surface the corruption and leave the bytes alone.
    let mut record = vec![0u8; RECORD_LEN];
    record[0] = 3;
    let before = record.clone();
    let maker = key(1);
    let r = initialize_escrow(&maker, &key(2), &mut record, 10, &vec![maker], true);
    assert_eq!(r.unwrap_err(), EscrowError::CorruptRecord);
    assert_eq!(record, before);
}

#[test]
fn test_parse_instruction() {
    assert_eq!(
        parse_instruction(&payload(0, 77)).unwrap(),
        EscrowInstruction::InitEscrow { amount: 77 }
    );
    assert_eq!(
        parse_instruction(&payload(1, 55)).unwrap(),
        EscrowInstruction::Deposit { amount: 55 }
    );
    assert_eq!(
        parse_instruction(&vec![2]).unwrap(),
        EscrowInstruction::CompleteEscrow
    );
    assert_eq!(
        parse_instruction(&vec![3]).unwrap(),
        EscrowInstruction::Refund
    );
    assert_eq!(
        parse_instruction(&vec![4]).unwrap_err(),
        EscrowError::InvalidInstruction
    );
    assert_eq!(
        parse_instruction(&vec![]).unwrap_err(),
        EscrowError::InvalidInstruction
    );
}

#[test]
fn test_complete_scenario() {
    // Initialize(maker=M, vault=V, amount=1000), then Complete(taker=T).
    let m = key(1);
    let t = key(9);
    let v = key(2);
    let mut record = fresh_record();

    let accounts = vec![m, v, key(3), key(4), key(5)];
    process_instruction(&accounts, &vec![m], &mut record, true, &payload(0, 1000)).unwrap();

    let accounts = vec![t, m, v, key(4), key(5)];
    let transfer = process_instruction(&accounts, &vec![t], &mut record, true, &vec![2])
        .unwrap()
        .unwrap();
    assert_eq!(transfer.source, v);
    assert_eq!(transfer.destination, t);
    assert_eq!(transfer.authority, m);
    assert_eq!(transfer.amount, 1000);
    assert_eq!(deserialize_escrow(&record).unwrap().taker_pubkey, Some(t));

    // A second completion is rejected.
    let again = process_instruction(&accounts, &vec![t], &mut record, true, &vec![2]);
    assert_eq!(again.unwrap_err(), EscrowError::AlreadyCompleted);
}

#[test]
fn test_refund_scenario() {
    // Initialize(amount=500), then Refund(maker=M): the gateway is asked to
    // move 500 from the vault back to the maker, and the record is settled.
    let m = key(1);
    let v = key(2);
    let mut record = fresh_record();
    initialize_escrow(&m, &v, &mut record, 500, &vec![m], true).unwrap();

    let transfer = refund_tokens(&m, &v, &mut record, &vec![m]).unwrap();
    assert_eq!(transfer.source, v);
    assert_eq!(transfer.destination, m);
    assert_eq!(transfer.amount, 500);

    // The escrow is terminal: a completion attempt after the refund fails.
    let t = key(9);
    let r = take_tokens(&t, &m, &v, &mut record, &vec![t]);
    assert_eq!(r.unwrap_err(), EscrowError::AlreadyCompleted);

    // So does a second refund.
    let r = refund_tokens(&m, &v, &mut record, &vec![m]);
    assert_eq!(r.unwrap_err(), EscrowError::AlreadyCompleted);
}

#[test]
fn test_is_proven() {
    let m = key(1);
    assert!(is_proven(&m, &vec![key(3), m]));
    assert!(!is_proven(&m, &vec![key(3), key(4)]));
    assert!(!is_proven(&m, &vec![]));
}

#[test]
fn test_create_and_release_escrow() {
    let mut ctx = CreateEscrow {
        escrow: EscrowAccount {
            amount: 0,
            is_active: false,
        },
        payer: key(1),
    };
    create_escrow(&mut ctx, 1000).unwrap();
    assert_eq!(ctx.escrow.amount, 1000);
    assert!(ctx.escrow.is_active);

    let mut release = ReleaseEscrow { escrow: ctx.escrow };
    release_escrow(&mut release).unwrap();
    assert!(!release.escrow.is_active);
    assert_eq!(release.escrow.amount, 1000);

    // Funds can be released at most once.
    let again = release_escrow(&mut release);
    assert_eq!(again.unwrap_err(), EscrowError::NotInitialized);
}

#[test]
fn test_hello_solana() {
    let r = HelloSolana::process_instruction(&vec![], &vec![]);
    assert_eq!(r.unwrap(), "Hello, Solana from Steel!");
}
