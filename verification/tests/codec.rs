use escrow::error::EscrowError;
use escrow::instruction::EscrowInstruction;
use escrow::state::Escrow;
use escrow::state::ESCROW_RECORD_LEN;

fn init_bytes(tag: u8, amount: u64) -> Vec<u8> {
    let mut buf = vec![tag];
    buf.extend_from_slice(&amount.to_le_bytes());
    buf
}

#[test]
fn decode_init_escrow() {
    let buf = init_bytes(0, 1000);
    assert_eq!(
        EscrowInstruction::unpack(&buf),
        Ok(EscrowInstruction::InitEscrow { amount: 1000 })
    );
}

#[test]
fn decode_exchange() {
    let buf = init_bytes(1, 500);
    assert_eq!(
        EscrowInstruction::unpack(&buf),
        Ok(EscrowInstruction::Exchange { amount: 500 })
    );
}

#[test]
fn decode_little_endian() {
    let buf = vec![0u8, 0x01, 0x02, 0, 0, 0, 0, 0, 0];
    assert_eq!(
        EscrowInstruction::unpack(&buf),
        Ok(EscrowInstruction::InitEscrow { amount: 0x0201 })
    );
}

#[test]
fn decode_rejects_unknown_tag() {
    let buf = init_bytes(2, 1000);
    assert_eq!(
        EscrowInstruction::unpack(&buf),
        Err(EscrowError::InvalidInstruction)
    );
}

#[test]
fn decode_rejects_empty_buffer() {
    assert_eq!(
        EscrowInstruction::unpack(&[]),
        Err(EscrowError::InvalidInstruction)
    );
}

#[test]
fn decode_rejects_short_payload() {
    let buf = vec![0u8, 1, 2, 3, 4, 5, 6, 7];
    assert_eq!(
        EscrowInstruction::unpack(&buf),
        Err(EscrowError::InvalidInstruction)
    );
}

#[test]
fn decode_ignores_trailing_bytes() {
    let mut buf = init_bytes(1, 7);
    buf.push(0xff);
    buf.push(0xff);
    assert_eq!(
        EscrowInstruction::unpack(&buf),
        Ok(EscrowInstruction::Exchange { amount: 7 })
    );
}

#[test]
fn unpack_amount_reads_first_eight_bytes() {
    let buf = [9u8, 0, 0, 0, 0, 0, 0, 0, 0xff];
    assert_eq!(EscrowInstruction::unpack_amount(&buf), Ok(9));
    assert_eq!(
        EscrowInstruction::unpack_amount(&buf[..7]),
        Err(EscrowError::InvalidInstruction)
    );
}

fn sample_record() -> Escrow {
    Escrow {
        is_initialized: true,
        initializer_pubkey: [7u8; 32],
        temp_token_account_pubkey: [8u8; 32],
        initializer_token_to_recieve_account_pubkey: [9u8; 32],
        expected_amount: 123456789,
    }
}

#[test]
fn pack_layout() {
    let r = sample_record();
    let bytes = r.pack();
    assert_eq!(bytes.len(), ESCROW_RECORD_LEN);
    assert_eq!(bytes[0], 1);
    assert_eq!(&bytes[1..33], &[7u8; 32]);
    assert_eq!(&bytes[33..65], &[8u8; 32]);
    assert_eq!(&bytes[65..97], &[9u8; 32]);
    assert_eq!(&bytes[97..105], &123456789u64.to_le_bytes());
}

#[test]
fn pack_unpack_roundtrip() {
    let r = sample_record();
    let bytes = r.pack();
    assert_eq!(Escrow::unpack_from_slice(&bytes), Ok(r));

    let empty = Escrow {
        is_initialized: false,
        initializer_pubkey: [0u8; 32],
        temp_token_account_pubkey: [0u8; 32],
        initializer_token_to_recieve_account_pubkey: [0u8; 32],
        expected_amount: 0,
    };
    let bytes = empty.pack();
    assert_eq!(bytes, vec![0u8; 105]);
    assert_eq!(Escrow::unpack_from_slice(&bytes), Ok(empty));
}

#[test]
fn unpack_rejects_wrong_length() {
    assert_eq!(
        Escrow::unpack_from_slice(&[0u8; 104]),
        Err(EscrowError::InvalidAccountData)
    );
    assert_eq!(
        Escrow::unpack_from_slice(&[0u8; 106]),
        Err(EscrowError::InvalidAccountData)
    );
}

#[test]
fn unpack_rejects_bad_flag_byte() {
    let mut bytes = vec![0u8; 105];
    bytes[0] = 2;
    assert_eq!(
        Escrow::unpack_from_slice(&bytes),
        Err(EscrowError::InvalidAccountData)
    );
}

#[test]
fn zeroed_slot_reads_empty() {
    let parsed = Escrow::unpack_from_slice(&[0u8; 105]).unwrap();
    assert!(!parsed.is_initialized());
}

#[test]
fn error_codes_are_exhaustive() {
    assert_eq!(EscrowError::InvalidInstruction.code(), 0);
    assert_eq!(EscrowError::MissingSignature.code(), 1);
    assert_eq!(EscrowError::IncorrectOwningProgram.code(), 2);
    assert_eq!(EscrowError::NotRentExempt.code(), 3);
    assert_eq!(EscrowError::AccountAlreadyInitialized.code(), 4);
    assert_eq!(EscrowError::InvalidAccountData.code(), 5);
    assert_eq!(EscrowError::ExpectedAmountMismatch.code(), 6);
    assert_eq!(EscrowError::AmountOverflow.code(), 7);
}
