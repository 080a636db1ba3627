//! Tests of the wire codec: record round trip, payload layouts, opcode
//! dispatch, and the short initialize form.

use cp_amm_core::codec::{
    decode_config, decode_instruction, encode_config, AmmInstruction, DepositInstructionData,
    InitializeInstructionData, SwapInstructionData, WithdrawInstructionData,
};
use cp_amm_core::error::AmmError;
use cp_amm_core::state::{Config, CONFIG_LEN};

fn sample_config() -> Config {
    Config {
        state: 1,
        seed: 0x0102030405060708,
        authority: [7u8; 32],
        mint_x: [9u8; 32],
        mint_y: [11u8; 32],
        fee: 250,
        config_bump: [254u8; 1],
    }
}

#[test]
fn config_round_trip() {
    let c = sample_config();
    let bytes = encode_config(&c);
    assert_eq!(bytes.len(), CONFIG_LEN);
    let back = decode_config(&bytes);
    assert_eq!(back, c);
}

#[test]
fn config_round_trip_zero_record() {
    let c = Config {
        state: 0,
        seed: 0,
        authority: [0u8; 32],
        mint_x: [0u8; 32],
        mint_y: [0u8; 32],
        fee: 0,
        config_bump: [0u8; 1],
    };
    let bytes = encode_config(&c);
    let back = decode_config(&bytes);
    assert_eq!(back, c);
}

#[test]
fn config_layout_is_little_endian() {
    let c = sample_config();
    let bytes = encode_config(&c);
    assert_eq!(bytes[0], 1);
    // seed, little-endian
    assert_eq!(&bytes[1..9], &[8, 7, 6, 5, 4, 3, 2, 1]);
    assert_eq!(&bytes[9..41], &[7u8; 32]);
    assert_eq!(&bytes[41..73], &[9u8; 32]);
    assert_eq!(&bytes[73..105], &[11u8; 32]);
    // fee 250 = 0xfa, little-endian
    assert_eq!(&bytes[105..107], &[0xfa, 0x00]);
    assert_eq!(bytes[107], 254);
}

fn long_initialize_payload() -> Vec<u8> {
    let mut p = Vec::new();
    p.extend_from_slice(&42u64.to_le_bytes());
    p.extend_from_slice(&100u16.to_le_bytes());
    p.extend_from_slice(&[1u8; 32]);
    p.extend_from_slice(&[2u8; 32]);
    p.push(253);
    p.push(252);
    p.extend_from_slice(&[3u8; 32]);
    p
}

#[test]
fn initialize_long_form_decodes_every_field() {
    let p = long_initialize_payload();
    let d = InitializeInstructionData::decode(&p).unwrap();
    assert_eq!(d.seed, 42);
    assert_eq!(d.fee, 100);
    assert_eq!(d.mint_x, [1u8; 32]);
    assert_eq!(d.mint_y, [2u8; 32]);
    assert_eq!(d.config_bump, [253u8; 1]);
    assert_eq!(d.lp_bump, [252u8; 1]);
    assert_eq!(d.authority, [3u8; 32]);
}

#[test]
fn initialize_short_form_equals_long_form_with_zero_authority() {
    let long = long_initialize_payload();
    let mut zeroed_long = long[..76].to_vec();
    zeroed_long.extend_from_slice(&[0u8; 32]);
    let short = &long[..76];

    let from_short = InitializeInstructionData::decode(short).unwrap();
    let from_long = InitializeInstructionData::decode(&zeroed_long).unwrap();
    assert_eq!(from_short, from_long);
    assert_eq!(from_short.authority, [0u8; 32]);
}

#[test]
fn initialize_rejects_other_lengths() {
    let long = long_initialize_payload();
    assert_eq!(
        InitializeInstructionData::decode(&long[..75]),
        Err(AmmError::MalformedPayload)
    );
    let mut too_long = long.clone();
    too_long.push(0);
    assert_eq!(
        InitializeInstructionData::decode(&too_long),
        Err(AmmError::MalformedPayload)
    );
    assert_eq!(
        InitializeInstructionData::decode(&[]),
        Err(AmmError::MalformedPayload)
    );
}

fn deposit_payload() -> Vec<u8> {
    let mut p = Vec::new();
    p.extend_from_slice(&1000u64.to_le_bytes());
    p.extend_from_slice(&1500u64.to_le_bytes());
    p.extend_from_slice(&2500u64.to_le_bytes());
    p.extend_from_slice(&(-5i64).to_le_bytes());
    p
}

#[test]
fn deposit_payload_decodes() {
    let d = DepositInstructionData::decode(&deposit_payload()).unwrap();
    assert_eq!(d.amount, 1000);
    assert_eq!(d.max_x, 1500);
    assert_eq!(d.max_y, 2500);
    assert_eq!(d.expiration, -5);
}

#[test]
fn deposit_payload_rejects_wrong_length() {
    let p = deposit_payload();
    assert_eq!(
        DepositInstructionData::decode(&p[..31]),
        Err(AmmError::MalformedPayload)
    );
    let mut too_long = p.clone();
    too_long.push(0);
    assert_eq!(
        DepositInstructionData::decode(&too_long),
        Err(AmmError::MalformedPayload)
    );
}

#[test]
fn withdraw_payload_decodes() {
    let mut p = Vec::new();
    p.extend_from_slice(&777u64.to_le_bytes());
    p.extend_from_slice(&10u64.to_le_bytes());
    p.extend_from_slice(&20u64.to_le_bytes());
    p.extend_from_slice(&i64::MAX.to_le_bytes());
    let d = WithdrawInstructionData::decode(&p).unwrap();
    assert_eq!(d.amount, 777);
    assert_eq!(d.min_x, 10);
    assert_eq!(d.min_y, 20);
    assert_eq!(d.expiration, i64::MAX);
}

fn swap_payload(direction: u8) -> Vec<u8> {
    let mut p = Vec::new();
    p.push(direction);
    p.extend_from_slice(&300u64.to_le_bytes());
    p.extend_from_slice(&9u64.to_le_bytes());
    p.extend_from_slice(&1234i64.to_le_bytes());
    p
}

#[test]
fn swap_payload_decodes_both_directions() {
    let d = SwapInstructionData::decode(&swap_payload(1)).unwrap();
    assert!(d.is_x);
    assert_eq!(d.amount, 300);
    assert_eq!(d.min, 9);
    assert_eq!(d.expiration, 1234);

    let d = SwapInstructionData::decode(&swap_payload(0)).unwrap();
    assert!(!d.is_x);
}

#[test]
fn swap_payload_rejects_wrong_length() {
    let p = swap_payload(1);
    assert_eq!(
        SwapInstructionData::decode(&p[..24]),
        Err(AmmError::MalformedPayload)
    );
}

#[test]
fn instruction_dispatch_selects_by_opcode() {
    let mut buf = vec![1u8];
    buf.extend_from_slice(&deposit_payload());
    match decode_instruction(&buf).unwrap() {
        AmmInstruction::Deposit(d) => assert_eq!(d.amount, 1000),
        other => panic!("wrong variant: {:?}", other),
    }

    let mut buf = vec![2u8];
    buf.extend_from_slice(&deposit_payload());
    match decode_instruction(&buf).unwrap() {
        AmmInstruction::Withdraw(d) => assert_eq!(d.amount, 1000),
        other => panic!("wrong variant: {:?}", other),
    }

    let mut buf = vec![3u8];
    buf.extend_from_slice(&swap_payload(0));
    match decode_instruction(&buf).unwrap() {
        AmmInstruction::Swap(d) => assert_eq!(d.amount, 300),
        other => panic!("wrong variant: {:?}", other),
    }

    let mut buf = vec![0u8];
    buf.extend_from_slice(&long_initialize_payload());
    match decode_instruction(&buf).unwrap() {
        AmmInstruction::Initialize(d) => assert_eq!(d.seed, 42),
        other => panic!("wrong variant: {:?}", other),
    }
}

#[test]
fn instruction_accepts_short_initialize_form() {
    let long = long_initialize_payload();
    let mut buf = vec![0u8];
    buf.extend_from_slice(&long[..76]);
    match decode_instruction(&buf).unwrap() {
        AmmInstruction::Initialize(d) => {
            assert_eq!(d.seed, 42);
            assert_eq!(d.authority, [0u8; 32]);
        }
        other => panic!("wrong variant: {:?}", other),
    }
}

#[test]
fn swap_direction_byte_reads_nonzero_as_x_input() {
    let d = SwapInstructionData::decode(&swap_payload(255)).unwrap();
    assert!(d.is_x);
}

#[test]
fn instruction_rejects_unknown_opcode_and_empty_buffer() {
    assert_eq!(decode_instruction(&[]), Err(AmmError::MalformedPayload));
    let mut buf = vec![4u8];
    buf.extend_from_slice(&deposit_payload());
    assert_eq!(decode_instruction(&buf), Err(AmmError::MalformedPayload));
}

#[test]
fn instruction_rejects_payload_length_mismatch() {
    // deposit payload behind the swap opcode: wrong length for that opcode
    let mut buf = vec![3u8];
    buf.extend_from_slice(&deposit_payload());
    assert_eq!(decode_instruction(&buf), Err(AmmError::MalformedPayload));
}
