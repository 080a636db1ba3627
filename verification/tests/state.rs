//! Tests of the pool record store: field-range guards, the authority
//! sentinel, and the two load paths.

use cp_amm_core::codec::encode_config;
use cp_amm_core::error::AmmError;
use cp_amm_core::state::{Config, CONFIG_LEN};

fn blank_config() -> Config {
    Config {
        state: 0,
        seed: 0,
        authority: [0u8; 32],
        mint_x: [0u8; 32],
        mint_y: [0u8; 32],
        fee: 0,
        config_bump: [0u8; 1],
    }
}

#[test]
fn fee_write_accepts_all_below_bound() {
    let mut c = blank_config();
    assert_eq!(c.set_fee(0), Ok(()));
    assert_eq!(c.fee(), 0);
    assert_eq!(c.set_fee(9999), Ok(()));
    assert_eq!(c.fee(), 9999);
}

#[test]
fn fee_write_rejects_at_and_above_bound() {
    let mut c = blank_config();
    c.set_fee(123).unwrap();
    assert_eq!(c.set_fee(10000), Err(AmmError::InvalidRecordState));
    assert_eq!(c.set_fee(u16::MAX), Err(AmmError::InvalidRecordState));
    // the record is untouched by the rejected writes
    assert_eq!(c.fee(), 123);
}

#[test]
fn lifecycle_write_accepts_all_phases() {
    let mut c = blank_config();
    for phase in 0u8..=3 {
        assert_eq!(c.set_state(phase), Ok(()));
        assert_eq!(c.state(), phase);
    }
}

#[test]
fn lifecycle_write_rejects_above_withdraw_only() {
    let mut c = blank_config();
    c.set_state(2).unwrap();
    assert_eq!(c.set_state(4), Err(AmmError::InvalidRecordState));
    assert_eq!(c.set_state(u8::MAX), Err(AmmError::InvalidRecordState));
    assert_eq!(c.state(), 2);
}

#[test]
fn set_inner_writes_all_fields_and_initializes() {
    let mut c = blank_config();
    c.set_inner(9, [1u8; 32], [2u8; 32], [3u8; 32], 500, [251u8; 1])
        .unwrap();
    assert_eq!(c.state(), 1);
    assert_eq!(c.seed(), 9);
    assert_eq!(c.authority(), &[1u8; 32]);
    assert_eq!(c.mint_x(), &[2u8; 32]);
    assert_eq!(c.mint_y(), &[3u8; 32]);
    assert_eq!(c.fee(), 500);
    assert_eq!(c.config_bump(), [251u8; 1]);
}

#[test]
fn set_inner_rejects_out_of_range_fee() {
    let mut c = blank_config();
    assert_eq!(
        c.set_inner(9, [1u8; 32], [2u8; 32], [3u8; 32], 10000, [251u8; 1]),
        Err(AmmError::InvalidRecordState)
    );
    assert_eq!(c.state(), 0);
}

#[test]
fn authority_sentinel_is_all_zero() {
    let mut c = blank_config();
    assert_eq!(c.has_authority(), None);
    let mut one_bit = [0u8; 32];
    one_bit[31] = 1;
    c.set_authority(one_bit);
    assert_eq!(c.has_authority(), Some(one_bit));
}

#[test]
fn load_checks_length_then_owner() {
    let mut c = blank_config();
    c.set_inner(5, [0u8; 32], [2u8; 32], [3u8; 32], 30, [255u8; 1])
        .unwrap();
    let bytes = encode_config(&c);
    let program_id = [42u8; 32];

    let loaded = Config::load(&bytes, &program_id, &program_id).unwrap();
    assert_eq!(loaded, c);

    let wrong_owner = [43u8; 32];
    assert_eq!(
        Config::load(&bytes, &wrong_owner, &program_id),
        Err(AmmError::InvalidAccountOwnership)
    );

    assert_eq!(
        Config::load(&bytes[..CONFIG_LEN - 1], &program_id, &program_id),
        Err(AmmError::InvalidRecordState)
    );
}

#[test]
fn load_mut_applies_the_same_checks_as_load() {
    let c = blank_config();
    let bytes = encode_config(&c);
    let program_id = [42u8; 32];
    assert_eq!(Config::load_mut(&bytes, &program_id, &program_id), Ok(c));
    assert_eq!(
        Config::load_mut(&bytes, &[43u8; 32], &program_id),
        Err(AmmError::InvalidAccountOwnership)
    );
}

#[test]
fn load_mut_unchecked_skips_owner_check_only() {
    let c = blank_config();
    let bytes = encode_config(&c);
    let loaded = Config::load_mut_unchecked(&bytes).unwrap();
    assert_eq!(loaded, c);
    assert_eq!(
        Config::load_mut_unchecked(&bytes[..10]),
        Err(AmmError::InvalidRecordState)
    );
}
