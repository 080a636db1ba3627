//! Tests of the curve engine: exact values for each formula, the rounding
//! directions, and the product guarantee on concrete swaps.

use cp_amm_core::curve::{deposit_amounts, swap_amounts, withdraw_amounts};
use cp_amm_core::error::AmmError;

#[test]
fn deposit_shares_are_proportional_and_round_up() {
    // 10% of the supply claims 10% of each reserve
    assert_eq!(deposit_amounts(1000, 2000, 100, 10), Ok((100, 200)));
    // 7 * 1000 / 3 = 2333.33..., rounded up to 2334 in the pool's favour
    assert_eq!(deposit_amounts(1000, 999, 3, 7), Ok((2334, 2331)));
    // zero requested mints cost nothing
    assert_eq!(deposit_amounts(1000, 2000, 100, 0), Ok((0, 0)));
}

#[test]
fn deposit_overflow_is_an_arithmetic_failure() {
    assert_eq!(
        deposit_amounts(u64::MAX, u64::MAX, 1, 2),
        Err(AmmError::ArithmeticFailure)
    );
}

#[test]
fn withdraw_shares_are_proportional_and_round_down() {
    assert_eq!(withdraw_amounts(1000, 2000, 100, 10), Ok((100, 200)));
    // 1000 * 1 / 3 = 333.33..., rounded down to 333 in the pool's favour
    assert_eq!(withdraw_amounts(1000, 2000, 3, 1), Ok((333, 666)));
}

#[test]
fn withdraw_rejects_burning_more_than_supply() {
    assert_eq!(
        withdraw_amounts(1000, 2000, 100, 101),
        Err(AmmError::ArithmeticFailure)
    );
}

#[test]
fn swap_without_fee_follows_constant_product() {
    // out = 1000 * 100 / (1000 + 100) = 90.9..., rounded down to 90
    assert_eq!(swap_amounts(1000, 1000, 0, 100), Ok((100, 90)));
}

#[test]
fn swap_with_fee_pays_less() {
    // 30 bps: effective input 100 * 9970 / 10000 = 99;
    // out = 1000 * 99 / 1099 = 90.08..., rounded down to 90
    assert_eq!(swap_amounts(1000, 1000, 30, 100), Ok((100, 90)));
    // 10% fee: effective input 90; out = 1000 * 90 / 1090 = 82
    assert_eq!(swap_amounts(1000, 1000, 1000, 100), Ok((100, 82)));
}

#[test]
fn swap_product_never_decreases_on_samples() {
    let cases: [(u64, u64, u16, u64); 6] = [
        (1000, 1000, 0, 100),
        (1000, 1000, 30, 100),
        (1, 1, 0, 1),
        (3, 7, 9999, 1000),
        (123456789, 987654321, 25, 55555),
        (u64::MAX - 1, u64::MAX, 1, 1),
    ];
    for (rin, rout, fee, amount) in cases {
        let (pays, receives) = swap_amounts(rin, rout, fee, amount).unwrap();
        assert_eq!(pays, amount);
        let before = (rin as u128) * (rout as u128);
        let after = (rin as u128 + pays as u128) * ((rout - receives) as u128);
        assert!(after >= before, "product shrank for {:?}", (rin, rout, fee, amount));
    }
}

#[test]
fn swap_rejects_empty_reserves_and_input_overflow() {
    assert_eq!(swap_amounts(0, 1000, 0, 5), Err(AmmError::ArithmeticFailure));
    assert_eq!(swap_amounts(1000, 0, 0, 5), Err(AmmError::ArithmeticFailure));
    assert_eq!(
        swap_amounts(u64::MAX, 1000, 0, 1),
        Err(AmmError::ArithmeticFailure)
    );
}
