//! Tests of account-arity resolution and of the derivation seed tuples.

use cp_amm_core::accounts::{
    DepositAccounts, InitializeAccounts, SwapAccounts, WithdrawAccounts,
};
use cp_amm_core::authority::{lp_mint_seeds, pool_authority_seeds};
use cp_amm_core::error::AmmError;

#[test]
fn arity_is_checked_per_operation() {
    assert_eq!(InitializeAccounts::resolve(2), Err(AmmError::MissingAccounts));
    assert!(InitializeAccounts::resolve(3).is_ok());
    assert_eq!(DepositAccounts::resolve(8), Err(AmmError::MissingAccounts));
    assert!(DepositAccounts::resolve(9).is_ok());
    assert_eq!(WithdrawAccounts::resolve(8), Err(AmmError::MissingAccounts));
    assert!(WithdrawAccounts::resolve(9).is_ok());
    assert_eq!(SwapAccounts::resolve(6), Err(AmmError::MissingAccounts));
    assert!(SwapAccounts::resolve(7).is_ok());
    assert_eq!(DepositAccounts::resolve(0), Err(AmmError::MissingAccounts));
}

#[test]
fn extra_trailing_accounts_are_ignored() {
    let a = SwapAccounts::resolve(12).unwrap();
    assert_eq!(a.user, 0);
    assert_eq!(a.token_program, 6);
}

#[test]
fn roles_bind_in_fixed_order() {
    let a = DepositAccounts::resolve(9).unwrap();
    assert_eq!(
        (a.user, a.mint_lp, a.vault_x, a.vault_y, a.user_x_ata, a.user_y_ata, a.user_lp_ata,
            a.config, a.token_program),
        (0, 1, 2, 3, 4, 5, 6, 7, 8)
    );
    let w = WithdrawAccounts::resolve(9).unwrap();
    assert_eq!((w.user, w.config, w.token_program), (0, 7, 8));
    let i = InitializeAccounts::resolve(3).unwrap();
    assert_eq!((i.initializer, i.mint_lp, i.config), (0, 1, 2));
}

#[test]
fn pool_authority_seed_tuple_is_stable() {
    let mint_x = [1u8; 32];
    let mint_y = [2u8; 32];
    let seeds = pool_authority_seeds(0x0102030405060708, &mint_x, &mint_y, [250u8; 1]);
    assert_eq!(seeds.len(), 5);
    assert_eq!(seeds[0], b"config".to_vec());
    assert_eq!(seeds[1], vec![8, 7, 6, 5, 4, 3, 2, 1]);
    assert_eq!(seeds[2], mint_x.to_vec());
    assert_eq!(seeds[3], mint_y.to_vec());
    assert_eq!(seeds[4], vec![250]);
}

#[test]
fn lp_mint_seed_tuple_is_stable() {
    let pool = [9u8; 32];
    let seeds = lp_mint_seeds(&pool, [7u8; 1]);
    assert_eq!(seeds.len(), 3);
    assert_eq!(seeds[0], b"mint_lp".to_vec());
    assert_eq!(seeds[1], pool.to_vec());
    assert_eq!(seeds[2], vec![7]);
}
