//! Account context resolution: binding a flat, ordered account list to the
//! named roles of each operation.
//!
//! The resolver sees only how many accounts were supplied. It checks the
//! operation's arity before anything touches an account, and on success
//! hands back the fixed position of every role; extra trailing accounts
//! are accepted and ignored.

use vstd::prelude::*;

use crate::error::AmmError;

verus! {

/// Number of accounts an initialize operation requires.
pub const INITIALIZE_ARITY: usize = 3;

/// Number of accounts a deposit operation requires.
pub const DEPOSIT_ARITY: usize = 9;

/// Number of accounts a withdraw operation requires.
pub const WITHDRAW_ARITY: usize = 9;

/// Number of accounts a swap operation requires.
pub const SWAP_ARITY: usize = 7;

/// Positions of the initialize roles in the supplied account list.
#[derive(Clone, Copy, Debug, PartialEq, Eq, Structural)]
pub struct InitializeAccounts {
    pub initializer: usize,
    pub mint_lp: usize,
    pub config: usize,
}

impl InitializeAccounts {
    /// Binds the initialize roles, failing before any account is read when
    /// fewer than the required accounts are supplied.
    pub fn resolve(n_accounts: usize) -> (r: Result<InitializeAccounts, AmmError>)
        ensures
            n_accounts < INITIALIZE_ARITY ==> r == Err::<InitializeAccounts, AmmError>(
                AmmError::MissingAccounts,
            ),
            n_accounts >= INITIALIZE_ARITY ==> r == Ok::<InitializeAccounts, AmmError>(
                InitializeAccounts { initializer: 0, mint_lp: 1, config: 2 },
            ),
    {
        if n_accounts < INITIALIZE_ARITY {
            return Err(AmmError::MissingAccounts);
        }
        Ok(InitializeAccounts { initializer: 0, mint_lp: 1, config: 2 })
    }
}

/// Positions of the deposit roles in the supplied account list.
#[derive(Clone, Copy, Debug, PartialEq, Eq, Structural)]
pub struct DepositAccounts {
    pub user: usize,
    pub mint_lp: usize,
    pub vault_x: usize,
    pub vault_y: usize,
    pub user_x_ata: usize,
    pub user_y_ata: usize,
    pub user_lp_ata: usize,
    pub config: usize,
    pub token_program: usize,
}

impl DepositAccounts {
    /// Binds the deposit roles, failing before any account is read when
    /// fewer than the required accounts are supplied.
    pub fn resolve(n_accounts: usize) -> (r: Result<DepositAccounts, AmmError>)
        ensures
            n_accounts < DEPOSIT_ARITY ==> r == Err::<DepositAccounts, AmmError>(
                AmmError::MissingAccounts,
            ),
            n_accounts >= DEPOSIT_ARITY ==> r == Ok::<DepositAccounts, AmmError>(
                DepositAccounts {
                    user: 0,
                    mint_lp: 1,
                    vault_x: 2,
                    vault_y: 3,
                    user_x_ata: 4,
                    user_y_ata: 5,
                    user_lp_ata: 6,
                    config: 7,
                    token_program: 8,
                },
            ),
    {
        if n_accounts < DEPOSIT_ARITY {
            return Err(AmmError::MissingAccounts);
        }
        Ok(
            DepositAccounts {
                user: 0,
                mint_lp: 1,
                vault_x: 2,
                vault_y: 3,
                user_x_ata: 4,
                user_y_ata: 5,
                user_lp_ata: 6,
                config: 7,
                token_program: 8,
            },
        )
    }
}

/// Positions of the withdraw roles in the supplied account list; the same
/// roles and order as a deposit.
#[derive(Clone, Copy, Debug, PartialEq, Eq, Structural)]
pub struct WithdrawAccounts {
    pub user: usize,
    pub mint_lp: usize,
    pub vault_x: usize,
    pub vault_y: usize,
    pub user_x_ata: usize,
    pub user_y_ata: usize,
    pub user_lp_ata: usize,
    pub config: usize,
    pub token_program: usize,
}

impl WithdrawAccounts {
    /// Binds the withdraw roles, failing before any account is read when
    /// fewer than the required accounts are supplied.
    pub fn resolve(n_accounts: usize) -> (r: Result<WithdrawAccounts, AmmError>)
        ensures
            n_accounts < WITHDRAW_ARITY ==> r == Err::<WithdrawAccounts, AmmError>(
                AmmError::MissingAccounts,
            ),
            n_accounts >= WITHDRAW_ARITY ==> r == Ok::<WithdrawAccounts, AmmError>(
                WithdrawAccounts {
                    user: 0,
                    mint_lp: 1,
                    vault_x: 2,
                    vault_y: 3,
                    user_x_ata: 4,
                    user_y_ata: 5,
                    user_lp_ata: 6,
                    config: 7,
                    token_program: 8,
                },
            ),
    {
        if n_accounts < WITHDRAW_ARITY {
            return Err(AmmError::MissingAccounts);
        }
        Ok(
            WithdrawAccounts {
                user: 0,
                mint_lp: 1,
                vault_x: 2,
                vault_y: 3,
                user_x_ata: 4,
                user_y_ata: 5,
                user_lp_ata: 6,
                config: 7,
                token_program: 8,
            },
        )
    }
}

/// Positions of the swap roles in the supplied account list.
#[derive(Clone, Copy, Debug, PartialEq, Eq, Structural)]
pub struct SwapAccounts {
    pub user: usize,
    pub user_x_ata: usize,
    pub user_y_ata: usize,
    pub vault_x: usize,
    pub vault_y: usize,
    pub config: usize,
    pub token_program: usize,
}

impl SwapAccounts {
    /// Binds the swap roles, failing before any account is read when fewer
    /// than the required accounts are supplied.
    pub fn resolve(n_accounts: usize) -> (r: Result<SwapAccounts, AmmError>)
        ensures
            n_accounts < SWAP_ARITY ==> r == Err::<SwapAccounts, AmmError>(
                AmmError::MissingAccounts,
            ),
            n_accounts >= SWAP_ARITY ==> r == Ok::<SwapAccounts, AmmError>(
                SwapAccounts {
                    user: 0,
                    user_x_ata: 1,
                    user_y_ata: 2,
                    vault_x: 3,
                    vault_y: 4,
                    config: 5,
                    token_program: 6,
                },
            ),
    {
        if n_accounts < SWAP_ARITY {
            return Err(AmmError::MissingAccounts);
        }
        Ok(
            SwapAccounts {
                user: 0,
                user_x_ata: 1,
                user_y_ata: 2,
                vault_x: 3,
                vault_y: 4,
                config: 5,
                token_program: 6,
            },
        )
    }
}

} // verus!
