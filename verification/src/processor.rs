//! Operation processors: the complete decision logic of the four state
//! transitions, from a decoded request and the observed balances to the
//! exact amounts the surrounding runtime must move.
//!
//! Each processor applies its guards in a fixed order — freshness first,
//! then the lifecycle gate, then the curve computation, then the caller's
//! slippage bounds — and returns either the outcome or the first error.
//! Nothing here performs a transfer: a returned error therefore means no
//! balance was touched, and the host's whole-invocation atomicity covers
//! the rest.

use vstd::prelude::*;

use crate::codec::{DepositInstructionData, InitializeInstructionData, SwapInstructionData,
    WithdrawInstructionData};
use crate::curve;
use crate::error::AmmError;
use crate::state::{AmmState, Config, FEE_BPS_BOUND};

verus! {

/// Decimal precision of the LP mint created at pool initialization.
pub const LP_DECIMALS: u8 = 6;

/// Byte size of a token-mint account, needed to fund its creation.
pub const MINT_ACCOUNT_LEN: usize = 82;

/// Amounts a deposit moves: `x` and `y` into the vaults, `lp` minted.
#[derive(Clone, Copy, Debug, PartialEq, Eq, Structural)]
pub struct DepositOutcome {
    pub x: u64,
    pub y: u64,
    pub lp: u64,
}

/// Amounts a withdrawal moves: `burn` LP destroyed, `x` and `y` paid out.
#[derive(Clone, Copy, Debug, PartialEq, Eq, Structural)]
pub struct WithdrawOutcome {
    pub x: u64,
    pub y: u64,
    pub burn: u64,
}

/// Amounts a swap moves: the user pays `user_pays` into one vault and
/// receives `user_receives` from the other; `x_to_y` names the direction.
#[derive(Clone, Copy, Debug, PartialEq, Eq, Structural)]
pub struct SwapOutcome {
    pub x_to_y: bool,
    pub user_pays: u64,
    pub user_receives: u64,
}

/// The deposit decision. Guards in order: freshness, lifecycle
/// (`Initialized` only), curve arithmetic, then the caller's ceilings.
/// On the first deposit (`supply == 0`) the request's `max_x`/`max_y` are
/// taken verbatim and the caller-supplied `amount` of LP is minted.
pub open spec fn spec_deposit_outcome(
    cfg: Config,
    supply: u64,
    vault_x: u64,
    vault_y: u64,
    d: DepositInstructionData,
    now: i64,
) -> Result<DepositOutcome, AmmError> {
    if now > d.expiration {
        Err(AmmError::ExpiredRequest)
    } else if cfg.state != AmmState::Initialized.spec_as_byte() {
        Err(AmmError::WrongLifecyclePhase)
    } else if supply == 0 {
        Ok(DepositOutcome { x: d.max_x, y: d.max_y, lp: d.amount })
    } else if curve::spec_deposit_share(vault_x, supply, d.amount) > u64::MAX
        || curve::spec_deposit_share(vault_y, supply, d.amount) > u64::MAX {
        Err(AmmError::ArithmeticFailure)
    } else if curve::spec_deposit_share(vault_x, supply, d.amount) > d.max_x
        || curve::spec_deposit_share(vault_y, supply, d.amount) > d.max_y {
        Err(AmmError::SlippageExceeded)
    } else {
        Ok(
            DepositOutcome {
                x: curve::spec_deposit_share(vault_x, supply, d.amount) as u64,
                y: curve::spec_deposit_share(vault_y, supply, d.amount) as u64,
                lp: d.amount,
            },
        )
    }
}

/// Computes a deposit: the tokens to pull into the vaults and the LP to
/// mint, or the first guard failure. An error means nothing is moved.
pub fn process_deposit(
    cfg: &Config,
    supply: u64,
    vault_x: u64,
    vault_y: u64,
    d: &DepositInstructionData,
    now: i64,
) -> (r: Result<DepositOutcome, AmmError>)
    requires
        cfg.wf(),
    ensures
        r == spec_deposit_outcome(*cfg, supply, vault_x, vault_y, *d, now),
        now > d.expiration ==> r == Err::<DepositOutcome, AmmError>(AmmError::ExpiredRequest),
        r is Ok ==> r->Ok_0.x <= d.max_x && r->Ok_0.y <= d.max_y,
        r is Ok ==> r->Ok_0.lp == d.amount,
        r is Ok && supply == 0 ==> r->Ok_0.x == d.max_x && r->Ok_0.y == d.max_y,
{
    if now > d.expiration {
        return Err(AmmError::ExpiredRequest);
    }
    if cfg.state != AmmState::Initialized.as_byte() {
        return Err(AmmError::WrongLifecyclePhase);
    }
    if supply == 0 {
        return Ok(DepositOutcome { x: d.max_x, y: d.max_y, lp: d.amount });
    }
    let (x, y) = curve::deposit_amounts(vault_x, vault_y, supply, d.amount)?;
    if x > d.max_x || y > d.max_y {
        return Err(AmmError::SlippageExceeded);
    }
    Ok(DepositOutcome { x, y, lp: d.amount })
}

/// The withdraw decision. Guards in order: freshness, lifecycle (only
/// `Disabled` forbids exits), curve arithmetic, then the caller's floors.
/// Burning the whole supply pays out both vault balances verbatim, so no
/// rounding dust is ever stranded.
pub open spec fn spec_withdraw_outcome(
    cfg: Config,
    supply: u64,
    vault_x: u64,
    vault_y: u64,
    d: WithdrawInstructionData,
    now: i64,
) -> Result<WithdrawOutcome, AmmError> {
    if now > d.expiration {
        Err(AmmError::ExpiredRequest)
    } else if cfg.state == AmmState::Disabled.spec_as_byte() {
        Err(AmmError::WrongLifecyclePhase)
    } else if d.amount == supply {
        if vault_x < d.min_x || vault_y < d.min_y {
            Err(AmmError::SlippageExceeded)
        } else {
            Ok(WithdrawOutcome { x: vault_x, y: vault_y, burn: d.amount })
        }
    } else if d.amount > supply {
        Err(AmmError::ArithmeticFailure)
    } else if curve::spec_withdraw_share(vault_x, supply, d.amount) < d.min_x
        || curve::spec_withdraw_share(vault_y, supply, d.amount) < d.min_y {
        Err(AmmError::SlippageExceeded)
    } else {
        Ok(
            WithdrawOutcome {
                x: curve::spec_withdraw_share(vault_x, supply, d.amount) as u64,
                y: curve::spec_withdraw_share(vault_y, supply, d.amount) as u64,
                burn: d.amount,
            },
        )
    }
}

/// Computes a withdrawal: the LP to burn and the tokens to pay out, or the
/// first guard failure. An error means nothing is moved.
pub fn process_withdraw(
    cfg: &Config,
    supply: u64,
    vault_x: u64,
    vault_y: u64,
    d: &WithdrawInstructionData,
    now: i64,
) -> (r: Result<WithdrawOutcome, AmmError>)
    requires
        cfg.wf(),
    ensures
        r == spec_withdraw_outcome(*cfg, supply, vault_x, vault_y, *d, now),
        now > d.expiration ==> r == Err::<WithdrawOutcome, AmmError>(AmmError::ExpiredRequest),
        r is Ok ==> r->Ok_0.x >= d.min_x && r->Ok_0.y >= d.min_y,
        r is Ok ==> r->Ok_0.x <= vault_x && r->Ok_0.y <= vault_y,
        r is Ok ==> r->Ok_0.burn == d.amount,
        now <= d.expiration && cfg.state != AmmState::Disabled.spec_as_byte() && d.amount == supply
            && vault_x >= d.min_x && vault_y >= d.min_y ==> r is Ok && r->Ok_0.x == vault_x
            && r->Ok_0.y == vault_y,
{
    if now > d.expiration {
        return Err(AmmError::ExpiredRequest);
    }
    if cfg.state == AmmState::Disabled.as_byte() {
        return Err(AmmError::WrongLifecyclePhase);
    }
    if d.amount == supply {
        if vault_x < d.min_x || vault_y < d.min_y {
            return Err(AmmError::SlippageExceeded);
        }
        return Ok(WithdrawOutcome { x: vault_x, y: vault_y, burn: d.amount });
    }
    if d.amount > supply {
        return Err(AmmError::ArithmeticFailure);
    }
    let (x, y) = match curve::withdraw_amounts(vault_x, vault_y, supply, d.amount) {
        Ok(shares) => shares,
        Err(e) => {
            return Err(e);
        },
    };
    if x < d.min_x || y < d.min_y {
        return Err(AmmError::SlippageExceeded);
    }
    Ok(WithdrawOutcome { x, y, burn: d.amount })
}

/// The swap decision. Guards in order: freshness, lifecycle
/// (`Initialized` exactly), curve arithmetic on the chosen direction, then
/// the caller's output floor.
pub open spec fn spec_swap_outcome(
    cfg: Config,
    vault_x: u64,
    vault_y: u64,
    d: SwapInstructionData,
    now: i64,
) -> Result<SwapOutcome, AmmError> {
    let reserve_in = if d.is_x { vault_x } else { vault_y };
    let reserve_out = if d.is_x { vault_y } else { vault_x };
    if now > d.expiration {
        Err(AmmError::ExpiredRequest)
    } else if cfg.state != AmmState::Initialized.spec_as_byte() {
        Err(AmmError::WrongLifecyclePhase)
    } else if reserve_in == 0 || reserve_out == 0 || reserve_in + d.amount > u64::MAX {
        Err(AmmError::ArithmeticFailure)
    } else if curve::spec_swap_output(reserve_in, reserve_out, cfg.fee, d.amount) < d.min {
        Err(AmmError::SlippageExceeded)
    } else {
        Ok(
            SwapOutcome {
                x_to_y: d.is_x,
                user_pays: d.amount,
                user_receives: curve::spec_swap_output(
                    reserve_in,
                    reserve_out,
                    cfg.fee,
                    d.amount,
                ) as u64,
            },
        )
    }
}

/// Computes a swap: the exact amount pulled from the user and the exact
/// amount paid out after the fee, or the first guard failure. An error
/// means nothing is moved.
pub fn process_swap(
    cfg: &Config,
    vault_x: u64,
    vault_y: u64,
    d: &SwapInstructionData,
    now: i64,
) -> (r: Result<SwapOutcome, AmmError>)
    requires
        cfg.wf(),
    ensures
        r == spec_swap_outcome(*cfg, vault_x, vault_y, *d, now),
        now > d.expiration ==> r == Err::<SwapOutcome, AmmError>(AmmError::ExpiredRequest),
        r is Ok ==> r->Ok_0.user_receives >= d.min,
        r is Ok ==> r->Ok_0.user_pays == d.amount,
        r is Ok ==> r->Ok_0.x_to_y == d.is_x,
        r is Ok && d.is_x ==> r->Ok_0.user_receives <= vault_y && vault_x + d.amount <= u64::MAX,
        r is Ok && !d.is_x ==> r->Ok_0.user_receives <= vault_x && vault_y + d.amount <= u64::MAX,
{
    if now > d.expiration {
        return Err(AmmError::ExpiredRequest);
    }
    if cfg.state != AmmState::Initialized.as_byte() {
        return Err(AmmError::WrongLifecyclePhase);
    }
    let reserve_in = if d.is_x { vault_x } else { vault_y };
    let reserve_out = if d.is_x { vault_y } else { vault_x };
    let (pays, receives) = match curve::swap_amounts(reserve_in, reserve_out, cfg.fee, d.amount) {
        Ok(amounts) => amounts,
        Err(e) => {
            return Err(e);
        },
    };
    if receives < d.min {
        return Err(AmmError::SlippageExceeded);
    }
    Ok(SwapOutcome { x_to_y: d.is_x, user_pays: pays, user_receives: receives })
}

/// After any accepted swap the product of the vault balances never
/// decreases: the fee and the rounding both accrue to the pool.
pub proof fn lemma_swap_outcome_product(
    cfg: Config,
    vault_x: u64,
    vault_y: u64,
    d: SwapInstructionData,
    now: i64,
)
    requires
        cfg.wf(),
        spec_swap_outcome(cfg, vault_x, vault_y, d, now) is Ok,
    ensures
        ({
            let o = spec_swap_outcome(cfg, vault_x, vault_y, d, now)->Ok_0;
            if o.x_to_y {
                (vault_x + o.user_pays) * (vault_y - o.user_receives) >= vault_x * vault_y
            } else {
                (vault_y + o.user_pays) * (vault_x - o.user_receives) >= vault_y * vault_x
            }
        }),
{
    let reserve_in = if d.is_x { vault_x } else { vault_y };
    let reserve_out = if d.is_x { vault_y } else { vault_x };
    curve::lemma_swap_output_bounded(reserve_in, reserve_out, cfg.fee, d.amount);
    curve::lemma_swap_product_non_decreasing(reserve_in, reserve_out, cfg.fee, d.amount);
}

/// Builds the pool record an initialize operation persists: every request
/// field written through [`Config::set_inner`], which moves the record to
/// `Initialized` and rejects an out-of-range fee.
pub fn process_initialize(d: &InitializeInstructionData) -> (r: Result<Config, AmmError>)
    ensures
        d.fee >= FEE_BPS_BOUND ==> r == Err::<Config, AmmError>(AmmError::InvalidRecordState),
        d.fee < FEE_BPS_BOUND ==> r == Ok::<Config, AmmError>(
            Config {
                state: AmmState::Initialized.spec_as_byte(),
                seed: d.seed,
                authority: d.authority,
                mint_x: d.mint_x,
                mint_y: d.mint_y,
                fee: d.fee,
                config_bump: d.config_bump,
            },
        ),
        r is Ok ==> r->Ok_0.wf(),
{
    let mut cfg = Config {
        state: AmmState::Uninitialized.as_byte(),
        seed: 0,
        authority: [0u8; 32],
        mint_x: [0u8; 32],
        mint_y: [0u8; 32],
        fee: 0,
        config_bump: [0u8; 1],
    };
    cfg.set_inner(d.seed, d.authority, d.mint_x, d.mint_y, d.fee, d.config_bump)?;
    Ok(cfg)
}

} // verus!
