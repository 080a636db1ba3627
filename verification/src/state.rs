//! The persisted pool record and its field-level invariants.
//!
//! A pool is one fixed-size record: lifecycle state, instance seed, optional
//! privileged authority, the two reserve mint addresses, the fee in basis
//! points, and the signing bump. Writes go through the setters, which
//! enforce the field ranges; the well-formedness predicate [`Config::wf`]
//! is what every operation processor assumes of a loaded record.

use vstd::prelude::*;

use crate::codec;
use crate::error::AmmError;

verus! {

/// Number of bytes of an encoded pool record: one lifecycle byte, the
/// 8-byte seed, three 32-byte addresses, the 2-byte fee and the bump.
pub const CONFIG_LEN: usize = 108;

/// Highest lifecycle value a record may hold.
pub const MAX_LIFECYCLE: u8 = 3;

/// Fees are in basis points and must stay strictly below this bound.
pub const FEE_BPS_BOUND: u16 = 10000;

/// Lifecycle phases of a pool record.
///
/// A record never persists as `Uninitialized`: creation writes
/// `Initialized` in the same operation that allocates the account.
#[derive(Clone, Copy, Debug, PartialEq, Eq, Structural)]
pub enum AmmState {
    Uninitialized,
    Initialized,
    Disabled,
    WithdrawOnly,
}

impl AmmState {
    /// The byte under which this phase is persisted.
    pub open spec fn spec_as_byte(self) -> u8 {
        match self {
            AmmState::Uninitialized => 0,
            AmmState::Initialized => 1,
            AmmState::Disabled => 2,
            AmmState::WithdrawOnly => 3,
        }
    }

    /// Returns the byte under which this phase is persisted.
    #[verifier::when_used_as_spec(spec_as_byte)]
    pub fn as_byte(self) -> (b: u8)
        ensures
            b == self.spec_as_byte(),
    {
        match self {
            AmmState::Uninitialized => 0,
            AmmState::Initialized => 1,
            AmmState::Disabled => 2,
            AmmState::WithdrawOnly => 3,
        }
    }
}

/// In-memory view of the persisted pool record.
#[verifier::ext_equal]
#[derive(Clone, Copy, Debug, PartialEq, Eq)]
pub struct Config {
    pub state: u8,
    pub seed: u64,
    pub authority: [u8; 32],
    pub mint_x: [u8; 32],
    pub mint_y: [u8; 32],
    pub fee: u16,
    pub config_bump: [u8; 1],
}

/// True when every byte of the address is zero: the sentinel meaning
/// "no privileged authority configured".
pub open spec fn spec_is_zero_address(a: Seq<u8>) -> bool {
    forall|i: int| 0 <= i < a.len() ==> a[i] == 0
}

impl Config {
    /// Field-level invariant of a valid record: the lifecycle byte names a
    /// phase and the fee is a fraction below one.
    pub open spec fn wf(self) -> bool {
        self.state <= MAX_LIFECYCLE && self.fee < FEE_BPS_BOUND
    }

    /// Current lifecycle byte.
    pub fn state(&self) -> (s: u8)
        ensures
            s == self.state,
    {
        self.state
    }

    /// Pool-instance discriminator.
    pub fn seed(&self) -> (s: u64)
        ensures
            s == self.seed,
    {
        self.seed
    }

    /// Configured authority address (possibly the all-zero sentinel).
    pub fn authority(&self) -> (a: &[u8; 32])
        ensures
            a == self.authority,
    {
        &self.authority
    }

    /// Address of the reserve mint on the X side.
    pub fn mint_x(&self) -> (a: &[u8; 32])
        ensures
            a == self.mint_x,
    {
        &self.mint_x
    }

    /// Address of the reserve mint on the Y side.
    pub fn mint_y(&self) -> (a: &[u8; 32])
        ensures
            a == self.mint_y,
    {
        &self.mint_y
    }

    /// Fee in basis points.
    pub fn fee(&self) -> (f: u16)
        ensures
            f == self.fee,
    {
        self.fee
    }

    /// Bump byte of the pool-authority derivation.
    pub fn config_bump(&self) -> (b: [u8; 1])
        ensures
            b == self.config_bump,
    {
        self.config_bump
    }

    /// Writes the lifecycle byte; rejected for any value above
    /// `WithdrawOnly`, accepted for every phase byte.
    pub fn set_state(&mut self, state: u8) -> (r: Result<(), AmmError>)
        ensures
            state > MAX_LIFECYCLE ==> r == Err::<(), AmmError>(AmmError::InvalidRecordState)
                && *final(self) == *old(self),
            state <= MAX_LIFECYCLE ==> r == Ok::<(), AmmError>(())
                && *final(self) == (Config { state, ..*old(self) }),
    {
        if state > MAX_LIFECYCLE {
            return Err(AmmError::InvalidRecordState);
        }
        self.state = state;
        Ok(())
    }

    /// Writes the pool-instance seed.
    pub fn set_seed(&mut self, seed: u64)
        ensures
            *final(self) == (Config { seed, ..*old(self) }),
    {
        self.seed = seed;
    }

    /// Writes the authority address.
    pub fn set_authority(&mut self, authority: [u8; 32])
        ensures
            *final(self) == (Config { authority, ..*old(self) }),
    {
        self.authority = authority;
    }

    /// Writes the X-side mint address.
    pub fn set_mint_x(&mut self, mint_x: [u8; 32])
        ensures
            *final(self) == (Config { mint_x, ..*old(self) }),
    {
        self.mint_x = mint_x;
    }

    /// Writes the Y-side mint address.
    pub fn set_mint_y(&mut self, mint_y: [u8; 32])
        ensures
            *final(self) == (Config { mint_y, ..*old(self) }),
    {
        self.mint_y = mint_y;
    }

    /// Writes the fee; rejected for any value at or above one (10000 bps).
    pub fn set_fee(&mut self, fee: u16) -> (r: Result<(), AmmError>)
        ensures
            fee >= FEE_BPS_BOUND ==> r == Err::<(), AmmError>(AmmError::InvalidRecordState)
                && *final(self) == *old(self),
            fee < FEE_BPS_BOUND ==> r == Ok::<(), AmmError>(())
                && *final(self) == (Config { fee, ..*old(self) }),
    {
        if fee >= FEE_BPS_BOUND {
            return Err(AmmError::InvalidRecordState);
        }
        self.fee = fee;
        Ok(())
    }

    /// Writes the signing bump byte.
    pub fn set_config_bump(&mut self, config_bump: [u8; 1])
        ensures
            *final(self) == (Config { config_bump, ..*old(self) }),
    {
        self.config_bump = config_bump;
    }

    /// Writes the whole record at once and moves it to `Initialized`.
    ///
    /// This is the only path out of the logical "does not yet exist" state.
    /// Fails without touching the record when the fee is out of range; on
    /// success the record is well formed.
    pub fn set_inner(
        &mut self,
        seed: u64,
        authority: [u8; 32],
        mint_x: [u8; 32],
        mint_y: [u8; 32],
        fee: u16,
        config_bump: [u8; 1],
    ) -> (r: Result<(), AmmError>)
        ensures
            fee >= FEE_BPS_BOUND ==> r == Err::<(), AmmError>(AmmError::InvalidRecordState)
                && *final(self) == *old(self),
            fee < FEE_BPS_BOUND ==> r == Ok::<(), AmmError>(()) && *final(self) == (Config {
                state: AmmState::Initialized.as_byte(),
                seed,
                authority,
                mint_x,
                mint_y,
                fee,
                config_bump,
            }),
            r is Ok ==> final(self).wf(),
    {
        if fee >= FEE_BPS_BOUND {
            return Err(AmmError::InvalidRecordState);
        }
        self.state = AmmState::Initialized.as_byte();
        self.seed = seed;
        self.authority = authority;
        self.mint_x = mint_x;
        self.mint_y = mint_y;
        self.fee = fee;
        self.config_bump = config_bump;
        Ok(())
    }

    /// Reports the configured authority, or nothing when the stored
    /// address is the all-zero sentinel.
    pub fn has_authority(&self) -> (r: Option<[u8; 32]>)
        ensures
            spec_is_zero_address(self.authority@) ==> r is None,
            !spec_is_zero_address(self.authority@) ==> r == Some(self.authority),
    {
        let mut i: usize = 0;
        while i < 32
            invariant
                i <= 32,
                forall|j: int| 0 <= j < i ==> self.authority@[j] == 0,
            decreases 32 - i,
        {
            if self.authority[i] != 0 {
                return Some(self.authority);
            }
            i += 1;
        }
        None
    }

    /// Loads a record from an account's raw bytes after the two store
    /// checks: the byte length must equal the record size, and the
    /// account's declared owner must be this program's identity.
    pub fn load(data: &[u8], owner: &[u8; 32], program_id: &[u8; 32]) -> (r: Result<
        Config,
        AmmError,
    >)
        ensures
            data@.len() != CONFIG_LEN ==> r == Err::<Config, AmmError>(
                AmmError::InvalidRecordState,
            ),
            data@.len() == CONFIG_LEN && owner@ != program_id@ ==> r == Err::<Config, AmmError>(
                AmmError::InvalidAccountOwnership,
            ),
            data@.len() == CONFIG_LEN && owner@ == program_id@ ==> r is Ok
                && codec::config_matches_bytes(r->Ok_0, data@),
    {
        if data.len() != CONFIG_LEN {
            return Err(AmmError::InvalidRecordState);
        }
        if !crate::codec::address_eq(owner, program_id) {
            return Err(AmmError::InvalidAccountOwnership);
        }
        Ok(codec::decode_config(data))
    }

    /// Loads a record for mutation, with the same two checks as
    /// [`Config::load`]; exclusivity of the view is the account-access
    /// layer's business, so the contract is the same.
    pub fn load_mut(data: &[u8], owner: &[u8; 32], program_id: &[u8; 32]) -> (r: Result<
        Config,
        AmmError,
    >)
        ensures
            data@.len() != CONFIG_LEN ==> r == Err::<Config, AmmError>(
                AmmError::InvalidRecordState,
            ),
            data@.len() == CONFIG_LEN && owner@ != program_id@ ==> r == Err::<Config, AmmError>(
                AmmError::InvalidAccountOwnership,
            ),
            data@.len() == CONFIG_LEN && owner@ == program_id@ ==> r is Ok
                && codec::config_matches_bytes(r->Ok_0, data@),
    {
        Config::load(data, owner, program_id)
    }

    /// Loads a record checking only the byte length, not the owner: the
    /// privileged path used while the pool account is being created in the
    /// same operation, before an owner can be verified.
    pub fn load_mut_unchecked(data: &[u8]) -> (r: Result<Config, AmmError>)
        ensures
            data@.len() != CONFIG_LEN ==> r == Err::<Config, AmmError>(
                AmmError::InvalidRecordState,
            ),
            data@.len() == CONFIG_LEN ==> r is Ok && codec::config_matches_bytes(r->Ok_0, data@),
    {
        if data.len() != CONFIG_LEN {
            return Err(AmmError::InvalidRecordState);
        }
        Ok(codec::decode_config(data))
    }
}

} // verus!
