//! Error taxonomy of the engine.
//!
//! Every fallible function of this crate reports exactly one of these
//! categories; no function recovers locally. The surrounding runtime is
//! expected to abort the whole invocation on the first error, so a caller
//! observes either a fully applied operation or no state change at all.

use vstd::prelude::*;

verus! {

/// One error category per failure class of the engine.
#[derive(Clone, Copy, Debug, PartialEq, Eq, Structural)]
pub enum AmmError {
    /// Fewer accounts were supplied than the operation's arity requires.
    MissingAccounts,
    /// Unknown opcode, or a payload length that no opcode accepts.
    MalformedPayload,
    /// A pool record account is not owned by this program.
    InvalidAccountOwnership,
    /// A pool record has the wrong byte length, or a field write is out of
    /// range (`fee_bps` or `lifecycle_state`).
    InvalidRecordState,
    /// The request's `expiration` lies strictly before the current time.
    ExpiredRequest,
    /// The operation is not allowed in the pool's current lifecycle state.
    WrongLifecyclePhase,
    /// Computed amounts fall outside the caller's stated bounds.
    SlippageExceeded,
    /// The curve computation overflowed or was handed invalid inputs.
    ArithmeticFailure,
    /// A token or account-creation primitive failed; propagated verbatim.
    UnderlyingTransferFailure,
}

} // verus!
