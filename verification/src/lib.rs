//! Instruction-processing core of a constant-product automated market maker.
//!
//! The crate covers the pure, decidable part of the engine: the wire codec
//! for instruction payloads and the persisted pool record, the pool
//! lifecycle state machine with its per-operation guards, the account-arity
//! resolution, the derivation seed tuples for the pool's signing identities,
//! the constant-product amount computations, and the four operation
//! processors as functions from request and observed state to the amounts
//! that the surrounding runtime must move. All account I/O, rent and clock
//! oracles, and token-transfer primitives live outside this crate; they hand
//! the functions here plain values and receive plain values back.

pub mod error;
pub mod state;
pub mod codec;
pub mod accounts;
pub mod authority;
pub mod curve;
pub mod processor;
