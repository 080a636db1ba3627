//! Seed tuples for the pool's two derived signing identities.
//!
//! Deriving an address from a seed tuple is a pure function of the host
//! environment; this module's responsibility is to assemble the exact same
//! ordered tuple every time a given identity must be reconstructed. The
//! bump bytes are carried unchanged from what the caller supplied at
//! creation; the external signing primitive, not this crate, rejects a
//! tuple that does not re-derive the claimed address.

use vstd::prelude::*;
use vstd::bytes::spec_u64_to_le_bytes;

use crate::codec::{push_bytes, push_u64_le};

verus! {

/// Domain tag of the pool-authority derivation: the bytes of "config".
pub open spec fn spec_config_tag() -> Seq<u8> {
    seq![99u8, 111u8, 110u8, 102u8, 105u8, 103u8]
}

/// Domain tag of the LP-mint derivation: the bytes of "mint_lp".
pub open spec fn spec_mint_lp_tag() -> Seq<u8> {
    seq![109u8, 105u8, 110u8, 116u8, 95u8, 108u8, 112u8]
}

/// Builds the pool-authority domain tag.
pub fn config_tag() -> (v: Vec<u8>)
    ensures
        v@ == spec_config_tag(),
{
    let mut v: Vec<u8> = Vec::new();
    v.push(99);
    v.push(111);
    v.push(110);
    v.push(102);
    v.push(105);
    v.push(103);
    proof {
        assert(v@ =~= spec_config_tag());
    }
    v
}

/// Builds the LP-mint domain tag.
pub fn mint_lp_tag() -> (v: Vec<u8>)
    ensures
        v@ == spec_mint_lp_tag(),
{
    let mut v: Vec<u8> = Vec::new();
    v.push(109);
    v.push(105);
    v.push(110);
    v.push(116);
    v.push(95);
    v.push(108);
    v.push(112);
    proof {
        assert(v@ =~= spec_mint_lp_tag());
    }
    v
}

/// The ordered seed tuple of the pool authority: domain tag, pool seed in
/// little-endian, the two reserve mint addresses, and the signing bump.
/// This identity is the LP-mint authority and the signer of vault outflows.
pub fn pool_authority_seeds(seed: u64, mint_x: &[u8; 32], mint_y: &[u8; 32], bump: [u8; 1]) -> (s:
    Vec<Vec<u8>>)
    ensures
        s@.len() == 5,
        s@[0]@ == spec_config_tag(),
        s@[1]@ == spec_u64_to_le_bytes(seed),
        s@[2]@ == mint_x@,
        s@[3]@ == mint_y@,
        s@[4]@ == bump@,
{
    let mut s: Vec<Vec<u8>> = Vec::new();
    s.push(config_tag());
    let mut seed_bytes: Vec<u8> = Vec::new();
    push_u64_le(&mut seed_bytes, seed);
    s.push(seed_bytes);
    let mut x_bytes: Vec<u8> = Vec::new();
    push_bytes(&mut x_bytes, mint_x);
    s.push(x_bytes);
    let mut y_bytes: Vec<u8> = Vec::new();
    push_bytes(&mut y_bytes, mint_y);
    s.push(y_bytes);
    let mut bump_bytes: Vec<u8> = Vec::new();
    push_bytes(&mut bump_bytes, &bump);
    s.push(bump_bytes);
    s
}

/// The ordered seed tuple of the LP-mint address: domain tag, the pool
/// account's own address, and the caller-chosen LP bump.
pub fn lp_mint_seeds(pool_address: &[u8; 32], lp_bump: [u8; 1]) -> (s: Vec<Vec<u8>>)
    ensures
        s@.len() == 3,
        s@[0]@ == spec_mint_lp_tag(),
        s@[1]@ == pool_address@,
        s@[2]@ == lp_bump@,
{
    let mut s: Vec<Vec<u8>> = Vec::new();
    s.push(mint_lp_tag());
    let mut addr_bytes: Vec<u8> = Vec::new();
    push_bytes(&mut addr_bytes, pool_address);
    s.push(addr_bytes);
    let mut bump_bytes: Vec<u8> = Vec::new();
    push_bytes(&mut bump_bytes, &lp_bump);
    s.push(bump_bytes);
    s
}

} // verus!
