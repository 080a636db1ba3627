//! Wire codec: fixed-layout little-endian encoding and decoding of the
//! persisted pool record and of the four instruction payloads.
//!
//! Every field sits at a known offset and is read with an explicit byte
//! order; total length is validated before any field access, and no decoder
//! reads past the bytes actually supplied. The layout relations
//! (`config_matches_bytes` and friends) are the single source of truth: the
//! encoder produces bytes in the relation, the decoder returns the unique
//! record in the relation, and the functional lemmas state that uniqueness.

use vstd::prelude::*;
use vstd::bytes::{
    lemma_auto_spec_u16_to_from_le_bytes, lemma_auto_spec_u64_to_from_le_bytes,
    spec_u16_to_le_bytes, spec_u64_to_le_bytes, u16_from_le_bytes, u16_to_le_bytes,
    u64_from_le_bytes, u64_to_le_bytes,
};
use vstd::slice::slice_subrange;

use crate::error::AmmError;
use crate::state::{Config, CONFIG_LEN};

verus! {

broadcast use vstd::array::group_array_axioms;

/// A sequence of `n` zero bytes, the conceptual padding of the short
/// initialize payload and the "no authority" sentinel.
pub open spec fn zero_bytes(n: int) -> Seq<u8> {
    Seq::new(n as nat, |i: int| 0u8)
}

/// Little-endian bytes of an `i64`, via its two's-complement bit pattern.
pub open spec fn spec_i64_to_le_bytes(x: i64) -> Seq<u8> {
    spec_u64_to_le_bytes(x as u64)
}

/// Reads the 8 little-endian bytes at `off` as a `u64`.
pub fn read_u64_le(b: &[u8], off: usize) -> (x: u64)
    requires
        off + 8 <= b@.len() <= usize::MAX,
    ensures
        spec_u64_to_le_bytes(x) == b@.subrange(off as int, off as int + 8),
{
    proof {
        lemma_auto_spec_u64_to_from_le_bytes();
    }
    let s = slice_subrange(b, off, off + 8);
    u64_from_le_bytes(s)
}

/// Reads the 2 little-endian bytes at `off` as a `u16`.
pub fn read_u16_le(b: &[u8], off: usize) -> (x: u16)
    requires
        off + 2 <= b@.len() <= usize::MAX,
    ensures
        spec_u16_to_le_bytes(x) == b@.subrange(off as int, off as int + 2),
{
    proof {
        lemma_auto_spec_u16_to_from_le_bytes();
    }
    let s = slice_subrange(b, off, off + 2);
    u16_from_le_bytes(s)
}

/// Reads the 8 little-endian bytes at `off` as an `i64` bit pattern.
pub fn read_i64_le(b: &[u8], off: usize) -> (x: i64)
    requires
        off + 8 <= b@.len() <= usize::MAX,
    ensures
        spec_i64_to_le_bytes(x) == b@.subrange(off as int, off as int + 8),
{
    let u = read_u64_le(b, off);
    let x = u as i64;
    proof {
        assert(((u as i64) as u64) == u) by (bit_vector);
    }
    x
}

/// Copies the 32 bytes at `off` into an address value.
pub fn read_address(b: &[u8], off: usize) -> (a: [u8; 32])
    requires
        off + 32 <= b@.len() <= usize::MAX,
    ensures
        a@ == b@.subrange(off as int, off as int + 32),
{
    let mut a: [u8; 32] = [0u8; 32];
    let mut i: usize = 0;
    while i < 32
        invariant
            i <= 32,
            off + 32 <= b@.len() <= usize::MAX,
            forall|j: int| 0 <= j < i ==> a@[j] == b@[off + j],
        decreases 32 - i,
    {
        a[i] = b[off + i];
        i += 1;
    }
    proof {
        assert(a@ =~= b@.subrange(off as int, off as int + 32));
    }
    a
}

/// Byte-wise comparison of two 32-byte addresses.
pub fn address_eq(a: &[u8; 32], b: &[u8; 32]) -> (r: bool)
    ensures
        r <==> a@ =~= b@,
{
    let mut i: usize = 0;
    while i < 32
        invariant
            i <= 32,
            forall|j: int| 0 <= j < i ==> a@[j] == b@[j],
        decreases 32 - i,
    {
        if a[i] != b[i] {
            return false;
        }
        i += 1;
    }
    true
}

/// Appends every byte of `b` to `out`.
pub fn push_bytes(out: &mut Vec<u8>, b: &[u8])
    requires
        old(out)@.len() + b@.len() <= usize::MAX,
    ensures
        final(out)@ == old(out)@ + b@,
{
    let mut i: usize = 0;
    while i < b.len()
        invariant
            i <= b@.len(),
            out@.len() == old(out)@.len() + i,
            out@ == old(out)@ + b@.subrange(0, i as int),
        decreases b@.len() - i,
    {
        out.push(b[i]);
        proof {
            assert(out@ =~= old(out)@ + b@.subrange(0, i + 1));
        }
        i += 1;
    }
    proof {
        assert(out@ =~= old(out)@ + b@);
    }
}

/// Appends the 8 little-endian bytes of `x` to `out`.
pub fn push_u64_le(out: &mut Vec<u8>, x: u64)
    requires
        old(out)@.len() + 8 <= usize::MAX,
    ensures
        final(out)@ == old(out)@ + spec_u64_to_le_bytes(x),
        final(out)@.len() == old(out)@.len() + 8,
{
    proof {
        lemma_auto_spec_u64_to_from_le_bytes();
    }
    let bytes = u64_to_le_bytes(x);
    push_bytes(out, bytes.as_slice());
}

/// Appends the 2 little-endian bytes of `x` to `out`.
pub fn push_u16_le(out: &mut Vec<u8>, x: u16)
    requires
        old(out)@.len() + 2 <= usize::MAX,
    ensures
        final(out)@ == old(out)@ + spec_u16_to_le_bytes(x),
        final(out)@.len() == old(out)@.len() + 2,
{
    proof {
        lemma_auto_spec_u16_to_from_le_bytes();
    }
    let bytes = u16_to_le_bytes(x);
    push_bytes(out, bytes.as_slice());
}

/// The fixed layout of a persisted pool record: `c` is exactly what the
/// bytes `b` spell, field by field, little-endian, with no padding.
pub open spec fn config_matches_bytes(c: Config, b: Seq<u8>) -> bool {
    &&& b.len() == CONFIG_LEN
    &&& c.state == b[0]
    &&& spec_u64_to_le_bytes(c.seed) == b.subrange(1, 9)
    &&& c.authority@ == b.subrange(9, 41)
    &&& c.mint_x@ == b.subrange(41, 73)
    &&& c.mint_y@ == b.subrange(73, 105)
    &&& spec_u16_to_le_bytes(c.fee) == b.subrange(105, 107)
    &&& c.config_bump@ == b.subrange(107, 108)
}

/// Decodes a pool record from exactly [`CONFIG_LEN`] raw bytes.
pub fn decode_config(b: &[u8]) -> (c: Config)
    requires
        b@.len() == CONFIG_LEN,
    ensures
        config_matches_bytes(c, b@),
{
    let state = b[0];
    let seed = read_u64_le(b, 1);
    let authority = read_address(b, 9);
    let mint_x = read_address(b, 41);
    let mint_y = read_address(b, 73);
    let fee = read_u16_le(b, 105);
    let bump = b[107];
    let c = Config {
        state,
        seed,
        authority,
        mint_x,
        mint_y,
        fee,
        config_bump: [bump; 1],
    };
    proof {
        assert(c.config_bump@ =~= b@.subrange(107, 108));
    }
    c
}

/// Encodes a pool record into its fixed [`CONFIG_LEN`]-byte form, the
/// exact inverse of [`decode_config`].
pub fn encode_config(c: &Config) -> (out: Vec<u8>)
    ensures
        out@.len() == CONFIG_LEN,
        config_matches_bytes(*c, out@),
{
    let mut out: Vec<u8> = Vec::new();
    out.push(c.state);
    push_u64_le(&mut out, c.seed);
    push_bytes(&mut out, &c.authority);
    push_bytes(&mut out, &c.mint_x);
    push_bytes(&mut out, &c.mint_y);
    push_u16_le(&mut out, c.fee);
    push_bytes(&mut out, &c.config_bump);
    proof {
        assert(spec_u64_to_le_bytes(c.seed) =~= out@.subrange(1, 9));
        assert(c.authority@ =~= out@.subrange(9, 41));
        assert(c.mint_x@ =~= out@.subrange(41, 73));
        assert(c.mint_y@ =~= out@.subrange(73, 105));
        assert(spec_u16_to_le_bytes(c.fee) =~= out@.subrange(105, 107));
        assert(c.config_bump@ =~= out@.subrange(107, 108));
    }
    out
}

/// Round trip: one byte string spells at most one pool record, so decoding
/// the bytes produced by encoding any record reproduces that record
/// exactly.
pub proof fn lemma_config_bytes_functional(c1: Config, c2: Config, b: Seq<u8>)
    requires
        config_matches_bytes(c1, b),
        config_matches_bytes(c2, b),
    ensures
        c1 == c2,
{
    lemma_auto_spec_u64_to_from_le_bytes();
    lemma_auto_spec_u16_to_from_le_bytes();
    assert(spec_u64_to_le_bytes(c1.seed).len() == 8);
    assert(spec_u64_to_le_bytes(c2.seed).len() == 8);
    assert(spec_u16_to_le_bytes(c1.fee).len() == 2);
    assert(spec_u16_to_le_bytes(c2.fee).len() == 2);
    assert(c1.authority =~= c2.authority);
    assert(c1.mint_x =~= c2.mint_x);
    assert(c1.mint_y =~= c2.mint_y);
    assert(c1.config_bump =~= c2.config_bump);
    assert(c1 =~= c2);
}

/// Payload length of the long initialize form, authority included.
pub const INITIALIZE_LONG_LEN: usize = 108;

/// Payload length of the short initialize form, authority omitted.
pub const INITIALIZE_SHORT_LEN: usize = 76;

/// Payload length of a deposit request.
pub const DEPOSIT_PAYLOAD_LEN: usize = 32;

/// Payload length of a withdraw request.
pub const WITHDRAW_PAYLOAD_LEN: usize = 32;

/// Payload length of a swap request.
pub const SWAP_PAYLOAD_LEN: usize = 25;

/// Decoded initialize request: the full parameter set of a new pool.
#[verifier::ext_equal]
#[derive(Clone, Copy, Debug, PartialEq, Eq)]
pub struct InitializeInstructionData {
    pub seed: u64,
    pub fee: u16,
    pub mint_x: [u8; 32],
    pub mint_y: [u8; 32],
    pub config_bump: [u8; 1],
    pub lp_bump: [u8; 1],
    pub authority: [u8; 32],
}

/// Decoded deposit request: LP amount wanted, per-side ceilings, freshness.
#[derive(Clone, Copy, Debug, PartialEq, Eq, Structural)]
pub struct DepositInstructionData {
    pub amount: u64,
    pub max_x: u64,
    pub max_y: u64,
    pub expiration: i64,
}

/// Decoded withdraw request: LP amount to burn, per-side floors, freshness.
#[derive(Clone, Copy, Debug, PartialEq, Eq, Structural)]
pub struct WithdrawInstructionData {
    pub amount: u64,
    pub min_x: u64,
    pub min_y: u64,
    pub expiration: i64,
}

/// Decoded swap request: direction, input amount, output floor, freshness.
#[derive(Clone, Copy, Debug, PartialEq, Eq, Structural)]
pub struct SwapInstructionData {
    pub is_x: bool,
    pub amount: u64,
    pub min: u64,
    pub expiration: i64,
}

/// Layout of the long initialize payload: `d` is what the 108 bytes `b`
/// spell. The short form is covered by relating it to its zero-extension.
pub open spec fn initialize_matches_bytes(d: InitializeInstructionData, b: Seq<u8>) -> bool {
    &&& b.len() == INITIALIZE_LONG_LEN
    &&& spec_u64_to_le_bytes(d.seed) == b.subrange(0, 8)
    &&& spec_u16_to_le_bytes(d.fee) == b.subrange(8, 10)
    &&& d.mint_x@ == b.subrange(10, 42)
    &&& d.mint_y@ == b.subrange(42, 74)
    &&& d.config_bump@ == b.subrange(74, 75)
    &&& d.lp_bump@ == b.subrange(75, 76)
    &&& d.authority@ == b.subrange(76, 108)
}

/// Layout of a deposit payload.
pub open spec fn deposit_matches_bytes(d: DepositInstructionData, b: Seq<u8>) -> bool {
    &&& b.len() == DEPOSIT_PAYLOAD_LEN
    &&& spec_u64_to_le_bytes(d.amount) == b.subrange(0, 8)
    &&& spec_u64_to_le_bytes(d.max_x) == b.subrange(8, 16)
    &&& spec_u64_to_le_bytes(d.max_y) == b.subrange(16, 24)
    &&& spec_i64_to_le_bytes(d.expiration) == b.subrange(24, 32)
}

/// Layout of a withdraw payload.
pub open spec fn withdraw_matches_bytes(d: WithdrawInstructionData, b: Seq<u8>) -> bool {
    &&& b.len() == WITHDRAW_PAYLOAD_LEN
    &&& spec_u64_to_le_bytes(d.amount) == b.subrange(0, 8)
    &&& spec_u64_to_le_bytes(d.min_x) == b.subrange(8, 16)
    &&& spec_u64_to_le_bytes(d.min_y) == b.subrange(16, 24)
    &&& spec_i64_to_le_bytes(d.expiration) == b.subrange(24, 32)
}

/// Layout of a swap payload; the direction byte reads as "X is the input
/// side" exactly when it is nonzero.
pub open spec fn swap_matches_bytes(d: SwapInstructionData, b: Seq<u8>) -> bool {
    &&& b.len() == SWAP_PAYLOAD_LEN
    &&& d.is_x == (b[0] != 0)
    &&& spec_u64_to_le_bytes(d.amount) == b.subrange(1, 9)
    &&& spec_u64_to_le_bytes(d.min) == b.subrange(9, 17)
    &&& spec_i64_to_le_bytes(d.expiration) == b.subrange(17, 25)
}

impl InitializeInstructionData {
    /// Decodes an initialize payload. The long form carries an authority;
    /// the short form omits it and reads as if 32 zero bytes followed the
    /// supplied ones. No other length is accepted.
    pub fn decode(b: &[u8]) -> (r: Result<InitializeInstructionData, AmmError>)
        ensures
            b@.len() == INITIALIZE_LONG_LEN ==> r is Ok && initialize_matches_bytes(r->Ok_0, b@),
            b@.len() == INITIALIZE_SHORT_LEN ==> r is Ok && initialize_matches_bytes(
                r->Ok_0,
                b@ + zero_bytes(32),
            ),
            b@.len() != INITIALIZE_LONG_LEN && b@.len() != INITIALIZE_SHORT_LEN ==> r
                == Err::<InitializeInstructionData, AmmError>(AmmError::MalformedPayload),
    {
        let n = b.len();
        if n != INITIALIZE_LONG_LEN && n != INITIALIZE_SHORT_LEN {
            return Err(AmmError::MalformedPayload);
        }
        let seed = read_u64_le(b, 0);
        let fee = read_u16_le(b, 8);
        let mint_x = read_address(b, 10);
        let mint_y = read_address(b, 42);
        let config_bump = [b[74]; 1];
        let lp_bump = [b[75]; 1];
        let authority = if n == INITIALIZE_LONG_LEN {
            read_address(b, 76)
        } else {
            [0u8; 32]
        };
        let d = InitializeInstructionData { seed, fee, mint_x, mint_y, config_bump, lp_bump, authority };
        proof {
            let ext = if b@.len() == INITIALIZE_LONG_LEN {
                b@
            } else {
                b@ + zero_bytes(32)
            };
            assert(spec_u64_to_le_bytes(d.seed) =~= ext.subrange(0, 8));
            assert(spec_u16_to_le_bytes(d.fee) =~= ext.subrange(8, 10));
            assert(d.mint_x@ =~= ext.subrange(10, 42));
            assert(d.mint_y@ =~= ext.subrange(42, 74));
            assert(d.config_bump@ =~= ext.subrange(74, 75));
            assert(d.lp_bump@ =~= ext.subrange(75, 76));
            assert(d.authority@ =~= ext.subrange(76, 108));
        }
        Ok(d)
    }
}

impl DepositInstructionData {
    /// Decodes a deposit payload; only the exact length is accepted.
    pub fn decode(b: &[u8]) -> (r: Result<DepositInstructionData, AmmError>)
        ensures
            b@.len() == DEPOSIT_PAYLOAD_LEN ==> r is Ok && deposit_matches_bytes(r->Ok_0, b@),
            b@.len() != DEPOSIT_PAYLOAD_LEN ==> r == Err::<DepositInstructionData, AmmError>(
                AmmError::MalformedPayload,
            ),
    {
        if b.len() != DEPOSIT_PAYLOAD_LEN {
            return Err(AmmError::MalformedPayload);
        }
        Ok(DepositInstructionData {
            amount: read_u64_le(b, 0),
            max_x: read_u64_le(b, 8),
            max_y: read_u64_le(b, 16),
            expiration: read_i64_le(b, 24),
        })
    }
}

impl WithdrawInstructionData {
    /// Decodes a withdraw payload; only the exact length is accepted.
    pub fn decode(b: &[u8]) -> (r: Result<WithdrawInstructionData, AmmError>)
        ensures
            b@.len() == WITHDRAW_PAYLOAD_LEN ==> r is Ok && withdraw_matches_bytes(r->Ok_0, b@),
            b@.len() != WITHDRAW_PAYLOAD_LEN ==> r == Err::<WithdrawInstructionData, AmmError>(
                AmmError::MalformedPayload,
            ),
    {
        if b.len() != WITHDRAW_PAYLOAD_LEN {
            return Err(AmmError::MalformedPayload);
        }
        Ok(WithdrawInstructionData {
            amount: read_u64_le(b, 0),
            min_x: read_u64_le(b, 8),
            min_y: read_u64_le(b, 16),
            expiration: read_i64_le(b, 24),
        })
    }
}

impl SwapInstructionData {
    /// Decodes a swap payload; only the exact length is accepted.
    pub fn decode(b: &[u8]) -> (r: Result<SwapInstructionData, AmmError>)
        ensures
            b@.len() == SWAP_PAYLOAD_LEN ==> r is Ok && swap_matches_bytes(r->Ok_0, b@),
            b@.len() != SWAP_PAYLOAD_LEN ==> r == Err::<SwapInstructionData, AmmError>(
                AmmError::MalformedPayload,
            ),
    {
        if b.len() != SWAP_PAYLOAD_LEN {
            return Err(AmmError::MalformedPayload);
        }
        Ok(SwapInstructionData {
            is_x: b[0] != 0,
            amount: read_u64_le(b, 1),
            min: read_u64_le(b, 9),
            expiration: read_i64_le(b, 17),
        })
    }
}

/// One decoded instruction: opcode byte 0 selects initialize, 1 deposit,
/// 2 withdraw, 3 swap.
#[derive(Clone, Copy, Debug, PartialEq, Eq)]
pub enum AmmInstruction {
    Initialize(InitializeInstructionData),
    Deposit(DepositInstructionData),
    Withdraw(WithdrawInstructionData),
    Swap(SwapInstructionData),
}

/// True when the buffer begins with a known opcode and the remainder has a
/// length that opcode accepts.
pub open spec fn spec_instruction_well_formed(b: Seq<u8>) -> bool {
    b.len() >= 1 && {
        ||| b[0] == 0 && (b.len() - 1 == INITIALIZE_LONG_LEN || b.len() - 1
            == INITIALIZE_SHORT_LEN)
        ||| b[0] == 1 && b.len() - 1 == DEPOSIT_PAYLOAD_LEN
        ||| b[0] == 2 && b.len() - 1 == WITHDRAW_PAYLOAD_LEN
        ||| b[0] == 3 && b.len() - 1 == SWAP_PAYLOAD_LEN
    }
}

/// Decodes an opcode-prefixed instruction buffer into a typed request.
pub fn decode_instruction(b: &[u8]) -> (r: Result<AmmInstruction, AmmError>)
    ensures
        r is Ok <==> spec_instruction_well_formed(b@),
        !spec_instruction_well_formed(b@) ==> r == Err::<AmmInstruction, AmmError>(
            AmmError::MalformedPayload,
        ),
        r is Ok ==> {
            let payload = b@.subrange(1, b@.len() as int);
            match r->Ok_0 {
                AmmInstruction::Initialize(d) => b@[0] == 0 && (payload.len()
                    == INITIALIZE_LONG_LEN ==> initialize_matches_bytes(d, payload)) && (
                payload.len() == INITIALIZE_SHORT_LEN ==> initialize_matches_bytes(
                    d,
                    payload + zero_bytes(32),
                )),
                AmmInstruction::Deposit(d) => b@[0] == 1 && deposit_matches_bytes(d, payload),
                AmmInstruction::Withdraw(d) => b@[0] == 2 && withdraw_matches_bytes(d, payload),
                AmmInstruction::Swap(d) => b@[0] == 3 && swap_matches_bytes(d, payload),
            }
        },
{
    if b.len() == 0 {
        return Err(AmmError::MalformedPayload);
    }
    let opcode = b[0];
    let payload = slice_subrange(b, 1, b.len());
    match opcode {
        0 => {
            let d = InitializeInstructionData::decode(payload)?;
            Ok(AmmInstruction::Initialize(d))
        },
        1 => {
            let d = DepositInstructionData::decode(payload)?;
            Ok(AmmInstruction::Deposit(d))
        },
        2 => {
            let d = WithdrawInstructionData::decode(payload)?;
            Ok(AmmInstruction::Withdraw(d))
        },
        3 => {
            let d = SwapInstructionData::decode(payload)?;
            Ok(AmmInstruction::Swap(d))
        },
        _ => Err(AmmError::MalformedPayload),
    }
}

/// One byte string spells at most one initialize request. In particular the
/// short-form payload decodes to the same request as the long-form payload
/// whose trailing authority field is all zeros.
pub proof fn lemma_initialize_bytes_functional(
    d1: InitializeInstructionData,
    d2: InitializeInstructionData,
    b: Seq<u8>,
)
    requires
        initialize_matches_bytes(d1, b),
        initialize_matches_bytes(d2, b),
    ensures
        d1 == d2,
{
    lemma_auto_spec_u64_to_from_le_bytes();
    lemma_auto_spec_u16_to_from_le_bytes();
    assert(spec_u64_to_le_bytes(d1.seed).len() == 8);
    assert(spec_u64_to_le_bytes(d2.seed).len() == 8);
    assert(spec_u16_to_le_bytes(d1.fee).len() == 2);
    assert(spec_u16_to_le_bytes(d2.fee).len() == 2);
    assert(d1.mint_x =~= d2.mint_x);
    assert(d1.mint_y =~= d2.mint_y);
    assert(d1.config_bump =~= d2.config_bump);
    assert(d1.lp_bump =~= d2.lp_bump);
    assert(d1.authority =~= d2.authority);
    assert(d1 =~= d2);
}


} // verus!
