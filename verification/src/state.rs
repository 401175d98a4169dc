//! The persisted configuration record and the fixed initialization constants.

use crate::addr::Addr;
use vstd::prelude::*;

verus! {

/// Fixed initial supply minted into the reserve at initialization.
pub const INITIAL_MINT_SUPPLY: u64 = 1_000_000_000;

/// Supply ceiling written into the record; equal to the initial supply here.
pub const MINT_TOTAL_SUPPLY: u64 = 1_000_000_000;

/// Value target written into the record for the future pricing engine.
pub const VALUE_TARGET: u64 = 1_000_000_000;

/// Decimal precision of the fungible-asset definition.
pub const MINT_DECIMALS: u8 = 8;

/// Size of the record payload: owner (32) + four nonces (4) + three 8-byte
/// amounts (24) + reserve address (32).
pub const CALLER_RECORD_SPACE: u64 = 92;

/// Size of the record account: an 8-byte header plus the payload.
pub const CALLER_ACCOUNT_SPACE: u64 = 8 + 92;

/// Size of a fungible-asset definition account on the asset ledger.
pub const MINT_ACCOUNT_SPACE: u64 = 82;

/// Size of a holding account on the asset ledger.
pub const TOKEN_ACCOUNT_SPACE: u64 = 165;

/// Size of the account the metadata registrar fills.
pub const METADATA_ACCOUNT_SPACE: u64 = 679;

/// One owner's configuration record, written exactly once at initialization.
#[derive(Clone, Copy, Debug)]
pub struct Caller {
    /// The owner identity the record belongs to.
    pub caller: Addr,
    /// Bump of the derived mint address.
    pub mint_bump: u8,
    /// Bump of the derived, non-signing minting authority.
    pub mint_authority_bump: u8,
    /// Current supply of the mint.
    pub mint_supply: u64,
    /// Supply ceiling.
    pub mint_total_supply: u64,
    /// Value target for the future pricing engine.
    pub value_target: u64,
    /// Address of the asset-side reserve account.
    pub mint_reserve: Addr,
    /// Bump of the derived collateral-reserve reference.
    pub sol_reserve_bump: u8,
    /// Bump of the record's own derived address.
    pub bump: u8,
}

impl Caller {
    /// The record invariant: the supply never exceeds its ceiling.
    pub open spec fn wf(self) -> bool {
        self.mint_supply <= self.mint_total_supply
    }
}

/// The record writer: assembles the complete record from the captured
/// addresses and nonces plus the fixed constants. This is the only way a
/// record value is ever produced.
pub fn build_caller_record(
    caller: Addr,
    mint_bump: u8,
    mint_authority_bump: u8,
    mint_reserve: Addr,
    sol_reserve_bump: u8,
    bump: u8,
) -> (r: Caller)
    ensures
        r.caller@ == caller@,
        r.mint_bump == mint_bump,
        r.mint_authority_bump == mint_authority_bump,
        r.mint_supply == INITIAL_MINT_SUPPLY,
        r.mint_total_supply == MINT_TOTAL_SUPPLY,
        r.value_target == VALUE_TARGET,
        r.mint_reserve@ == mint_reserve@,
        r.sol_reserve_bump == sol_reserve_bump,
        r.bump == bump,
        r.wf(),
{
    Caller {
        caller,
        mint_bump,
        mint_authority_bump,
        mint_supply: INITIAL_MINT_SUPPLY,
        mint_total_supply: MINT_TOTAL_SUPPLY,
        value_target: VALUE_TARGET,
        mint_reserve,
        sol_reserve_bump,
        bump,
    }
}

/// Little-endian bytes of a 64-bit amount.
pub open spec fn u64_le(x: u64) -> Seq<u8> {
    seq![
        (x % 256) as u8,
        ((x / 256) % 256) as u8,
        ((x / 65536) % 256) as u8,
        ((x / 16777216) % 256) as u8,
        ((x / 4294967296) % 256) as u8,
        ((x / 1099511627776) % 256) as u8,
        ((x / 281474976710656) % 256) as u8,
        ((x / 72057594037927936) % 256) as u8,
    ]
}

/// The 64-bit amount stored as eight little-endian bytes at `off`.
pub open spec fn le_u64_of(b: Seq<u8>, off: int) -> int {
    b[off] + 256 * (b[off + 1] + 256 * (b[off + 2] + 256 * (b[off + 3] + 256 * (b[off + 4] + 256
        * (b[off + 5] + 256 * (b[off + 6] + 256 * b[off + 7]))))))
}

fn push_u64_le(v: &mut Vec<u8>, x: u64)
    ensures
        final(v)@ == old(v)@ + u64_le(x),
{
    let ghost v0 = v@;
    v.push((x % 256) as u8);
    v.push(((x / 256) % 256) as u8);
    v.push(((x / 65536) % 256) as u8);
    v.push(((x / 16777216) % 256) as u8);
    v.push(((x / 4294967296) % 256) as u8);
    v.push(((x / 1099511627776) % 256) as u8);
    v.push(((x / 281474976710656) % 256) as u8);
    v.push(((x / 72057594037927936) % 256) as u8);
    proof {
        assert(v@ =~= v0 + u64_le(x));
    }
}

fn read_u64_le(v: &Vec<u8>, off: usize) -> (x: u64)
    requires
        off + 8 <= v@.len(),
    ensures
        x == le_u64_of(v@, off as int),
{
    let n = v.len();
    let b0 = v[off] as u64;
    let b1 = v[off + 1] as u64;
    let b2 = v[off + 2] as u64;
    let b3 = v[off + 3] as u64;
    let b4 = v[off + 4] as u64;
    let b5 = v[off + 5] as u64;
    let b6 = v[off + 6] as u64;
    let b7 = v[off + 7] as u64;
    b0 + 256 * (b1 + 256 * (b2 + 256 * (b3 + 256 * (b4 + 256 * (b5 + 256 * (b6 + 256 * b7))))))
}

/// The persisted layout of a record: owner (32), mint bump (1), authority
/// bump (1), supply, ceiling and value target (8 each, little-endian),
/// reserve address (32), collateral-reserve bump (1), record bump (1) —
/// 92 bytes, matching `CALLER_RECORD_SPACE`.
pub open spec fn record_bytes(rec: Caller) -> Seq<u8> {
    rec.caller@ + seq![rec.mint_bump, rec.mint_authority_bump] + u64_le(rec.mint_supply) + u64_le(
        rec.mint_total_supply,
    ) + u64_le(rec.value_target) + rec.mint_reserve@ + seq![rec.sol_reserve_bump, rec.bump]
}

/// Serialize a record into its persisted layout.
pub fn encode_caller_record(rec: &Caller) -> (v: Vec<u8>)
    ensures
        v@ == record_bytes(*rec),
        v@.len() == CALLER_RECORD_SPACE,
{
    let mut v = crate::addr::addr_to_vec(&rec.caller);
    v.push(rec.mint_bump);
    v.push(rec.mint_authority_bump);
    push_u64_le(&mut v, rec.mint_supply);
    push_u64_le(&mut v, rec.mint_total_supply);
    push_u64_le(&mut v, rec.value_target);
    let mut reserve = crate::addr::addr_to_vec(&rec.mint_reserve);
    v.append(&mut reserve);
    v.push(rec.sol_reserve_bump);
    v.push(rec.bump);
    proof {
        assert(v@ =~= record_bytes(*rec));
    }
    v
}

proof fn lemma_u64_le_roundtrip(x: u64)
    ensures
        le_u64_of(u64_le(x), 0) == x,
{
    assert(x % 256 + 256 * ((x / 256) % 256 + 256 * ((x / 65536) % 256 + 256 * ((x / 16777216)
        % 256 + 256 * ((x / 4294967296) % 256 + 256 * ((x / 1099511627776) % 256 + 256 * ((x
        / 281474976710656) % 256 + 256 * ((x / 72057594037927936) % 256))))))) == x)
        by (bit_vector);
}

/// Law: the persisted layout is faithful. Every field of a record can be read
/// back, unchanged, from the bytes the encoder writes for it — so a record
/// decoded from its own encoding is the record that was written.
pub proof fn lemma_record_bytes_faithful(rec: Caller)
    ensures
        record_bytes(rec).len() == CALLER_RECORD_SPACE,
        record_bytes(rec).subrange(0, 32) == rec.caller@,
        record_bytes(rec)[32] == rec.mint_bump,
        record_bytes(rec)[33] == rec.mint_authority_bump,
        le_u64_of(record_bytes(rec), 34) == rec.mint_supply,
        le_u64_of(record_bytes(rec), 42) == rec.mint_total_supply,
        le_u64_of(record_bytes(rec), 50) == rec.value_target,
        record_bytes(rec).subrange(58, 90) == rec.mint_reserve@,
        record_bytes(rec)[90] == rec.sol_reserve_bump,
        record_bytes(rec)[91] == rec.bump,
{
    let b = record_bytes(rec);
    assert(b.subrange(0, 32) =~= rec.caller@);
    assert(b.subrange(58, 90) =~= rec.mint_reserve@);
    lemma_u64_le_roundtrip(rec.mint_supply);
    lemma_u64_le_roundtrip(rec.mint_total_supply);
    lemma_u64_le_roundtrip(rec.value_target);
    assert forall|i: int| 0 <= i < 8 implies b[34 + i] == u64_le(rec.mint_supply)[i] by {}
    assert forall|i: int| 0 <= i < 8 implies b[42 + i] == u64_le(rec.mint_total_supply)[i] by {}
    assert forall|i: int| 0 <= i < 8 implies b[50 + i] == u64_le(rec.value_target)[i] by {}
}

/// Read a record back from its persisted layout; refused unless the payload
/// has exactly the record's size. Every field is pinned to the bytes it was
/// read from.
pub fn decode_caller_record(v: &Vec<u8>) -> (r: Option<Caller>)
    ensures
        match r {
            Some(rec) => {
                &&& v@.len() == CALLER_RECORD_SPACE
                &&& rec.caller@ == v@.subrange(0, 32)
                &&& rec.mint_bump == v@[32]
                &&& rec.mint_authority_bump == v@[33]
                &&& rec.mint_supply == le_u64_of(v@, 34)
                &&& rec.mint_total_supply == le_u64_of(v@, 42)
                &&& rec.value_target == le_u64_of(v@, 50)
                &&& rec.mint_reserve@ == v@.subrange(58, 90)
                &&& rec.sol_reserve_bump == v@[90]
                &&& rec.bump == v@[91]
            },
            None => v@.len() != CALLER_RECORD_SPACE,
        },
{
    if v.len() != 92 {
        return None;
    }
    Some(
        Caller {
            caller: crate::addr::addr_from_bytes(v, 0),
            mint_bump: v[32],
            mint_authority_bump: v[33],
            mint_supply: read_u64_le(v, 34),
            mint_total_supply: read_u64_le(v, 42),
            value_target: read_u64_le(v, 50),
            mint_reserve: crate::addr::addr_from_bytes(v, 58),
            sol_reserve_bump: v[90],
            bump: v[91],
        },
    )
}

} // verus!
