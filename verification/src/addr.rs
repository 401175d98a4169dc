//! Addresses and deterministic address derivation.
//!
//! An address is 32 bytes. A derived address is computed from a tuple of seed
//! byte strings plus a program identity by a bounded search for a
//! disambiguation nonce (the bump) such that the resulting address has no
//! corresponding private key; the search is performed by the ledger SDK and is
//! a pure function of its inputs.

use vstd::prelude::*;

verus! {

/// A 32-byte ledger address. Its view is the sequence of its bytes.
#[derive(Clone, Copy, Debug)]
pub struct Addr {
    pub bytes: [u8; 32],
}

impl View for Addr {
    type V = Seq<u8>;

    open spec fn view(&self) -> Seq<u8> {
        self.bytes@
    }
}

/// Byte-wise address equality, phrased over the views.
pub fn addr_eq(a: &Addr, b: &Addr) -> (r: bool)
    ensures
        r <==> a@ == b@,
{
    let mut i: usize = 0;
    while i < 32
        invariant
            i <= 32,
            forall|j: int| 0 <= j < i ==> a@[j] == b@[j],
        decreases 32 - i,
    {
        if a.bytes[i] != b.bytes[i] {
            return false;
        }
        i += 1;
    }
    proof {
        assert(a@ =~= b@);
    }
    true
}

/// The bytes of an address as a fresh vector.
pub fn addr_to_vec(a: &Addr) -> (v: Vec<u8>)
    ensures
        v@ == a@,
{
    let v = vstd::slice::slice_to_vec(a.bytes.as_slice());
    proof {
        assert(v@ =~= a@);
    }
    v
}

/// The address stored at `off` in a byte vector.
pub fn addr_from_bytes(v: &Vec<u8>, off: usize) -> (a: Addr)
    requires
        off + 32 <= v@.len(),
    ensures
        a@ == v@.subrange(off as int, off as int + 32),
{
    let n = v.len();
    let mut bytes = [0u8; 32];
    let mut i: usize = 0;
    while i < 32
        invariant
            i <= 32,
            off + 32 <= v@.len(),
            n == v@.len(),
            forall|j: int| 0 <= j < i ==> bytes@[j] == v@[off + j],
        decreases 32 - i,
    {
        bytes[i] = v[off + i];
        i += 1;
    }
    let a = Addr { bytes };
    proof {
        assert(a@ =~= v@.subrange(off as int, off as int + 32));
    }
    a
}

/// What the bounded derivation returns for a seed tuple and a program
/// identity: the derived address and its bump, or nothing when the search is
/// exhausted or a seed breaks the derivation limits. The result is a function
/// of the arguments alone.
pub uninterp spec fn pda_of(seeds: Seq<Seq<u8>>, program: Seq<u8>) -> Option<(Seq<u8>, u8)>;

/// Relies on solana's `Pubkey::try_find_program_address` (reached through
/// `anchor_lang`): it derives an address with no matching private key from the
/// seed slices and the program id alone, by hashing and an off-curve check
/// over a bounded bump search, and returns `None` exactly when that search
/// finds nothing or the seeds exceed the derivation limits. It never panics.
#[verifier::external_body]
fn try_find_pda(seeds: &Vec<Vec<u8>>, program: &Addr) -> (r: Option<(Addr, u8)>)
    ensures
        match r {
            Some(p) => pda_of(seeds.deep_view(), program@) == Some((p.0@, p.1)),
            None => pda_of(seeds.deep_view(), program@) is None,
        },
{
    let refs: Vec<&[u8]> = seeds.iter().map(|s| s.as_slice()).collect();
    let program_id = anchor_lang::solana_program::pubkey::Pubkey::new_from_array(program.bytes);
    anchor_lang::solana_program::pubkey::Pubkey::try_find_program_address(&refs, &program_id)
        .map(|(pk, bump)| (Addr { bytes: pk.to_bytes() }, bump))
}

/// Derivation from a namespace tag and an owner identity.
pub open spec fn spec_pda2(tag: Seq<u8>, owner: Seq<u8>, program: Seq<u8>) -> Option<(Seq<u8>, u8)> {
    pda_of(seq![tag, owner], program)
}

/// Derivation from three seed strings (used for the metadata target and the
/// associated reserve account).
pub open spec fn spec_pda3(s0: Seq<u8>, s1: Seq<u8>, s2: Seq<u8>, program: Seq<u8>) -> Option<(
    Seq<u8>,
    u8,
)> {
    pda_of(seq![s0, s1, s2], program)
}

/// Derive the address for (tag, owner identity) under a program identity.
pub fn derive_address(tag: Vec<u8>, owner: &Addr, program: &Addr) -> (r: Option<(Addr, u8)>)
    ensures
        match r {
            Some(p) => spec_pda2(tag@, owner@, program@) == Some((p.0@, p.1)),
            None => spec_pda2(tag@, owner@, program@) is None,
        },
{
    let ghost tag_view = tag@;
    let mut seeds: Vec<Vec<u8>> = Vec::new();
    seeds.push(tag);
    seeds.push(addr_to_vec(owner));
    proof {
        assert(seeds.deep_view()[0] =~= tag_view);
        assert(seeds.deep_view()[1] =~= owner@);
        assert(seeds.deep_view() =~= seq![tag_view, owner@]);
    }
    try_find_pda(&seeds, program)
}

/// Derive the address for three seed strings under a program identity.
pub fn derive_address3(s0: Vec<u8>, s1: Vec<u8>, s2: Vec<u8>, program: &Addr) -> (r: Option<
    (Addr, u8),
>)
    ensures
        match r {
            Some(p) => spec_pda3(s0@, s1@, s2@, program@) == Some((p.0@, p.1)),
            None => spec_pda3(s0@, s1@, s2@, program@) is None,
        },
{
    let ghost views = seq![s0@, s1@, s2@];
    let mut seeds: Vec<Vec<u8>> = Vec::new();
    seeds.push(s0);
    seeds.push(s1);
    seeds.push(s2);
    proof {
        assert(seeds.deep_view()[0] =~= views[0]);
        assert(seeds.deep_view()[1] =~= views[1]);
        assert(seeds.deep_view()[2] =~= views[2]);
        assert(seeds.deep_view() =~= views);
    }
    try_find_pda(&seeds, program)
}

/// Law: derivation is deterministic. Two derivations from the same tag, owner
/// and program agree, because the derived pair is a function of those inputs
/// alone.
pub proof fn lemma_derive_deterministic(
    tag: Seq<u8>,
    owner: Seq<u8>,
    program: Seq<u8>,
    r1: Option<(Seq<u8>, u8)>,
    r2: Option<(Seq<u8>, u8)>,
)
    ensures
        r1 == spec_pda2(tag, owner, program) && r2 == spec_pda2(tag, owner, program) ==> r1 == r2,
{
}

} // verus!
