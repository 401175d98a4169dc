//! An explicit model of the hosting ledger: a set of funded accounts keyed by
//! address, and the account initializer that allocates new ones.
//!
//! The hosting environment allocates accounts transactionally before the core
//! logic runs; a non-native target has no free equivalent, so the ledger is a
//! value here and every account the orchestrator needs is reserved and funded
//! against it explicitly.

use crate::addr::Addr;
use crate::error::ErrorCode;
use crate::state::Caller;
use vstd::prelude::*;

verus! {

/// A fungible-asset definition held by the asset ledger.
#[derive(Clone, Copy)]
pub struct MintState {
    pub decimals: u8,
    pub authority: Addr,
    pub supply: u64,
}

/// A holding account on the asset ledger, bound to a mint and an authority.
#[derive(Clone, Copy)]
pub struct ReserveState {
    pub mint: Addr,
    pub authority: Addr,
    pub balance: u64,
}

/// Descriptive attributes the metadata registrar attaches to a mint.
pub struct MetadataState {
    pub name: String,
    pub symbol: String,
    pub uri: String,
    pub update_authority: Addr,
}

/// The payload of an account in the model.
pub enum AccountData {
    Record(Caller),
    Mint(MintState),
    TokenReserve(ReserveState),
    Metadata(MetadataState),
}

/// One funded account at an address.
pub struct AccountEntry {
    pub addr: Addr,
    pub lamports: u64,
    pub data: AccountData,
}

/// Whether some entry of `s` sits at address `a`.
pub open spec fn seq_contains_addr(s: Seq<AccountEntry>, a: Seq<u8>) -> bool {
    exists|i: int| 0 <= i < s.len() && s[i].addr@ == a
}

/// Pushing an entry adds exactly its address to the set of occupied ones.
pub proof fn lemma_push_contains(s: Seq<AccountEntry>, e: AccountEntry, a: Seq<u8>)
    ensures
        seq_contains_addr(s.push(e), a) <==> (seq_contains_addr(s, a) || e.addr@ == a),
{
    if seq_contains_addr(s.push(e), a) {
        let i = choose|i: int| 0 <= i < s.push(e).len() && s.push(e)[i].addr@ == a;
        if i < s.len() {
            assert(s[i].addr@ == a);
        }
    }
    if seq_contains_addr(s, a) {
        let i = choose|i: int| 0 <= i < s.len() && s[i].addr@ == a;
        assert(s.push(e)[i].addr@ == a);
    }
    if e.addr@ == a {
        assert(s.push(e)[s.len() as int].addr@ == a);
    }
}

/// Whether an account holds the configuration record of `owner`.
pub open spec fn is_record_for(e: AccountEntry, owner: Seq<u8>) -> bool {
    match e.data {
        AccountData::Record(c) => c.caller@ == owner,
        _ => false,
    }
}

/// The predicate of `is_record_for` with the owner fixed.
pub open spec fn record_pred(owner: Seq<u8>) -> spec_fn(AccountEntry) -> bool {
    |e: AccountEntry| is_record_for(e, owner)
}

/// How many accounts of `s` hold a record owned by `owner`.
pub open spec fn records_for(s: Seq<AccountEntry>, owner: Seq<u8>) -> int {
    s.filter(record_pred(owner)).len() as int
}

/// Appending an entry grows the owner's record count by one exactly when the
/// entry is that owner's record, and leaves it unchanged otherwise.
pub proof fn lemma_records_for_push(s: Seq<AccountEntry>, e: AccountEntry, owner: Seq<u8>)
    ensures
        records_for(s.push(e), owner) == records_for(s, owner) + (if is_record_for(e, owner) {
            1int
        } else {
            0int
        }),
{
    s.lemma_filter_len_push(record_pred(owner), e);
}

/// The ledger: every account that exists, each at a distinct address.
pub struct Ledger {
    pub accounts: Vec<AccountEntry>,
}

impl Ledger {
    /// Whether an account exists at address `a`.
    pub open spec fn contains_addr(self, a: Seq<u8>) -> bool {
        seq_contains_addr(self.accounts@, a)
    }

    /// Ledger invariant: addresses are pairwise distinct, so an address
    /// locates at most one account.
    pub open spec fn wf(self) -> bool {
        forall|i: int, j: int|
            0 <= i < j < self.accounts@.len() ==> self.accounts@[i].addr@ != self.accounts@[j].addr@
    }

    /// An empty ledger.
    pub fn new() -> (r: Ledger)
        ensures
            r.accounts@.len() == 0,
            r.wf(),
    {
        Ledger { accounts: Vec::new() }
    }

    /// Position of the account at `addr`, if one exists.
    pub fn find_index(&self, addr: &Addr) -> (r: Option<usize>)
        ensures
            match r {
                Some(i) => i < self.accounts@.len() && self.accounts@[i as int].addr@ == addr@,
                None => !self.contains_addr(addr@),
            },
    {
        let n = self.accounts.len();
        let mut i: usize = 0;
        while i < n
            invariant
                i <= n,
                n == self.accounts@.len(),
                forall|j: int| 0 <= j < i ==> self.accounts@[j].addr@ != addr@,
            decreases n - i,
        {
            if crate::addr::addr_eq(&self.accounts[i].addr, addr) {
                return Some(i);
            }
            i += 1;
        }
        None
    }

    /// Whether an account exists at `addr`.
    pub fn contains(&self, addr: &Addr) -> (r: bool)
        ensures
            r == self.contains_addr(addr@),
    {
        match self.find_index(addr) {
            Some(i) => {
                proof {
                    assert(self.contains_addr(addr@));
                }
                true
            },
            None => false,
        }
    }

    /// Append an account at a fresh address; the invariant is preserved.
    pub fn push_account(&mut self, e: AccountEntry)
        requires
            old(self).wf(),
            !old(self).contains_addr(e.addr@),
        ensures
            final(self).accounts@ == old(self).accounts@.push(e),
            final(self).wf(),
    {
        proof {
            assert forall|i: int| 0 <= i < self.accounts@.len() implies self.accounts@[i].addr@
                != e.addr@ by {
                if self.accounts@[i].addr@ == e.addr@ {
                    assert(seq_contains_addr(self.accounts@, e.addr@));
                }
            }
        }
        self.accounts.push(e);
    }
}

/// Persistence threshold for an account of the given size on the default
/// funding schedule: the minimum balance it must hold to remain valid. A
/// function of the size alone.
pub uninterp spec fn rent_min_of(space: u64) -> u64;

/// Largest account size the funding oracle is asked about.
pub const MAX_RENT_SPACE: u64 = 10_485_760;

/// Relies on solana's `Rent::default().minimum_balance` (reached through
/// `anchor_lang`): on the default rent schedule the threshold is computed from
/// the account size alone. Sizes are kept within the ledger's account size
/// limit so the computation cannot overflow.
#[verifier::external_body]
pub(crate) fn rent_minimum(space: u64) -> (r: u64)
    requires
        space <= MAX_RENT_SPACE,
    ensures
        r == rent_min_of(space),
{
    let rent = anchor_lang::solana_program::rent::Rent::default();
    rent.minimum_balance(space as usize)
}

impl Ledger {
    /// The account initializer: allocate a new, freshly-initialized account at
    /// a derived address, funded by the payer at exactly the persistence
    /// threshold for its size. Refuses to overwrite an occupied address — this
    /// is how "one record per owner" is enforced — and surfaces the one domain
    /// error when the payer cannot fund the account.
    pub fn create_account(
        &mut self,
        payer: &mut u64,
        addr: &Addr,
        space: u64,
        data: AccountData,
    ) -> (r: Result<(), ErrorCode>)
        requires
            old(self).wf(),
            space <= MAX_RENT_SPACE,
        ensures
            final(self).wf(),
            match r {
                Ok(()) => !old(self).contains_addr(addr@) && *old(payer) >= rent_min_of(space)
                    && *final(payer) == *old(payer) - rent_min_of(space) && final(self).accounts@
                    == old(self).accounts@.push(
                    AccountEntry { addr: *addr, lamports: rent_min_of(space), data },
                ),
                Err(e) => *final(self) == *old(self) && *final(payer) == *old(payer) && ((old(
                    self,
                ).contains_addr(addr@) && e == ErrorCode::AllocationFailed) || (!old(
                    self,
                ).contains_addr(addr@) && *old(payer) < rent_min_of(space) && e
                    == ErrorCode::CallerRent)),
            },
    {
        if self.contains(addr) {
            return Err(ErrorCode::AllocationFailed);
        }
        let min = rent_minimum(space);
        if *payer < min {
            return Err(ErrorCode::CallerRent);
        }
        *payer = *payer - min;
        self.push_account(AccountEntry { addr: *addr, lamports: min, data });
        Ok(())
    }
}

} // verus!
