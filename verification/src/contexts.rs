//! Caller initialization: account resolution and the orchestrator.
//!
//! Every address the operation touches is derived from a namespace tag and the
//! owner identity — never caller-supplied — so the whole account set can be
//! resolved up front. The orchestrator then performs five stages as one
//! all-or-nothing unit: allocate the record, mint and reserve accounts,
//! register metadata, mint the fixed initial supply, populate the record, and
//! signal success. Any failure leaves the ledger exactly as it was.

use crate::addr::{addr_eq, derive_address, derive_address3, spec_pda2, spec_pda3, Addr};
use crate::error::ErrorCode;
use crate::ledger::{
    rent_min_of, AccountData, AccountEntry, Ledger, MetadataState, MintState, ReserveState,
};
use crate::state::{
    build_caller_record, Caller, CALLER_ACCOUNT_SPACE, INITIAL_MINT_SUPPLY, METADATA_ACCOUNT_SPACE,
    MINT_ACCOUNT_SPACE, MINT_DECIMALS, MINT_TOTAL_SUPPLY, TOKEN_ACCOUNT_SPACE, VALUE_TARGET,
};
use vstd::prelude::*;

verus! {

/// The namespace tag of the record account: the bytes of "caller".
pub open spec fn caller_tag() -> Seq<u8> {
    seq![99u8, 97u8, 108u8, 108u8, 101u8, 114u8]
}

/// The namespace tag of the minting authority: the bytes of "mint_authority".
pub open spec fn mint_authority_tag() -> Seq<u8> {
    seq![109u8, 105u8, 110u8, 116u8, 95u8, 97u8, 117u8, 116u8, 104u8, 111u8, 114u8, 105u8, 116u8, 121u8]
}

/// The namespace tag of the mint: the bytes of "mint".
pub open spec fn mint_tag() -> Seq<u8> {
    seq![109u8, 105u8, 110u8, 116u8]
}

/// The namespace tag of the collateral-reserve reference: the bytes of
/// "sol_reserve".
pub open spec fn sol_reserve_tag() -> Seq<u8> {
    seq![115u8, 111u8, 108u8, 95u8, 114u8, 101u8, 115u8, 101u8, 114u8, 118u8, 101u8]
}

/// The namespace tag of the metadata target: the bytes of "metadata".
pub open spec fn metadata_tag() -> Seq<u8> {
    seq![109u8, 101u8, 116u8, 97u8, 100u8, 97u8, 116u8, 97u8]
}

fn caller_tag_vec() -> (v: Vec<u8>)
    ensures
        v@ == caller_tag(),
{
    let mut v: Vec<u8> = Vec::new();
    v.push(99);
    v.push(97);
    v.push(108);
    v.push(108);
    v.push(101);
    v.push(114);
    proof {
        assert(v@ =~= caller_tag());
    }
    v
}

fn mint_authority_tag_vec() -> (v: Vec<u8>)
    ensures
        v@ == mint_authority_tag(),
{
    let mut v: Vec<u8> = Vec::new();
    v.push(109);
    v.push(105);
    v.push(110);
    v.push(116);
    v.push(95);
    v.push(97);
    v.push(117);
    v.push(116);
    v.push(104);
    v.push(111);
    v.push(114);
    v.push(105);
    v.push(116);
    v.push(121);
    proof {
        assert(v@ =~= mint_authority_tag());
    }
    v
}

fn mint_tag_vec() -> (v: Vec<u8>)
    ensures
        v@ == mint_tag(),
{
    let mut v: Vec<u8> = Vec::new();
    v.push(109);
    v.push(105);
    v.push(110);
    v.push(116);
    proof {
        assert(v@ =~= mint_tag());
    }
    v
}

fn sol_reserve_tag_vec() -> (v: Vec<u8>)
    ensures
        v@ == sol_reserve_tag(),
{
    let mut v: Vec<u8> = Vec::new();
    v.push(115);
    v.push(111);
    v.push(108);
    v.push(95);
    v.push(114);
    v.push(101);
    v.push(115);
    v.push(101);
    v.push(114);
    v.push(118);
    v.push(101);
    proof {
        assert(v@ =~= sol_reserve_tag());
    }
    v
}

fn metadata_tag_vec() -> (v: Vec<u8>)
    ensures
        v@ == metadata_tag(),
{
    let mut v: Vec<u8> = Vec::new();
    v.push(109);
    v.push(101);
    v.push(116);
    v.push(97);
    v.push(100);
    v.push(97);
    v.push(116);
    v.push(97);
    proof {
        assert(v@ =~= metadata_tag());
    }
    v
}

/// Identities of the platform collaborators every initialization goes
/// through: this program, the metadata registrar, the asset ledger, and the
/// associated-account factory.
#[derive(Clone, Copy)]
pub struct Env {
    pub program: Addr,
    pub token_metadata_program: Addr,
    pub token_program: Addr,
    pub associated_token_program: Addr,
}

/// The address of a successful derivation.
pub open spec fn pda_addr(o: Option<(Seq<u8>, u8)>) -> Seq<u8> {
    match o {
        Some(p) => p.0,
        None => seq![],
    }
}

/// The bump of a successful derivation.
pub open spec fn pda_bump(o: Option<(Seq<u8>, u8)>) -> u8 {
    match o {
        Some(p) => p.1,
        None => 0u8,
    }
}

/// Derivation of the record account for an owner.
pub open spec fn caller_account_pda(owner: Seq<u8>, env: Env) -> Option<(Seq<u8>, u8)> {
    spec_pda2(caller_tag(), owner, env.program@)
}

/// Derivation of the non-signing minting authority for an owner.
pub open spec fn mint_authority_pda(owner: Seq<u8>, env: Env) -> Option<(Seq<u8>, u8)> {
    spec_pda2(mint_authority_tag(), owner, env.program@)
}

/// Derivation of the mint for an owner.
pub open spec fn mint_pda(owner: Seq<u8>, env: Env) -> Option<(Seq<u8>, u8)> {
    spec_pda2(mint_tag(), owner, env.program@)
}

/// Derivation of the collateral-reserve reference for an owner.
pub open spec fn sol_reserve_pda(owner: Seq<u8>, env: Env) -> Option<(Seq<u8>, u8)> {
    spec_pda2(sol_reserve_tag(), owner, env.program@)
}

/// Derivation of the metadata target: under the registrar's own identity,
/// from the registrar identity and the owner's mint.
pub open spec fn metadata_pda(owner: Seq<u8>, env: Env) -> Option<(Seq<u8>, u8)> {
    spec_pda3(
        metadata_tag(),
        env.token_metadata_program@,
        pda_addr(mint_pda(owner, env)),
        env.token_metadata_program@,
    )
}

/// Derivation of the asset reserve: the associated account of the minting
/// authority for the owner's mint, under the associated-account factory.
pub open spec fn mint_reserve_pda(owner: Seq<u8>, env: Env) -> Option<(Seq<u8>, u8)> {
    spec_pda3(
        pda_addr(mint_authority_pda(owner, env)),
        env.token_program@,
        pda_addr(mint_pda(owner, env)),
        env.associated_token_program@,
    )
}

/// Whether every derivation the operation needs succeeds for this owner.
pub open spec fn resolvable(owner: Seq<u8>, env: Env) -> bool {
    &&& caller_account_pda(owner, env) is Some
    &&& mint_authority_pda(owner, env) is Some
    &&& mint_pda(owner, env) is Some
    &&& sol_reserve_pda(owner, env) is Some
    &&& metadata_pda(owner, env) is Some
    &&& mint_reserve_pda(owner, env) is Some
}

/// The fully-resolved account set of one initialization: the owner signer and
/// every derived address with its bump.
#[derive(Clone, Copy)]
pub struct CreateCaller {
    /// The signing owner identity.
    pub caller: Addr,
    /// The record account (created).
    pub caller_account: Addr,
    pub caller_account_bump: u8,
    /// The derived, non-signing minting authority (reference only).
    pub mint_authority: Addr,
    pub mint_authority_bump: u8,
    /// The mint account (created).
    pub mint: Addr,
    pub mint_bump: u8,
    /// The asset reserve (created), bound to mint and minting authority.
    pub mint_reserve: Addr,
    pub mint_reserve_bump: u8,
    /// The collateral-reserve reference (existence only).
    pub sol_reserve: Addr,
    pub sol_reserve_bump: u8,
    /// The metadata target the registrar fills (created by the registrar).
    pub metadata: Addr,
    pub metadata_bump: u8,
}

impl CreateCaller {
    /// Whether this account set is exactly what derivation produces for
    /// `owner` in `env`.
    pub open spec fn resolved_for(self, owner: Seq<u8>, env: Env) -> bool {
        &&& self.caller@ == owner
        &&& caller_account_pda(owner, env) == Some((self.caller_account@, self.caller_account_bump))
        &&& mint_authority_pda(owner, env) == Some((self.mint_authority@, self.mint_authority_bump))
        &&& mint_pda(owner, env) == Some((self.mint@, self.mint_bump))
        &&& sol_reserve_pda(owner, env) == Some((self.sol_reserve@, self.sol_reserve_bump))
        &&& metadata_pda(owner, env) == Some((self.metadata@, self.metadata_bump))
        &&& mint_reserve_pda(owner, env) == Some((self.mint_reserve@, self.mint_reserve_bump))
    }

    /// Resolve the whole account set for an owner by derivation alone; no
    /// external registry is consulted. Returns nothing exactly when some
    /// bounded bump search is exhausted.
    pub fn resolve(owner: &Addr, env: &Env) -> (r: Option<CreateCaller>)
        ensures
            match r {
                Some(c) => c.resolved_for(owner@, *env) && resolvable(owner@, *env),
                None => !resolvable(owner@, *env),
            },
    {
        let caller_account = match derive_address(caller_tag_vec(), owner, &env.program) {
            Some(p) => p,
            None => {
                return None;
            },
        };
        let mint_authority = match derive_address(mint_authority_tag_vec(), owner, &env.program) {
            Some(p) => p,
            None => {
                return None;
            },
        };
        let mint = match derive_address(mint_tag_vec(), owner, &env.program) {
            Some(p) => p,
            None => {
                return None;
            },
        };
        let sol_reserve = match derive_address(sol_reserve_tag_vec(), owner, &env.program) {
            Some(p) => p,
            None => {
                return None;
            },
        };
        let metadata = match derive_address3(
            metadata_tag_vec(),
            crate::addr::addr_to_vec(&env.token_metadata_program),
            crate::addr::addr_to_vec(&mint.0),
            &env.token_metadata_program,
        ) {
            Some(p) => p,
            None => {
                return None;
            },
        };
        let mint_reserve = match derive_address3(
            crate::addr::addr_to_vec(&mint_authority.0),
            crate::addr::addr_to_vec(&env.token_program),
            crate::addr::addr_to_vec(&mint.0),
            &env.associated_token_program,
        ) {
            Some(p) => p,
            None => {
                return None;
            },
        };
        Some(
            CreateCaller {
                caller: *owner,
                caller_account: caller_account.0,
                caller_account_bump: caller_account.1,
                mint_authority: mint_authority.0,
                mint_authority_bump: mint_authority.1,
                mint: mint.0,
                mint_bump: mint.1,
                mint_reserve: mint_reserve.0,
                mint_reserve_bump: mint_reserve.1,
                sol_reserve: sol_reserve.0,
                sol_reserve_bump: sol_reserve.1,
                metadata: metadata.0,
                metadata_bump: metadata.1,
            },
        )
    }
}

/// The metadata registrar adapter (external collaborator). Its verdict is an
/// input: the caller performs the cross-boundary call and hands back whether
/// the registrar accepted. On acceptance the attached attributes are exactly
/// the request, with the derived authority as update authority; a rejection
/// propagates unchanged.
pub fn register_metadata(
    name: String,
    symbol: String,
    uri: String,
    update_authority: Addr,
    accepts: bool,
) -> (r: Result<MetadataState, ErrorCode>)
    ensures
        accepts ==> match r {
            Ok(m) => m.name@ == name@ && m.symbol@ == symbol@ && m.uri@ == uri@
                && m.update_authority@ == update_authority@,
            Err(_) => false,
        },
        !accepts ==> r == Err::<MetadataState, ErrorCode>(ErrorCode::RegistrarRejected),
{
    if accepts {
        Ok(MetadataState { name, symbol, uri, update_authority })
    } else {
        Err(ErrorCode::RegistrarRejected)
    }
}

/// The asset minter adapter (external collaborator). Its verdict is an input:
/// the caller performs the cross-boundary call and hands back whether the
/// asset ledger accepted. On acceptance the supply and the destination
/// balance each grow by exactly the amount; a rejection propagates unchanged.
pub fn mint_initial_supply(mint: MintState, reserve: ReserveState, amount: u64, accepts: bool) -> (r:
    Result<(MintState, ReserveState), ErrorCode>)
    ensures
        r is Ok <==> (accepts && mint.supply + amount <= u64::MAX && reserve.balance + amount
            <= u64::MAX),
        match r {
            Ok(p) => p.0 == (MintState { supply: (mint.supply + amount) as u64, ..mint }) && p.1
                == (ReserveState { balance: (reserve.balance + amount) as u64, ..reserve }),
            Err(e) => e == ErrorCode::MinterRejected,
        },
{
    if !accepts {
        return Err(ErrorCode::MinterRejected);
    }
    let supply = match mint.supply.checked_add(amount) {
        Some(s) => s,
        None => {
            return Err(ErrorCode::MinterRejected);
        },
    };
    let balance = match reserve.balance.checked_add(amount) {
        Some(b) => b,
        None => {
            return Err(ErrorCode::MinterRejected);
        },
    };
    Ok(
        (
            MintState { decimals: mint.decimals, authority: mint.authority, supply },
            ReserveState { mint: reserve.mint, authority: reserve.authority, balance },
        ),
    )
}

/// What one initialization returns: the ledger and payer balance after it,
/// and the written record or the single error that aborted it.
pub struct CreateResult {
    pub ledger: Ledger,
    pub payer_lamports: u64,
    pub outcome: Result<Caller, ErrorCode>,
}

/// A result with its value forgotten; used to compare an outcome against the
/// expected one.
pub open spec fn status<T, E>(r: Result<T, E>) -> Result<(), E> {
    match r {
        Ok(_) => Ok(()),
        Err(e) => Err(e),
    }
}

/// Whether the four accounts to be created sit at distinct addresses, none of
/// which already holds a payload.
pub open spec fn targets_clear(ledger: Ledger, owner: Seq<u8>, env: Env) -> bool {
    let ca = pda_addr(caller_account_pda(owner, env));
    let mi = pda_addr(mint_pda(owner, env));
    let re = pda_addr(mint_reserve_pda(owner, env));
    let md = pda_addr(metadata_pda(owner, env));
    &&& ca != mi
    &&& ca != re
    &&& ca != md
    &&& mi != re
    &&& mi != md
    &&& re != md
    &&& !ledger.contains_addr(ca)
    &&& !ledger.contains_addr(mi)
    &&& !ledger.contains_addr(re)
    &&& !ledger.contains_addr(md)
}

/// The funding the payer must hold: the persistence thresholds of all four
/// created accounts together.
pub open spec fn total_rent() -> int {
    rent_min_of(CALLER_ACCOUNT_SPACE) + rent_min_of(MINT_ACCOUNT_SPACE) + rent_min_of(
        TOKEN_ACCOUNT_SPACE,
    ) + rent_min_of(METADATA_ACCOUNT_SPACE)
}

/// The outcome one initialization must have, stage by stage: derivation, then
/// allocation, then funding, then the registrar, then the minter; success only
/// when every stage succeeds.
pub open spec fn expected_outcome(
    ledger: Ledger,
    payer: u64,
    owner: Seq<u8>,
    env: Env,
    registrar_accepts: bool,
    minter_accepts: bool,
) -> Result<(), ErrorCode> {
    if !resolvable(owner, env) {
        Err(ErrorCode::DerivationFailed)
    } else if !targets_clear(ledger, owner, env) {
        Err(ErrorCode::AllocationFailed)
    } else if (payer as int) < total_rent() {
        Err(ErrorCode::CallerRent)
    } else if !registrar_accepts {
        Err(ErrorCode::RegistrarRejected)
    } else if !minter_accepts {
        Err(ErrorCode::MinterRejected)
    } else {
        Ok(())
    }
}

/// What a successfully written record holds: the owner, the captured bumps,
/// the derived reserve address, and the fixed amounts.
pub open spec fn record_matches(rec: Caller, owner: Seq<u8>, env: Env) -> bool {
    &&& rec.caller@ == owner
    &&& rec.mint_bump == pda_bump(mint_pda(owner, env))
    &&& rec.mint_authority_bump == pda_bump(mint_authority_pda(owner, env))
    &&& rec.mint_supply == INITIAL_MINT_SUPPLY
    &&& rec.mint_total_supply == MINT_TOTAL_SUPPLY
    &&& rec.value_target == VALUE_TARGET
    &&& rec.mint_reserve@ == pda_addr(mint_reserve_pda(owner, env))
    &&& rec.sol_reserve_bump == pda_bump(sol_reserve_pda(owner, env))
    &&& rec.bump == pda_bump(caller_account_pda(owner, env))
}

/// The record account created on success.
pub open spec fn entry_is_record(e: AccountEntry, owner: Seq<u8>, env: Env, rec: Caller) -> bool {
    &&& e.addr@ == pda_addr(caller_account_pda(owner, env))
    &&& e.lamports == rent_min_of(CALLER_ACCOUNT_SPACE)
    &&& e.data == AccountData::Record(rec)
}

/// The mint account created on success: fixed precision, the derived
/// authority, and the full initial supply already minted.
pub open spec fn entry_is_mint(e: AccountEntry, owner: Seq<u8>, env: Env) -> bool {
    &&& e.addr@ == pda_addr(mint_pda(owner, env))
    &&& e.lamports == rent_min_of(MINT_ACCOUNT_SPACE)
    &&& match e.data {
        AccountData::Mint(m) => m.decimals == MINT_DECIMALS && m.authority@ == pda_addr(
            mint_authority_pda(owner, env),
        ) && m.supply == INITIAL_MINT_SUPPLY,
        _ => false,
    }
}

/// The reserve account created on success: bound to the mint and the derived
/// authority, credited with the full initial supply.
pub open spec fn entry_is_reserve(e: AccountEntry, owner: Seq<u8>, env: Env) -> bool {
    &&& e.addr@ == pda_addr(mint_reserve_pda(owner, env))
    &&& e.lamports == rent_min_of(TOKEN_ACCOUNT_SPACE)
    &&& match e.data {
        AccountData::TokenReserve(t) => t.mint@ == pda_addr(mint_pda(owner, env)) && t.authority@
            == pda_addr(mint_authority_pda(owner, env)) && t.balance == INITIAL_MINT_SUPPLY,
        _ => false,
    }
}

/// The metadata account created on success: the requested attributes, with
/// the derived authority as update authority.
pub open spec fn entry_is_metadata(
    e: AccountEntry,
    owner: Seq<u8>,
    env: Env,
    name: Seq<char>,
    symbol: Seq<char>,
    uri: Seq<char>,
) -> bool {
    &&& e.addr@ == pda_addr(metadata_pda(owner, env))
    &&& e.lamports == rent_min_of(METADATA_ACCOUNT_SPACE)
    &&& match e.data {
        AccountData::Metadata(m) => m.name@ == name && m.symbol@ == symbol && m.uri@ == uri
            && m.update_authority@ == pda_addr(mint_authority_pda(owner, env)),
        _ => false,
    }
}

/// The whole contract of one initialization: the outcome is exactly the
/// expected one; on failure nothing is applied; on success exactly the four
/// accounts are appended, the payer paid exactly the thresholds, and the
/// record holds the derived addresses, bumps and fixed amounts.
pub open spec fn create_post(
    ledger: Ledger,
    payer: u64,
    owner: Seq<u8>,
    env: Env,
    name: Seq<char>,
    symbol: Seq<char>,
    uri: Seq<char>,
    registrar_accepts: bool,
    minter_accepts: bool,
    r: CreateResult,
) -> bool {
    let n = ledger.accounts@.len() as int;
    &&& status(r.outcome) == expected_outcome(
        ledger,
        payer,
        owner,
        env,
        registrar_accepts,
        minter_accepts,
    )
    &&& (r.outcome is Err ==> r.ledger == ledger && r.payer_lamports == payer)
    &&& match r.outcome {
        Ok(rec) => {
            &&& record_matches(rec, owner, env)
            &&& rec.wf()
            &&& r.payer_lamports == payer - total_rent()
            &&& r.ledger.wf()
            &&& r.ledger.accounts@.len() == n + 4
            &&& r.ledger.accounts@.subrange(0, n) == ledger.accounts@
            &&& entry_is_record(r.ledger.accounts@[n], owner, env, rec)
            &&& entry_is_mint(r.ledger.accounts@[n + 1], owner, env)
            &&& entry_is_reserve(r.ledger.accounts@[n + 2], owner, env)
            &&& entry_is_metadata(r.ledger.accounts@[n + 3], owner, env, name, symbol, uri)
        },
        Err(_) => true,
    }
}

impl CreateCaller {
    /// The orchestrator: run one initialization for the owner this account
    /// set was resolved for, against the given ledger and payer balance. The
    /// registrar's and the minter's verdicts are inputs: the caller performs
    /// those cross-boundary calls and hands back whether each accepted.
    pub fn create_caller(
        self,
        ledger: Ledger,
        payer_lamports: u64,
        env: &Env,
        token_name: String,
        token_symbol: String,
        uri: String,
        registrar_accepts: bool,
        minter_accepts: bool,
    ) -> (r: CreateResult)
        requires
            ledger.wf(),
            self.resolved_for(self.caller@, *env),
        ensures
            create_post(
                ledger,
                payer_lamports,
                self.caller@,
                *env,
                token_name@,
                token_symbol@,
                uri@,
                registrar_accepts,
                minter_accepts,
                r,
            ),
    {
        // Stage 1a: the four created accounts must sit at distinct, free
        // addresses; a repeated initialization for the same owner fails here.
        let distinct = !addr_eq(&self.caller_account, &self.mint) && !addr_eq(
            &self.caller_account,
            &self.mint_reserve,
        ) && !addr_eq(&self.caller_account, &self.metadata) && !addr_eq(
            &self.mint,
            &self.mint_reserve,
        ) && !addr_eq(&self.mint, &self.metadata) && !addr_eq(&self.mint_reserve, &self.metadata);
        if !distinct {
            return CreateResult {
                ledger,
                payer_lamports,
                outcome: Err(ErrorCode::AllocationFailed),
            };
        }
        if ledger.contains(&self.caller_account) || ledger.contains(&self.mint) || ledger.contains(
            &self.mint_reserve,
        ) || ledger.contains(&self.metadata) {
            return CreateResult {
                ledger,
                payer_lamports,
                outcome: Err(ErrorCode::AllocationFailed),
            };
        }
        // Stage 1b: the payer must fund every created account at its
        // persistence threshold.
        let rent_record = crate::ledger::rent_minimum(CALLER_ACCOUNT_SPACE);
        let rent_mint = crate::ledger::rent_minimum(MINT_ACCOUNT_SPACE);
        let rent_reserve = crate::ledger::rent_minimum(TOKEN_ACCOUNT_SPACE);
        let rent_metadata = crate::ledger::rent_minimum(METADATA_ACCOUNT_SPACE);
        let enough = payer_lamports >= rent_record && payer_lamports - rent_record >= rent_mint
            && payer_lamports - rent_record - rent_mint >= rent_reserve && payer_lamports
            - rent_record - rent_mint - rent_reserve >= rent_metadata;
        if !enough {
            return CreateResult { ledger, payer_lamports, outcome: Err(ErrorCode::CallerRent) };
        }
        // Stage 2: register metadata through the adapter.
        let md = match register_metadata(
            token_name,
            token_symbol,
            uri,
            self.mint_authority,
            registrar_accepts,
        ) {
            Ok(md) => md,
            Err(e) => {
                return CreateResult { ledger, payer_lamports, outcome: Err(e) };
            },
        };
        // Stage 3: mint the fixed initial supply through the adapter, into a
        // fresh mint and reserve bound to the derived authority.
        let m0 = MintState { decimals: MINT_DECIMALS, authority: self.mint_authority, supply: 0 };
        let t0 = ReserveState { mint: self.mint, authority: self.mint_authority, balance: 0 };
        let minted = match mint_initial_supply(m0, t0, INITIAL_MINT_SUPPLY, minter_accepts) {
            Ok(p) => p,
            Err(e) => {
                return CreateResult { ledger, payer_lamports, outcome: Err(e) };
            },
        };
        let m1 = minted.0;
        let t1 = minted.1;
        // Stage 4: assemble the record, then apply all allocations at once;
        // nothing earlier touched the ledger, so a failure above left it
        // untouched and the stages below cannot fail.
        let record = build_caller_record(
            self.caller,
            self.mint_bump,
            self.mint_authority_bump,
            self.mint_reserve,
            self.sol_reserve_bump,
            self.caller_account_bump,
        );
        let mut led = ledger;
        let mut payer = payer_lamports;
        let ghost l0 = led.accounts@;
        let r1 = led.create_account(
            &mut payer,
            &self.caller_account,
            CALLER_ACCOUNT_SPACE,
            AccountData::Record(record),
        );
        match r1 {
            Ok(()) => (),
            Err(_) => {
                proof {
                    assert(false);
                }
                return CreateResult {
                    ledger: led,
                    payer_lamports: payer,
                    outcome: Err(ErrorCode::AllocationFailed),
                };
            },
        }
        proof {
            crate::ledger::lemma_push_contains(l0, led.accounts@[l0.len() as int], self.mint@);
            crate::ledger::lemma_push_contains(
                l0,
                led.accounts@[l0.len() as int],
                self.mint_reserve@,
            );
            crate::ledger::lemma_push_contains(l0, led.accounts@[l0.len() as int], self.metadata@);
        }
        let ghost l1 = led.accounts@;
        let r2 = led.create_account(&mut payer, &self.mint, MINT_ACCOUNT_SPACE, AccountData::Mint(m1));
        match r2 {
            Ok(()) => (),
            Err(_) => {
                proof {
                    assert(false);
                }
                return CreateResult {
                    ledger: led,
                    payer_lamports: payer,
                    outcome: Err(ErrorCode::AllocationFailed),
                };
            },
        }
        proof {
            crate::ledger::lemma_push_contains(
                l1,
                led.accounts@[l1.len() as int],
                self.mint_reserve@,
            );
            crate::ledger::lemma_push_contains(l1, led.accounts@[l1.len() as int], self.metadata@);
        }
        let ghost l2 = led.accounts@;
        let r3 = led.create_account(
            &mut payer,
            &self.mint_reserve,
            TOKEN_ACCOUNT_SPACE,
            AccountData::TokenReserve(t1),
        );
        match r3 {
            Ok(()) => (),
            Err(_) => {
                proof {
                    assert(false);
                }
                return CreateResult {
                    ledger: led,
                    payer_lamports: payer,
                    outcome: Err(ErrorCode::AllocationFailed),
                };
            },
        }
        proof {
            crate::ledger::lemma_push_contains(l2, led.accounts@[l2.len() as int], self.metadata@);
        }
        let r4 = led.create_account(
            &mut payer,
            &self.metadata,
            METADATA_ACCOUNT_SPACE,
            AccountData::Metadata(md),
        );
        match r4 {
            Ok(()) => (),
            Err(_) => {
                proof {
                    assert(false);
                }
                return CreateResult {
                    ledger: led,
                    payer_lamports: payer,
                    outcome: Err(ErrorCode::AllocationFailed),
                };
            },
        }
        proof {
            let n = ledger.accounts@.len() as int;
            assert(led.accounts@.subrange(0, n) =~= ledger.accounts@);
        }
        CreateResult { ledger: led, payer_lamports: payer, outcome: Ok(record) }
    }
}

/// Law: initializing the same owner twice cannot create a second record. If a
/// first initialization succeeded, it added exactly one record for that
/// owner, the record account still stands at the derived address, and a
/// second attempt for that owner — whatever its payer or collaborator
/// verdicts — is refused as an allocation failure; by the failure clause of
/// the contract it changes nothing, so the count can never grow again.
pub proof fn lemma_second_initialization_fails(
    ledger: Ledger,
    payer1: u64,
    owner: Seq<u8>,
    env: Env,
    name: Seq<char>,
    symbol: Seq<char>,
    uri: Seq<char>,
    ra1: bool,
    ma1: bool,
    r: CreateResult,
    payer2: u64,
    ra2: bool,
    ma2: bool,
)
    ensures
        (create_post(ledger, payer1, owner, env, name, symbol, uri, ra1, ma1, r) && r.outcome
            is Ok) ==> expected_outcome(r.ledger, payer2, owner, env, ra2, ma2) == Err::<
            (),
            ErrorCode,
        >(ErrorCode::AllocationFailed),
        (create_post(ledger, payer1, owner, env, name, symbol, uri, ra1, ma1, r) && r.outcome
            is Ok) ==> crate::ledger::records_for(r.ledger.accounts@, owner)
            == crate::ledger::records_for(ledger.accounts@, owner) + 1,
{
    if create_post(ledger, payer1, owner, env, name, symbol, uri, ra1, ma1, r) && r.outcome
        is Ok {
        let n = ledger.accounts@.len() as int;
        let ca = pda_addr(caller_account_pda(owner, env));
        assert(resolvable(owner, env));
        assert(r.ledger.accounts@[n].addr@ == ca);
        assert(crate::ledger::seq_contains_addr(r.ledger.accounts@, ca)) by {
            assert(0 <= n < r.ledger.accounts@.len() && r.ledger.accounts@[n].addr@ == ca);
        }
        assert(!targets_clear(r.ledger, owner, env));
        let a = ledger.accounts@;
        let b = r.ledger.accounts@;
        let e1 = b[n];
        let e2 = b[n + 1];
        let e3 = b[n + 2];
        let e4 = b[n + 3];
        assert(b =~= a.push(e1).push(e2).push(e3).push(e4)) by {
            assert forall|i: int| 0 <= i < n implies b[i] == a[i] by {
                assert(b.subrange(0, n)[i] == b[i]);
            }
        }
        assert(crate::ledger::is_record_for(e1, owner));
        assert(!crate::ledger::is_record_for(e2, owner));
        assert(!crate::ledger::is_record_for(e3, owner));
        assert(!crate::ledger::is_record_for(e4, owner));
        crate::ledger::lemma_records_for_push(a, e1, owner);
        crate::ledger::lemma_records_for_push(a.push(e1), e2, owner);
        crate::ledger::lemma_records_for_push(a.push(e1).push(e2), e3, owner);
        crate::ledger::lemma_records_for_push(a.push(e1).push(e2).push(e3), e4, owner);
    }
}

/// Law: a successful initialization fixes the amounts. The written record
/// holds supply, ceiling and value target of exactly 1_000_000_000 with the
/// supply at its ceiling, and the reserve account created beside it is
/// credited with exactly that supply.
pub proof fn lemma_success_amounts(
    ledger: Ledger,
    payer: u64,
    owner: Seq<u8>,
    env: Env,
    name: Seq<char>,
    symbol: Seq<char>,
    uri: Seq<char>,
    ra: bool,
    ma: bool,
    r: CreateResult,
)
    ensures
        create_post(ledger, payer, owner, env, name, symbol, uri, ra, ma, r) ==> match r.outcome {
            Ok(rec) => {
                &&& rec.mint_supply == 1_000_000_000
                &&& rec.mint_total_supply == 1_000_000_000
                &&& rec.value_target == 1_000_000_000
                &&& rec.mint_supply == rec.mint_total_supply
                &&& match r.ledger.accounts@[ledger.accounts@.len() as int + 2].data {
                    AccountData::TokenReserve(t) => t.balance == 1_000_000_000,
                    _ => false,
                }
            },
            Err(_) => true,
        },
{
}

/// Law: when the payer's funding is below the persistence threshold of any of
/// the four accounts to be created — in particular the largest — while the
/// earlier stages would pass, the initialization fails with the one domain
/// error, insufficient funding; by the failure clause of the contract, zero
/// accounts are created.
pub proof fn lemma_underfunded_fails(
    ledger: Ledger,
    payer: u64,
    owner: Seq<u8>,
    env: Env,
    ra: bool,
    ma: bool,
)
    ensures
        (resolvable(owner, env) && targets_clear(ledger, owner, env) && (payer < rent_min_of(
            CALLER_ACCOUNT_SPACE,
        ) || payer < rent_min_of(MINT_ACCOUNT_SPACE) || payer < rent_min_of(TOKEN_ACCOUNT_SPACE)
            || payer < rent_min_of(METADATA_ACCOUNT_SPACE))) ==> expected_outcome(
            ledger,
            payer,
            owner,
            env,
            ra,
            ma,
        ) == Err::<(), ErrorCode>(ErrorCode::CallerRent),
{
}

/// Law: if the metadata registrar rejects its input, the initialization
/// aborts before anything is applied: no supply is minted, no record is
/// written, and ledger and payer balance are exactly as before the call.
pub proof fn lemma_registrar_rejection_rolls_back(
    ledger: Ledger,
    payer: u64,
    owner: Seq<u8>,
    env: Env,
    name: Seq<char>,
    symbol: Seq<char>,
    uri: Seq<char>,
    ma: bool,
    r: CreateResult,
)
    ensures
        create_post(ledger, payer, owner, env, name, symbol, uri, false, ma, r) ==> (r.outcome
            is Err && r.ledger == ledger && r.payer_lamports == payer),
{
}

} // verus!
