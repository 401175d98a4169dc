//! Caller initialization: given an owner identity, derive the addresses of one
//! configuration record, one fungible-asset mint, its metadata and its reserve,
//! allocate and fund them, and mint the fixed initial supply — as one
//! all-or-nothing unit of work over an explicit ledger model.

pub mod addr;
pub mod contexts;
pub mod error;
pub mod ledger;
pub mod state;

use crate::addr::Addr;
use crate::contexts::{create_post, CreateCaller, CreateResult, Env};
use crate::error::ErrorCode;
use crate::ledger::Ledger;
use vstd::prelude::*;

verus! {

/// Run one caller initialization: resolve the derived account set for the
/// signing owner, then orchestrate allocation, metadata registration, the
/// initial mint and the record write as one all-or-nothing unit of work.
/// The registrar's and the minter's verdicts are inputs: the caller performs
/// those cross-boundary calls and hands back whether each accepted.
pub fn create_caller(
    ledger: Ledger,
    payer_lamports: u64,
    owner: &Addr,
    env: &Env,
    token_name: String,
    token_symbol: String,
    uri: String,
    registrar_accepts: bool,
    minter_accepts: bool,
) -> (r: CreateResult)
    requires
        ledger.wf(),
    ensures
        create_post(
            ledger,
            payer_lamports,
            owner@,
            *env,
            token_name@,
            token_symbol@,
            uri@,
            registrar_accepts,
            minter_accepts,
            r,
        ),
{
    match CreateCaller::resolve(owner, env) {
        Some(accounts) => accounts.create_caller(
            ledger,
            payer_lamports,
            env,
            token_name,
            token_symbol,
            uri,
            registrar_accepts,
            minter_accepts,
        ),
        None => CreateResult { ledger, payer_lamports, outcome: Err(ErrorCode::DerivationFailed) },
    }
}

} // verus!
