use anchor_lang::solana_program::pubkey::Pubkey;
use bonding_curve::addr::Addr;
use bonding_curve::contexts::{CreateCaller, Env};
use bonding_curve::create_caller;
use bonding_curve::error::ErrorCode;
use bonding_curve::ledger::{AccountData, Ledger};

fn addr(fill: u8) -> Addr {
    Addr { bytes: [fill; 32] }
}

fn named_addr(name: &str) -> Addr {
    let mut bytes = [0u8; 32];
    bytes[..name.len()].copy_from_slice(name.as_bytes());
    Addr { bytes }
}

fn env() -> Env {
    Env {
        program: addr(11),
        token_metadata_program: addr(22),
        token_program: addr(33),
        associated_token_program: addr(44),
    }
}

const PAYER: u64 = 100_000_000;

fn run(
    ledger: Ledger,
    payer: u64,
    owner: &Addr,
    registrar_accepts: bool,
    minter_accepts: bool,
) -> bonding_curve::contexts::CreateResult {
    create_caller(
        ledger,
        payer,
        owner,
        &env(),
        String::from("Alice Coin"),
        String::from("ALC"),
        String::from("https://example/x.json"),
        registrar_accepts,
        minter_accepts,
    )
}

#[test]
fn derivation_is_deterministic() {
    let owner = named_addr("alice");
    let a = CreateCaller::resolve(&owner, &env()).unwrap();
    let b = CreateCaller::resolve(&owner, &env()).unwrap();
    assert_eq!(a.caller_account.bytes, b.caller_account.bytes);
    assert_eq!(a.caller_account_bump, b.caller_account_bump);
    assert_eq!(a.mint.bytes, b.mint.bytes);
    assert_eq!(a.mint_authority.bytes, b.mint_authority.bytes);
    assert_eq!(a.mint_reserve.bytes, b.mint_reserve.bytes);
    assert_eq!(a.sol_reserve.bytes, b.sol_reserve.bytes);
    assert_eq!(a.metadata.bytes, b.metadata.bytes);
}

#[test]
fn derivation_matches_the_ledger_sdk() {
    // The resolved addresses must be the ones the ledger SDK computes
    // independently; this fails if derivation were to echo its input back.
    let owner = named_addr("alice");
    let e = env();
    let resolved = CreateCaller::resolve(&owner, &e).unwrap();
    let program = Pubkey::new_from_array(e.program.bytes);
    let (expect_record, expect_record_bump) =
        Pubkey::find_program_address(&[b"caller", &owner.bytes], &program);
    assert_eq!(resolved.caller_account.bytes, expect_record.to_bytes());
    assert_eq!(resolved.caller_account_bump, expect_record_bump);
    assert_ne!(resolved.caller_account.bytes, owner.bytes);
    let (expect_mint, _) = Pubkey::find_program_address(&[b"mint", &owner.bytes], &program);
    assert_eq!(resolved.mint.bytes, expect_mint.to_bytes());
    let (expect_sol, expect_sol_bump) =
        Pubkey::find_program_address(&[b"sol_reserve", &owner.bytes], &program);
    assert_eq!(resolved.sol_reserve.bytes, expect_sol.to_bytes());
    assert_eq!(resolved.sol_reserve_bump, expect_sol_bump);
}

#[test]
fn distinct_owners_get_distinct_addresses() {
    let e = env();
    let alice = CreateCaller::resolve(&named_addr("alice"), &e).unwrap();
    let bob = CreateCaller::resolve(&named_addr("bob"), &e).unwrap();
    assert_ne!(alice.caller_account.bytes, bob.caller_account.bytes);
    assert_ne!(alice.mint.bytes, bob.mint.bytes);
    assert_ne!(alice.mint_authority.bytes, bob.mint_authority.bytes);
    assert_ne!(alice.mint_reserve.bytes, bob.mint_reserve.bytes);
    assert_ne!(alice.metadata.bytes, bob.metadata.bytes);
}

#[test]
fn first_initialization_succeeds_second_fails() {
    let owner = named_addr("alice");
    let first = run(Ledger::new(), PAYER, &owner, true, true);
    let ledger_after = first.ledger;
    assert!(first.outcome.is_ok());
    assert_eq!(ledger_after.accounts.len(), 4);
    let second = run(ledger_after, PAYER, &owner, true, true);
    assert_eq!(second.outcome.unwrap_err(), ErrorCode::AllocationFailed);
    // Nothing changed: still exactly one record for this owner.
    assert_eq!(second.ledger.accounts.len(), 4);
    let records = second
        .ledger
        .accounts
        .iter()
        .filter(|e| matches!(e.data, AccountData::Record(_)))
        .count();
    assert_eq!(records, 1);
}

#[test]
fn success_writes_the_fixed_amounts() {
    let owner = named_addr("alice");
    let result = run(Ledger::new(), PAYER, &owner, true, true);
    let record = result.outcome.unwrap();
    assert_eq!(record.mint_supply, 1_000_000_000);
    assert_eq!(record.mint_total_supply, 1_000_000_000);
    assert_eq!(record.value_target, 1_000_000_000);
    match &result.ledger.accounts[2].data {
        AccountData::TokenReserve(t) => assert_eq!(t.balance, 1_000_000_000),
        _ => panic!("expected the reserve account"),
    }
    match &result.ledger.accounts[1].data {
        AccountData::Mint(m) => {
            assert_eq!(m.supply, 1_000_000_000);
            assert_eq!(m.decimals, 8);
        },
        _ => panic!("expected the mint account"),
    }
}

#[test]
fn accounts_are_funded_at_the_persistence_threshold() {
    // The funding each created account carries must be what the ledger SDK's
    // rent schedule demands for its size; this fails if the funding oracle
    // were to answer anything else.
    let owner = named_addr("alice");
    let result = run(Ledger::new(), PAYER, &owner, true, true);
    assert!(result.outcome.is_ok());
    let rent = anchor_lang::solana_program::rent::Rent::default();
    let expected = [
        rent.minimum_balance(100),
        rent.minimum_balance(82),
        rent.minimum_balance(165),
        rent.minimum_balance(679),
    ];
    for (entry, want) in result.ledger.accounts.iter().zip(expected.iter()) {
        assert_eq!(entry.lamports, *want);
    }
    let total: u64 = expected.iter().sum();
    assert_eq!(result.payer_lamports, PAYER - total);
}

#[test]
fn underfunded_payer_fails_with_rent_error() {
    let owner = named_addr("alice");
    let result = run(Ledger::new(), 0, &owner, true, true);
    assert_eq!(result.outcome.unwrap_err(), ErrorCode::CallerRent);
    assert_eq!(result.ledger.accounts.len(), 0);
    assert_eq!(result.payer_lamports, 0);
}

#[test]
fn payer_below_largest_account_threshold_fails_with_rent_error() {
    // The metadata target is the largest created account; funding below its
    // threshold alone is already refused.
    let rent = anchor_lang::solana_program::rent::Rent::default();
    let payer = rent.minimum_balance(679) - 1;
    let owner = named_addr("alice");
    let result = run(Ledger::new(), payer, &owner, true, true);
    assert_eq!(result.outcome.unwrap_err(), ErrorCode::CallerRent);
    assert_eq!(result.ledger.accounts.len(), 0);
    assert_eq!(result.payer_lamports, payer);
}

#[test]
fn registrar_rejection_rolls_everything_back() {
    let owner = named_addr("alice");
    let result = run(Ledger::new(), PAYER, &owner, false, true);
    assert_eq!(result.outcome.unwrap_err(), ErrorCode::RegistrarRejected);
    assert_eq!(result.ledger.accounts.len(), 0);
    assert_eq!(result.payer_lamports, PAYER);
}

#[test]
fn minter_rejection_rolls_everything_back() {
    let owner = named_addr("alice");
    let result = run(Ledger::new(), PAYER, &owner, true, false);
    assert_eq!(result.outcome.unwrap_err(), ErrorCode::MinterRejected);
    assert_eq!(result.ledger.accounts.len(), 0);
    assert_eq!(result.payer_lamports, PAYER);
}

#[test]
fn alice_scenario() {
    let owner = named_addr("alice");
    let e = env();
    let result = create_caller(
        Ledger::new(),
        PAYER,
        &owner,
        &e,
        String::from("Alice Coin"),
        String::from("ALC"),
        String::from("https://example/x.json"),
        true,
        true,
    );
    let record = result.outcome.unwrap();
    assert_eq!(record.caller.bytes, owner.bytes);
    // The stored reserve address is the one derivation computes independently
    // for this owner: the associated account of the derived authority.
    let resolved = CreateCaller::resolve(&owner, &e).unwrap();
    assert_eq!(record.mint_reserve.bytes, resolved.mint_reserve.bytes);
    // The stored collateral-reserve bump matches an independent derivation of
    // ("sol_reserve", alice).
    let program = Pubkey::new_from_array(e.program.bytes);
    let (_, sol_bump) = Pubkey::find_program_address(&[b"sol_reserve", &owner.bytes], &program);
    assert_eq!(record.sol_reserve_bump, sol_bump);
    // The metadata attributes are attached as requested.
    match &result.ledger.accounts[3].data {
        AccountData::Metadata(m) => {
            assert_eq!(m.name, "Alice Coin");
            assert_eq!(m.symbol, "ALC");
            assert_eq!(m.uri, "https://example/x.json");
            assert_eq!(m.update_authority.bytes, resolved.mint_authority.bytes);
        },
        _ => panic!("expected the metadata account"),
    }
}

#[test]
fn allocation_refuses_an_occupied_address() {
    let mut ledger = Ledger::new();
    let mut payer: u64 = 10_000_000;
    let target = addr(7);
    let data = AccountData::TokenReserve(bonding_curve::ledger::ReserveState {
        mint: addr(1),
        authority: addr(2),
        balance: 0,
    });
    let first = ledger.create_account(&mut payer, &target, 165, data);
    assert!(first.is_ok());
    let again = AccountData::TokenReserve(bonding_curve::ledger::ReserveState {
        mint: addr(1),
        authority: addr(2),
        balance: 0,
    });
    let second = ledger.create_account(&mut payer, &target, 165, again);
    assert_eq!(second.unwrap_err(), ErrorCode::AllocationFailed);
    assert_eq!(ledger.accounts.len(), 1);
}
