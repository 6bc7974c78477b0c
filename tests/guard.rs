use anchor_lang::solana_program::pubkey::Pubkey;
use jito_protecc::address::Address;
use jito_protecc::derivation::guarded_state_address;
use jito_protecc::guard::{
    close_guarded_state, post_guard, pre_guard, verify_balances, CloseGuardedState, GuardError,
    GuardStore, GuardedState, PostGuard, PreGuard, Refund, SplTokenState, TokenAccount,
};

const PROGRAM: [u8; 32] = [7u8; 32];
const TARGET: [u8; 32] = [1u8; 32];
const INITIATOR: [u8; 32] = [2u8; 32];
const MINT: [u8; 32] = [3u8; 32];
const OTHER_MINT: [u8; 32] = [4u8; 32];
const DEPOSIT: u64 = 1_500_000;

fn addr(b: [u8; 32]) -> Address {
    Address::new(b)
}

fn token(mint: [u8; 32], amount: u64) -> Option<TokenAccount> {
    Some(TokenAccount { mint: addr(mint), owner: addr(TARGET), amount })
}

fn pre_ctx(lamports: u64, token_account: Option<TokenAccount>) -> PreGuard {
    PreGuard {
        guarded_account: addr(TARGET),
        guarded_lamports: lamports,
        token_account,
        signer: addr(INITIATOR),
        deposit: DEPOSIT,
    }
}

fn post_ctx(location: Address, lamports: u64, token_account: Option<TokenAccount>) -> PostGuard {
    PostGuard {
        guarded_account: addr(TARGET),
        guarded_lamports: lamports,
        guarded_state: location,
        token_account,
        signer: addr(INITIATOR),
    }
}

fn close_ctx(location: Address) -> CloseGuardedState {
    CloseGuardedState { guarded_account: addr(TARGET), guarded_state: location, signer: addr(INITIATOR) }
}

fn bump_for(mint: Option<[u8; 32]>) -> u8 {
    guarded_state_address(&addr(PROGRAM), &addr(TARGET), &addr(INITIATOR), &mint.map(addr))
        .expect("a location exists")
        .1
}

fn refund() -> Result<Refund, GuardError> {
    Ok(Refund { beneficiary: addr(INITIATOR), lamports: DEPOSIT })
}

#[test]
fn native_decrease_is_reported_with_both_values() {
    let mut store = GuardStore::new(addr(PROGRAM));
    let location = pre_guard(&mut store, &pre_ctx(100, None), true, bump_for(None)).unwrap();
    let r = post_guard(&mut store, &post_ctx(location, 80, None));
    assert_eq!(r, Err(GuardError::NegativeBalanceChange { pre: 100, post: 80 }));
    assert!(store.get(&location).is_some());
}

#[test]
fn native_increase_passes_and_destroys_the_record() {
    let mut store = GuardStore::new(addr(PROGRAM));
    let location = pre_guard(&mut store, &pre_ctx(100, None), true, bump_for(None)).unwrap();
    let r = post_guard(&mut store, &post_ctx(location, 150, None));
    assert_eq!(r, refund());
    assert!(store.get(&location).is_none());
    assert_eq!(store.len(), 0);
}

#[test]
fn unchanged_balances_pass() {
    let mut store = GuardStore::new(addr(PROGRAM));
    let bump = bump_for(Some(MINT));
    let location = pre_guard(&mut store, &pre_ctx(500, token(MINT, 40)), true, bump).unwrap();
    assert_eq!(post_guard(&mut store, &post_ctx(location, 500, token(MINT, 40))), refund());
}

#[test]
fn token_decrease_is_reported() {
    let mut store = GuardStore::new(addr(PROGRAM));
    let bump = bump_for(Some(MINT));
    let location = pre_guard(&mut store, &pre_ctx(500, token(MINT, 40)), true, bump).unwrap();
    let r = post_guard(&mut store, &post_ctx(location, 900, token(MINT, 39)));
    assert_eq!(r, Err(GuardError::NegativeBalanceChange { pre: 40, post: 39 }));
    assert_eq!(store.len(), 1);
}

#[test]
fn resnapshot_replaces_the_baseline() {
    let mut store = GuardStore::new(addr(PROGRAM));
    let bump = bump_for(Some(MINT));
    let first = pre_guard(&mut store, &pre_ctx(100, token(MINT, 10)), true, bump).unwrap();
    let mut second_ctx = pre_ctx(60, token(MINT, 5));
    second_ctx.deposit = 1;
    let second = pre_guard(&mut store, &second_ctx, true, bump).unwrap();
    assert_eq!(first, second);
    assert_eq!(store.len(), 1);
    let stored = store.get(&first).unwrap();
    assert_eq!(stored.deposit, DEPOSIT);
    assert_eq!(stored.state.maybe_pre_lamports, Some(60));
    assert_eq!(stored.state.spl_token_state, Some(SplTokenState { mint: addr(MINT), pre_balance: 5 }));
    assert_eq!(post_guard(&mut store, &post_ctx(first, 70, token(MINT, 6))), refund());
}

#[test]
fn cleared_flag_ignores_native_balance() {
    let mut store = GuardStore::new(addr(PROGRAM));
    let bump = bump_for(Some(MINT));
    let location = pre_guard(&mut store, &pre_ctx(1_000, token(MINT, 10)), false, bump).unwrap();
    let r = post_guard(&mut store, &post_ctx(location, 0, token(MINT, 9)));
    assert_eq!(r, Err(GuardError::NegativeBalanceChange { pre: 10, post: 9 }));
    assert_eq!(post_guard(&mut store, &post_ctx(location, 0, token(MINT, 10))), refund());
}

#[test]
fn cleared_flag_on_resnapshot_drops_the_native_baseline() {
    let mut store = GuardStore::new(addr(PROGRAM));
    let bump = bump_for(Some(MINT));
    pre_guard(&mut store, &pre_ctx(1_000, token(MINT, 10)), true, bump).unwrap();
    let location = pre_guard(&mut store, &pre_ctx(1_000, token(MINT, 10)), false, bump).unwrap();
    assert_eq!(store.get(&location).unwrap().state.maybe_pre_lamports, None);
    assert_eq!(post_guard(&mut store, &post_ctx(location, 1, token(MINT, 10))), refund());
}

#[test]
fn token_substitution_is_rejected() {
    let mut store = GuardStore::new(addr(PROGRAM));
    let bump = bump_for(Some(MINT));
    let location = pre_guard(&mut store, &pre_ctx(100, token(MINT, 10)), true, bump).unwrap();
    let r = post_guard(&mut store, &post_ctx(location, 100, token(OTHER_MINT, 1_000)));
    assert_eq!(r, Err(GuardError::TokenTypeMismatch));
    let r = post_guard(&mut store, &post_ctx(location, 100, None));
    assert_eq!(r, Err(GuardError::TokenTypeMismatch));
    assert!(store.get(&location).is_some());
}

#[test]
fn close_destroys_whatever_the_balances() {
    let mut store = GuardStore::new(addr(PROGRAM));
    let bump = bump_for(Some(MINT));
    let location = pre_guard(&mut store, &pre_ctx(100, token(MINT, 10)), true, bump).unwrap();
    assert_eq!(close_guarded_state(&mut store, &close_ctx(location)), refund());
    assert!(store.get(&location).is_none());
}

#[test]
fn no_second_teardown_after_verify() {
    let mut store = GuardStore::new(addr(PROGRAM));
    let location = pre_guard(&mut store, &pre_ctx(100, None), true, bump_for(None)).unwrap();
    assert_eq!(post_guard(&mut store, &post_ctx(location, 100, None)), refund());
    assert_eq!(post_guard(&mut store, &post_ctx(location, 100, None)), Err(GuardError::RecordNotFound));
    assert_eq!(close_guarded_state(&mut store, &close_ctx(location)), Err(GuardError::RecordNotFound));
}

#[test]
fn no_second_teardown_after_close() {
    let mut store = GuardStore::new(addr(PROGRAM));
    let location = pre_guard(&mut store, &pre_ctx(100, None), true, bump_for(None)).unwrap();
    assert_eq!(close_guarded_state(&mut store, &close_ctx(location)), refund());
    assert_eq!(close_guarded_state(&mut store, &close_ctx(location)), Err(GuardError::RecordNotFound));
    assert_eq!(post_guard(&mut store, &post_ctx(location, 100, None)), Err(GuardError::RecordNotFound));
}

#[test]
fn verify_without_snapshot_finds_nothing() {
    let mut store = GuardStore::new(addr(PROGRAM));
    let r = post_guard(&mut store, &post_ctx(addr([9u8; 32]), 100, None));
    assert_eq!(r, Err(GuardError::RecordNotFound));
}

#[test]
fn foreign_token_account_is_refused_at_snapshot() {
    let mut store = GuardStore::new(addr(PROGRAM));
    let foreign = Some(TokenAccount { mint: addr(MINT), owner: addr([8u8; 32]), amount: 3 });
    let r = pre_guard(&mut store, &pre_ctx(100, foreign), true, bump_for(Some(MINT)));
    assert_eq!(r, Err(GuardError::OwnershipPrecondition));
    assert_eq!(store.len(), 0);
}

#[test]
fn wrong_bump_blocks_teardown() {
    let mut store = GuardStore::new(addr(PROGRAM));
    let wrong = bump_for(None).wrapping_sub(1);
    let location = pre_guard(&mut store, &pre_ctx(100, None), true, wrong).unwrap();
    assert_eq!(post_guard(&mut store, &post_ctx(location, 100, None)), Err(GuardError::CapabilityMismatch));
    assert_eq!(close_guarded_state(&mut store, &close_ctx(location)), Err(GuardError::CapabilityMismatch));
    assert_eq!(store.len(), 1);
}

#[test]
fn other_initiator_cannot_tear_down() {
    let mut store = GuardStore::new(addr(PROGRAM));
    let location = pre_guard(&mut store, &pre_ctx(100, None), true, bump_for(None)).unwrap();
    let mut ctx = close_ctx(location);
    ctx.signer = addr([5u8; 32]);
    assert_eq!(close_guarded_state(&mut store, &ctx), Err(GuardError::CapabilityMismatch));
}

#[test]
fn location_matches_program_derived_address() {
    let program = Pubkey::new_from_array(PROGRAM);
    let (expected, bump) = Pubkey::find_program_address(
        &[b"GUARDED_STATE", &TARGET, &INITIATOR, &MINT],
        &program,
    );
    let (location, found) =
        guarded_state_address(&addr(PROGRAM), &addr(TARGET), &addr(INITIATOR), &Some(addr(MINT))).unwrap();
    assert_eq!(location.bytes, expected.to_bytes());
    assert_eq!(found, bump);
    let mut store = GuardStore::new(addr(PROGRAM));
    let got = pre_guard(&mut store, &pre_ctx(1, token(MINT, 1)), true, bump).unwrap();
    assert_eq!(got.bytes, expected.to_bytes());
}

#[test]
fn native_only_and_token_records_are_distinct() {
    let mut store = GuardStore::new(addr(PROGRAM));
    let a = pre_guard(&mut store, &pre_ctx(1, None), true, bump_for(None)).unwrap();
    let b = pre_guard(&mut store, &pre_ctx(1, token(MINT, 1)), true, bump_for(Some(MINT))).unwrap();
    assert_ne!(a, b);
    assert_eq!(store.len(), 2);
}

#[test]
fn balance_check_order() {
    let state = GuardedState {
        maybe_pre_lamports: Some(10),
        spl_token_state: Some(SplTokenState { mint: addr(MINT), pre_balance: 5 }),
        bump: 0,
    };
    assert_eq!(
        verify_balances(&state, 9, &token(OTHER_MINT, 0)),
        Err(GuardError::NegativeBalanceChange { pre: 10, post: 9 })
    );
    assert_eq!(verify_balances(&state, 10, &token(OTHER_MINT, 9)), Err(GuardError::TokenTypeMismatch));
    assert_eq!(verify_balances(&state, 10, &token(MINT, 5)), Ok(()));
}
