//! Properties of sequences of guard operations, stated over the outcomes
//! that the operations are proved to produce.
use vstd::prelude::*;
use crate::address::Address;
use crate::derivation::derives_location;
use crate::guard::{
    close_outcome, mint_of, post_guard_outcome, pre_guard_outcome, snapshot_of, tracked_mint,
    verify_record, CloseGuardedState, GuardError, PostGuard, PreGuard, Refund, StoredRecord,
};

verus! {

/// A verification presented after a snapshot: it names the location the
/// snapshot returned, the same guarded account and initiator, and the bump
/// given at the snapshot re-derives that location.
pub open spec fn follows_snapshot(
    program_id: Address,
    records: Map<Address, StoredRecord>,
    pre: PreGuard,
    should_guard_lamports: bool,
    bump: u8,
    post: PostGuard,
) -> bool {
    &&& pre_guard_outcome(program_id, records, pre, should_guard_lamports, bump).0 == Ok::<
        Address,
        GuardError,
    >(post.guarded_state)
    &&& post.guarded_account == pre.guarded_account
    &&& post.signer == pre.signer
    &&& derives_location(
        program_id,
        pre.guarded_account,
        pre.signer,
        mint_of(pre.token_account),
        bump,
        post.guarded_state,
    )
}

/// Where no guarded balance decreased between a snapshot and the
/// verification that follows it, and the token account presented is of the
/// recorded mint, the verification succeeds, refunds the deposit to the
/// initiator and leaves no record behind.
pub proof fn lemma_no_decrease_passes(
    program_id: Address,
    records: Map<Address, StoredRecord>,
    pre: PreGuard,
    should_guard_lamports: bool,
    bump: u8,
    post: PostGuard,
)
    requires
        follows_snapshot(program_id, records, pre, should_guard_lamports, bump, post),
        should_guard_lamports ==> post.guarded_lamports >= pre.guarded_lamports,
        pre.token_account matches Some(t) ==> (post.token_account matches Some(u) && u.mint == t.mint
            && u.amount >= t.amount),
    ensures
        ({
            let after = pre_guard_outcome(program_id, records, pre, should_guard_lamports, bump).1;
            let (r, rest) = post_guard_outcome(program_id, after, post);
            &&& r == Ok::<Refund, GuardError>(
                Refund { beneficiary: pre.signer, lamports: after[post.guarded_state].deposit },
            )
            &&& !rest.contains_key(post.guarded_state)
        }),
{
    let after = pre_guard_outcome(program_id, records, pre, should_guard_lamports, bump).1;
    assert(after.contains_key(post.guarded_state));
    assert(after[post.guarded_state].state == snapshot_of(pre, should_guard_lamports, bump));
    assert(tracked_mint(snapshot_of(pre, should_guard_lamports, bump)) == mint_of(pre.token_account));
}

/// Where a guarded balance is lower at the verification than at the
/// snapshot, the verification fails with `NegativeBalanceChange`, giving both
/// values, and the record stays.
pub proof fn lemma_decrease_detected(
    program_id: Address,
    records: Map<Address, StoredRecord>,
    pre: PreGuard,
    should_guard_lamports: bool,
    bump: u8,
    post: PostGuard,
)
    requires
        follows_snapshot(program_id, records, pre, should_guard_lamports, bump, post),
    ensures
        ({
            let after = pre_guard_outcome(program_id, records, pre, should_guard_lamports, bump).1;
            let (r, rest) = post_guard_outcome(program_id, after, post);
            &&& should_guard_lamports && post.guarded_lamports < pre.guarded_lamports ==> r == Err::<
                Refund,
                GuardError,
            >(
                GuardError::NegativeBalanceChange {
                    pre: pre.guarded_lamports,
                    post: post.guarded_lamports,
                },
            ) && rest == after && rest.contains_key(post.guarded_state)
            &&& (!should_guard_lamports || post.guarded_lamports >= pre.guarded_lamports)
                && pre.token_account is Some && post.token_account is Some
                && post.token_account->Some_0.mint == pre.token_account->Some_0.mint
                && post.token_account->Some_0.amount < pre.token_account->Some_0.amount ==> r
                == Err::<Refund, GuardError>(
                GuardError::NegativeBalanceChange {
                    pre: pre.token_account->Some_0.amount,
                    post: post.token_account->Some_0.amount,
                },
            ) && rest == after && rest.contains_key(post.guarded_state)
        }),
{
    let after = pre_guard_outcome(program_id, records, pre, should_guard_lamports, bump).1;
    assert(after.contains_key(post.guarded_state));
    assert(after[post.guarded_state].state == snapshot_of(pre, should_guard_lamports, bump));
    assert(tracked_mint(snapshot_of(pre, should_guard_lamports, bump)) == mint_of(pre.token_account));
}

/// A second snapshot of the same guarded account, initiator and mint before
/// any verification returns the same location and replaces the baseline with
/// its own reading: a verification then compares against the second baseline
/// alone, and the deposit paid by the first stays with the record.
pub proof fn lemma_resnapshot_overwrites(
    program_id: Address,
    records: Map<Address, StoredRecord>,
    first: PreGuard,
    first_flag: bool,
    first_bump: u8,
    second: PreGuard,
    second_flag: bool,
    second_bump: u8,
    post: PostGuard,
)
    requires
        pre_guard_outcome(program_id, records, first, first_flag, first_bump).0 is Ok,
        second.guarded_account == first.guarded_account,
        second.signer == first.signer,
        mint_of(second.token_account) == mint_of(first.token_account),
        second.token_account matches Some(t) ==> t.owner == second.guarded_account,
    ensures
        ({
            let (r1, m1) = pre_guard_outcome(program_id, records, first, first_flag, first_bump);
            let location = r1->Ok_0;
            let (r2, m2) = pre_guard_outcome(program_id, m1, second, second_flag, second_bump);
            let baseline = StoredRecord {
                state: snapshot_of(second, second_flag, second_bump),
                deposit: m1[location].deposit,
            };
            &&& r2 == Ok::<Address, GuardError>(location)
            &&& m2 == m1.insert(location, baseline)
            &&& post.guarded_state == location ==> post_guard_outcome(program_id, m2, post).0
                == verify_record(program_id, baseline, post)
        }),
{
    let (r1, m1) = pre_guard_outcome(program_id, records, first, first_flag, first_bump);
    assert(m1.contains_key(r1->Ok_0));
}

/// With the native-balance flag cleared at the snapshot, the verification
/// ignores the native balance, however far it fell, and still checks the
/// token balance.
pub proof fn lemma_native_check_skipped(
    program_id: Address,
    records: Map<Address, StoredRecord>,
    pre: PreGuard,
    bump: u8,
    post: PostGuard,
)
    requires
        follows_snapshot(program_id, records, pre, false, bump, post),
        pre.token_account is Some,
        post.token_account matches Some(u) && u.mint == pre.token_account->Some_0.mint,
    ensures
        ({
            let after = pre_guard_outcome(program_id, records, pre, false, bump).1;
            let t = pre.token_account->Some_0;
            let u = post.token_account->Some_0;
            let (r, rest) = post_guard_outcome(program_id, after, post);
            &&& u.amount >= t.amount ==> r == Ok::<Refund, GuardError>(
                Refund { beneficiary: pre.signer, lamports: after[post.guarded_state].deposit },
            )
            &&& u.amount < t.amount ==> r == Err::<Refund, GuardError>(
                GuardError::NegativeBalanceChange { pre: t.amount, post: u.amount },
            ) && rest == after
        }),
{
    let after = pre_guard_outcome(program_id, records, pre, false, bump).1;
    assert(after.contains_key(post.guarded_state));
    assert(after[post.guarded_state].state == snapshot_of(pre, false, bump));
    assert(tracked_mint(snapshot_of(pre, false, bump)) == mint_of(pre.token_account));
}

/// A verification presented with a token account of another mint than the
/// one recorded never succeeds; once the native check has passed it fails
/// with `TokenTypeMismatch`. The record stays.
pub proof fn lemma_token_substitution_rejected(
    program_id: Address,
    records: Map<Address, StoredRecord>,
    pre: PreGuard,
    should_guard_lamports: bool,
    bump: u8,
    post: PostGuard,
)
    requires
        follows_snapshot(program_id, records, pre, should_guard_lamports, bump, post),
        pre.token_account is Some,
        !(post.token_account matches Some(u) && u.mint == pre.token_account->Some_0.mint),
    ensures
        ({
            let after = pre_guard_outcome(program_id, records, pre, should_guard_lamports, bump).1;
            let (r, rest) = post_guard_outcome(program_id, after, post);
            &&& r is Err
            &&& rest == after
            &&& (!should_guard_lamports || post.guarded_lamports >= pre.guarded_lamports) ==> r
                == Err::<Refund, GuardError>(GuardError::TokenTypeMismatch)
        }),
{
    let after = pre_guard_outcome(program_id, records, pre, should_guard_lamports, bump).1;
    assert(after.contains_key(post.guarded_state));
    assert(after[post.guarded_state].state == snapshot_of(pre, should_guard_lamports, bump));
    assert(tracked_mint(snapshot_of(pre, should_guard_lamports, bump)) == mint_of(pre.token_account));
}

/// A close of a record whose bump re-derives its location from the
/// identities presented always destroys it and refunds its whole deposit to
/// the initiator, whatever balances it recorded.
pub proof fn lemma_close_unconditional(
    program_id: Address,
    records: Map<Address, StoredRecord>,
    ctx: CloseGuardedState,
)
    requires
        records.contains_key(ctx.guarded_state),
        derives_location(
            program_id,
            ctx.guarded_account,
            ctx.signer,
            tracked_mint(records[ctx.guarded_state].state),
            records[ctx.guarded_state].state.bump,
            ctx.guarded_state,
        ),
    ensures
        close_outcome(program_id, records, ctx) == (
            Ok::<Refund, GuardError>(
                Refund { beneficiary: ctx.signer, lamports: records[ctx.guarded_state].deposit },
            ),
            records.remove(ctx.guarded_state),
        ),
{
}

/// Once a verification has destroyed a record, a second verification or a
/// close at the same location fails with `RecordNotFound`.
pub proof fn lemma_no_reuse_after_verify(
    program_id: Address,
    records: Map<Address, StoredRecord>,
    first: PostGuard,
    again: PostGuard,
    close: CloseGuardedState,
)
    requires
        post_guard_outcome(program_id, records, first).0 is Ok,
        again.guarded_state == first.guarded_state,
        close.guarded_state == first.guarded_state,
    ensures
        ({
            let rest = post_guard_outcome(program_id, records, first).1;
            &&& post_guard_outcome(program_id, rest, again) == (
                Err::<Refund, GuardError>(GuardError::RecordNotFound),
                rest,
            )
            &&& close_outcome(program_id, rest, close) == (
                Err::<Refund, GuardError>(GuardError::RecordNotFound),
                rest,
            )
        }),
{
}

/// Once a close has destroyed a record, a verification or a second close at
/// the same location fails with `RecordNotFound`.
pub proof fn lemma_no_reuse_after_close(
    program_id: Address,
    records: Map<Address, StoredRecord>,
    first: CloseGuardedState,
    post: PostGuard,
    again: CloseGuardedState,
)
    requires
        close_outcome(program_id, records, first).0 is Ok,
        post.guarded_state == first.guarded_state,
        again.guarded_state == first.guarded_state,
    ensures
        ({
            let rest = close_outcome(program_id, records, first).1;
            &&& post_guard_outcome(program_id, rest, post) == (
                Err::<Refund, GuardError>(GuardError::RecordNotFound),
                rest,
            )
            &&& close_outcome(program_id, rest, again) == (
                Err::<Refund, GuardError>(GuardError::RecordNotFound),
                rest,
            )
        }),
{
}

} // verus!
