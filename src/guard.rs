//! The guard protocol: a snapshot records the balances of a guarded account,
//! a later verification checks that none of the recorded balances decreased
//! and then destroys the record, and a close destroys the record without any
//! check.
//!
//! One engine serves every kind of guard. A snapshot with
//! `should_guard_lamports` set and no token account guards the native
//! balance only; one with a token account and the flag cleared guards the
//! token balance only; one with both guards both.
use vstd::prelude::*;
use crate::address::Address;
use crate::derivation::{
    canonical_location, check_derivation, derives_location, guarded_state_address,
};

verus! {

/// The token balance captured by a snapshot, with the mint it belongs to.
#[derive(Clone, Copy, Debug, PartialEq, Eq)]
pub struct SplTokenState {
    pub mint: Address,
    pub pre_balance: u64,
}

/// The guard record kept between a snapshot and its verification.
#[derive(Clone, Copy, Debug, PartialEq, Eq)]
pub struct GuardedState {
    /// The native balance at the snapshot; `None` where it is not checked.
    pub maybe_pre_lamports: Option<u64>,
    /// The token balance at the snapshot; `None` where it is not checked.
    pub spl_token_state: Option<SplTokenState>,
    /// The bump seed given at the snapshot; it must re-derive the record's
    /// location before the record can be destroyed.
    pub bump: u8,
}

/// What the guard reads of a token account.
#[derive(Clone, Copy, Debug, PartialEq, Eq)]
pub struct TokenAccount {
    pub mint: Address,
    pub owner: Address,
    pub amount: u64,
}

/// A guard record as stored, with the deposit paid to allocate it.
#[derive(Clone, Copy, Debug, PartialEq, Eq)]
pub struct StoredRecord {
    pub state: GuardedState,
    pub deposit: u64,
}

/// The deposit handed back when a record is destroyed.
#[derive(Clone, Copy, Debug, PartialEq, Eq)]
pub struct Refund {
    pub beneficiary: Address,
    pub lamports: u64,
}

#[derive(Clone, Copy, Debug, PartialEq, Eq, Structural)]
pub enum GuardError {
    /// No record stands at the location presented.
    RecordNotFound,
    /// The record's bump seed does not re-derive its location from the
    /// identities presented.
    CapabilityMismatch,
    /// The token account is not owned by the guarded account.
    OwnershipPrecondition,
    /// No location can be derived for the record.
    AllocationFailed,
    /// The token account presented is of another mint than the one recorded.
    TokenTypeMismatch,
    /// A guarded balance is lower than at the snapshot.
    NegativeBalanceChange { pre: u64, post: u64 },
}

/// The accounts a snapshot reads.
#[derive(Clone, Copy, Debug)]
pub struct PreGuard {
    pub guarded_account: Address,
    /// The native balance of the guarded account.
    pub guarded_lamports: u64,
    /// The token account whose balance is guarded, if any.
    pub token_account: Option<TokenAccount>,
    /// The initiator, who pays for the record.
    pub signer: Address,
    /// The deposit that allocating the record costs.
    pub deposit: u64,
}

/// The accounts a verification reads.
#[derive(Clone, Copy, Debug)]
pub struct PostGuard {
    pub guarded_account: Address,
    pub guarded_lamports: u64,
    /// The location of the record.
    pub guarded_state: Address,
    pub token_account: Option<TokenAccount>,
    /// The initiator, who receives the deposit back.
    pub signer: Address,
}

/// The accounts a close reads.
#[derive(Clone, Copy, Debug)]
pub struct CloseGuardedState {
    pub guarded_account: Address,
    /// The location of the record.
    pub guarded_state: Address,
    /// The initiator, who receives the deposit back whoever runs the close.
    pub signer: Address,
}

/// The record a snapshot writes.
pub open spec fn snapshot_of(ctx: PreGuard, should_guard_lamports: bool, bump: u8) -> GuardedState {
    GuardedState {
        maybe_pre_lamports: if should_guard_lamports {
            Some(ctx.guarded_lamports)
        } else {
            None
        },
        spl_token_state: match ctx.token_account {
            Some(t) => Some(SplTokenState { mint: t.mint, pre_balance: t.amount }),
            None => None,
        },
        bump,
    }
}

/// The mint of a token account, if one is given.
pub open spec fn mint_of(token_account: Option<TokenAccount>) -> Option<Address> {
    match token_account {
        Some(t) => Some(t.mint),
        None => None,
    }
}

/// The mint a record tracks, if any.
pub open spec fn tracked_mint(state: GuardedState) -> Option<Address> {
    match state.spl_token_state {
        Some(s) => Some(s.mint),
        None => None,
    }
}

/// The outcome of a snapshot: the record's location, and the records after it.
pub open spec fn pre_guard_outcome(
    program_id: Address,
    records: Map<Address, StoredRecord>,
    ctx: PreGuard,
    should_guard_lamports: bool,
    bump: u8,
) -> (Result<Address, GuardError>, Map<Address, StoredRecord>) {
    if ctx.token_account matches Some(t) && t.owner != ctx.guarded_account {
        (Err(GuardError::OwnershipPrecondition), records)
    } else {
        match canonical_location(program_id, ctx.guarded_account, ctx.signer, mint_of(ctx.token_account)) {
            None => (Err(GuardError::AllocationFailed), records),
            Some((bytes, _)) => {
                let location = Address { bytes };
                let deposit = if records.contains_key(location) {
                    records[location].deposit
                } else {
                    ctx.deposit
                };
                (
                    Ok(location),
                    records.insert(
                        location,
                        StoredRecord { state: snapshot_of(ctx, should_guard_lamports, bump), deposit },
                    ),
                )
            },
        }
    }
}

/// The token check of a verification: the mint first, then the balance.
pub open spec fn check_token(
    recorded: Option<SplTokenState>,
    token_account: Option<TokenAccount>,
) -> Result<(), GuardError> {
    match recorded {
        None => Ok(()),
        Some(s) => match token_account {
            None => Err(GuardError::TokenTypeMismatch),
            Some(t) => if t.mint != s.mint {
                Err(GuardError::TokenTypeMismatch)
            } else if t.amount < s.pre_balance {
                Err(GuardError::NegativeBalanceChange { pre: s.pre_balance, post: t.amount })
            } else {
                Ok(())
            },
        },
    }
}

/// The balance checks of a verification: the native balance first, where
/// recorded, then the mint and the token balance, where recorded.
pub open spec fn check_balances(
    state: GuardedState,
    lamports: u64,
    token_account: Option<TokenAccount>,
) -> Result<(), GuardError> {
    match state.maybe_pre_lamports {
        Some(pre) => if lamports < pre {
            Err(GuardError::NegativeBalanceChange { pre, post: lamports })
        } else {
            check_token(state.spl_token_state, token_account)
        },
        None => check_token(state.spl_token_state, token_account),
    }
}

/// The result of verifying against a record that is present.
pub open spec fn verify_record(program_id: Address, stored: StoredRecord, ctx: PostGuard) -> Result<Refund, GuardError> {
    if !derives_location(
        program_id,
        ctx.guarded_account,
        ctx.signer,
        tracked_mint(stored.state),
        stored.state.bump,
        ctx.guarded_state,
    ) {
        Err(GuardError::CapabilityMismatch)
    } else {
        match check_balances(stored.state, ctx.guarded_lamports, ctx.token_account) {
            Err(e) => Err(e),
            Ok(_) => Ok(Refund { beneficiary: ctx.signer, lamports: stored.deposit }),
        }
    }
}

/// The outcome of a verification: the refund, and the records after it.
pub open spec fn post_guard_outcome(
    program_id: Address,
    records: Map<Address, StoredRecord>,
    ctx: PostGuard,
) -> (Result<Refund, GuardError>, Map<Address, StoredRecord>) {
    if !records.contains_key(ctx.guarded_state) {
        (Err(GuardError::RecordNotFound), records)
    } else {
        let r = verify_record(program_id, records[ctx.guarded_state], ctx);
        if r is Ok {
            (r, records.remove(ctx.guarded_state))
        } else {
            (r, records)
        }
    }
}

/// The outcome of a close: the refund, and the records after it.
pub open spec fn close_outcome(
    program_id: Address,
    records: Map<Address, StoredRecord>,
    ctx: CloseGuardedState,
) -> (Result<Refund, GuardError>, Map<Address, StoredRecord>) {
    if !records.contains_key(ctx.guarded_state) {
        (Err(GuardError::RecordNotFound), records)
    } else {
        let stored = records[ctx.guarded_state];
        if !derives_location(
            program_id,
            ctx.guarded_account,
            ctx.signer,
            tracked_mint(stored.state),
            stored.state.bump,
            ctx.guarded_state,
        ) {
            (Err(GuardError::CapabilityMismatch), records)
        } else {
            (
                Ok(Refund { beneficiary: ctx.signer, lamports: stored.deposit }),
                records.remove(ctx.guarded_state),
            )
        }
    }
}

/// The guard records of one program, by location.
pub struct GuardStore {
    program_id: Address,
    entries: Vec<(Address, StoredRecord)>,
    records: Ghost<Map<Address, StoredRecord>>,
}

impl View for GuardStore {
    type V = Map<Address, StoredRecord>;

    closed spec fn view(&self) -> Map<Address, StoredRecord> {
        self.records@
    }
}

impl GuardStore {
    /// The program whose records these are.
    pub closed spec fn program(&self) -> Address {
        self.program_id
    }

    /// Each location is held once, and the entries are the records.
    pub closed spec fn wf(&self) -> bool {
        &&& forall|i: int, j: int|
            0 <= i < j < self.entries@.len() ==> self.entries@[i].0 != self.entries@[j].0
        &&& forall|i: int|
            0 <= i < self.entries@.len() ==> #[trigger] self.records@.contains_key(self.entries@[i].0)
                && self.records@[self.entries@[i].0] == self.entries@[i].1
        &&& forall|k: Address|
            #[trigger] self.records@.contains_key(k) ==> exists|i: int|
                0 <= i < self.entries@.len() && self.entries@[i].0 == k
    }

    /// An empty store for the records of `program_id`.
    pub fn new(program_id: Address) -> (r: GuardStore)
        ensures
            r.wf(),
            r.program() == program_id,
            r@ == Map::<Address, StoredRecord>::empty(),
    {
        GuardStore { program_id, entries: Vec::new(), records: Ghost(Map::empty()) }
    }

    pub fn program_id(&self) -> (r: Address)
        ensures
            r == self.program(),
    {
        self.program_id
    }

    /// The number of records.
    pub fn len(&self) -> (r: usize)
        requires
            self.wf(),
        ensures
            r == self@.len(),
    {
        proof {
            self.lemma_dom_len();
        }
        self.entries.len()
    }

    /// The record at `location`, if one stands there.
    pub fn get(&self, location: &Address) -> (r: Option<StoredRecord>)
        requires
            self.wf(),
        ensures
            r is None <==> !self@.contains_key(*location),
            r matches Some(s) ==> s == self@[*location],
    {
        match self.find(location) {
            Some(i) => Some(self.entries[i].1),
            None => None,
        }
    }

    proof fn lemma_dom_len(&self)
        requires
            self.wf(),
        ensures
            self@.dom().finite(),
            self@.len() == self.entries@.len(),
        decreases self.entries@.len(),
    {
        let keys = self.entries@.map_values(|e: (Address, StoredRecord)| e.0);
        assert(keys.no_duplicates()) by {
            assert forall|i: int, j: int| 0 <= i < keys.len() && 0 <= j < keys.len() && i != j implies keys[i]
                != keys[j] by {
                if i < j {
                } else {
                }
            }
        }
        assert(self@.dom() =~= keys.to_set()) by {
            assert forall|k: Address| self@.dom().contains(k) implies keys.to_set().contains(k) by {
                let i = choose|i: int| 0 <= i < self.entries@.len() && self.entries@[i].0 == k;
                assert(keys[i] == k);
            }
            assert forall|k: Address| keys.to_set().contains(k) implies self@.dom().contains(k) by {
                let i = choose|i: int| 0 <= i < keys.len() && keys[i] == k;
                assert(self.records@.contains_key(self.entries@[i].0));
            }
        }
        keys.unique_seq_to_set();
    }

    fn find(&self, location: &Address) -> (r: Option<usize>)
        requires
            self.wf(),
        ensures
            r matches Some(i) ==> i < self.entries@.len() && self.entries@[i as int].0 == *location
                && self@.contains_key(*location) && self@[*location] == self.entries@[i as int].1,
            r is None ==> !self@.contains_key(*location),
    {
        let mut i: usize = 0;
        while i < self.entries.len()
            invariant
                self.wf(),
                i <= self.entries@.len(),
                forall|j: int| 0 <= j < i ==> self.entries@[j].0 != *location,
            decreases self.entries@.len() - i,
        {
            if self.entries[i].0 == *location {
                assert(self.records@.contains_key(self.entries@[i as int].0));
                return Some(i);
            }
            i = i + 1;
        }
        None
    }

    /// Writes `state` at `location`: a new record pays `deposit`, a record
    /// already there is overwritten and keeps the deposit it was paid.
    fn put(&mut self, location: Address, state: GuardedState, deposit: u64)
        requires
            old(self).wf(),
        ensures
            final(self).wf(),
            final(self).program() == old(self).program(),
            final(self)@ == old(self)@.insert(
                location,
                StoredRecord {
                    state,
                    deposit: if old(self)@.contains_key(location) {
                        old(self)@[location].deposit
                    } else {
                        deposit
                    },
                },
            ),
    {
        match self.find(&location) {
            Some(i) => {
                let kept = self.entries[i].1.deposit;
                let record = StoredRecord { state, deposit: kept };
                self.entries.set(i, (location, record));
                self.records = Ghost(self.records@.insert(location, record));
                assert forall|k: Address| #[trigger] self.records@.contains_key(k) implies exists|j: int|
                    0 <= j < self.entries@.len() && self.entries@[j].0 == k by {
                    if k == location {
                        assert(self.entries@[i as int].0 == k);
                    } else {
                        assert(old(self).records@.contains_key(k));
                        let j = choose|j: int| 0 <= j < old(self).entries@.len() && old(self).entries@[j].0 == k;
                        assert(self.entries@[j].0 == k);
                    }
                }
            },
            None => {
                let record = StoredRecord { state, deposit };
                self.entries.push((location, record));
                self.records = Ghost(self.records@.insert(location, record));
                let ghost n: int = self.entries@.len() - 1;
                assert forall|k: Address| #[trigger] self.records@.contains_key(k) implies exists|j: int|
                    0 <= j < self.entries@.len() && self.entries@[j].0 == k by {
                    if k == location {
                        assert(self.entries@[n].0 == k);
                    } else {
                        assert(old(self).records@.contains_key(k));
                        let j = choose|j: int| 0 <= j < old(self).entries@.len() && old(self).entries@[j].0 == k;
                        assert(self.entries@[j].0 == k);
                    }
                }
                assert forall|j: int| 0 <= j < n implies self.entries@[j].0 != location by {
                    assert(old(self).records@.contains_key(old(self).entries@[j].0));
                }
            },
        }
    }

    /// Removes the entry at index `i` and returns its record.
    fn destroy(&mut self, i: usize) -> (r: StoredRecord)
        requires
            old(self).wf(),
            i < old(self).entries@.len(),
        ensures
            final(self).wf(),
            final(self).program() == old(self).program(),
            r == old(self)@[old(self).entries@[i as int].0],
            final(self)@ == old(self)@.remove(old(self).entries@[i as int].0),
    {
        let (location, record) = self.entries.remove(i);
        self.records = Ghost(self.records@.remove(location));
        assert(old(self).records@.contains_key(old(self).entries@[i as int].0));
        assert forall|k: Address| #[trigger] self.records@.contains_key(k) implies exists|j: int|
            0 <= j < self.entries@.len() && self.entries@[j].0 == k by {
            assert(old(self).records@.contains_key(k));
            let j = choose|j: int| 0 <= j < old(self).entries@.len() && old(self).entries@[j].0 == k;
            if j < i {
                assert(self.entries@[j].0 == k);
            } else {
                assert(j != i);
                assert(self.entries@[j - 1].0 == k);
            }
        }
        assert forall|j: int| 0 <= j < self.entries@.len() implies #[trigger] self.records@.contains_key(
            self.entries@[j].0,
        ) && self.records@[self.entries@[j].0] == self.entries@[j].1 by {
            if j < i {
                assert(self.entries@[j] == old(self).entries@[j]);
            } else {
                assert(self.entries@[j] == old(self).entries@[j + 1]);
            }
        }
        record
    }
}

/// Compares the balances read at a verification with a record.
pub fn verify_balances(
    state: &GuardedState,
    lamports: u64,
    token_account: &Option<TokenAccount>,
) -> (r: Result<(), GuardError>)
    ensures
        r == check_balances(*state, lamports, *token_account),
{
    if let Some(pre) = state.maybe_pre_lamports {
        if lamports < pre {
            return Err(GuardError::NegativeBalanceChange { pre, post: lamports });
        }
    }
    match state.spl_token_state {
        None => Ok(()),
        Some(s) => match token_account {
            None => Err(GuardError::TokenTypeMismatch),
            Some(t) => {
                if !(t.mint == s.mint) {
                    Err(GuardError::TokenTypeMismatch)
                } else if t.amount < s.pre_balance {
                    Err(GuardError::NegativeBalanceChange { pre: s.pre_balance, post: t.amount })
                } else {
                    Ok(())
                }
            },
        },
    }
}

/// Snapshot: records the balances of the guarded account at the canonical
/// location of its record, overwriting any record left there, and returns
/// that location.
pub fn pre_guard(
    store: &mut GuardStore,
    ctx: &PreGuard,
    should_guard_lamports: bool,
    bump: u8,
) -> (r: Result<Address, GuardError>)
    requires
        old(store).wf(),
    ensures
        final(store).wf(),
        final(store).program() == old(store).program(),
        (r, final(store)@) == pre_guard_outcome(
            old(store).program(),
            old(store)@,
            *ctx,
            should_guard_lamports,
            bump,
        ),
{
    let mint = match ctx.token_account {
        Some(t) => {
            if !(t.owner == ctx.guarded_account) {
                return Err(GuardError::OwnershipPrecondition);
            }
            Some(t.mint)
        },
        None => None,
    };
    let program_id = store.program_id;
    match guarded_state_address(&program_id, &ctx.guarded_account, &ctx.signer, &mint) {
        None => Err(GuardError::AllocationFailed),
        Some((location, _)) => {
            let state = GuardedState {
                maybe_pre_lamports: if should_guard_lamports {
                    Some(ctx.guarded_lamports)
                } else {
                    None
                },
                spl_token_state: match ctx.token_account {
                    Some(t) => Some(SplTokenState { mint: t.mint, pre_balance: t.amount }),
                    None => None,
                },
                bump,
            };
            store.put(location, state, ctx.deposit);
            Ok(location)
        },
    }
}

/// Checks the record at `location` against the identities presented.
fn check_capability(
    store: &GuardStore,
    state: &GuardedState,
    guarded_account: &Address,
    signer: &Address,
    location: &Address,
) -> (r: bool)
    ensures
        r == derives_location(
            store.program(),
            *guarded_account,
            *signer,
            tracked_mint(*state),
            state.bump,
            *location,
        ),
{
    let mint = match state.spl_token_state {
        Some(s) => Some(s.mint),
        None => None,
    };
    check_derivation(&store.program_id, guarded_account, signer, &mint, state.bump, location)
}

/// Verification: checks that no balance recorded at the snapshot has
/// decreased, then destroys the record and refunds its deposit to the
/// initiator. On failure the record stays.
pub fn post_guard(store: &mut GuardStore, ctx: &PostGuard) -> (r: Result<Refund, GuardError>)
    requires
        old(store).wf(),
    ensures
        final(store).wf(),
        final(store).program() == old(store).program(),
        (r, final(store)@) == post_guard_outcome(old(store).program(), old(store)@, *ctx),
{
    let i = match store.find(&ctx.guarded_state) {
        None => return Err(GuardError::RecordNotFound),
        Some(i) => i,
    };
    let stored = store.entries[i].1;
    if !check_capability(store, &stored.state, &ctx.guarded_account, &ctx.signer, &ctx.guarded_state) {
        return Err(GuardError::CapabilityMismatch);
    }
    match verify_balances(&stored.state, ctx.guarded_lamports, &ctx.token_account) {
        Err(e) => Err(e),
        Ok(()) => {
            let record = store.destroy(i);
            Ok(Refund { beneficiary: ctx.signer, lamports: record.deposit })
        },
    }
}

/// Close: destroys the record whatever it holds and refunds its deposit to
/// the initiator whose identity derives the record's location.
pub fn close_guarded_state(store: &mut GuardStore, ctx: &CloseGuardedState) -> (r: Result<Refund, GuardError>)
    requires
        old(store).wf(),
    ensures
        final(store).wf(),
        final(store).program() == old(store).program(),
        (r, final(store)@) == close_outcome(old(store).program(), old(store)@, *ctx),
{
    let i = match store.find(&ctx.guarded_state) {
        None => return Err(GuardError::RecordNotFound),
        Some(i) => i,
    };
    let stored = store.entries[i].1;
    if !check_capability(store, &stored.state, &ctx.guarded_account, &ctx.signer, &ctx.guarded_state) {
        return Err(GuardError::CapabilityMismatch);
    }
    let record = store.destroy(i);
    Ok(Refund { beneficiary: ctx.signer, lamports: record.deposit })
}

} // verus!
