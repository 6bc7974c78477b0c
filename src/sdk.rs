//! Client-side builders of the guard program's instructions.
use vstd::prelude::*;
use crate::address::Address;
use crate::digest::{discriminator, discriminator_of};

verus! {

/// An account an instruction names, and how the instruction uses it.
#[derive(Clone, Copy, Debug, PartialEq, Eq)]
pub struct AccountMeta {
    pub pubkey: Address,
    pub is_signer: bool,
    pub is_writable: bool,
}

/// An instruction to the guard program.
#[derive(Clone, Debug, PartialEq, Eq)]
pub struct Instruction {
    pub program_id: Address,
    pub accounts: Vec<AccountMeta>,
    pub data: Vec<u8>,
}

pub struct PreGuardArgs {
    pub should_guard_lamports: bool,
    pub bump: u8,
}

pub struct PreGuardAccounts {
    pub guarded_account: Address,
    pub guarded_state: Address,
    pub signer: Address,
    pub system_program: Address,
    pub token_account: Address,
}

pub struct PostGuardArgs;

pub struct PostGuardAccounts {
    pub guarded_account: Address,
    pub guarded_state: Address,
    pub signer: Address,
    pub token_account: Address,
}

pub struct CloseGuardedStateArgs;

pub struct CloseGuardedStateAccounts {
    pub guarded_account: Address,
    pub guarded_state: Address,
    pub signer: Address,
    pub token_account: Address,
}

/// The bytes of `global:pre_guard`, the name the snapshot instruction's
/// discriminator is the digest of.
pub open spec fn pre_guard_sighash_name() -> Seq<u8> {
    seq![103u8, 108u8, 111u8, 98u8, 97u8, 108u8, 58u8, 112u8, 114u8, 101u8, 95u8, 103u8, 117u8, 97u8, 114u8, 100u8]
}

/// The data of a snapshot instruction: the first eight bytes of the digest
/// of its name, the flag as one byte, then the bump.
pub open spec fn pre_guard_data(should_guard_lamports: bool, bump: u8) -> Seq<u8> {
    discriminator_of(pre_guard_sighash_name()) + seq![
        if should_guard_lamports {
            1u8
        } else {
            0u8
        },
        bump,
    ]
}

pub open spec fn meta(pubkey: Address, is_signer: bool, is_writable: bool) -> AccountMeta {
    AccountMeta { pubkey, is_signer, is_writable }
}

/// The accounts of a snapshot instruction, in the order the program reads
/// them.
pub open spec fn pre_guard_metas(a: PreGuardAccounts) -> Seq<AccountMeta> {
    seq![
        meta(a.guarded_account, false, false),
        meta(a.guarded_state, false, true),
        meta(a.token_account, false, false),
        meta(a.signer, true, true),
        meta(a.system_program, false, false),
    ]
}

/// The accounts of a verification or a close instruction, in the order the
/// program reads them.
pub open spec fn teardown_metas(
    guarded_account: Address,
    guarded_state: Address,
    signer: Address,
    token_account: Address,
) -> Seq<AccountMeta> {
    seq![
        meta(guarded_account, false, false),
        meta(guarded_state, false, true),
        meta(token_account, false, false),
        meta(signer, true, true),
    ]
}

fn pre_guard_discriminator() -> (r: Vec<u8>)
    ensures
        r@ == discriminator_of(pre_guard_sighash_name()),
{
    let name = vec![103u8, 108u8, 111u8, 98u8, 97u8, 108u8, 58u8, 112u8, 114u8, 101u8, 95u8, 103u8, 117u8, 97u8, 114u8, 100u8];
    assert(name@ =~= pre_guard_sighash_name());
    discriminator(&name)
}

fn teardown_accounts(
    guarded_account: Address,
    guarded_state: Address,
    signer: Address,
    token_account: Address,
) -> (r: Vec<AccountMeta>)
    ensures
        r@ == teardown_metas(guarded_account, guarded_state, signer, token_account),
{
    let r = vec![
        AccountMeta { pubkey: guarded_account, is_signer: false, is_writable: false },
        AccountMeta { pubkey: guarded_state, is_signer: false, is_writable: true },
        AccountMeta { pubkey: token_account, is_signer: false, is_writable: false },
        AccountMeta { pubkey: signer, is_signer: true, is_writable: true },
    ];
    assert(r@ =~= teardown_metas(guarded_account, guarded_state, signer, token_account));
    r
}

/// Builds the snapshot instruction.
pub fn pre_guard_ix(program_id: Address, args: PreGuardArgs, accounts: PreGuardAccounts) -> (r: Instruction)
    ensures
        r.program_id == program_id,
        r.accounts@ == pre_guard_metas(accounts),
        r.data@ == pre_guard_data(args.should_guard_lamports, args.bump),
{
    let PreGuardArgs { should_guard_lamports, bump } = args;
    let mut data = pre_guard_discriminator();
    data.push(if should_guard_lamports { 1u8 } else { 0u8 });
    data.push(bump);
    assert(data@ =~= pre_guard_data(should_guard_lamports, bump));
    let metas = vec![
        AccountMeta { pubkey: accounts.guarded_account, is_signer: false, is_writable: false },
        AccountMeta { pubkey: accounts.guarded_state, is_signer: false, is_writable: true },
        AccountMeta { pubkey: accounts.token_account, is_signer: false, is_writable: false },
        AccountMeta { pubkey: accounts.signer, is_signer: true, is_writable: true },
        AccountMeta { pubkey: accounts.system_program, is_signer: false, is_writable: false },
    ];
    assert(metas@ =~= pre_guard_metas(accounts));
    Instruction { program_id, accounts: metas, data }
}

/// Builds the verification instruction; it carries no data.
pub fn post_guard_ix(program_id: Address, _args: PostGuardArgs, accounts: PostGuardAccounts) -> (r: Instruction)
    ensures
        r.program_id == program_id,
        r.accounts@ == teardown_metas(
            accounts.guarded_account,
            accounts.guarded_state,
            accounts.signer,
            accounts.token_account,
        ),
        r.data@.len() == 0,
{
    let PostGuardAccounts { guarded_account, guarded_state, signer, token_account } = accounts;
    Instruction {
        program_id,
        accounts: teardown_accounts(guarded_account, guarded_state, signer, token_account),
        data: Vec::new(),
    }
}

/// Builds the close instruction; it carries no data.
pub fn close_guarded_state_ix(
    program_id: Address,
    _args: CloseGuardedStateArgs,
    accounts: CloseGuardedStateAccounts,
) -> (r: Instruction)
    ensures
        r.program_id == program_id,
        r.accounts@ == teardown_metas(
            accounts.guarded_account,
            accounts.guarded_state,
            accounts.signer,
            accounts.token_account,
        ),
        r.data@.len() == 0,
{
    let CloseGuardedStateAccounts { guarded_account, guarded_state, signer, token_account } = accounts;
    Instruction {
        program_id,
        accounts: teardown_accounts(guarded_account, guarded_state, signer, token_account),
        data: Vec::new(),
    }
}

} // verus!
