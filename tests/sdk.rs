use jito_protecc::address::Address;
use jito_protecc::sdk::{
    close_guarded_state_ix, post_guard_ix, pre_guard_ix, AccountMeta, CloseGuardedStateAccounts,
    CloseGuardedStateArgs, PostGuardAccounts, PostGuardArgs, PreGuardAccounts, PreGuardArgs,
};

fn a(n: u8) -> Address {
    Address::new([n; 32])
}

fn m(n: u8, is_signer: bool, is_writable: bool) -> AccountMeta {
    AccountMeta { pubkey: a(n), is_signer, is_writable }
}

#[test]
fn pre_guard_instruction_layout() {
    let ix = pre_guard_ix(
        a(9),
        PreGuardArgs { should_guard_lamports: true, bump: 254 },
        PreGuardAccounts {
            guarded_account: a(1),
            guarded_state: a(2),
            signer: a(3),
            system_program: a(0),
            token_account: a(4),
        },
    );
    assert_eq!(ix.program_id, a(9));
    assert_eq!(ix.data, vec![222, 172, 111, 44, 17, 40, 192, 164, 1, 254]);
    assert_eq!(ix.accounts, vec![m(1, false, false), m(2, false, true), m(4, false, false), m(3, true, true), m(0, false, false)]);
    let off = pre_guard_ix(
        a(9),
        PreGuardArgs { should_guard_lamports: false, bump: 7 },
        PreGuardAccounts {
            guarded_account: a(1),
            guarded_state: a(2),
            signer: a(3),
            system_program: a(0),
            token_account: a(4),
        },
    );
    assert_eq!(&off.data[8..], &[0, 7]);
}

#[test]
fn post_guard_instruction_layout() {
    let ix = post_guard_ix(
        a(9),
        PostGuardArgs,
        PostGuardAccounts { guarded_account: a(1), guarded_state: a(2), signer: a(3), token_account: a(4) },
    );
    assert!(ix.data.is_empty());
    assert_eq!(ix.accounts, vec![m(1, false, false), m(2, false, true), m(4, false, false), m(3, true, true)]);
}

#[test]
fn close_instruction_layout() {
    let ix = close_guarded_state_ix(
        a(9),
        CloseGuardedStateArgs,
        CloseGuardedStateAccounts { guarded_account: a(1), guarded_state: a(2), signer: a(3), token_account: a(4) },
    );
    assert_eq!(ix.program_id, a(9));
    assert!(ix.data.is_empty());
    assert_eq!(ix.accounts, vec![m(1, false, false), m(2, false, true), m(4, false, false), m(3, true, true)]);
}
