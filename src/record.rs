//! The byte layout of a stored guard record: an eight-byte discriminator,
//! then the optional native balance, the optional token state and the bump,
//! each option as a tag byte followed by its value, integers little-endian.
use vstd::prelude::*;
use vstd::bytes::{
    lemma_auto_spec_u64_to_from_le_bytes, spec_u64_from_le_bytes, spec_u64_to_le_bytes,
    u64_from_le_bytes, u64_to_le_bytes,
};
use crate::address::Address;
use crate::derivation::address_bytes;
use crate::digest::{discriminator, discriminator_of};
use crate::guard::{GuardedState, SplTokenState};

verus! {

/// The space a guard record takes: the discriminator and the longest payload.
pub const GUARDED_STATE_SIZE: usize = 59;

/// The bytes of `account:GuardedState`, the name the discriminator is the
/// digest of.
pub open spec fn account_name() -> Seq<u8> {
    seq![
        97u8, 99u8, 99u8, 111u8, 117u8, 110u8, 116u8, 58u8, 71u8, 117u8,
        97u8, 114u8, 100u8, 101u8, 100u8, 83u8, 116u8, 97u8, 116u8, 101u8,
    ]
}

pub open spec fn record_discriminator() -> Seq<u8> {
    discriminator_of(account_name())
}

pub open spec fn encode_lamports(o: Option<u64>) -> Seq<u8> {
    match o {
        None => seq![0u8],
        Some(v) => seq![1u8] + spec_u64_to_le_bytes(v),
    }
}

pub open spec fn encode_token_state(o: Option<SplTokenState>) -> Seq<u8> {
    match o {
        None => seq![0u8],
        Some(s) => seq![1u8] + s.mint.bytes@ + spec_u64_to_le_bytes(s.pre_balance),
    }
}

/// The bytes of a stored record.
pub open spec fn encode_record(state: GuardedState) -> Seq<u8> {
    record_discriminator() + encode_lamports(state.maybe_pre_lamports) + encode_token_state(
        state.spl_token_state,
    ) + seq![state.bump]
}

/// The address whose bytes are `b`.
pub open spec fn address_from(b: Seq<u8>) -> Address {
    Address { bytes: choose|a: [u8; 32]| #[trigger] a@ == b }
}

/// The optional native balance stored at `i`, and where what follows starts.
pub open spec fn decode_lamports_at(b: Seq<u8>, i: int) -> Option<(Option<u64>, int)> {
    if i >= b.len() {
        None
    } else if b[i] == 0 {
        Some((None, i + 1))
    } else if b[i] == 1 && i + 9 <= b.len() {
        Some((Some(spec_u64_from_le_bytes(b.subrange(i + 1, i + 9))), i + 9))
    } else {
        None
    }
}

/// The optional token state stored at `i`, and where what follows starts.
pub open spec fn decode_token_state_at(b: Seq<u8>, i: int) -> Option<(Option<SplTokenState>, int)> {
    if i >= b.len() {
        None
    } else if b[i] == 0 {
        Some((None, i + 1))
    } else if b[i] == 1 && i + 41 <= b.len() {
        Some(
            (
                Some(
                    SplTokenState {
                        mint: address_from(b.subrange(i + 1, i + 33)),
                        pre_balance: spec_u64_from_le_bytes(b.subrange(i + 33, i + 41)),
                    },
                ),
                i + 41,
            ),
        )
    } else {
        None
    }
}

/// The record that `b` starts with, if it starts with one; bytes after it
/// are ignored.
pub open spec fn decode_record(b: Seq<u8>) -> Option<GuardedState> {
    if b.len() < 8 || b.subrange(0, 8) != record_discriminator() {
        None
    } else {
        match decode_lamports_at(b, 8) {
            None => None,
            Some((maybe_pre_lamports, i)) => match decode_token_state_at(b, i) {
                None => None,
                Some((spl_token_state, j)) => if j < b.len() {
                    Some(GuardedState { maybe_pre_lamports, spl_token_state, bump: b[j] })
                } else {
                    None
                },
            },
        }
    }
}

/// A stored record reads back as the record written, whatever follows it in
/// its slot, and fits the space allocated for it.
pub proof fn lemma_record_round_trip(state: GuardedState, padding: Seq<u8>)
    ensures
        decode_record(encode_record(state) + padding) == Some(state),
        encode_record(state).len() <= GUARDED_STATE_SIZE,
{
    lemma_auto_spec_u64_to_from_le_bytes();
    let disc = record_discriminator();
    let lam = encode_lamports(state.maybe_pre_lamports);
    let tok = encode_token_state(state.spl_token_state);
    let b = encode_record(state) + padding;
    assert(b =~= disc + (lam + (tok + (seq![state.bump] + padding))));
    assert(b.subrange(0, 8) =~= disc);
    let i: int = 8 + lam.len() as int;
    match state.maybe_pre_lamports {
        None => {
            assert(b[8] == 0);
        },
        Some(v) => {
            assert(b[8] == 1);
            assert(b.subrange(9, 17) =~= spec_u64_to_le_bytes(v));
        },
    }
    assert(decode_lamports_at(b, 8) == Some((state.maybe_pre_lamports, i)));
    let j: int = i + tok.len() as int;
    match state.spl_token_state {
        None => {
            assert(b[i] == 0);
        },
        Some(s) => {
            assert(b[i] == 1);
            assert(b.subrange(i + 1, i + 33) =~= s.mint.bytes@);
            assert(b.subrange(i + 33, i + 41) =~= spec_u64_to_le_bytes(s.pre_balance));
            let a = choose|a: [u8; 32]| #[trigger] a@ == s.mint.bytes@;
            assert(exists|a: [u8; 32]| #[trigger] a@ == s.mint.bytes@) by {
                assert(s.mint.bytes@ == s.mint.bytes@);
            }
            assert(a =~= s.mint.bytes);
            assert(address_from(b.subrange(i + 1, i + 33)) == s.mint);
        },
    }
    assert(decode_token_state_at(b, i) == Some((state.spl_token_state, j)));
    assert(b[j] == state.bump);
}

fn account_name_bytes() -> (r: Vec<u8>)
    ensures
        r@ == account_name(),
{
    let r = vec![
        97u8, 99u8, 99u8, 111u8, 117u8, 110u8, 116u8, 58u8, 71u8, 117u8,
        97u8, 114u8, 100u8, 101u8, 100u8, 83u8, 116u8, 97u8, 116u8, 101u8,
    ];
    assert(r@ =~= account_name());
    r
}

/// Writes a record in its stored layout.
pub fn encode_guarded_state(state: &GuardedState) -> (r: Vec<u8>)
    ensures
        r@ == encode_record(*state),
        r@.len() <= GUARDED_STATE_SIZE,
{
    proof {
        lemma_record_round_trip(*state, Seq::empty());
    }
    let mut out = discriminator(&account_name_bytes());
    match state.maybe_pre_lamports {
        None => out.push(0u8),
        Some(v) => {
            out.push(1u8);
            let mut le = u64_to_le_bytes(v);
            out.append(&mut le);
        },
    }
    match state.spl_token_state {
        None => out.push(0u8),
        Some(s) => {
            out.push(1u8);
            let mut mint = address_bytes(&s.mint);
            out.append(&mut mint);
            let mut le = u64_to_le_bytes(s.pre_balance);
            out.append(&mut le);
        },
    }
    out.push(state.bump);
    assert(out@ =~= encode_record(*state));
    out
}

fn copy_range(bytes: &Vec<u8>, start: usize, end: usize) -> (r: Vec<u8>)
    requires
        start <= end <= bytes@.len(),
    ensures
        r@ == bytes@.subrange(start as int, end as int),
{
    let mut r: Vec<u8> = Vec::new();
    let mut i: usize = start;
    while i < end
        invariant
            start <= i <= end,
            end <= bytes@.len(),
            r@ == bytes@.subrange(start as int, i as int),
        decreases end - i,
    {
        r.push(bytes[i]);
        i = i + 1;
    }
    r
}

fn read_address(bytes: &Vec<u8>, start: usize) -> (r: Address)
    requires
        start + 32 <= bytes@.len(),
    ensures
        r == address_from(bytes@.subrange(start as int, start + 32)),
{
    let n = bytes.len();
    let mut a = [0u8; 32];
    let mut k: usize = 0;
    while k < 32
        invariant
            k <= 32,
            start + 32 <= n == bytes@.len(),
            forall|m: int| 0 <= m < k ==> a@[m] == bytes@[start + m],
        decreases 32 - k,
    {
        a[k] = bytes[start + k];
        k = k + 1;
    }
    proof {
        let s = bytes@.subrange(start as int, start + 32);
        assert(a@ =~= s);
        assert(exists|c: [u8; 32]| #[trigger] c@ == s);
        let c = address_from(s).bytes;
        assert(c =~= a);
    }
    Address { bytes: a }
}

fn read_u64(bytes: &Vec<u8>, start: usize) -> (r: u64)
    requires
        start + 8 <= bytes@.len(),
    ensures
        r == spec_u64_from_le_bytes(bytes@.subrange(start as int, start + 8)),
{
    let n = bytes.len();
    let v = copy_range(bytes, start, start + 8);
    u64_from_le_bytes(v.as_slice())
}

/// Reads the record a stored slot starts with; `None` where the slot does
/// not start with the record discriminator and a well-formed record.
pub fn decode_guarded_state(bytes: &Vec<u8>) -> (r: Option<GuardedState>)
    ensures
        r == decode_record(bytes@),
{
    let len = bytes.len();
    if len < 8 {
        return None;
    }
    let disc = discriminator(&account_name_bytes());
    let mut k: usize = 0;
    while k < 8
        invariant
            k <= 8,
            8 <= len == bytes@.len(),
            disc@ == record_discriminator(),
            forall|m: int| 0 <= m < k ==> bytes@[m] == disc@[m],
        decreases 8 - k,
    {
        if bytes[k] != disc[k] {
            assert(bytes@.subrange(0, 8)[k as int] != record_discriminator()[k as int]);
            return None;
        }
        k = k + 1;
    }
    assert(bytes@.subrange(0, 8) =~= record_discriminator());
    if len <= 8 {
        return None;
    }
    let maybe_pre_lamports;
    let i: usize;
    if bytes[8] == 0 {
        maybe_pre_lamports = None;
        i = 9;
    } else if bytes[8] == 1 && len >= 17 {
        maybe_pre_lamports = Some(read_u64(bytes, 9));
        i = 17;
    } else {
        return None;
    }
    if i >= len {
        return None;
    }
    let spl_token_state;
    let j: usize;
    if bytes[i] == 0 {
        spl_token_state = None;
        j = i + 1;
    } else if bytes[i] == 1 && len >= i + 41 {
        spl_token_state = Some(
            SplTokenState { mint: read_address(bytes, i + 1), pre_balance: read_u64(bytes, i + 33) },
        );
        j = i + 41;
    } else {
        return None;
    }
    if j >= len {
        return None;
    }
    Some(GuardedState { maybe_pre_lamports, spl_token_state, bump: bytes[j] })
}

} // verus!
