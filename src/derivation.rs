//! Deterministic derivation of the location of a guard record from the
//! identities that key it.
use vstd::prelude::*;
use anchor_lang::solana_program::pubkey::Pubkey;
use crate::address::Address;

verus! {

/// The location that `Pubkey::create_program_address` derives from `seeds`
/// and a program id, or `None` where it refuses them.
pub uninterp spec fn program_address(seeds: Seq<Seq<u8>>, program_id: [u8; 32]) -> Option<[u8; 32]>;

/// The location and bump seed that `Pubkey::try_find_program_address` finds
/// for `seeds` and a program id, or `None` where it finds none.
pub uninterp spec fn canonical_program_address(seeds: Seq<Seq<u8>>, program_id: [u8; 32]) -> Option<([u8; 32], u8)>;

/// The byte sequences of a list of seeds.
pub open spec fn seeds_view(seeds: Seq<Vec<u8>>) -> Seq<Seq<u8>> {
    seeds.map_values(|s: Vec<u8>| s@)
}

/// Relies on `Pubkey::create_program_address`: a pure function of the seeds
/// and the program id, `Err` mapped to `None`.
#[verifier::external_body]
fn create_program_address(seeds: &Vec<Vec<u8>>, program_id: &Address) -> (r: Option<Address>)
    ensures
        r matches Some(a) ==> program_address(seeds_view(seeds@), program_id.bytes) == Some(a.bytes),
        r is None ==> program_address(seeds_view(seeds@), program_id.bytes) is None,
{
    let refs: Vec<&[u8]> = seeds.iter().map(|s| s.as_slice()).collect();
    match Pubkey::create_program_address(&refs, &Pubkey::new_from_array(program_id.bytes)) {
        Ok(k) => Some(Address { bytes: k.to_bytes() }),
        Err(_) => None,
    }
}

/// Relies on `Pubkey::try_find_program_address`: a pure function of the seeds
/// and the program id; the bump it returns is one with which
/// `create_program_address` gives the same location.
#[verifier::external_body]
fn try_find_program_address(seeds: &Vec<Vec<u8>>, program_id: &Address) -> (r: Option<(Address, u8)>)
    ensures
        r matches Some((a, b)) ==> canonical_program_address(seeds_view(seeds@), program_id.bytes)
            == Some((a.bytes, b)),
        r matches Some((a, b)) ==> program_address(
            seeds_view(seeds@).push(seq![b]),
            program_id.bytes,
        ) == Some(a.bytes),
        r is None ==> canonical_program_address(seeds_view(seeds@), program_id.bytes) is None,
{
    let refs: Vec<&[u8]> = seeds.iter().map(|s| s.as_slice()).collect();
    Pubkey::try_find_program_address(&refs, &Pubkey::new_from_array(program_id.bytes))
        .map(|(k, b)| (Address { bytes: k.to_bytes() }, b))
}

/// The namespace tag that starts the seeds of every guard record.
pub open spec fn seed_tag() -> Seq<u8> {
    seq![71u8, 85u8, 65u8, 82u8, 68u8, 69u8, 68u8, 95u8, 83u8, 84u8, 65u8, 84u8, 69u8]
}

/// The seeds of the record of a guarded account, an initiator and, where a
/// token balance is tracked, its mint.
pub open spec fn guard_seeds(guarded_account: Address, signer: Address, mint: Option<Address>) -> Seq<Seq<u8>> {
    let base = seq![seed_tag(), guarded_account.bytes@, signer.bytes@];
    match mint {
        Some(m) => base.push(m.bytes@),
        None => base,
    }
}

/// The seeds of a record followed by its bump seed.
pub open spec fn guard_seeds_with_bump(
    guarded_account: Address,
    signer: Address,
    mint: Option<Address>,
    bump: u8,
) -> Seq<Seq<u8>> {
    guard_seeds(guarded_account, signer, mint).push(seq![bump])
}

/// Whether `bump` re-derives `location` from the record's identities.
pub open spec fn derives_location(
    program_id: Address,
    guarded_account: Address,
    signer: Address,
    mint: Option<Address>,
    bump: u8,
    location: Address,
) -> bool {
    program_address(guard_seeds_with_bump(guarded_account, signer, mint, bump), program_id.bytes)
        == Some(location.bytes)
}

/// The canonical location and bump of a record, if one exists.
pub open spec fn canonical_location(
    program_id: Address,
    guarded_account: Address,
    signer: Address,
    mint: Option<Address>,
) -> Option<([u8; 32], u8)> {
    canonical_program_address(guard_seeds(guarded_account, signer, mint), program_id.bytes)
}

fn seed_tag_bytes() -> (r: Vec<u8>)
    ensures
        r@ == seed_tag(),
{
    let r = vec![71u8, 85u8, 65u8, 82u8, 68u8, 69u8, 68u8, 95u8, 83u8, 84u8, 65u8, 84u8, 69u8];
    assert(r@ =~= seed_tag());
    r
}

pub(crate) fn address_bytes(a: &Address) -> (r: Vec<u8>)
    ensures
        r@ == a.bytes@,
{
    let mut r: Vec<u8> = Vec::new();
    let mut i: usize = 0;
    while i < 32
        invariant
            i <= 32,
            r@ == a.bytes@.subrange(0, i as int),
        decreases 32 - i,
    {
        r.push(a.bytes[i]);
        i = i + 1;
    }
    assert(r@ =~= a.bytes@);
    r
}

fn build_seeds(guarded_account: &Address, signer: &Address, mint: &Option<Address>) -> (r: Vec<Vec<u8>>)
    ensures
        seeds_view(r@) == guard_seeds(*guarded_account, *signer, *mint),
{
    let mut r: Vec<Vec<u8>> = Vec::new();
    r.push(seed_tag_bytes());
    r.push(address_bytes(guarded_account));
    r.push(address_bytes(signer));
    match mint {
        Some(m) => {
            r.push(address_bytes(m));
        },
        None => {},
    }
    assert(seeds_view(r@) =~= guard_seeds(*guarded_account, *signer, *mint));
    r
}

/// Finds the canonical location of the record keyed by a guarded account,
/// an initiator and an optional mint, with the bump seed that derives it.
pub fn guarded_state_address(
    program_id: &Address,
    guarded_account: &Address,
    signer: &Address,
    mint: &Option<Address>,
) -> (r: Option<(Address, u8)>)
    ensures
        r matches Some((a, b)) ==> canonical_location(*program_id, *guarded_account, *signer, *mint)
            == Some((a.bytes, b)),
        r matches Some((a, b)) ==> derives_location(*program_id, *guarded_account, *signer, *mint, b, a),
        r is None ==> canonical_location(*program_id, *guarded_account, *signer, *mint) is None,
{
    let seeds = build_seeds(guarded_account, signer, mint);
    try_find_program_address(&seeds, program_id)
}

/// Whether `bump` re-derives `location` from the record's identities.
pub fn check_derivation(
    program_id: &Address,
    guarded_account: &Address,
    signer: &Address,
    mint: &Option<Address>,
    bump: u8,
    location: &Address,
) -> (r: bool)
    ensures
        r == derives_location(*program_id, *guarded_account, *signer, *mint, bump, *location),
{
    let mut seeds = build_seeds(guarded_account, signer, mint);
    let bump_seed = vec![bump];
    assert(bump_seed@ =~= seq![bump]);
    seeds.push(bump_seed);
    assert(seeds_view(seeds@) =~= guard_seeds_with_bump(*guarded_account, *signer, *mint, bump));
    match create_program_address(&seeds, program_id) {
        Some(a) => {
            a == *location
        },
        None => false,
    }
}

} // verus!
