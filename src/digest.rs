//! SHA-256, as the outside runtime computes it.
use vstd::prelude::*;
use anchor_lang::solana_program::hash::hash;

verus! {

/// The SHA-256 digest that `solana_program::hash::hash` computes of the bytes.
pub uninterp spec fn sha256_digest(data: Seq<u8>) -> [u8; 32];

/// Relies on `solana_program::hash::hash`: the SHA-256 digest of `data`.
#[verifier::external_body]
pub(crate) fn sha256(data: &Vec<u8>) -> (r: [u8; 32])
    ensures
        r == sha256_digest(data@),
{
    hash(data.as_slice()).to_bytes()
}

/// The first eight bytes of the digest of `name`.
pub open spec fn discriminator_of(name: Seq<u8>) -> Seq<u8> {
    sha256_digest(name)@.subrange(0, 8)
}

/// Computes the first eight bytes of the digest of `name`.
pub fn discriminator(name: &Vec<u8>) -> (r: Vec<u8>)
    ensures
        r@ == discriminator_of(name@),
{
    let digest = sha256(name);
    let mut r: Vec<u8> = Vec::new();
    let mut i: usize = 0;
    while i < 8
        invariant
            i <= 8,
            r@ == digest@.subrange(0, i as int),
        decreases 8 - i,
    {
        r.push(digest[i]);
        i = i + 1;
    }
    r
}

} // verus!
