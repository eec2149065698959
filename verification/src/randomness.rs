//! The DNA that a call draws: a 128-bit hash over the chain's random seed,
//! the caller's account and the index of the call within its block.

use parity_scale_codec::Encode;
use vstd::prelude::*;
use crate::dna::Dna;
use crate::types::{AccountId, BlockNumber, Seed};

verus! {

/// What the chain's source of randomness answers: a seed, and the number of
/// the block since which the seed has been known.
#[derive(Clone, Copy, Debug, PartialEq, Eq)]
pub struct Randomness {
    /// The random seed.
    pub seed: Seed,
    /// The block since which the seed has been known.
    pub block_number: BlockNumber,
}

/// The `width` lowest base-256 digits of `value`, least significant first.
pub open spec fn le_bytes(value: nat, width: nat) -> Seq<u8>
    decreases width,
{
    if width == 0 {
        Seq::empty()
    } else {
        seq![(value % 256) as u8] + le_bytes(value / 256, (width - 1) as nat)
    }
}

/// The bytes that are hashed for one draw: the seed, the block number and
/// the account, each in 8 little-endian bytes but the seed, which stands as
/// it is, and then the call's index: a single 0 where there is none, else a
/// 1 and the index in 4 little-endian bytes.
pub open spec fn payload(
    randomness: Randomness,
    sender: AccountId,
    extrinsic_index: Option<u32>,
) -> Seq<u8> {
    randomness.seed@ + le_bytes(randomness.block_number as nat, 8) + le_bytes(sender as nat, 8)
        + match extrinsic_index {
        None => seq![0u8],
        Some(index) => seq![1u8] + le_bytes(index as nat, 4),
    }
}

/// The BLAKE2b hash of `data` with a digest of 128 bits and no key.
pub uninterp spec fn blake2_128_digest(data: Seq<u8>) -> Seq<u8>;

/// The DNA drawn for `sender` from the given randomness and call index.
pub open spec fn random_dna(
    randomness: Randomness,
    sender: AccountId,
    extrinsic_index: Option<u32>,
) -> Seq<u8> {
    blake2_128_digest(payload(randomness, sender, extrinsic_index))
}

/// Calls `parity_scale_codec::Encode::encode` on the tuple of the seed with
/// its block number, a reference to the account, and the call index.
///
/// Trusted: that the encoding is `payload`. The codec writes a tuple as its
/// members one after the other, an array of bytes as the bytes themselves,
/// an unsigned integer in little-endian order at its full width, a reference
/// as what it refers to, and an `Option` as a byte 0, or a byte 1 followed
/// by the value.
#[verifier::external_body]
fn encode_payload(randomness: &Randomness, sender: AccountId, extrinsic_index: Option<u32>) -> (bytes:
    Vec<u8>)
    ensures
        bytes@ == payload(*randomness, sender, extrinsic_index),
{
    ((randomness.seed, randomness.block_number), &sender, extrinsic_index).encode()
}

/// Calls `sp_io::hashing::blake2_128`.
///
/// Trusted: that the digest depends on the bytes of `data` alone. Nothing is
/// claimed of its value; `blake2_128_digest` is only a name for it.
#[verifier::external_body]
fn blake2_128(data: &[u8]) -> (digest: [u8; 16])
    ensures
        digest@ == blake2_128_digest(data@),
{
    sp_io::hashing::blake2_128(data)
}

/// Draws a DNA for `sender`: the 128-bit BLAKE2b hash of the seed, the
/// seed's block number, the account and the call index.
pub fn random_value(randomness: &Randomness, sender: AccountId, extrinsic_index: Option<u32>) -> (dna:
    Dna)
    ensures
        dna@ == random_dna(*randomness, sender, extrinsic_index),
{
    let bytes = encode_payload(randomness, sender, extrinsic_index);
    blake2_128(bytes.as_slice())
}

} // verus!
