use vstd::prelude::*;

verus! {

/// The little-endian bytes of a 64-bit integer.
pub open spec fn le_bytes_u64(x: u64) -> Seq<u8> {
    seq![
        x as u8,
        (x >> 8) as u8,
        (x >> 16) as u8,
        (x >> 24) as u8,
        (x >> 32) as u8,
        (x >> 40) as u8,
        (x >> 48) as u8,
        (x >> 56) as u8,
    ]
}

/// The little-endian bytes of a 32-bit integer.
pub open spec fn le_bytes_u32(x: u32) -> Seq<u8> {
    seq![x as u8, (x >> 8) as u8, (x >> 16) as u8, (x >> 24) as u8]
}

/// An optional 32-bit integer: a tag byte, then the value when there is one.
pub open spec fn option_u32_bytes(x: Option<u32>) -> Seq<u8> {
    match x {
        Some(v) => seq![1u8] + le_bytes_u32(v),
        None => seq![0u8],
    }
}

/// The bytes hashed to derive a command's random value: the host's seed and
/// the block it was drawn for, the acting account, and the index of the
/// command within its block.
pub open spec fn random_payload(seed: Seq<u8>, block: u64, who: u64, index: Option<u32>) -> Seq<
    u8,
> {
    seed + le_bytes_u64(block) + le_bytes_u64(who) + option_u32_bytes(index)
}

/// The 128-bit BLAKE2b digest of some bytes.
pub uninterp spec fn blake2_128_of(data: Seq<u8>) -> Seq<u8>;

/// Relies on parity_scale_codec's `Encode` for `(([u8; 32], u64), u64, Option<u32>)`:
/// a tuple encodes as its fields' encodings in order, a byte array as its bytes,
/// an integer as its little-endian bytes, an option as a tag byte 0 or 1
/// followed by the value.
#[verifier::external_body]
fn encode_payload(seed: &[u8; 32], block: u64, who: u64, index: Option<u32>) -> (r: Vec<u8>)
    ensures
        r@ == random_payload(seed@, block, who, index),
{
    parity_scale_codec::Encode::encode(&((*seed, block), who, index))
}

/// Relies on sp_io::hashing::blake2_128: the 16-byte BLAKE2b digest, which
/// depends on the data alone.
#[verifier::external_body]
fn blake2_128(data: &Vec<u8>) -> (r: [u8; 16])
    ensures
        r@ == blake2_128_of(data@),
{
    sp_io::hashing::blake2_128(data.as_slice())
}

/// The random bytes for one command: the digest of the host's seed, the
/// block, the acting account and the command's index within the block. Two
/// commands of one block differ in their index, so their bytes do not collide
/// by construction.
pub fn random_value(seed: &[u8; 32], block: u64, who: u64, index: Option<u32>) -> (r: [u8; 16])
    ensures
        r@ == blake2_128_of(random_payload(seed@, block, who, index)),
{
    let payload = encode_payload(seed, block, who, index);
    blake2_128(&payload)
}

/// What the host supplies towards a command's random bytes: its random seed,
/// the block the seed was drawn for, and the command's index within that block.
#[derive(Clone, Copy, PartialEq, Eq, Debug)]
pub struct Entropy {
    pub seed: [u8; 32],
    pub block: u64,
    pub extrinsic_index: Option<u32>,
}

impl Entropy {
    /// The random bytes that a command by `who` draws from this entropy.
    pub open spec fn bytes_for(self, who: u64) -> Seq<u8> {
        blake2_128_of(random_payload(self.seed@, self.block, who, self.extrinsic_index))
    }

    /// Draws the random bytes for a command by `who`.
    pub fn value_for(&self, who: u64) -> (r: [u8; 16])
        ensures
            r@ == self.bytes_for(who),
    {
        random_value(&self.seed, self.block, who, self.extrinsic_index)
    }
}

} // verus!
