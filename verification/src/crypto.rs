//! Seed derivation and the draw primitives.
//!
//! The hash, the base64 encoding, the keyed generator and the stream
//! cipher draw are outside calls; each result is a fixed function of the
//! arguments alone, named here by an uninterpreted spec function so that
//! callers' contracts stay exact and reproducibility is provable.

use vstd::prelude::*;
use vstd::slice::slice_to_vec;
use vstd::utf8::encode_utf8;

use rand::{Rng, RngCore};
use rand_chacha::rand_core::SeedableRng;
use rand_chacha::ChaChaRng;

use crate::bytes::{append_bytes, be_bytes_u64, spec_be_bytes_u64};

verus! {

/// The SHA-256 digest of a byte sequence (32 bytes).
pub uninterp spec fn sha256_of(data: Seq<u8>) -> Seq<u8>;

/// The base64 encoding (standard alphabet, padded) of a string's bytes.
pub uninterp spec fn base64_of(s: Seq<char>) -> Seq<char>;

/// The 32 bytes that the keyed generator emits for a seed and an entropy
/// block.
pub uninterp spec fn prng_bytes_of(seed: Seq<u8>, entropy: Seq<u8>) -> Seq<u8>;

/// The first 32-bit word drawn from the stream cipher seeded by `seed`.
pub uninterp spec fn chacha_u32_of(seed: Seq<u8>) -> u32;

/// The bounded draw in `[1, 100]` taken from the same stream right after
/// its first 32-bit word.
pub uninterp spec fn chacha_speed_of(seed: Seq<u8>) -> u32;

/// Relies on `secret_toolkit::crypto::sha_256`: the SHA-256 digest of the
/// input, a function of the input bytes alone.
#[verifier::external_body]
fn sha256_bytes(data: &[u8]) -> (r: [u8; 32])
    ensures
        r@ == sha256_of(data@),
{
    secret_toolkit::crypto::sha_256(data)
}

/// Relies on `base64::encode`: the standard, padded base64 encoding of the
/// input's bytes, a function of those bytes alone.
#[verifier::external_body]
fn base64_encode(s: &str) -> (r: String)
    ensures
        r@ == base64_of(s@),
{
    base64::encode(s)
}

/// Relies on `secret_toolkit::crypto::ContractPrng`: `new(seed, entropy)`
/// keys a ChaCha20 stream with the SHA-256 of `seed ++ entropy`, and
/// `rand_bytes` returns its next 32 bytes — a function of the two
/// arguments alone.
#[verifier::external_body]
fn prng_rand_bytes(seed: &[u8], entropy: &[u8]) -> (r: [u8; 32])
    ensures
        r@ == prng_bytes_of(seed@, entropy@),
{
    let mut rng = secret_toolkit::crypto::ContractPrng::new(seed, entropy);
    rng.rand_bytes()
}

/// Relies on `rand_chacha::ChaChaRng` (ChaCha20) and `rand::Rng`: seeded
/// by exactly the 32 given bytes, the stream's first 32-bit word is
/// `next_u32`, and `gen_range(1, 101)` then draws from `[1, 101)` using
/// the words that follow. Both are functions of the seed alone.
#[verifier::external_body]
fn chacha_draw(seed: &[u8; 32]) -> (r: (u32, u32))
    ensures
        r.0 == chacha_u32_of(seed@),
        r.1 == chacha_speed_of(seed@),
        1 <= r.1 <= 100,
{
    let mut rng = ChaChaRng::from_seed(*seed);
    let word = rng.next_u32();
    let speed = rng.gen_range(1u32, 101u32);
    (word, speed)
}

/// The persistent secret seed derived at initialization: the SHA-256 of
/// the base64 encoding of the administrator-supplied entropy string.
pub open spec fn spec_prng_seed(entropy: Seq<char>) -> Seq<u8> {
    sha256_of(encode_utf8(base64_of(entropy)))
}

/// Derives the persistent secret seed from the entropy string.
pub fn new_prng_seed(entropy: &str) -> (r: Vec<u8>)
    ensures
        r@ == spec_prng_seed(entropy@),
        r@.len() == 32,
{
    let encoded = base64_encode(entropy);
    let digest = sha256_bytes(encoded.as_str().as_bytes());
    slice_to_vec(digest.as_slice())
}

/// The public context block fed to the keyed generator beside the secret
/// seed: block height and time big-endian, the requester's identity bytes,
/// the secret again, and the per-item sequence index as decimal text.
pub open spec fn spec_entropy_block(
    height: u64,
    time: u64,
    requester: Seq<char>,
    entropy: Seq<u8>,
    index: Seq<u8>,
) -> Seq<u8> {
    spec_be_bytes_u64(height) + spec_be_bytes_u64(time) + encode_utf8(requester) + entropy + index
}

/// The 256-bit seed of one draw, fully determined by the persistent
/// secret and the public context.
pub open spec fn spec_new_entropy(
    height: u64,
    time: u64,
    requester: Seq<char>,
    seed: Seq<u8>,
    entropy: Seq<u8>,
    index: Seq<u8>,
) -> Seq<u8> {
    prng_bytes_of(seed, spec_entropy_block(height, time, requester, entropy, index))
}

/// Derives the 256-bit seed of one draw from the persistent secret `seed`
/// and the public context; `entropy` is fed into the context block a
/// second time (callers pass the secret for both).
pub fn new_entropy(
    height: u64,
    time: u64,
    requester: &str,
    seed: &[u8],
    entropy: &[u8],
    index: &[u8],
) -> (r: [u8; 32])
    ensures
        r@ == spec_new_entropy(height, time, requester@, seed@, entropy@, index@),
{
    let mut block: Vec<u8> = Vec::new();
    let height_bytes = be_bytes_u64(height);
    let time_bytes = be_bytes_u64(time);
    append_bytes(&mut block, height_bytes.as_slice());
    append_bytes(&mut block, time_bytes.as_slice());
    append_bytes(&mut block, requester.as_bytes());
    append_bytes(&mut block, entropy);
    append_bytes(&mut block, index);
    proof {
        assert(block@ =~= spec_entropy_block(height, time, requester@, entropy@, index@));
    }
    prng_rand_bytes(seed, block.as_slice())
}

/// Expands a draw seed into the selected 0-based pool index and the
/// secondary attribute: the stream's first word reduced modulo the
/// remaining count, then the bounded draw that follows it.
pub fn draw_from_seed(seed: &[u8; 32], remaining: usize) -> (r: (usize, u32))
    requires
        0 < remaining <= u16::MAX,
    ensures
        r.0 == chacha_u32_of(seed@) as int % remaining as int,
        r.0 < remaining,
        r.1 == chacha_speed_of(seed@),
        1 <= r.1 <= 100,
{
    let (word, speed) = chacha_draw(seed);
    let idx = (word % (remaining as u32)) as usize;
    (idx, speed)
}

} // verus!
