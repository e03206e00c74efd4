//! The three scalar hashes over a byte sequence: two 32-bit polynomial
//! rolling hashes and the upper 48 bits of the 64-bit XXH3 hash.

use vstd::arithmetic::div_mod::lemma_add_mod_noop;
use vstd::arithmetic::div_mod::lemma_mul_mod_noop_left;
use vstd::arithmetic::div_mod::lemma_small_mod;
use vstd::prelude::*;
use vstd::utf8::encode_utf8;

verus! {

/// The multiplier of the rolling hash that fills the semantic field.
pub const SEMANTIC_MULTIPLIER: u32 = 31;

/// The multiplier of the rolling hash that fills the structural field.
pub const STRUCTURAL_MULTIPLIER: u32 = 131;

/// Which bytes of a file its semantic and exact hashes read. The meta and
/// structural fields always look at what the file decodes to.
#[derive(Clone, Copy, Debug, PartialEq, Eq, Structural)]
pub enum HashSource {
    /// The file's path as it was given. This is what the image and audio
    /// extractors hash unless told otherwise, so the two fields then say
    /// nothing of what the file holds.
    Path,
    /// The file's bytes.
    Content,
}

impl HashSource {
    /// The bytes that the hashes read of a file with the given path and
    /// contents.
    pub open spec fn bytes_of(self, path: Seq<char>, data: Seq<u8>) -> Seq<u8> {
        match self {
            HashSource::Path => encode_utf8(path),
            HashSource::Content => data,
        }
    }

    /// The bytes that the hashes read of a file with the given path and
    /// contents.
    pub fn select<'a>(self, path: &'a str, data: &'a [u8]) -> (bytes: &'a [u8])
        ensures
            bytes@ == self.bytes_of(path@, data@),
    {
        match self {
            HashSource::Path => path.as_bytes(),
            HashSource::Content => data,
        }
    }
}

/// The polynomial rolling hash of `bytes`: starting from zero, each byte in
/// turn replaces the accumulator `a` by `a * multiplier + byte`, reduced
/// modulo 2^32.
pub open spec fn rolling_hash(bytes: Seq<u8>, multiplier: nat) -> nat
    decreases bytes.len(),
{
    if bytes.len() == 0 {
        0
    } else {
        (rolling_hash(bytes.drop_last(), multiplier) * multiplier + bytes.last() as nat)
            % 0x1_0000_0000
    }
}

/// The value at `multiplier` of the polynomial whose coefficients are the
/// bytes, the first byte that of the highest power.
pub open spec fn polynomial(bytes: Seq<u8>, multiplier: nat) -> nat
    decreases bytes.len(),
{
    if bytes.len() == 0 {
        0
    } else {
        polynomial(bytes.drop_last(), multiplier) * multiplier + bytes.last() as nat
    }
}

/// The 64-bit XXH3 hash of `bytes`, with the default secret and seed zero.
pub uninterp spec fn xxh3_64(bytes: Seq<u8>) -> u64;

/// The exact-match hash of `bytes`: the upper 48 bits of their XXH3 hash.
pub open spec fn exact_hash(bytes: Seq<u8>) -> u64 {
    xxh3_64(bytes) >> 16
}

/// A rolling hash fits in 32 bits, and that of no bytes is zero.
pub proof fn lemma_rolling_hash_range(bytes: Seq<u8>, multiplier: nat)
    ensures
        rolling_hash(bytes, multiplier) <= 0xFFFF_FFFF,
        bytes.len() == 0 ==> rolling_hash(bytes, multiplier) == 0,
{
}

/// Wrapping at each step loses nothing but the overflow: the rolling hash is
/// the value of the bytes' polynomial, reduced modulo 2^32 once.
pub proof fn lemma_rolling_hash_is_polynomial(bytes: Seq<u8>, multiplier: nat)
    ensures
        rolling_hash(bytes, multiplier) == polynomial(bytes, multiplier) % 0x1_0000_0000,
    decreases bytes.len(),
{
    if bytes.len() > 0 {
        let front = bytes.drop_last();
        let last = bytes.last() as int;
        let exact = polynomial(front, multiplier) as int;
        lemma_rolling_hash_is_polynomial(front, multiplier);
        lemma_mul_mod_noop_left(exact, multiplier as int, 0x1_0000_0000);
        lemma_add_mod_noop(
            (exact % 0x1_0000_0000) * multiplier,
            last,
            0x1_0000_0000,
        );
        lemma_add_mod_noop(exact * multiplier, last, 0x1_0000_0000);
    }
}

/// An exact-match hash fits in 48 bits.
pub proof fn lemma_exact_hash_range(bytes: Seq<u8>)
    ensures
        exact_hash(bytes) <= 0xFFFF_FFFF_FFFF,
{
    let h = xxh3_64(bytes);
    assert(h >> 16 <= 0xFFFF_FFFF_FFFF) by (bit_vector);
}

proof fn lemma_rolling_step(acc: u32, multiplier: u32, byte: u8)
    ensures
        acc.wrapping_mul(multiplier).wrapping_add(byte as u32) == (acc as nat * multiplier as nat
            + byte as nat) % 0x1_0000_0000,
{
    let product = acc as int * multiplier as int;
    assert(0 <= product) by (nonlinear_arith)
        requires
            product == acc as int * multiplier as int,
    ;
    lemma_add_mod_noop(product, byte as int, 0x1_0000_0000);
    lemma_small_mod(byte as nat, 0x1_0000_0000);
    let reduced = product % 0x1_0000_0000;
    if reduced + byte >= 0x1_0000_0000 {
        assert((reduced + byte) % 0x1_0000_0000 == reduced + byte - 0x1_0000_0000);
    } else {
        lemma_small_mod((reduced + byte) as nat, 0x1_0000_0000);
    }
}

/// The rolling hash of `bytes` with the given multiplier.
pub fn rolling_hash_of(bytes: &[u8], multiplier: u32) -> (hash: u32)
    ensures
        hash == rolling_hash(bytes@, multiplier as nat),
{
    let mut hash: u32 = 0;
    let mut i: usize = 0;
    while i < bytes.len()
        invariant
            i <= bytes.len(),
            hash == rolling_hash(bytes@.take(i as int), multiplier as nat),
        decreases bytes.len() - i,
    {
        proof {
            assert(bytes@.take(i + 1).drop_last() == bytes@.take(i as int));
            lemma_rolling_step(hash, multiplier, bytes[i as int]);
        }
        hash = hash.wrapping_mul(multiplier).wrapping_add(bytes[i] as u32);
        i = i + 1;
    }
    proof {
        assert(bytes@.take(i as int) == bytes@);
    }
    hash
}

/// Feeds `bytes` to a fresh `xxhash_rust::xxh3::Xxh3` hasher (`Xxh3::new`,
/// `update`, `digest`) and returns its digest. The hasher starts from the
/// default secret and seed zero and reads nothing but the bytes it is fed, so
/// the digest is the XXH3 hash of `bytes`, named `xxh3_64` here; nothing is
/// claimed of its value.
#[verifier::external_body]
fn xxh3_digest(bytes: &[u8]) -> (digest: u64)
    ensures
        digest == xxh3_64(bytes@),
{
    let mut hasher = xxhash_rust::xxh3::Xxh3::new();
    hasher.update(bytes);
    hasher.digest()
}

/// The exact-match hash of `bytes`.
pub fn exact_hash_of(bytes: &[u8]) -> (hash: u64)
    ensures
        hash == exact_hash(bytes@),
        hash <= 0xFFFF_FFFF_FFFF,
{
    let digest: u64 = xxh3_digest(bytes);
    proof {
        lemma_exact_hash_range(bytes@);
    }
    digest >> 16
}

} // verus!
