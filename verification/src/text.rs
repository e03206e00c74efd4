//! The text and source-code extractors.
//!
//! Both hash the UTF-8 bytes of a string: the text itself, or the path of a
//! source file as it was given (not the file's contents).
//!
//! The meta scalar of these two modalities is the length class of the string,
//! but it is computed already moved eight bits up, and packing keeps only the
//! low eight bits of what it is handed. The meta field of a text or code
//! fingerprint is therefore always zero. This is kept as it is, so that
//! fingerprints stay comparable with those already stored;
//! `lemma_text_meta_is_zero` states it.

use crate::codec::exact_of;
use crate::codec::header_of;
use crate::codec::lemma_unpack_pack;
use crate::codec::meta_of;
use crate::codec::pack;
use crate::codec::semantic_of;
use crate::codec::structural_of;
use crate::codec::Modality;
use crate::codec::ToGen;
use crate::hashes::exact_hash;
use crate::hashes::exact_hash_of;
use crate::hashes::lemma_exact_hash_range;
use crate::hashes::lemma_rolling_hash_range;
use crate::hashes::rolling_hash;
use crate::hashes::rolling_hash_of;
use crate::hashes::SEMANTIC_MULTIPLIER;
use crate::hashes::STRUCTURAL_MULTIPLIER;
use vstd::arithmetic::power2::lemma2_to64;
use vstd::arithmetic::power2::lemma_pow2_strictly_increases;
use vstd::arithmetic::power2::lemma_pow2_unfold;
use vstd::arithmetic::power2::pow2;
use vstd::prelude::*;
use vstd::string::StringSliceAdditionalSpecFns;

verus! {

/// The length class of a length: the least `k` with `length <= 2^k`.
pub open spec fn length_class(length: nat) -> nat
    decreases length,
{
    if length <= 1 {
        0
    } else {
        1 + length_class((length + 1) / 2)
    }
}

/// Whether `class` is the least exponent whose power of two reaches `length`.
pub open spec fn is_length_class(length: nat, class: nat) -> bool {
    &&& length <= pow2(class)
    &&& class > 0 ==> pow2((class - 1) as nat) < length
}

/// The meta scalar of a string of the given length as the text and code
/// extractors compute it: its length class, moved eight bits up.
pub open spec fn raw_length_meta(length: nat) -> u128 {
    (length_class(length) as u128) << 8
}

/// The fingerprint of a string under a modality that hashes the string's
/// bytes for all three hashes and takes the length class for its meta scalar.
pub open spec fn string_fingerprint(modality: Modality, bytes: Seq<u8>) -> u128 {
    pack(
        modality.tag_of() as u128,
        raw_length_meta(bytes.len()),
        rolling_hash(bytes, SEMANTIC_MULTIPLIER as nat) as u128,
        rolling_hash(bytes, STRUCTURAL_MULTIPLIER as nat) as u128,
        exact_hash(bytes) as u128,
    )
}

/// The fingerprint of a text with the given UTF-8 bytes.
pub open spec fn text_fingerprint(bytes: Seq<u8>) -> u128 {
    string_fingerprint(Modality::Text, bytes)
}

/// The fingerprint of a source file whose path has the given UTF-8 bytes.
pub open spec fn code_fingerprint(path_bytes: Seq<u8>) -> u128 {
    string_fingerprint(Modality::Code, path_bytes)
}

/// `length_class(length)` is the least exponent whose power of two reaches
/// `length`.
pub proof fn lemma_length_class(length: nat)
    ensures
        is_length_class(length, length_class(length)),
    decreases length,
{
    lemma2_to64();
    if length > 1 {
        let half = (length + 1) / 2;
        let class = length_class(half);
        lemma_length_class(half);
        lemma_pow2_unfold(class + 1);
        if class > 0 {
            lemma_pow2_unfold(class);
        }
    }
}

/// No other exponent is the least one whose power of two reaches `length`.
pub proof fn lemma_length_class_unique(length: nat, class: nat)
    requires
        is_length_class(length, class),
    ensures
        class == length_class(length),
{
    let other = length_class(length);
    lemma_length_class(length);
    if class < other {
        if class < other - 1 {
            lemma_pow2_strictly_increases(class, (other - 1) as nat);
        }
    } else if other < class {
        if other < class - 1 {
            lemma_pow2_strictly_increases(other, (class - 1) as nat);
        }
    }
}

proof fn lemma_shifted_meta_is_cut(class: u128)
    by (bit_vector)
    ensures
        (class << 8) & 0xFF == 0,
{
}

/// The fields of a text or code fingerprint: the modality's tag, a meta
/// field of zero, the two rolling hashes and the exact-match hash.
pub proof fn lemma_string_fingerprint_fields(modality: Modality, bytes: Seq<u8>)
    ensures
        header_of(string_fingerprint(modality, bytes)) == modality.tag_of(),
        meta_of(string_fingerprint(modality, bytes)) == 0,
        semantic_of(string_fingerprint(modality, bytes)) == rolling_hash(
            bytes,
            SEMANTIC_MULTIPLIER as nat,
        ),
        structural_of(string_fingerprint(modality, bytes)) == rolling_hash(
            bytes,
            STRUCTURAL_MULTIPLIER as nat,
        ),
        exact_of(string_fingerprint(modality, bytes)) == exact_hash(bytes),
{
    let header = modality.tag_of() as u128;
    let meta = raw_length_meta(bytes.len());
    let semantic = rolling_hash(bytes, SEMANTIC_MULTIPLIER as nat) as u128;
    let structural = rolling_hash(bytes, STRUCTURAL_MULTIPLIER as nat) as u128;
    let exact = exact_hash(bytes) as u128;
    lemma_rolling_hash_range(bytes, SEMANTIC_MULTIPLIER as nat);
    lemma_rolling_hash_range(bytes, STRUCTURAL_MULTIPLIER as nat);
    lemma_exact_hash_range(bytes);
    lemma_unpack_pack(header, meta, semantic, structural, exact);
    lemma_shifted_meta_is_cut(length_class(bytes.len()) as u128);
    assert(header & 0xFF == header) by (bit_vector)
        requires
            header <= 0xFF,
    ;
    assert(semantic & 0xFFFF_FFFF == semantic) by (bit_vector)
        requires
            semantic <= 0xFFFF_FFFF,
    ;
    assert(structural & 0xFFFF_FFFF == structural) by (bit_vector)
        requires
            structural <= 0xFFFF_FFFF,
    ;
    assert(exact & 0xFFFF_FFFF_FFFF == exact) by (bit_vector)
        requires
            exact <= 0xFFFF_FFFF_FFFF,
    ;
}

/// The meta field of every text fingerprint and of every code fingerprint is
/// zero, whatever the string and its length.
pub proof fn lemma_text_meta_is_zero(bytes: Seq<u8>)
    ensures
        meta_of(text_fingerprint(bytes)) == 0,
        meta_of(code_fingerprint(bytes)) == 0,
{
    lemma_string_fingerprint_fields(Modality::Text, bytes);
    lemma_string_fingerprint_fields(Modality::Code, bytes);
}

impl ToGen {
    /// The length class of a string: the least `k` such that the string has
    /// at most `2^k` bytes. It is 0 for the empty string and for one byte.
    pub fn calculate_length_class(input: &str) -> (class: u8)
        ensures
            class == length_class(input.spec_bytes().len()),
            class <= 64,
    {
        let length: u128 = input.as_bytes().len() as u128;
        let mut class: u8 = 0;
        let mut power: u128 = 1;
        proof {
            lemma2_to64();
        }
        while power < length
            invariant
                length <= usize::MAX,
                class <= 64,
                power >= 1,
                power == pow2(class as nat),
                class > 0 ==> pow2((class - 1) as nat) < length,
            decreases 64 - class,
        {
            proof {
                lemma2_to64();
                lemma_pow2_unfold((class + 1) as nat);
            }
            power = power * 2;
            class = class + 1;
        }
        proof {
            lemma_length_class_unique(length as nat, class as nat);
        }
        class
    }

    /// The meta scalar of a string as the text and code extractors compute
    /// it: the string's length class moved eight bits up, so that its low
    /// eight bits, which are all that packing keeps, are zero.
    pub fn calculate_meta(input: &str) -> (meta: u128)
        ensures
            meta == raw_length_meta(input.spec_bytes().len()),
            meta & 0xFF == 0,
    {
        let class: u8 = Self::calculate_length_class(input);
        proof {
            lemma_shifted_meta_is_cut(class as u128);
        }
        (class as u128) << 8
    }

    /// The semantic similarity hash of a string: the rolling hash of its
    /// bytes with multiplier 31.
    pub fn calculate_simhash(input: &str) -> (hash: u128)
        ensures
            hash == rolling_hash(input.spec_bytes(), SEMANTIC_MULTIPLIER as nat),
            hash <= 0xFFFF_FFFF,
    {
        rolling_hash_of(input.as_bytes(), SEMANTIC_MULTIPLIER) as u128
    }

    /// The structural similarity hash of a string: the rolling hash of its
    /// bytes with multiplier 131. It is a plain polynomial hash; no phonetic
    /// rule enters it.
    pub fn calculate_metaphone(input: &str) -> (hash: u128)
        ensures
            hash == rolling_hash(input.spec_bytes(), STRUCTURAL_MULTIPLIER as nat),
            hash <= 0xFFFF_FFFF,
    {
        rolling_hash_of(input.as_bytes(), STRUCTURAL_MULTIPLIER) as u128
    }

    /// The exact-match hash of a string: the upper 48 bits of the XXH3 hash
    /// of its bytes.
    pub fn calculate_xxh3(input: &str) -> (hash: u128)
        ensures
            hash == exact_hash(input.spec_bytes()),
            hash <= 0xFFFF_FFFF_FFFF,
    {
        exact_hash_of(input.as_bytes()) as u128
    }

    fn from_string(modality: Modality, input: &str) -> (togen: ToGen)
        ensures
            togen.0 == string_fingerprint(modality, input.spec_bytes()),
            header_of(togen.0) == modality.tag_of(),
            meta_of(togen.0) == 0,
            semantic_of(togen.0) == rolling_hash(input.spec_bytes(), SEMANTIC_MULTIPLIER as nat),
            structural_of(togen.0) == rolling_hash(input.spec_bytes(), STRUCTURAL_MULTIPLIER as nat),
            exact_of(togen.0) == exact_hash(input.spec_bytes()),
    {
        let header: u128 = modality.tag() as u128;
        let meta: u128 = Self::calculate_meta(input);
        let semantico: u128 = Self::calculate_simhash(input);
        let estructural: u128 = Self::calculate_metaphone(input);
        let exacto: u128 = Self::calculate_xxh3(input);
        proof {
            lemma_string_fingerprint_fields(modality, input.spec_bytes());
        }
        ToGen::encode(header, meta, semantico, estructural, exacto)
    }

    /// The fingerprint of a text.
    pub fn new(input: &str) -> (togen: ToGen)
        ensures
            togen.0 == text_fingerprint(input.spec_bytes()),
            header_of(togen.0) == 0x01,
            meta_of(togen.0) == 0,
            semantic_of(togen.0) == rolling_hash(input.spec_bytes(), SEMANTIC_MULTIPLIER as nat),
            structural_of(togen.0) == rolling_hash(input.spec_bytes(), STRUCTURAL_MULTIPLIER as nat),
            exact_of(togen.0) == exact_hash(input.spec_bytes()),
    {
        Self::from_string(Modality::Text, input)
    }

    /// The fingerprint of a source file, derived from its path as given; the
    /// file is not read.
    pub fn new_code(path: &str) -> (togen: ToGen)
        ensures
            togen.0 == code_fingerprint(path.spec_bytes()),
            header_of(togen.0) == 0x02,
            meta_of(togen.0) == 0,
            semantic_of(togen.0) == rolling_hash(path.spec_bytes(), SEMANTIC_MULTIPLIER as nat),
            structural_of(togen.0) == rolling_hash(path.spec_bytes(), STRUCTURAL_MULTIPLIER as nat),
            exact_of(togen.0) == exact_hash(path.spec_bytes()),
    {
        Self::from_string(Modality::Code, path)
    }
}

} // verus!
