//! The action extractor: a command string, classed by the input device that
//! it names.

use crate::codec::exact_of;
use crate::codec::header_of;
use crate::codec::lemma_round_trip;
use crate::codec::meta_of;
use crate::codec::pack;
use crate::codec::semantic_of;
use crate::codec::structural_of;
use crate::codec::Modality;
use crate::codec::ToGen;
use crate::hashes::exact_hash;
use crate::hashes::lemma_exact_hash_range;
use crate::hashes::lemma_rolling_hash_range;
use crate::hashes::rolling_hash;
use crate::hashes::SEMANTIC_MULTIPLIER;
use crate::hashes::STRUCTURAL_MULTIPLIER;
use vstd::prelude::*;
use vstd::string::StringSliceAdditionalSpecFns;

verus! {

/// The device class of a keyboard command.
pub const DEVICE_KEYBOARD: u8 = 1;

/// The device class of a pointer command.
pub const DEVICE_POINTER: u8 = 2;

/// The device class of any other command.
pub const DEVICE_OTHER: u8 = 0;

/// Whether `needle` stands in `hay` at offset `at`.
pub open spec fn occurs_at(needle: Seq<u8>, hay: Seq<u8>, at: int) -> bool {
    &&& 0 <= at
    &&& at + needle.len() <= hay.len()
    &&& hay.subrange(at, at + needle.len()) == needle
}

/// Whether `needle` stands somewhere in `hay` as a run of adjacent bytes.
pub open spec fn occurs_in(needle: Seq<u8>, hay: Seq<u8>) -> bool {
    exists|at: int| occurs_at(needle, hay, at)
}

/// The device class of a command with the given bytes: keyboard where it
/// holds `Key`; else pointer where it holds `Click` or `Move`; else other.
pub open spec fn device_class(command: Seq<u8>) -> u8 {
    if occurs_in("Key".spec_bytes(), command) {
        DEVICE_KEYBOARD
    } else if occurs_in("Click".spec_bytes(), command) || occurs_in("Move".spec_bytes(), command) {
        DEVICE_POINTER
    } else {
        DEVICE_OTHER
    }
}

/// The fingerprint of a command with the given UTF-8 bytes.
pub open spec fn action_fingerprint(command: Seq<u8>) -> u128 {
    pack(
        Modality::Action.tag_of() as u128,
        device_class(command) as u128,
        rolling_hash(command, SEMANTIC_MULTIPLIER as nat) as u128,
        rolling_hash(command, STRUCTURAL_MULTIPLIER as nat) as u128,
        exact_hash(command) as u128,
    )
}

/// The fields of an action fingerprint: the action tag, the device class,
/// the two rolling hashes and the exact-match hash. The device class is
/// stored as it is, so it is read back unchanged.
pub proof fn lemma_action_fingerprint_fields(command: Seq<u8>)
    ensures
        header_of(action_fingerprint(command)) == 0x05,
        meta_of(action_fingerprint(command)) == device_class(command),
        semantic_of(action_fingerprint(command)) == rolling_hash(
            command,
            SEMANTIC_MULTIPLIER as nat,
        ),
        structural_of(action_fingerprint(command)) == rolling_hash(
            command,
            STRUCTURAL_MULTIPLIER as nat,
        ),
        exact_of(action_fingerprint(command)) == exact_hash(command),
{
    lemma_rolling_hash_range(command, SEMANTIC_MULTIPLIER as nat);
    lemma_rolling_hash_range(command, STRUCTURAL_MULTIPLIER as nat);
    lemma_exact_hash_range(command);
    lemma_round_trip(
        Modality::Action.tag_of() as u128,
        device_class(command) as u128,
        rolling_hash(command, SEMANTIC_MULTIPLIER as nat) as u128,
        rolling_hash(command, STRUCTURAL_MULTIPLIER as nat) as u128,
        exact_hash(command) as u128,
    );
}

fn matches_at(needle: &[u8], hay: &[u8], at: usize) -> (found: bool)
    requires
        at + needle.len() <= hay.len(),
    ensures
        found == occurs_at(needle@, hay@, at as int),
{
    let mut i: usize = 0;
    while i < needle.len()
        invariant
            i <= needle.len(),
            at + needle.len() <= hay.len(),
            forall|k: int| 0 <= k < i ==> hay@[at + k] == needle@[k],
        decreases needle.len() - i,
    {
        if hay[at + i] != needle[i] {
            proof {
                assert(hay@.subrange(at as int, at + needle.len())[i as int] == hay@[at + i]);
            }
            return false;
        }
        i = i + 1;
    }
    proof {
        assert(hay@.subrange(at as int, at + needle.len()) =~= needle@);
    }
    true
}

/// Whether `needle` stands somewhere in `hay` as a run of adjacent bytes.
/// The empty needle stands in every `hay`.
pub fn contains_bytes(hay: &[u8], needle: &[u8]) -> (found: bool)
    ensures
        found == occurs_in(needle@, hay@),
{
    if needle.len() == 0 {
        proof {
            assert(hay@.subrange(0, 0) =~= needle@);
            assert(occurs_at(needle@, hay@, 0));
        }
        return true;
    }
    if needle.len() > hay.len() {
        return false;
    }
    let last: usize = hay.len() - needle.len();
    let mut at: usize = 0;
    while at <= last
        invariant
            at <= last + 1,
            last == hay.len() - needle.len(),
            1 <= needle.len() <= hay.len(),
            forall|k: int| 0 <= k < at ==> !occurs_at(needle@, hay@, k),
        decreases last + 1 - at,
    {
        if matches_at(needle, hay, at) {
            return true;
        }
        at = at + 1;
    }
    false
}

impl ToGen {
    /// The device class of a command: 1 (keyboard) where it holds `Key`;
    /// else 2 (pointer) where it holds `Click` or `Move`; else 0.
    pub fn calculate_device_class(command: &str) -> (class: u8)
        ensures
            class == device_class(command.spec_bytes()),
            class <= 2,
    {
        let bytes = command.as_bytes();
        if contains_bytes(bytes, "Key".as_bytes()) {
            DEVICE_KEYBOARD
        } else if contains_bytes(bytes, "Click".as_bytes()) || contains_bytes(
            bytes,
            "Move".as_bytes(),
        ) {
            DEVICE_POINTER
        } else {
            DEVICE_OTHER
        }
    }

    /// The fingerprint of an action command.
    pub fn new_action(command: &str) -> (togen: ToGen)
        ensures
            togen.0 == action_fingerprint(command.spec_bytes()),
            header_of(togen.0) == 0x05,
            meta_of(togen.0) == device_class(command.spec_bytes()),
            semantic_of(togen.0) == rolling_hash(command.spec_bytes(), SEMANTIC_MULTIPLIER as nat),
            structural_of(togen.0) == rolling_hash(
                command.spec_bytes(),
                STRUCTURAL_MULTIPLIER as nat,
            ),
            exact_of(togen.0) == exact_hash(command.spec_bytes()),
    {
        let header: u128 = Modality::Action.tag() as u128;
        let meta: u128 = Self::calculate_device_class(command) as u128;
        let semantico: u128 = Self::calculate_simhash(command);
        let estructural: u128 = Self::calculate_metaphone(command);
        let exacto: u128 = Self::calculate_xxh3(command);
        proof {
            lemma_action_fingerprint_fields(command.spec_bytes());
        }
        ToGen::encode(header, meta, semantico, estructural, exacto)
    }
}

} // verus!
