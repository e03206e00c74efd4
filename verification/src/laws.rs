//! Laws that hold of every extractor.

use crate::action::lemma_action_fingerprint_fields;
use crate::audio::lemma_audio_extraction_header;
use crate::codec::header_of;
use crate::codec::meta_of;
use crate::codec::Modality;
use crate::extract::Source;
use crate::hashes::HashSource;
use crate::picture::lemma_image_extraction_header;
use crate::text::lemma_string_fingerprint_fields;
use vstd::prelude::*;
use vstd::string::StringSliceAdditionalSpecFns;

verus! {

/// Determinism: what an extractor yields depends on nothing but what its
/// input holds. Two inputs of one modality with the same characters and the
/// same bytes have the same outcome, fingerprint or failure, however often
/// and wherever they are extracted.
pub proof fn lemma_same_input_same_outcome(first: Source, second: Source)
    requires
        first.same_input(second),
    ensures
        first.extraction() == second.extraction(),
{
}

/// The header of a fingerprint is the tag of the modality under which it was
/// extracted, whatever the input holds.
pub proof fn lemma_header_is_modality_tag(source: Source)
    ensures
        source.extraction() matches Ok(togen) ==> header_of(togen.0) == source.modality_of().tag_of(),
{
    match source {
        Source::Text(text) => {
            lemma_string_fingerprint_fields(Modality::Text, text.spec_bytes());
        },
        Source::Code(path) => {
            lemma_string_fingerprint_fields(Modality::Code, path.spec_bytes());
        },
        Source::Image { path, data } => {
            lemma_image_extraction_header(path@, data@, HashSource::Path);
        },
        Source::Audio { path, data } => {
            lemma_audio_extraction_header(path@, data@, HashSource::Path);
        },
        Source::Action(command) => {
            lemma_action_fingerprint_fields(command.spec_bytes());
        },
    }
}

/// Field isolation: two inputs of one modality have the same header, though
/// they differ in one byte or in all of them.
pub proof fn lemma_header_ignores_content(first: Source, second: Source)
    requires
        first.modality_of() == second.modality_of(),
    ensures
        match (first.extraction(), second.extraction()) {
            (Ok(a), Ok(b)) => header_of(a.0) == header_of(b.0),
            _ => true,
        },
{
    lemma_header_is_modality_tag(first);
    lemma_header_is_modality_tag(second);
}

/// The meta field of every text and code fingerprint is zero, whatever the
/// input and its length.
pub proof fn lemma_text_and_code_meta_is_zero(source: Source)
    requires
        source is Text || source is Code,
    ensures
        source.extraction() matches Ok(togen) && meta_of(togen.0) == 0,
{
    match source {
        Source::Text(text) => {
            lemma_string_fingerprint_fields(Modality::Text, text.spec_bytes());
        },
        Source::Code(path) => {
            lemma_string_fingerprint_fields(Modality::Code, path.spec_bytes());
        },
        _ => {},
    }
}

} // verus!
