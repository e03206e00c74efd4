//! One entry to the five extractors: an input tagged by its modality.

use crate::action::action_fingerprint;
use crate::audio::audio_extraction;
use crate::codec::header_of;
use crate::codec::Modality;
use crate::codec::ToGen;
use crate::failure::DecodeFailure;
use crate::hashes::HashSource;
use crate::picture::image_extraction;
use crate::text::code_fingerprint;
use crate::text::text_fingerprint;
use vstd::prelude::*;
use vstd::string::StringSliceAdditionalSpecFns;

verus! {

/// An input to fingerprint, tagged by its modality. A file comes with its
/// path as given and, where the extractor reads the file, with its bytes.
#[derive(Clone, Copy, Debug)]
pub enum Source<'a> {
    /// A text.
    Text(&'a str),
    /// The path of a source file.
    Code(&'a str),
    /// The path and the bytes of an image file.
    Image { path: &'a str, data: &'a [u8] },
    /// The path and the bytes of an audio file.
    Audio { path: &'a str, data: &'a [u8] },
    /// An action command.
    Action(&'a str),
}

impl<'a> Source<'a> {
    /// The modality of the input.
    pub open spec fn modality_of(self) -> Modality {
        match self {
            Source::Text(_) => Modality::Text,
            Source::Code(_) => Modality::Code,
            Source::Image { .. } => Modality::Image,
            Source::Audio { .. } => Modality::Audio,
            Source::Action(_) => Modality::Action,
        }
    }

    /// What the extractor of the input's modality yields for it.
    pub open spec fn extraction(self) -> Result<ToGen, DecodeFailure> {
        match self {
            Source::Text(text) => Ok(ToGen(text_fingerprint(text.spec_bytes()))),
            Source::Code(path) => Ok(ToGen(code_fingerprint(path.spec_bytes()))),
            Source::Image { path, data } => image_extraction(path@, data@, HashSource::Path),
            Source::Audio { path, data } => audio_extraction(path@, data@, HashSource::Path),
            Source::Action(command) => Ok(ToGen(action_fingerprint(command.spec_bytes()))),
        }
    }

    /// Whether two inputs are of one modality and hold the same characters
    /// and the same bytes.
    pub open spec fn same_input(self, other: Source) -> bool {
        match (self, other) {
            (Source::Text(a), Source::Text(b)) => a@ == b@,
            (Source::Code(a), Source::Code(b)) => a@ == b@,
            (Source::Image { path: a, data: x }, Source::Image { path: b, data: y }) => a@ == b@
                && x@ == y@,
            (Source::Audio { path: a, data: x }, Source::Audio { path: b, data: y }) => a@ == b@
                && x@ == y@,
            (Source::Action(a), Source::Action(b)) => a@ == b@,
            _ => false,
        }
    }

    /// The modality of the input.
    pub fn modality(&self) -> (modality: Modality)
        ensures
            modality == self.modality_of(),
    {
        match self {
            Source::Text(_) => Modality::Text,
            Source::Code(_) => Modality::Code,
            Source::Image { .. } => Modality::Image,
            Source::Audio { .. } => Modality::Audio,
            Source::Action(_) => Modality::Action,
        }
    }
}

impl ToGen {
    /// The fingerprint of an input, by the extractor of its modality. Text,
    /// code and action inputs always have one; an image or audio input has
    /// one unless its bytes fail to decode.
    pub fn extract(source: &Source) -> (extracted: Result<ToGen, DecodeFailure>)
        ensures
            extracted == source.extraction(),
            extracted matches Ok(togen) ==> header_of(togen.0) == source.modality_of().tag_of(),
            extracted matches Err(failure) ==> (match failure {
                DecodeFailure::Image => source is Image,
                DecodeFailure::Audio => source is Audio,
            }),
    {
        match source {
            Source::Text(text) => Ok(ToGen::new(text)),
            Source::Code(path) => Ok(ToGen::new_code(path)),
            Source::Image { path, data } => ToGen::new_image(path, data),
            Source::Audio { path, data } => ToGen::new_audio(path, data),
            Source::Action(command) => Ok(ToGen::new_action(command)),
        }
    }
}

} // verus!
