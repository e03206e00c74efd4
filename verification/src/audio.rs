//! The audio extractor: peak amplitude and zero-crossing count of 16-bit
//! PCM samples.
//!
//! As for images, the semantic and exact fields hash the path of the file
//! unless told otherwise; only the meta and structural fields look at the
//! decoded samples.

use crate::codec::exact_of;
use crate::codec::header_of;
use crate::codec::lemma_round_trip;
use crate::codec::meta_of;
use crate::codec::pack;
use crate::codec::semantic_of;
use crate::codec::structural_of;
use crate::codec::Modality;
use crate::codec::ToGen;
use crate::failure::DecodeFailure;
use crate::hashes::exact_hash;
use crate::hashes::exact_hash_of;
use crate::hashes::lemma_exact_hash_range;
use crate::hashes::lemma_rolling_hash_range;
use crate::hashes::rolling_hash;
use crate::hashes::rolling_hash_of;
use crate::hashes::HashSource;
use crate::hashes::SEMANTIC_MULTIPLIER;
use vstd::prelude::*;

verus! {

/// `hound::Error`, the error of a failed decoding. It is never looked into:
/// every such error becomes `DecodeFailure::Audio`.
#[verifier::external_type_specification]
#[verifier::external_body]
pub struct ExWavError(hound::Error);

/// The samples that `hound` reads from `data` as a WAVE stream of 16-bit
/// integers, channels interleaved; `None` where it reads none.
pub uninterp spec fn wav_samples(data: Seq<u8>) -> Option<Seq<i16>>;

/// The amplitude of a sample: its absolute value.
pub open spec fn amplitude(sample: i16) -> nat {
    if sample < 0 {
        (-(sample as int)) as nat
    } else {
        sample as nat
    }
}

/// The greatest amplitude among the samples; zero where there is none.
pub open spec fn peak_amplitude(samples: Seq<i16>) -> nat
    decreases samples.len(),
{
    if samples.len() == 0 {
        0
    } else {
        let rest = peak_amplitude(samples.drop_last());
        let last = amplitude(samples.last());
        if last > rest {
            last
        } else {
            rest
        }
    }
}

/// The greatest amplitude among the samples, held down to 255.
pub open spec fn clamped_peak(samples: Seq<i16>) -> u8 {
    if peak_amplitude(samples) > 255 {
        255u8
    } else {
        peak_amplitude(samples) as u8
    }
}

/// Whether the sign changes from one sample to the next. Zero counts as
/// not negative.
pub open spec fn is_crossing(before: i16, after: i16) -> bool {
    (before < 0) != (after < 0)
}

/// The number of adjacent pairs of samples between which the sign changes.
pub open spec fn zero_crossings(samples: Seq<i16>) -> nat
    decreases samples.len(),
{
    if samples.len() < 2 {
        0
    } else {
        zero_crossings(samples.drop_last()) + (if is_crossing(
            samples[samples.len() - 2],
            samples[samples.len() - 1],
        ) {
            1nat
        } else {
            0nat
        })
    }
}

/// The zero-crossing count as the structural field holds it: modulo 2^32,
/// the width of the field.
pub open spec fn crossing_field(samples: Seq<i16>) -> u32 {
    (zero_crossings(samples) % 0x1_0000_0000) as u32
}

/// The fingerprint of an audio file: `hashed` are the bytes that its hashes
/// read, `samples` its decoded samples.
pub open spec fn audio_fingerprint(hashed: Seq<u8>, samples: Seq<i16>) -> u128 {
    pack(
        Modality::Audio.tag_of() as u128,
        clamped_peak(samples) as u128,
        rolling_hash(hashed, SEMANTIC_MULTIPLIER as nat) as u128,
        crossing_field(samples) as u128,
        exact_hash(hashed) as u128,
    )
}

/// What the audio extractor yields for a file with the given path and
/// bytes: a failure where the bytes decode to no samples, else the
/// fingerprint of the decoded samples, its hashes reading what `source` says.
pub open spec fn audio_extraction(path: Seq<char>, data: Seq<u8>, source: HashSource) -> Result<
    ToGen,
    DecodeFailure,
> {
    match wav_samples(data) {
        None => Err(DecodeFailure::Audio),
        Some(samples) => Ok(ToGen(audio_fingerprint(source.bytes_of(path, data), samples))),
    }
}

/// No sample is louder than the peak, and where there are samples one of
/// them is as loud as the peak.
pub proof fn lemma_peak_amplitude(samples: Seq<i16>)
    ensures
        forall|i: int| 0 <= i < samples.len() ==> amplitude(#[trigger] samples[i]) <= peak_amplitude(samples),
        samples.len() > 0 ==> exists|i: int|
            0 <= i < samples.len() && amplitude(#[trigger] samples[i]) == peak_amplitude(samples),
        peak_amplitude(samples) <= 32768,
    decreases samples.len(),
{
    if samples.len() > 0 {
        let front = samples.drop_last();
        lemma_peak_amplitude(front);
        assert forall|i: int| 0 <= i < samples.len() implies amplitude(#[trigger] samples[i])
            <= peak_amplitude(samples) by {
            if i < front.len() {
                assert(samples[i] == front[i]);
            }
        }
        if amplitude(samples.last()) > peak_amplitude(front) || front.len() == 0 {
            assert(amplitude(samples[samples.len() - 1]) == peak_amplitude(samples));
        } else {
            let i = choose|i: int|
                0 <= i < front.len() && amplitude(#[trigger] front[i]) == peak_amplitude(front);
            assert(samples[i] == front[i]);
        }
    }
}

/// There are fewer zero crossings than samples.
pub proof fn lemma_zero_crossings_bound(samples: Seq<i16>)
    ensures
        zero_crossings(samples) <= samples.len(),
        samples.len() > 0 ==> zero_crossings(samples) < samples.len(),
    decreases samples.len(),
{
    if samples.len() >= 2 {
        lemma_zero_crossings_bound(samples.drop_last());
    }
}

/// The fields of an audio fingerprint: the audio tag, the peak amplitude
/// held down to 255, the rolling hash of the hashed bytes, the zero-crossing
/// count, and the exact-match hash of the hashed bytes.
pub proof fn lemma_audio_fingerprint_fields(hashed: Seq<u8>, samples: Seq<i16>)
    ensures
        header_of(audio_fingerprint(hashed, samples)) == 0x04,
        meta_of(audio_fingerprint(hashed, samples)) == clamped_peak(samples),
        semantic_of(audio_fingerprint(hashed, samples)) == rolling_hash(
            hashed,
            SEMANTIC_MULTIPLIER as nat,
        ),
        structural_of(audio_fingerprint(hashed, samples)) == crossing_field(samples),
        exact_of(audio_fingerprint(hashed, samples)) == exact_hash(hashed),
{
    lemma_rolling_hash_range(hashed, SEMANTIC_MULTIPLIER as nat);
    lemma_exact_hash_range(hashed);
    lemma_round_trip(
        Modality::Audio.tag_of() as u128,
        clamped_peak(samples) as u128,
        rolling_hash(hashed, SEMANTIC_MULTIPLIER as nat) as u128,
        crossing_field(samples) as u128,
        exact_hash(hashed) as u128,
    );
}

/// Every fingerprint that the audio extractor yields carries the audio tag.
pub proof fn lemma_audio_extraction_header(path: Seq<char>, data: Seq<u8>, source: HashSource)
    ensures
        audio_extraction(path, data, source) matches Ok(togen) ==> header_of(togen.0) == 0x04,
{
    if let Some(samples) = wav_samples(data) {
        lemma_audio_fingerprint_fields(source.bytes_of(path, data), samples);
    }
}

/// Reads `data` as a WAVE stream with `hound::WavReader::new` and collects
/// what its `into_samples::<i16>()` iterator yields. The header is parsed by
/// `new`; the iterator yields one `Result` per sample, and the first `Err`
/// among them ends the collection with that error. The outcome depends on
/// `data` alone; it is named `wav_samples`, and nothing is claimed of what
/// it holds. Samples that are floats or wider than 16 bits give `Err`.
#[verifier::external_body]
fn decode_wav(data: &[u8]) -> (decoded: Result<Vec<i16>, hound::Error>)
    ensures
        match decoded {
            Ok(samples) => wav_samples(data@) == Some(samples@),
            Err(_) => wav_samples(data@) is None,
        },
{
    hound::WavReader::new(std::io::Cursor::new(data))?.into_samples::<i16>().collect()
}

fn peak_of(samples: &[i16]) -> (peak: u16)
    ensures
        peak == peak_amplitude(samples@),
{
    let mut peak: u16 = 0;
    let mut i: usize = 0;
    while i < samples.len()
        invariant
            i <= samples.len(),
            peak == peak_amplitude(samples@.take(i as int)),
        decreases samples.len() - i,
    {
        proof {
            assert(samples@.take(i + 1).drop_last() == samples@.take(i as int));
        }
        let wide: i32 = samples[i] as i32;
        let loud: i32 = if wide < 0 {
            -wide
        } else {
            wide
        };
        if loud > peak as i32 {
            peak = loud as u16;
        }
        i = i + 1;
    }
    proof {
        assert(samples@.take(i as int) == samples@);
    }
    peak
}

fn crossings_of(samples: &[i16]) -> (count: usize)
    ensures
        count == zero_crossings(samples@),
{
    let mut count: usize = 0;
    let mut i: usize = 1;
    if samples.len() < 2 {
        return 0;
    }
    while i < samples.len()
        invariant
            1 <= i <= samples.len(),
            count == zero_crossings(samples@.take(i as int)),
            count < i,
        decreases samples.len() - i,
    {
        proof {
            assert(samples@.take(i + 1).drop_last() == samples@.take(i as int));
        }
        if (samples[i - 1] < 0) != (samples[i] < 0) {
            count = count + 1;
        }
        i = i + 1;
    }
    proof {
        assert(samples@.take(i as int) == samples@);
    }
    count
}

impl ToGen {
    /// The two scalars that the audio extractor reads from the samples: the
    /// greatest amplitude, held down to 255, and the number of zero
    /// crossings, counted modulo 2^32.
    pub fn calculate_audio_hash(samples: &[i16]) -> (scalars: (u8, u32))
        ensures
            scalars.0 == clamped_peak(samples@),
            scalars.1 == crossing_field(samples@),
    {
        let peak: u16 = peak_of(samples);
        let meta: u8 = if peak > 255 {
            255
        } else {
            peak as u8
        };
        let count: usize = crossings_of(samples);
        let estructural: u32 = (count as u64 % 0x1_0000_0000) as u32;
        (meta, estructural)
    }

    /// The fingerprint of an audio file from the bytes that its hashes read
    /// and from its decoded samples.
    pub fn from_audio_samples(hashed: &[u8], samples: &[i16]) -> (togen: ToGen)
        ensures
            togen.0 == audio_fingerprint(hashed@, samples@),
            header_of(togen.0) == 0x04,
            meta_of(togen.0) == clamped_peak(samples@),
            semantic_of(togen.0) == rolling_hash(hashed@, SEMANTIC_MULTIPLIER as nat),
            structural_of(togen.0) == crossing_field(samples@),
            exact_of(togen.0) == exact_hash(hashed@),
    {
        let header: u128 = Modality::Audio.tag() as u128;
        let (meta, estructural) = Self::calculate_audio_hash(samples);
        let semantico: u128 = rolling_hash_of(hashed, SEMANTIC_MULTIPLIER) as u128;
        let exacto: u128 = exact_hash_of(hashed) as u128;
        proof {
            lemma_audio_fingerprint_fields(hashed@, samples@);
        }
        ToGen::encode(header, meta as u128, semantico, estructural as u128, exacto)
    }

    /// The fingerprint of an audio file: `path` is the file's path as given
    /// and `data` are the file's bytes, a WAVE stream of 16-bit integer
    /// samples. The meta field is the peak amplitude held down to 255; the
    /// structural field is the zero-crossing count; the semantic and exact
    /// fields hash what `source` says. Fails where the bytes decode to no
    /// such stream.
    pub fn new_audio_hashing(path: &str, data: &[u8], source: HashSource) -> (extracted: Result<
        ToGen,
        DecodeFailure,
    >)
        ensures
            extracted == audio_extraction(path@, data@, source),
            extracted matches Ok(togen) ==> header_of(togen.0) == 0x04,
    {
        match decode_wav(data) {
            Err(_) => Err(DecodeFailure::Audio),
            Ok(samples) => {
                let hashed: &[u8] = source.select(path, data);
                Ok(Self::from_audio_samples(hashed, samples.as_slice()))
            },
        }
    }

    /// The fingerprint of an audio file, its semantic and exact fields
    /// hashing the path: `new_audio_hashing` with `HashSource::Path`.
    pub fn new_audio(path: &str, data: &[u8]) -> (extracted: Result<ToGen, DecodeFailure>)
        ensures
            extracted == audio_extraction(path@, data@, HashSource::Path),
            extracted matches Ok(togen) ==> header_of(togen.0) == 0x04,
    {
        Self::new_audio_hashing(path, data, HashSource::Path)
    }
}

} // verus!
