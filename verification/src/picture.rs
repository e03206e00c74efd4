//! The image extractor: mean luminance and a 32-bit average hash.
//!
//! Unless told otherwise, the semantic and exact fields of an image
//! fingerprint hash the path of the file, not what it holds; only the meta
//! and structural fields look at the decoded image. `HashSource` makes the
//! choice explicit.

use crate::codec::exact_of;
use crate::codec::header_of;
use crate::codec::lemma_round_trip;
use crate::codec::meta_of;
use crate::codec::pack;
use crate::codec::semantic_of;
use crate::codec::structural_of;
use crate::codec::Modality;
use crate::codec::ToGen;
use crate::failure::DecodeFailure;
use crate::hashes::exact_hash;
use crate::hashes::exact_hash_of;
use crate::hashes::lemma_exact_hash_range;
use crate::hashes::lemma_rolling_hash_range;
use crate::hashes::rolling_hash;
use crate::hashes::rolling_hash_of;
use crate::hashes::HashSource;
use crate::hashes::SEMANTIC_MULTIPLIER;
use vstd::prelude::*;

verus! {

/// The width of the grid that an image is sampled to for its hash.
pub const GRID_WIDTH: u32 = 8;

/// The height of the grid that an image is sampled to for its hash.
pub const GRID_HEIGHT: u32 = 4;

/// The number of samples in the grid, one for each bit of the hash.
pub const GRID_SAMPLES: usize = 32;

/// `image::DynamicImage`, a decoded image. It is carried from one call into
/// the `image` crate to the next and never looked into.
#[verifier::external_type_specification]
#[verifier::external_body]
pub struct ExDynamicImage(image::DynamicImage);

/// `image::ImageError`, the error of a failed decoding. It is never looked
/// into: every such error becomes `DecodeFailure::Image`.
#[verifier::external_type_specification]
#[verifier::external_body]
pub struct ExImageError(image::ImageError);

/// The image that the `image` crate decodes from `data` in the format that
/// the extension of `path` names; `None` where it decodes none.
pub uninterp spec fn decoded_image(path: Seq<char>, data: Seq<u8>) -> Option<image::DynamicImage>;

/// The pixels of an image as 8-bit luminance, row by row.
pub uninterp spec fn luma_pixels(picture: image::DynamicImage) -> Seq<u8>;

/// The image sampled with the nearest-neighbour filter to `width` by
/// `height` pixels, whatever its own aspect ratio.
pub uninterp spec fn resized_nearest(picture: image::DynamicImage, width: u32, height: u32) -> image::DynamicImage;

/// The sum of the samples.
pub open spec fn sample_sum(samples: Seq<u8>) -> nat
    decreases samples.len(),
{
    if samples.len() == 0 {
        0
    } else {
        sample_sum(samples.drop_last()) + samples.last() as nat
    }
}

/// The mean of the samples, rounded down. Meaningful for a non-empty
/// sequence only.
pub open spec fn sample_mean(samples: Seq<u8>) -> nat
    recommends
        samples.len() > 0,
{
    sample_sum(samples) / samples.len()
}

/// The average hash over the first `n` samples: starting from zero, bit
/// `31 - i` is set for each `i < n` whose sample lies above the mean of all
/// the samples.
pub open spec fn average_hash_prefix(samples: Seq<u8>, n: nat) -> u32
    recommends
        n <= 32,
    decreases n,
{
    if n == 0 {
        0u32
    } else {
        let rest = average_hash_prefix(samples, (n - 1) as nat);
        if n <= samples.len() && samples[n - 1] as nat > sample_mean(samples) {
            rest | (1u32 << ((32 - n) as u32))
        } else {
            rest
        }
    }
}

/// The 32-bit average hash of the samples: of the first 32 samples, those
/// above the mean of all samples set their bit, the first sample the highest.
pub open spec fn average_hash_of(samples: Seq<u8>) -> u32 {
    average_hash_prefix(samples, 32)
}

/// The sum of the samples is at most 255 times their number.
pub proof fn lemma_sample_sum_bound(samples: Seq<u8>)
    ensures
        sample_sum(samples) <= 255 * samples.len(),
    decreases samples.len(),
{
    if samples.len() > 0 {
        lemma_sample_sum_bound(samples.drop_last());
    }
}

/// The mean of a non-empty sequence of samples is itself a sample value.
pub proof fn lemma_sample_mean_bound(samples: Seq<u8>)
    requires
        samples.len() > 0,
    ensures
        sample_mean(samples) <= 255,
{
    lemma_sample_sum_bound(samples);
    let total = sample_sum(samples);
    let n = samples.len();
    assert(total / n <= 255) by (nonlinear_arith)
        requires
            total <= 255 * n,
            n > 0,
    ;
}

proof fn lemma_set_bit(x: u32, k: u32, m: u32)
    by (bit_vector)
    requires
        k < 32,
        m < 32,
    ensures
        ((x | (1u32 << k)) >> m) & 1 == (if m == k {
            1u32
        } else {
            (x >> m) & 1
        }),
        (0u32 >> m) & 1 == 0,
{
}

/// Bit `31 - i` of the hash over the first `n` samples is set exactly when
/// `i < n`, sample `i` exists and lies above the mean.
pub proof fn lemma_average_hash_prefix_bit(samples: Seq<u8>, n: nat, i: nat)
    requires
        n <= 32,
        i < 32,
    ensures
        ((average_hash_prefix(samples, n) >> ((31 - i) as u32)) & 1 == 1) <==> (i < n && i
            < samples.len() && samples[i as int] as nat > sample_mean(samples)),
    decreases n,
{
    let m = (31 - i) as u32;
    if n == 0 {
        lemma_set_bit(0, 0, m);
    } else {
        let rest = average_hash_prefix(samples, (n - 1) as nat);
        lemma_average_hash_prefix_bit(samples, (n - 1) as nat, i);
        let k = (32 - n) as u32;
        lemma_set_bit(rest, k, m);
    }
}

/// Each of the 32 bits of the average hash says whether its sample exists
/// and lies above the mean: bit `31 - i` speaks for sample `i`.
pub proof fn lemma_average_hash_bit(samples: Seq<u8>, i: nat)
    requires
        i < 32,
    ensures
        ((average_hash_of(samples) >> ((31 - i) as u32)) & 1 == 1) <==> (i < samples.len()
            && samples[i as int] as nat > sample_mean(samples)),
{
    lemma_average_hash_prefix_bit(samples, 32, i);
}

/// Samples past the end contribute nothing to the hash.
proof fn lemma_average_hash_prefix_past_end(samples: Seq<u8>, n: nat)
    requires
        samples.len() <= n,
    ensures
        average_hash_prefix(samples, n) == average_hash_prefix(samples, samples.len()),
    decreases n,
{
    if n > samples.len() {
        lemma_average_hash_prefix_past_end(samples, (n - 1) as nat);
    }
}

fn sum_samples(samples: &[u8]) -> (total: u128)
    ensures
        total == sample_sum(samples@),
{
    let mut total: u128 = 0;
    let mut i: usize = 0;
    while i < samples.len()
        invariant
            i <= samples.len(),
            total == sample_sum(samples@.take(i as int)),
            total <= 255 * i,
        decreases samples.len() - i,
    {
        proof {
            assert(samples@.take(i + 1).drop_last() == samples@.take(i as int));
        }
        total = total + samples[i] as u128;
        i = i + 1;
    }
    proof {
        assert(samples@.take(i as int) == samples@);
    }
    total
}

/// The mean luminance of the pixels, rounded down.
pub fn mean_luminance(pixels: &[u8]) -> (mean: u8)
    requires
        pixels.len() > 0,
    ensures
        mean == sample_mean(pixels@),
{
    let total: u128 = sum_samples(pixels);
    proof {
        lemma_sample_mean_bound(pixels@);
    }
    (total / (pixels.len() as u128)) as u8
}

/// The 32-bit average hash of the samples.
pub fn average_hash(samples: &[u8]) -> (hash: u32)
    requires
        samples.len() > 0,
    ensures
        hash == average_hash_of(samples@),
{
    let mean: u8 = mean_luminance(samples);
    let mut hash: u32 = 0;
    let mut i: usize = 0;
    while i < 32 && i < samples.len()
        invariant
            i <= 32,
            i <= samples.len(),
            mean == sample_mean(samples@),
            hash == average_hash_prefix(samples@, i as nat),
        decreases 32 - i,
    {
        if samples[i] > mean {
            let shift: u32 = 31 - i as u32;
            hash = hash | (1u32 << shift);
        }
        i = i + 1;
    }
    proof {
        if i < 32 {
            lemma_average_hash_prefix_past_end(samples@, 32);
        }
    }
    hash
}

/// Decodes `data` with `image::ImageReader::with_format(..).decode()`, in
/// the format that `image::ImageFormat::from_path` reads from the extension
/// of `path`. The reader is given the format itself, so no decoder registered
/// at run time is consulted, and the default limits apply. The outcome
/// depends on `path` and `data` alone; it is named `decoded_image`, and
/// nothing is claimed of what it holds. An unknown extension, a format that
/// the crate was built without, or bytes that do not decode give `Err`.
#[verifier::external_body]
fn decode_image(path: &str, data: &[u8]) -> (decoded: Result<image::DynamicImage, image::ImageError>)
    ensures
        match decoded {
            Ok(picture) => decoded_image(path@, data@) == Some(picture),
            Err(_) => decoded_image(path@, data@) is None,
        },
{
    let format = image::ImageFormat::from_path(path)?;
    image::ImageReader::with_format(std::io::Cursor::new(data), format).decode()
}

/// Calls `image::DynamicImage::to_luma8` and hands out the buffer of the
/// grey image that it returns (`into_raw`): one byte per pixel, row by row.
/// These bytes are named `luma_pixels`; nothing is claimed of their values
/// or their number.
#[verifier::external_body]
fn luma8(picture: &image::DynamicImage) -> (pixels: Vec<u8>)
    ensures
        pixels@ == luma_pixels(*picture),
{
    picture.to_luma8().into_raw()
}

/// Calls `image::DynamicImage::resize_exact` with the nearest-neighbour
/// filter, which returns a new image of the size asked for and does not keep
/// the aspect ratio. The result is named `resized_nearest`; nothing is claimed
/// of its size or its pixels. The bounds on the size keep the buffers that the
/// call allocates far from the length at which `ImageBuffer::new` panics.
#[verifier::external_body]
fn resize_nearest(picture: &image::DynamicImage, width: u32, height: u32) -> (small: image::DynamicImage)
    requires
        1 <= width <= 1024,
        1 <= height <= 1024,
    ensures
        small == resized_nearest(*picture, width, height),
{
    picture.resize_exact(width, height, image::imageops::FilterType::Nearest)
}

/// The fingerprint of an image file: `hashed` are the bytes that its hashes
/// read, `luma` is the luminance of its pixels, `small` the luminance of the
/// pixels of the image sampled to the grid.
pub open spec fn image_fingerprint(hashed: Seq<u8>, luma: Seq<u8>, small: Seq<u8>) -> u128 {
    pack(
        Modality::Image.tag_of() as u128,
        sample_mean(luma) as u128,
        rolling_hash(hashed, SEMANTIC_MULTIPLIER as nat) as u128,
        average_hash_of(small) as u128,
        exact_hash(hashed) as u128,
    )
}

/// What the image extractor yields for a file with the given path and
/// bytes: a failure where the bytes decode to no image, to an image without
/// pixels, or to one whose grid does not come out with its 32 samples; else
/// the fingerprint of the decoded image, its hashes reading what `source`
/// says.
pub open spec fn image_extraction(path: Seq<char>, data: Seq<u8>, source: HashSource) -> Result<
    ToGen,
    DecodeFailure,
> {
    match decoded_image(path, data) {
        None => Err(DecodeFailure::Image),
        Some(picture) => {
            let luma = luma_pixels(picture);
            let small = luma_pixels(resized_nearest(picture, GRID_WIDTH, GRID_HEIGHT));
            if luma.len() == 0 || small.len() != GRID_SAMPLES {
                Err(DecodeFailure::Image)
            } else {
                Ok(ToGen(image_fingerprint(source.bytes_of(path, data), luma, small)))
            }
        },
    }
}

/// The fields of an image fingerprint: the image tag, the mean luminance,
/// the rolling hash of the hashed bytes, the average hash of the grid, and
/// the exact-match hash of the hashed bytes.
pub proof fn lemma_image_fingerprint_fields(hashed: Seq<u8>, luma: Seq<u8>, small: Seq<u8>)
    requires
        luma.len() > 0,
    ensures
        header_of(image_fingerprint(hashed, luma, small)) == 0x03,
        meta_of(image_fingerprint(hashed, luma, small)) == sample_mean(luma),
        semantic_of(image_fingerprint(hashed, luma, small)) == rolling_hash(
            hashed,
            SEMANTIC_MULTIPLIER as nat,
        ),
        structural_of(image_fingerprint(hashed, luma, small)) == average_hash_of(small),
        exact_of(image_fingerprint(hashed, luma, small)) == exact_hash(hashed),
{
    lemma_sample_mean_bound(luma);
    lemma_rolling_hash_range(hashed, SEMANTIC_MULTIPLIER as nat);
    lemma_exact_hash_range(hashed);
    lemma_round_trip(
        Modality::Image.tag_of() as u128,
        sample_mean(luma) as u128,
        rolling_hash(hashed, SEMANTIC_MULTIPLIER as nat) as u128,
        average_hash_of(small) as u128,
        exact_hash(hashed) as u128,
    );
}

/// Every fingerprint that the image extractor yields carries the image tag.
pub proof fn lemma_image_extraction_header(path: Seq<char>, data: Seq<u8>, source: HashSource)
    ensures
        image_extraction(path, data, source) matches Ok(togen) ==> header_of(togen.0) == 0x03,
{
    if let Some(picture) = decoded_image(path, data) {
        let luma = luma_pixels(picture);
        let small = luma_pixels(resized_nearest(picture, GRID_WIDTH, GRID_HEIGHT));
        if luma.len() > 0 {
            lemma_image_fingerprint_fields(source.bytes_of(path, data), luma, small);
        }
    }
}

impl ToGen {
    /// The two scalars that the image extractor reads from the pixels: the
    /// mean luminance of `luma`, the pixels of the whole image, and the
    /// average hash of `small`, the pixels of the image sampled down to the
    /// grid.
    pub fn calculate_image_hash(luma: &[u8], small: &[u8]) -> (scalars: (u8, u32))
        requires
            luma.len() > 0,
            small.len() > 0,
        ensures
            scalars.0 == sample_mean(luma@),
            scalars.1 == average_hash_of(small@),
    {
        (mean_luminance(luma), average_hash(small))
    }

    /// The fingerprint of an image file from the bytes that its hashes read
    /// and from the luminance of its pixels, whole (`luma`) and sampled to
    /// the grid (`small`).
    pub fn from_image_samples(hashed: &[u8], luma: &[u8], small: &[u8]) -> (togen: ToGen)
        requires
            luma.len() > 0,
            small.len() > 0,
        ensures
            togen.0 == image_fingerprint(hashed@, luma@, small@),
            header_of(togen.0) == 0x03,
            meta_of(togen.0) == sample_mean(luma@),
            semantic_of(togen.0) == rolling_hash(hashed@, SEMANTIC_MULTIPLIER as nat),
            structural_of(togen.0) == average_hash_of(small@),
            exact_of(togen.0) == exact_hash(hashed@),
    {
        let header: u128 = Modality::Image.tag() as u128;
        let (meta, estructural) = Self::calculate_image_hash(luma, small);
        let semantico: u128 = rolling_hash_of(hashed, SEMANTIC_MULTIPLIER) as u128;
        let exacto: u128 = exact_hash_of(hashed) as u128;
        proof {
            lemma_image_fingerprint_fields(hashed@, luma@, small@);
        }
        ToGen::encode(header, meta as u128, semantico, estructural as u128, exacto)
    }

    /// The fingerprint of an image file: `path` is the file's path as given,
    /// whose extension names the format, and `data` are the file's bytes.
    /// The meta field is the mean luminance of all pixels; the structural
    /// field is the average hash of the image sampled to the grid of 8 by 4;
    /// the semantic and exact fields hash what `source` says. Fails where
    /// the bytes decode to no image, or to an image without pixels.
    pub fn new_image_hashing(path: &str, data: &[u8], source: HashSource) -> (extracted: Result<
        ToGen,
        DecodeFailure,
    >)
        ensures
            extracted == image_extraction(path@, data@, source),
            extracted matches Ok(togen) ==> header_of(togen.0) == 0x03,
    {
        match decode_image(path, data) {
            Err(_) => Err(DecodeFailure::Image),
            Ok(picture) => {
                let luma: Vec<u8> = luma8(&picture);
                let grid = resize_nearest(&picture, GRID_WIDTH, GRID_HEIGHT);
                let small: Vec<u8> = luma8(&grid);
                if luma.len() == 0 || small.len() != GRID_SAMPLES {
                    Err(DecodeFailure::Image)
                } else {
                    let hashed: &[u8] = source.select(path, data);
                    Ok(Self::from_image_samples(hashed, luma.as_slice(), small.as_slice()))
                }
            },
        }
    }

    /// The fingerprint of an image file, its semantic and exact fields
    /// hashing the path: `new_image_hashing` with `HashSource::Path`.
    pub fn new_image(path: &str, data: &[u8]) -> (extracted: Result<ToGen, DecodeFailure>)
        ensures
            extracted == image_extraction(path@, data@, HashSource::Path),
            extracted matches Ok(togen) ==> header_of(togen.0) == 0x03,
    {
        Self::new_image_hashing(path, data, HashSource::Path)
    }
}

} // verus!
