//! The bit layout of a fingerprint, and packing and unpacking its five fields.
//!
//! | field      | bits    | width |
//! |------------|---------|-------|
//! | header     | 0..8    | 8     |
//! | meta       | 8..16   | 8     |
//! | semantic   | 16..48  | 32    |
//! | structural | 48..80  | 32    |
//! | exact      | 80..128 | 48    |

use vstd::prelude::*;

verus! {

/// A 128-bit fingerprint. Every `u128` is a fingerprint: the type has no
/// invariant beyond the layout by which its fields are read. A fingerprint
/// is a plain value that is copied, compared and read; the library has no
/// operation that changes one, and a changed input gets a new fingerprint.
#[derive(Clone, Copy, Debug, PartialEq, Eq, Structural)]
pub struct ToGen(pub u128);

/// The kind of input that a fingerprint was derived from.
#[derive(Clone, Copy, Debug, PartialEq, Eq, Structural)]
pub enum Modality {
    /// Free text; tag `0x01`.
    Text,
    /// A source file, known by its path; tag `0x02`.
    Code,
    /// A still image; tag `0x03`.
    Image,
    /// A short audio clip; tag `0x04`.
    Audio,
    /// A discrete action command; tag `0x05`.
    Action,
}

impl Modality {
    /// The tag that stands for this modality in the header field.
    pub open spec fn tag_of(self) -> u8 {
        match self {
            Modality::Text => 0x01,
            Modality::Code => 0x02,
            Modality::Image => 0x03,
            Modality::Audio => 0x04,
            Modality::Action => 0x05,
        }
    }

    /// The modality that a tag stands for, if any.
    pub open spec fn of_tag(tag: u8) -> Option<Modality> {
        if tag == 0x01 {
            Some(Modality::Text)
        } else if tag == 0x02 {
            Some(Modality::Code)
        } else if tag == 0x03 {
            Some(Modality::Image)
        } else if tag == 0x04 {
            Some(Modality::Audio)
        } else if tag == 0x05 {
            Some(Modality::Action)
        } else {
            None
        }
    }

    /// The tag that stands for this modality in the header field.
    pub fn tag(self) -> (tag: u8)
        ensures
            tag == self.tag_of(),
            Modality::of_tag(tag) == Some(self),
    {
        match self {
            Modality::Text => 0x01,
            Modality::Code => 0x02,
            Modality::Image => 0x03,
            Modality::Audio => 0x04,
            Modality::Action => 0x05,
        }
    }

    /// The modality that `tag` stands for; `None` for a tag that stands for
    /// none.
    pub fn from_tag(tag: u8) -> (modality: Option<Modality>)
        ensures
            modality == Modality::of_tag(tag),
            modality matches Some(m) ==> m.tag_of() == tag,
    {
        if tag == 0x01 {
            Some(Modality::Text)
        } else if tag == 0x02 {
            Some(Modality::Code)
        } else if tag == 0x03 {
            Some(Modality::Image)
        } else if tag == 0x04 {
            Some(Modality::Audio)
        } else if tag == 0x05 {
            Some(Modality::Action)
        } else {
            None
        }
    }
}

/// The header field of `bits`: bits 0 to 7.
pub open spec fn header_of(bits: u128) -> u8 {
    (bits & 0xFF) as u8
}

/// The meta field of `bits`: bits 8 to 15.
pub open spec fn meta_of(bits: u128) -> u8 {
    ((bits >> 8) & 0xFF) as u8
}

/// The semantic field of `bits`: bits 16 to 47.
pub open spec fn semantic_of(bits: u128) -> u32 {
    ((bits >> 16) & 0xFFFF_FFFF) as u32
}

/// The structural field of `bits`: bits 48 to 79.
pub open spec fn structural_of(bits: u128) -> u32 {
    ((bits >> 48) & 0xFFFF_FFFF) as u32
}

/// The exact field of `bits`: bits 80 to 127.
pub open spec fn exact_of(bits: u128) -> u64 {
    (bits >> 80) as u64
}

/// The five fields, each cut to its width and moved to its offset, combined.
pub open spec fn pack(header: u128, meta: u128, semantic: u128, structural: u128, exact: u128) -> u128 {
    (header & 0xFF) | ((meta & 0xFF) << 8) | ((semantic & 0xFFFF_FFFF) << 16) | ((structural
        & 0xFFFF_FFFF) << 48) | ((exact & 0xFFFF_FFFF_FFFF) << 80)
}

/// Whether each of the five values fits the width of its field.
pub open spec fn fits_fields(header: u128, meta: u128, semantic: u128, structural: u128, exact: u128) -> bool {
    &&& header <= 0xFF
    &&& meta <= 0xFF
    &&& semantic <= 0xFFFF_FFFF
    &&& structural <= 0xFFFF_FFFF
    &&& exact <= 0xFFFF_FFFF_FFFF
}

/// Unpacking a packed value gives back each field, cut to its width.
pub proof fn lemma_unpack_pack(header: u128, meta: u128, semantic: u128, structural: u128, exact: u128)
    by (bit_vector)
    ensures
        header_of(pack(header, meta, semantic, structural, exact)) == header & 0xFF,
        meta_of(pack(header, meta, semantic, structural, exact)) == meta & 0xFF,
        semantic_of(pack(header, meta, semantic, structural, exact)) == semantic & 0xFFFF_FFFF,
        structural_of(pack(header, meta, semantic, structural, exact)) == structural & 0xFFFF_FFFF,
        exact_of(pack(header, meta, semantic, structural, exact)) == exact & 0xFFFF_FFFF_FFFF,
{
}

/// Round trip: five values that fit their fields come back unchanged from
/// packing and unpacking.
pub proof fn lemma_round_trip(header: u128, meta: u128, semantic: u128, structural: u128, exact: u128)
    by (bit_vector)
    requires
        fits_fields(header, meta, semantic, structural, exact),
    ensures
        header_of(pack(header, meta, semantic, structural, exact)) == header,
        meta_of(pack(header, meta, semantic, structural, exact)) == meta,
        semantic_of(pack(header, meta, semantic, structural, exact)) == semantic,
        structural_of(pack(header, meta, semantic, structural, exact)) == structural,
        exact_of(pack(header, meta, semantic, structural, exact)) == exact,
{
}

/// Unpacking loses nothing: packing the five fields of any value gives that
/// value back.
pub proof fn lemma_pack_unpack(bits: u128)
    by (bit_vector)
    ensures
        pack(
            header_of(bits) as u128,
            meta_of(bits) as u128,
            semantic_of(bits) as u128,
            structural_of(bits) as u128,
            exact_of(bits) as u128,
        ) == bits,
{
}

/// The fields neither overlap nor leave a gap: for values that fit, the packed
/// value is their sum, each weighted by two to the power of its offset.
pub proof fn lemma_pack_is_sum(header: u128, meta: u128, semantic: u128, structural: u128, exact: u128)
    by (bit_vector)
    requires
        fits_fields(header, meta, semantic, structural, exact),
    ensures
        pack(header, meta, semantic, structural, exact) == header + meta * 0x100 + semantic * 0x1_0000
            + structural * 0x1_0000_0000_0000 + exact * 0x1_0000_0000_0000_0000_0000,
{
}

proof fn lemma_field_ranges(bits: u128)
    by (bit_vector)
    ensures
        bits & 0xFF <= 0xFF,
        (bits >> 8) & 0xFF <= 0xFF,
        (bits >> 16) & 0xFFFF_FFFF <= 0xFFFF_FFFF,
        (bits >> 48) & 0xFFFF_FFFF <= 0xFFFF_FFFF,
        bits >> 80 <= 0xFFFF_FFFF_FFFF,
{
}

impl ToGen {
    /// Packs five values into a fingerprint. Each value is cut to the width
    /// of its field, so the fields read back are the values' low bits.
    pub fn encode(
        header: u128,
        meta: u128,
        semantico: u128,
        estructural: u128,
        exacto: u128,
    ) -> (togen: ToGen)
        ensures
            togen.0 == pack(header, meta, semantico, estructural, exacto),
            header_of(togen.0) == header & 0xFF,
            meta_of(togen.0) == meta & 0xFF,
            semantic_of(togen.0) == semantico & 0xFFFF_FFFF,
            structural_of(togen.0) == estructural & 0xFFFF_FFFF,
            exact_of(togen.0) == exacto & 0xFFFF_FFFF_FFFF,
    {
        let mut bits: u128 = 0;
        bits |= header & 0xFF;
        bits |= (meta & 0xFF) << 8;
        bits |= (semantico & 0xFFFF_FFFF) << 16;
        bits |= (estructural & 0xFFFF_FFFF) << 48;
        bits |= (exacto & 0xFFFF_FFFF_FFFF) << 80;
        proof {
            assert(bits == pack(header, meta, semantico, estructural, exacto)) by (bit_vector)
                requires
                    bits == ((((0u128 | (header & 0xFF)) | ((meta & 0xFF) << 8)) | ((semantico
                        & 0xFFFF_FFFF) << 16)) | ((estructural & 0xFFFF_FFFF) << 48)) | ((exacto
                        & 0xFFFF_FFFF_FFFF) << 80),
            ;
            lemma_unpack_pack(header, meta, semantico, estructural, exacto);
        }
        ToGen(bits)
    }

    /// Unpacks the five fields: header, meta, semantic, structural, exact.
    pub fn decode(&self) -> (fields: (u8, u8, u32, u32, u64))
        ensures
            fields.0 == header_of(self.0),
            fields.1 == meta_of(self.0),
            fields.2 == semantic_of(self.0),
            fields.3 == structural_of(self.0),
            fields.4 == exact_of(self.0),
            pack(
                fields.0 as u128,
                fields.1 as u128,
                fields.2 as u128,
                fields.3 as u128,
                fields.4 as u128,
            ) == self.0,
    {
        proof {
            lemma_pack_unpack(self.0);
        }
        (
            self.get_header(),
            self.get_meta(),
            self.get_semantico(),
            self.get_estructural(),
            self.get_exacto(),
        )
    }

    /// The header field: the tag of the modality.
    pub fn get_header(&self) -> (header: u8)
        ensures
            header == header_of(self.0),
    {
        proof {
            lemma_field_ranges(self.0);
        }
        (self.0 & 0xFF) as u8
    }

    /// The meta field: the coarse scalar summary.
    pub fn get_meta(&self) -> (meta: u8)
        ensures
            meta == meta_of(self.0),
    {
        proof {
            lemma_field_ranges(self.0);
        }
        ((self.0 >> 8) & 0xFF) as u8
    }

    /// The semantic field: the content-oriented similarity hash.
    pub fn get_semantico(&self) -> (semantico: u32)
        ensures
            semantico == semantic_of(self.0),
    {
        proof {
            lemma_field_ranges(self.0);
        }
        ((self.0 >> 16) & 0xFFFF_FFFF) as u32
    }

    /// The structural field: the structure-oriented similarity hash.
    pub fn get_estructural(&self) -> (estructural: u32)
        ensures
            estructural == structural_of(self.0),
    {
        proof {
            lemma_field_ranges(self.0);
        }
        ((self.0 >> 48) & 0xFFFF_FFFF) as u32
    }

    /// The exact field: the 48-bit exact-match hash.
    pub fn get_exacto(&self) -> (exacto: u64)
        ensures
            exacto == exact_of(self.0),
            exacto <= 0xFFFF_FFFF_FFFF,
    {
        proof {
            lemma_field_ranges(self.0);
        }
        (self.0 >> 80) as u64
    }

    /// The modality named by the header field; `None` where the header holds
    /// no modality's tag.
    pub fn modality(&self) -> (modality: Option<Modality>)
        ensures
            modality == Modality::of_tag(header_of(self.0)),
    {
        Modality::from_tag(self.get_header())
    }
}

} // verus!
