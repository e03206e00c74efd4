//! The text forms of a fingerprint: 32 hexadecimal digits, and a listing of
//! its fields.

use crate::codec::exact_of;
use crate::codec::header_of;
use crate::codec::meta_of;
use crate::codec::semantic_of;
use crate::codec::structural_of;
use crate::codec::ToGen;
use vstd::prelude::*;
use vstd::string::StringExecFns;

verus! {

/// The hexadecimal digit of a value below 16, in upper or lower case.
pub open spec fn hex_digit(nibble: u8, upper: bool) -> char {
    if nibble < 10 {
        (0x30 + nibble) as char
    } else if upper {
        (0x41 + (nibble - 10)) as char
    } else {
        (0x61 + (nibble - 10)) as char
    }
}

/// Byte `i` of the sixteen bytes of `bits`, the most significant first.
pub open spec fn be_byte(bits: u128, i: int) -> u8 {
    ((bits >> (((15 - i) * 8) as u32)) & 0xFF) as u8
}

/// The sixteen bytes of `bits`, the most significant first.
pub open spec fn be_bytes(bits: u128) -> Seq<u8> {
    Seq::new(16, |i: int| be_byte(bits, i))
}

/// The bytes written as lower-case hexadecimal digits, two for each byte,
/// the high half of a byte first.
pub open spec fn lower_hex(bytes: Seq<u8>) -> Seq<char> {
    Seq::new(
        2 * bytes.len(),
        |j: int|
            if j % 2 == 0 {
                hex_digit(bytes[j / 2] >> 4, false)
            } else {
                hex_digit(bytes[j / 2] & 0x0F, false)
            },
    )
}

/// The low `4 * width` bits of `value` written as `width` upper-case
/// hexadecimal digits, the most significant first.
pub open spec fn upper_hex(value: u64, width: nat) -> Seq<char> {
    Seq::new(width, |j: int| hex_digit(((value >> ((4 * (width - 1 - j)) as u32)) & 0xF) as u8, true))
}

/// The hexadecimal form of a fingerprint: 32 lower-case digits.
pub open spec fn hex_text(bits: u128) -> Seq<char> {
    lower_hex(be_bytes(bits))
}

/// The listing of a fingerprint and the input that it was derived from, in
/// three lines: the input in double quotes, the hexadecimal form, and the
/// five fields in upper-case hexadecimal at their full widths.
pub open spec fn parts_text(input: Seq<char>, bits: u128) -> Seq<char> {
    "Input: \""@ + input + "\"\nTOGEN: "@ + hex_text(bits) + "\n[Header: 0x"@ + upper_hex(
        header_of(bits) as u64,
        2,
    ) + "] [Meta: 0x"@ + upper_hex(meta_of(bits) as u64, 2) + "] [Semántico: 0x"@ + upper_hex(
        semantic_of(bits) as u64,
        8,
    ) + "] [Estructural: 0x"@ + upper_hex(structural_of(bits) as u64, 8) + "] [Exacto: 0x"@
        + upper_hex(exact_of(bits), 12) + "]"@
}

/// Digit `j` of the hexadecimal form is the digit of the `j`-th group of
/// four bits of the fingerprint, counted from the most significant.
pub proof fn lemma_hex_text_digit(bits: u128, j: int)
    requires
        0 <= j < 32,
    ensures
        hex_text(bits).len() == 32,
        hex_text(bits)[j] == hex_digit(((bits >> ((4 * (31 - j)) as u32)) & 0xF) as u8, false),
{
    let i = j / 2;
    let byte = be_byte(bits, i);
    let shift = ((15 - i) * 8) as u32;
    assert(be_bytes(bits)[i] == byte);
    if j % 2 == 0 {
        assert(4 * (31 - j) == shift + 4);
        let high = (shift + 4) as u32;
        assert((((bits >> shift) & 0xFF) as u8) >> 4 == ((bits >> high) & 0xF) as u8) by (bit_vector)
            requires
                shift <= 120,
                high == shift + 4,
        ;
    } else {
        assert(4 * (31 - j) == shift);
        assert((((bits >> shift) & 0xFF) as u8) & 0x0F == ((bits >> shift) & 0xF) as u8)
            by (bit_vector)
            requires
                shift <= 120,
        ;
    }
}

/// Calls `hex::encode`, which writes each byte as two lower-case
/// hexadecimal digits from the table `0123456789abcdef`, the high half of
/// the byte first, so that the text is twice as long as `bytes`.
#[verifier::external_body]
fn hex_encode(bytes: &[u8]) -> (text: String)
    ensures
        text@ == lower_hex(bytes@),
{
    hex::encode(bytes)
}

fn big_endian_bytes(bits: u128) -> (bytes: Vec<u8>)
    ensures
        bytes@ == be_bytes(bits),
{
    let mut bytes: Vec<u8> = Vec::new();
    let mut i: usize = 0;
    while i < 16
        invariant
            i <= 16,
            bytes@.len() == i,
            forall|k: int| 0 <= k < i ==> bytes@[k] == be_byte(bits, k),
        decreases 16 - i,
    {
        let shift: u32 = ((15 - i) * 8) as u32;
        let cut: u128 = (bits >> shift) & 0xFF;
        proof {
            assert(cut <= 0xFF) by (bit_vector)
                requires
                    cut == (bits >> shift) & 0xFF,
            ;
        }
        bytes.push(cut as u8);
        i = i + 1;
    }
    proof {
        assert(bytes@ =~= be_bytes(bits));
    }
    bytes
}

fn upper_digit(nibble: u8) -> (digit: &'static str)
    requires
        nibble < 16,
    ensures
        digit@ == seq![hex_digit(nibble, true)],
{
    proof {
        reveal_strlit("0");
        reveal_strlit("1");
        reveal_strlit("2");
        reveal_strlit("3");
        reveal_strlit("4");
        reveal_strlit("5");
        reveal_strlit("6");
        reveal_strlit("7");
        reveal_strlit("8");
        reveal_strlit("9");
        reveal_strlit("A");
        reveal_strlit("B");
        reveal_strlit("C");
        reveal_strlit("D");
        reveal_strlit("E");
        reveal_strlit("F");
    }
    let digit: &'static str = match nibble {
        0 => "0",
        1 => "1",
        2 => "2",
        3 => "3",
        4 => "4",
        5 => "5",
        6 => "6",
        7 => "7",
        8 => "8",
        9 => "9",
        10 => "A",
        11 => "B",
        12 => "C",
        13 => "D",
        14 => "E",
        _ => "F",
    };
    proof {
        assert(digit@ =~= seq![hex_digit(nibble, true)]);
    }
    digit
}

fn append_upper_hex(text: &mut String, value: u64, width: u32)
    requires
        1 <= width <= 16,
    ensures
        final(text)@ == old(text)@ + upper_hex(value, width as nat),
{
    let mut j: u32 = 0;
    while j < width
        invariant
            j <= width <= 16,
            text@ == old(text)@ + upper_hex(value, width as nat).take(j as int),
        decreases width - j,
    {
        let shift: u32 = 4 * (width - 1 - j);
        let cut: u64 = (value >> shift) & 0xF;
        proof {
            assert(cut <= 0xF) by (bit_vector)
                requires
                    cut == (value >> shift) & 0xF,
            ;
        }
        let digit: &'static str = upper_digit(cut as u8);
        text.append(digit);
        proof {
            let all = upper_hex(value, width as nat);
            assert(all.take(j + 1) =~= all.take(j as int) + seq![all[j as int]]);
            assert(text@ =~= old(text)@ + all.take(j + 1));
        }
        j = j + 1;
    }
    proof {
        let all = upper_hex(value, width as nat);
        assert(all.take(width as int) =~= all);
    }
}

impl ToGen {
    /// The fingerprint as 32 lower-case hexadecimal digits, the most
    /// significant first, leading zeros kept.
    pub fn to_hex(&self) -> (text: String)
        ensures
            text@ == hex_text(self.0),
            text@.len() == 32,
    {
        let bytes: Vec<u8> = big_endian_bytes(self.0);
        hex_encode(bytes.as_slice())
    }

    /// The listing of the fingerprint and of `input`, the text that it was
    /// derived from, in three lines without a line end after the last.
    pub fn format_parts(&self, input: &str) -> (text: String)
        ensures
            text@ == parts_text(input@, self.0),
    {
        let hex: String = self.to_hex();
        let mut text: String = String::from_str("Input: \"");
        text.append(input);
        text.append("\"\nTOGEN: ");
        text.append(hex.as_str());
        text.append("\n[Header: 0x");
        append_upper_hex(&mut text, self.get_header() as u64, 2);
        text.append("] [Meta: 0x");
        append_upper_hex(&mut text, self.get_meta() as u64, 2);
        text.append("] [Semántico: 0x");
        append_upper_hex(&mut text, self.get_semantico() as u64, 8);
        text.append("] [Estructural: 0x");
        append_upper_hex(&mut text, self.get_estructural() as u64, 8);
        text.append("] [Exacto: 0x");
        append_upper_hex(&mut text, self.get_exacto(), 12);
        text.append("]");
        text
    }
}

} // verus!
