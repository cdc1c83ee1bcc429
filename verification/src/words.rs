//! Conversions between Modbus register words and the values they carry.
use vstd::prelude::*;

verus! {

/// The value of a 16-bit register read as a two's complement number.
pub open spec fn signed16(w: int) -> int {
    if w < 0x8000 { w } else { w - 0x1_0000 }
}

/// The value of a 32-bit pattern read as a two's complement number.
pub open spec fn signed32(u: int) -> int {
    if u < 0x8000_0000 { u } else { u - 0x1_0000_0000 }
}

/// Two's complement on 16 bits: the signed value of a word is the one number in
/// `[-2^15, 2^15)` that agrees with the word modulo `2^16`.
pub proof fn lemma_signed16_is_twos_complement(w: int)
    requires
        0 <= w < 0x1_0000,
    ensures
        -0x8000 <= signed16(w) < 0x8000,
        signed16(w) == w || signed16(w) == w - 0x1_0000,
{
}

/// Two's complement on 32 bits: the signed value of a pattern is the one number
/// in `[-2^31, 2^31)` that agrees with the pattern modulo `2^32`.
pub proof fn lemma_signed32_is_twos_complement(u: int)
    requires
        0 <= u < 0x1_0000_0000,
    ensures
        -0x8000_0000 <= signed32(u) < 0x8000_0000,
        signed32(u) == u || signed32(u) == u - 0x1_0000_0000,
{
}

/// Reads one register as a signed 16-bit quantity.
pub fn word_as_i16(w: u16) -> (r: i16)
    ensures
        r as int == signed16(w as int),
        r as u16 == w,
{
    proof {
        assert((w as i16) as int == (if w < 0x8000u16 { w as int } else { w as int - 0x1_0000 }))
            by (bit_vector);
        assert(((w as i16) as u16) == w) by (bit_vector);
    }
    #[verifier::truncate]
    (w as i16)
}

/// The value of a register pair that holds a 32-bit two's complement number with
/// its low word first.
pub open spec fn pair_value(lo: int, hi: int) -> int {
    signed32(hi * 0x1_0000 + lo)
}

/// Reads a register pair, low word first, as a signed 32-bit quantity.
pub fn words_to_i32(lo: u16, hi: u16) -> (r: i32)
    ensures
        r as int == pair_value(lo as int, hi as int),
        (r as u32) as int == hi as int * 0x1_0000 + lo as int,
{
    proof {
        assert((((((hi as u32) << 16u32) | (lo as u32)) as i32) as u32) as int == hi as int
            * 0x1_0000 + lo as int) by (bit_vector);
        assert((((hi as u32) << 16u32) | (lo as u32)) as int == hi as int * 0x1_0000 + lo as int)
            by (bit_vector);
        assert((((((hi as u32) << 16u32) | (lo as u32)) as i32) as int) == (if (((hi as u32)
            << 16u32) | (lo as u32)) < 0x8000_0000u32 {
            ((((hi as u32) << 16u32) | (lo as u32)) as int)
        } else {
            ((((hi as u32) << 16u32) | (lo as u32)) as int) - 0x1_0000_0000
        })) by (bit_vector);
    }
    let u: u32 = ((hi as u32) << 16u32) | (lo as u32);
    #[verifier::truncate]
    (u as i32)
}

/// The unsigned number that four bytes spell, most significant byte first.
pub open spec fn be_value(b: Seq<u8>) -> int {
    b[0] * 0x100_0000 + b[1] * 0x1_0000 + b[2] * 0x100 + b[3]
}

/// Splits the four big-endian bytes of a 32-bit value into the register pair that
/// the heat pump expects: the low word first, then the high word.
pub fn idm_bytes_to_words(bytes: [u8; 4]) -> (r: [u16; 2])
    ensures
        r@[0] == bytes@[3] + 0x100 * bytes@[2],
        r@[1] == bytes@[1] + 0x100 * bytes@[0],
{
    let b0 = bytes[0];
    let b1 = bytes[1];
    let b2 = bytes[2];
    let b3 = bytes[3];
    proof {
        assert((b2 as u16) << 8u16 == 0x100 * b2 as int) by (bit_vector);
        assert((b0 as u16) << 8u16 == 0x100 * b0 as int) by (bit_vector);
    }
    [b3 as u16 + ((b2 as u16) << 8u16), b1 as u16 + ((b0 as u16) << 8u16)]
}

/// The register pair written to the heat pump, read back the way the inverter's
/// 32-bit registers are read, is the written 32-bit value.
pub proof fn lemma_pair_layout_roundtrip(bytes: Seq<u8>, lo: int, hi: int)
    requires
        bytes.len() == 4,
        lo == bytes[3] + 0x100 * bytes[2],
        hi == bytes[1] + 0x100 * bytes[0],
    ensures
        pair_value(lo, hi) == signed32(be_value(bytes)),
        0 <= be_value(bytes) < 0x1_0000_0000,
{
}

/// Converts a byte to the character with the same code point (Latin-1).
pub fn byte_to_char(b: u8) -> (c: char)
    ensures
        c == b as char,
        c as int == b as int,
{
    b as char
}

/// The two characters that a register holds: its high byte, then its low byte.
pub open spec fn word_chars(w: u16) -> Seq<char> {
    seq![((w as int) / 0x100) as u8 as char, ((w as int) % 0x100) as u8 as char]
}

/// The characters that a run of registers holds, two per register.
pub open spec fn words_to_chars(s: Seq<u16>) -> Seq<char>
    decreases s.len(),
{
    if s.len() == 0 {
        Seq::empty()
    } else {
        words_to_chars(s.drop_last()) + word_chars(s.last())
    }
}

/// Reading registers as text gives two characters per register, in register
/// order: the character at `2 * i` is the high byte of register `i`, the one at
/// `2 * i + 1` its low byte.
pub proof fn lemma_words_to_chars_layout(s: Seq<u16>)
    ensures
        words_to_chars(s).len() == 2 * s.len(),
        forall|i: int|
            0 <= i < s.len() ==> {
                &&& #[trigger] words_to_chars(s)[2 * i] == ((s[i] as int) / 0x100) as u8 as char
                &&& words_to_chars(s)[2 * i + 1] == ((s[i] as int) % 0x100) as u8 as char
            },
    decreases s.len(),
{
    if s.len() > 0 {
        let t = s.drop_last();
        lemma_words_to_chars_layout(t);
        assert forall|i: int| 0 <= i < s.len() implies {
            &&& #[trigger] words_to_chars(s)[2 * i] == ((s[i] as int) / 0x100) as u8 as char
            &&& words_to_chars(s)[2 * i + 1] == ((s[i] as int) % 0x100) as u8 as char
        } by {
            if i < t.len() {
                assert(t[i] == s[i]);
                assert(words_to_chars(t)[2 * i] == ((t[i] as int) / 0x100) as u8 as char);
            }
        }
    }
}

/// `String::push`: appends one character at the end of the string.
#[verifier::external_body]
fn push_char(s: &mut String, c: char)
    ensures
        final(s)@ == old(s)@.push(c),
{
    s.push(c)
}

/// Reads a run of registers as text, two Latin-1 characters per register, the
/// high byte first.
pub fn modbus_to_str(data: &Vec<u16>) -> (r: String)
    ensures
        r@ == words_to_chars(data@),
{
    let mut chars = String::new();
    let mut i: usize = 0;
    while i < data.len()
        invariant
            i <= data.len(),
            chars@ == words_to_chars(data@.take(i as int)),
        decreases data.len() - i,
    {
        let word = data[i];
        proof {
            assert((word >> 8u16) as u8 == ((word as int) / 0x100) as u8) by (bit_vector);
            assert((word & 0xFFu16) as u8 == ((word as int) % 0x100) as u8) by (bit_vector);
            assert(data@.take(i + 1).drop_last() =~= data@.take(i as int));
        }
        push_char(&mut chars, byte_to_char((word >> 8u16) as u8));
        push_char(&mut chars, byte_to_char((word & 0xFFu16) as u8));
        proof {
            assert(chars@ =~= words_to_chars(data@.take(i + 1)));
        }
        i = i + 1;
    }
    proof {
        assert(data@.take(data.len() as int) =~= data@);
    }
    chars
}

} // verus!
