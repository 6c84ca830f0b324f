//! The byte layouts of 16-bit and 32-bit values, one reader per processor
//! format and value type, and the writers that undo them.
//!
//! A floating-point value is handled here as its IEEE-754 single-precision bit
//! pattern, held in a `u32`: sign in bit 31, exponent in bits 30 to 23,
//! fraction below.

use vstd::prelude::*;

verus! {

/// The number that two bytes spell, least significant byte first.
pub open spec fn le_word(bytes: Seq<u8>) -> int
    recommends
        bytes.len() == 2,
{
    bytes[0] + 0x100 * bytes[1]
}

/// The number that two bytes spell, most significant byte first.
pub open spec fn be_word(bytes: Seq<u8>) -> int
    recommends
        bytes.len() == 2,
{
    0x100 * bytes[0] + bytes[1]
}

/// The two bytes that spell a 16-bit word, least significant byte first.
pub open spec fn le_word_bytes(word: int) -> Seq<u8>
    recommends
        0 <= word < 0x1_0000,
{
    seq![(word % 0x100) as u8, (word / 0x100) as u8]
}

/// The two bytes that spell a 16-bit word, most significant byte first.
pub open spec fn be_word_bytes(word: int) -> Seq<u8>
    recommends
        0 <= word < 0x1_0000,
{
    seq![(word / 0x100) as u8, (word % 0x100) as u8]
}

/// The signed number that a 16-bit word stands for in two's complement.
pub open spec fn signed_word(word: int) -> int
    recommends
        0 <= word < 0x1_0000,
{
    if word < 0x8000 {
        word
    } else {
        word - 0x1_0000
    }
}

/// The 16-bit word that stands for a signed number in two's complement.
pub open spec fn unsigned_word(value: int) -> int
    recommends
        -0x8000 <= value < 0x8000,
{
    if value < 0 {
        value + 0x1_0000
    } else {
        value
    }
}

/// The number that four bytes spell, least significant byte first.
pub open spec fn le_dword(bytes: Seq<u8>) -> int
    recommends
        bytes.len() == 4,
{
    bytes[0] + 0x100 * bytes[1] + 0x1_0000 * bytes[2] + 0x100_0000 * bytes[3]
}

/// The number that four bytes spell, most significant byte first.
pub open spec fn be_dword(bytes: Seq<u8>) -> int
    recommends
        bytes.len() == 4,
{
    0x100_0000 * bytes[0] + 0x1_0000 * bytes[1] + 0x100 * bytes[2] + bytes[3]
}

/// The four bytes that spell a 32-bit word, least significant byte first.
pub open spec fn le_dword_bytes(dword: int) -> Seq<u8>
    recommends
        0 <= dword < 0x1_0000_0000,
{
    seq![
        (dword % 0x100) as u8,
        (dword / 0x100 % 0x100) as u8,
        (dword / 0x1_0000 % 0x100) as u8,
        (dword / 0x100_0000) as u8,
    ]
}

/// The four bytes that spell a 32-bit word, most significant byte first.
pub open spec fn be_dword_bytes(dword: int) -> Seq<u8>
    recommends
        0 <= dword < 0x1_0000_0000,
{
    seq![
        (dword / 0x100_0000) as u8,
        (dword / 0x1_0000 % 0x100) as u8,
        (dword / 0x100 % 0x100) as u8,
        (dword % 0x100) as u8,
    ]
}

/// The little-endian IEEE-754 bytes of the value that four bytes hold in the
/// Dec layout.
///
/// The Dec layout stores the two 16-bit halves of a value in the opposite
/// order, and its top byte, which holds the sign and the upper seven bits of
/// the exponent, is one above that of IEEE-754. A top byte of zero is left as
/// it is: there is nothing to take the step from.
pub open spec fn dec_to_ieee(bytes: Seq<u8>) -> Seq<u8>
    recommends
        bytes.len() == 4,
{
    seq![
        bytes[2],
        bytes[3],
        bytes[0],
        if bytes[1] == 0x00 {
            0x00u8
        } else {
            (bytes[1] - 1) as u8
        },
    ]
}

/// The Dec layout of a value given by its little-endian IEEE-754 bytes.
///
/// The halves change places and the top byte goes up by one. A top byte of
/// `0xFF` is left as it is: the step would not fit in the byte.
pub open spec fn ieee_to_dec(ieee: Seq<u8>) -> Seq<u8>
    recommends
        ieee.len() == 4,
{
    seq![
        ieee[2],
        if ieee[3] == 0xFF {
            0xFFu8
        } else {
            (ieee[3] + 1) as u8
        },
        ieee[0],
        ieee[1],
    ]
}

/// Reads an unsigned 16-bit integer in the Intel layout: little-endian.
pub fn intel_u16(bytes: [u8; 2]) -> (value: u16)
    ensures
        value == le_word(bytes@),
{
    let low: u16 = bytes[0] as u16;
    let high: u16 = bytes[1] as u16;
    assert(low | (high << 8) == low + 0x100 * high) by (bit_vector)
        requires
            low < 0x100,
            high < 0x100,
    ;
    low | (high << 8)
}

/// Reads an unsigned 16-bit integer in the Dec layout, which for integers is
/// that of Intel.
pub fn dec_u16(bytes: [u8; 2]) -> (value: u16)
    ensures
        value == le_word(bytes@),
{
    intel_u16(bytes)
}

/// Reads an unsigned 16-bit integer in the SgiMips layout: big-endian.
pub fn sgi_mips_u16(bytes: [u8; 2]) -> (value: u16)
    ensures
        value == be_word(bytes@),
{
    let high: u16 = bytes[0] as u16;
    let low: u16 = bytes[1] as u16;
    assert((high << 8) | low == 0x100 * high + low) by (bit_vector)
        requires
            low < 0x100,
            high < 0x100,
    ;
    (high << 8) | low
}

/// Reinterprets a 16-bit word as a signed integer in two's complement.
pub fn word_as_signed(word: u16) -> (value: i16)
    ensures
        value == signed_word(word as int),
{
    assert(word as i16 == if word < 0x8000 {
        word as int
    } else {
        word - 0x1_0000
    }) by (bit_vector);
    #[verifier::truncate]
    (word as i16)
}

/// Reinterprets a signed integer as its 16-bit word in two's complement.
pub fn signed_as_word(value: i16) -> (word: u16)
    ensures
        word == unsigned_word(value as int),
{
    assert(value as u16 == if value < 0 {
        value + 0x1_0000
    } else {
        value as int
    }) by (bit_vector);
    #[verifier::truncate]
    (value as u16)
}

/// Reads a signed 16-bit integer in the Intel layout: little-endian two's
/// complement.
pub fn intel_i16(bytes: [u8; 2]) -> (value: i16)
    ensures
        value == signed_word(le_word(bytes@)),
{
    word_as_signed(intel_u16(bytes))
}

/// Reads a signed 16-bit integer in the Dec layout, which for integers is that
/// of Intel.
pub fn dec_i16(bytes: [u8; 2]) -> (value: i16)
    ensures
        value == signed_word(le_word(bytes@)),
{
    word_as_signed(dec_u16(bytes))
}

/// Reads a signed 16-bit integer in the SgiMips layout: big-endian two's
/// complement.
pub fn sgi_mips_i16(bytes: [u8; 2]) -> (value: i16)
    ensures
        value == signed_word(be_word(bytes@)),
{
    word_as_signed(sgi_mips_u16(bytes))
}

/// Writes an unsigned 16-bit integer in the Intel layout: little-endian.
pub fn intel_u16_to_bytes(value: u16) -> (bytes: [u8; 2])
    ensures
        bytes@ == le_word_bytes(value as int),
{
    assert(value & 0xFF == value % 0x100 && value >> 8 == value / 0x100 && value >> 8 < 0x100)
        by (bit_vector);
    [(value & 0xFF) as u8, (value >> 8) as u8]
}

/// Writes an unsigned 16-bit integer in the SgiMips layout: big-endian.
pub fn sgi_mips_u16_to_bytes(value: u16) -> (bytes: [u8; 2])
    ensures
        bytes@ == be_word_bytes(value as int),
{
    assert(value & 0xFF == value % 0x100 && value >> 8 == value / 0x100 && value >> 8 < 0x100)
        by (bit_vector);
    [(value >> 8) as u8, (value & 0xFF) as u8]
}

/// Reads the bit pattern of a floating-point value in the Intel layout:
/// little-endian IEEE-754.
pub fn intel_f32(bytes: [u8; 4]) -> (bits: u32)
    ensures
        bits == le_dword(bytes@),
{
    let b0: u32 = bytes[0] as u32;
    let b1: u32 = bytes[1] as u32;
    let b2: u32 = bytes[2] as u32;
    let b3: u32 = bytes[3] as u32;
    assert(b0 | (b1 << 8) | (b2 << 16) | (b3 << 24) == b0 + 0x100 * b1 + 0x1_0000 * b2 + 0x100_0000
        * b3) by (bit_vector)
        requires
            b0 < 0x100,
            b1 < 0x100,
            b2 < 0x100,
            b3 < 0x100,
    ;
    b0 | (b1 << 8) | (b2 << 16) | (b3 << 24)
}

/// Reads the bit pattern of a floating-point value in the SgiMips layout:
/// big-endian IEEE-754.
pub fn sgi_mips_f32(bytes: [u8; 4]) -> (bits: u32)
    ensures
        bits == be_dword(bytes@),
{
    let b0: u32 = bytes[0] as u32;
    let b1: u32 = bytes[1] as u32;
    let b2: u32 = bytes[2] as u32;
    let b3: u32 = bytes[3] as u32;
    assert((b0 << 24) | (b1 << 16) | (b2 << 8) | b3 == 0x100_0000 * b0 + 0x1_0000 * b1 + 0x100 * b2
        + b3) by (bit_vector)
        requires
            b0 < 0x100,
            b1 < 0x100,
            b2 < 0x100,
            b3 < 0x100,
    ;
    (b0 << 24) | (b1 << 16) | (b2 << 8) | b3
}

/// Reads the IEEE-754 bit pattern of a floating-point value in the Dec layout.
pub fn dec_f32(bytes: [u8; 4]) -> (bits: u32)
    ensures
        bits == le_dword(dec_to_ieee(bytes@)),
{
    if bytes[1] == 0x00 {
        let ieee: [u8; 4] = [bytes[2], bytes[3], bytes[0], bytes[1]];
        assert(ieee@ == dec_to_ieee(bytes@));
        intel_f32(ieee)
    } else {
        let ieee: [u8; 4] = [bytes[2], bytes[3], bytes[0], bytes[1] - 1];
        assert(ieee@ == dec_to_ieee(bytes@));
        intel_f32(ieee)
    }
}

/// Writes a floating-point value, given by its bit pattern, in the Intel
/// layout: little-endian IEEE-754.
pub fn intel_f32_to_bytes(bits: u32) -> (bytes: [u8; 4])
    ensures
        bytes@ == le_dword_bytes(bits as int),
{
    assert(bits & 0xFF == bits % 0x100 && (bits >> 8) & 0xFF == bits / 0x100 % 0x100 && (bits >> 16)
        & 0xFF == bits / 0x1_0000 % 0x100 && bits >> 24 == bits / 0x100_0000 && bits >> 24 < 0x100)
        by (bit_vector);
    [
        (bits & 0xFF) as u8,
        ((bits >> 8) & 0xFF) as u8,
        ((bits >> 16) & 0xFF) as u8,
        (bits >> 24) as u8,
    ]
}

/// Writes a floating-point value, given by its bit pattern, in the SgiMips
/// layout: big-endian IEEE-754.
pub fn sgi_mips_f32_to_bytes(bits: u32) -> (bytes: [u8; 4])
    ensures
        bytes@ == be_dword_bytes(bits as int),
{
    assert(bits & 0xFF == bits % 0x100 && (bits >> 8) & 0xFF == bits / 0x100 % 0x100 && (bits >> 16)
        & 0xFF == bits / 0x1_0000 % 0x100 && bits >> 24 == bits / 0x100_0000 && bits >> 24 < 0x100)
        by (bit_vector);
    [
        (bits >> 24) as u8,
        ((bits >> 16) & 0xFF) as u8,
        ((bits >> 8) & 0xFF) as u8,
        (bits & 0xFF) as u8,
    ]
}

/// Writes a floating-point value, given by its IEEE-754 bit pattern, in the
/// Dec layout.
pub fn dec_f32_to_bytes(bits: u32) -> (bytes: [u8; 4])
    ensures
        bytes@ == ieee_to_dec(le_dword_bytes(bits as int)),
{
    let ieee: [u8; 4] = intel_f32_to_bytes(bits);
    if ieee[3] == 0xFF {
        [ieee[2], ieee[3], ieee[0], ieee[1]]
    } else {
        [ieee[2], ieee[3] + 1, ieee[0], ieee[1]]
    }
}

/// Two bytes spell a number that fits in 16 bits, first byte least
/// significant, and writing that number the same way gives the bytes back.
pub proof fn lemma_le_word_bytes_of_le_word(bytes: Seq<u8>)
    requires
        bytes.len() == 2,
    ensures
        0 <= le_word(bytes) < 0x1_0000,
        le_word_bytes(le_word(bytes)) == bytes,
{
    let word = le_word(bytes);
    assert(word % 0x100 == bytes[0]);
    assert(word / 0x100 == bytes[1]);
    assert(le_word_bytes(word) =~= bytes);
}

/// Two bytes spell a number that fits in 16 bits, first byte most significant,
/// and writing that number the same way gives the bytes back.
pub proof fn lemma_be_word_bytes_of_be_word(bytes: Seq<u8>)
    requires
        bytes.len() == 2,
    ensures
        0 <= be_word(bytes) < 0x1_0000,
        be_word_bytes(be_word(bytes)) == bytes,
{
    let word = be_word(bytes);
    assert(word % 0x100 == bytes[1]);
    assert(word / 0x100 == bytes[0]);
    assert(be_word_bytes(word) =~= bytes);
}

/// The two bytes of a 16-bit word, least significant first, spell the word.
pub proof fn lemma_le_word_of_le_word_bytes(word: int)
    requires
        0 <= word < 0x1_0000,
    ensures
        le_word_bytes(word).len() == 2,
        le_word(le_word_bytes(word)) == word,
{
    assert(word == word % 0x100 + 0x100 * (word / 0x100));
}

/// The two bytes of a 16-bit word, most significant first, spell the word.
pub proof fn lemma_be_word_of_be_word_bytes(word: int)
    requires
        0 <= word < 0x1_0000,
    ensures
        be_word_bytes(word).len() == 2,
        be_word(be_word_bytes(word)) == word,
{
    assert(word == word % 0x100 + 0x100 * (word / 0x100));
}

/// A 16-bit word stands for a signed number that fits in 16 bits, and that
/// number stands for the word.
pub proof fn lemma_unsigned_word_of_signed_word(word: int)
    requires
        0 <= word < 0x1_0000,
    ensures
        -0x8000 <= signed_word(word) < 0x8000,
        unsigned_word(signed_word(word)) == word,
{
}

/// A signed number that fits in 16 bits stands for a 16-bit word, and that
/// word stands for the number.
pub proof fn lemma_signed_word_of_unsigned_word(value: int)
    requires
        -0x8000 <= value < 0x8000,
    ensures
        0 <= unsigned_word(value) < 0x1_0000,
        signed_word(unsigned_word(value)) == value,
{
}

/// Four bytes spell a number that fits in 32 bits, first byte least
/// significant, and writing that number the same way gives the bytes back.
pub proof fn lemma_le_dword_bytes_of_le_dword(bytes: Seq<u8>)
    requires
        bytes.len() == 4,
    ensures
        0 <= le_dword(bytes) < 0x1_0000_0000,
        le_dword_bytes(le_dword(bytes)) == bytes,
{
    let dword = le_dword(bytes);
    assert(dword % 0x100 == bytes[0]);
    assert(dword / 0x100 == bytes[1] + 0x100 * bytes[2] + 0x1_0000 * bytes[3]);
    assert(dword / 0x1_0000 == bytes[2] + 0x100 * bytes[3]);
    assert(dword / 0x100_0000 == bytes[3]);
    assert(le_dword_bytes(dword) =~= bytes);
}

/// Four bytes spell a number that fits in 32 bits, first byte most
/// significant, and writing that number the same way gives the bytes back.
pub proof fn lemma_be_dword_bytes_of_be_dword(bytes: Seq<u8>)
    requires
        bytes.len() == 4,
    ensures
        0 <= be_dword(bytes) < 0x1_0000_0000,
        be_dword_bytes(be_dword(bytes)) == bytes,
{
    let dword = be_dword(bytes);
    assert(dword % 0x100 == bytes[3]);
    assert(dword / 0x100 == bytes[2] + 0x100 * bytes[1] + 0x1_0000 * bytes[0]);
    assert(dword / 0x1_0000 == bytes[1] + 0x100 * bytes[0]);
    assert(dword / 0x100_0000 == bytes[0]);
    assert(be_dword_bytes(dword) =~= bytes);
}

/// The four bytes of a 32-bit word, least significant first, spell the word.
pub proof fn lemma_le_dword_of_le_dword_bytes(dword: int)
    requires
        0 <= dword < 0x1_0000_0000,
    ensures
        le_dword_bytes(dword).len() == 4,
        le_dword(le_dword_bytes(dword)) == dword,
{
    let upper = dword / 0x100;
    let top = upper / 0x100;
    assert(dword == dword % 0x100 + 0x100 * upper);
    assert(upper == upper % 0x100 + 0x100 * top);
    assert(top == top % 0x100 + 0x100 * (top / 0x100));
    assert(top == dword / 0x1_0000);
    assert(top / 0x100 == dword / 0x100_0000);
}

/// The four bytes of a 32-bit word, most significant first, spell the word.
pub proof fn lemma_be_dword_of_be_dword_bytes(dword: int)
    requires
        0 <= dword < 0x1_0000_0000,
    ensures
        be_dword_bytes(dword).len() == 4,
        be_dword(be_dword_bytes(dword)) == dword,
{
    let upper = dword / 0x100;
    let top = upper / 0x100;
    assert(dword == dword % 0x100 + 0x100 * upper);
    assert(upper == upper % 0x100 + 0x100 * top);
    assert(top == top % 0x100 + 0x100 * (top / 0x100));
    assert(top == dword / 0x1_0000);
    assert(top / 0x100 == dword / 0x100_0000);
}

/// Taking four bytes from the Dec layout to IEEE-754 and back gives the bytes
/// again, unless the second byte is zero: then it comes back as one.
pub proof fn lemma_ieee_to_dec_of_dec_to_ieee(bytes: Seq<u8>)
    requires
        bytes.len() == 4,
    ensures
        dec_to_ieee(bytes).len() == 4,
        dec_to_ieee(bytes)[3] != 0xFF,
        bytes[1] != 0x00 ==> ieee_to_dec(dec_to_ieee(bytes)) == bytes,
        bytes[1] == 0x00 ==> ieee_to_dec(dec_to_ieee(bytes)) == bytes.update(1, 0x01u8),
{
    if bytes[1] != 0x00 {
        assert(ieee_to_dec(dec_to_ieee(bytes)) =~= bytes);
    } else {
        assert(ieee_to_dec(dec_to_ieee(bytes)) =~= bytes.update(1, 0x01u8));
    }
}

/// Taking four IEEE-754 bytes to the Dec layout and back gives the bytes again,
/// unless the top byte is `0xFF`: then it comes back as `0xFE`.
pub proof fn lemma_dec_to_ieee_of_ieee_to_dec(ieee: Seq<u8>)
    requires
        ieee.len() == 4,
    ensures
        ieee_to_dec(ieee).len() == 4,
        ieee_to_dec(ieee)[1] != 0x00,
        ieee[3] != 0xFF ==> dec_to_ieee(ieee_to_dec(ieee)) == ieee,
        ieee[3] == 0xFF ==> dec_to_ieee(ieee_to_dec(ieee)) == ieee.update(3, 0xFEu8),
{
    if ieee[3] != 0xFF {
        assert(dec_to_ieee(ieee_to_dec(ieee)) =~= ieee);
    } else {
        assert(dec_to_ieee(ieee_to_dec(ieee)) =~= ieee.update(3, 0xFEu8));
    }
}

} // verus!
