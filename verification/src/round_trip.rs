//! What writing and reading do to each other: for which values and bytes one
//! undoes the other, and what happens where it does not.
//!
//! Integers go through unharmed in every format, and so do floating-point bit
//! patterns in the Intel and SgiMips formats. In the Dec format the step taken
//! on the top byte has two ends where it cannot be taken, one when reading and
//! one when writing, and they do not meet: the laws below say where.

use crate::layout::{
    dec_to_ieee, le_dword, le_dword_bytes, lemma_be_dword_bytes_of_be_dword,
    lemma_be_dword_of_be_dword_bytes, lemma_be_word_bytes_of_be_word,
    lemma_be_word_of_be_word_bytes, lemma_dec_to_ieee_of_ieee_to_dec,
    lemma_ieee_to_dec_of_dec_to_ieee, lemma_le_dword_bytes_of_le_dword,
    lemma_le_dword_of_le_dword_bytes, lemma_le_word_bytes_of_le_word,
    lemma_le_word_of_le_word_bytes, lemma_signed_word_of_unsigned_word,
    lemma_unsigned_word_of_signed_word, unsigned_word,
};
use crate::processor::Processor;
use vstd::prelude::*;

verus! {

/// Writing an unsigned 16-bit integer and reading the bytes gives the integer
/// back, in every format.
pub proof fn lemma_u16_written_then_read(processor: Processor, value: u16)
    ensures
        processor.spec_u16_to_bytes(value as int).len() == 2,
        processor.spec_u16(processor.spec_u16_to_bytes(value as int)) == value,
{
    lemma_le_word_of_le_word_bytes(value as int);
    lemma_be_word_of_be_word_bytes(value as int);
}

/// Reading two bytes as an unsigned 16-bit integer and writing it gives the
/// bytes back, in every format.
pub proof fn lemma_u16_read_then_written(processor: Processor, bytes: Seq<u8>)
    requires
        bytes.len() == 2,
    ensures
        0 <= processor.spec_u16(bytes) < 0x1_0000,
        processor.spec_u16_to_bytes(processor.spec_u16(bytes)) == bytes,
{
    lemma_le_word_bytes_of_le_word(bytes);
    lemma_be_word_bytes_of_be_word(bytes);
}

/// Writing a signed 16-bit integer and reading the bytes gives the integer
/// back, in every format.
pub proof fn lemma_i16_written_then_read(processor: Processor, value: i16)
    ensures
        processor.spec_i16_to_bytes(value as int).len() == 2,
        processor.spec_i16(processor.spec_i16_to_bytes(value as int)) == value,
{
    let word = unsigned_word(value as int);
    lemma_signed_word_of_unsigned_word(value as int);
    lemma_le_word_of_le_word_bytes(word);
    lemma_be_word_of_be_word_bytes(word);
}

/// Reading two bytes as a signed 16-bit integer and writing it gives the bytes
/// back, in every format.
pub proof fn lemma_i16_read_then_written(processor: Processor, bytes: Seq<u8>)
    requires
        bytes.len() == 2,
    ensures
        -0x8000 <= processor.spec_i16(bytes) < 0x8000,
        processor.spec_i16_to_bytes(processor.spec_i16(bytes)) == bytes,
{
    lemma_u16_read_then_written(processor, bytes);
    lemma_unsigned_word_of_signed_word(processor.spec_u16(bytes));
}

/// In the Intel and SgiMips formats, writing a floating-point value and
/// reading the bytes gives back every bit of it, whatever the bit pattern.
pub proof fn lemma_ieee_written_then_read(processor: Processor, bits: u32)
    requires
        processor != Processor::Dec,
    ensures
        processor.spec_f32_to_bytes(bits as int).len() == 4,
        processor.spec_f32(processor.spec_f32_to_bytes(bits as int)) == bits,
{
    lemma_le_dword_of_le_dword_bytes(bits as int);
    lemma_be_dword_of_be_dword_bytes(bits as int);
}

/// In the Intel and SgiMips formats, reading four bytes as a floating-point
/// value and writing it gives the bytes back.
pub proof fn lemma_ieee_read_then_written(processor: Processor, bytes: Seq<u8>)
    requires
        processor != Processor::Dec,
        bytes.len() == 4,
    ensures
        0 <= processor.spec_f32(bytes) < 0x1_0000_0000,
        processor.spec_f32_to_bytes(processor.spec_f32(bytes)) == bytes,
{
    lemma_le_dword_bytes_of_le_dword(bytes);
    lemma_be_dword_bytes_of_be_dword(bytes);
}

/// In the Dec format, writing a floating-point value and reading the bytes
/// gives back every bit of it, unless the top byte of its bit pattern is
/// `0xFF`.
pub proof fn lemma_dec_written_then_read(bits: u32)
    requires
        bits < 0xFF00_0000,
    ensures
        Processor::Dec.spec_f32_to_bytes(bits as int).len() == 4,
        Processor::Dec.spec_f32(Processor::Dec.spec_f32_to_bytes(bits as int)) == bits,
{
    let ieee = le_dword_bytes(bits as int);
    lemma_le_dword_of_le_dword_bytes(bits as int);
    assert(ieee[3] != 0xFF);
    lemma_dec_to_ieee_of_ieee_to_dec(ieee);
}

/// In the Dec format, a bit pattern whose top byte is `0xFF` is written with
/// that byte unchanged, and read back with it one lower.
pub proof fn lemma_dec_written_then_read_at_top(bits: u32)
    requires
        bits >= 0xFF00_0000,
    ensures
        Processor::Dec.spec_f32(Processor::Dec.spec_f32_to_bytes(bits as int)) == bits
            - 0x100_0000,
{
    let ieee = le_dword_bytes(bits as int);
    lemma_le_dword_of_le_dword_bytes(bits as int);
    assert(ieee[3] == 0xFF);
    lemma_dec_to_ieee_of_ieee_to_dec(ieee);
    assert(le_dword(ieee.update(3, 0xFEu8)) == le_dword(ieee) - 0x100_0000);
}

/// In the Dec format, reading four bytes as a floating-point value and writing
/// it gives the bytes back, unless the second byte is zero.
pub proof fn lemma_dec_read_then_written(bytes: Seq<u8>)
    requires
        bytes.len() == 4,
        bytes[1] != 0x00,
    ensures
        0 <= Processor::Dec.spec_f32(bytes) < 0xFF00_0000,
        Processor::Dec.spec_f32_to_bytes(Processor::Dec.spec_f32(bytes)) == bytes,
{
    lemma_ieee_to_dec_of_dec_to_ieee(bytes);
    lemma_le_dword_bytes_of_le_dword(dec_to_ieee(bytes));
}

/// In the Dec format, four bytes of which the second is zero are read as they
/// are, and written back with a second byte of one.
pub proof fn lemma_dec_read_then_written_at_zero(bytes: Seq<u8>)
    requires
        bytes.len() == 4,
        bytes[1] == 0x00,
    ensures
        Processor::Dec.spec_f32_to_bytes(Processor::Dec.spec_f32(bytes)) == bytes.update(1, 0x01u8),
{
    lemma_ieee_to_dec_of_dec_to_ieee(bytes);
    lemma_le_dword_bytes_of_le_dword(dec_to_ieee(bytes));
}

/// Detection looks at the marker byte alone: two blocks with the same marker
/// byte give the same result, whatever their other bytes hold.
pub proof fn lemma_detection_reads_the_marker_alone(first: Seq<u8>, second: Seq<u8>)
    requires
        first[3] == second[3],
    ensures
        Processor::spec_from_parameter_start_block(first)
            == Processor::spec_from_parameter_start_block(second),
{
}

} // verus!
