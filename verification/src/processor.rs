//! The processor format of a file: how it is detected, and how it reads and
//! writes each kind of number.

use crate::layout::{
    be_dword, be_dword_bytes, be_word, be_word_bytes, dec_f32, dec_f32_to_bytes, dec_i16,
    dec_to_ieee, dec_u16, ieee_to_dec, intel_f32, intel_f32_to_bytes, intel_i16, intel_u16,
    intel_u16_to_bytes, le_dword, le_dword_bytes, le_word, le_word_bytes, sgi_mips_f32,
    sgi_mips_f32_to_bytes, sgi_mips_i16, sgi_mips_u16, sgi_mips_u16_to_bytes, signed_as_word,
    signed_word, unsigned_word,
};
use vstd::prelude::*;

verus! {

/// The processor format that wrote a file. It selects the byte layout of every
/// number in the file and carries no other state.
#[derive(Debug, Copy, Clone, PartialEq, Eq, Structural)]
pub enum Processor {
    /// Digital Equipment Corporation: little-endian integers, and floating-point
    /// values with their 16-bit halves in the opposite order and a top byte one
    /// above that of IEEE-754.
    Dec,
    /// Intel: little-endian integers and IEEE-754 values. The format of nearly
    /// all files written today, and the one assumed when none is named.
    Intel,
    /// Silicon Graphics MIPS: big-endian integers and IEEE-754 values.
    SgiMips,
}

/// Why a file could not be read.
#[derive(Debug, Copy, Clone, PartialEq, Eq, Structural)]
pub enum C3dParseError {
    /// The marker byte of the parameter section names no known processor format.
    InvalidFormatMarker,
}

/// Marker byte of a file written in the Intel format.
pub const INTEL_MARKER: u8 = 0x54;

/// Marker byte of a file written in the Dec format.
pub const DEC_MARKER: u8 = 0x55;

/// Marker byte of a file written in the SgiMips format.
pub const SGI_MIPS_MARKER: u8 = 0x56;

/// Index of the marker byte within the first block of the parameter section.
pub const MARKER_INDEX: usize = 3;

impl Processor {
    /// The processor format that a marker byte names, if it names one.
    pub open spec fn spec_from_marker(marker: u8) -> Option<Processor> {
        if marker == INTEL_MARKER {
            Some(Processor::Intel)
        } else if marker == DEC_MARKER {
            Some(Processor::Dec)
        } else if marker == SGI_MIPS_MARKER {
            Some(Processor::SgiMips)
        } else {
            None
        }
    }

    /// What detection makes of the first block of a parameter section: the
    /// format that the marker byte names, or the error when it names none.
    /// No other byte of the block is looked at.
    pub open spec fn spec_from_parameter_start_block(block: Seq<u8>) -> Result<
        Processor,
        C3dParseError,
    > {
        match Self::spec_from_marker(block[MARKER_INDEX as int]) {
            Some(processor) => Ok(processor),
            None => Err(C3dParseError::InvalidFormatMarker),
        }
    }

    /// The unsigned 16-bit integer that two bytes hold in this format:
    /// big-endian for SgiMips, little-endian for the other two.
    pub open spec fn spec_u16(self, bytes: Seq<u8>) -> int {
        match self {
            Processor::Intel => le_word(bytes),
            Processor::Dec => le_word(bytes),
            Processor::SgiMips => be_word(bytes),
        }
    }

    /// The signed 16-bit integer that two bytes hold in this format: the
    /// two's-complement reading of the unsigned one.
    pub open spec fn spec_i16(self, bytes: Seq<u8>) -> int {
        signed_word(self.spec_u16(bytes))
    }

    /// The IEEE-754 bit pattern of the floating-point value that four bytes
    /// hold in this format.
    pub open spec fn spec_f32(self, bytes: Seq<u8>) -> int {
        match self {
            Processor::Intel => le_dword(bytes),
            Processor::Dec => le_dword(dec_to_ieee(bytes)),
            Processor::SgiMips => be_dword(bytes),
        }
    }

    /// The two bytes that hold an unsigned 16-bit integer in this format.
    pub open spec fn spec_u16_to_bytes(self, value: int) -> Seq<u8>
        recommends
            0 <= value < 0x1_0000,
    {
        match self {
            Processor::Intel => le_word_bytes(value),
            Processor::Dec => le_word_bytes(value),
            Processor::SgiMips => be_word_bytes(value),
        }
    }

    /// The two bytes that hold a signed 16-bit integer in this format.
    pub open spec fn spec_i16_to_bytes(self, value: int) -> Seq<u8>
        recommends
            -0x8000 <= value < 0x8000,
    {
        self.spec_u16_to_bytes(unsigned_word(value))
    }

    /// The four bytes that hold, in this format, the floating-point value with
    /// the given IEEE-754 bit pattern.
    pub open spec fn spec_f32_to_bytes(self, bits: int) -> Seq<u8>
        recommends
            0 <= bits < 0x1_0000_0000,
    {
        match self {
            Processor::Intel => le_dword_bytes(bits),
            Processor::Dec => ieee_to_dec(le_dword_bytes(bits)),
            Processor::SgiMips => be_dword_bytes(bits),
        }
    }

    /// The name of this format as shown to a reader.
    pub open spec fn spec_to_string(self) -> Seq<char> {
        match self {
            Processor::Intel => "Intel"@,
            Processor::Dec => "DEC"@,
            Processor::SgiMips => "SGI MIPS"@,
        }
    }

    /// The format assumed when a file names none: Intel.
    pub fn new() -> (processor: Processor)
        ensures
            processor == Processor::Intel,
    {
        Processor::Intel
    }

    /// Detects the processor format from the first block of the parameter
    /// section, of which it reads the marker byte at index 3: `0x54` names
    /// Intel, `0x55` Dec and `0x56` SgiMips. Any other marker byte is an error.
    pub fn from_parameter_start_block(parameter_start_block: [u8; 512]) -> (result: Result<
        Processor,
        C3dParseError,
    >)
        ensures
            result == Self::spec_from_parameter_start_block(parameter_start_block@),
            result is Ok <==> 0x54 <= parameter_start_block@[3] <= 0x56,
    {
        let marker: u8 = parameter_start_block[MARKER_INDEX];
        if marker == INTEL_MARKER {
            Ok(Processor::Intel)
        } else if marker == DEC_MARKER {
            Ok(Processor::Dec)
        } else if marker == SGI_MIPS_MARKER {
            Ok(Processor::SgiMips)
        } else {
            Err(C3dParseError::InvalidFormatMarker)
        }
    }

    /// Reads an unsigned 16-bit integer from two bytes laid out in this format.
    pub fn u16(self, bytes: [u8; 2]) -> (value: u16)
        ensures
            value == self.spec_u16(bytes@),
    {
        match self {
            Processor::Intel => intel_u16(bytes),
            Processor::Dec => dec_u16(bytes),
            Processor::SgiMips => sgi_mips_u16(bytes),
        }
    }

    /// Reads a signed 16-bit integer from two bytes laid out in this format.
    pub fn i16(self, bytes: [u8; 2]) -> (value: i16)
        ensures
            value == self.spec_i16(bytes@),
    {
        match self {
            Processor::Intel => intel_i16(bytes),
            Processor::Dec => dec_i16(bytes),
            Processor::SgiMips => sgi_mips_i16(bytes),
        }
    }

    /// Reads a floating-point value from four bytes laid out in this format,
    /// and returns its IEEE-754 single-precision bit pattern.
    pub fn f32_bits(self, bytes: [u8; 4]) -> (bits: u32)
        ensures
            bits == self.spec_f32(bytes@),
    {
        match self {
            Processor::Intel => intel_f32(bytes),
            Processor::Dec => dec_f32(bytes),
            Processor::SgiMips => sgi_mips_f32(bytes),
        }
    }

    /// Writes an unsigned 16-bit integer as two bytes laid out in this format.
    pub fn u16_to_bytes(self, value: u16) -> (bytes: [u8; 2])
        ensures
            bytes@ == self.spec_u16_to_bytes(value as int),
    {
        match self {
            Processor::Intel => intel_u16_to_bytes(value),
            Processor::Dec => intel_u16_to_bytes(value),
            Processor::SgiMips => sgi_mips_u16_to_bytes(value),
        }
    }

    /// Writes a signed 16-bit integer as two bytes laid out in this format.
    pub fn i16_to_bytes(self, value: i16) -> (bytes: [u8; 2])
        ensures
            bytes@ == self.spec_i16_to_bytes(value as int),
    {
        self.u16_to_bytes(signed_as_word(value))
    }

    /// Writes the floating-point value with the given IEEE-754
    /// single-precision bit pattern as four bytes laid out in this format.
    pub fn f32_to_bytes(self, bits: u32) -> (bytes: [u8; 4])
        ensures
            bytes@ == self.spec_f32_to_bytes(bits as int),
    {
        match self {
            Processor::Intel => intel_f32_to_bytes(bits),
            Processor::Dec => dec_f32_to_bytes(bits),
            Processor::SgiMips => sgi_mips_f32_to_bytes(bits),
        }
    }

    /// The name of this format as shown to a reader: "Intel", "DEC" or
    /// "SGI MIPS".
    pub fn to_string(&self) -> (label: String)
        ensures
            label@ == self.spec_to_string(),
    {
        match self {
            Processor::Intel => "Intel",
            Processor::Dec => "DEC",
            Processor::SgiMips => "SGI MIPS",
        }.to_string()
    }
}

impl Default for Processor {
    /// The format assumed when a file names none: Intel.
    fn default() -> (processor: Processor)
        ensures
            processor == Processor::Intel,
    {
        Processor::Intel
    }
}

} // verus!
