//! Numeric codec for the three processor formats in which a C3D motion-capture
//! file may have been written.
//!
//! A file names its processor format by one marker byte in its parameter
//! section. The format decides how 16-bit integers and 32-bit floating-point
//! values are laid out in the file's bytes.

pub mod layout;
pub mod processor;
pub mod round_trip;

pub use processor::C3dParseError;
pub use processor::Processor;
