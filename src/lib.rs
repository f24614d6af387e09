//! Register file and background pixel decoding of an 8-bit handheld console.
//!
//! `registers` holds the processor's registers and flags, with the 16-bit
//! pairs as views over 8-bit fields; `ppu` decodes tile memory into a frame.

pub mod ppu;
pub mod registers;
