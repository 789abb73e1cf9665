//! Error kinds of the emulator core. Every one of them is fatal to the
//! running cartridge: no recovery is attempted inside the CPU or PPU.

use vstd::prelude::*;

verus! {

/// A fault raised while executing machine code: an opcode missing from the
/// dispatch table, or a bus operation the hardware forbids.
#[derive(Clone, Copy, Debug, PartialEq, Eq, Structural)]
pub enum EmuError {
    /// The fetched opcode byte has no entry in the opcode table.
    UnknownOpcode(u8),
    /// A read of PPU address space $3000-$3EFF or past $3FFF, or of
    /// character ROM beyond its end, through the PPU data port.
    ForbiddenVramRead(u16),
    /// A write to PPU address space $3000-$3EFF or past $3FFF through the
    /// PPU data port.
    ForbiddenVramWrite(u16),
    /// A write to the read-only PPU status register at $2002.
    StatusWrite,
    /// A write into cartridge ROM space $8000-$FFFF.
    RomWrite(u16),
}

/// A defect found while parsing a cartridge image.
#[derive(Clone, Copy, Debug, PartialEq, Eq, Structural)]
pub enum RomError {
    /// The file is shorter than its header, or than the sizes the header
    /// declares.
    Truncated,
    /// The four magic bytes are wrong.
    BadMagic,
    /// The header's version bits ask for the later file format.
    UnsupportedVersion,
    /// The cartridge names a memory mapper other than 0.
    UnsupportedMapper(u8),
    /// The program ROM is neither 16 KiB nor 32 KiB.
    BadPrgSize(u8),
}

} // verus!
