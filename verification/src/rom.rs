//! Cartridge images in the version-1 header format: four magic bytes, the
//! program and character ROM sizes in 16 KiB and 8 KiB units, a flag byte
//! holding the mirroring mode, an optional 512-byte trainer, and the two ROM
//! banks themselves. Only memory mapper 0 is supported, with a program ROM
//! of 16 KiB or 32 KiB.

use vstd::prelude::*;
use crate::errors::RomError;

verus! {

/// How the two physical 1 KiB name tables are shared among the four logical
/// ones.
#[allow(non_camel_case_types)]
#[derive(Clone, Copy, Debug, PartialEq, Eq, Structural)]
pub enum Mirroring {
    VERTICAL,
    HORIZONTAL,
    FOUR_SCREEN,
}

/// Header length in bytes.
pub const HEADER_LEN: usize = 16;

/// Trainer length in bytes, present when header bit 2 of byte 6 is set.
pub const TRAINER_LEN: usize = 512;

/// Size of one program ROM page.
pub const PRG_ROM_PAGE_SIZE: usize = 0x4000;

/// Size of one character ROM page.
pub const CHR_ROM_PAGE_SIZE: usize = 0x2000;

/// The mapper id declared by a header: high nibble of byte 7 joined with the
/// high nibble of byte 6.
pub open spec fn header_mapper(raw: Seq<u8>) -> u8 {
    (raw[7] & 0xF0) | (raw[6] >> 4)
}

/// The mirroring mode declared by a header.
pub open spec fn header_mirroring(raw: Seq<u8>) -> Mirroring {
    if raw[6] & 0x08 != 0 {
        Mirroring::FOUR_SCREEN
    } else if raw[6] & 0x01 != 0 {
        Mirroring::VERTICAL
    } else {
        Mirroring::HORIZONTAL
    }
}

/// Where the program ROM starts: after the header, and after the trainer
/// when one is present.
pub open spec fn header_prg_start(raw: Seq<u8>) -> int {
    if raw[6] & 0x04 != 0 {
        HEADER_LEN + TRAINER_LEN
    } else {
        HEADER_LEN as int
    }
}

/// What `Rom::new` returns on `raw`: the error mandated by the first failing
/// header check, or the parsed image.
pub open spec fn parse_rom_s(raw: Seq<u8>) -> Result<RomV, RomError> {
    if raw.len() < HEADER_LEN {
        Err(RomError::Truncated)
    } else if !(raw[0] == 0x4E && raw[1] == 0x45 && raw[2] == 0x53 && raw[3] == 0x1A) {
        Err(RomError::BadMagic)
    } else if (raw[7] >> 2) & 0x03 != 0 {
        Err(RomError::UnsupportedVersion)
    } else if header_mapper(raw) != 0 {
        Err(RomError::UnsupportedMapper(header_mapper(raw)))
    } else if !(raw[4] == 1 || raw[4] == 2) {
        Err(RomError::BadPrgSize(raw[4]))
    } else if raw.len() < header_prg_start(raw) + raw[4] * PRG_ROM_PAGE_SIZE + raw[5]
        * CHR_ROM_PAGE_SIZE {
        Err(RomError::Truncated)
    } else {
        let prg_start = header_prg_start(raw);
        let prg_len = raw[4] * PRG_ROM_PAGE_SIZE;
        let chr_len = raw[5] * CHR_ROM_PAGE_SIZE;
        Ok(RomV {
            prg_rom: raw.subrange(prg_start, prg_start + prg_len),
            chr_rom: raw.subrange(prg_start + prg_len, prg_start + prg_len + chr_len),
            mapper: 0,
            mirroring: header_mirroring(raw),
        })
    }
}

/// Plain-value view of a parsed cartridge.
#[verifier::ext_equal]
pub ghost struct RomV {
    pub prg_rom: Seq<u8>,
    pub chr_rom: Seq<u8>,
    pub mapper: u8,
    pub mirroring: Mirroring,
}

pub struct Rom {
    pub prg_rom: Vec<u8>,
    pub chr_rom: Vec<u8>,
    pub mapper: u8,
    pub screen_mirroring: Mirroring,
}

impl View for Rom {
    type V = RomV;

    open spec fn view(&self) -> RomV {
        RomV {
            prg_rom: self.prg_rom@,
            chr_rom: self.chr_rom@,
            mapper: self.mapper,
            mirroring: self.screen_mirroring,
        }
    }
}

impl Rom {
    /// A well-formed image: mapper 0 with a program ROM of one or two pages.
    pub open spec fn wf(&self) -> bool {
        self.prg_rom@.len() == PRG_ROM_PAGE_SIZE || self.prg_rom@.len() == 2 * PRG_ROM_PAGE_SIZE
    }

    /// Parses a raw cartridge file.
    pub fn new(raw: &Vec<u8>) -> (r: Result<Self, RomError>)
        ensures
            match r {
                Ok(rom) => parse_rom_s(raw@) == Ok::<RomV, RomError>(rom@) && rom.wf(),
                Err(e) => parse_rom_s(raw@) == Err::<RomV, RomError>(e),
            },
    {
        if raw.len() < HEADER_LEN {
            return Err(RomError::Truncated);
        }
        if !(raw[0] == 0x4E && raw[1] == 0x45 && raw[2] == 0x53 && raw[3] == 0x1A) {
            return Err(RomError::BadMagic);
        }
        if (raw[7] >> 2) & 0x03 != 0 {
            return Err(RomError::UnsupportedVersion);
        }
        let mapper = (raw[7] & 0xF0) | (raw[6] >> 4);
        if mapper != 0 {
            return Err(RomError::UnsupportedMapper(mapper));
        }
        if !(raw[4] == 1 || raw[4] == 2) {
            return Err(RomError::BadPrgSize(raw[4]));
        }
        let screen_mirroring = if raw[6] & 0x08 != 0 {
            Mirroring::FOUR_SCREEN
        } else if raw[6] & 0x01 != 0 {
            Mirroring::VERTICAL
        } else {
            Mirroring::HORIZONTAL
        };
        let prg_start: usize = if raw[6] & 0x04 != 0 {
            HEADER_LEN + TRAINER_LEN
        } else {
            HEADER_LEN
        };
        let prg_len: usize = (raw[4] as usize) * PRG_ROM_PAGE_SIZE;
        let chr_len: usize = (raw[5] as usize) * CHR_ROM_PAGE_SIZE;
        if raw.len() < prg_start + prg_len + chr_len {
            return Err(RomError::Truncated);
        }
        let prg_rom = copy_range(raw, prg_start, prg_len);
        let chr_rom = copy_range(raw, prg_start + prg_len, chr_len);
        Ok(Rom { prg_rom, chr_rom, mapper, screen_mirroring })
    }
}

/// Copies `len` bytes of `src` starting at `start` into a fresh vector.
fn copy_range(src: &Vec<u8>, start: usize, len: usize) -> (r: Vec<u8>)
    requires
        start + len <= src@.len(),
    ensures
        r@ == src@.subrange(start as int, start + len),
{
    let mut out: Vec<u8> = Vec::new();
    let mut i: usize = 0;
    proof {
        assert(start + len <= src.len());
    }
    while i < len
        invariant
            i <= len,
            start + len <= src.len(),
            out@ == src@.subrange(start as int, start + i),
        decreases len - i,
    {
        out.push(src[start + i]);
        proof {
            assert(out@ =~= src@.subrange(start as int, start + i + 1));
        }
        i = i + 1;
    }
    out
}

} // verus!
