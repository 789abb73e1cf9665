//! The memory bus: decodes every 16-bit CPU address to a byte source or
//! sink. 2 KiB of work RAM is mirrored across $0000-$1FFF; the eight PPU
//! registers are mirrored across $2000-$3FFF; $4014 triggers OAM DMA;
//! $4016/$4017 reach the controller ports; $8000-$FFFF is cartridge ROM,
//! with a 16 KiB image mirrored into the upper bank.

use vstd::prelude::*;
use crate::bits::lemma_mask_bounds;
use crate::bits::lemma_reg_mirror_range;
use crate::errors::EmuError;
use crate::input::Controller;
use crate::input::ControllerV;
use crate::input::controller_read_s;
use crate::ppu::PPU;
use crate::ppu::PpuV;
use crate::ppu::ppu_wf;
use crate::ppu::data_read_s;
use crate::ppu::inc_addr_s;
use crate::ppu::data_write_s;
use crate::ppu::stat_read_s;
use crate::ppu::ctrl_write_s;
use crate::ppu::addr_write_s;
use crate::ppu::scroll_write_s;
use crate::ppu::oam_write_s;
use crate::ppu::dma_s;
use crate::ppu::tick_n_s;
use crate::ppu::filled_vec;
use crate::rom::Rom;

verus! {

/// Plain-value view of the bus and everything it owns.
#[verifier::ext_equal]
pub ghost struct BusV {
    pub cpu_vram: Seq<u8>,
    pub prg_rom: Seq<u8>,
    pub ppu: PpuV,
    pub port1: ControllerV,
    pub port2: ControllerV,
}

/// A well-formed bus: 2 KiB of RAM, a 16 or 32 KiB program ROM, and a
/// well-formed PPU.
pub open spec fn bus_wf(b: BusV) -> bool {
    &&& b.cpu_vram.len() == 0x800
    &&& (b.prg_rom.len() == 0x4000 || b.prg_rom.len() == 0x8000)
    &&& ppu_wf(b.ppu)
}

/// The program ROM byte at CPU address `addr` ($8000 and up); a 16 KiB
/// image is mirrored into the upper 16 KiB.
pub open spec fn prg_byte(prg: Seq<u8>, addr: u16) -> u8 {
    let i = addr - 0x8000;
    if prg.len() == 0x4000 && i >= 0x4000 {
        prg[i - 0x4000]
    } else {
        prg[i]
    }
}

/// The 256-byte page of work RAM that an OAM DMA trigger value selects:
/// page `v` is read at `(v * 256) mod 2 KiB`.
pub open spec fn dma_base(v: u8) -> int {
    (((v as u16) << 8) & 0x07FF) as int
}

/// The 256 bytes of work RAM starting at `base`.
pub open spec fn dma_page(ram: Seq<u8>, base: int) -> Seq<u8> {
    Seq::new(256, |i: int| ram[base + i])
}

/// One bus read: the value seen by the CPU, paired with the state after the
/// read (reads of $2002, $2007 and the controller ports have side effects).
pub open spec fn bus_read_s(b: BusV, addr: u16) -> Result<(BusV, u8), EmuError> {
    if addr <= 0x1FFF {
        Ok((b, b.cpu_vram[(addr & 0x07FF) as int]))
    } else if addr <= 0x3FFF {
        let a = addr & 0x2007;
        if a == 0x2002 {
            let pv = stat_read_s(b.ppu);
            Ok((BusV { ppu: pv.0, ..b }, pv.1))
        } else if a == 0x2004 {
            Ok((b, b.ppu.oam_data[b.ppu.oam_addr as int]))
        } else if a == 0x2007 {
            match data_read_s(b.ppu) {
                Ok(pv) => Ok((BusV { ppu: pv.0, ..b }, pv.1)),
                Err(e) => Err(e),
            }
        } else {
            Ok((b, 0))
        }
    } else if addr == 0x4016 {
        let cv = controller_read_s(b.port1);
        Ok((BusV { port1: cv.0, ..b }, cv.1))
    } else if addr == 0x4017 {
        let cv = controller_read_s(b.port2);
        Ok((BusV { port2: cv.0, ..b }, cv.1))
    } else if addr >= 0x8000 {
        Ok((b, prg_byte(b.prg_rom, addr)))
    } else {
        Ok((b, 0))
    }
}

/// One bus write. Writing $2002 or ROM space faults; $4014 performs the
/// whole OAM DMA burst; unmapped space swallows the write.
pub open spec fn bus_write_s(b: BusV, addr: u16, data: u8) -> Result<BusV, EmuError> {
    if addr <= 0x1FFF {
        Ok(BusV { cpu_vram: b.cpu_vram.update((addr & 0x07FF) as int, data), ..b })
    } else if addr <= 0x3FFF {
        let a = addr & 0x2007;
        if a == 0x2000 {
            Ok(BusV { ppu: ctrl_write_s(b.ppu, data), ..b })
        } else if a == 0x2001 {
            Ok(BusV { ppu: PpuV { mask: data, ..b.ppu }, ..b })
        } else if a == 0x2002 {
            Err(EmuError::StatusWrite)
        } else if a == 0x2003 {
            Ok(BusV { ppu: PpuV { oam_addr: data, ..b.ppu }, ..b })
        } else if a == 0x2004 {
            Ok(BusV { ppu: oam_write_s(b.ppu, data), ..b })
        } else if a == 0x2005 {
            Ok(BusV { ppu: scroll_write_s(b.ppu, data), ..b })
        } else if a == 0x2006 {
            Ok(BusV { ppu: addr_write_s(b.ppu, data), ..b })
        } else {
            match data_write_s(b.ppu, data) {
                Ok(p) => Ok(BusV { ppu: p, ..b }),
                Err(e) => Err(e),
            }
        }
    } else if addr == 0x4014 {
        Ok(BusV { ppu: dma_s(b.ppu, dma_page(b.cpu_vram, dma_base(data))), ..b })
    } else if addr == 0x4016 {
        if data & 0x01 != 0 {
            Ok(BusV { port1: ControllerV { shift: 0x80u8, strobe: true, ..b.port1 }, ..b })
        } else {
            Ok(BusV { port1: ControllerV { strobe: false, ..b.port1 }, ..b })
        }
    } else if addr == 0x4017 {
        if data & 0x01 != 0 {
            Ok(BusV { port2: ControllerV { shift: 0x80u8, strobe: true, ..b.port2 }, ..b })
        } else {
            Ok(BusV { port2: ControllerV { strobe: false, ..b.port2 }, ..b })
        }
    } else if addr >= 0x8000 {
        Err(EmuError::RomWrite(addr))
    } else {
        Ok(b)
    }
}

/// The bus state after a faulting read. The only read that can fault is the
/// data port's, which advances the VRAM pointer before the fault is raised;
/// everything else on the bus keeps its value.
pub open spec fn bus_read_err_s(b: BusV) -> BusV {
    BusV { ppu: inc_addr_s(b.ppu), ..b }
}

/// Two bus reads at `addr` and `addr + 1` (wrapping), joined little-endian.
pub open spec fn bus_read16_s(b: BusV, addr: u16) -> Result<(BusV, u16), EmuError> {
    match bus_read_s(b, addr) {
        Ok(lo) => match bus_read_s(lo.0, ((addr + 1) % 0x10000) as u16) {
            Ok(hi) => Ok((hi.0, ((hi.1 as u16) << 8 | (lo.1 as u16)) as u16)),
            Err(e) => Err(e),
        },
        Err(e) => Err(e),
    }
}

pub struct Bus {
    pub cpu_vram: Vec<u8>,
    pub prg_rom: Vec<u8>,
    pub ppu: PPU,
    pub port1: Controller,
    pub port2: Controller,
}

impl View for Bus {
    type V = BusV;

    open spec fn view(&self) -> BusV {
        BusV {
            cpu_vram: self.cpu_vram@,
            prg_rom: self.prg_rom@,
            ppu: self.ppu@,
            port1: self.port1@,
            port2: self.port2@,
        }
    }
}

impl Bus {
    pub open spec fn wf(&self) -> bool {
        bus_wf(self@)
    }

    /// A bus at power-up around a parsed cartridge: zeroed RAM, a fresh PPU
    /// over the cartridge's character ROM and mirroring, idle controllers.
    pub fn new(rom: Rom) -> (r: Self)
        requires
            rom.wf(),
        ensures
            r.wf(),
            r@.prg_rom == rom@.prg_rom,
            r@.cpu_vram == Seq::new(0x800, |i: int| 0u8),
            r@.ppu == crate::ppu::ppu_initial(rom@.chr_rom, rom@.mirroring),
            r@.port1 == (ControllerV { shift: 0x80u8, buttons: 0u8, strobe: false }),
            r@.port2 == (ControllerV { shift: 0x80u8, buttons: 0u8, strobe: false }),
    {
        Bus {
            cpu_vram: filled_vec(0x800, 0),
            ppu: PPU::new(rom.chr_rom, rom.screen_mirroring),
            prg_rom: rom.prg_rom,
            port1: Controller::new(),
            port2: Controller::new(),
        }
    }

    fn read_prg_rom(&self, addr: u16) -> (r: u8)
        requires
            self.wf(),
            addr >= 0x8000,
        ensures
            r == prg_byte(self@.prg_rom, addr),
    {
        let mut a = addr - 0x8000;
        if self.prg_rom.len() == 0x4000 && a >= 0x4000 {
            a = a % 0x4000;
        }
        self.prg_rom[a as usize]
    }

    /// The PPU's NMI line as the CPU sees it.
    pub fn poll_nmi_status(&self) -> (r: bool)
        ensures
            r == self@.ppu.nmi_interrupt,
    {
        self.ppu.nmi_interrupt
    }

    /// Advances the PPU by `cycles` dots.
    pub fn tick(&mut self, cycles: u8)
        requires
            old(self).wf(),
        ensures
            final(self).wf(),
            final(self)@ == (BusV { ppu: tick_n_s(old(self)@.ppu, cycles as nat).0, ..old(self)@ }),
    {
        self.ppu.tick(cycles);
    }

    /// Reads one byte at a CPU address.
    pub fn mem_read(&mut self, addr: u16) -> (r: Result<u8, EmuError>)
        requires
            old(self).wf(),
        ensures
            final(self).wf(),
            match bus_read_s(old(self)@, addr) {
                Ok(bv) => r == Ok::<u8, EmuError>(bv.1) && final(self)@ == bv.0,
                Err(e) => r == Err::<u8, EmuError>(e) && final(self)@ == bus_read_err_s(
                    old(self)@,
                ),
            },
    {
        proof {
            lemma_mask_bounds(addr);
        }
        if addr <= 0x1FFF {
            Ok(self.cpu_vram[(addr & 0x07FF) as usize])
        } else if addr <= 0x3FFF {
            let a = addr & 0x2007;
            if a == 0x2002 {
                Ok(self.ppu.stat_read())
            } else if a == 0x2004 {
                Ok(self.ppu.oam_read())
            } else if a == 0x2007 {
                self.ppu.read()
            } else {
                Ok(0)
            }
        } else if addr == 0x4016 {
            Ok(self.port1.read())
        } else if addr == 0x4017 {
            Ok(self.port2.read())
        } else if addr >= 0x8000 {
            Ok(self.read_prg_rom(addr))
        } else {
            Ok(0)
        }
    }

    /// Writes one byte at a CPU address.
    pub fn mem_write(&mut self, addr: u16, data: u8) -> (r: Result<(), EmuError>)
        requires
            old(self).wf(),
        ensures
            final(self).wf(),
            match bus_write_s(old(self)@, addr, data) {
                Ok(bv) => r == Ok::<(), EmuError>(()) && final(self)@ == bv,
                Err(e) => r == Err::<(), EmuError>(e) && final(self)@ == old(self)@,
            },
    {
        proof {
            lemma_mask_bounds(addr);
        }
        if addr <= 0x1FFF {
            self.cpu_vram[(addr & 0x07FF) as usize] = data;
            Ok(())
        } else if addr <= 0x3FFF {
            let a = addr & 0x2007;
            if a == 0x2000 {
                self.ppu.ctrl_write(data);
                Ok(())
            } else if a == 0x2001 {
                self.ppu.mask_write(data);
                Ok(())
            } else if a == 0x2002 {
                Err(EmuError::StatusWrite)
            } else if a == 0x2003 {
                self.ppu.oam_addr_write(data);
                Ok(())
            } else if a == 0x2004 {
                self.ppu.oam_write(data);
                Ok(())
            } else if a == 0x2005 {
                self.ppu.scroll_write(data);
                Ok(())
            } else if a == 0x2006 {
                self.ppu.addr_write(data);
                Ok(())
            } else {
                proof {
                    lemma_reg_mirror_range(addr);
                }
                match self.ppu.write(data) {
                    Ok(()) => Ok(()),
                    Err(e) => Err(e),
                }
            }
        } else if addr == 0x4014 {
            let base = (((data as u16) << 8) & 0x07FF) as usize;
            proof {
                lemma_dma_base_bound(data);
            }
            let mut page: Vec<u8> = Vec::new();
            let mut i: usize = 0;
            while i < 256
                invariant
                    self == old(self),
                    i <= 256,
                    base == dma_base(data),
                    base + 256 <= 0x800,
                    self.wf(),
                    page@ == dma_page(self@.cpu_vram, base as int).take(i as int),
                decreases 256 - i,
            {
                page.push(self.cpu_vram[base + i]);
                proof {
                    assert(page@ =~= dma_page(self@.cpu_vram, base as int).take(i + 1));
                }
                i = i + 1;
            }
            proof {
                assert(page@ =~= dma_page(self@.cpu_vram, base as int));
            }
            self.ppu.write_oam_dma(&page);
            Ok(())
        } else if addr == 0x4016 {
            if data & 0x01 != 0 {
                self.port1.set_strobe();
            } else {
                self.port1.reset_strobe();
            }
            Ok(())
        } else if addr == 0x4017 {
            if data & 0x01 != 0 {
                self.port2.set_strobe();
            } else {
                self.port2.reset_strobe();
            }
            Ok(())
        } else if addr >= 0x8000 {
            Err(EmuError::RomWrite(addr))
        } else {
            Ok(())
        }
    }

    /// Reads a 16-bit word little-endian from `addr` and `addr + 1`.
    pub fn mem_read16(&mut self, addr: u16) -> (r: Result<u16, EmuError>)
        requires
            old(self).wf(),
        ensures
            final(self).wf(),
            match bus_read16_s(old(self)@, addr) {
                Ok(bv) => r == Ok::<u16, EmuError>(bv.1) && final(self)@ == bv.0,
                Err(e) => r == Err::<u16, EmuError>(e) && final(self)@ == (match bus_read_s(
                    old(self)@,
                    addr,
                ) {
                    Ok(lo) => bus_read_err_s(lo.0),
                    Err(_) => bus_read_err_s(old(self)@),
                }),
            },
    {
        let lo = match self.mem_read(addr) {
            Ok(v) => v,
            Err(e) => {
                return Err(e);
            },
        };
        let hi = match self.mem_read(addr.wrapping_add(1)) {
            Ok(v) => v,
            Err(e) => {
                return Err(e);
            },
        };
        Ok(((hi as u16) << 8) | (lo as u16))
    }

    /// Stores the high byte of `val` at `addr` and the low byte at
    /// `addr + 1`.
    pub fn mem_write16(&mut self, addr: u16, val: u16) -> (r: Result<(), EmuError>)
        requires
            old(self).wf(),
        ensures
            final(self).wf(),
            ({
                let first = bus_write_s(old(self)@, addr, ((val >> 8) as u8));
                match first {
                    Ok(b1) => match bus_write_s(b1, ((addr + 1) % 0x10000) as u16, (val & 0x00FF) as u8) {
                        Ok(b2) => r == Ok::<(), EmuError>(()) && final(self)@ == b2,
                        Err(e) => r == Err::<(), EmuError>(e),
                    },
                    Err(e) => r == Err::<(), EmuError>(e),
                }
            }),
    {
        proof {
            crate::two_write_reg::lemma_word_split(val);
            assert(val >> 8 < 256 && val & 0x00FF < 256) by (bit_vector);
        }
        let lo = (val >> 8) as u8;
        let hi = (val & 0x00FF) as u8;
        match self.mem_write(addr, lo) {
            Ok(()) => {},
            Err(e) => {
                return Err(e);
            },
        }
        match self.mem_write(addr.wrapping_add(1), hi) {
            Ok(()) => {},
            Err(e) => {
                return Err(e);
            },
        }
        Ok(())
    }
}

/// Every path that reads the status register — $2002 or any of its mirrors
/// up to $3FFA — returns a byte whose bit 7 is the vblank state before the
/// read, and a second read through any mirror right after reports vblank
/// clear.
pub proof fn lemma_status_read_paths(b: BusV, addr: u16, addr2: u16)
    requires
        0x2000 <= addr <= 0x3FFF,
        addr & 0x2007 == 0x2002,
        0x2000 <= addr2 <= 0x3FFF,
        addr2 & 0x2007 == 0x2002,
    ensures
        ({
            let first = bus_read_s(b, addr);
            &&& first is Ok
            &&& first->Ok_0.1 & 0x80 == b.ppu.stat & 0x80
            &&& bus_read_s(first->Ok_0.0, addr2) is Ok
            &&& bus_read_s(first->Ok_0.0, addr2)->Ok_0.1 & 0x80 == 0
        }),
{
    crate::ppu::lemma_stat_read_clears_vblank(b.ppu);
}

/// The DMA source page starts at most at $0700, so the whole page sits in
/// work RAM.
proof fn lemma_dma_base_bound(v: u8)
    by (bit_vector)
    ensures
        (((v as u16) << 8) & 0x07FF) + 256 <= 0x800,
{
}

/// After an OAM DMA triggered by writing page `v` to $4014, OAM byte
/// `(cursor + i) mod 256` holds work-RAM byte `(v * 256) mod 2 KiB + i`,
/// for every `i` in the page.
pub proof fn lemma_oam_dma(b: BusV, v: u8, i: int)
    requires
        bus_wf(b),
        0 <= i < 256,
    ensures
        ({
            let after = bus_write_s(b, 0x4014, v);
            let start = b.ppu.oam_addr;
            &&& after is Ok
            &&& after->Ok_0.ppu.oam_data[if start + i < 256 {
                start + i
            } else {
                start + i - 256
            }] == b.cpu_vram[dma_base(v) + i]
        }),
{
    let page = dma_page(b.cpu_vram, dma_base(v));
    let start = b.ppu.oam_addr;
    let j = if start + i < 256 { start + i } else { start + i - 256 };
    assert(crate::ppu::oam_after_dma(start, page)[j] == page[i]);
    lemma_tick_oam_stable();
}

/// Ticking the PPU never changes OAM.
proof fn lemma_tick_oam_stable()
    ensures
        forall|q: PpuV, n: nat| #[trigger] tick_n_s(q, n).0.oam_data == q.oam_data,
{
    assert forall|q: PpuV, n: nat| #[trigger] tick_n_s(q, n).0.oam_data == q.oam_data by {
        lemma_tick_n_oam(q, n);
    }
}

proof fn lemma_tick_n_oam(q: PpuV, n: nat)
    ensures
        tick_n_s(q, n).0.oam_data == q.oam_data,
    decreases n,
{
    if n > 0 {
        lemma_tick_n_oam(crate::ppu::dot_s(q).0, (n - 1) as nat);
    }
}

} // verus!
