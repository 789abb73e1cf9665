//! The picture processing unit: its register file, name-table VRAM, palette
//! RAM, object attribute memory (OAM), and the scanline/dot counter that
//! raises the vertical-blank interrupt.
//!
//! The address ($2006) and scroll ($2005) ports are two-write registers that
//! share a single write latch, modeled as one boolean that toggles on each
//! write and resets on a status read. Data-port reads of pattern and
//! name-table space are buffered: a read returns the previous buffer and
//! latches the fresh byte.

use vstd::prelude::*;
use crate::bits::lemma_mask_bounds;
use crate::bits::lemma_vram_mirror_range;
use crate::errors::EmuError;
use crate::rom::Mirroring;
use crate::two_write_reg::word_of;

verus! {

/// Plain-value view of the PPU.
#[verifier::ext_equal]
pub ghost struct PpuV {
    pub chr_rom: Seq<u8>,
    pub palette_table: Seq<u8>,
    pub vram: Seq<u8>,
    pub oam_data: Seq<u8>,
    pub mirroring: Mirroring,
    pub addr_hi: u8,
    pub addr_lo: u8,
    pub ctrl: u8,
    pub mask: u8,
    pub stat: u8,
    pub oam_addr: u8,
    pub scroll_x: u8,
    pub scroll_y: u8,
    pub data_buf: u8,
    pub addr_latch: bool,
    pub cycles: u16,
    pub scanlines: u16,
    pub nmi_interrupt: bool,
}

/// A well-formed PPU: the fixed memories have their hardware sizes and the
/// counters sit inside one frame.
pub open spec fn ppu_wf(p: PpuV) -> bool {
    &&& p.vram.len() == 0x800
    &&& p.palette_table.len() == 0x20
    &&& p.oam_data.len() == 0x100
    &&& p.cycles <= 340
    &&& p.scanlines <= 261
}

/// Physical index into the 2 KiB name-table RAM for a VRAM address in
/// $2000-$3EFF (mirrored down into $2000-$2FFF first). Horizontal mirroring
/// pairs logical tables 0,1 on the first physical table and 2,3 on the
/// second; vertical pairs 0,2 and 1,3; four-screen is treated as identity
/// over the 2 KiB.
pub open spec fn mirror_vram_s(m: Mirroring, addr: u16) -> int {
    let idx = (addr & 0x2FFF) - 0x2000;
    let table = idx / 0x400;
    if m == Mirroring::HORIZONTAL {
        if table == 1 || table == 2 {
            idx - 0x400
        } else if table == 3 {
            idx - 0x800
        } else {
            idx
        }
    } else {
        if table >= 2 {
            idx - 0x800
        } else {
            idx
        }
    }
}

/// Index into the 32-byte palette RAM for a VRAM address in $3F00-$3FFF:
/// mirrored every 32 bytes, with $3F10/$14/$18/$1C aliased down to
/// $3F00/$04/$08/$0C.
pub open spec fn palette_index_s(addr: u16) -> int {
    if addr == 0x3F10 || addr == 0x3F14 || addr == 0x3F18 || addr == 0x3F1C {
        ((((addr - 0x10) as u16) & 0x001F)) as int
    } else {
        (addr & 0x001F) as int
    }
}

/// A status read: returns the whole status byte, clears the vblank bit and
/// resets the shared write latch.
pub open spec fn stat_read_s(p: PpuV) -> (PpuV, u8) {
    (PpuV { stat: (p.stat & 0x7F) as u8, addr_latch: false, ..p }, p.stat)
}

/// A control write: besides storing the byte, a 0-to-1 transition of the
/// NMI-enable bit while vblank is set raises the NMI line.
pub open spec fn ctrl_write_s(p: PpuV, val: u8) -> PpuV {
    let rising = (p.ctrl & 0x80) == 0 && (val & 0x80) != 0;
    PpuV {
        ctrl: val,
        nmi_interrupt: p.nmi_interrupt || (rising && (p.stat & 0x80) != 0),
        ..p
    }
}

/// An address-port write: the first write (latch clear) sets the high byte,
/// the second the low byte.
pub open spec fn addr_write_s(p: PpuV, val: u8) -> PpuV {
    if p.addr_latch {
        PpuV { addr_lo: val, addr_latch: false, ..p }
    } else {
        PpuV { addr_hi: val, addr_latch: true, ..p }
    }
}

/// A scroll-port write: the first write (latch clear) sets the X scroll, the
/// second the Y scroll.
pub open spec fn scroll_write_s(p: PpuV, val: u8) -> PpuV {
    if p.addr_latch {
        PpuV { scroll_y: val, addr_latch: false, ..p }
    } else {
        PpuV { scroll_x: val, addr_latch: true, ..p }
    }
}

/// Advancing the VRAM pointer after a data-port access: by 32 when control
/// bit 2 is set, else by 1, wrapping modulo 65536.
pub open spec fn inc_addr_s(p: PpuV) -> PpuV {
    let step: u16 = if p.ctrl & 0x04 != 0 { 32 } else { 1 };
    let w = ((word_of(p.addr_hi, p.addr_lo) + step) % 0x10000) as u16;
    PpuV { addr_hi: (w >> 8) as u8, addr_lo: (w & 0x00FF) as u8, ..p }
}

/// A data-port read: the pointer advances either way; pattern and name-table
/// reads are buffered, palette reads are direct, and $3000-$3EFF or
/// anything past $3FFF (or past the end of character ROM) faults.
pub open spec fn data_read_s(p: PpuV) -> Result<(PpuV, u8), EmuError> {
    let addr = word_of(p.addr_hi, p.addr_lo);
    let p1 = inc_addr_s(p);
    if addr < 0x2000 {
        if addr < p.chr_rom.len() {
            Ok((PpuV { data_buf: p.chr_rom[addr as int], ..p1 }, p.data_buf))
        } else {
            Err(EmuError::ForbiddenVramRead(addr))
        }
    } else if addr <= 0x2FFF {
        Ok((PpuV { data_buf: p.vram[mirror_vram_s(p.mirroring, addr)], ..p1 }, p.data_buf))
    } else if addr <= 0x3EFF {
        Err(EmuError::ForbiddenVramRead(addr))
    } else if addr <= 0x3FFF {
        Ok((p1, p.palette_table[palette_index_s(addr)]))
    } else {
        Err(EmuError::ForbiddenVramRead(addr))
    }
}

/// A data-port write: pattern space is read-only and the write is dropped;
/// name-table and palette writes land through their mirrors; $3000-$3EFF or
/// anything past $3FFF faults, before the pointer would advance.
pub open spec fn data_write_s(p: PpuV, val: u8) -> Result<PpuV, EmuError> {
    let addr = word_of(p.addr_hi, p.addr_lo);
    if addr < 0x2000 {
        Ok(inc_addr_s(p))
    } else if addr <= 0x2FFF {
        Ok(inc_addr_s(PpuV { vram: p.vram.update(mirror_vram_s(p.mirroring, addr), val), ..p }))
    } else if addr <= 0x3EFF {
        Err(EmuError::ForbiddenVramWrite(addr))
    } else if addr <= 0x3FFF {
        Ok(inc_addr_s(PpuV { palette_table: p.palette_table.update(palette_index_s(addr), val), ..p }))
    } else {
        Err(EmuError::ForbiddenVramWrite(addr))
    }
}

/// An OAM data write: stores at the OAM cursor and post-increments it,
/// wrapping modulo 256.
pub open spec fn oam_write_s(p: PpuV, val: u8) -> PpuV {
    PpuV {
        oam_data: p.oam_data.update(p.oam_addr as int, val),
        oam_addr: if p.oam_addr == 0xFF { 0u8 } else { (p.oam_addr + 1) as u8 },
        ..p
    }
}

/// The OAM contents after a DMA burst that started at cursor `start`:
/// byte `i` of the page lands at `(start + i) mod 256`.
pub open spec fn oam_after_dma(start: u8, data: Seq<u8>) -> Seq<u8> {
    Seq::new(256, |j: int| if j >= start { data[j - start] } else { data[j - start + 256] })
}

/// One PPU dot: the dot counter advances; sprite-0-hit is set whenever
/// sprites are shown and the beam sits on the sprite-0 scanline at or past
/// its X position; at the end of a scanline the scanline counter advances;
/// reaching scanline 241 sets vblank and, when enabled, raises NMI; passing
/// scanline 261 wraps to a new frame, clearing vblank, sprite-0-hit and the
/// NMI line. The flag is true when the frame boundary was crossed.
pub open spec fn dot_s(p: PpuV) -> (PpuV, bool) {
    let d = (p.cycles + 1) as u16;
    let hit = (p.mask & 0x10) != 0 && p.scanlines == p.oam_data[0] && d >= p.oam_data[3];
    let st: u8 = if hit { p.stat | 0x40 } else { p.stat };
    if d >= 341 {
        let sl = (p.scanlines + 1) as u16;
        if sl == 241 {
            (
                PpuV {
                    cycles: 0,
                    scanlines: 241,
                    stat: (st | 0x80) as u8,
                    nmi_interrupt: p.nmi_interrupt || (p.ctrl & 0x80) != 0,
                    ..p
                },
                false,
            )
        } else if sl >= 262 {
            (PpuV { cycles: 0, scanlines: 0, stat: (st & 0x3F) as u8, nmi_interrupt: false, ..p }, true)
        } else {
            (PpuV { cycles: 0, scanlines: sl, stat: st, ..p }, false)
        }
    } else {
        (PpuV { cycles: d, stat: st, ..p }, false)
    }
}

/// `n` dots in sequence; the flag is true when any of them crossed a frame
/// boundary.
pub open spec fn tick_n_s(p: PpuV, n: nat) -> (PpuV, bool)
    decreases n,
{
    if n == 0 {
        (p, false)
    } else {
        let first = dot_s(p);
        let rest = tick_n_s(first.0, (n - 1) as nat);
        (rest.0, first.1 || rest.1)
    }
}

/// `tick_n_s` runs its last dot after the first `n`.
pub proof fn lemma_tick_n_snoc(p: PpuV, n: nat)
    ensures
        tick_n_s(p, n + 1).0 == dot_s(tick_n_s(p, n).0).0,
        tick_n_s(p, n + 1).1 == (tick_n_s(p, n).1 || dot_s(tick_n_s(p, n).0).1),
    decreases n,
{
    let first = dot_s(p);
    assert(tick_n_s(p, n + 1) == (tick_n_s(first.0, n).0, first.1 || tick_n_s(first.0, n).1));
    if n > 0 {
        lemma_tick_n_snoc(first.0, (n - 1) as nat);
        assert(tick_n_s(p, n) == (tick_n_s(first.0, (n - 1) as nat).0, first.1 || tick_n_s(
            first.0,
            (n - 1) as nat,
        ).1));
    }
}

/// Dots compose: running `a + b` dots is running `a`, then `b`.
pub proof fn lemma_tick_n_add(p: PpuV, a: nat, b: nat)
    ensures
        tick_n_s(p, a + b).0 == tick_n_s(tick_n_s(p, a).0, b).0,
    decreases a,
{
    if a > 0 {
        lemma_tick_n_add(dot_s(p).0, (a - 1) as nat, b);
    }
}

/// An OAM DMA burst: the 256 bytes land in OAM starting at the cursor, and
/// the PPU advances by the 513 or 514 dots the transfer occupies.
pub open spec fn dma_s(p: PpuV, data: Seq<u8>) -> PpuV {
    let p1 = PpuV { oam_data: oam_after_dma(p.oam_addr, data), ..p };
    let p2 = tick_n_s(p1, 255).0;
    let p3 = tick_n_s(p2, 255).0;
    tick_n_s(p3, (3 + p3.cycles % 2) as nat).0
}

pub struct PPU {
    pub chr_rom: Vec<u8>,
    pub palette_table: Vec<u8>,
    pub vram: Vec<u8>,
    pub oam_data: Vec<u8>,
    pub mirroring: Mirroring,
    pub addr_hi: u8,
    pub addr_lo: u8,
    pub ctrl: u8,
    pub mask: u8,
    pub stat: u8,
    pub oam_addr: u8,
    pub scroll_x: u8,
    pub scroll_y: u8,
    pub data_buf: u8,
    pub addr_latch: bool,
    pub cycles: u16,
    pub scanlines: u16,
    pub nmi_interrupt: bool,
}

impl View for PPU {
    type V = PpuV;

    open spec fn view(&self) -> PpuV {
        PpuV {
            chr_rom: self.chr_rom@,
            palette_table: self.palette_table@,
            vram: self.vram@,
            oam_data: self.oam_data@,
            mirroring: self.mirroring,
            addr_hi: self.addr_hi,
            addr_lo: self.addr_lo,
            ctrl: self.ctrl,
            mask: self.mask,
            stat: self.stat,
            oam_addr: self.oam_addr,
            scroll_x: self.scroll_x,
            scroll_y: self.scroll_y,
            data_buf: self.data_buf,
            addr_latch: self.addr_latch,
            cycles: self.cycles,
            scanlines: self.scanlines,
            nmi_interrupt: self.nmi_interrupt,
        }
    }
}

/// The PPU state at power-up over the given character ROM: zeroed memories
/// and registers, with the boot offset of 21 dots already on the dot
/// counter.
pub open spec fn ppu_initial(chr_rom: Seq<u8>, mirroring: Mirroring) -> PpuV {
    PpuV {
        chr_rom: chr_rom,
        palette_table: Seq::new(0x20, |i: int| 0u8),
        vram: Seq::new(0x800, |i: int| 0u8),
        oam_data: Seq::new(0x100, |i: int| 0u8),
        mirroring: mirroring,
        addr_hi: 0u8,
        addr_lo: 0u8,
        ctrl: 0u8,
        mask: 0u8,
        stat: 0u8,
        oam_addr: 0u8,
        scroll_x: 0u8,
        scroll_y: 0u8,
        data_buf: 0u8,
        addr_latch: false,
        cycles: 21u16,
        scanlines: 0u16,
        nmi_interrupt: false,
    }
}

/// A vector of `n` copies of `v`.
pub fn filled_vec(n: usize, v: u8) -> (r: Vec<u8>)
    ensures
        r@ == Seq::new(n as nat, |i: int| v),
{
    let mut out: Vec<u8> = Vec::new();
    let mut i: usize = 0;
    while i < n
        invariant
            i <= n,
            out@ == Seq::new(i as nat, |k: int| v),
        decreases n - i,
    {
        out.push(v);
        proof {
            assert(out@ =~= Seq::new((i + 1) as nat, |k: int| v));
        }
        i = i + 1;
    }
    out
}

impl PPU {
    pub open spec fn wf(&self) -> bool {
        ppu_wf(self@)
    }

    /// A PPU at power-up: zeroed memories and registers, the boot offset of
    /// 21 dots already on the dot counter.
    pub fn new(chr_rom: Vec<u8>, mirroring: Mirroring) -> (r: Self)
        ensures
            r.wf(),
            r@ == ppu_initial(chr_rom@, mirroring),
    {
        PPU {
            chr_rom,
            palette_table: filled_vec(0x20, 0),
            vram: filled_vec(0x800, 0),
            oam_data: filled_vec(0x100, 0),
            mirroring,
            addr_hi: 0,
            addr_lo: 0,
            ctrl: 0,
            mask: 0,
            stat: 0,
            oam_addr: 0,
            scroll_x: 0,
            scroll_y: 0,
            data_buf: 0,
            addr_latch: false,
            cycles: 21,
            scanlines: 0,
            nmi_interrupt: false,
        }
    }

    /// One dot of PPU time.
    fn tick_dot(&mut self) -> (frame: bool)
        requires
            old(self).wf(),
        ensures
            final(self).wf(),
            (final(self)@, frame) == dot_s(old(self)@),
    {
        let d = self.cycles + 1;
        let hit = (self.mask & 0x10) != 0 && self.scanlines == self.oam_data[0] as u16 && d
            >= self.oam_data[3] as u16;
        if hit {
            self.stat = self.stat | 0x40;
        }
        if d >= 341 {
            let sl = self.scanlines + 1;
            self.cycles = 0;
            if sl == 241 {
                self.scanlines = 241;
                self.stat = self.stat | 0x80;
                if self.ctrl & 0x80 != 0 {
                    self.nmi_interrupt = true;
                }
                false
            } else if sl >= 262 {
                self.scanlines = 0;
                self.stat = self.stat & 0x3F;
                self.nmi_interrupt = false;
                true
            } else {
                self.scanlines = sl;
                false
            }
        } else {
            self.cycles = d;
            false
        }
    }

    /// Advances the PPU by `cycles` dots; true when a frame boundary was
    /// crossed.
    pub fn tick(&mut self, cycles: u8) -> (frame: bool)
        requires
            old(self).wf(),
        ensures
            final(self).wf(),
            (final(self)@, frame) == tick_n_s(old(self)@, cycles as nat),
    {
        let mut i: u8 = 0;
        let mut frame = false;
        while i < cycles
            invariant
                self.wf(),
                i <= cycles,
                (self@, frame) == tick_n_s(old(self)@, i as nat),
            decreases cycles - i,
        {
            proof {
                lemma_tick_n_snoc(old(self)@, i as nat);
            }
            let f = self.tick_dot();
            frame = frame || f;
            i = i + 1;
        }
        frame
    }

    /// Writes one byte of the VRAM pointer through the shared latch: high
    /// byte first, then low.
    pub fn addr_write(&mut self, val: u8)
        requires
            old(self).wf(),
        ensures
            final(self).wf(),
            final(self)@ == addr_write_s(old(self)@, val),
    {
        if self.addr_latch {
            self.addr_lo = val;
        } else {
            self.addr_hi = val;
        }
        self.addr_latch = !self.addr_latch;
    }

    /// Stores the control register; a 0-to-1 transition of the NMI-enable
    /// bit during vblank raises NMI at once.
    pub fn ctrl_write(&mut self, val: u8)
        requires
            old(self).wf(),
        ensures
            final(self).wf(),
            final(self)@ == ctrl_write_s(old(self)@, val),
    {
        let prev_nmi_stat = self.ctrl & 0x80 != 0;
        self.ctrl = val;
        if !prev_nmi_stat && self.ctrl & 0x80 != 0 && self.stat & 0x80 != 0 {
            self.nmi_interrupt = true;
        }
    }

    pub fn mask_write(&mut self, val: u8)
        requires
            old(self).wf(),
        ensures
            final(self).wf(),
            final(self)@ == (PpuV { mask: val, ..old(self)@ }),
    {
        self.mask = val;
    }

    /// Reads the status register: the returned bit 7 is the vblank state
    /// before the read; the read clears vblank and resets the write latch.
    pub fn stat_read(&mut self) -> (r: u8)
        requires
            old(self).wf(),
        ensures
            final(self).wf(),
            (final(self)@, r) == stat_read_s(old(self)@),
    {
        let res = self.stat;
        self.stat = self.stat & 0x7F;
        self.addr_latch = false;
        res
    }

    pub fn oam_addr_write(&mut self, val: u8)
        requires
            old(self).wf(),
        ensures
            final(self).wf(),
            final(self)@ == (PpuV { oam_addr: val, ..old(self)@ }),
    {
        self.oam_addr = val;
    }

    /// Writes OAM at the cursor and post-increments it.
    pub fn oam_write(&mut self, val: u8)
        requires
            old(self).wf(),
        ensures
            final(self).wf(),
            final(self)@ == oam_write_s(old(self)@, val),
    {
        self.oam_data[self.oam_addr as usize] = val;
        self.oam_addr = self.oam_addr.wrapping_add(1);
    }

    pub fn oam_read(&self) -> (r: u8)
        requires
            self.wf(),
        ensures
            r == self@.oam_data[self@.oam_addr as int],
    {
        self.oam_data[self.oam_addr as usize]
    }

    /// Receives one DMA page: `data[i]` lands at OAM cursor plus `i`,
    /// wrapping modulo 256, and the PPU advances by the dots the transfer
    /// occupies.
    pub fn write_oam_dma(&mut self, data: &Vec<u8>)
        requires
            old(self).wf(),
            data@.len() == 256,
        ensures
            final(self).wf(),
            final(self)@ == dma_s(old(self)@, data@),
    {
        let start = self.oam_addr;
        let mut i: usize = 0;
        while i < 256
            invariant
                self.wf(),
                i <= 256,
                data@.len() == 256,
                start == old(self)@.oam_addr,
                self@ == (PpuV { oam_data: self@.oam_data, ..old(self)@ }),
                forall|j: int| 0 <= j < 256 && dma_src(j, start) < i ==> self@.oam_data[j]
                    == data@[dma_src(j, start)],
                forall|j: int| 0 <= j < 256 && dma_src(j, start) >= i ==> self@.oam_data[j]
                    == old(self)@.oam_data[j],
            decreases 256 - i,
    {
            let dst = start.wrapping_add(i as u8);
            self.oam_data[dst as usize] = data[i];
            proof {
                assert(dma_src(dst as int, start) == i as int);
            }
            i = i + 1;
        }
        proof {
            assert(self@.oam_data =~= oam_after_dma(start, data@));
            assert(self@ =~= (PpuV { oam_data: oam_after_dma(start, data@), ..old(self)@ }));
        }
        self.tick(255);
        self.tick(255);
        let parity = (self.cycles % 2) as u8;
        self.tick(3 + parity);
    }

    /// Writes one byte of the scroll origin through the shared latch: X
    /// first, then Y.
    pub fn scroll_write(&mut self, val: u8)
        requires
            old(self).wf(),
        ensures
            final(self).wf(),
            final(self)@ == scroll_write_s(old(self)@, val),
    {
        if self.addr_latch {
            self.scroll_y = val;
        } else {
            self.scroll_x = val;
        }
        self.addr_latch = !self.addr_latch;
    }

    /// Advances the VRAM pointer by the step the control register selects.
    fn inc_vram_addr(&mut self)
        requires
            old(self).wf(),
        ensures
            final(self).wf(),
            final(self)@ == inc_addr_s(old(self)@),
    {
        let step: u16 = if self.ctrl & 0x04 != 0 { 32 } else { 1 };
        let w = (((self.addr_hi as u16) << 8) | (self.addr_lo as u16)).wrapping_add(step);
        proof {
            lemma_addr_split(w);
        }
        self.addr_hi = (w >> 8) as u8;
        self.addr_lo = (w & 0x00FF) as u8;
    }

    /// Reads the data port at the current VRAM pointer.
    pub fn read(&mut self) -> (r: Result<u8, EmuError>)
        requires
            old(self).wf(),
        ensures
            final(self).wf(),
            match data_read_s(old(self)@) {
                Ok(pv) => r == Ok::<u8, EmuError>(pv.1) && final(self)@ == pv.0,
                Err(e) => r == Err::<u8, EmuError>(e) && final(self)@ == inc_addr_s(old(self)@),
            },
    {
        let addr = ((self.addr_hi as u16) << 8) | (self.addr_lo as u16);
        self.inc_vram_addr();
        if addr < 0x2000 {
            if (addr as usize) < self.chr_rom.len() {
                let res = self.data_buf;
                self.data_buf = self.chr_rom[addr as usize];
                Ok(res)
            } else {
                Err(EmuError::ForbiddenVramRead(addr))
            }
        } else if addr <= 0x2FFF {
            let res = self.data_buf;
            let idx = self.mirror_vram_addr(addr);
            self.data_buf = self.vram[idx as usize];
            Ok(res)
        } else if addr <= 0x3EFF {
            Err(EmuError::ForbiddenVramRead(addr))
        } else if addr <= 0x3FFF {
            let idx = palette_index(addr);
            Ok(self.palette_table[idx])
        } else {
            Err(EmuError::ForbiddenVramRead(addr))
        }
    }

    /// Writes the data port at the current VRAM pointer.
    pub fn write(&mut self, data: u8) -> (r: Result<(), EmuError>)
        requires
            old(self).wf(),
        ensures
            final(self).wf(),
            match data_write_s(old(self)@, data) {
                Ok(p) => r == Ok::<(), EmuError>(()) && final(self)@ == p,
                Err(e) => r == Err::<(), EmuError>(e) && final(self)@ == old(self)@,
            },
    {
        let addr = ((self.addr_hi as u16) << 8) | (self.addr_lo as u16);
        if addr < 0x2000 {
            // pattern space is read-only here: the write is dropped
        } else if addr <= 0x2FFF {
            let idx = self.mirror_vram_addr(addr);
            self.vram[idx as usize] = data;
        } else if addr <= 0x3EFF {
            return Err(EmuError::ForbiddenVramWrite(addr));
        } else if addr <= 0x3FFF {
            let idx = palette_index(addr);
            self.palette_table[idx] = data;
        } else {
            return Err(EmuError::ForbiddenVramWrite(addr));
        }
        self.inc_vram_addr();
        Ok(())
    }

    /// Maps a name-table address to its physical byte under the current
    /// mirroring mode.
    pub fn mirror_vram_addr(&self, addr: u16) -> (r: u16)
        requires
            0x2000 <= addr <= 0x3FFF,
        ensures
            r == mirror_vram_s(self@.mirroring, addr),
            r < 0x800,
    {
        proof {
            lemma_vram_mirror_range(addr);
        }
        let mirrored_vram = addr & 0x2FFF;
        let vram_idx = mirrored_vram - 0x2000;
        let name_table = vram_idx / 0x400;
        match self.mirroring {
            Mirroring::HORIZONTAL => {
                if name_table == 1 || name_table == 2 {
                    vram_idx - 0x400
                } else if name_table == 3 {
                    vram_idx - 0x800
                } else {
                    vram_idx
                }
            },
            _ => {
                if name_table >= 2 {
                    vram_idx - 0x800
                } else {
                    vram_idx
                }
            },
        }
    }
}

/// The index into palette RAM for an address in $3F00-$3FFF.
fn palette_index(addr: u16) -> (r: usize)
    requires
        0x3F00 <= addr <= 0x3FFF,
    ensures
        r == palette_index_s(addr),
        r < 0x20,
{
    proof {
        lemma_mask_bounds(addr);
        lemma_mask_bounds((addr - 0x10) as u16);
    }
    if addr == 0x3F10 || addr == 0x3F14 || addr == 0x3F18 || addr == 0x3F1C {
        ((addr - 0x10) & 0x001F) as usize
    } else {
        (addr & 0x001F) as usize
    }
}

/// Which DMA source byte lands at OAM index `j` when the burst starts at
/// `start`.
pub open spec fn dma_src(j: int, start: u8) -> int {
    if j >= start {
        j - start
    } else {
        j - start + 256
    }
}

proof fn lemma_addr_split(w: u16)
    by (bit_vector)
    ensures
        w >> 8 < 256,
        w & 0x00FF < 256,
        word_of((w >> 8) as u8, (w & 0x00FF) as u8) == w,
{
}

/// The returned status byte carries the vblank state in bit 7, and a second
/// status read right after the first reports vblank clear.
pub proof fn lemma_stat_read_clears_vblank(p: PpuV)
    ensures
        stat_read_s(p).1 == p.stat,
        stat_read_s(stat_read_s(p).0).1 & 0x80 == 0,
{
    assert(forall|s: u8| ((s & 0x7F) & 0x80) == 0) by (bit_vector);
}

/// A status read, two address writes and a data read: the data read returns
/// the old buffer contents, not the byte at the new address, except in
/// palette space where the read is direct.
pub proof fn lemma_buffered_read(p: PpuV, hi: u8, lo: u8)
    requires
        ppu_wf(p),
    ensures
        ({
            let q = addr_write_s(addr_write_s(stat_read_s(p).0, hi), lo);
            let addr = word_of(hi, lo);
            &&& (addr < 0x2000 && addr < p.chr_rom.len() ==> data_read_s(q)
                == Ok::<(PpuV, u8), EmuError>((PpuV { data_buf: p.chr_rom[addr as int], ..inc_addr_s(q) }, p.data_buf)))
            &&& (0x2000 <= addr <= 0x2FFF ==> data_read_s(q)
                == Ok::<(PpuV, u8), EmuError>((
                    PpuV { data_buf: p.vram[mirror_vram_s(p.mirroring, addr)], ..inc_addr_s(q) },
                    p.data_buf,
                )))
            &&& (0x3F00 <= addr <= 0x3FFF ==> data_read_s(q)
                == Ok::<(PpuV, u8), EmuError>((inc_addr_s(q), p.palette_table[palette_index_s(addr)])))
        }),
{
}

/// The name-table mirror map realizes the documented equivalence classes:
/// under vertical mirroring logical tables 0,2 and 1,3 coincide; under
/// horizontal mirroring 0,1 and 2,3 coincide; and every address lands
/// inside the 2 KiB of physical RAM at its offset within the table.
pub proof fn lemma_mirror_classes(m: Mirroring, addr: u16)
    requires
        0x2000 <= addr < 0x3000,
    ensures
        0 <= mirror_vram_s(m, addr) < 0x800,
        m == Mirroring::VERTICAL ==> mirror_vram_s(m, addr) == (addr - 0x2000) % 0x800,
        m == Mirroring::HORIZONTAL ==> mirror_vram_s(m, addr) == (if (addr - 0x2000) / 0x400 >= 2 {
            0x400int
        } else {
            0int
        }) + (addr - 0x2000) % 0x400,
        m == Mirroring::FOUR_SCREEN ==> mirror_vram_s(m, addr) == (addr - 0x2000) % 0x800,
{
    assert(addr & 0x2FFF == addr) by (bit_vector)
        requires
            0x2000 <= addr < 0x3000,
    ;
    let idx = addr - 0x2000;
    assert(0 <= idx < 0x1000);
    assert(idx % 0x800 == if idx < 0x800 { idx } else { idx - 0x800 });
    assert(idx % 0x400 == idx - (idx / 0x400) * 0x400);
}

} // verus!
