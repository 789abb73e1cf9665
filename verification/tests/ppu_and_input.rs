//! Register-level behavior of the PPU, the OAM DMA path, the name-table
//! mirror map, the controller shift register, the two-write latch register
//! and the cartridge parser.

use nes_core::bus::Bus;
use nes_core::cpu::CPU;
use nes_core::cpu::Mem;
use nes_core::errors::EmuError;
use nes_core::input::Controller;
use nes_core::ppu::PPU;
use nes_core::rom::Mirroring;
use nes_core::errors::RomError;
use nes_core::rom::Rom;
use nes_core::two_write_reg::TwoWriteReg;

fn make_ppu(mirroring: Mirroring) -> PPU {
    PPU::new(vec![0u8; 0x2000], mirroring)
}

fn make_cpu() -> CPU {
    let mut raw = vec![0u8; 16 + 0x4000 + 0x2000];
    raw[0] = 0x4E;
    raw[1] = 0x45;
    raw[2] = 0x53;
    raw[3] = 0x1A;
    raw[4] = 1;
    raw[5] = 1;
    raw[6] = 0x01;
    CPU::new(Bus::new(Rom::new(&raw).unwrap()))
}

#[test]
fn status_read_reports_then_clears_vblank() {
    let mut ppu = make_ppu(Mirroring::VERTICAL);
    ppu.stat = 0xE0;
    let first = ppu.stat_read();
    assert_ne!(first & 0x80, 0);
    let second = ppu.stat_read();
    assert_eq!(second & 0x80, 0);
    assert_ne!(second & 0x40, 0);
}

#[test]
fn data_read_is_buffered() {
    // After setting the pointer, the first data read returns the stale
    // buffer and only the second returns the addressed byte.
    let mut chr = vec![0u8; 0x2000];
    chr[0x0123] = 0xAB;
    let mut ppu = PPU::new(chr, Mirroring::VERTICAL);
    ppu.stat_read();
    ppu.addr_write(0x01);
    ppu.addr_write(0x23);
    assert_eq!(ppu.read().unwrap(), 0x00);
    ppu.stat_read();
    ppu.addr_write(0x01);
    ppu.addr_write(0x23);
    assert_eq!(ppu.read().unwrap(), 0xAB);
}

#[test]
fn palette_read_is_direct() {
    let mut ppu = make_ppu(Mirroring::VERTICAL);
    ppu.palette_table[5] = 0x2C;
    ppu.stat_read();
    ppu.addr_write(0x3F);
    ppu.addr_write(0x05);
    assert_eq!(ppu.read().unwrap(), 0x2C);
}

#[test]
fn palette_alias_3f10() {
    // Writing $3F10 lands at $3F00.
    let mut ppu = make_ppu(Mirroring::VERTICAL);
    ppu.addr_write(0x3F);
    ppu.addr_write(0x10);
    ppu.write(0x21).unwrap();
    assert_eq!(ppu.palette_table[0x00], 0x21);
}

#[test]
fn vram_write_read_round_trip() {
    let mut ppu = make_ppu(Mirroring::VERTICAL);
    ppu.addr_write(0x23);
    ppu.addr_write(0x05);
    ppu.write(0x77).unwrap();
    ppu.stat_read();
    ppu.addr_write(0x23);
    ppu.addr_write(0x05);
    ppu.read().unwrap();
    assert_eq!(ppu.read().unwrap(), 0x77);
}

#[test]
fn data_port_increments_by_32() {
    let mut ppu = make_ppu(Mirroring::VERTICAL);
    ppu.ctrl_write(0x04);
    ppu.addr_write(0x20);
    ppu.addr_write(0x00);
    ppu.write(0x11).unwrap();
    ppu.write(0x22).unwrap();
    assert_eq!(ppu.vram[0x000], 0x11);
    assert_eq!(ppu.vram[0x020], 0x22);
}

#[test]
fn forbidden_vram_read_faults() {
    let mut ppu = make_ppu(Mirroring::VERTICAL);
    ppu.addr_write(0x30);
    ppu.addr_write(0x05);
    assert_eq!(ppu.read(), Err(EmuError::ForbiddenVramRead(0x3005)));
}

#[test]
fn forbidden_vram_write_faults() {
    let mut ppu = make_ppu(Mirroring::VERTICAL);
    ppu.addr_write(0x3E);
    ppu.addr_write(0x00);
    assert_eq!(ppu.write(0x01), Err(EmuError::ForbiddenVramWrite(0x3E00)));
}

#[test]
fn mirror_map_vertical() {
    let ppu = make_ppu(Mirroring::VERTICAL);
    assert_eq!(ppu.mirror_vram_addr(0x2005), 0x005);
    assert_eq!(ppu.mirror_vram_addr(0x2405), 0x405);
    assert_eq!(ppu.mirror_vram_addr(0x2805), 0x005);
    assert_eq!(ppu.mirror_vram_addr(0x2C05), 0x405);
}

#[test]
fn mirror_map_horizontal() {
    let ppu = make_ppu(Mirroring::HORIZONTAL);
    assert_eq!(ppu.mirror_vram_addr(0x2005), 0x005);
    assert_eq!(ppu.mirror_vram_addr(0x2405), 0x005);
    assert_eq!(ppu.mirror_vram_addr(0x2805), 0x405);
    assert_eq!(ppu.mirror_vram_addr(0x2C05), 0x405);
}

#[test]
fn mirror_map_four_screen() {
    let ppu = make_ppu(Mirroring::FOUR_SCREEN);
    assert_eq!(ppu.mirror_vram_addr(0x2005), 0x005);
    assert_eq!(ppu.mirror_vram_addr(0x2C05), 0x405);
}

#[test]
fn vblank_sets_and_frame_wraps() {
    let mut ppu = make_ppu(Mirroring::VERTICAL);
    ppu.ctrl = 0x80;
    let mut frames = 0;
    let mut ticks = 0;
    while ppu.scanlines != 241 && ticks < 90000 {
        ppu.tick(100);
        ticks += 100;
    }
    assert_eq!(ppu.scanlines, 241);
    assert_ne!(ppu.stat & 0x80, 0);
    assert!(ppu.nmi_interrupt);
    while ticks < 200000 {
        if ppu.tick(100) {
            frames += 1;
            break;
        }
        ticks += 100;
    }
    assert_eq!(frames, 1);
    assert!(!ppu.nmi_interrupt);
    assert_eq!(ppu.stat & 0xC0, 0);
}

#[test]
fn ctrl_write_rising_edge_raises_nmi() {
    let mut ppu = make_ppu(Mirroring::VERTICAL);
    ppu.stat = 0x80;
    ppu.ctrl_write(0x00);
    assert!(!ppu.nmi_interrupt);
    ppu.ctrl_write(0x80);
    assert!(ppu.nmi_interrupt);
}

#[test]
fn sprite_zero_hit_sets_bit() {
    let mut ppu = make_ppu(Mirroring::VERTICAL);
    ppu.mask = 0x10;
    ppu.oam_data[0] = 10;
    ppu.oam_data[3] = 5;
    ppu.scanlines = 10;
    ppu.cycles = 10;
    ppu.tick(1);
    assert_ne!(ppu.stat & 0x40, 0);
}

#[test]
fn oam_dma_copies_a_page() {
    // Seed RAM $0200-$02FF with 0..255 and trigger DMA from page 2.
    let mut cpu = make_cpu();
    for i in 0..256u32 {
        cpu.mem_bus.mem_write(0x0200 + i as u16, i as u8).unwrap();
    }
    cpu.mem_bus.mem_write(0x2003, 0x00).unwrap();
    cpu.mem_bus.mem_write(0x4014, 0x02).unwrap();
    for i in 0..256usize {
        assert_eq!(cpu.mem_bus.ppu.oam_data[i], i as u8);
    }
}

#[test]
fn oam_dma_wraps_at_cursor() {
    let mut cpu = make_cpu();
    for i in 0..256u32 {
        cpu.mem_bus.mem_write(0x0200 + i as u16, i as u8).unwrap();
    }
    cpu.mem_bus.mem_write(0x2003, 0x10).unwrap();
    cpu.mem_bus.mem_write(0x4014, 0x02).unwrap();
    for i in 0..256usize {
        assert_eq!(cpu.mem_bus.ppu.oam_data[(0x10 + i) % 256], i as u8);
    }
}

#[test]
fn oam_data_write_advances_cursor() {
    let mut ppu = make_ppu(Mirroring::VERTICAL);
    ppu.oam_addr_write(0xFF);
    ppu.oam_write(0xAA);
    ppu.oam_write(0xBB);
    assert_eq!(ppu.oam_data[0xFF], 0xAA);
    assert_eq!(ppu.oam_data[0x00], 0xBB);
}

#[test]
fn controller_reports_buttons_in_order() {
    // Buttons $B1: A, Select, Start and Right held. With the strobe low
    // the first eight reads walk A, B, Select, Start, Up, Down, Left,
    // Right; the ninth starts over at A.
    let mut c = Controller::new();
    c.set_button_state(0xB1, true);
    let expected = [1, 0, 1, 1, 0, 0, 0, 1, 1];
    for (k, e) in expected.iter().enumerate() {
        assert_eq!(c.read(), *e, "read {}", k);
    }
}

#[test]
fn controller_strobe_pins_to_a() {
    let mut c = Controller::new();
    c.set_button_state(0x80, true);
    c.set_strobe();
    assert_eq!(c.read(), 1);
    assert_eq!(c.read(), 1);
    c.reset_strobe();
    assert_eq!(c.read(), 1);
    assert_eq!(c.read(), 0);
}

#[test]
fn keyboard_mapping_selects_buttons() {
    // U, I, V, B, W, S, A, D map to the button bits $80 down to $01; an
    // unmapped key changes nothing; releasing clears only its own bit.
    let keys = ['U', 'I', 'V', 'B', 'W', 'S', 'A', 'D'];
    for (i, &k) in keys.iter().enumerate() {
        let mut c = Controller::new();
        c.keyboard_input(k, true);
        for n in 0..8 {
            let bit = if n == i { 1 } else { 0 };
            assert_eq!(c.read(), bit, "key {} read {}", k, n);
        }
    }
    let mut c = Controller::new();
    c.keyboard_input('W', true);
    c.keyboard_input('D', true);
    c.keyboard_input('X', true);
    c.keyboard_input('W', false);
    let expected = [0, 0, 0, 0, 0, 0, 0, 1];
    for (n, e) in expected.iter().enumerate() {
        assert_eq!(c.read(), *e, "read {}", n);
    }
}

#[test]
fn controller_release_clears_button() {
    let mut c = Controller::new();
    c.set_button_state(0x80, true);
    c.set_button_state(0x80, false);
    assert_eq!(c.read(), 0);
}

#[test]
fn controller_through_bus_ports() {
    let mut cpu = make_cpu();
    cpu.mem_bus.port1.set_button_state(0x80, true);
    cpu.mem_bus.mem_write(0x4016, 1).unwrap();
    cpu.mem_bus.mem_write(0x4016, 0).unwrap();
    assert_eq!(cpu.mem_bus.mem_read(0x4016).unwrap(), 1);
    assert_eq!(cpu.mem_bus.mem_read(0x4016).unwrap(), 0);
}

#[test]
fn two_write_register_updates() {
    let mut r = TwoWriteReg::new(true);
    r.update(0x12);
    r.update(0x34);
    assert_eq!(r.get(), 0x1234);
    r.inc(0x20);
    assert_eq!(r.get(), 0x1254);
    r.set_latch();
    r.update(0xFF);
    assert_eq!(r.get(), 0xFF54);
}

#[test]
fn two_write_register_inc_wraps() {
    let mut r = TwoWriteReg::new(true);
    r.update(0xFF);
    r.update(0xFF);
    r.inc(0x01);
    assert_eq!(r.get(), 0x0000);
}

#[test]
fn rom_parses_fields() {
    let mut raw = vec![0u8; 16 + 0x4000 + 0x2000];
    raw[0] = 0x4E;
    raw[1] = 0x45;
    raw[2] = 0x53;
    raw[3] = 0x1A;
    raw[4] = 1;
    raw[5] = 1;
    raw[6] = 0x01;
    raw[16] = 0x77;
    raw[16 + 0x4000] = 0x55;
    let rom = Rom::new(&raw).unwrap();
    assert_eq!(rom.prg_rom.len(), 0x4000);
    assert_eq!(rom.chr_rom.len(), 0x2000);
    assert_eq!(rom.mapper, 0);
    assert_eq!(rom.screen_mirroring, Mirroring::VERTICAL);
    assert_eq!(rom.prg_rom[0], 0x77);
    assert_eq!(rom.chr_rom[0], 0x55);
}

#[test]
fn rom_trainer_offsets_banks() {
    let mut raw = vec![0u8; 16 + 512 + 0x4000 + 0x2000];
    raw[0] = 0x4E;
    raw[1] = 0x45;
    raw[2] = 0x53;
    raw[3] = 0x1A;
    raw[4] = 1;
    raw[5] = 1;
    raw[6] = 0x04;
    raw[16 + 512] = 0x66;
    let rom = Rom::new(&raw).unwrap();
    assert_eq!(rom.screen_mirroring, Mirroring::HORIZONTAL);
    assert_eq!(rom.prg_rom[0], 0x66);
}

#[test]
fn rom_rejects_bad_magic() {
    let raw = vec![0u8; 64];
    assert!(matches!(Rom::new(&raw), Err(RomError::BadMagic)));
}

#[test]
fn rom_rejects_later_version() {
    let mut raw = vec![0u8; 16 + 0x4000];
    raw[0] = 0x4E;
    raw[1] = 0x45;
    raw[2] = 0x53;
    raw[3] = 0x1A;
    raw[4] = 1;
    raw[7] = 0x08;
    assert!(matches!(Rom::new(&raw), Err(RomError::UnsupportedVersion)));
}

#[test]
fn rom_rejects_mapper() {
    let mut raw = vec![0u8; 16 + 0x4000];
    raw[0] = 0x4E;
    raw[1] = 0x45;
    raw[2] = 0x53;
    raw[3] = 0x1A;
    raw[4] = 1;
    raw[6] = 0x10;
    assert!(matches!(Rom::new(&raw), Err(RomError::UnsupportedMapper(0x01))));
}

#[test]
fn rom_rejects_bad_prg_size() {
    let mut raw = vec![0u8; 16 + 3 * 0x4000];
    raw[0] = 0x4E;
    raw[1] = 0x45;
    raw[2] = 0x53;
    raw[3] = 0x1A;
    raw[4] = 3;
    assert!(matches!(Rom::new(&raw), Err(RomError::BadPrgSize(3))));
}

#[test]
fn rom_rejects_truncated_image() {
    let mut raw = vec![0u8; 16 + 0x2000];
    raw[0] = 0x4E;
    raw[1] = 0x45;
    raw[2] = 0x53;
    raw[3] = 0x1A;
    raw[4] = 1;
    assert!(matches!(Rom::new(&raw), Err(RomError::Truncated)));
}

#[test]
fn prg_rom_mirrors_16k_image() {
    let mut cpu = make_cpu();
    // make_cpu patches nothing: write through the parsed image instead.
    cpu.mem_bus.prg_rom[0x0010] = 0x99;
    assert_eq!(cpu.mem_bus.mem_read(0x8010).unwrap(), 0x99);
    assert_eq!(cpu.mem_bus.mem_read(0xC010).unwrap(), 0x99);
}

#[test]
fn ram_is_mirrored() {
    let mut cpu = make_cpu();
    cpu.mem_bus.mem_write(0x0005, 0x42).unwrap();
    assert_eq!(cpu.mem_bus.mem_read(0x0805).unwrap(), 0x42);
    assert_eq!(cpu.mem_bus.mem_read(0x1805).unwrap(), 0x42);
}

#[test]
fn word_access_through_mem_trait() {
    let mut cpu = make_cpu();
    // The bus stores the high byte first; reads are little-endian, so the
    // word comes back with its halves swapped.
    Mem::mem_write16(&mut cpu.mem_bus, 0x0010, 0x1234).unwrap();
    assert_eq!(cpu.mem_bus.mem_read(0x0010).unwrap(), 0x12);
    assert_eq!(cpu.mem_bus.mem_read(0x0011).unwrap(), 0x34);
    assert_eq!(Mem::mem_read16(&mut cpu, 0x0010).unwrap(), 0x3412);
}

#[test]
fn write_only_registers_read_zero() {
    let mut cpu = make_cpu();
    assert_eq!(cpu.mem_bus.mem_read(0x2000).unwrap(), 0);
    assert_eq!(cpu.mem_bus.mem_read(0x2005).unwrap(), 0);
    assert_eq!(cpu.mem_bus.mem_read(0x4014).unwrap(), 0);
}

#[test]
fn ppu_registers_are_mirrored() {
    let mut cpu = make_cpu();
    cpu.mem_bus.ppu.stat = 0x80;
    let v = cpu.mem_bus.mem_read(0x3FFA).unwrap();
    assert_ne!(v & 0x80, 0);
    assert_eq!(cpu.mem_bus.ppu.stat & 0x80, 0);
}
