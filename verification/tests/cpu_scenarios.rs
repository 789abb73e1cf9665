//! End-to-end scenarios on the CPU: reset, branches, the indirect-jump
//! page bug, NMI entry, and the arithmetic flag rules on concrete values.

use nes_core::bus::Bus;
use nes_core::cpu::CPU;
use nes_core::errors::EmuError;
use nes_core::rom::Rom;

/// A cartridge image with a 16 KiB program ROM and an 8 KiB character ROM,
/// vertical mirroring, with the given program bytes patched in. The patch
/// offsets are relative to $8000 (and to $C000, through mirroring).
fn make_rom(patches: &[(usize, u8)]) -> Rom {
    let mut raw = vec![0u8; 16 + 0x4000 + 0x2000];
    raw[0] = 0x4E;
    raw[1] = 0x45;
    raw[2] = 0x53;
    raw[3] = 0x1A;
    raw[4] = 1;
    raw[5] = 1;
    raw[6] = 0x01;
    for &(off, b) in patches {
        raw[16 + off] = b;
    }
    Rom::new(&raw).expect("image must parse")
}

fn make_cpu(patches: &[(usize, u8)]) -> CPU {
    let rom = make_rom(patches);
    CPU::new(Bus::new(rom))
}

#[test]
fn reset_and_store() {
    // Reset vector $C000; program: LDA #$42; STA $10; BRK.
    let mut cpu = make_cpu(&[
        (0x3FFC, 0x00),
        (0x3FFD, 0xC0),
        (0x0000, 0xA9),
        (0x0001, 0x42),
        (0x0002, 0x85),
        (0x0003, 0x10),
        (0x0004, 0x00),
    ]);
    cpu.reset().unwrap();
    assert_eq!(cpu.reg_pc, 0xC000);
    for _ in 0..3 {
        cpu.interpret().unwrap();
    }
    assert_eq!(cpu.reg_a, 0x42);
    assert_eq!(cpu.mem_bus.mem_read(0x10).unwrap(), 0x42);
    assert_eq!(cpu.reg_stat & 0x02, 0);
    assert_eq!(cpu.reg_stat & 0x80, 0);
    // BRK at $C004 pushes $C006 (high then low), then P with bits 4 and 5
    // set, and jumps through the vector at $FFFE (zero in this image).
    assert_eq!(cpu.mem_bus.mem_read(0x01FD).unwrap(), 0xC0);
    assert_eq!(cpu.mem_bus.mem_read(0x01FC).unwrap(), 0x06);
    assert_eq!(cpu.mem_bus.mem_read(0x01FB).unwrap(), 0x34);
    assert_eq!(cpu.reg_sp, 0xFA);
}

#[test]
fn branch_page_cross_cycles() {
    // BNE +4 at $80FE with Z clear: lands at $8104 and costs 3 cycles.
    let mut cpu = make_cpu(&[(0x00FE, 0xD0), (0x00FF, 0x04)]);
    cpu.reg_pc = 0x80FE;
    cpu.reg_stat = 0x24;
    let before = cpu.tot_cycles;
    cpu.interpret().unwrap();
    assert_eq!(cpu.reg_pc, 0x8104);
    assert_eq!(cpu.tot_cycles - before, 3);
}

#[test]
fn indirect_jmp_page_bug() {
    // JMP ($02FF): the low target byte comes from $02FF and the high byte
    // from $0200, not $0300.
    let mut cpu = make_cpu(&[
        (0x3FFC, 0x00),
        (0x3FFD, 0x80),
        (0x0000, 0x6C),
        (0x0001, 0xFF),
        (0x0002, 0x02),
    ]);
    cpu.reset().unwrap();
    cpu.mem_bus.mem_write(0x02FF, 0x80).unwrap();
    cpu.mem_bus.mem_write(0x0200, 0x40).unwrap();
    cpu.mem_bus.mem_write(0x0300, 0x50).unwrap();
    cpu.mem_bus.mem_write(0x0000, 0x40).unwrap();
    cpu.interpret().unwrap();
    assert_eq!(cpu.reg_pc, 0x4080);
}

#[test]
fn nmi_entry_pushes_state() {
    // With NMI enabled and vblank reached, the next instruction boundary
    // pushes PC and P (bit 4 clear, bit 5 set), sets I, and jumps through
    // $FFFA.
    let mut cpu = make_cpu(&[(0x3FFA, 0x34), (0x3FFB, 0x12), (0x0000, 0xEA)]);
    cpu.reg_pc = 0x8000;
    cpu.reg_stat = 0x24;
    cpu.reg_sp = 0xFD;
    cpu.mem_bus.ppu.ctrl = 0x80;
    while !cpu.mem_bus.poll_nmi_status() {
        cpu.mem_bus.tick(250);
    }
    cpu.interpret().unwrap();
    assert_eq!(cpu.reg_pc, 0x1234);
    assert_ne!(cpu.reg_stat & 0x04, 0);
    assert_eq!(cpu.reg_sp, 0xFA);
    assert_eq!(cpu.mem_bus.mem_read(0x01FD).unwrap(), 0x80);
    assert_eq!(cpu.mem_bus.mem_read(0x01FC).unwrap(), 0x00);
    let pushed = cpu.mem_bus.mem_read(0x01FB).unwrap();
    assert_eq!(pushed & 0x10, 0);
    assert_ne!(pushed & 0x20, 0);
    assert_eq!(pushed, 0x24);
}

#[test]
fn adc_signed_overflow() {
    // ADC #$50 with A=$50, C=0: sum $A0, no carry, signed overflow set.
    let mut cpu = make_cpu(&[(0x0000, 0x69), (0x0001, 0x50)]);
    cpu.reg_pc = 0x8000;
    cpu.reg_a = 0x50;
    cpu.reg_stat = 0x24;
    cpu.interpret().unwrap();
    assert_eq!(cpu.reg_a, 0xA0);
    assert_eq!(cpu.reg_stat & 0x01, 0);
    assert_ne!(cpu.reg_stat & 0x40, 0);
    assert_ne!(cpu.reg_stat & 0x80, 0);
    assert_eq!(cpu.reg_stat & 0x02, 0);
}

#[test]
fn adc_carry_out() {
    // ADC #$01 with A=$FF, C=0: wraps to 0 with carry and zero set.
    let mut cpu = make_cpu(&[(0x0000, 0x69), (0x0001, 0x01)]);
    cpu.reg_pc = 0x8000;
    cpu.reg_a = 0xFF;
    cpu.reg_stat = 0x24;
    cpu.interpret().unwrap();
    assert_eq!(cpu.reg_a, 0x00);
    assert_ne!(cpu.reg_stat & 0x01, 0);
    assert_ne!(cpu.reg_stat & 0x02, 0);
    assert_eq!(cpu.reg_stat & 0x40, 0);
}

#[test]
fn sbc_no_borrow() {
    // SBC #$10 with A=$50 and carry set: $40 with carry still set.
    let mut cpu = make_cpu(&[(0x0000, 0xE9), (0x0001, 0x10)]);
    cpu.reg_pc = 0x8000;
    cpu.reg_a = 0x50;
    cpu.reg_stat = 0x25;
    cpu.interpret().unwrap();
    assert_eq!(cpu.reg_a, 0x40);
    assert_ne!(cpu.reg_stat & 0x01, 0);
}

#[test]
fn lda_immediate_flags() {
    // LDA #$00 sets Z; LDA #$80 sets N; other flags ride through.
    let mut cpu = make_cpu(&[(0x0000, 0xA9), (0x0001, 0x00), (0x0002, 0xA9), (0x0003, 0x80)]);
    cpu.reg_pc = 0x8000;
    cpu.reg_stat = 0x65;
    cpu.interpret().unwrap();
    assert_eq!(cpu.reg_a, 0x00);
    assert_ne!(cpu.reg_stat & 0x02, 0);
    assert_eq!(cpu.reg_stat & 0x80, 0);
    assert_eq!(cpu.reg_stat & 0x7D, 0x65 & 0x7D);
    cpu.interpret().unwrap();
    assert_eq!(cpu.reg_a, 0x80);
    assert_eq!(cpu.reg_stat & 0x02, 0);
    assert_ne!(cpu.reg_stat & 0x80, 0);
}

#[test]
fn cmp_sets_carry_and_zero() {
    // CMP #$42 with A=$42: equal, so carry and zero set, negative clear.
    let mut cpu = make_cpu(&[(0x0000, 0xC9), (0x0001, 0x42)]);
    cpu.reg_pc = 0x8000;
    cpu.reg_a = 0x42;
    cpu.reg_stat = 0x24;
    cpu.interpret().unwrap();
    assert_ne!(cpu.reg_stat & 0x01, 0);
    assert_ne!(cpu.reg_stat & 0x02, 0);
    assert_eq!(cpu.reg_stat & 0x80, 0);
}

#[test]
fn absolute_x_page_cross_penalty() {
    // LDA $80F0,X with X=$20 crosses a page: 4 base cycles plus 1.
    let mut cpu = make_cpu(&[(0x0000, 0xBD), (0x0001, 0xF0), (0x0002, 0x80)]);
    cpu.reg_pc = 0x8000;
    cpu.reg_x = 0x20;
    let before = cpu.tot_cycles;
    cpu.interpret().unwrap();
    assert_eq!(cpu.tot_cycles - before, 5);
}

#[test]
fn unknown_opcode_faults() {
    let mut cpu = make_cpu(&[(0x0000, 0x02)]);
    cpu.reg_pc = 0x8000;
    assert_eq!(cpu.interpret(), Err(EmuError::UnknownOpcode(0x02)));
}

#[test]
fn rom_write_faults() {
    // STA $9000 tries to write cartridge ROM.
    let mut cpu = make_cpu(&[(0x0000, 0x8D), (0x0001, 0x00), (0x0002, 0x90)]);
    cpu.reg_pc = 0x8000;
    assert_eq!(cpu.interpret(), Err(EmuError::RomWrite(0x9000)));
}

#[test]
fn status_register_write_faults() {
    let mut cpu = make_cpu(&[]);
    assert_eq!(cpu.mem_bus.mem_write(0x2002, 0x55), Err(EmuError::StatusWrite));
}

#[test]
fn jsr_rts_round_trip() {
    // JSR $8010; at $8010 RTS returns to the byte after the JSR.
    let mut cpu = make_cpu(&[(0x0000, 0x20), (0x0001, 0x10), (0x0002, 0x80), (0x0010, 0x60)]);
    cpu.reg_pc = 0x8000;
    cpu.reg_sp = 0xFD;
    cpu.interpret().unwrap();
    assert_eq!(cpu.reg_pc, 0x8010);
    cpu.interpret().unwrap();
    assert_eq!(cpu.reg_pc, 0x8003);
    assert_eq!(cpu.reg_sp, 0xFD);
}

#[test]
fn stack_push_pull_round_trip() {
    // PHA; LDA #$00; PLA restores the accumulator.
    let mut cpu = make_cpu(&[
        (0x0000, 0x48),
        (0x0001, 0xA9),
        (0x0002, 0x00),
        (0x0003, 0x68),
    ]);
    cpu.reg_pc = 0x8000;
    cpu.reg_a = 0x7B;
    cpu.reg_sp = 0xFD;
    for _ in 0..3 {
        cpu.interpret().unwrap();
    }
    assert_eq!(cpu.reg_a, 0x7B);
    assert_eq!(cpu.reg_sp, 0xFD);
}

#[test]
fn undocumented_lax_loads_both() {
    // LAX $10: A and X both take the byte at $10.
    let mut cpu = make_cpu(&[(0x0000, 0xA7), (0x0001, 0x10)]);
    cpu.reg_pc = 0x8000;
    cpu.mem_bus.mem_write(0x10, 0x5A).unwrap();
    cpu.interpret().unwrap();
    assert_eq!(cpu.reg_a, 0x5A);
    assert_eq!(cpu.reg_x, 0x5A);
}

#[test]
fn undocumented_dcp_decrements_and_compares() {
    // DCP $10 with A equal to the decremented byte: carry and zero set.
    let mut cpu = make_cpu(&[(0x0000, 0xC7), (0x0001, 0x10)]);
    cpu.reg_pc = 0x8000;
    cpu.reg_a = 0x41;
    cpu.mem_bus.mem_write(0x10, 0x42).unwrap();
    cpu.interpret().unwrap();
    assert_eq!(cpu.mem_bus.mem_read(0x10).unwrap(), 0x41);
    assert_ne!(cpu.reg_stat & 0x01, 0);
    assert_ne!(cpu.reg_stat & 0x02, 0);
}

#[test]
fn rti_returns_from_interrupt() {
    // After NMI entry, an RTI placed at the handler restores the status and
    // resumes at the interrupted address.
    let mut cpu = make_cpu(&[(0x3FFA, 0x34), (0x3FFB, 0x02), (0x0000, 0xEA)]);
    cpu.reg_pc = 0x8000;
    cpu.reg_stat = 0x24;
    cpu.reg_sp = 0xFD;
    cpu.mem_bus.ppu.ctrl = 0x80;
    while !cpu.mem_bus.poll_nmi_status() {
        cpu.mem_bus.tick(250);
    }
    cpu.interpret().unwrap();
    assert_eq!(cpu.reg_pc, 0x0234);
    cpu.mem_bus.mem_write(0x0234, 0x40).unwrap();
    cpu.interpret().unwrap();
    assert_eq!(cpu.reg_pc, 0x8000);
    assert_eq!(cpu.reg_stat, 0x24);
    assert_eq!(cpu.reg_sp, 0xFD);
}

#[test]
fn php_plp_forces_break_bits() {
    // PHP pushes with bits 4 and 5 set; PLP restores with bit 4 cleared
    // and bit 5 kept on.
    let mut cpu = make_cpu(&[(0x0000, 0x08), (0x0001, 0x28)]);
    cpu.reg_pc = 0x8000;
    cpu.reg_sp = 0xFD;
    cpu.reg_stat = 0xC3;
    cpu.interpret().unwrap();
    assert_eq!(cpu.mem_bus.mem_read(0x01FD).unwrap(), 0xF3);
    cpu.interpret().unwrap();
    assert_eq!(cpu.reg_stat, 0xE3);
}

#[test]
fn bit_copies_operand_bits() {
    // BIT $10 with operand $C0 and A=$01: zero from the AND, V and N from
    // operand bits 6 and 7.
    let mut cpu = make_cpu(&[(0x0000, 0x24), (0x0001, 0x10)]);
    cpu.reg_pc = 0x8000;
    cpu.reg_a = 0x01;
    cpu.reg_stat = 0x24;
    cpu.mem_bus.mem_write(0x10, 0xC0).unwrap();
    cpu.interpret().unwrap();
    assert_ne!(cpu.reg_stat & 0x02, 0);
    assert_ne!(cpu.reg_stat & 0x40, 0);
    assert_ne!(cpu.reg_stat & 0x80, 0);
    assert_eq!(cpu.reg_a, 0x01);
}

#[test]
fn indirect_y_page_cross_penalty() {
    // LDA ($10),Y with the pointer at $80F0 and Y=$20 crosses a page:
    // 5 base cycles plus 1.
    let mut cpu = make_cpu(&[(0x0000, 0xB1), (0x0001, 0x10)]);
    cpu.reg_pc = 0x8000;
    cpu.reg_y = 0x20;
    cpu.mem_bus.mem_write(0x10, 0xF0).unwrap();
    cpu.mem_bus.mem_write(0x11, 0x80).unwrap();
    let before = cpu.tot_cycles;
    cpu.interpret().unwrap();
    assert_eq!(cpu.tot_cycles - before, 6);
}

#[test]
fn asl_accumulator_carry() {
    // ASL A with A=$81: result $02, carry from bit 7.
    let mut cpu = make_cpu(&[(0x0000, 0x0A)]);
    cpu.reg_pc = 0x8000;
    cpu.reg_a = 0x81;
    cpu.reg_stat = 0x24;
    cpu.interpret().unwrap();
    assert_eq!(cpu.reg_a, 0x02);
    assert_ne!(cpu.reg_stat & 0x01, 0);
}

#[test]
fn ror_memory_folds_carry() {
    // ROR $10 with carry set: the carry lands in bit 7 and bit 0 leaves.
    let mut cpu = make_cpu(&[(0x0000, 0x66), (0x0001, 0x10)]);
    cpu.reg_pc = 0x8000;
    cpu.reg_stat = 0x25;
    cpu.mem_bus.mem_write(0x10, 0x03).unwrap();
    cpu.interpret().unwrap();
    assert_eq!(cpu.mem_bus.mem_read(0x10).unwrap(), 0x81);
    assert_ne!(cpu.reg_stat & 0x01, 0);
}
