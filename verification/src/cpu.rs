//! The 6502 interpreter: registers, status flags, addressing modes, the
//! instruction semantics, NMI handling and cycle accounting. The CPU owns
//! the bus; after every instruction it hands the bus three PPU dots per CPU
//! cycle spent.
//!
//! Every instruction's effect is given as a transition function on
//! [`CpuV`], the plain-value view of the whole machine, and the interpreter
//! is proved to implement [`step_s`], the composition of NMI polling,
//! fetch, dispatch, penalty cycles and the PPU catch-up tick.

pub mod opcodes;

use vstd::prelude::*;
use crate::bits::lemma_hi_byte_bound;
use crate::bus::Bus;
use crate::bus::BusV;
use crate::bus::bus_read_s;
use crate::bus::bus_read_err_s;
use crate::bus::bus_read16_s;
use crate::bus::bus_write_s;
use crate::bus::bus_wf;
use crate::errors::EmuError;
use crate::ppu::tick_n_s;
use crate::two_write_reg::word_of;
use self::opcodes::Mnemonic;
use self::opcodes::OpCode;
use self::opcodes::opcode_s;
use self::opcodes::opcode_wf;
use self::opcodes::opcode_lookup;

verus! {

/// The addressing modes of the 6502, as the opcode table names them.
#[allow(non_camel_case_types)]
#[allow(missing_docs)]
#[derive(Clone, Copy, Debug, PartialEq, Eq, Structural)]
pub enum AddressingMode {
    Immediate,
    ZeroPage,
    ZeroPage_X,
    ZeroPage_Y,
    Absolute,
    Absolute_X,
    Absolute_Y,
    Indirect,
    Indirect_X,
    Indirect_Y,
    NoneAddressing,
}

/// Plain-value view of the CPU together with everything the bus owns.
#[verifier::ext_equal]
pub ghost struct CpuV {
    pub nmi_flag: bool,
    pub cycles: u8,
    pub tot_cycles: u32,
    pub reg_a: u8,
    pub reg_x: u8,
    pub reg_y: u8,
    pub reg_stat: u8,
    pub reg_pc: u16,
    pub reg_sp: u8,
    pub bus: BusV,
}

/// A well-formed machine: the bus invariant holds.
pub open spec fn cpu_wf(s: CpuV) -> bool {
    bus_wf(s.bus)
}

/// A bus read lifted to the machine: only the bus changes.
#[verifier::opaque]
pub open spec fn rd(s: CpuV, addr: u16) -> Result<(CpuV, u8), EmuError> {
    match bus_read_s(s.bus, addr) {
        Ok(bv) => Ok((CpuV { bus: bv.0, ..s }, bv.1)),
        Err(e) => Err(e),
    }
}

/// A 16-bit little-endian bus read lifted to the machine.
#[verifier::opaque]
pub open spec fn rd16(s: CpuV, addr: u16) -> Result<(CpuV, u16), EmuError> {
    match bus_read16_s(s.bus, addr) {
        Ok(bv) => Ok((CpuV { bus: bv.0, ..s }, bv.1)),
        Err(e) => Err(e),
    }
}

/// A bus write lifted to the machine.
#[verifier::opaque]
pub open spec fn wr(s: CpuV, addr: u16, val: u8) -> Result<CpuV, EmuError> {
    match bus_write_s(s.bus, addr, val) {
        Ok(b) => Ok(CpuV { bus: b, ..s }),
        Err(e) => Err(e),
    }
}

/// How an executable step relates to its specified transition: on success
/// the new machine is the specified one, on failure the same error comes
/// back.
pub open spec fn steps_to(spec_result: Result<CpuV, EmuError>, s_new: CpuV, r: Result<
    (),
    EmuError,
>) -> bool {
    match spec_result {
        Ok(s2) => r == Ok::<(), EmuError>(()) && s_new == s2,
        Err(e) => r == Err::<(), EmuError>(e),
    }
}

/// A push: the byte lands at $0100 plus the stack pointer, which then
/// decrements, wrapping modulo 256.
pub open spec fn push_s(s: CpuV, val: u8) -> Result<CpuV, EmuError> {
    match wr(s, (0x0100 + s.reg_sp) as u16, val) {
        Ok(s1) => Ok(
            CpuV { reg_sp: if s.reg_sp == 0x00 { 0xFFu8 } else { (s.reg_sp - 1) as u8 }, ..s1 },
        ),
        Err(e) => Err(e),
    }
}

/// A 16-bit push: high byte first, then low, so that pulls read low then
/// high.
pub open spec fn push16_s(s: CpuV, w: u16) -> Result<CpuV, EmuError> {
    match push_s(s, (w >> 8) as u8) {
        Ok(s1) => push_s(s1, (w & 0x00FF) as u8),
        Err(e) => Err(e),
    }
}

/// A pull: the stack pointer increments (wrapping modulo 256) and the byte
/// at $0100 plus the new pointer comes back.
pub open spec fn pull_s(s: CpuV) -> Result<(CpuV, u8), EmuError> {
    let sp1: u8 = if s.reg_sp == 0xFF { 0u8 } else { (s.reg_sp + 1) as u8 };
    rd(CpuV { reg_sp: sp1, ..s }, (0x0100 + sp1) as u16)
}

/// A 16-bit pull: low byte first, then high.
pub open spec fn pull16_s(s: CpuV) -> Result<(CpuV, u16), EmuError> {
    match pull_s(s) {
        Ok((s1, lo)) => match pull_s(s1) {
            Ok((s2, hi)) => Ok((s2, word_of(hi, lo))),
            Err(e) => Err(e),
        },
        Err(e) => Err(e),
    }
}

/// The status byte with the zero and negative flags refreshed from a result
/// byte; all other bits keep their value.
pub open spec fn upd_nz_s(st: u8, v: u8) -> u8 {
    let z: u8 = if v == 0 { st | 0x02 } else { st & 0xFD };
    if v & 0x80 != 0 {
        z | 0x80
    } else {
        z & 0x7F
    }
}

/// The status byte with the carry flag set or cleared.
pub open spec fn set_c(st: u8, c: bool) -> u8 {
    if c {
        st | 0x01
    } else {
        st & 0xFE
    }
}

/// The operand address under an addressing mode, together with the machine
/// after the reads the resolution performs. The operand bytes at the
/// program counter are probed up front, then the mode decides; the
/// `Indirect` mode carries the hardware's page-crossing bug: the high
/// pointer byte is read with the low address byte wrapped inside its page.
#[verifier::opaque]
pub open spec fn op_addr_s(s: CpuV, mode: AddressingMode) -> Result<(CpuV, u16), EmuError> {
    match rd(s, s.reg_pc) {
        Err(e) => Err(e),
        Ok((s1, arg)) => match rd(s1, s.reg_pc.wrapping_add(1)) {
            Err(e) => Err(e),
            Ok((s2, arg2)) => match rd16(s2, s.reg_pc) {
                Err(e) => Err(e),
                Ok((s3, arg3)) => match mode {
                    AddressingMode::Immediate => Ok((s3, s.reg_pc)),
                    AddressingMode::ZeroPage => match rd(s3, s.reg_pc) {
                        Ok(sv) => Ok((sv.0, sv.1 as u16)),
                        Err(e) => Err(e),
                    },
                    AddressingMode::Absolute => rd16(s3, s.reg_pc),
                    AddressingMode::ZeroPage_X => match rd(s3, s.reg_pc) {
                        Ok(sv) => Ok((sv.0, sv.1.wrapping_add(s.reg_x) as u16)),
                        Err(e) => Err(e),
                    },
                    AddressingMode::ZeroPage_Y => match rd(s3, s.reg_pc) {
                        Ok(sv) => Ok((sv.0, sv.1.wrapping_add(s.reg_y) as u16)),
                        Err(e) => Err(e),
                    },
                    AddressingMode::Absolute_X => match rd16(s3, s.reg_pc) {
                        Ok(sv) => Ok((sv.0, sv.1.wrapping_add(s.reg_x as u16))),
                        Err(e) => Err(e),
                    },
                    AddressingMode::Absolute_Y => match rd16(s3, s.reg_pc) {
                        Ok(sv) => Ok((sv.0, sv.1.wrapping_add(s.reg_y as u16))),
                        Err(e) => Err(e),
                    },
                    AddressingMode::Indirect => match rd(s3, arg3) {
                        Ok((s4, lo)) => match rd(
                            s4,
                            ((arg.wrapping_add(1) as u16) + ((arg2 as u16) << 8)) as u16,
                        ) {
                            Ok((s5, hi)) => Ok((s5, ((lo as u16) + ((hi as u16) << 8)) as u16)),
                            Err(e) => Err(e),
                        },
                        Err(e) => Err(e),
                    },
                    AddressingMode::Indirect_X => match rd(s3, arg.wrapping_add(s.reg_x) as u16) {
                        Ok((s4, lo)) => match rd(
                            s4,
                            arg.wrapping_add(s.reg_x).wrapping_add(1) as u16,
                        ) {
                            Ok((s5, hi)) => Ok((s5, ((lo as u16) + ((hi as u16) << 8)) as u16)),
                            Err(e) => Err(e),
                        },
                        Err(e) => Err(e),
                    },
                    AddressingMode::Indirect_Y => match rd(s3, arg as u16) {
                        Ok((s4, lo)) => match rd(s4, arg.wrapping_add(1) as u16) {
                            Ok((s5, hi)) => Ok(
                                (
                                    s5,
                                    (((lo as u16) + ((hi as u16) << 8)) as u16).wrapping_add(
                                        s.reg_y as u16,
                                    ),
                                ),
                            ),
                            Err(e) => Err(e),
                        },
                        Err(e) => Err(e),
                    },
                    AddressingMode::NoneAddressing => Ok((s3, 0)),
                },
            },
        },
    }
}

/// Operand resolution followed by the operand read itself: the machine
/// after both, the operand address and the operand byte.
#[verifier::opaque]
pub open spec fn fetch_s(s: CpuV, mode: AddressingMode) -> Result<(CpuV, u16, u8), EmuError> {
    match op_addr_s(s, mode) {
        Ok(sa) => match rd(sa.0, sa.1) {
            Ok(sv) => Ok((sv.0, sa.1, sv.1)),
            Err(e) => Err(e),
        },
        Err(e) => Err(e),
    }
}

/// Add-with-carry applied to the accumulator and an operand byte `m`: the
/// 9-bit sum of A, m and the carry flag; carry comes from bit 8, overflow
/// from the sign rule, and the zero and negative flags from the result.
pub open spec fn adc_apply_s(s: CpuV, m: u8) -> CpuV {
    let cin = s.reg_stat & 0x01;
    let sum = s.reg_a + m + cin;
    let res = (sum % 256) as u8;
    let st1 = set_c(s.reg_stat, sum >= 256);
    let st2: u8 = if (s.reg_a ^ res) & (m ^ res) & 0x80 != 0 {
        st1 | 0x40
    } else {
        st1 & 0xBF
    };
    CpuV { reg_a: res, reg_stat: upd_nz_s(st2, res), ..s }
}

/// A compare of a register against an operand: an 8-bit subtract whose
/// carry reports "no borrow" and whose result drives the zero and negative
/// flags; the register keeps its value.
pub open spec fn cmp_apply_s(s: CpuV, reg: u8, v: u8) -> CpuV {
    let sum = reg + (!v) + 1;
    let res = (sum % 256) as u8;
    CpuV { reg_stat: upd_nz_s(set_c(s.reg_stat, sum >= 256), res), ..s }
}

#[verifier::opaque]
pub open spec fn lda_s(s: CpuV, mode: AddressingMode) -> Result<CpuV, EmuError> {
    match fetch_s(s, mode) {
        Ok((s2, a, v)) => Ok(CpuV { reg_a: v, reg_stat: upd_nz_s(s2.reg_stat, v), ..s2 }),
        Err(e) => Err(e),
    }
}

#[verifier::opaque]
pub open spec fn ldx_s(s: CpuV, mode: AddressingMode) -> Result<CpuV, EmuError> {
    match fetch_s(s, mode) {
        Ok((s2, a, v)) => Ok(CpuV { reg_x: v, reg_stat: upd_nz_s(s2.reg_stat, v), ..s2 }),
        Err(e) => Err(e),
    }
}

#[verifier::opaque]
pub open spec fn ldy_s(s: CpuV, mode: AddressingMode) -> Result<CpuV, EmuError> {
    match fetch_s(s, mode) {
        Ok((s2, a, v)) => Ok(CpuV { reg_y: v, reg_stat: upd_nz_s(s2.reg_stat, v), ..s2 }),
        Err(e) => Err(e),
    }
}

#[verifier::opaque]
pub open spec fn adc_s(s: CpuV, mode: AddressingMode) -> Result<CpuV, EmuError> {
    match fetch_s(s, mode) {
        Ok((s2, a, v)) => Ok(adc_apply_s(s2, v)),
        Err(e) => Err(e),
    }
}

/// Subtract-with-carry is add-with-carry of the operand's complement.
#[verifier::opaque]
pub open spec fn sbc_s(s: CpuV, mode: AddressingMode) -> Result<CpuV, EmuError> {
    match fetch_s(s, mode) {
        Ok((s2, a, v)) => Ok(adc_apply_s(s2, !v)),
        Err(e) => Err(e),
    }
}

#[verifier::opaque]
pub open spec fn and_s(s: CpuV, mode: AddressingMode) -> Result<CpuV, EmuError> {
    match fetch_s(s, mode) {
        Ok((s2, a, v)) => Ok(
            CpuV {
                reg_a: (s2.reg_a & v) as u8,
                reg_stat: upd_nz_s(s2.reg_stat, (s2.reg_a & v) as u8),
                ..s2
            },
        ),
        Err(e) => Err(e),
    }
}

#[verifier::opaque]
pub open spec fn ora_s(s: CpuV, mode: AddressingMode) -> Result<CpuV, EmuError> {
    match fetch_s(s, mode) {
        Ok((s2, a, v)) => Ok(
            CpuV {
                reg_a: (s2.reg_a | v) as u8,
                reg_stat: upd_nz_s(s2.reg_stat, (s2.reg_a | v) as u8),
                ..s2
            },
        ),
        Err(e) => Err(e),
    }
}

#[verifier::opaque]
pub open spec fn eor_s(s: CpuV, mode: AddressingMode) -> Result<CpuV, EmuError> {
    match fetch_s(s, mode) {
        Ok((s2, a, v)) => Ok(
            CpuV {
                reg_a: (s2.reg_a ^ v) as u8,
                reg_stat: upd_nz_s(s2.reg_stat, (s2.reg_a ^ v) as u8),
                ..s2
            },
        ),
        Err(e) => Err(e),
    }
}

/// Stores A AND X without touching any flag.
#[verifier::opaque]
pub open spec fn sax_s(s: CpuV, mode: AddressingMode) -> Result<CpuV, EmuError> {
    match op_addr_s(s, mode) {
        Ok((s1, addr)) => wr(s1, addr, (s1.reg_a & s1.reg_x) as u8),
        Err(e) => Err(e),
    }
}

/// A shift or rotate on the accumulator: new value and new carry.
pub open spec fn shift_vals(mn: Mnemonic, v: u8, c: bool) -> (u8, bool) {
    if mn == Mnemonic::ASL || mn == Mnemonic::SLO {
        ((v << 1) as u8, v & 0x80 != 0)
    } else if mn == Mnemonic::LSR || mn == Mnemonic::SRE {
        ((v >> 1) as u8, v & 0x01 != 0)
    } else if mn == Mnemonic::ROL || mn == Mnemonic::RLA {
        ((((v << 1) as u8) | (if c { 0x01u8 } else { 0u8 })) as u8, v & 0x80 != 0)
    } else {
        ((((v >> 1) as u8) | (if c { 0x80u8 } else { 0u8 })) as u8, v & 0x01 != 0)
    }
}

/// A shift or rotate instruction: on the accumulator when the mode is
/// `NoneAddressing`, else read-modify-write on the operand address; carry
/// takes the shifted-out bit and the zero and negative flags follow the
/// result.
#[verifier::opaque]
pub open spec fn shift_s(s: CpuV, mn: Mnemonic, mode: AddressingMode) -> Result<CpuV, EmuError> {
    if mode == AddressingMode::NoneAddressing {
        let rv = shift_vals(mn, s.reg_a, s.reg_stat & 0x01 != 0);
        let st1 = set_c(s.reg_stat, rv.1);
        Ok(CpuV { reg_a: rv.0, reg_stat: upd_nz_s(st1, rv.0), ..s })
    } else {
        match fetch_s(s, mode) {
            Ok((s2, addr, v)) => {
                let rv = shift_vals(mn, v, s2.reg_stat & 0x01 != 0);
                let st1 = set_c(s2.reg_stat, rv.1);
                match wr(CpuV { reg_stat: st1, ..s2 }, addr, rv.0) {
                    Ok(s3) => Ok(CpuV { reg_stat: upd_nz_s(st1, rv.0), ..s3 }),
                    Err(e) => Err(e),
                }
            },
            Err(e) => Err(e),
        }
    }
}

/// A conditional branch: when taken, the signed displacement at the program
/// counter is read and added to the address after it.
#[verifier::opaque]
pub open spec fn branch_s(s: CpuV, cond: bool) -> Result<CpuV, EmuError> {
    if !cond {
        Ok(s)
    } else {
        match rd(s, s.reg_pc) {
            Ok((s1, off)) => {
                let off16: u16 = if off & 0x80 != 0 {
                    ((off as u16) | 0xFF00) as u16
                } else {
                    off as u16
                };
                Ok(CpuV { reg_pc: s1.reg_pc.wrapping_add(off16).wrapping_add(1), ..s1 }, )
            },
            Err(e) => Err(e),
        }
    }
}

/// BIT: zero flag from A AND the operand, overflow and negative copied from
/// operand bits 6 and 7.
#[verifier::opaque]
pub open spec fn bit_s(s: CpuV, mode: AddressingMode) -> Result<CpuV, EmuError> {
    match fetch_s(s, mode) {
        Ok((s2, a, v)) => {
            let st1: u8 = if v & s2.reg_a == 0 { s2.reg_stat | 0x02 } else { (s2.reg_stat & 0xFD) as u8 };
            let st2: u8 = if v & 0x40 != 0 { st1 | 0x40 } else { (st1 & 0xBF) as u8 };
            let st3: u8 = if v & 0x80 != 0 { st2 | 0x80 } else { (st2 & 0x7F) as u8 };
            Ok(CpuV { reg_stat: st3, ..s2 })
        },
        Err(e) => Err(e),
    }
}

/// BRK: pushes the program counter plus one (the opcode address plus two,
/// stepping over the padding byte) and the status with bits 4 and 5 set,
/// sets the interrupt-disable flag and jumps through the vector at $FFFE.
#[verifier::opaque]
pub open spec fn brk_s(s: CpuV) -> Result<CpuV, EmuError> {
    match push16_s(s, s.reg_pc.wrapping_add(1)) {
        Ok(s1) => match push_s(s1, (s1.reg_stat | 0x30) as u8) {
            Ok(s2) => match rd16(s2, 0xFFFE) {
                Ok((s3, w)) => Ok(CpuV { reg_pc: w, reg_stat: (s3.reg_stat | 0x04) as u8, ..s3 }),
                Err(e) => Err(e),
            },
            Err(e) => Err(e),
        },
        Err(e) => Err(e),
    }
}

/// RTI: pulls the status (bit 5 forced on, bit 4 forced off) and then the
/// program counter.
#[verifier::opaque]
pub open spec fn rti_s(s: CpuV) -> Result<CpuV, EmuError> {
    match pull_s(s) {
        Ok((s1, v)) => {
            let s1b = CpuV { reg_stat: ((v | 0x20) & 0xEF) as u8, ..s1 };
            match pull16_s(s1b) {
                Ok((s2, w)) => Ok(CpuV { reg_pc: w, ..s2 }),
                Err(e) => Err(e),
            }
        },
        Err(e) => Err(e),
    }
}

#[verifier::opaque]
pub open spec fn cmp_s(s: CpuV, mode: AddressingMode) -> Result<CpuV, EmuError> {
    match fetch_s(s, mode) {
        Ok((s2, a, v)) => Ok(cmp_apply_s(s2, s2.reg_a, v)),
        Err(e) => Err(e),
    }
}

#[verifier::opaque]
pub open spec fn cpx_s(s: CpuV, mode: AddressingMode) -> Result<CpuV, EmuError> {
    match fetch_s(s, mode) {
        Ok((s2, a, v)) => Ok(cmp_apply_s(s2, s2.reg_x, v)),
        Err(e) => Err(e),
    }
}

#[verifier::opaque]
pub open spec fn cpy_s(s: CpuV, mode: AddressingMode) -> Result<CpuV, EmuError> {
    match fetch_s(s, mode) {
        Ok((s2, a, v)) => Ok(cmp_apply_s(s2, s2.reg_y, v)),
        Err(e) => Err(e),
    }
}

#[verifier::opaque]
pub open spec fn sta_s(s: CpuV, mode: AddressingMode) -> Result<CpuV, EmuError> {
    match op_addr_s(s, mode) {
        Ok((s1, addr)) => wr(s1, addr, s1.reg_a),
        Err(e) => Err(e),
    }
}

#[verifier::opaque]
pub open spec fn stx_s(s: CpuV, mode: AddressingMode) -> Result<CpuV, EmuError> {
    match op_addr_s(s, mode) {
        Ok((s1, addr)) => wr(s1, addr, s1.reg_x),
        Err(e) => Err(e),
    }
}

#[verifier::opaque]
pub open spec fn sty_s(s: CpuV, mode: AddressingMode) -> Result<CpuV, EmuError> {
    match op_addr_s(s, mode) {
        Ok((s1, addr)) => wr(s1, addr, s1.reg_y),
        Err(e) => Err(e),
    }
}

#[verifier::opaque]
pub open spec fn pla_s(s: CpuV) -> Result<CpuV, EmuError> {
    match pull_s(s) {
        Ok((s1, v)) => Ok(CpuV { reg_a: v, reg_stat: upd_nz_s(s1.reg_stat, v), ..s1 }),
        Err(e) => Err(e),
    }
}

/// PLP: bit 5 is forced on and bit 4 off in the restored status.
#[verifier::opaque]
pub open spec fn plp_s(s: CpuV) -> Result<CpuV, EmuError> {
    match pull_s(s) {
        Ok((s1, v)) => Ok(CpuV { reg_stat: ((v | 0x20) & 0xEF) as u8, ..s1 }),
        Err(e) => Err(e),
    }
}

/// INC or DEC: read-modify-write with wraparound; flags from the written
/// value.
#[verifier::opaque]
pub open spec fn incdec_s(s: CpuV, mode: AddressingMode, up: bool) -> Result<CpuV, EmuError> {
    match fetch_s(s, mode) {
        Ok((s2, addr, v)) => {
            let w: u8 = if up { v.wrapping_add(1) } else { v.wrapping_sub(1) };
            match wr(s2, addr, w) {
                Ok(s3) => Ok(CpuV { reg_stat: upd_nz_s(s3.reg_stat, w), ..s3 }),
                Err(e) => Err(e),
            }
        },
        Err(e) => Err(e),
    }
}

#[verifier::opaque]
pub open spec fn jmp_s(s: CpuV, mode: AddressingMode) -> Result<CpuV, EmuError> {
    match op_addr_s(s, mode) {
        Ok((s1, addr)) => Ok(CpuV { reg_pc: addr, ..s1 }),
        Err(e) => Err(e),
    }
}

/// JSR: pushes the address of the last byte of the instruction, then jumps.
#[verifier::opaque]
pub open spec fn jsr_s(s: CpuV, mode: AddressingMode) -> Result<CpuV, EmuError> {
    match op_addr_s(s, mode) {
        Ok((s1, addr)) => match push16_s(s1, s1.reg_pc.wrapping_add(1)) {
            Ok(s2) => Ok(CpuV { reg_pc: addr, ..s2 }),
            Err(e) => Err(e),
        },
        Err(e) => Err(e),
    }
}

/// RTS: pulls the return address and resumes one byte past it.
#[verifier::opaque]
pub open spec fn rts_s(s: CpuV) -> Result<CpuV, EmuError> {
    match pull16_s(s) {
        Ok((s1, w)) => Ok(CpuV { reg_pc: w.wrapping_add(1), ..s1 }),
        Err(e) => Err(e),
    }
}

/// A hardware NMI entry: pushes the program counter and the status with bit
/// 5 set and bit 4 clear, sets interrupt-disable, jumps through $FFFA,
/// marks the interrupt in service and accounts 7 cycles.
#[verifier::opaque]
pub open spec fn nmi_s(s: CpuV) -> Result<CpuV, EmuError> {
    match push16_s(s, s.reg_pc) {
        Ok(s1) => match push_s(s1, ((s1.reg_stat | 0x20) & 0xEF) as u8) {
            Ok(s2) => match rd16(s2, 0xFFFA) {
                Ok((s3, w)) => Ok(
                    CpuV {
                        reg_pc: w,
                        reg_stat: (s3.reg_stat | 0x04) as u8,
                        nmi_flag: true,
                        cycles: s3.cycles.wrapping_add(7),
                        ..s3
                    },
                ),
                Err(e) => Err(e),
            },
            Err(e) => Err(e),
        },
        Err(e) => Err(e),
    }
}

/// The effect of one instruction, after its opcode byte has been fetched
/// and its base cycles accrued.
pub open spec fn instr_s(s: CpuV, op: OpCode) -> Result<CpuV, EmuError> {
    match op.mnemonic {
        Mnemonic::ADC => adc_s(s, op.mode),
        Mnemonic::AND => and_s(s, op.mode),
        Mnemonic::ASL => shift_s(s, Mnemonic::ASL, op.mode),
        Mnemonic::BCC => branch_s(s, s.reg_stat & 0x01 == 0),
        Mnemonic::BCS => branch_s(s, s.reg_stat & 0x01 != 0),
        Mnemonic::BEQ => branch_s(s, s.reg_stat & 0x02 != 0),
        Mnemonic::BIT => bit_s(s, op.mode),
        Mnemonic::BMI => branch_s(s, s.reg_stat & 0x80 != 0),
        Mnemonic::BNE => branch_s(s, s.reg_stat & 0x02 == 0),
        Mnemonic::BPL => branch_s(s, s.reg_stat & 0x80 == 0),
        Mnemonic::BRK => brk_s(s),
        Mnemonic::BVC => branch_s(s, s.reg_stat & 0x40 == 0),
        Mnemonic::BVS => branch_s(s, s.reg_stat & 0x40 != 0),
        Mnemonic::CLC => Ok(CpuV { reg_stat: (s.reg_stat & 0xFE) as u8, ..s }),
        Mnemonic::CLD => Ok(CpuV { reg_stat: (s.reg_stat & 0xF7) as u8, ..s }),
        Mnemonic::CLI => Ok(CpuV { reg_stat: (s.reg_stat & 0xFB) as u8, ..s }),
        Mnemonic::CLV => Ok(CpuV { reg_stat: (s.reg_stat & 0xBF) as u8, ..s }),
        Mnemonic::CMP => cmp_s(s, op.mode),
        Mnemonic::CPX => cpx_s(s, op.mode),
        Mnemonic::CPY => cpy_s(s, op.mode),
        Mnemonic::DCP => match incdec_s(s, op.mode, false) {
            Ok(s1) => cmp_s(s1, op.mode),
            Err(e) => Err(e),
        },
        Mnemonic::DEC => incdec_s(s, op.mode, false),
        Mnemonic::DEX => Ok(
            CpuV {
                reg_x: s.reg_x.wrapping_sub(1),
                reg_stat: upd_nz_s(s.reg_stat, s.reg_x.wrapping_sub(1)),
                ..s
            },
        ),
        Mnemonic::DEY => Ok(
            CpuV {
                reg_y: s.reg_y.wrapping_sub(1),
                reg_stat: upd_nz_s(s.reg_stat, s.reg_y.wrapping_sub(1)),
                ..s
            },
        ),
        Mnemonic::EOR => eor_s(s, op.mode),
        Mnemonic::INC => incdec_s(s, op.mode, true),
        Mnemonic::ISB => match incdec_s(s, op.mode, true) {
            Ok(s1) => sbc_s(s1, op.mode),
            Err(e) => Err(e),
        },
        Mnemonic::INX => Ok(
            CpuV {
                reg_x: s.reg_x.wrapping_add(1),
                reg_stat: upd_nz_s(s.reg_stat, s.reg_x.wrapping_add(1)),
                ..s
            },
        ),
        Mnemonic::INY => Ok(
            CpuV {
                reg_y: s.reg_y.wrapping_add(1),
                reg_stat: upd_nz_s(s.reg_stat, s.reg_y.wrapping_add(1)),
                ..s
            },
        ),
        Mnemonic::JMP => jmp_s(s, op.mode),
        Mnemonic::JSR => jsr_s(s, op.mode),
        Mnemonic::LDA => lda_s(s, op.mode),
        Mnemonic::LDX => ldx_s(s, op.mode),
        Mnemonic::LDY => ldy_s(s, op.mode),
        Mnemonic::LAX => match lda_s(s, op.mode) {
            Ok(s1) => ldx_s(s1, op.mode),
            Err(e) => Err(e),
        },
        Mnemonic::LSR => shift_s(s, Mnemonic::LSR, op.mode),
        Mnemonic::NOP => Ok(s),
        Mnemonic::ORA => ora_s(s, op.mode),
        Mnemonic::PHA => push_s(s, s.reg_a),
        Mnemonic::PHP => push_s(s, (s.reg_stat | 0x30) as u8),
        Mnemonic::PLA => pla_s(s),
        Mnemonic::PLP => plp_s(s),
        Mnemonic::RLA => match shift_s(s, Mnemonic::ROL, op.mode) {
            Ok(s1) => and_s(s1, op.mode),
            Err(e) => Err(e),
        },
        Mnemonic::ROL => shift_s(s, Mnemonic::ROL, op.mode),
        Mnemonic::ROR => shift_s(s, Mnemonic::ROR, op.mode),
        Mnemonic::RRA => match shift_s(s, Mnemonic::ROR, op.mode) {
            Ok(s1) => adc_s(s1, op.mode),
            Err(e) => Err(e),
        },
        Mnemonic::RTI => rti_s(s),
        Mnemonic::RTS => rts_s(s),
        Mnemonic::SAX => sax_s(s, op.mode),
        Mnemonic::SBC => sbc_s(s, op.mode),
        Mnemonic::SEC => Ok(CpuV { reg_stat: (s.reg_stat | 0x01) as u8, ..s }),
        Mnemonic::SED => Ok(CpuV { reg_stat: (s.reg_stat | 0x08) as u8, ..s }),
        Mnemonic::SEI => Ok(CpuV { reg_stat: (s.reg_stat | 0x04) as u8, ..s }),
        Mnemonic::SLO => match shift_s(s, Mnemonic::ASL, op.mode) {
            Ok(s1) => ora_s(s1, op.mode),
            Err(e) => Err(e),
        },
        Mnemonic::SRE => match shift_s(s, Mnemonic::LSR, op.mode) {
            Ok(s1) => eor_s(s1, op.mode),
            Err(e) => Err(e),
        },
        Mnemonic::STA => sta_s(s, op.mode),
        Mnemonic::STX => stx_s(s, op.mode),
        Mnemonic::STY => sty_s(s, op.mode),
        Mnemonic::TAX => Ok(
            CpuV { reg_x: s.reg_a, reg_stat: upd_nz_s(s.reg_stat, s.reg_a), ..s },
        ),
        Mnemonic::TAY => Ok(
            CpuV { reg_y: s.reg_a, reg_stat: upd_nz_s(s.reg_stat, s.reg_a), ..s },
        ),
        Mnemonic::TSX => Ok(
            CpuV { reg_x: s.reg_sp, reg_stat: upd_nz_s(s.reg_stat, s.reg_sp), ..s },
        ),
        Mnemonic::TXA => Ok(
            CpuV { reg_a: s.reg_x, reg_stat: upd_nz_s(s.reg_stat, s.reg_x), ..s },
        ),
        Mnemonic::TXS => Ok(CpuV { reg_sp: s.reg_x, ..s }),
        Mnemonic::TYA => Ok(
            CpuV { reg_a: s.reg_y, reg_stat: upd_nz_s(s.reg_stat, s.reg_y), ..s },
        ),
    }
}

/// The mnemonics that earn a page-cross penalty cycle under the indexed
/// read modes.
pub open spec fn is_read_mn(m: Mnemonic) -> bool {
    ||| m == Mnemonic::ADC ||| m == Mnemonic::AND ||| m == Mnemonic::CMP ||| m == Mnemonic::EOR
    ||| m == Mnemonic::LDA ||| m == Mnemonic::LDX ||| m == Mnemonic::LDY ||| m == Mnemonic::ORA
    ||| m == Mnemonic::SBC ||| m == Mnemonic::NOP ||| m == Mnemonic::LAX
}

/// The branch mnemonics.
pub open spec fn is_branch_mn(m: Mnemonic) -> bool {
    ||| m == Mnemonic::BCC ||| m == Mnemonic::BCS ||| m == Mnemonic::BEQ ||| m == Mnemonic::BVC
    ||| m == Mnemonic::BMI ||| m == Mnemonic::BNE ||| m == Mnemonic::BPL ||| m == Mnemonic::BVS
}

/// Penalty cycles after an instruction: one more for an indexed read whose
/// effective address crossed a page (probed by resolving the operand
/// address again), and for branches one when taken plus one more when the
/// taken branch crossed a page. `pc_state` is the program counter right
/// after the opcode fetch.
#[verifier::opaque]
pub open spec fn penalty_s(s: CpuV, op: OpCode, pc_state: u16) -> Result<CpuV, EmuError> {
    if is_read_mn(op.mnemonic) {
        if op.mode == AddressingMode::Absolute_X || op.mode == AddressingMode::Absolute_Y {
            match op_addr_s(s, op.mode) {
                Ok((s1, a1)) => match op_addr_s(s1, AddressingMode::Absolute) {
                    Ok((s2, a2)) => if a1 & 0xFF00 != a2 & 0xFF00 {
                        Ok(CpuV { cycles: s2.cycles.wrapping_add(1), ..s2 })
                    } else {
                        Ok(s2)
                    },
                    Err(e) => Err(e),
                },
                Err(e) => Err(e),
            }
        } else if op.mode == AddressingMode::Indirect_Y {
            match op_addr_s(s, op.mode) {
                Ok((s1, a1)) => match op_addr_s(s1, op.mode) {
                    Ok((s2, a2)) => if a1 & 0xFF00 != a2.wrapping_sub(s.reg_y as u16) & 0xFF00 {
                        Ok(CpuV { cycles: s2.cycles.wrapping_add(1), ..s2 })
                    } else {
                        Ok(s2)
                    },
                    Err(e) => Err(e),
                },
                Err(e) => Err(e),
            }
        } else {
            Ok(s)
        }
    } else if is_branch_mn(op.mnemonic) {
        if pc_state != s.reg_pc {
            let s1 = CpuV { cycles: s.cycles.wrapping_add(1), ..s };
            if pc_state.wrapping_add((op.len - 1) as u16) & 0xFF00 != s.reg_pc & 0xFF00 {
                Ok(CpuV { cycles: s1.cycles.wrapping_add(1), ..s1 })
            } else {
                Ok(s1)
            }
        } else {
            Ok(s)
        }
    } else {
        Ok(s)
    }
}

/// The end-of-step catch-up: when cycles accrued, the PPU advances three
/// dots per cycle, the total is accumulated, and the accrual resets.
pub open spec fn tick_wrap_s(s: CpuV) -> CpuV {
    if s.cycles > 0 {
        CpuV {
            cycles: 0,
            tot_cycles: s.tot_cycles.wrapping_add(s.cycles as u32),
            bus: BusV { ppu: tick_n_s(s.bus.ppu, (3 * s.cycles) as nat).0, ..s.bus },
            ..s
        }
    } else {
        s
    }
}

/// One interpreter step. With the program counter at the top of memory
/// nothing happens. A rising edge of the PPU's NMI line enters the
/// interrupt handler; otherwise the edge latch follows the line, the opcode
/// is fetched and dispatched, penalties accrue, the program counter
/// advances past the operand bytes unless the instruction set it, and the
/// PPU catches up.
pub open spec fn step_s(s: CpuV) -> Result<CpuV, EmuError> {
    if s.reg_pc >= 0xFFFF {
        Ok(s)
    } else if s.bus.ppu.nmi_interrupt && !s.nmi_flag {
        match nmi_s(s) {
            Ok(s1) => Ok(tick_wrap_s(s1)),
            Err(e) => Err(e),
        }
    } else {
        let s0 = if !s.bus.ppu.nmi_interrupt {
            CpuV { nmi_flag: false, ..s }
        } else {
            s
        };
        match rd(s0, s0.reg_pc) {
            Err(e) => Err(e),
            Ok((s1, code)) => {
                let s2 = CpuV { reg_pc: s1.reg_pc.wrapping_add(1), ..s1 };
                match opcode_s(code) {
                    None => Err(EmuError::UnknownOpcode(code)),
                    Some(op) => {
                        let s3 = CpuV { cycles: s2.cycles.wrapping_add(op.cycles), ..s2 };
                        let pc_state = s3.reg_pc;
                        match instr_s(s3, op) {
                            Err(e) => Err(e),
                            Ok(s4) => match penalty_s(s4, op, pc_state) {
                                Err(e) => Err(e),
                                Ok(s5) => {
                                    let s6 = if pc_state == s5.reg_pc {
                                        CpuV {
                                            reg_pc: s5.reg_pc.wrapping_add((op.len - 1) as u16),
                                            ..s5
                                        }
                                    } else {
                                        s5
                                    };
                                    Ok(tick_wrap_s(s6))
                                },
                            },
                        }
                    },
                }
            },
        }
    }
}

/// The machine right after a reset: registers cleared, status $24, stack
/// pointer $FD, the program counter loaded from the vector at $FFFC, and
/// seven cycles on the total.
pub open spec fn reset_s(s: CpuV) -> Result<CpuV, EmuError> {
    let s0 = CpuV { reg_a: 0, reg_x: 0, reg_y: 0, reg_stat: 0x24, reg_sp: 0xFD, ..s };
    match rd16(s0, 0xFFFC) {
        Ok((s1, w)) => Ok(CpuV { reg_pc: w, tot_cycles: 7, ..s1 }),
        Err(e) => Err(e),
    }
}

/// Byte access as the CPU core performs it, shared by the CPU and the bus
/// it owns. All four operations act on the bus state and may carry the
/// side effects the address map prescribes.
pub trait Mem {
    /// The bus invariant an implementor maintains.
    spec fn mem_wf(&self) -> bool;

    /// The bus state the operations act on.
    spec fn mem_view(&self) -> BusV;

    fn mem_read(&mut self, addr: u16) -> (r: Result<u8, EmuError>)
        requires
            old(self).mem_wf(),
        ensures
            final(self).mem_wf(),
            match bus_read_s(old(self).mem_view(), addr) {
                Ok(bv) => r == Ok::<u8, EmuError>(bv.1) && final(self).mem_view() == bv.0,
                Err(e) => r == Err::<u8, EmuError>(e) && final(self).mem_view()
                    == bus_read_err_s(old(self).mem_view()),
            },
    ;

    fn mem_write(&mut self, addr: u16, data: u8) -> (r: Result<(), EmuError>)
        requires
            old(self).mem_wf(),
        ensures
            final(self).mem_wf(),
            match bus_write_s(old(self).mem_view(), addr, data) {
                Ok(bv) => r == Ok::<(), EmuError>(()) && final(self).mem_view() == bv,
                Err(e) => r == Err::<(), EmuError>(e),
            },
    ;

    fn mem_read16(&mut self, pos: u16) -> (r: Result<u16, EmuError>)
        requires
            old(self).mem_wf(),
        ensures
            final(self).mem_wf(),
            match bus_read16_s(old(self).mem_view(), pos) {
                Ok(bv) => r == Ok::<u16, EmuError>(bv.1) && final(self).mem_view() == bv.0,
                Err(e) => r == Err::<u16, EmuError>(e) && final(self).mem_view() == (
                match bus_read_s(old(self).mem_view(), pos) {
                    Ok(lo) => bus_read_err_s(lo.0),
                    Err(_) => bus_read_err_s(old(self).mem_view()),
                }),
            },
    ;

    fn mem_write16(&mut self, pos: u16, data: u16) -> (r: Result<(), EmuError>)
        requires
            old(self).mem_wf(),
        ensures
            final(self).mem_wf(),
            ({
                let first = bus_write_s(old(self).mem_view(), pos, ((data >> 8) as u8));
                match first {
                    Ok(b1) => match bus_write_s(b1, ((pos + 1) % 0x10000) as u16, (data
                        & 0x00FF) as u8) {
                        Ok(b2) => r == Ok::<(), EmuError>(()) && final(self).mem_view() == b2,
                        Err(e) => r == Err::<(), EmuError>(e),
                    },
                    Err(e) => r == Err::<(), EmuError>(e),
                }
            }),
    ;
}

impl Mem for Bus {
    open spec fn mem_wf(&self) -> bool {
        self.wf()
    }

    open spec fn mem_view(&self) -> BusV {
        self@
    }

    fn mem_read(&mut self, addr: u16) -> (r: Result<u8, EmuError>) {
        Bus::mem_read(self, addr)
    }

    fn mem_write(&mut self, addr: u16, data: u8) -> (r: Result<(), EmuError>) {
        Bus::mem_write(self, addr, data)
    }

    fn mem_read16(&mut self, pos: u16) -> (r: Result<u16, EmuError>) {
        Bus::mem_read16(self, pos)
    }

    fn mem_write16(&mut self, pos: u16, data: u16) -> (r: Result<(), EmuError>) {
        Bus::mem_write16(self, pos, data)
    }
}

pub struct CPU {
    pub nmi_flag: bool,
    pub cycles: u8,
    pub tot_cycles: u32,
    pub reg_a: u8,
    pub reg_x: u8,
    pub reg_y: u8,
    pub reg_stat: u8,
    pub reg_pc: u16,
    pub reg_sp: u8,
    pub mem_bus: Bus,
}

impl View for CPU {
    type V = CpuV;

    open spec fn view(&self) -> CpuV {
        CpuV {
            nmi_flag: self.nmi_flag,
            cycles: self.cycles,
            tot_cycles: self.tot_cycles,
            reg_a: self.reg_a,
            reg_x: self.reg_x,
            reg_y: self.reg_y,
            reg_stat: self.reg_stat,
            reg_pc: self.reg_pc,
            reg_sp: self.reg_sp,
            bus: self.mem_bus@,
        }
    }
}

impl Mem for CPU {
    open spec fn mem_wf(&self) -> bool {
        self.mem_bus.wf()
    }

    open spec fn mem_view(&self) -> BusV {
        self.mem_bus@
    }

    fn mem_read(&mut self, addr: u16) -> (r: Result<u8, EmuError>) {
        Bus::mem_read(&mut self.mem_bus, addr)
    }

    fn mem_write(&mut self, addr: u16, data: u8) -> (r: Result<(), EmuError>) {
        Bus::mem_write(&mut self.mem_bus, addr, data)
    }

    fn mem_read16(&mut self, pos: u16) -> (r: Result<u16, EmuError>) {
        Bus::mem_read16(&mut self.mem_bus, pos)
    }

    fn mem_write16(&mut self, pos: u16, data: u16) -> (r: Result<(), EmuError>) {
        Bus::mem_write16(&mut self.mem_bus, pos, data)
    }
}

impl CPU {
    pub open spec fn wf(&self) -> bool {
        cpu_wf(self@)
    }

    /// A CPU at power-up around a bus: cleared registers, status $30, stack
    /// pointer $FF.
    pub fn new(mem_bus: Bus) -> (r: Self)
        ensures
            r@ == (CpuV {
                nmi_flag: false,
                cycles: 0u8,
                tot_cycles: 0u32,
                reg_a: 0u8,
                reg_x: 0u8,
                reg_y: 0u8,
                reg_stat: 0x30u8,
                reg_pc: 0u16,
                reg_sp: 0xFFu8,
                bus: mem_bus@,
            }),
    {
        CPU {
            nmi_flag: false,
            cycles: 0,
            tot_cycles: 0,
            reg_a: 0,
            reg_x: 0,
            reg_y: 0,
            reg_stat: 0x30,
            reg_pc: 0,
            reg_sp: 0xFF,
            mem_bus,
        }
    }

    fn rd_byte(&mut self, addr: u16) -> (r: Result<u8, EmuError>)
        requires
            cpu_wf(old(self)@),
        ensures
            cpu_wf(final(self)@),
            match rd(old(self)@, addr) {
                Ok(sv) => r == Ok::<u8, EmuError>(sv.1) && final(self)@ == sv.0,
                Err(e) => r == Err::<u8, EmuError>(e),
            },
    {
        proof {
            reveal(rd);
        }
        Bus::mem_read(&mut self.mem_bus, addr)
    }

    fn rd_word(&mut self, addr: u16) -> (r: Result<u16, EmuError>)
        requires
            cpu_wf(old(self)@),
        ensures
            cpu_wf(final(self)@),
            match rd16(old(self)@, addr) {
                Ok(sv) => r == Ok::<u16, EmuError>(sv.1) && final(self)@ == sv.0,
                Err(e) => r == Err::<u16, EmuError>(e),
            },
    {
        proof {
            reveal(rd16);
        }
        Bus::mem_read16(&mut self.mem_bus, addr)
    }

    fn wr_byte(&mut self, addr: u16, val: u8) -> (r: Result<(), EmuError>)
        requires
            cpu_wf(old(self)@),
        ensures
            cpu_wf(final(self)@),
            steps_to(wr(old(self)@, addr, val), final(self)@, r),
    {
        proof {
            reveal(wr);
        }
        Bus::mem_write(&mut self.mem_bus, addr, val)
    }

    /// Resets the registers and loads the program counter from the reset
    /// vector at $FFFC.
    pub fn reset(&mut self) -> (r: Result<(), EmuError>)
        requires
            cpu_wf(old(self)@),
        ensures
            cpu_wf(final(self)@),
            steps_to(reset_s(old(self)@), final(self)@, r),
    {
        proof {
            reveal(rd16);
        }
        self.reg_a = 0;
        self.reg_x = 0;
        self.reg_y = 0;
        self.reg_stat = 0x24;
        self.reg_sp = 0xFD;
        let w = match self.rd_word(0xFFFC) {
            Ok(w) => w,
            Err(e) => {
                return Err(e);
            },
        };
        self.reg_pc = w;
        self.tot_cycles = 7;
        Ok(())
    }

    fn stack_push(&mut self, val: u8) -> (r: Result<(), EmuError>)
        requires
            cpu_wf(old(self)@),
        ensures
            cpu_wf(final(self)@),
            steps_to(push_s(old(self)@, val), final(self)@, r),
    {
        proof {
            reveal(wr);
        }
        match self.wr_byte(0x0100 + self.reg_sp as u16, val) {
            Ok(()) => {},
            Err(e) => {
                return Err(e);
            },
        }
        if self.reg_sp == 0x00 {
            self.reg_sp = 0xFF;
        } else {
            self.reg_sp = self.reg_sp - 1;
        }
        Ok(())
    }

    fn stack_push16(&mut self, val: u16) -> (r: Result<(), EmuError>)
        requires
            cpu_wf(old(self)@),
        ensures
            cpu_wf(final(self)@),
            steps_to(push16_s(old(self)@, val), final(self)@, r),
    {
        proof {
            assert(val >> 8 < 256 && val & 0x00FF < 256) by (bit_vector);
        }
        let hi = (val >> 8) as u8;
        let lo = (val & 0x00FF) as u8;
        match self.stack_push(hi) {
            Ok(()) => {},
            Err(e) => {
                return Err(e);
            },
        }
        self.stack_push(lo)
    }

    fn stack_pull(&mut self) -> (r: Result<u8, EmuError>)
        requires
            cpu_wf(old(self)@),
        ensures
            cpu_wf(final(self)@),
            match pull_s(old(self)@) {
                Ok(sv) => r == Ok::<u8, EmuError>(sv.1) && final(self)@ == sv.0,
                Err(e) => r == Err::<u8, EmuError>(e),
            },
    {
        proof {
            reveal(rd);
        }
        if self.reg_sp == 0xFF {
            self.reg_sp = 0x00;
        } else {
            self.reg_sp = self.reg_sp + 1;
        }
        self.rd_byte(0x0100 + self.reg_sp as u16)
    }

    fn stack_pull16(&mut self) -> (r: Result<u16, EmuError>)
        requires
            cpu_wf(old(self)@),
        ensures
            cpu_wf(final(self)@),
            match pull16_s(old(self)@) {
                Ok(sv) => r == Ok::<u16, EmuError>(sv.1) && final(self)@ == sv.0,
                Err(e) => r == Err::<u16, EmuError>(e),
            },
    {
        let lo = match self.stack_pull() {
            Ok(v) => v,
            Err(e) => {
                return Err(e);
            },
        };
        let hi = match self.stack_pull() {
            Ok(v) => v,
            Err(e) => {
                return Err(e);
            },
        };
        Ok(((hi as u16) << 8) | (lo as u16))
    }

    fn update_nz(&mut self, res: u8)
        ensures
            final(self)@ == (CpuV { reg_stat: upd_nz_s(old(self)@.reg_stat, res), ..old(self)@ }),
    {
        if res == 0 {
            self.reg_stat = self.reg_stat | 0x02;
        } else {
            self.reg_stat = self.reg_stat & 0xFD;
        }
        if res & 0x80 != 0 {
            self.reg_stat = self.reg_stat | 0x80;
        } else {
            self.reg_stat = self.reg_stat & 0x7F;
        }
    }

    /// Resolves the operand address of the instruction at the program
    /// counter under `mode`, performing the reads the hardware performs.
    pub fn get_op_addr(&mut self, mode: &AddressingMode) -> (r: Result<u16, EmuError>)
        requires
            cpu_wf(old(self)@),
            *mode != AddressingMode::NoneAddressing,
        ensures
            cpu_wf(final(self)@),
            match op_addr_s(old(self)@, *mode) {
                Ok(sv) => r == Ok::<u16, EmuError>(sv.1) && final(self)@ == sv.0,
                Err(e) => r == Err::<u16, EmuError>(e),
            },
    {
        proof {
            reveal(op_addr_s);
            reveal(rd);
            reveal(rd16);
        }
        let pc = self.reg_pc;
        let x = self.reg_x;
        let y = self.reg_y;
        let arg = match self.rd_byte(pc) {
            Ok(v) => v,
            Err(e) => {
                return Err(e);
            },
        };
        let arg2 = match self.rd_byte(pc.wrapping_add(1)) {
            Ok(v) => v,
            Err(e) => {
                return Err(e);
            },
        };
        let arg3 = match self.rd_word(pc) {
            Ok(v) => v,
            Err(e) => {
                return Err(e);
            },
        };
        match mode {
            AddressingMode::Immediate => Ok(pc),
            AddressingMode::ZeroPage => match self.rd_byte(pc) {
                Ok(v) => Ok(v as u16),
                Err(e) => Err(e),
            },
            AddressingMode::Absolute => self.rd_word(pc),
            AddressingMode::ZeroPage_X => match self.rd_byte(pc) {
                Ok(v) => Ok(v.wrapping_add(x) as u16),
                Err(e) => Err(e),
            },
            AddressingMode::ZeroPage_Y => match self.rd_byte(pc) {
                Ok(v) => Ok(v.wrapping_add(y) as u16),
                Err(e) => Err(e),
            },
            AddressingMode::Absolute_X => match self.rd_word(pc) {
                Ok(v) => Ok(v.wrapping_add(x as u16)),
                Err(e) => Err(e),
            },
            AddressingMode::Absolute_Y => match self.rd_word(pc) {
                Ok(v) => Ok(v.wrapping_add(y as u16)),
                Err(e) => Err(e),
            },
            AddressingMode::Indirect => {
                let lo = match self.rd_byte(arg3) {
                    Ok(v) => v,
                    Err(e) => {
                        return Err(e);
                    },
                };
                proof {
                    lemma_hi_byte_bound(arg2);
                    lemma_hi_byte_bound(lo);
                }
                let hi_addr = (arg.wrapping_add(1) as u16) + ((arg2 as u16) << 8);
                let hi = match self.rd_byte(hi_addr) {
                    Ok(v) => v,
                    Err(e) => {
                        return Err(e);
                    },
                };
                proof {
                    lemma_hi_byte_bound(hi);
                }
                Ok((lo as u16) + ((hi as u16) << 8))
            },
            AddressingMode::Indirect_X => {
                let lo = match self.rd_byte(arg.wrapping_add(x) as u16) {
                    Ok(v) => v,
                    Err(e) => {
                        return Err(e);
                    },
                };
                let hi = match self.rd_byte(arg.wrapping_add(x).wrapping_add(1) as u16) {
                    Ok(v) => v,
                    Err(e) => {
                        return Err(e);
                    },
                };
                proof {
                    lemma_hi_byte_bound(hi);
                }
                Ok((lo as u16) + ((hi as u16) << 8))
            },
            AddressingMode::Indirect_Y => {
                let lo = match self.rd_byte(arg as u16) {
                    Ok(v) => v,
                    Err(e) => {
                        return Err(e);
                    },
                };
                let hi = match self.rd_byte(arg.wrapping_add(1) as u16) {
                    Ok(v) => v,
                    Err(e) => {
                        return Err(e);
                    },
                };
                proof {
                    lemma_hi_byte_bound(hi);
                }
                Ok(((lo as u16) + ((hi as u16) << 8)).wrapping_add(y as u16))
            },
            AddressingMode::NoneAddressing => Ok(0),
        }
    }

    /// Resolves the operand address and reads the operand byte.
    fn fetch_operand(&mut self, mode: &AddressingMode) -> (r: Result<(u16, u8), EmuError>)
        requires
            cpu_wf(old(self)@),
            *mode != AddressingMode::NoneAddressing,
        ensures
            cpu_wf(final(self)@),
            match fetch_s(old(self)@, *mode) {
                Ok(sv) => r == Ok::<(u16, u8), EmuError>((sv.1, sv.2)) && final(self)@ == sv.0,
                Err(e) => r == Err::<(u16, u8), EmuError>(e),
            },
    {
        proof {
            reveal(fetch_s);
            reveal(rd);
        }
        let addr = match self.get_op_addr(mode) {
            Ok(a) => a,
            Err(e) => {
                return Err(e);
            },
        };
        let v = match self.rd_byte(addr) {
            Ok(v) => v,
            Err(e) => {
                return Err(e);
            },
        };
        Ok((addr, v))
    }

    fn lda(&mut self, mode: &AddressingMode) -> (r: Result<(), EmuError>)
        requires
            cpu_wf(old(self)@),
            *mode != AddressingMode::NoneAddressing,
        ensures
            cpu_wf(final(self)@),
            steps_to(lda_s(old(self)@, *mode), final(self)@, r),
    {
        proof {
            reveal(lda_s);
        }
        let v = match self.fetch_operand(mode) {
            Ok((_a, v)) => v,
            Err(e) => {
                return Err(e);
            },
        };
        self.reg_a = v;
        self.update_nz(v);
        Ok(())
    }

    fn ldx(&mut self, mode: &AddressingMode) -> (r: Result<(), EmuError>)
        requires
            cpu_wf(old(self)@),
            *mode != AddressingMode::NoneAddressing,
        ensures
            cpu_wf(final(self)@),
            steps_to(ldx_s(old(self)@, *mode), final(self)@, r),
    {
        proof {
            reveal(ldx_s);
        }
        let v = match self.fetch_operand(mode) {
            Ok((_a, v)) => v,
            Err(e) => {
                return Err(e);
            },
        };
        self.reg_x = v;
        self.update_nz(v);
        Ok(())
    }

    fn ldy(&mut self, mode: &AddressingMode) -> (r: Result<(), EmuError>)
        requires
            cpu_wf(old(self)@),
            *mode != AddressingMode::NoneAddressing,
        ensures
            cpu_wf(final(self)@),
            steps_to(ldy_s(old(self)@, *mode), final(self)@, r),
    {
        proof {
            reveal(ldy_s);
        }
        let v = match self.fetch_operand(mode) {
            Ok((_a, v)) => v,
            Err(e) => {
                return Err(e);
            },
        };
        self.reg_y = v;
        self.update_nz(v);
        Ok(())
    }

    /// Adds `m` and the carry flag into the accumulator and refreshes the
    /// carry, overflow, zero and negative flags.
    fn adc_core(&mut self, m: u8)
        ensures
            final(self)@ == adc_apply_s(old(self)@, m),
    {
        let cin: u8 = self.reg_stat & 0x01;
        let sum: u16 = self.reg_a as u16 + m as u16 + cin as u16;
        let res: u8 = (sum % 256) as u8;
        if sum >= 0x100 {
            self.reg_stat = self.reg_stat | 0x01;
        } else {
            self.reg_stat = self.reg_stat & 0xFE;
        }
        if (self.reg_a ^ res) & (m ^ res) & 0x80 != 0 {
            self.reg_stat = self.reg_stat | 0x40;
        } else {
            self.reg_stat = self.reg_stat & 0xBF;
        }
        self.reg_a = res;
        self.update_nz(res);
    }

    fn adc(&mut self, mode: &AddressingMode) -> (r: Result<(), EmuError>)
        requires
            cpu_wf(old(self)@),
            *mode != AddressingMode::NoneAddressing,
        ensures
            cpu_wf(final(self)@),
            steps_to(adc_s(old(self)@, *mode), final(self)@, r),
    {
        proof {
            reveal(adc_s);
        }
        let v = match self.fetch_operand(mode) {
            Ok((_a, v)) => v,
            Err(e) => {
                return Err(e);
            },
        };
        self.adc_core(v);
        Ok(())
    }

    fn sbc(&mut self, mode: &AddressingMode) -> (r: Result<(), EmuError>)
        requires
            cpu_wf(old(self)@),
            *mode != AddressingMode::NoneAddressing,
        ensures
            cpu_wf(final(self)@),
            steps_to(sbc_s(old(self)@, *mode), final(self)@, r),
    {
        proof {
            reveal(sbc_s);
        }
        let v = match self.fetch_operand(mode) {
            Ok((_a, v)) => v,
            Err(e) => {
                return Err(e);
            },
        };
        self.adc_core(!v);
        Ok(())
    }

    fn and(&mut self, mode: &AddressingMode) -> (r: Result<(), EmuError>)
        requires
            cpu_wf(old(self)@),
            *mode != AddressingMode::NoneAddressing,
        ensures
            cpu_wf(final(self)@),
            steps_to(and_s(old(self)@, *mode), final(self)@, r),
    {
        proof {
            reveal(and_s);
        }
        let v = match self.fetch_operand(mode) {
            Ok((_a, v)) => v,
            Err(e) => {
                return Err(e);
            },
        };
        self.reg_a = self.reg_a & v;
        let a = self.reg_a;
        self.update_nz(a);
        Ok(())
    }

    fn ora(&mut self, mode: &AddressingMode) -> (r: Result<(), EmuError>)
        requires
            cpu_wf(old(self)@),
            *mode != AddressingMode::NoneAddressing,
        ensures
            cpu_wf(final(self)@),
            steps_to(ora_s(old(self)@, *mode), final(self)@, r),
    {
        proof {
            reveal(ora_s);
        }
        let v = match self.fetch_operand(mode) {
            Ok((_a, v)) => v,
            Err(e) => {
                return Err(e);
            },
        };
        self.reg_a = self.reg_a | v;
        let a = self.reg_a;
        self.update_nz(a);
        Ok(())
    }

    fn eor(&mut self, mode: &AddressingMode) -> (r: Result<(), EmuError>)
        requires
            cpu_wf(old(self)@),
            *mode != AddressingMode::NoneAddressing,
        ensures
            cpu_wf(final(self)@),
            steps_to(eor_s(old(self)@, *mode), final(self)@, r),
    {
        proof {
            reveal(eor_s);
        }
        let v = match self.fetch_operand(mode) {
            Ok((_a, v)) => v,
            Err(e) => {
                return Err(e);
            },
        };
        self.reg_a = self.reg_a ^ v;
        let a = self.reg_a;
        self.update_nz(a);
        Ok(())
    }

    fn sax(&mut self, mode: &AddressingMode) -> (r: Result<(), EmuError>)
        requires
            cpu_wf(old(self)@),
            *mode != AddressingMode::NoneAddressing,
        ensures
            cpu_wf(final(self)@),
            steps_to(sax_s(old(self)@, *mode), final(self)@, r),
    {
        proof {
            reveal(sax_s);
            reveal(wr);
        }
        let addr = match self.get_op_addr(mode) {
            Ok(a) => a,
            Err(e) => {
                return Err(e);
            },
        };
        let v = self.reg_a & self.reg_x;
        self.wr_byte(addr, v)
    }

    /// A shift or rotate: on the accumulator under `NoneAddressing`, else
    /// read-modify-write on the operand.
    fn shift_op(&mut self, mn: Mnemonic, mode: &AddressingMode) -> (r: Result<(), EmuError>)
        requires
            cpu_wf(old(self)@),
        ensures
            cpu_wf(final(self)@),
            steps_to(shift_s(old(self)@, mn, *mode), final(self)@, r),
    {
        proof {
            reveal(shift_s);
            reveal(wr);
        }
        if *mode == AddressingMode::NoneAddressing {
            let c = self.reg_stat & 0x01 != 0;
            let (nv, cout) = shift_vals_e(mn, self.reg_a, c);
            if cout {
                self.reg_stat = self.reg_stat | 0x01;
            } else {
                self.reg_stat = self.reg_stat & 0xFE;
            }
            self.reg_a = nv;
            self.update_nz(nv);
            Ok(())
        } else {
            let (addr, v) = match self.fetch_operand(mode) {
                Ok(av) => av,
                Err(e) => {
                    return Err(e);
                },
            };
            let c = self.reg_stat & 0x01 != 0;
            let (nv, cout) = shift_vals_e(mn, v, c);
            if cout {
                self.reg_stat = self.reg_stat | 0x01;
            } else {
                self.reg_stat = self.reg_stat & 0xFE;
            }
            match self.wr_byte(addr, nv) {
                Ok(()) => {},
                Err(e) => {
                    return Err(e);
                },
            }
            self.update_nz(nv);
            Ok(())
        }
    }

    /// A conditional branch on `cond`: reads the displacement only when
    /// taken.
    fn branch(&mut self, cond: bool) -> (r: Result<(), EmuError>)
        requires
            cpu_wf(old(self)@),
        ensures
            cpu_wf(final(self)@),
            steps_to(branch_s(old(self)@, cond), final(self)@, r),
    {
        proof {
            reveal(branch_s);
            reveal(rd);
        }
        if cond {
            let off = match self.rd_byte(self.reg_pc) {
                Ok(v) => v,
                Err(e) => {
                    return Err(e);
                },
            };
            let mut offset = off as u16;
            if offset & 0x0080 != 0 {
                offset = offset | 0xFF00;
            }
            self.reg_pc = self.reg_pc.wrapping_add(offset).wrapping_add(0x0001);
        }
        Ok(())
    }

    fn bit(&mut self, mode: &AddressingMode) -> (r: Result<(), EmuError>)
        requires
            cpu_wf(old(self)@),
            *mode != AddressingMode::NoneAddressing,
        ensures
            cpu_wf(final(self)@),
            steps_to(bit_s(old(self)@, *mode), final(self)@, r),
    {
        proof {
            reveal(bit_s);
        }
        let v = match self.fetch_operand(mode) {
            Ok((_a, v)) => v,
            Err(e) => {
                return Err(e);
            },
        };
        if v & self.reg_a == 0 {
            self.reg_stat = self.reg_stat | 0x02;
        } else {
            self.reg_stat = self.reg_stat & 0xFD;
        }
        if v & 0x40 != 0 {
            self.reg_stat = self.reg_stat | 0x40;
        } else {
            self.reg_stat = self.reg_stat & 0xBF;
        }
        if v & 0x80 != 0 {
            self.reg_stat = self.reg_stat | 0x80;
        } else {
            self.reg_stat = self.reg_stat & 0x7F;
        }
        Ok(())
    }

    fn brk(&mut self) -> (r: Result<(), EmuError>)
        requires
            cpu_wf(old(self)@),
        ensures
            cpu_wf(final(self)@),
            steps_to(brk_s(old(self)@), final(self)@, r),
    {
        proof {
            reveal(brk_s);
            reveal(rd16);
        }
        let pc = self.reg_pc.wrapping_add(1);
        match self.stack_push16(pc) {
            Ok(()) => {},
            Err(e) => {
                return Err(e);
            },
        }
        let st = self.reg_stat | 0x30;
        match self.stack_push(st) {
            Ok(()) => {},
            Err(e) => {
                return Err(e);
            },
        }
        let w = match self.rd_word(0xFFFE) {
            Ok(w) => w,
            Err(e) => {
                return Err(e);
            },
        };
        self.reg_pc = w;
        self.reg_stat = self.reg_stat | 0x04;
        Ok(())
    }

    fn rti(&mut self) -> (r: Result<(), EmuError>)
        requires
            cpu_wf(old(self)@),
        ensures
            cpu_wf(final(self)@),
            steps_to(rti_s(old(self)@), final(self)@, r),
    {
        proof {
            reveal(rti_s);
            reveal(rd);
        }
        let v = match self.stack_pull() {
            Ok(v) => v,
            Err(e) => {
                return Err(e);
            },
        };
        self.reg_stat = (v | 0x20) & 0xEF;
        let w = match self.stack_pull16() {
            Ok(w) => w,
            Err(e) => {
                return Err(e);
            },
        };
        self.reg_pc = w;
        Ok(())
    }

    /// Compares a register value against the operand byte.
    fn compare_core(&mut self, reg: u8, v: u8)
        ensures
            final(self)@ == cmp_apply_s(old(self)@, reg, v),
    {
        let sum: u16 = reg as u16 + (!v) as u16 + 1;
        let res: u8 = (sum % 256) as u8;
        if sum >= 0x100 {
            self.reg_stat = self.reg_stat | 0x01;
        } else {
            self.reg_stat = self.reg_stat & 0xFE;
        }
        self.update_nz(res);
    }

    fn cmp(&mut self, mode: &AddressingMode) -> (r: Result<(), EmuError>)
        requires
            cpu_wf(old(self)@),
            *mode != AddressingMode::NoneAddressing,
        ensures
            cpu_wf(final(self)@),
            steps_to(cmp_s(old(self)@, *mode), final(self)@, r),
    {
        proof {
            reveal(cmp_s);
        }
        let v = match self.fetch_operand(mode) {
            Ok((_a, v)) => v,
            Err(e) => {
                return Err(e);
            },
        };
        let reg = self.reg_a;
        self.compare_core(reg, v);
        Ok(())
    }

    fn cpx(&mut self, mode: &AddressingMode) -> (r: Result<(), EmuError>)
        requires
            cpu_wf(old(self)@),
            *mode != AddressingMode::NoneAddressing,
        ensures
            cpu_wf(final(self)@),
            steps_to(cpx_s(old(self)@, *mode), final(self)@, r),
    {
        proof {
            reveal(cpx_s);
        }
        let v = match self.fetch_operand(mode) {
            Ok((_a, v)) => v,
            Err(e) => {
                return Err(e);
            },
        };
        let reg = self.reg_x;
        self.compare_core(reg, v);
        Ok(())
    }

    fn cpy(&mut self, mode: &AddressingMode) -> (r: Result<(), EmuError>)
        requires
            cpu_wf(old(self)@),
            *mode != AddressingMode::NoneAddressing,
        ensures
            cpu_wf(final(self)@),
            steps_to(cpy_s(old(self)@, *mode), final(self)@, r),
    {
        proof {
            reveal(cpy_s);
        }
        let v = match self.fetch_operand(mode) {
            Ok((_a, v)) => v,
            Err(e) => {
                return Err(e);
            },
        };
        let reg = self.reg_y;
        self.compare_core(reg, v);
        Ok(())
    }

    fn sta(&mut self, mode: &AddressingMode) -> (r: Result<(), EmuError>)
        requires
            cpu_wf(old(self)@),
            *mode != AddressingMode::NoneAddressing,
        ensures
            cpu_wf(final(self)@),
            steps_to(sta_s(old(self)@, *mode), final(self)@, r),
    {
        proof {
            reveal(sta_s);
            reveal(wr);
        }
        let addr = match self.get_op_addr(mode) {
            Ok(a) => a,
            Err(e) => {
                return Err(e);
            },
        };
        let v = self.reg_a;
        self.wr_byte(addr, v)
    }

    fn stx(&mut self, mode: &AddressingMode) -> (r: Result<(), EmuError>)
        requires
            cpu_wf(old(self)@),
            *mode != AddressingMode::NoneAddressing,
        ensures
            cpu_wf(final(self)@),
            steps_to(stx_s(old(self)@, *mode), final(self)@, r),
    {
        proof {
            reveal(stx_s);
            reveal(wr);
        }
        let addr = match self.get_op_addr(mode) {
            Ok(a) => a,
            Err(e) => {
                return Err(e);
            },
        };
        let v = self.reg_x;
        self.wr_byte(addr, v)
    }

    fn sty(&mut self, mode: &AddressingMode) -> (r: Result<(), EmuError>)
        requires
            cpu_wf(old(self)@),
            *mode != AddressingMode::NoneAddressing,
        ensures
            cpu_wf(final(self)@),
            steps_to(sty_s(old(self)@, *mode), final(self)@, r),
    {
        proof {
            reveal(sty_s);
            reveal(wr);
        }
        let addr = match self.get_op_addr(mode) {
            Ok(a) => a,
            Err(e) => {
                return Err(e);
            },
        };
        let v = self.reg_y;
        self.wr_byte(addr, v)
    }

    fn pla(&mut self) -> (r: Result<(), EmuError>)
        requires
            cpu_wf(old(self)@),
        ensures
            cpu_wf(final(self)@),
            steps_to(pla_s(old(self)@), final(self)@, r),
    {
        proof {
            reveal(pla_s);
            reveal(rd);
        }
        let v = match self.stack_pull() {
            Ok(v) => v,
            Err(e) => {
                return Err(e);
            },
        };
        self.reg_a = v;
        self.update_nz(v);
        Ok(())
    }

    fn plp(&mut self) -> (r: Result<(), EmuError>)
        requires
            cpu_wf(old(self)@),
        ensures
            cpu_wf(final(self)@),
            steps_to(plp_s(old(self)@), final(self)@, r),
    {
        proof {
            reveal(plp_s);
            reveal(rd);
        }
        let v = match self.stack_pull() {
            Ok(v) => v,
            Err(e) => {
                return Err(e);
            },
        };
        self.reg_stat = (v | 0x20) & 0xEF;
        Ok(())
    }

    fn incdec(&mut self, mode: &AddressingMode, up: bool) -> (r: Result<(), EmuError>)
        requires
            cpu_wf(old(self)@),
            *mode != AddressingMode::NoneAddressing,
        ensures
            cpu_wf(final(self)@),
            steps_to(incdec_s(old(self)@, *mode, up), final(self)@, r),
    {
        proof {
            reveal(incdec_s);
            reveal(wr);
        }
        let (addr, v) = match self.fetch_operand(mode) {
            Ok(av) => av,
            Err(e) => {
                return Err(e);
            },
        };
        let w = if up {
            v.wrapping_add(1)
        } else {
            v.wrapping_sub(1)
        };
        match self.wr_byte(addr, w) {
            Ok(()) => {},
            Err(e) => {
                return Err(e);
            },
        }
        self.update_nz(w);
        Ok(())
    }

    fn jmp(&mut self, mode: &AddressingMode) -> (r: Result<(), EmuError>)
        requires
            cpu_wf(old(self)@),
            *mode != AddressingMode::NoneAddressing,
        ensures
            cpu_wf(final(self)@),
            steps_to(jmp_s(old(self)@, *mode), final(self)@, r),
    {
        proof {
            reveal(jmp_s);
        }
        let addr = match self.get_op_addr(mode) {
            Ok(a) => a,
            Err(e) => {
                return Err(e);
            },
        };
        self.reg_pc = addr;
        Ok(())
    }

    fn jsr(&mut self, mode: &AddressingMode) -> (r: Result<(), EmuError>)
        requires
            cpu_wf(old(self)@),
            *mode != AddressingMode::NoneAddressing,
        ensures
            cpu_wf(final(self)@),
            steps_to(jsr_s(old(self)@, *mode), final(self)@, r),
    {
        proof {
            reveal(jsr_s);
        }
        let addr = match self.get_op_addr(mode) {
            Ok(a) => a,
            Err(e) => {
                return Err(e);
            },
        };
        let ret = self.reg_pc.wrapping_add(1);
        match self.stack_push16(ret) {
            Ok(()) => {},
            Err(e) => {
                return Err(e);
            },
        }
        self.reg_pc = addr;
        Ok(())
    }

    fn rts(&mut self) -> (r: Result<(), EmuError>)
        requires
            cpu_wf(old(self)@),
        ensures
            cpu_wf(final(self)@),
            steps_to(rts_s(old(self)@), final(self)@, r),
    {
        proof {
            reveal(rts_s);
            reveal(rd);
        }
        let w = match self.stack_pull16() {
            Ok(w) => w,
            Err(e) => {
                return Err(e);
            },
        };
        self.reg_pc = w.wrapping_add(1);
        Ok(())
    }

    /// Enters the non-maskable interrupt handler.
    fn interrupt_nmi(&mut self) -> (r: Result<(), EmuError>)
        requires
            cpu_wf(old(self)@),
        ensures
            cpu_wf(final(self)@),
            steps_to(nmi_s(old(self)@), final(self)@, r),
    {
        proof {
            reveal(nmi_s);
            reveal(rd16);
        }
        let pc = self.reg_pc;
        match self.stack_push16(pc) {
            Ok(()) => {},
            Err(e) => {
                return Err(e);
            },
        }
        let st = (self.reg_stat | 0x20) & 0xEF;
        match self.stack_push(st) {
            Ok(()) => {},
            Err(e) => {
                return Err(e);
            },
        }
        let w = match self.rd_word(0xFFFA) {
            Ok(w) => w,
            Err(e) => {
                return Err(e);
            },
        };
        self.reg_pc = w;
        self.reg_stat = self.reg_stat | 0x04;
        self.nmi_flag = true;
        self.cycles = self.cycles.wrapping_add(7);
        Ok(())
    }

    /// Dispatches one decoded instruction.
    #[verifier::spinoff_prover]
    #[verifier::rlimit(100)]
    fn exec_instr(&mut self, op: &OpCode) -> (r: Result<(), EmuError>)
        requires
            cpu_wf(old(self)@),
            opcode_wf(*op),
        ensures
            cpu_wf(final(self)@),
            steps_to(instr_s(old(self)@, *op), final(self)@, r),
    {
        match op.mnemonic {
            Mnemonic::ADC => self.adc(&op.mode),
            Mnemonic::AND => self.and(&op.mode),
            Mnemonic::ASL => self.shift_op(Mnemonic::ASL, &op.mode),
            Mnemonic::BCC => {
                let c = self.reg_stat & 0x01 == 0;
                self.branch(c)
            },
            Mnemonic::BCS => {
                let c = self.reg_stat & 0x01 != 0;
                self.branch(c)
            },
            Mnemonic::BEQ => {
                let c = self.reg_stat & 0x02 != 0;
                self.branch(c)
            },
            Mnemonic::BIT => self.bit(&op.mode),
            Mnemonic::BMI => {
                let c = self.reg_stat & 0x80 != 0;
                self.branch(c)
            },
            Mnemonic::BNE => {
                let c = self.reg_stat & 0x02 == 0;
                self.branch(c)
            },
            Mnemonic::BPL => {
                let c = self.reg_stat & 0x80 == 0;
                self.branch(c)
            },
            Mnemonic::BRK => self.brk(),
            Mnemonic::BVC => {
                let c = self.reg_stat & 0x40 == 0;
                self.branch(c)
            },
            Mnemonic::BVS => {
                let c = self.reg_stat & 0x40 != 0;
                self.branch(c)
            },
            Mnemonic::CLC => {
                self.reg_stat = self.reg_stat & 0xFE;
                Ok(())
            },
            Mnemonic::CLD => {
                self.reg_stat = self.reg_stat & 0xF7;
                Ok(())
            },
            Mnemonic::CLI => {
                self.reg_stat = self.reg_stat & 0xFB;
                Ok(())
            },
            Mnemonic::CLV => {
                self.reg_stat = self.reg_stat & 0xBF;
                Ok(())
            },
            Mnemonic::CMP => self.cmp(&op.mode),
            Mnemonic::CPX => self.cpx(&op.mode),
            Mnemonic::CPY => self.cpy(&op.mode),
            Mnemonic::DCP => {
                match self.incdec(&op.mode, false) {
                    Ok(()) => {},
                    Err(e) => {
                        return Err(e);
                    },
                }
                self.cmp(&op.mode)
            },
            Mnemonic::DEC => self.incdec(&op.mode, false),
            Mnemonic::DEX => {
                self.reg_x = self.reg_x.wrapping_sub(1);
                let v = self.reg_x;
                self.update_nz(v);
                Ok(())
            },
            Mnemonic::DEY => {
                self.reg_y = self.reg_y.wrapping_sub(1);
                let v = self.reg_y;
                self.update_nz(v);
                Ok(())
            },
            Mnemonic::EOR => self.eor(&op.mode),
            Mnemonic::INC => self.incdec(&op.mode, true),
            Mnemonic::ISB => {
                match self.incdec(&op.mode, true) {
                    Ok(()) => {},
                    Err(e) => {
                        return Err(e);
                    },
                }
                self.sbc(&op.mode)
            },
            Mnemonic::INX => {
                self.reg_x = self.reg_x.wrapping_add(1);
                let v = self.reg_x;
                self.update_nz(v);
                Ok(())
            },
            Mnemonic::INY => {
                self.reg_y = self.reg_y.wrapping_add(1);
                let v = self.reg_y;
                self.update_nz(v);
                Ok(())
            },
            _ => {
                proof {
                    assert(!mn_low(op.mnemonic));
                }
                self.exec_instr_high(op)
            },
        }
    }

    /// Dispatches the second half of the mnemonics.
    #[verifier::spinoff_prover]
    #[verifier::rlimit(100)]
    fn exec_instr_high(&mut self, op: &OpCode) -> (r: Result<(), EmuError>)
        requires
            cpu_wf(old(self)@),
            opcode_wf(*op),
            !mn_low(op.mnemonic),
        ensures
            cpu_wf(final(self)@),
            steps_to(instr_s(old(self)@, *op), final(self)@, r),
    {
        match op.mnemonic {
            Mnemonic::JMP => self.jmp(&op.mode),
            Mnemonic::JSR => self.jsr(&op.mode),
            Mnemonic::LDA => self.lda(&op.mode),
            Mnemonic::LDX => self.ldx(&op.mode),
            Mnemonic::LDY => self.ldy(&op.mode),
            Mnemonic::LAX => {
                match self.lda(&op.mode) {
                    Ok(()) => {},
                    Err(e) => {
                        return Err(e);
                    },
                }
                self.ldx(&op.mode)
            },
            Mnemonic::LSR => self.shift_op(Mnemonic::LSR, &op.mode),
            Mnemonic::NOP => Ok(()),
            Mnemonic::ORA => self.ora(&op.mode),
            Mnemonic::PHA => {
                let v = self.reg_a;
                self.stack_push(v)
            },
            Mnemonic::PHP => {
                let v = self.reg_stat | 0x30;
                self.stack_push(v)
            },
            Mnemonic::PLA => self.pla(),
            Mnemonic::PLP => self.plp(),
            Mnemonic::RLA => {
                match self.shift_op(Mnemonic::ROL, &op.mode) {
                    Ok(()) => {},
                    Err(e) => {
                        return Err(e);
                    },
                }
                self.and(&op.mode)
            },
            Mnemonic::ROL => self.shift_op(Mnemonic::ROL, &op.mode),
            Mnemonic::ROR => self.shift_op(Mnemonic::ROR, &op.mode),
            Mnemonic::RRA => {
                match self.shift_op(Mnemonic::ROR, &op.mode) {
                    Ok(()) => {},
                    Err(e) => {
                        return Err(e);
                    },
                }
                self.adc(&op.mode)
            },
            Mnemonic::RTI => self.rti(),
            Mnemonic::RTS => self.rts(),
            Mnemonic::SAX => self.sax(&op.mode),
            Mnemonic::SBC => self.sbc(&op.mode),
            Mnemonic::SEC => {
                self.reg_stat = self.reg_stat | 0x01;
                Ok(())
            },
            Mnemonic::SED => {
                self.reg_stat = self.reg_stat | 0x08;
                Ok(())
            },
            Mnemonic::SEI => {
                self.reg_stat = self.reg_stat | 0x04;
                Ok(())
            },
            Mnemonic::SLO => {
                match self.shift_op(Mnemonic::ASL, &op.mode) {
                    Ok(()) => {},
                    Err(e) => {
                        return Err(e);
                    },
                }
                self.ora(&op.mode)
            },
            Mnemonic::SRE => {
                match self.shift_op(Mnemonic::LSR, &op.mode) {
                    Ok(()) => {},
                    Err(e) => {
                        return Err(e);
                    },
                }
                self.eor(&op.mode)
            },
            Mnemonic::STA => self.sta(&op.mode),
            Mnemonic::STX => self.stx(&op.mode),
            Mnemonic::STY => self.sty(&op.mode),
            Mnemonic::TAX => {
                self.reg_x = self.reg_a;
                let v = self.reg_x;
                self.update_nz(v);
                Ok(())
            },
            Mnemonic::TAY => {
                self.reg_y = self.reg_a;
                let v = self.reg_y;
                self.update_nz(v);
                Ok(())
            },
            Mnemonic::TSX => {
                self.reg_x = self.reg_sp;
                let v = self.reg_x;
                self.update_nz(v);
                Ok(())
            },
            Mnemonic::TXA => {
                self.reg_a = self.reg_x;
                let v = self.reg_a;
                self.update_nz(v);
                Ok(())
            },
            Mnemonic::TXS => {
                self.reg_sp = self.reg_x;
                Ok(())
            },
            Mnemonic::TYA => {
                self.reg_a = self.reg_y;
                let v = self.reg_a;
                self.update_nz(v);
                Ok(())
            },
            _ => {
                proof {
                    assert(false);
                }
                Ok(())
            },
        }
    }

    /// Accrues the penalty cycles the executed instruction earned.
    fn penalty(&mut self, op: &OpCode, pc_state: u16) -> (r: Result<(), EmuError>)
        requires
            cpu_wf(old(self)@),
            opcode_wf(*op),
        ensures
            cpu_wf(final(self)@),
            steps_to(penalty_s(old(self)@, *op, pc_state), final(self)@, r),
    {
        proof {
            reveal(penalty_s);
            reveal(op_addr_s);
        }
        let readish = op.mnemonic == Mnemonic::ADC || op.mnemonic == Mnemonic::AND || op.mnemonic
            == Mnemonic::CMP || op.mnemonic == Mnemonic::EOR || op.mnemonic == Mnemonic::LDA
            || op.mnemonic == Mnemonic::LDX || op.mnemonic == Mnemonic::LDY || op.mnemonic
            == Mnemonic::ORA || op.mnemonic == Mnemonic::SBC || op.mnemonic == Mnemonic::NOP
            || op.mnemonic == Mnemonic::LAX;
        let branchish = op.mnemonic == Mnemonic::BCC || op.mnemonic == Mnemonic::BCS || op.mnemonic
            == Mnemonic::BEQ || op.mnemonic == Mnemonic::BVC || op.mnemonic == Mnemonic::BMI
            || op.mnemonic == Mnemonic::BNE || op.mnemonic == Mnemonic::BPL || op.mnemonic
            == Mnemonic::BVS;
        if readish {
            if op.mode == AddressingMode::Absolute_X || op.mode == AddressingMode::Absolute_Y {
                let a1 = match self.get_op_addr(&op.mode) {
                    Ok(a) => a,
                    Err(e) => {
                        return Err(e);
                    },
                };
                let a2 = match self.get_op_addr(&AddressingMode::Absolute) {
                    Ok(a) => a,
                    Err(e) => {
                        return Err(e);
                    },
                };
                if a1 & 0xFF00 != a2 & 0xFF00 {
                    self.cycles = self.cycles.wrapping_add(1);
                }
                Ok(())
            } else if op.mode == AddressingMode::Indirect_Y {
                let y = self.reg_y;
                let a1 = match self.get_op_addr(&op.mode) {
                    Ok(a) => a,
                    Err(e) => {
                        return Err(e);
                    },
                };
                let a2 = match self.get_op_addr(&op.mode) {
                    Ok(a) => a,
                    Err(e) => {
                        return Err(e);
                    },
                };
                if a1 & 0xFF00 != a2.wrapping_sub(y as u16) & 0xFF00 {
                    self.cycles = self.cycles.wrapping_add(1);
                }
                Ok(())
            } else {
                Ok(())
            }
        } else if branchish {
            if pc_state != self.reg_pc {
                self.cycles = self.cycles.wrapping_add(1);
                if pc_state.wrapping_add((op.len - 1) as u16) & 0xFF00 != self.reg_pc & 0xFF00 {
                    self.cycles = self.cycles.wrapping_add(1);
                }
            }
            Ok(())
        } else {
            Ok(())
        }
    }

    /// Hands the bus three PPU dots per accrued cycle, folds the accrual
    /// into the running total and clears it.
    fn tick_accrued(&mut self)
        requires
            cpu_wf(old(self)@),
        ensures
            cpu_wf(final(self)@),
            final(self)@ == tick_wrap_s(old(self)@),
    {
        if self.cycles > 0 {
            let c = self.cycles;
            self.mem_bus.tick(c);
            self.mem_bus.tick(c);
            self.mem_bus.tick(c);
            proof {
                crate::ppu::lemma_tick_n_add(old(self)@.bus.ppu, c as nat, c as nat);
                crate::ppu::lemma_tick_n_add(old(self)@.bus.ppu, (c + c) as nat, c as nat);
                assert(self@.bus.ppu == tick_n_s(old(self)@.bus.ppu, (3 * c) as nat).0);
            }
            self.tot_cycles = self.tot_cycles.wrapping_add(self.cycles as u32);
            self.cycles = 0;
            proof {
                assert(self@ =~= tick_wrap_s(old(self)@));
            }
        }
    }

    /// Executes one interpreter step: NMI entry on a rising edge, else one
    /// instruction, then the PPU catch-up.
    #[verifier::spinoff_prover]
    #[verifier::rlimit(100)]
    pub fn interpret(&mut self) -> (r: Result<(), EmuError>)
        requires
            cpu_wf(old(self)@),
        ensures
            cpu_wf(final(self)@),
            steps_to(step_s(old(self)@), final(self)@, r),
    {
        if self.reg_pc >= 0xFFFF {
            return Ok(());
        }
        if self.mem_bus.poll_nmi_status() && !self.nmi_flag {
            match self.interrupt_nmi() {
                Ok(()) => {},
                Err(e) => {
                    return Err(e);
                },
            }
            self.tick_accrued();
            return Ok(());
        }
        if !self.mem_bus.poll_nmi_status() {
            self.nmi_flag = false;
        }
        let pc = self.reg_pc;
        let code = match self.rd_byte(pc) {
            Ok(v) => v,
            Err(e) => {
                return Err(e);
            },
        };
        self.reg_pc = self.reg_pc.wrapping_add(1);
        let op = match opcode_lookup(code) {
            Some(op) => op,
            None => {
                return Err(EmuError::UnknownOpcode(code));
            },
        };
        self.cycles = self.cycles.wrapping_add(op.cycles);
        let pc_state = self.reg_pc;
        match self.exec_instr(&op) {
            Ok(()) => {},
            Err(e) => {
                return Err(e);
            },
        }
        match self.penalty(&op, pc_state) {
            Ok(()) => {},
            Err(e) => {
                return Err(e);
            },
        }
        if pc_state == self.reg_pc {
            self.reg_pc = self.reg_pc.wrapping_add((op.len - 1) as u16);
        }
        self.tick_accrued();
        Ok(())
    }
}

/// Whether two machines differ at most in their bus.
pub open spec fn regs_unchanged(a: CpuV, b: CpuV) -> bool {
    b == (CpuV { bus: b.bus, ..a })
}

/// Operand resolution only touches the bus: registers, flags and counters
/// ride through it unchanged.
pub proof fn lemma_op_addr_regs(s: CpuV, mode: AddressingMode)
    ensures
        op_addr_s(s, mode) matches Ok(sv) ==> regs_unchanged(s, sv.0),
{
    reveal(op_addr_s);
    reveal(rd);
    reveal(rd16);
}

/// An operand fetch only touches the bus.
pub proof fn lemma_fetch_regs(s: CpuV, mode: AddressingMode)
    ensures
        fetch_s(s, mode) matches Ok(f) ==> regs_unchanged(s, f.0),
{
    reveal(fetch_s);
    reveal(rd);
    lemma_op_addr_regs(s, mode);
}

/// Refreshing the zero and negative flags reports the result byte exactly:
/// zero set just when the byte is zero, negative equal to its top bit, and
/// every other flag bit untouched.
pub proof fn lemma_upd_nz_bits(st: u8, v: u8)
    by (bit_vector)
    ensures
        ((upd_nz_s(st, v) & 0x02) != 0) <==> v == 0,
        upd_nz_s(st, v) & 0x80 == v & 0x80,
        upd_nz_s(st, v) & 0x7D == st & 0x7D,
{
}

/// Loading the accumulator stores the fetched byte in A, sets the zero flag
/// exactly when the byte is zero and the negative flag to its top bit, and
/// leaves every other flag, every other register and the program counter
/// untouched.
pub proof fn lemma_lda(s: CpuV, mode: AddressingMode)
    requires
        lda_s(s, mode) is Ok,
    ensures
        ({
            let s2 = lda_s(s, mode)->Ok_0;
            let v = fetch_s(s, mode)->Ok_0.2;
            &&& s2.reg_a == v
            &&& ((s2.reg_stat & 0x02) != 0 <==> v == 0)
            &&& s2.reg_stat & 0x80 == v & 0x80
            &&& s2.reg_stat & 0x7D == s.reg_stat & 0x7D
            &&& s2.reg_x == s.reg_x
            &&& s2.reg_y == s.reg_y
            &&& s2.reg_sp == s.reg_sp
            &&& s2.reg_pc == s.reg_pc
        }),
{
    reveal(lda_s);
    lemma_fetch_regs(s, mode);
    let f = fetch_s(s, mode)->Ok_0;
    lemma_upd_nz_bits(f.0.reg_stat, f.2);
}

/// Add-with-carry is the 9-bit sum: the new accumulator is
/// (A + M + C) mod 256, the new carry flag is bit 8 of the sum, and the new
/// overflow flag follows the signed rule over the operands and the result.
/// Nothing else changes.
pub proof fn lemma_adc(s: CpuV, m: u8)
    ensures
        ({
            let s2 = adc_apply_s(s, m);
            let c = s.reg_stat & 0x01;
            &&& s2.reg_a == (s.reg_a + m + c) % 256
            &&& s2.reg_stat & 0x01 == (s.reg_a + m + c) / 256
            &&& (((s2.reg_stat & 0x40) != 0) <==> ((s.reg_a ^ s2.reg_a) & (m ^ s2.reg_a) & 0x80)
                != 0)
            &&& s2.reg_x == s.reg_x
            &&& s2.reg_y == s.reg_y
            &&& s2.reg_sp == s.reg_sp
            &&& s2.reg_pc == s.reg_pc
            &&& s2.bus == s.bus
        }),
{
    assert(forall|x: u8| x & 0x01 == 0 || x & 0x01 == 1) by (bit_vector);
    let cin = s.reg_stat & 0x01;
    let sum = s.reg_a + m + cin;
    let res = (sum % 256) as u8;
    let st1 = set_c(s.reg_stat, sum >= 256);
    let st2: u8 = if (s.reg_a ^ res) & (m ^ res) & 0x80 != 0 {
        st1 | 0x40
    } else {
        st1 & 0xBF
    };
    assert(forall|x: u8| (x | 0x01) & 0x01 == 1 && (x & 0xFE) & 0x01 == 0) by (bit_vector);
    assert(forall|x: u8| (x | 0x40) & 0x01 == x & 0x01 && (x & 0xBF) & 0x01 == x & 0x01)
        by (bit_vector);
    assert(forall|x: u8| ((x | 0x40) & 0x40) != 0 && ((x & 0xBF) & 0x40) == 0) by (bit_vector);
    assert(forall|x: u8, y: u8|
        x & 0x7D == y & 0x7D ==> (x & 0x01 == y & 0x01 && x & 0x40 == y & 0x40)) by (bit_vector);
    lemma_upd_nz_bits(st2, res);
    assert(sum < 512);
    assert(sum >= 256 ==> sum / 256 == 1);
    assert(sum < 256 ==> sum / 256 == 0);
}

/// The mnemonics the first half of the dispatcher handles.
pub open spec fn mn_low(m: Mnemonic) -> bool {
    ||| m == Mnemonic::ADC ||| m == Mnemonic::AND ||| m == Mnemonic::ASL ||| m == Mnemonic::BCC
    ||| m == Mnemonic::BCS ||| m == Mnemonic::BEQ ||| m == Mnemonic::BIT ||| m == Mnemonic::BMI
    ||| m == Mnemonic::BNE ||| m == Mnemonic::BPL ||| m == Mnemonic::BRK ||| m == Mnemonic::BVC
    ||| m == Mnemonic::BVS ||| m == Mnemonic::CLC ||| m == Mnemonic::CLD ||| m == Mnemonic::CLI
    ||| m == Mnemonic::CLV ||| m == Mnemonic::CMP ||| m == Mnemonic::CPX ||| m == Mnemonic::CPY
    ||| m == Mnemonic::DCP ||| m == Mnemonic::DEC ||| m == Mnemonic::DEX ||| m == Mnemonic::DEY
    ||| m == Mnemonic::EOR ||| m == Mnemonic::INC ||| m == Mnemonic::ISB ||| m == Mnemonic::INX
    ||| m == Mnemonic::INY
}

/// A shift or rotate step on one byte.
fn shift_vals_e(mn: Mnemonic, v: u8, c: bool) -> (r: (u8, bool))
    ensures
        r == shift_vals(mn, v, c),
{
    if mn == Mnemonic::ASL || mn == Mnemonic::SLO {
        (v << 1, v & 0x80 != 0)
    } else if mn == Mnemonic::LSR || mn == Mnemonic::SRE {
        (v >> 1, v & 0x01 != 0)
    } else if mn == Mnemonic::ROL || mn == Mnemonic::RLA {
        ((v << 1) | (if c { 0x01u8 } else { 0u8 }), v & 0x80 != 0)
    } else {
        ((v >> 1) | (if c { 0x80u8 } else { 0u8 }), v & 0x01 != 0)
    }
}

} // verus!
