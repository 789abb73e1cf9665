//! Core of a cycle-driven emulator for a classic 8-bit console: a 6502
//! interpreter, a memory bus that decodes CPU addresses to RAM, picture
//! processing unit (PPU) registers, controller ports and cartridge ROM, a
//! tick-driven PPU with vertical-blank interrupts, and a renderer that paints
//! background tiles and sprites into an RGBA framebuffer.
//!
//! Every state change is specified by a mathematical transition function over
//! a plain-value view of the machine, and the executable code is proved to
//! implement those transitions.

pub mod bits;
pub mod bus;
pub mod cpu;
pub mod display;
pub mod errors;
pub mod input;
pub mod ppu;
pub mod rom;
pub mod two_write_reg;
