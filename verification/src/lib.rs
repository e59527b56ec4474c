//! A verified CHIP-8 CPU core.
//!
//! The machine state (memory, registers, return-address stack, timers,
//! screen and key buffers) lives in [`emu::Emu`]; every instruction step is
//! specified against the mathematical model in [`model`], and the laws that
//! the instruction set obeys are proved in [`laws`].

use vstd::prelude::*;

pub mod emu;
pub mod laws;
pub mod model;

pub use emu::Emu;
pub use model::Fault;

verus! {

/// Width of the monochrome screen, in pixels.
pub const SCREEN_WIDTH: usize = 64;

/// Height of the monochrome screen, in pixels.
pub const SCREEN_HEIGHT: usize = 32;

/// Size of the addressable memory, in bytes.
pub const RAM_SIZE: usize = 4096;

/// Number of general-purpose V registers.
pub const NUM_REGS: usize = 16;

/// Capacity of the return-address stack.
pub const STACK_SIZE: usize = 16;

/// Number of keys on the keypad.
pub const NUM_KEYS: usize = 16;

/// Address at which program execution starts.
pub const START_ADDR: u16 = 0x200;

/// Size of the built-in font table, in bytes.
pub const FONTSET_SIZE: usize = 80;

/// The built-in font: sixteen glyphs for the hex digits 0 through F, five
/// bytes per glyph, one row of pixels per byte.
pub const FONTSET: [u8; FONTSET_SIZE] = [
    0xF0, 0x90, 0x90, 0x90, 0xF0, // 0
    0x20, 0x60, 0x20, 0x20, 0x70, // 1
    0xF0, 0x10, 0xF0, 0x80, 0xF0, // 2
    0xF0, 0x10, 0xF0, 0x10, 0xF0, // 3
    0x90, 0x90, 0xF0, 0x10, 0x10, // 4
    0xF0, 0x80, 0xF0, 0x10, 0xF0, // 5
    0xF0, 0x80, 0xF0, 0x90, 0xF0, // 6
    0xF0, 0x10, 0x20, 0x40, 0x40, // 7
    0xF0, 0x90, 0xF0, 0x90, 0xF0, // 8
    0xF0, 0x90, 0xF0, 0x10, 0xF0, // 9
    0xF0, 0x90, 0xF0, 0x90, 0x90, // A
    0xE0, 0x90, 0xE0, 0x90, 0xE0, // B
    0xF0, 0x80, 0x80, 0x80, 0xF0, // C
    0xE0, 0x90, 0x90, 0x90, 0xE0, // D
    0xF0, 0x80, 0xF0, 0x80, 0xF0, // E
    0xF0, 0x80, 0xF0, 0x80, 0x80, // F
];

} // verus!
