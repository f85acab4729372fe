//! A verified CHIP-8 virtual machine core: opcode decoder, byte-addressable
//! memory, monochrome pixel screen, and the fetch-decode-execute processor.
//!
//! The surrounding program (window, keyboard, sound, ROM file) lives outside
//! this crate and talks to the core through plain values: a 16-bit key mask in,
//! a pixel buffer out.

use vstd::prelude::*;

pub mod decoder;
pub mod memory;
pub mod processor;
pub mod screen;

verus! {

/// Width of the display in pixels.
pub const SCREEN_WIDTH: usize = 64;

/// Height of the display in pixels.
pub const SCREEN_HEIGHT: usize = 32;

/// Total number of pixels in the display.
pub const SCREEN_SIZE: usize = SCREEN_WIDTH * SCREEN_HEIGHT;

/// Total memory of the machine in bytes.
pub const MEMORY_SIZE: usize = 4096;

/// Low region reserved for the interpreter; programs are loaded above it.
pub const RESERVED_MEMORY_SIZE: usize = 512;

/// Largest program that fits between the reserved region and the end of memory.
pub const MAX_ROM_SIZE: usize = MEMORY_SIZE - RESERVED_MEMORY_SIZE;

/// Number of processor cycles per frame; timers decrement once per frame.
pub const FRAME_SIZE: usize = 15;

/// Size of one instruction in bytes.
pub const OPCODE_SIZE: usize = 2;

/// Number of general-purpose registers (V0 through VF).
pub const V_REGISTERS_SIZE: usize = 16;

/// Number of return-address slots on the call stack.
pub const STACK_SIZE: usize = 16;

} // verus!
