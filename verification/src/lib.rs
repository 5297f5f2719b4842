//! A CHIP-8 interpreter core, verified with Verus.
//!
//! The machine fetches 16-bit big-endian instruction words from a 4096-byte
//! memory image, decodes them by their nibble fields, and mutates a small
//! machine state: sixteen 8-bit registers, a 16-bit index register, a call
//! stack of sixteen return addresses, two timers, a 64x32 monochrome
//! framebuffer and a 16-key keypad.  Every transition of the executable
//! machine is proved equal to the mathematical transition function
//! `machine::spec_step`.

use vstd::prelude::*;

pub mod laws;
pub mod machine;
pub mod opcode;
pub mod screen;
mod vm;

pub use vm::VM;

verus! {

/// The fatal faults of the interpreter.  A CHIP-8 program that raises one of
/// these is itself malformed; the machine is left exactly as it was before
/// the failing call.
#[derive(Clone, Copy, Debug, PartialEq, Eq, Structural)]
pub enum VmError {
    /// A program image longer than the 3584 bytes that fit above address 512.
    RomTooLarge,
    /// A call instruction arrived while all 16 stack slots were in use;
    /// carries the instruction word.
    StackOverflow(u16),
    /// A return instruction arrived while the stack was empty; carries the
    /// instruction word.
    StackUnderflow(u16),
    /// An instruction word matching no table entry; carries the word itself.
    UnknownOpcode(u16),
    /// A fetch or a memory-block instruction would touch an address outside
    /// the 4096-byte space; carries the base address of the access.
    MemoryOutOfBounds(u16),
}

} // verus!
