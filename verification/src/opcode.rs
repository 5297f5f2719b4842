//! The bit fields of a 16-bit CHIP-8 instruction word, written as division
//! and remainder by powers of two so that the executable code and the
//! specification share the same arithmetic, together with the 8-bit
//! wraparound helpers the arithmetic instructions use.

use vstd::prelude::*;

verus! {

/// The high nibble of an instruction word: the instruction family.
pub open spec fn op_family(op: u16) -> u16 {
    op / 0x1000
}

/// The X field: the second nibble, a register index.
pub open spec fn op_x(op: u16) -> int {
    ((op / 0x100) % 0x10) as int
}

/// The Y field: the third nibble, a register index.
pub open spec fn op_y(op: u16) -> int {
    ((op / 0x10) % 0x10) as int
}

/// The N field: the low nibble, a 4-bit immediate.
pub open spec fn op_n(op: u16) -> u16 {
    op % 0x10
}

/// The NN field: the low byte, an 8-bit immediate.
pub open spec fn op_nn(op: u16) -> u8 {
    (op % 0x100) as u8
}

/// The NNN field: the low three nibbles, a 12-bit address.
pub open spec fn op_nnn(op: u16) -> u16 {
    op % 0x1000
}

/// Addition of two register values with 8-bit wraparound.
pub open spec fn add_wrap(a: u8, b: u8) -> u8 {
    ((a + b) % 0x100) as u8
}

/// Subtraction of two register values with 8-bit wraparound.
pub open spec fn sub_wrap(a: u8, b: u8) -> u8 {
    ((a - b + 0x100) % 0x100) as u8
}

} // verus!
