//! Properties of whole steps that follow from `spec_step`, stated and proved
//! once so that callers need not unfold the transition function.

use crate::machine::{fetch_op, spec_step, VmView, MEMORY_SIZE};
use crate::opcode::{op_family, op_nnn};
use vstd::prelude::*;

verus! {

/// A faulting step faults the same way for every random byte: only the
/// random-number instruction reads the byte, and it never faults.
pub proof fn lemma_step_fault_ignores_random(s: VmView, rb1: u8, rb2: u8)
    requires
        s.wf(),
        spec_step(s, rb1) is Err,
    ensures
        spec_step(s, rb2) == spec_step(s, rb1),
{
}

/// Every instruction word of the jump, call and computed-jump families
/// (high nibble 1, 2 or B) leaves the program counter at its 12-bit address
/// field, plus register 0 for the computed jump; a call also needs a free
/// stack slot.
pub proof fn lemma_jump_sets_pc(s: VmView, rb: u8)
    requires
        s.wf(),
        s.waiting_key is None,
        s.pc + 1 < MEMORY_SIZE,
        op_family(fetch_op(s)) == 0x1 || op_family(fetch_op(s)) == 0xB || (op_family(fetch_op(s))
            == 0x2 && s.sp < 16),
    ensures
        spec_step(s, rb) matches Ok(t) && t.pc == (if op_family(fetch_op(s)) == 0xB {
            (op_nnn(fetch_op(s)) + s.v[0]) as u16
        } else {
            op_nnn(fetch_op(s))
        }),
{
}

/// A call followed at its target by a return comes back: after executing a
/// call instruction and then a return instruction at the called address, the
/// program counter sits just past the call and the stack is as deep as
/// before.
pub proof fn lemma_call_return_round_trip(s: VmView, rb1: u8, rb2: u8)
    requires
        s.wf(),
        s.waiting_key is None,
        s.pc + 1 < MEMORY_SIZE,
        op_family(fetch_op(s)) == 0x2,
        s.sp < 16,
        op_nnn(fetch_op(s)) + 1 < MEMORY_SIZE,
        s.memory[op_nnn(fetch_op(s)) as int] == 0x00,
        s.memory[op_nnn(fetch_op(s)) as int + 1] == 0xEE,
    ensures
        spec_step(s, rb1) matches Ok(t1) && spec_step(t1, rb2) matches Ok(t2) && t2.pc == s.pc
            + 2 && t2.sp == s.sp,
{
    let t1 = spec_step(s, rb1)->Ok_0;
    assert(fetch_op(t1) == 0x00EE);
}

} // verus!
