//! The mathematical model of the interpreter: the machine state as plain
//! sequences and scalars, and the transition function `spec_step` that the
//! executable `VM::step_with` is proved to implement, one fetched
//! instruction word plus one timer tick per call.

use crate::VmError;
use crate::opcode::{add_wrap, op_family, op_n, op_nn, op_nnn, op_x, op_y, sub_wrap};
use crate::screen::{draw_apply, draw_collides, SCREEN_PIXELS};
use vstd::prelude::*;

verus! {

/// The lowest address a program may occupy; also the initial program counter.
pub const PROGRAM_START: u16 = 0x200;

/// The size of the address space in bytes.
pub const MEMORY_SIZE: u16 = 4096;

/// The abstract machine state.
#[verifier::ext_equal]
pub ghost struct VmView {
    /// Program counter: the address of the next instruction word.
    pub pc: u16,
    /// Index register: the base address for sprite and memory-block work.
    pub ir: u16,
    /// Stack pointer: the number of return addresses on the call stack.
    pub sp: u16,
    /// The sixteen 8-bit general registers V0 to VF.
    pub v: Seq<u8>,
    /// The sixteen call-stack slots; only the first `sp` hold return addresses.
    pub stack: Seq<u16>,
    /// The 4096-byte address space.
    pub memory: Seq<u8>,
    /// The 64x32 framebuffer, row-major, one 0-or-1 byte per pixel.
    pub gfx: Seq<u8>,
    /// The sixteen keypad flags; nonzero means pressed.
    pub key: Seq<u8>,
    /// Decremented once per step while nonzero.
    pub delay_timer: u8,
    /// Decremented once per step while nonzero; reaching zero raises the beep.
    pub sound_timer: u8,
    /// Set whenever a step changed the framebuffer; cleared by the caller.
    pub draw_flag: bool,
    /// Raised exactly on the step where the sound timer goes from 1 to 0.
    pub beep_flag: bool,
    /// `Some(x)` while a wait-for-key instruction blocks register `x`.
    pub waiting_key: Option<u8>,
}

impl VmView {
    /// Well-formedness: the fixed array sizes, the stack-pointer range, the
    /// 0/1 framebuffer discipline, and the facts recorded about the stacked
    /// return addresses and a pending key wait.
    pub open spec fn wf(self) -> bool {
        &&& self.v.len() == 16
        &&& self.stack.len() == 16
        &&& self.memory.len() == MEMORY_SIZE
        &&& self.gfx.len() == SCREEN_PIXELS
        &&& self.key.len() == 16
        &&& self.sp <= 16
        &&& forall|i: int| 0 <= i < self.sp ==> #[trigger] self.stack[i] + 1 < MEMORY_SIZE
        &&& forall|i: int| 0 <= i < SCREEN_PIXELS ==> #[trigger] self.gfx[i] == 0 || self.gfx[i]
            == 1
        &&& self.waiting_key matches Some(x) ==> x < 16 && self.pc + 1 < MEMORY_SIZE
    }
}

/// The built-in hexadecimal font: sixteen glyphs of five rows each, placed at
/// the bottom of memory when the machine is built.
pub open spec fn font_seq() -> Seq<u8> {
    seq![
        0xF0u8, 0x90, 0x90, 0x90, 0xF0, // 0
        0x20, 0x60, 0x20, 0x20, 0x70, // 1
        0xF0, 0x10, 0xF0, 0x80, 0xF0, // 2
        0xF0, 0x10, 0xF0, 0x10, 0xF0, // 3
        0x90, 0x90, 0xF0, 0x10, 0x10, // 4
        0xF0, 0x80, 0xF0, 0x10, 0xF0, // 5
        0xF0, 0x80, 0xF0, 0x90, 0xF0, // 6
        0xF0, 0x10, 0x20, 0x40, 0x40, // 7
        0xF0, 0x90, 0xF0, 0x90, 0xF0, // 8
        0xF0, 0x90, 0xF0, 0x10, 0xF0, // 9
        0xF0, 0x90, 0xF0, 0x90, 0x90, // A
        0xE0, 0x90, 0xE0, 0x90, 0xE0, // B
        0xF0, 0x80, 0x80, 0x80, 0xF0, // C
        0xE0, 0x90, 0x90, 0x90, 0xE0, // D
        0xF0, 0x80, 0xF0, 0x80, 0xF0, // E
        0xF0, 0x80, 0xF0, 0x80, 0x80, // F
    ]
}

/// The machine as construction leaves it: everything zero except the program
/// counter, the font image and the raised redraw flag.
pub open spec fn spec_init() -> VmView {
    VmView {
        pc: PROGRAM_START,
        ir: 0,
        sp: 0,
        v: Seq::new(16, |i: int| 0u8),
        stack: Seq::new(16, |i: int| 0u16),
        memory: Seq::new(
            MEMORY_SIZE as nat,
            |i: int|
                if i < 80 {
                    font_seq()[i]
                } else {
                    0u8
                },
        ),
        gfx: Seq::new(SCREEN_PIXELS as nat, |i: int| 0u8),
        key: Seq::new(16, |i: int| 0u8),
        delay_timer: 0,
        sound_timer: 0,
        draw_flag: true,
        beep_flag: false,
        waiting_key: None,
    }
}

/// Memory after a program image is copied in at `PROGRAM_START`.
pub open spec fn load_mem(mem: Seq<u8>, prog: Seq<u8>) -> Seq<u8>
    recommends
        mem.len() == MEMORY_SIZE,
        prog.len() <= MEMORY_SIZE - PROGRAM_START,
{
    Seq::new(
        mem.len(),
        |i: int|
            if PROGRAM_START <= i < PROGRAM_START + prog.len() {
                prog[i - PROGRAM_START]
            } else {
                mem[i]
            },
    )
}

/// The big-endian instruction word at the program counter.
pub open spec fn fetch_op(s: VmView) -> u16
    recommends
        s.wf(),
        s.pc + 1 < MEMORY_SIZE,
{
    (s.memory[s.pc as int] * 0x100 + s.memory[s.pc as int + 1]) as u16
}

/// The timer tick that ends every step: each nonzero timer counts down by
/// one, and the beep signal is raised exactly when the sound timer crosses
/// from 1 to 0 and is lowered otherwise.
pub open spec fn spec_tick(s: VmView) -> VmView {
    VmView {
        delay_timer: if s.delay_timer > 0 {
            (s.delay_timer - 1) as u8
        } else {
            0
        },
        sound_timer: if s.sound_timer > 0 {
            (s.sound_timer - 1) as u8
        } else {
            0
        },
        beep_flag: s.sound_timer == 1,
        ..s
    }
}

/// The lowest-numbered pressed key at or above index `i`, if any.
pub open spec fn first_pressed_from(key: Seq<u8>, i: int) -> Option<u8>
    recommends
        key.len() == 16,
        0 <= i <= 16,
    decreases 16 - i,
{
    if i < 0 || i >= 16 {
        None
    } else if key[i] != 0 {
        Some(i as u8)
    } else {
        first_pressed_from(key, i + 1)
    }
}

/// One step taken while a wait-for-key instruction blocks register `x`: if a
/// key is down, the lowest one lands in `x` and the machine moves on; else
/// nothing changes and the same check runs next step.
pub open spec fn wait_resume(s: VmView, x: u8) -> VmView
    recommends
        s.wf(),
        s.waiting_key == Some(x),
{
    match first_pressed_from(s.key, 0) {
        Some(k) => VmView {
            v: s.v.update(x as int, k),
            pc: (s.pc + 2) as u16,
            waiting_key: None::<u8>,
            ..s
        },
        None => s,
    }
}

/// The system family (high nibble 0), selected by the low nibble: clear the
/// screen, or return from a subroutine.
pub open spec fn spec_exec_sys(s: VmView, op: u16) -> Result<VmView, VmError>
    recommends
        s.wf(),
        s.pc + 1 < MEMORY_SIZE,
        op_family(op) == 0x0,
{
    let next = (s.pc + 2) as u16;
    if op_n(op) == 0x0 {
        Ok(
            VmView {
                gfx: Seq::new(s.gfx.len(), |i: int| 0u8),
                draw_flag: true,
                pc: next,
                ..s
            },
        )
    } else if op_n(op) == 0xE {
        if s.sp == 0 {
            Err(VmError::StackUnderflow(op))
        } else {
            Ok(VmView { sp: (s.sp - 1) as u16, pc: (s.stack[s.sp - 1] + 2) as u16, ..s })
        }
    } else {
        Err(VmError::UnknownOpcode(op))
    }
}

/// The sprite-draw instruction (high nibble D): XOR-blit `N` rows taken from
/// memory at the index register onto the screen at `(VX, VY)`, report any
/// set-to-unset transition in VF, and raise the redraw flag.
pub open spec fn spec_exec_draw(s: VmView, op: u16) -> Result<VmView, VmError>
    recommends
        s.wf(),
        s.pc + 1 < MEMORY_SIZE,
        op_family(op) == 0xD,
{
    let vx = s.v[op_x(op)];
    let vy = s.v[op_y(op)];
    let n = op_n(op) as u8;
    if n > 0 && s.ir + n > MEMORY_SIZE {
        Err(VmError::MemoryOutOfBounds(s.ir))
    } else {
        Ok(
            VmView {
                gfx: draw_apply(s.gfx, s.memory, s.ir, vx, vy, n),
                v: s.v.update(
                    0xF,
                    if draw_collides(s.gfx, s.memory, s.ir, vx, vy, n) {
                        1u8
                    } else {
                        0u8
                    },
                ),
                draw_flag: true,
                pc: (s.pc + 2) as u16,
                ..s
            },
        )
    }
}

/// The key-skip family (high nibble E): skip the next instruction according
/// to whether the key named by the low nibble of VX is down.
pub open spec fn spec_exec_key(s: VmView, op: u16) -> Result<VmView, VmError>
    recommends
        s.wf(),
        s.pc + 1 < MEMORY_SIZE,
        op_family(op) == 0xE,
{
    let vx = s.v[op_x(op)];
    let nn = op_nn(op);
    let next = (s.pc + 2) as u16;
    let skip = (s.pc + 4) as u16;
    // The keypad has sixteen keys; only the low nibble of VX selects one.
    if nn == 0x9E {
        Ok(
            VmView {
                pc: if s.key[(vx % 16) as int] != 0 {
                    skip
                } else {
                    next
                },
                ..s
            },
        )
    } else if nn == 0xA1 {
        Ok(
            VmView {
                pc: if s.key[(vx % 16) as int] == 0 {
                    skip
                } else {
                    next
                },
                ..s
            },
        )
    } else {
        Err(VmError::UnknownOpcode(op))
    }
}

/// The arithmetic and logic family (high nibble 8), selected by the low
/// nibble.  The flag write to VF lands before the result write to VX, so a
/// result aimed at VF wins.
pub open spec fn spec_exec_alu(s: VmView, op: u16) -> Result<VmView, VmError>
    recommends
        s.wf(),
        s.pc + 1 < MEMORY_SIZE,
        op_family(op) == 0x8,
{
    let x = op_x(op);
    let vx = s.v[x];
    let vy = s.v[op_y(op)];
    let next = (s.pc + 2) as u16;
    if op_n(op) == 0x0 {
        Ok(VmView { v: s.v.update(x, vy), pc: next, ..s })
    } else if op_n(op) == 0x1 {
        Ok(VmView { v: s.v.update(x, vx | vy), pc: next, ..s })
    } else if op_n(op) == 0x2 {
        Ok(VmView { v: s.v.update(x, vx & vy), pc: next, ..s })
    } else if op_n(op) == 0x3 {
        Ok(VmView { v: s.v.update(x, vx ^ vy), pc: next, ..s })
    } else if op_n(op) == 0x4 {
        let carry: u8 = if vx + vy > 0xFF {
            1
        } else {
            0
        };
        Ok(VmView { v: s.v.update(0xF, carry).update(x, add_wrap(vx, vy)), pc: next, ..s })
    } else if op_n(op) == 0x5 {
        let no_borrow: u8 = if vy > vx {
            0
        } else {
            1
        };
        Ok(VmView { v: s.v.update(0xF, no_borrow).update(x, sub_wrap(vx, vy)), pc: next, ..s })
    } else if op_n(op) == 0x6 {
        Ok(VmView { v: s.v.update(0xF, vx % 2).update(x, vx / 2), pc: next, ..s })
    } else if op_n(op) == 0x7 {
        let no_borrow: u8 = if vx > vy {
            0
        } else {
            1
        };
        Ok(VmView { v: s.v.update(0xF, no_borrow).update(x, sub_wrap(vy, vx)), pc: next, ..s })
    } else if op_n(op) == 0xE {
        Ok(VmView { v: s.v.update(0xF, vx / 0x80).update(x, add_wrap(vx, vx)), pc: next, ..s })
    } else {
        Err(VmError::UnknownOpcode(op))
    }
}

/// The miscellaneous family (high nibble F), selected by the low byte.
pub open spec fn spec_exec_misc(s: VmView, op: u16) -> Result<VmView, VmError>
    recommends
        s.wf(),
        s.pc + 1 < MEMORY_SIZE,
        op_family(op) == 0xF,
{
    let x = op_x(op);
    let vx = s.v[x];
    let nn = op_nn(op);
    let next = (s.pc + 2) as u16;
    if nn == 0x07 {
        Ok(VmView { v: s.v.update(x, s.delay_timer), pc: next, ..s })
    } else if nn == 0x0A {
        match first_pressed_from(s.key, 0) {
            Some(k) => Ok(VmView { v: s.v.update(x, k), pc: next, ..s }),
            None => Ok(VmView { waiting_key: Some(x as u8), ..s }),
        }
    } else if nn == 0x15 {
        Ok(VmView { delay_timer: vx, pc: next, ..s })
    } else if nn == 0x18 {
        Ok(VmView { sound_timer: vx, pc: next, ..s })
    } else if nn == 0x1E {
        Ok(VmView { ir: ((s.ir + vx) % 0x10000) as u16, pc: next, ..s })
    } else if nn == 0x29 {
        Ok(VmView { ir: (5 * (vx % 16)) as u16, pc: next, ..s })
    } else if nn == 0x33 {
        if s.ir + 3 > MEMORY_SIZE {
            Err(VmError::MemoryOutOfBounds(s.ir))
        } else {
            Ok(
                VmView {
                    memory: s.memory.update(s.ir as int, (vx / 100) as u8).update(
                        s.ir as int + 1,
                        ((vx / 10) % 10) as u8,
                    ).update(s.ir as int + 2, (vx % 10) as u8),
                    pc: next,
                    ..s
                },
            )
        }
    } else if nn == 0x55 {
        if s.ir + x + 1 > MEMORY_SIZE {
            Err(VmError::MemoryOutOfBounds(s.ir))
        } else {
            Ok(
                VmView {
                    memory: Seq::new(
                        s.memory.len(),
                        |i: int|
                            if s.ir <= i < s.ir + x + 1 {
                                s.v[i - s.ir]
                            } else {
                                s.memory[i]
                            },
                    ),
                    pc: next,
                    ..s
                },
            )
        }
    } else if nn == 0x65 {
        if s.ir + x + 1 > MEMORY_SIZE {
            Err(VmError::MemoryOutOfBounds(s.ir))
        } else {
            Ok(
                VmView {
                    v: Seq::new(
                        s.v.len(),
                        |i: int|
                            if 0 <= i <= x {
                                s.memory[s.ir + i]
                            } else {
                                s.v[i]
                            },
                    ),
                    pc: next,
                    ..s
                },
            )
        }
    } else {
        Err(VmError::UnknownOpcode(op))
    }
}

/// Decode and execute one fetched instruction word.  `rand` is the byte that
/// the random-number instruction masks; every other instruction ignores it.
pub open spec fn spec_exec(s: VmView, op: u16, rand: u8) -> Result<VmView, VmError>
    recommends
        s.wf(),
        s.pc + 1 < MEMORY_SIZE,
{
    let x = op_x(op);
    let vx = s.v[x];
    let vy = s.v[op_y(op)];
    let nn = op_nn(op);
    let nnn = op_nnn(op);
    let next = (s.pc + 2) as u16;
    let skip = (s.pc + 4) as u16;
    if op_family(op) == 0x0 {
        spec_exec_sys(s, op)
    } else if op_family(op) == 0x1 {
        Ok(VmView { pc: nnn, ..s })
    } else if op_family(op) == 0x2 {
        if s.sp == 16 {
            Err(VmError::StackOverflow(op))
        } else {
            Ok(
                VmView {
                    stack: s.stack.update(s.sp as int, s.pc),
                    sp: (s.sp + 1) as u16,
                    pc: nnn,
                    ..s
                },
            )
        }
    } else if op_family(op) == 0x3 {
        Ok(
            VmView {
                pc: if vx == nn {
                    skip
                } else {
                    next
                },
                ..s
            },
        )
    } else if op_family(op) == 0x4 {
        Ok(
            VmView {
                pc: if vx != nn {
                    skip
                } else {
                    next
                },
                ..s
            },
        )
    } else if op_family(op) == 0x5 {
        if op_n(op) != 0x0 {
            Err(VmError::UnknownOpcode(op))
        } else {
            Ok(
                VmView {
                    pc: if vx == vy {
                        skip
                    } else {
                        next
                    },
                    ..s
                },
            )
        }
    } else if op_family(op) == 0x6 {
        Ok(VmView { v: s.v.update(x, nn), pc: next, ..s })
    } else if op_family(op) == 0x7 {
        Ok(VmView { v: s.v.update(x, add_wrap(vx, nn)), pc: next, ..s })
    } else if op_family(op) == 0x8 {
        spec_exec_alu(s, op)
    } else if op_family(op) == 0x9 {
        if op_n(op) != 0x0 {
            Err(VmError::UnknownOpcode(op))
        } else {
            Ok(
                VmView {
                    pc: if vx != vy {
                        skip
                    } else {
                        next
                    },
                    ..s
                },
            )
        }
    } else if op_family(op) == 0xA {
        Ok(VmView { ir: nnn, pc: next, ..s })
    } else if op_family(op) == 0xB {
        Ok(VmView { pc: (nnn + s.v[0]) as u16, ..s })
    } else if op_family(op) == 0xC {
        Ok(VmView { v: s.v.update(x, rand & nn), pc: next, ..s })
    } else if op_family(op) == 0xD {
        spec_exec_draw(s, op)
    } else if op_family(op) == 0xE {
        spec_exec_key(s, op)
    } else {
        spec_exec_misc(s, op)
    }
}

/// One whole step: resume a pending key wait, or fetch, decode and execute
/// the instruction word at the program counter; then tick the timers.  A
/// fault leaves the machine untouched, and the timers do not tick.
pub open spec fn spec_step(s: VmView, rand: u8) -> Result<VmView, VmError>
    recommends
        s.wf(),
{
    match s.waiting_key {
        Some(x) => Ok(spec_tick(wait_resume(s, x))),
        None => {
            if s.pc + 1 >= MEMORY_SIZE {
                Err(VmError::MemoryOutOfBounds(s.pc))
            } else {
                match spec_exec(s, fetch_op(s), rand) {
                    Ok(t) => Ok(spec_tick(t)),
                    Err(e) => Err(e),
                }
            }
        },
    }
}

} // verus!
