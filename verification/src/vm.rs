//! The executable machine.  Every mutation is proved equal to the
//! corresponding part of the model in `machine`; the one unverified line is
//! the wrapper around the outside random-number generator.

use crate::machine::{
    fetch_op, first_pressed_from, font_seq, load_mem, spec_exec, spec_exec_alu, spec_exec_draw,
    spec_exec_key, spec_exec_misc, spec_exec_sys, spec_init, spec_step, spec_tick, wait_resume,
    VmView, MEMORY_SIZE, PROGRAM_START,
};
use crate::opcode::{op_nnn, op_x, op_y};
use crate::screen::{draw_apply, draw_collides, flip, sprite_hits, SCREEN_PIXELS};
use crate::VmError;
use vstd::prelude::*;

verus! {

/// The interpreter core: registers, memory, stack, timers, framebuffer and
/// keypad, driven one instruction per `step_with` or `emulate_cycle` call.
pub struct VM {
    pc: u16,
    ir: u16,
    sp: u16,
    v: Vec<u8>,
    stack: Vec<u16>,
    memory: Vec<u8>,
    gfx: Vec<u8>,
    key: Vec<u8>,
    delay_timer: u8,
    sound_timer: u8,
    draw_flag: bool,
    beep_flag: bool,
    waiting_key: Option<u8>,
}

impl View for VM {
    type V = VmView;

    closed spec fn view(&self) -> VmView {
        VmView {
            pc: self.pc,
            ir: self.ir,
            sp: self.sp,
            v: self.v@,
            stack: self.stack@,
            memory: self.memory@,
            gfx: self.gfx@,
            key: self.key@,
            delay_timer: self.delay_timer,
            sound_timer: self.sound_timer,
            draw_flag: self.draw_flag,
            beep_flag: self.beep_flag,
            waiting_key: self.waiting_key,
        }
    }
}

/// A vector of `n` zero bytes.
fn zero_bytes(n: usize) -> (r: Vec<u8>)
    ensures
        r@ == Seq::new(n as nat, |i: int| 0u8),
{
    let mut r: Vec<u8> = Vec::new();
    let mut i: usize = 0;
    while i < n
        invariant
            i <= n,
            r@.len() == i,
            forall|j: int| 0 <= j < i ==> r@[j] == 0,
        decreases n - i,
    {
        r.push(0);
        i = i + 1;
    }
    proof {
        assert(r@ =~= Seq::new(n as nat, |i: int| 0u8));
    }
    r
}

/// A vector of `n` zero 16-bit words.
fn zero_words(n: usize) -> (r: Vec<u16>)
    ensures
        r@ == Seq::new(n as nat, |i: int| 0u16),
{
    let mut r: Vec<u16> = Vec::new();
    let mut i: usize = 0;
    while i < n
        invariant
            i <= n,
            r@.len() == i,
            forall|j: int| 0 <= j < i ==> r@[j] == 0,
        decreases n - i,
    {
        r.push(0);
        i = i + 1;
    }
    proof {
        assert(r@ =~= Seq::new(n as nat, |i: int| 0u16));
    }
    r
}

/// Relies on rand::random: one byte drawn from the thread-local generator;
/// nothing is assumed of its value.
#[verifier::external_body]
fn random_byte() -> u8 {
    rand::random::<u8>()
}

/// The font image as an executable vector.
fn font_data() -> (r: Vec<u8>)
    ensures
        r@ == font_seq(),
{
    let r: Vec<u8> = vec![
        0xF0, 0x90, 0x90, 0x90, 0xF0, // 0
        0x20, 0x60, 0x20, 0x20, 0x70, // 1
        0xF0, 0x10, 0xF0, 0x80, 0xF0, // 2
        0xF0, 0x10, 0xF0, 0x10, 0xF0, // 3
        0x90, 0x90, 0xF0, 0x10, 0x10, // 4
        0xF0, 0x80, 0xF0, 0x10, 0xF0, // 5
        0xF0, 0x80, 0xF0, 0x90, 0xF0, // 6
        0xF0, 0x10, 0x20, 0x40, 0x40, // 7
        0xF0, 0x90, 0xF0, 0x90, 0xF0, // 8
        0xF0, 0x90, 0xF0, 0x10, 0xF0, // 9
        0xF0, 0x90, 0xF0, 0x90, 0x90, // A
        0xE0, 0x90, 0xE0, 0x90, 0xE0, // B
        0xF0, 0x80, 0x80, 0x80, 0xF0, // C
        0xE0, 0x90, 0x90, 0x90, 0xE0, // D
        0xF0, 0x80, 0xF0, 0x80, 0xF0, // E
        0xF0, 0x80, 0xF0, 0x80, 0x80, // F
    ];
    proof {
        assert(r@ =~= font_seq());
    }
    r
}

impl VM {
    /// A fresh machine: program counter at `PROGRAM_START`, the font in the
    /// low 80 bytes of memory, everything else zero, and the redraw flag
    /// raised so that the first frame is presented.
    pub fn new() -> (vm: VM)
        ensures
            vm@ == spec_init(),
            vm@.wf(),
    {
        let font = font_data();
        let mut memory: Vec<u8> = Vec::new();
        let mut i: usize = 0;
        while i < 80
            invariant
                i <= 80,
                font@ == font_seq(),
                memory@.len() == i,
                forall|j: int| 0 <= j < i ==> memory@[j] == font_seq()[j],
            decreases 80 - i,
        {
            memory.push(font[i]);
            i = i + 1;
        }
        while memory.len() < 4096
            invariant
                80 <= memory@.len() <= 4096,
                forall|j: int| 0 <= j < 80 ==> memory@[j] == font_seq()[j],
                forall|j: int| 80 <= j < memory@.len() ==> memory@[j] == 0,
            decreases 4096 - memory@.len(),
        {
            memory.push(0);
        }
        let vm = VM {
            pc: PROGRAM_START,
            ir: 0,
            sp: 0,
            v: zero_bytes(16),
            stack: zero_words(16),
            memory,
            gfx: zero_bytes(2048),
            key: zero_bytes(16),
            delay_timer: 0,
            sound_timer: 0,
            draw_flag: true,
            beep_flag: false,
            waiting_key: None,
        };
        proof {
            assert(vm@.memory =~= spec_init().memory);
            assert(vm@ =~= spec_init());
        }
        vm
    }

    /// Copy a program image into memory at `PROGRAM_START`.  An image longer
    /// than the 3584 bytes that fit is refused whole with `RomTooLarge`.
    pub fn load_application(&mut self, program: &Vec<u8>) -> (r: Result<(), VmError>)
        requires
            old(self)@.wf(),
        ensures
            final(self)@.wf(),
            match r {
                Ok(()) => program@.len() <= MEMORY_SIZE - PROGRAM_START && final(self)@ == (VmView {
                    memory: load_mem(old(self)@.memory, program@),
                    ..old(self)@
                }),
                Err(e) => {
                    &&& e == VmError::RomTooLarge
                    &&& program@.len() > MEMORY_SIZE - PROGRAM_START
                    &&& final(self)@ == old(self)@
                },
            },
    {
        if program.len() > (MEMORY_SIZE - PROGRAM_START) as usize {
            return Err(VmError::RomTooLarge);
        }
        let mut i: usize = 0;
        while i < program.len()
            invariant
                old(self)@.wf(),
                i <= program@.len(),
                program@.len() <= MEMORY_SIZE - PROGRAM_START,
                self@ == (VmView { memory: self@.memory, ..old(self)@ }),
                self@.memory.len() == MEMORY_SIZE,
                forall|j: int|
                    PROGRAM_START <= j < PROGRAM_START + i ==> self@.memory[j] == program@[j
                        - PROGRAM_START],
                forall|j: int|
                    0 <= j < MEMORY_SIZE && !(PROGRAM_START <= j < PROGRAM_START + i)
                        ==> self@.memory[j] == old(self)@.memory[j],
            decreases program@.len() - i,
        {
            self.memory.set(PROGRAM_START as usize + i, program[i]);
            i = i + 1;
        }
        proof {
            assert(self@.memory =~= load_mem(old(self)@.memory, program@));
            assert(self@ =~= (VmView {
                memory: load_mem(old(self)@.memory, program@),
                ..old(self)@
            }));
        }
        Ok(())
    }

    /// The program counter.
    pub fn program_counter(&self) -> (r: u16)
        ensures
            r == self@.pc,
    {
        self.pc
    }

    /// The index register.
    pub fn index_register(&self) -> (r: u16)
        ensures
            r == self@.ir,
    {
        self.ir
    }

    /// How many return addresses are on the call stack.
    pub fn stack_depth(&self) -> (r: u16)
        ensures
            r == self@.sp,
    {
        self.sp
    }

    /// General register `i`.
    pub fn register(&self, i: u8) -> (r: u8)
        requires
            i < 16,
            self@.wf(),
        ensures
            r == self@.v[i as int],
    {
        self.v[i as usize]
    }

    /// The byte at `addr`.
    pub fn read_memory(&self, addr: u16) -> (r: u8)
        requires
            addr < MEMORY_SIZE,
            self@.wf(),
        ensures
            r == self@.memory[addr as int],
    {
        self.memory[addr as usize]
    }

    /// Framebuffer cell `pos` (row-major, `pos == row * 64 + column`).
    pub fn pixel(&self, pos: u16) -> (r: u8)
        requires
            pos < SCREEN_PIXELS,
            self@.wf(),
        ensures
            r == self@.gfx[pos as int],
    {
        self.gfx[pos as usize]
    }

    /// The delay timer.
    pub fn delay_timer_value(&self) -> (r: u8)
        ensures
            r == self@.delay_timer,
    {
        self.delay_timer
    }

    /// The sound timer.
    pub fn sound_timer_value(&self) -> (r: u8)
        ensures
            r == self@.sound_timer,
    {
        self.sound_timer
    }

    /// Whether the framebuffer changed since the caller last cleared the flag.
    pub fn draw_flag(&self) -> (r: bool)
        ensures
            r == self@.draw_flag,
    {
        self.draw_flag
    }

    /// Whether the last step asked for a beep.
    pub fn beep_flag(&self) -> (r: bool)
        ensures
            r == self@.beep_flag,
    {
        self.beep_flag
    }

    /// Whether a wait-for-key instruction is blocking.
    pub fn awaiting_key(&self) -> (r: bool)
        ensures
            r == (self@.waiting_key is Some),
    {
        self.waiting_key.is_some()
    }

    /// The presentation side consumed a frame: lower the redraw flag.
    pub fn clear_draw_flag(&mut self)
        ensures
            final(self)@ == (VmView { draw_flag: false, ..old(self)@ }),
    {
        self.draw_flag = false;
        proof {
            assert(self@ =~= (VmView { draw_flag: false, ..old(self)@ }));
        }
    }

    /// The timer tick that ends every successful step.
    fn tick_timers(&mut self)
        ensures
            final(self)@ == spec_tick(old(self)@),
    {
        if self.delay_timer > 0 {
            self.delay_timer = self.delay_timer - 1;
        }
        self.beep_flag = self.sound_timer == 1;
        if self.sound_timer > 0 {
            self.sound_timer = self.sound_timer - 1;
        }
        proof {
            assert(self@ =~= spec_tick(old(self)@));
        }
    }

    /// The lowest-numbered pressed key, if any.
    fn first_pressed_key(&self) -> (r: Option<u8>)
        requires
            self@.wf(),
        ensures
            r == first_pressed_from(self@.key, 0),
    {
        let mut i: usize = 0;
        while i < 16
            invariant
                self@.wf(),
                i <= 16,
                first_pressed_from(self@.key, 0) == first_pressed_from(self@.key, i as int),
                forall|j: int| 0 <= j < i ==> self@.key[j] == 0,
            decreases 16 - i,
        {
            if self.key[i] != 0 {
                return Some(i as u8);
            }
            i = i + 1;
        }
        None
    }

    /// One step taken while a wait-for-key instruction blocks register `x`.
    fn resume_waiting(&mut self, x: u8)
        requires
            old(self)@.wf(),
            old(self)@.waiting_key == Some(x),
        ensures
            final(self)@.wf(),
            final(self)@ == wait_resume(old(self)@, x),
    {
        match self.first_pressed_key() {
            Some(k) => {
                self.v.set(x as usize, k);
                self.pc = self.pc + 2;
                self.waiting_key = None;
                proof {
                    assert(self@ =~= wait_resume(old(self)@, x));
                }
            },
            None => {
                proof {
                    assert(self@ =~= wait_resume(old(self)@, x));
                }
            },
        }
    }

    /// The system family (high nibble 0): clear screen or subroutine return.
    fn op_sys(&mut self, op: u16) -> (r: Result<(), VmError>)
        requires
            old(self)@.wf(),
            old(self)@.waiting_key is None,
            old(self)@.pc + 1 < MEMORY_SIZE,
            op / 0x1000 == 0x0,
        ensures
            final(self)@.wf(),
            match r {
                Ok(()) => spec_exec_sys(old(self)@, op) == Ok::<
                    VmView,
                    VmError,
                >(final(self)@),
                Err(e) => final(self)@ == old(self)@ && spec_exec_sys(
                    old(self)@,
                    op,
                ) == Err::<VmView, VmError>(e),
            },
    {
        let n: u16 = op % 0x10;
        if n == 0x0 {
            let mut i: usize = 0;
            while i < 2048
                invariant
                    old(self)@.wf(),
                    i <= 2048,
                    self@ == (VmView { gfx: self@.gfx, ..old(self)@ }),
                    self@.gfx.len() == 2048,
                    forall|j: int| 0 <= j < i ==> self@.gfx[j] == 0,
                    forall|j: int| i <= j < 2048 ==> self@.gfx[j] == old(self)@.gfx[j],
                decreases 2048 - i,
            {
                self.gfx.set(i, 0);
                i = i + 1;
            }
            self.draw_flag = true;
            self.pc = self.pc + 2;
            proof {
                assert(self@.gfx =~= Seq::new(old(self)@.gfx.len(), |j: int| 0u8));
                assert(self@ =~= (VmView {
                    gfx: Seq::new(old(self)@.gfx.len(), |j: int| 0u8),
                    draw_flag: true,
                    pc: (old(self)@.pc + 2) as u16,
                    ..old(self)@
                }));
            }
            Ok(())
        } else if n == 0xE {
            if self.sp == 0 {
                return Err(VmError::StackUnderflow(op));
            }
            self.sp = self.sp - 1;
            self.pc = self.stack[self.sp as usize] + 2;
            proof {
                assert(self@ =~= (VmView {
                    sp: (old(self)@.sp - 1) as u16,
                    pc: (old(self)@.stack[old(self)@.sp - 1] + 2) as u16,
                    ..old(self)@
                }));
            }
            Ok(())
        } else {
            Err(VmError::UnknownOpcode(op))
        }
    }

    /// The arithmetic and logic family (high nibble 8).
    fn op_alu(&mut self, op: u16) -> (r: Result<(), VmError>)
        requires
            old(self)@.wf(),
            old(self)@.waiting_key is None,
            old(self)@.pc + 1 < MEMORY_SIZE,
            op / 0x1000 == 0x8,
        ensures
            final(self)@.wf(),
            match r {
                Ok(()) => spec_exec_alu(old(self)@, op) == Ok::<
                    VmView,
                    VmError,
                >(final(self)@),
                Err(e) => final(self)@ == old(self)@ && spec_exec_alu(
                    old(self)@,
                    op,
                ) == Err::<VmView, VmError>(e),
            },
    {
        let x: usize = ((op / 0x100) % 0x10) as usize;
        let y: usize = ((op / 0x10) % 0x10) as usize;
        let vx: u8 = self.v[x];
        let vy: u8 = self.v[y];
        let sub: u16 = op % 0x10;
        let next: u16 = self.pc + 2;
        match sub {
            0x0 => {
                self.v.set(x, vy);
            },
            0x1 => {
                self.v.set(x, vx | vy);
            },
            0x2 => {
                self.v.set(x, vx & vy);
            },
            0x3 => {
                self.v.set(x, vx ^ vy);
            },
            0x4 => {
                let carry: u8 = if (vx as u16) + (vy as u16) > 0xFF {
                    1
                } else {
                    0
                };
                let sum: u16 = ((vx as u16) + (vy as u16)) % 0x100;
                self.v.set(0xF, carry);
                self.v.set(x, sum as u8);
            },
            0x5 => {
                let no_borrow: u8 = if vy > vx {
                    0
                } else {
                    1
                };
                let diff: u16 = ((vx as u16) + 0x100 - (vy as u16)) % 0x100;
                self.v.set(0xF, no_borrow);
                self.v.set(x, diff as u8);
            },
            0x6 => {
                self.v.set(0xF, vx % 2);
                self.v.set(x, vx / 2);
            },
            0x7 => {
                let no_borrow: u8 = if vx > vy {
                    0
                } else {
                    1
                };
                let diff: u16 = ((vy as u16) + 0x100 - (vx as u16)) % 0x100;
                self.v.set(0xF, no_borrow);
                self.v.set(x, diff as u8);
            },
            0xE => {
                self.v.set(0xF, vx / 0x80);
                let dbl: u16 = ((vx as u16) * 2) % 0x100;
                self.v.set(x, dbl as u8);
            },
            _ => {
                return Err(VmError::UnknownOpcode(op));
            },
        }
        self.pc = next;
        Ok(())
    }

    /// The key-skip family (high nibble E).
    fn op_key(&mut self, op: u16) -> (r: Result<(), VmError>)
        requires
            old(self)@.wf(),
            old(self)@.waiting_key is None,
            old(self)@.pc + 1 < MEMORY_SIZE,
            op / 0x1000 == 0xE,
        ensures
            final(self)@.wf(),
            match r {
                Ok(()) => spec_exec_key(old(self)@, op) == Ok::<
                    VmView,
                    VmError,
                >(final(self)@),
                Err(e) => final(self)@ == old(self)@ && spec_exec_key(
                    old(self)@,
                    op,
                ) == Err::<VmView, VmError>(e),
            },
    {
        let x: usize = ((op / 0x100) % 0x10) as usize;
        let vx: u8 = self.v[x];
        let nn: u16 = op % 0x100;
        if nn == 0x9E {
            let down: bool = self.key[(vx % 16) as usize] != 0;
            self.pc = if down {
                self.pc + 4
            } else {
                self.pc + 2
            };
            Ok(())
        } else if nn == 0xA1 {
            let down: bool = self.key[(vx % 16) as usize] != 0;
            self.pc = if down {
                self.pc + 2
            } else {
                self.pc + 4
            };
            Ok(())
        } else {
            Err(VmError::UnknownOpcode(op))
        }
    }

    /// The miscellaneous family (high nibble F): timers, key wait, index
    /// arithmetic, font lookup, decimal expansion and register blocks.
    fn op_misc(&mut self, op: u16) -> (r: Result<(), VmError>)
        requires
            old(self)@.wf(),
            old(self)@.waiting_key is None,
            old(self)@.pc + 1 < MEMORY_SIZE,
            op / 0x1000 == 0xF,
        ensures
            final(self)@.wf(),
            match r {
                Ok(()) => spec_exec_misc(old(self)@, op) == Ok::<VmView, VmError>(final(self)@),
                Err(e) => final(self)@ == old(self)@ && spec_exec_misc(old(self)@, op) == Err::<
                    VmView,
                    VmError,
                >(e),
            },
    {
        let x: usize = ((op / 0x100) % 0x10) as usize;
        let vx: u8 = self.v[x];
        let nn: u16 = op % 0x100;
        if nn == 0x07 {
            self.v.set(x, self.delay_timer);
            self.pc = self.pc + 2;
            Ok(())
        } else if nn == 0x0A {
            match self.first_pressed_key() {
                Some(k) => {
                    self.v.set(x, k);
                    self.pc = self.pc + 2;
                },
                None => {
                    self.waiting_key = Some(x as u8);
                },
            }
            Ok(())
        } else if nn == 0x15 {
            self.delay_timer = vx;
            self.pc = self.pc + 2;
            Ok(())
        } else if nn == 0x18 {
            self.sound_timer = vx;
            self.pc = self.pc + 2;
            Ok(())
        } else if nn == 0x1E {
            let sum: u32 = (self.ir as u32 + vx as u32) % 0x10000;
            self.ir = sum as u16;
            self.pc = self.pc + 2;
            Ok(())
        } else if nn == 0x29 {
            self.ir = 5 * ((vx % 16) as u16);
            self.pc = self.pc + 2;
            Ok(())
        } else if nn == 0x33 {
            if self.ir > MEMORY_SIZE - 3 {
                return Err(VmError::MemoryOutOfBounds(self.ir));
            }
            let base: usize = self.ir as usize;
            self.memory.set(base, vx / 100);
            self.memory.set(base + 1, (vx / 10) % 10);
            self.memory.set(base + 2, vx % 10);
            self.pc = self.pc + 2;
            Ok(())
        } else if nn == 0x55 {
            if (self.ir as u32) + (x as u32) + 1 > MEMORY_SIZE as u32 {
                return Err(VmError::MemoryOutOfBounds(self.ir));
            }
            let base: usize = self.ir as usize;
            let mut i: usize = 0;
            while i < x + 1
                invariant
                    old(self)@.wf(),
                    i <= x + 1,
                    x < 16,
                    base == old(self)@.ir,
                    base + x + 1 <= MEMORY_SIZE,
                    self@ == (VmView { memory: self@.memory, ..old(self)@ }),
                    self@.memory.len() == MEMORY_SIZE,
                    forall|j: int|
                        base <= j < base + i ==> self@.memory[j] == old(self)@.v[j - base],
                    forall|j: int|
                        0 <= j < MEMORY_SIZE && !(base <= j < base + i) ==> self@.memory[j] == old(
                            self,
                        )@.memory[j],
                decreases x + 1 - i,
            {
                self.memory.set(base + i, self.v[i]);
                i = i + 1;
            }
            self.pc = self.pc + 2;
            proof {
                assert(self@.memory =~= Seq::new(
                    old(self)@.memory.len(),
                    |j: int|
                        if old(self)@.ir <= j < old(self)@.ir + op_x(op) + 1 {
                            old(self)@.v[j - old(self)@.ir]
                        } else {
                            old(self)@.memory[j]
                        },
                ));
            }
            Ok(())
        } else if nn == 0x65 {
            if (self.ir as u32) + (x as u32) + 1 > MEMORY_SIZE as u32 {
                return Err(VmError::MemoryOutOfBounds(self.ir));
            }
            let base: usize = self.ir as usize;
            let mut i: usize = 0;
            while i < x + 1
                invariant
                    old(self)@.wf(),
                    i <= x + 1,
                    x < 16,
                    base == old(self)@.ir,
                    base + x + 1 <= MEMORY_SIZE,
                    self@ == (VmView { v: self@.v, ..old(self)@ }),
                    self@.v.len() == 16,
                    forall|j: int| 0 <= j < i ==> self@.v[j] == old(self)@.memory[base + j],
                    forall|j: int| i <= j < 16 ==> self@.v[j] == old(self)@.v[j],
                decreases x + 1 - i,
            {
                self.v.set(i, self.memory[base + i]);
                i = i + 1;
            }
            self.pc = self.pc + 2;
            proof {
                assert(self@.v =~= Seq::new(
                    old(self)@.v.len(),
                    |j: int|
                        if 0 <= j <= op_x(op) {
                            old(self)@.memory[old(self)@.ir + j]
                        } else {
                            old(self)@.v[j]
                        },
                ));
            }
            Ok(())
        } else {
            Err(VmError::UnknownOpcode(op))
        }
    }

    /// XOR-blit an `n`-row sprite read from memory at the index register
    /// onto the screen at `(x0, y0)`, dropping pixels that fall outside, and
    /// report whether any pixel went from set to unset.  Walks the
    /// framebuffer cell by cell, deciding for each whether a sprite bit
    /// lands on it.
    fn draw_sprite(&mut self, x0: u8, y0: u8, n: u8) -> (collision: bool)
        requires
            old(self)@.wf(),
            n > 0 ==> old(self)@.ir + n <= MEMORY_SIZE,
        ensures
            final(self)@.wf(),
            final(self)@ == (VmView {
                gfx: draw_apply(old(self)@.gfx, old(self)@.memory, old(self)@.ir, x0, y0, n),
                ..old(self)@
            }),
            collision == draw_collides(
                old(self)@.gfx,
                old(self)@.memory,
                old(self)@.ir,
                x0,
                y0,
                n,
            ),
    {
        let ghost m = old(self)@.memory;
        let ghost g0 = old(self)@.gfx;
        let ghost ir0 = old(self)@.ir;
        let mut collision: bool = false;
        let mut pos: u16 = 0;
        while pos < 2048
            invariant
                old(self)@.wf(),
                pos <= 2048,
                n > 0 ==> ir0 + n <= MEMORY_SIZE,
                m == old(self)@.memory,
                g0 == old(self)@.gfx,
                ir0 == old(self)@.ir,
                self@ == (VmView { gfx: self@.gfx, ..old(self)@ }),
                self@.gfx.len() == 2048,
                forall|p: int|
                    0 <= p < pos ==> self@.gfx[p] == (if sprite_hits(m, ir0, x0, y0, n, p) {
                        flip(g0[p])
                    } else {
                        g0[p]
                    }),
                forall|p: int| pos <= p < 2048 ==> self@.gfx[p] == g0[p],
                collision == (exists|p: int|
                    0 <= p < pos && sprite_hits(m, ir0, x0, y0, n, p) && g0[p] == 1),
            decreases 2048 - pos,
        {
            let px: u16 = pos % 64;
            let py: u16 = pos / 64;
            let in_x: bool = (x0 as u16) <= px && px < (x0 as u16) + 8;
            let in_y: bool = (y0 as u16) <= py && py < (y0 as u16) + (n as u16);
            let mut hits: bool = false;
            if in_x && in_y {
                let row: u16 = py - (y0 as u16);
                let byte: u8 = self.memory[(self.ir + row) as usize];
                let j: u16 = px - (x0 as u16);
                let sh: u8 = (7 - j) as u8;
                hits = (byte >> sh) & 1 == 1;
            }
            proof {
                assert(hits == sprite_hits(m, ir0, x0, y0, n, pos as int));
            }
            let ghost prev_col = collision;
            if hits {
                let cur: u8 = self.gfx[pos as usize];
                if cur == 1 {
                    collision = true;
                    self.gfx.set(pos as usize, 0);
                } else {
                    self.gfx.set(pos as usize, 1);
                }
            }
            proof {
                assert(collision == (prev_col || (sprite_hits(m, ir0, x0, y0, n, pos as int)
                    && g0[pos as int] == 1)));
                if collision {
                    if prev_col {
                        let p = choose|p: int|
                            0 <= p < pos && sprite_hits(m, ir0, x0, y0, n, p) && g0[p] == 1;
                        assert(0 <= p < pos + 1 && sprite_hits(m, ir0, x0, y0, n, p) && g0[p]
                            == 1);
                    } else {
                        assert(0 <= (pos as int) < pos + 1 && sprite_hits(
                            m,
                            ir0,
                            x0,
                            y0,
                            n,
                            pos as int,
                        ) && g0[pos as int] == 1);
                    }
                }
                assert(collision == (exists|p: int|
                    0 <= p < pos + 1 && sprite_hits(m, ir0, x0, y0, n, p) && g0[p] == 1));
            }
            pos = pos + 1;
        }
        proof {
            assert(self@.gfx =~= draw_apply(g0, m, ir0, x0, y0, n));
            assert(self@ =~= (VmView { gfx: draw_apply(g0, m, ir0, x0, y0, n), ..old(self)@ }));
        }
        collision
    }

    /// The sprite-draw instruction (high nibble D).
    fn op_draw(&mut self, op: u16) -> (r: Result<(), VmError>)
        requires
            old(self)@.wf(),
            old(self)@.waiting_key is None,
            old(self)@.pc + 1 < MEMORY_SIZE,
            op / 0x1000 == 0xD,
        ensures
            final(self)@.wf(),
            match r {
                Ok(()) => spec_exec_draw(old(self)@, op) == Ok::<
                    VmView,
                    VmError,
                >(final(self)@),
                Err(e) => final(self)@ == old(self)@ && spec_exec_draw(
                    old(self)@,
                    op,
                ) == Err::<VmView, VmError>(e),
            },
    {
        let x: usize = ((op / 0x100) % 0x10) as usize;
        let y: usize = ((op / 0x10) % 0x10) as usize;
        let x0: u8 = self.v[x];
        let y0: u8 = self.v[y];
        let n: u8 = (op % 0x10) as u8;
        if n > 0 && self.ir > MEMORY_SIZE - (n as u16) {
            return Err(VmError::MemoryOutOfBounds(self.ir));
        }
        let collision = self.draw_sprite(x0, y0, n);
        self.v.set(
            0xF,
            if collision {
                1
            } else {
                0
            },
        );
        self.draw_flag = true;
        self.pc = self.pc + 2;
        proof {
            assert(self@ =~= (VmView {
                gfx: draw_apply(
                    old(self)@.gfx,
                    old(self)@.memory,
                    old(self)@.ir,
                    old(self)@.v[op_x(op)],
                    old(self)@.v[op_y(op)],
                    (op % 0x10) as u8,
                ),
                v: old(self)@.v.update(
                    0xF,
                    if draw_collides(
                        old(self)@.gfx,
                        old(self)@.memory,
                        old(self)@.ir,
                        old(self)@.v[op_x(op)],
                        old(self)@.v[op_y(op)],
                        (op % 0x10) as u8,
                    ) {
                        1u8
                    } else {
                        0u8
                    },
                ),
                draw_flag: true,
                pc: (old(self)@.pc + 2) as u16,
                ..old(self)@
            }));
        }
        Ok(())
    }

    /// Decode one fetched instruction word by its high nibble and execute it.
    fn exec_op(&mut self, op: u16, rand_byte: u8) -> (r: Result<(), VmError>)
        requires
            old(self)@.wf(),
            old(self)@.waiting_key is None,
            old(self)@.pc + 1 < MEMORY_SIZE,
        ensures
            final(self)@.wf(),
            match r {
                Ok(()) => spec_exec(old(self)@, op, rand_byte) == Ok::<
                    VmView,
                    VmError,
                >(final(self)@),
                Err(e) => final(self)@ == old(self)@ && spec_exec(old(self)@, op, rand_byte)
                    == Err::<VmView, VmError>(e),
            },
    {
        let fam: u16 = op / 0x1000;
        let x: usize = ((op / 0x100) % 0x10) as usize;
        let y: usize = ((op / 0x10) % 0x10) as usize;
        let n: u16 = op % 0x10;
        let nn: u8 = (op % 0x100) as u8;
        let nnn: u16 = op % 0x1000;
        match fam {
            0x0 => self.op_sys(op),
            0x1 => {
                self.pc = nnn;
                proof {
                    assert(self@ =~= (VmView { pc: op_nnn(op), ..old(self)@ }));
                }
                Ok(())
            },
            0x2 => {
                if self.sp == 16 {
                    return Err(VmError::StackOverflow(op));
                }
                self.stack.set(self.sp as usize, self.pc);
                self.sp = self.sp + 1;
                self.pc = nnn;
                proof {
                    assert(self@ =~= (VmView {
                        stack: old(self)@.stack.update(old(self)@.sp as int, old(self)@.pc),
                        sp: (old(self)@.sp + 1) as u16,
                        pc: op_nnn(op),
                        ..old(self)@
                    }));
                }
                Ok(())
            },
            0x3 => {
                let taken: bool = self.v[x] == nn;
                self.pc = if taken {
                    self.pc + 4
                } else {
                    self.pc + 2
                };
                Ok(())
            },
            0x4 => {
                let taken: bool = self.v[x] != nn;
                self.pc = if taken {
                    self.pc + 4
                } else {
                    self.pc + 2
                };
                Ok(())
            },
            0x5 => {
                if n != 0x0 {
                    return Err(VmError::UnknownOpcode(op));
                }
                let taken: bool = self.v[x] == self.v[y];
                self.pc = if taken {
                    self.pc + 4
                } else {
                    self.pc + 2
                };
                Ok(())
            },
            0x6 => {
                self.v.set(x, nn);
                self.pc = self.pc + 2;
                Ok(())
            },
            0x7 => {
                let sum: u16 = ((self.v[x] as u16) + (nn as u16)) % 0x100;
                self.v.set(x, sum as u8);
                self.pc = self.pc + 2;
                Ok(())
            },
            0x8 => self.op_alu(op),
            0x9 => {
                if n != 0x0 {
                    return Err(VmError::UnknownOpcode(op));
                }
                let taken: bool = self.v[x] != self.v[y];
                self.pc = if taken {
                    self.pc + 4
                } else {
                    self.pc + 2
                };
                Ok(())
            },
            0xA => {
                self.ir = nnn;
                self.pc = self.pc + 2;
                Ok(())
            },
            0xB => {
                self.pc = nnn + (self.v[0] as u16);
                Ok(())
            },
            0xC => {
                self.v.set(x, rand_byte & nn);
                self.pc = self.pc + 2;
                Ok(())
            },
            0xD => self.op_draw(op),
            0xE => self.op_key(op),
            _ => self.op_misc(op),
        }
    }

    /// One fetch-decode-execute cycle driven by a caller-supplied random
    /// byte: the byte that a random-number instruction masks.  The result of
    /// the step is exactly `spec_step` of the old state and that byte; a
    /// fault leaves the machine untouched.
    pub fn step_with(&mut self, rand_byte: u8) -> (r: Result<(), VmError>)
        requires
            old(self)@.wf(),
        ensures
            final(self)@.wf(),
            match r {
                Ok(()) => spec_step(old(self)@, rand_byte) == Ok::<
                    VmView,
                    VmError,
                >(final(self)@),
                Err(e) => final(self)@ == old(self)@ && spec_step(old(self)@, rand_byte)
                    == Err::<VmView, VmError>(e),
            },
    {
        match self.waiting_key {
            Some(x) => {
                self.resume_waiting(x);
                self.tick_timers();
                Ok(())
            },
            None => {
                if self.pc >= MEMORY_SIZE - 1 {
                    return Err(VmError::MemoryOutOfBounds(self.pc));
                }
                let hi: u8 = self.memory[self.pc as usize];
                let lo: u8 = self.memory[self.pc as usize + 1];
                let op: u16 = (hi as u16) * 0x100 + (lo as u16);
                proof {
                    assert(op == fetch_op(old(self)@));
                }
                match self.exec_op(op, rand_byte) {
                    Ok(()) => {
                        self.tick_timers();
                        Ok(())
                    },
                    Err(e) => Err(e),
                }
            },
        }
    }

    /// One fetch-decode-execute cycle, drawing the random byte itself.  The
    /// new state is `spec_step` of the old one for some byte; callers that
    /// need the byte pinned down use `step_with`.
    pub fn emulate_cycle(&mut self) -> (r: Result<(), VmError>)
        requires
            old(self)@.wf(),
        ensures
            final(self)@.wf(),
            match r {
                Ok(()) => exists|rb: u8|
                    spec_step(old(self)@, rb) == Ok::<VmView, VmError>(final(self)@),
                Err(e) => final(self)@ == old(self)@ && (forall|rb: u8|
                    spec_step(old(self)@, rb) == Err::<VmView, VmError>(e)),
            },
    {
        let rb: u8 = random_byte();
        let r = self.step_with(rb);
        proof {
            if r is Err {
                assert forall|rb2: u8|
                    spec_step(old(self)@, rb2) == Err::<VmView, VmError>(r->Err_0) by {
                    crate::laws::lemma_step_fault_ignores_random(old(self)@, rb, rb2);
                }
            }
        }
        r
    }

    /// The input side reports key `k` as pressed or released.
    pub fn set_key(&mut self, k: u8, pressed: bool)
        requires
            k < 16,
            old(self)@.wf(),
        ensures
            final(self)@.wf(),
            final(self)@ == (VmView {
                key: old(self)@.key.update(
                    k as int,
                    if pressed {
                        1u8
                    } else {
                        0u8
                    },
                ),
                ..old(self)@
            }),
    {
        self.key.set(
            k as usize,
            if pressed {
                1
            } else {
                0
            },
        );
        proof {
            assert(self@ =~= (VmView {
                key: old(self)@.key.update(
                    k as int,
                    if pressed {
                        1u8
                    } else {
                        0u8
                    },
                ),
                ..old(self)@
            }));
        }
    }
}

} // verus!
