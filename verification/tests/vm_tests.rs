use chip8::{VmError, VM};

/// A machine with `rom` loaded and ready to step.
fn boot(rom: &[u8]) -> VM {
    let mut vm = VM::new();
    let image: Vec<u8> = rom.to_vec();
    vm.load_application(&image).expect("rom fits");
    vm
}

#[test]
fn fresh_machine_state() {
    let vm = VM::new();
    assert_eq!(vm.program_counter(), 0x200);
    assert_eq!(vm.index_register(), 0);
    assert_eq!(vm.stack_depth(), 0);
    assert!(vm.draw_flag());
    assert!(!vm.beep_flag());
    assert!(!vm.awaiting_key());
    // The font image sits in the low 80 bytes.
    assert_eq!(vm.read_memory(0), 0xF0);
    assert_eq!(vm.read_memory(79), 0x80);
    assert_eq!(vm.read_memory(80), 0);
    for i in 0..16 {
        assert_eq!(vm.register(i), 0);
    }
    for pos in 0..2048 {
        assert_eq!(vm.pixel(pos), 0);
    }
}

#[test]
fn load_rom_of_greatest_size_succeeds() {
    let mut vm = VM::new();
    let mut image: Vec<u8> = vec![0xAB; 3584];
    image[0] = 0x11;
    image[3583] = 0x22;
    assert_eq!(vm.load_application(&image), Ok(()));
    assert_eq!(vm.program_counter(), 0x200);
    assert_eq!(vm.read_memory(512), 0x11);
    assert_eq!(vm.read_memory(4095), 0x22);
}

#[test]
fn load_rom_too_large_fails() {
    let mut vm = VM::new();
    let image: Vec<u8> = vec![0xAB; 3585];
    assert_eq!(vm.load_application(&image), Err(VmError::RomTooLarge));
    // The machine is untouched.
    assert_eq!(vm.read_memory(512), 0);
    assert_eq!(vm.program_counter(), 0x200);
}

#[test]
fn jump_sets_program_counter() {
    let mut vm = boot(&[0x13, 0x45]);
    assert_eq!(vm.emulate_cycle(), Ok(()));
    assert_eq!(vm.program_counter(), 0x345);
}

#[test]
fn call_sets_program_counter_and_pushes() {
    let mut vm = boot(&[0x23, 0x00]);
    assert_eq!(vm.emulate_cycle(), Ok(()));
    assert_eq!(vm.program_counter(), 0x300);
    assert_eq!(vm.stack_depth(), 1);
}

#[test]
fn computed_jump_adds_v0() {
    let mut vm = boot(&[0x60, 0x10, 0xB3, 0x00]);
    assert_eq!(vm.emulate_cycle(), Ok(()));
    assert_eq!(vm.emulate_cycle(), Ok(()));
    assert_eq!(vm.program_counter(), 0x310);
}

#[test]
fn add_registers_with_carry() {
    // 250 + 10 wraps to 4 and sets the carry flag.
    let mut vm = boot(&[0x61, 250, 0x62, 10, 0x81, 0x24]);
    for _ in 0..3 {
        assert_eq!(vm.emulate_cycle(), Ok(()));
    }
    assert_eq!(vm.register(1), 4);
    assert_eq!(vm.register(0xF), 1);

    // The symmetric sum 10 + 250 gives the same result.
    let mut vm = boot(&[0x61, 10, 0x62, 250, 0x81, 0x24]);
    for _ in 0..3 {
        assert_eq!(vm.emulate_cycle(), Ok(()));
    }
    assert_eq!(vm.register(1), 4);
    assert_eq!(vm.register(0xF), 1);

    // 5 + 3 stays in range and clears the flag.
    let mut vm = boot(&[0x61, 5, 0x62, 3, 0x6F, 1, 0x81, 0x24]);
    for _ in 0..4 {
        assert_eq!(vm.emulate_cycle(), Ok(()));
    }
    assert_eq!(vm.register(1), 8);
    assert_eq!(vm.register(0xF), 0);
}

#[test]
fn subtract_registers_with_borrow() {
    // 3 - 5 wraps to 254; a borrow clears VF.
    let mut vm = boot(&[0x61, 3, 0x62, 5, 0x81, 0x25]);
    for _ in 0..3 {
        assert_eq!(vm.emulate_cycle(), Ok(()));
    }
    assert_eq!(vm.register(1), 254);
    assert_eq!(vm.register(0xF), 0);

    // 5 - 3 is 2; no borrow sets VF.
    let mut vm = boot(&[0x61, 5, 0x62, 3, 0x81, 0x25]);
    for _ in 0..3 {
        assert_eq!(vm.emulate_cycle(), Ok(()));
    }
    assert_eq!(vm.register(1), 2);
    assert_eq!(vm.register(0xF), 1);
}

#[test]
fn reverse_subtract_with_borrow() {
    // V1 := V2 - V1 = 5 - 3 = 2, no borrow.
    let mut vm = boot(&[0x61, 3, 0x62, 5, 0x81, 0x27]);
    for _ in 0..3 {
        assert_eq!(vm.emulate_cycle(), Ok(()));
    }
    assert_eq!(vm.register(1), 2);
    assert_eq!(vm.register(0xF), 1);
}

#[test]
fn call_return_round_trip() {
    // A call at 0x200 to 0x300, where a return sits.
    let mut image = vec![0u8; 258];
    image[0] = 0x23;
    image[1] = 0x00;
    image[256] = 0x00;
    image[257] = 0xEE;
    let mut vm = VM::new();
    assert_eq!(vm.load_application(&image), Ok(()));
    assert_eq!(vm.emulate_cycle(), Ok(()));
    assert_eq!(vm.program_counter(), 0x300);
    assert_eq!(vm.stack_depth(), 1);
    assert_eq!(vm.emulate_cycle(), Ok(()));
    assert_eq!(vm.program_counter(), 0x202);
    assert_eq!(vm.stack_depth(), 0);
}

#[test]
fn stack_overflow_on_seventeenth_call() {
    // The instruction at 0x200 calls 0x200 again, forever.
    let mut vm = boot(&[0x22, 0x00]);
    for depth in 1..=16 {
        assert_eq!(vm.emulate_cycle(), Ok(()));
        assert_eq!(vm.stack_depth(), depth);
    }
    assert_eq!(vm.emulate_cycle(), Err(VmError::StackOverflow(0x2200)));
    // The failing step left the machine untouched.
    assert_eq!(vm.stack_depth(), 16);
    assert_eq!(vm.program_counter(), 0x200);
}

#[test]
fn stack_underflow_on_return_from_empty_stack() {
    let mut vm = boot(&[0x00, 0xEE]);
    assert_eq!(vm.emulate_cycle(), Err(VmError::StackUnderflow(0x00EE)));
}

#[test]
fn draw_sets_pixels_and_redraw_flag() {
    // One 0xFF row drawn at (5, 3) from sprite data at 0x20A.
    let mut vm = boot(&[0x60, 5, 0x61, 3, 0xA2, 0x0A, 0xD0, 0x11, 0xD0, 0x11, 0xFF]);
    for _ in 0..3 {
        assert_eq!(vm.emulate_cycle(), Ok(()));
    }
    vm.clear_draw_flag();
    assert_eq!(vm.emulate_cycle(), Ok(()));
    for col in 5..13 {
        assert_eq!(vm.pixel(3 * 64 + col), 1);
    }
    assert_eq!(vm.pixel(3 * 64 + 4), 0);
    assert_eq!(vm.pixel(3 * 64 + 13), 0);
    assert_eq!(vm.register(0xF), 0);
    assert!(vm.draw_flag());
}

#[test]
fn draw_twice_restores_framebuffer() {
    let mut vm = boot(&[0x60, 5, 0x61, 3, 0xA2, 0x0A, 0xD0, 0x11, 0xD0, 0x11, 0xFF]);
    for _ in 0..4 {
        assert_eq!(vm.emulate_cycle(), Ok(()));
    }
    // The first draw set eight pixels without collision.
    assert_eq!(vm.register(0xF), 0);
    // The second draw erases them all and reports the collision.
    assert_eq!(vm.emulate_cycle(), Ok(()));
    assert_eq!(vm.register(0xF), 1);
    for pos in 0..2048 {
        assert_eq!(vm.pixel(pos), 0);
    }
}

#[test]
fn draw_drops_pixels_outside_the_screen() {
    // An 0xFF row at x == 60: only columns 60..64 land; nothing wraps.
    let mut vm = boot(&[0x60, 60, 0x61, 0, 0xA2, 0x0A, 0xD0, 0x11, 0, 0, 0xFF]);
    for _ in 0..4 {
        assert_eq!(vm.emulate_cycle(), Ok(()));
    }
    for col in 60..64 {
        assert_eq!(vm.pixel(col), 1);
    }
    for col in 0..4 {
        assert_eq!(vm.pixel(col), 0);
    }
    assert_eq!(vm.register(0xF), 0);
}

#[test]
fn clear_screen_blanks_framebuffer() {
    let mut vm = boot(&[0x60, 5, 0x61, 3, 0xA2, 0x0A, 0xD0, 0x11, 0x00, 0xE0, 0xFF]);
    for _ in 0..4 {
        assert_eq!(vm.emulate_cycle(), Ok(()));
    }
    assert_eq!(vm.pixel(3 * 64 + 5), 1);
    vm.clear_draw_flag();
    assert_eq!(vm.emulate_cycle(), Ok(()));
    for pos in 0..2048 {
        assert_eq!(vm.pixel(pos), 0);
    }
    assert!(vm.draw_flag());
}

#[test]
fn binary_coded_decimal() {
    // V2 = 234, index 0: memory 0..3 gets 2, 3, 4.
    let mut vm = boot(&[0x62, 234, 0xA0, 0x00, 0xF2, 0x33]);
    for _ in 0..3 {
        assert_eq!(vm.emulate_cycle(), Ok(()));
    }
    assert_eq!(vm.read_memory(0), 2);
    assert_eq!(vm.read_memory(1), 3);
    assert_eq!(vm.read_memory(2), 4);
}

#[test]
fn sound_timer_edge_raises_beep_once() {
    // V1 := 1; sound timer := V1; then a harmless set of V5.
    let mut vm = boot(&[0x61, 1, 0xF1, 0x18, 0x65, 0x00]);
    assert_eq!(vm.emulate_cycle(), Ok(()));
    assert!(!vm.beep_flag());
    // The step that sets the timer to 1 also ticks it to 0 and beeps.
    assert_eq!(vm.emulate_cycle(), Ok(()));
    assert!(vm.beep_flag());
    assert_eq!(vm.sound_timer_value(), 0);
    // With the timer already 0, the next step raises no beep.
    assert_eq!(vm.emulate_cycle(), Ok(()));
    assert!(!vm.beep_flag());
}

#[test]
fn unknown_opcode_carries_the_word() {
    let mut vm = boot(&[0x00, 0x01]);
    assert_eq!(vm.emulate_cycle(), Err(VmError::UnknownOpcode(0x0001)));

    let mut vm = boot(&[0x5A, 0xB1]);
    assert_eq!(vm.emulate_cycle(), Err(VmError::UnknownOpcode(0x5AB1)));

    let mut vm = boot(&[0x8A, 0xB8]);
    assert_eq!(vm.emulate_cycle(), Err(VmError::UnknownOpcode(0x8AB8)));

    let mut vm = boot(&[0xFA, 0x99]);
    assert_eq!(vm.emulate_cycle(), Err(VmError::UnknownOpcode(0xFA99)));
}

#[test]
fn skip_if_equal_immediate() {
    let mut vm = boot(&[0x61, 7, 0x31, 7]);
    assert_eq!(vm.emulate_cycle(), Ok(()));
    assert_eq!(vm.emulate_cycle(), Ok(()));
    assert_eq!(vm.program_counter(), 0x206);

    let mut vm = boot(&[0x61, 7, 0x31, 8]);
    assert_eq!(vm.emulate_cycle(), Ok(()));
    assert_eq!(vm.emulate_cycle(), Ok(()));
    assert_eq!(vm.program_counter(), 0x204);
}

#[test]
fn skip_if_not_equal_immediate() {
    let mut vm = boot(&[0x61, 7, 0x41, 8]);
    assert_eq!(vm.emulate_cycle(), Ok(()));
    assert_eq!(vm.emulate_cycle(), Ok(()));
    assert_eq!(vm.program_counter(), 0x206);
}

#[test]
fn skip_on_register_compare() {
    let mut vm = boot(&[0x61, 7, 0x62, 7, 0x51, 0x20]);
    for _ in 0..3 {
        assert_eq!(vm.emulate_cycle(), Ok(()));
    }
    assert_eq!(vm.program_counter(), 0x208);

    let mut vm = boot(&[0x61, 7, 0x62, 9, 0x91, 0x20]);
    for _ in 0..3 {
        assert_eq!(vm.emulate_cycle(), Ok(()));
    }
    assert_eq!(vm.program_counter(), 0x208);
}

#[test]
fn register_assign_and_logic() {
    // V1 := V2.
    let mut vm = boot(&[0x62, 0x5A, 0x81, 0x20]);
    assert_eq!(vm.emulate_cycle(), Ok(()));
    assert_eq!(vm.emulate_cycle(), Ok(()));
    assert_eq!(vm.register(1), 0x5A);

    // OR, AND, XOR of 0xF0 and 0x3C.
    let mut vm = boot(&[0x61, 0xF0, 0x62, 0x3C, 0x81, 0x21]);
    for _ in 0..3 {
        assert_eq!(vm.emulate_cycle(), Ok(()));
    }
    assert_eq!(vm.register(1), 0xFC);

    let mut vm = boot(&[0x61, 0xF0, 0x62, 0x3C, 0x81, 0x22]);
    for _ in 0..3 {
        assert_eq!(vm.emulate_cycle(), Ok(()));
    }
    assert_eq!(vm.register(1), 0x30);

    let mut vm = boot(&[0x61, 0xF0, 0x62, 0x3C, 0x81, 0x23]);
    for _ in 0..3 {
        assert_eq!(vm.emulate_cycle(), Ok(()));
    }
    assert_eq!(vm.register(1), 0xCC);
}

#[test]
fn shifts_report_the_moved_bit() {
    // Right shift of 5: result 2, VF gets the low bit 1.
    let mut vm = boot(&[0x61, 5, 0x81, 0x06]);
    assert_eq!(vm.emulate_cycle(), Ok(()));
    assert_eq!(vm.emulate_cycle(), Ok(()));
    assert_eq!(vm.register(1), 2);
    assert_eq!(vm.register(0xF), 1);

    // Left shift of 0x81: result 2, VF gets the high bit 1.
    let mut vm = boot(&[0x61, 0x81, 0x81, 0x0E]);
    assert_eq!(vm.emulate_cycle(), Ok(()));
    assert_eq!(vm.emulate_cycle(), Ok(()));
    assert_eq!(vm.register(1), 2);
    assert_eq!(vm.register(0xF), 1);
}

#[test]
fn add_immediate_wraps_without_flag() {
    let mut vm = boot(&[0x61, 250, 0x71, 10]);
    assert_eq!(vm.emulate_cycle(), Ok(()));
    assert_eq!(vm.emulate_cycle(), Ok(()));
    assert_eq!(vm.register(1), 4);
    assert_eq!(vm.register(0xF), 0);
}

#[test]
fn index_register_instructions() {
    // ANNN sets the index.
    let mut vm = boot(&[0xA1, 0x23]);
    assert_eq!(vm.emulate_cycle(), Ok(()));
    assert_eq!(vm.index_register(), 0x123);

    // FX1E adds a register, 16-bit sum, no 12-bit masking.
    let mut vm = boot(&[0xAF, 0xFF, 0x61, 0xFF, 0xF1, 0x1E]);
    for _ in 0..3 {
        assert_eq!(vm.emulate_cycle(), Ok(()));
    }
    assert_eq!(vm.index_register(), 0x10FE);

    // FX29 points at the font glyph of the low nibble of VX.
    let mut vm = boot(&[0x61, 0x2A, 0xF1, 0x29]);
    assert_eq!(vm.emulate_cycle(), Ok(()));
    assert_eq!(vm.emulate_cycle(), Ok(()));
    assert_eq!(vm.index_register(), 50);
}

#[test]
fn store_registers_to_memory() {
    let mut vm = boot(&[0x60, 7, 0x61, 8, 0x62, 9, 0xA4, 0x00, 0xF2, 0x55]);
    for _ in 0..5 {
        assert_eq!(vm.emulate_cycle(), Ok(()));
    }
    assert_eq!(vm.read_memory(0x400), 7);
    assert_eq!(vm.read_memory(0x401), 8);
    assert_eq!(vm.read_memory(0x402), 9);
    assert_eq!(vm.read_memory(0x403), 0);
    assert_eq!(vm.index_register(), 0x400);
}

#[test]
fn load_registers_from_memory() {
    let mut vm = boot(&[0xA2, 0x0A, 0xF2, 0x65, 0, 0, 0, 0, 0, 0, 11, 22, 33]);
    assert_eq!(vm.emulate_cycle(), Ok(()));
    assert_eq!(vm.emulate_cycle(), Ok(()));
    assert_eq!(vm.register(0), 11);
    assert_eq!(vm.register(1), 22);
    assert_eq!(vm.register(2), 33);
    assert_eq!(vm.register(3), 0);
}

#[test]
fn random_byte_is_masked() {
    let mut vm = boot(&[0xC3, 0x0F]);
    assert_eq!(vm.step_with(0xAB), Ok(()));
    assert_eq!(vm.register(3), 0x0B);

    let mut vm = boot(&[0xC3, 0x00]);
    assert_eq!(vm.step_with(0xAB), Ok(()));
    assert_eq!(vm.register(3), 0x00);
}

#[test]
fn key_skip_instructions() {
    // Key 4 down: EX9E skips.
    let mut vm = boot(&[0x61, 4, 0xE1, 0x9E]);
    vm.set_key(4, true);
    assert_eq!(vm.emulate_cycle(), Ok(()));
    assert_eq!(vm.emulate_cycle(), Ok(()));
    assert_eq!(vm.program_counter(), 0x206);

    // Key 4 up: EX9E does not skip, EXA1 does.
    let mut vm = boot(&[0x61, 4, 0xE1, 0x9E]);
    assert_eq!(vm.emulate_cycle(), Ok(()));
    assert_eq!(vm.emulate_cycle(), Ok(()));
    assert_eq!(vm.program_counter(), 0x204);

    let mut vm = boot(&[0x61, 4, 0xE1, 0xA1]);
    assert_eq!(vm.emulate_cycle(), Ok(()));
    assert_eq!(vm.emulate_cycle(), Ok(()));
    assert_eq!(vm.program_counter(), 0x206);
}

#[test]
fn wait_for_key_blocks_until_pressed() {
    // Delay := 5, then wait for a key into V2.
    let mut vm = boot(&[0x61, 5, 0xF1, 0x15, 0xF2, 0x0A]);
    assert_eq!(vm.emulate_cycle(), Ok(()));
    assert_eq!(vm.emulate_cycle(), Ok(()));
    assert_eq!(vm.delay_timer_value(), 4);
    // The wait leaves the program counter in place, step after step.
    assert_eq!(vm.emulate_cycle(), Ok(()));
    assert_eq!(vm.program_counter(), 0x204);
    assert!(vm.awaiting_key());
    assert_eq!(vm.emulate_cycle(), Ok(()));
    assert_eq!(vm.program_counter(), 0x204);
    // Timers still tick once per blocked step.
    assert_eq!(vm.delay_timer_value(), 2);
    // A key press completes the instruction.
    vm.set_key(9, true);
    assert_eq!(vm.emulate_cycle(), Ok(()));
    assert_eq!(vm.register(2), 9);
    assert_eq!(vm.program_counter(), 0x206);
    assert!(!vm.awaiting_key());
}

#[test]
fn read_delay_timer() {
    // Delay := 5 (ticks to 4 the same step); FX07 reads 4 into V3.
    let mut vm = boot(&[0x61, 5, 0xF1, 0x15, 0xF3, 0x07]);
    for _ in 0..3 {
        assert_eq!(vm.emulate_cycle(), Ok(()));
    }
    assert_eq!(vm.register(3), 4);
    assert_eq!(vm.delay_timer_value(), 3);
}

#[test]
fn fetch_outside_memory_fails() {
    let mut vm = boot(&[0x1F, 0xFF]);
    assert_eq!(vm.emulate_cycle(), Ok(()));
    assert_eq!(vm.program_counter(), 0xFFF);
    assert_eq!(vm.emulate_cycle(), Err(VmError::MemoryOutOfBounds(0xFFF)));
}

#[test]
fn decimal_store_outside_memory_fails() {
    let mut vm = boot(&[0xAF, 0xFE, 0xF0, 0x33]);
    assert_eq!(vm.emulate_cycle(), Ok(()));
    assert_eq!(vm.emulate_cycle(), Err(VmError::MemoryOutOfBounds(0xFFE)));
}

#[test]
fn sprite_rows_outside_memory_fail() {
    let mut vm = boot(&[0xAF, 0xFF, 0xD0, 0x02]);
    assert_eq!(vm.emulate_cycle(), Ok(()));
    assert_eq!(vm.emulate_cycle(), Err(VmError::MemoryOutOfBounds(0xFFF)));
}
