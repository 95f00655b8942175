use chip8::{
    char_key, decode, key_char, lower_second_byte, upper_first_byte, upper_second_byte,
    Instruction, LoadError, MainLoopAction, StepEffect, Timers, Vm, VmError,
};

const NO_KEYS: [bool; 16] = [false; 16];

fn machine(program: &[u8]) -> Vm {
    Vm::new(program.to_vec())
}

fn run(vm: &mut Vm, timers: &mut Timers, steps: usize) {
    for _ in 0..steps {
        vm.step_with(timers, &NO_KEYS, 0).unwrap();
    }
}

#[test]
fn program_of_largest_size_loads() {
    let vm = Vm::load(vec![0xAB; 3584]).unwrap();
    assert_eq!(vm.memory_at(512), 0xAB);
    assert_eq!(vm.memory_at(4095), 0xAB);
}

#[test]
fn program_one_byte_too_large_is_rejected() {
    match Vm::load(vec![0; 3585]) {
        Err(e) => assert_eq!(e, LoadError::ProgramTooLarge { len: 3585 }),
        Ok(_) => panic!("an oversized program was accepted"),
    }
}

#[test]
fn new_machine_layout() {
    let vm = machine(&[0x12, 0x34]);
    assert_eq!(vm.pc(), 0x200);
    assert_eq!(vm.sp(), 0);
    assert_eq!(vm.index_register(), 0);
    assert_eq!(vm.memory_at(0), 0xF0);
    assert_eq!(vm.memory_at(5), 0x20);
    assert_eq!(vm.memory_at(79), 0x80);
    assert_eq!(vm.memory_at(80), 0);
    assert_eq!(vm.memory_at(511), 0);
    assert_eq!(vm.memory_at(512), 0x12);
    assert_eq!(vm.memory_at(513), 0x34);
    assert_eq!(vm.memory_at(514), 0);
    for x in 0..16 {
        assert_eq!(vm.register(x), 0);
    }
    assert!(vm.lit_points().is_empty());
}

#[test]
fn jump_sets_pc_to_target() {
    let mut vm = machine(&[0x1A, 0xBC]);
    let mut t = Timers::new();
    assert_eq!(vm.step_with(&mut t, &NO_KEYS, 0), Ok(StepEffect::Continue));
    assert_eq!(vm.pc(), 0xABC);
}

#[test]
fn jump_with_offset_adds_v0() {
    let mut vm = machine(&[0x60, 0x05, 0xB3, 0x00]);
    let mut t = Timers::new();
    run(&mut vm, &mut t, 2);
    assert_eq!(vm.pc(), 0x305);
}

#[test]
fn call_then_return_restores_pc_and_sp() {
    // 0x200: call 0x206; 0x206: return
    let mut vm = machine(&[0x22, 0x06, 0x00, 0x00, 0x00, 0x00, 0x00, 0xEE]);
    let mut t = Timers::new();
    run(&mut vm, &mut t, 1);
    assert_eq!(vm.pc(), 0x206);
    assert_eq!(vm.sp(), 1);
    run(&mut vm, &mut t, 1);
    assert_eq!(vm.pc(), 0x202);
    assert_eq!(vm.sp(), 0);
}

#[test]
fn return_on_empty_stack_fails() {
    let mut vm = machine(&[0x00, 0xEE]);
    let mut t = Timers::new();
    assert_eq!(vm.step_with(&mut t, &NO_KEYS, 0), Err(VmError::StackUnderflow));
    assert_eq!(vm.pc(), 0x200);
}

#[test]
fn seventeenth_nested_call_fails() {
    let mut vm = machine(&[0x22, 0x00]);
    let mut t = Timers::new();
    run(&mut vm, &mut t, 16);
    assert_eq!(vm.sp(), 16);
    assert_eq!(vm.step_with(&mut t, &NO_KEYS, 0), Err(VmError::StackOverflow));
    assert_eq!(vm.sp(), 16);
}

#[test]
fn add_with_carry() {
    let mut vm = machine(&[0x61, 0xC8, 0x62, 0x64, 0x81, 0x24]);
    let mut t = Timers::new();
    run(&mut vm, &mut t, 3);
    assert_eq!(vm.register(1), 44);
    assert_eq!(vm.register(0xF), 1);
}

#[test]
fn add_without_carry() {
    let mut vm = machine(&[0x6F, 0x07, 0x61, 0x80, 0x62, 0x7F, 0x81, 0x24]);
    let mut t = Timers::new();
    run(&mut vm, &mut t, 4);
    assert_eq!(vm.register(1), 255);
    assert_eq!(vm.register(0xF), 0);
}

#[test]
fn add_all_operand_pairs() {
    for a in 0..=255u16 {
        for b in (0..=255u16).step_by(15) {
            let mut vm = machine(&[0x61, a as u8, 0x62, b as u8, 0x81, 0x24]);
            let mut t = Timers::new();
            run(&mut vm, &mut t, 3);
            assert_eq!(vm.register(1) as u16, (a + b) % 256);
            assert_eq!(vm.register(0xF) == 1, a + b > 255);
        }
    }
}

#[test]
fn sub_sets_flag_when_no_borrow() {
    let mut vm = machine(&[0x61, 0x0A, 0x62, 0x03, 0x81, 0x25]);
    let mut t = Timers::new();
    run(&mut vm, &mut t, 3);
    assert_eq!(vm.register(1), 7);
    assert_eq!(vm.register(0xF), 1);
}

#[test]
fn sub_wraps_and_clears_flag_on_borrow() {
    let mut vm = machine(&[0x61, 0x03, 0x62, 0x0A, 0x81, 0x25]);
    let mut t = Timers::new();
    run(&mut vm, &mut t, 3);
    assert_eq!(vm.register(1), 249);
    assert_eq!(vm.register(0xF), 0);
}

#[test]
fn sub_of_equal_operands_clears_flag() {
    let mut vm = machine(&[0x61, 0x09, 0x81, 0x15]);
    let mut t = Timers::new();
    run(&mut vm, &mut t, 2);
    assert_eq!(vm.register(1), 0);
    assert_eq!(vm.register(0xF), 0);
}

#[test]
fn reverse_sub_compares_y_against_x() {
    let mut vm = machine(&[0x61, 0x03, 0x62, 0x0A, 0x81, 0x27]);
    let mut t = Timers::new();
    run(&mut vm, &mut t, 3);
    assert_eq!(vm.register(1), 7);
    assert_eq!(vm.register(0xF), 1);
    let mut vm = machine(&[0x61, 0x0A, 0x62, 0x03, 0x81, 0x27]);
    run(&mut vm, &mut t, 3);
    assert_eq!(vm.register(1), 249);
    assert_eq!(vm.register(0xF), 0);
}

#[test]
fn sub_reads_flag_register_operand_before_writing_flag() {
    // V[Y] is VF: the comparison uses its value from before the flag is set.
    let mut vm = machine(&[0x61, 0x05, 0x6F, 0x09, 0x81, 0xF5]);
    let mut t = Timers::new();
    run(&mut vm, &mut t, 3);
    assert_eq!(vm.register(1), 252);
    assert_eq!(vm.register(0xF), 0);
}

#[test]
fn shifts_set_flag_from_shifted_out_bit() {
    let mut vm = machine(&[0x61, 0x81, 0x81, 0x06]);
    let mut t = Timers::new();
    run(&mut vm, &mut t, 2);
    assert_eq!(vm.register(1), 0x40);
    assert_eq!(vm.register(0xF), 1);
    let mut vm = machine(&[0x61, 0x81, 0x81, 0x0E]);
    run(&mut vm, &mut t, 2);
    assert_eq!(vm.register(1), 0x02);
    assert_eq!(vm.register(0xF), 1);
    let mut vm = machine(&[0x61, 0x42, 0x81, 0x0E]);
    run(&mut vm, &mut t, 2);
    assert_eq!(vm.register(1), 0x84);
    assert_eq!(vm.register(0xF), 0);
}

#[test]
fn add_constant_wraps_and_keeps_flag() {
    let mut vm = machine(&[0x6F, 0x05, 0x60, 0xFA, 0x70, 0x0A]);
    let mut t = Timers::new();
    run(&mut vm, &mut t, 3);
    assert_eq!(vm.register(0), 4);
    assert_eq!(vm.register(0xF), 5);
}

#[test]
fn bitwise_operations() {
    let mut vm = machine(&[0x61, 0xCC, 0x62, 0xAA, 0x83, 0x10, 0x83, 0x21, 0x84, 0x10, 0x84, 0x22, 0x85, 0x10, 0x85, 0x23]);
    let mut t = Timers::new();
    run(&mut vm, &mut t, 8);
    assert_eq!(vm.register(3), 0xEE);
    assert_eq!(vm.register(4), 0x88);
    assert_eq!(vm.register(5), 0x66);
}

#[test]
fn skips() {
    // 3XNN taken, 4XNN not taken, 5XY0 taken, 9XY0 not taken
    let mut vm = machine(&[0x60, 0x07, 0x30, 0x07]);
    let mut t = Timers::new();
    run(&mut vm, &mut t, 2);
    assert_eq!(vm.pc(), 0x206);
    let mut vm = machine(&[0x60, 0x07, 0x40, 0x07]);
    run(&mut vm, &mut t, 2);
    assert_eq!(vm.pc(), 0x204);
    let mut vm = machine(&[0x60, 0x07, 0x61, 0x07, 0x50, 0x10]);
    run(&mut vm, &mut t, 3);
    assert_eq!(vm.pc(), 0x208);
    let mut vm = machine(&[0x60, 0x07, 0x61, 0x07, 0x90, 0x10]);
    run(&mut vm, &mut t, 3);
    assert_eq!(vm.pc(), 0x206);
}

#[test]
fn key_skips() {
    let mut keys = [false; 16];
    keys[5] = true;
    let mut t = Timers::new();
    let mut vm = machine(&[0x60, 0x05, 0xE0, 0x9E]);
    vm.step_with(&mut t, &keys, 0).unwrap();
    vm.step_with(&mut t, &keys, 0).unwrap();
    assert_eq!(vm.pc(), 0x206);
    let mut vm = machine(&[0x60, 0x05, 0xE0, 0xA1]);
    vm.step_with(&mut t, &keys, 0).unwrap();
    vm.step_with(&mut t, &keys, 0).unwrap();
    assert_eq!(vm.pc(), 0x204);
    let mut vm = machine(&[0x60, 0x06, 0xE0, 0xA1]);
    vm.step_with(&mut t, &keys, 0).unwrap();
    vm.step_with(&mut t, &keys, 0).unwrap();
    assert_eq!(vm.pc(), 0x206);
}

#[test]
fn key_outside_keypad_is_an_error() {
    let mut vm = machine(&[0x60, 0x20, 0xE0, 0x9E]);
    let mut t = Timers::new();
    run(&mut vm, &mut t, 1);
    assert_eq!(vm.step_with(&mut t, &NO_KEYS, 0), Err(VmError::InvalidKey { key: 0x20 }));
    assert_eq!(vm.pc(), 0x202);
}

#[test]
fn unknown_opcode_is_an_error() {
    let mut vm = machine(&[0x51, 0x21]);
    let mut t = Timers::new();
    assert_eq!(
        vm.step_with(&mut t, &NO_KEYS, 0),
        Err(VmError::UnknownOpcode { opcode: 0x5121, pc: 0x200 })
    );
    let mut vm = machine(&[0x00, 0x00]);
    assert_eq!(
        vm.step_with(&mut t, &NO_KEYS, 0),
        Err(VmError::UnknownOpcode { opcode: 0, pc: 0x200 })
    );
}

#[test]
fn pc_at_end_of_memory_is_an_error() {
    let mut vm = machine(&[0x1F, 0xFF]);
    let mut t = Timers::new();
    run(&mut vm, &mut t, 1);
    assert_eq!(vm.step_with(&mut t, &NO_KEYS, 0), Err(VmError::PcOutOfRange { pc: 0xFFF }));
}

#[test]
fn random_byte_is_masked() {
    let mut vm = machine(&[0xC0, 0x0F]);
    let mut t = Timers::new();
    vm.step_with(&mut t, &NO_KEYS, 0xAB).unwrap();
    assert_eq!(vm.register(0), 0x0B);
    let mut vm = machine(&[0xC0, 0x0F]);
    vm.step(&mut t, &NO_KEYS).unwrap();
    assert_eq!(vm.register(0) & 0xF0, 0);
    assert_eq!(vm.pc(), 0x202);
}

#[test]
fn drawing_twice_clears_and_flags_collision() {
    // I = 0x20A, draw one row of 0xFF at (V0, V1) = (0, 0) twice
    let mut vm = machine(&[0xA2, 0x0A, 0xD0, 0x11, 0xD0, 0x11, 0x00, 0x00, 0x00, 0x00, 0xFF]);
    let mut t = Timers::new();
    run(&mut vm, &mut t, 1);
    assert_eq!(vm.step_with(&mut t, &NO_KEYS, 0), Ok(StepEffect::Redraw));
    for x in 0..8 {
        assert!(vm.pixel(x, 0));
    }
    assert!(!vm.pixel(8, 0));
    assert_eq!(vm.register(0xF), 0);
    assert_eq!(vm.lit_points().len(), 8);
    run(&mut vm, &mut t, 1);
    for x in 0..8 {
        assert!(!vm.pixel(x, 0));
    }
    assert_eq!(vm.register(0xF), 1);
    assert!(vm.lit_points().is_empty());
}

#[test]
fn sprite_wraps_around_right_edge() {
    // V0 = 60, I = 0x208, draw one row of 0xFF
    let mut vm = machine(&[0x60, 0x3C, 0xA2, 0x08, 0xD0, 0x11, 0x00, 0x00, 0xFF]);
    let mut t = Timers::new();
    run(&mut vm, &mut t, 3);
    for x in 0..64 {
        assert_eq!(vm.pixel(x, 0), x >= 60 || x < 4, "column {}", x);
    }
    assert_eq!(
        vm.lit_points(),
        vec![(0, 0), (1, 0), (2, 0), (3, 0), (60, 0), (61, 0), (62, 0), (63, 0)]
    );
}

#[test]
fn sprite_wraps_around_bottom_edge() {
    // V1 = 31, I = 0x208, draw two rows 0x80 0x80
    let mut vm = machine(&[0x61, 0x1F, 0xA2, 0x08, 0xD0, 0x12, 0x00, 0x00, 0x80, 0x80]);
    let mut t = Timers::new();
    run(&mut vm, &mut t, 3);
    assert!(vm.pixel(0, 31));
    assert!(vm.pixel(0, 0));
    assert_eq!(vm.lit_points(), vec![(0, 0), (0, 31)]);
}

#[test]
fn sprite_past_end_of_memory_is_an_error() {
    let mut vm = machine(&[0xAF, 0xFF, 0xD0, 0x12]);
    let mut t = Timers::new();
    run(&mut vm, &mut t, 1);
    assert_eq!(
        vm.step_with(&mut t, &NO_KEYS, 0),
        Err(VmError::MemoryOutOfRange { index: 0xFFF, len: 2 })
    );
}

#[test]
fn clear_screen_turns_pixels_off() {
    let mut vm = machine(&[0xA2, 0x06, 0xD0, 0x11, 0x00, 0xE0, 0xFF]);
    let mut t = Timers::new();
    run(&mut vm, &mut t, 2);
    assert!(vm.pixel(0, 0));
    assert_eq!(vm.step_with(&mut t, &NO_KEYS, 0), Ok(StepEffect::Clear));
    assert!(vm.lit_points().is_empty());
}

#[test]
fn glyph_sprite_of_digit() {
    let mut vm = machine(&[0x60, 0x0A, 0xF0, 0x29, 0xD1, 0x15]);
    let mut t = Timers::new();
    run(&mut vm, &mut t, 3);
    assert_eq!(vm.index_register(), 50);
    // glyph A: F0 90 F0 90 90
    assert!(vm.pixel(0, 0) && vm.pixel(3, 0) && !vm.pixel(1, 1) && vm.pixel(3, 4));
}

#[test]
fn bcd_of_157() {
    let mut vm = machine(&[0x60, 0x9D, 0xA3, 0x00, 0xF0, 0x33]);
    let mut t = Timers::new();
    run(&mut vm, &mut t, 3);
    assert_eq!(vm.memory_at(0x300), 1);
    assert_eq!(vm.memory_at(0x301), 5);
    assert_eq!(vm.memory_at(0x302), 7);
}

#[test]
fn bcd_of_small_values() {
    let mut vm = machine(&[0x60, 0x07, 0xA3, 0x00, 0xF0, 0x33]);
    let mut t = Timers::new();
    run(&mut vm, &mut t, 3);
    assert_eq!(vm.memory_at(0x300), 0);
    assert_eq!(vm.memory_at(0x301), 0);
    assert_eq!(vm.memory_at(0x302), 7);
}

#[test]
fn store_clear_load_round_trip() {
    for x in 0..16u8 {
        let mut program = Vec::new();
        for r in 0..16u8 {
            program.extend_from_slice(&[0x60 | r, 0x11 * r + 3]);
        }
        program.extend_from_slice(&[0xA3, 0x00, 0xF0 | x, 0x55]);
        for r in 0..16u8 {
            program.extend_from_slice(&[0x60 | r, 0x00]);
        }
        program.extend_from_slice(&[0xF0 | x, 0x65]);
        let mut vm = machine(&program);
        let mut t = Timers::new();
        run(&mut vm, &mut t, 35);
        for r in 0..16u8 {
            let expected = if r <= x { 0x11 * r + 3 } else { 0 };
            assert_eq!(vm.register(r as usize), expected);
            if r <= x {
                assert_eq!(vm.memory_at(0x300 + r as usize), 0x11 * r + 3);
            }
        }
        assert_eq!(vm.index_register(), 0x300);
    }
}

#[test]
fn index_add_wraps_at_sixteen_bits() {
    let mut vm = machine(&[0x60, 0x10, 0xA1, 0x00, 0xF0, 0x1E]);
    let mut t = Timers::new();
    run(&mut vm, &mut t, 3);
    assert_eq!(vm.index_register(), 0x110);
}

#[test]
fn timers_written_and_read() {
    let mut vm = machine(&[0x60, 0x09, 0xF0, 0x15, 0xF0, 0x18, 0xF1, 0x07]);
    let mut t = Timers::new();
    run(&mut vm, &mut t, 3);
    assert_eq!(t, Timers { delay: 9, sound: 9 });
    t.tick();
    run(&mut vm, &mut t, 1);
    assert_eq!(vm.register(1), 8);
}

#[test]
fn delay_timer_decays_to_zero_and_stays() {
    let mut t = Timers { delay: 5, sound: 0 };
    for _ in 0..5 {
        assert!(!t.tick());
    }
    assert_eq!(t.delay, 0);
    for _ in 0..300 {
        t.tick();
        assert_eq!(t.delay, 0);
    }
}

#[test]
fn sound_timer_plays_once_per_tick_while_positive() {
    let mut t = Timers { delay: 0, sound: 3 };
    let mut tones = 0;
    for _ in 0..10 {
        if t.tick() {
            tones += 1;
        }
    }
    assert_eq!(tones, 3);
    assert_eq!(t.sound, 0);
}

#[test]
fn key_wait_cancelled_by_quit_interrupts() {
    let mut vm = machine(&[0xF3, 0x0A]);
    let mut t = Timers::new();
    assert_eq!(vm.step_with(&mut t, &NO_KEYS, 0), Ok(StepEffect::AwaitKey { x: 3 }));
    assert_eq!(vm.finish_key_wait(3, None), MainLoopAction::Interrupt);
    assert_eq!(vm.register(3), 0);
}

#[test]
fn key_wait_stores_pressed_key() {
    let mut vm = machine(&[0xF3, 0x0A]);
    let mut t = Timers::new();
    assert_eq!(vm.step_with(&mut t, &NO_KEYS, 0), Ok(StepEffect::AwaitKey { x: 3 }));
    assert_eq!(vm.finish_key_wait(3, Some(0xB)), MainLoopAction::Continue);
    assert_eq!(vm.register(3), 0xB);
    assert_eq!(vm.pc(), 0x202);
}

#[test]
fn opcode_fields() {
    assert_eq!(upper_first_byte(0xD12F), 0xD);
    assert_eq!(upper_second_byte(0xD12F), 0x2);
    assert_eq!(lower_second_byte(0xD12F), 0xF);
}

#[test]
fn decode_table() {
    assert_eq!(decode(0x00E0), Some(Instruction::ClearScreen));
    assert_eq!(decode(0x00EE), Some(Instruction::Return));
    assert_eq!(decode(0x1ABC), Some(Instruction::Jump { addr: 0xABC }));
    assert_eq!(decode(0x8AB4), Some(Instruction::AddRegs { x: 0xA, y: 0xB }));
    assert_eq!(decode(0x8A0E), Some(Instruction::ShiftLeft { x: 0xA }));
    assert_eq!(decode(0xD12F), Some(Instruction::Draw { x: 1, y: 2, n: 0xF }));
    assert_eq!(decode(0xE59E), Some(Instruction::SkipIfKey { x: 5 }));
    assert_eq!(decode(0xF733), Some(Instruction::StoreBcd { x: 7 }));
    assert_eq!(decode(0xF765), Some(Instruction::LoadRegs { x: 7 }));
    assert_eq!(decode(0x8AB8), None);
    assert_eq!(decode(0x9AB1), None);
    assert_eq!(decode(0xE5A2), None);
    assert_eq!(decode(0xF7FF), None);
    assert_eq!(decode(0x0123), None);
}

#[test]
fn keypad_layout() {
    assert_eq!(key_char(0), Some('X'));
    assert_eq!(key_char(0xC), Some('4'));
    assert_eq!(key_char(0xF), Some('V'));
    assert_eq!(key_char(16), None);
    assert_eq!(char_key('X'), Some(0));
    assert_eq!(char_key('4'), Some(0xC));
    assert_eq!(char_key('P'), None);
    for k in 0..16u8 {
        assert_eq!(char_key(key_char(k).unwrap()), Some(k));
    }
}
