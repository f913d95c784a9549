//! The machine as a whole: lifecycle, stepping, stack, timers, key wait
//! and drawing.

use chip8::emu::cpu::CPU;
use chip8::emu::font::FONT;
use chip8::emu::machine::StepError;

fn booted(program: &[u8]) -> CPU {
    let mut cpu = CPU::initialize();
    cpu.load(program);
    cpu
}

fn lit_cells(cpu: &CPU) -> Vec<(usize, usize)> {
    let mut cells = Vec::new();
    for y in 0..32usize {
        for x in 0..64usize {
            if cpu.fb.data[y * 64 + x] {
                cells.push((x, y));
            }
        }
    }
    cells
}

#[test]
fn power_on_state() {
    let cpu = CPU::initialize();
    assert_eq!(cpu.v, [0u8; 16]);
    assert_eq!(cpu.stack, [0u16; 16]);
    assert_eq!(cpu.dt, 0);
    assert_eq!(cpu.st, 0);
    assert_eq!(cpu.i, 0);
    assert_eq!(cpu.pc, 0x200);
    assert_eq!(cpu.sp, 0);
    assert_eq!(&cpu.mem[0..80], &FONT[..]);
    assert!(cpu.mem[80..].iter().all(|b| *b == 0));
    assert!(cpu.fb.data.iter().all(|p| !*p));
    assert!(!cpu.fb.update);
    assert_eq!(cpu.kp.state, [false; 16]);
    assert!(!cpu.kp.block);
    assert!(cpu.is_wf());
}

#[test]
fn font_glyphs() {
    assert_eq!(&FONT[0..5], &[0xF0, 0x90, 0x90, 0x90, 0xF0]);
    assert_eq!(&FONT[5..10], &[0x20, 0x60, 0x20, 0x20, 0x70]);
    assert_eq!(&FONT[75..80], &[0xF0, 0x80, 0xF0, 0x80, 0x80]);
    assert_eq!(FONT.len(), 80);
}

#[test]
fn reset_restores_power_on_state() {
    let mut cpu = booted(&[0x61, 0x05, 0xA3, 0x00, 0xD0, 0x15]);
    for _ in 0..3 {
        assert_eq!(cpu.step(), Ok(()));
    }
    cpu.dt = 9;
    cpu.st = 9;
    cpu.sp = 3;
    cpu.stack[3] = 0x222;
    cpu.kp.set(2, true);
    cpu.reset();
    assert_eq!(cpu.v, [0u8; 16]);
    assert_eq!(cpu.stack, [0u16; 16]);
    assert_eq!((cpu.dt, cpu.st, cpu.i, cpu.pc, cpu.sp), (0, 0, 0, 0x200, 0));
    assert_eq!(&cpu.mem[0..80], &FONT[..]);
    assert!(cpu.mem[80..].iter().all(|b| *b == 0));
    assert!(cpu.fb.data.iter().all(|p| !*p));
    assert!(!cpu.fb.update);
    assert_eq!(cpu.kp.state, [false; 16]);
}

#[test]
fn reset_keeps_a_pending_key_wait() {
    let mut cpu = CPU::initialize();
    cpu.op_fx0a(4);
    cpu.reset();
    assert!(cpu.kp.block);
    assert_eq!(cpu.kp.block_reg, 4);
}

#[test]
fn load_copies_to_program_start() {
    let mut cpu = CPU::initialize();
    cpu.mem[0x203] = 0xEE;
    cpu.load(&[1, 2, 3]);
    assert_eq!(&cpu.mem[0x200..0x204], &[1, 2, 3, 0xEE]);
    assert_eq!(&cpu.mem[0..80], &FONT[..]);
    assert_eq!(cpu.mem[0x1FF], 0);
    assert_eq!(cpu.pc, 0x200);
}

#[test]
fn load_of_nothing_changes_nothing() {
    let mut cpu = CPU::initialize();
    let before = cpu.mem;
    cpu.load(&[]);
    assert_eq!(cpu.mem, before);
}

#[test]
fn load_of_the_largest_program() {
    let mut cpu = CPU::initialize();
    let rom = vec![0xABu8; 3584];
    cpu.load(&rom);
    assert!(cpu.mem[0x200..].iter().all(|b| *b == 0xAB));
    assert_eq!(cpu.mem[0x1FF], 0);
    assert_eq!(&cpu.mem[0..80], &FONT[..]);
}

#[test]
fn tick_counts_down_and_stops_at_zero() {
    let mut cpu = CPU::initialize();
    cpu.dt = 2;
    cpu.st = 1;
    assert!(cpu.sound_state());
    cpu.tick();
    assert_eq!((cpu.dt, cpu.st), (1, 0));
    assert!(!cpu.sound_state());
    cpu.tick();
    assert_eq!((cpu.dt, cpu.st), (0, 0));
    cpu.tick();
    assert_eq!((cpu.dt, cpu.st), (0, 0));
    cpu.dt = 255;
    cpu.tick();
    assert_eq!(cpu.dt, 254);
}

#[test]
fn tick_touches_only_the_timers() {
    let mut cpu = booted(&[0x60, 0x01]);
    cpu.dt = 5;
    cpu.tick();
    assert_eq!(cpu.pc, 0x200);
    assert_eq!(cpu.v, [0u8; 16]);
}

#[test]
fn sound_state_follows_sound_timer() {
    let mut cpu = CPU::initialize();
    assert!(!cpu.sound_state());
    cpu.st = 1;
    assert!(cpu.sound_state());
    cpu.st = 255;
    assert!(cpu.sound_state());
    cpu.dt = 9;
    cpu.st = 0;
    assert!(!cpu.sound_state());
}

#[test]
fn fetch_reads_high_byte_first() {
    let mut cpu = booted(&[0x12, 0x34, 0xAB, 0xCD]);
    assert_eq!(cpu.fetch(), Ok(0x1234));
    assert_eq!(cpu.pc, 0x202);
    assert_eq!(cpu.fetch(), Ok(0xABCD));
    assert_eq!(cpu.pc, 0x204);
}

#[test]
fn fetch_at_the_last_word() {
    let mut cpu = CPU::initialize();
    cpu.mem[4094] = 0x60;
    cpu.mem[4095] = 0x07;
    cpu.pc = 4094;
    assert_eq!(cpu.fetch(), Ok(0x6007));
    assert_eq!(cpu.pc, 4096);
    assert_eq!(cpu.fetch(), Err(StepError::AddressOutOfBounds));
    assert_eq!(cpu.pc, 4096);
}

#[test]
fn fetch_outside_memory_is_reported() {
    let mut cpu = CPU::initialize();
    cpu.pc = 4095;
    assert_eq!(cpu.step(), Err(StepError::AddressOutOfBounds));
    assert_eq!(cpu.pc, 4095);
    cpu.pc = 0xFFFF;
    assert_eq!(cpu.step(), Err(StepError::AddressOutOfBounds));
    assert_eq!(cpu.pc, 0xFFFF);
}

#[test]
fn step_executes_one_instruction() {
    let mut cpu = booted(&[0x61, 0x2A, 0x71, 0x01]);
    assert_eq!(cpu.step(), Ok(()));
    assert_eq!(cpu.pc, 0x202);
    assert_eq!(cpu.v[1], 0x2A);
    assert_eq!(cpu.step(), Ok(()));
    assert_eq!(cpu.pc, 0x204);
    assert_eq!(cpu.v[1], 0x2B);
}

#[test]
fn step_masks_a_random_byte() {
    let mut cpu = booted(&[0xC3, 0x07, 0xC4, 0x00]);
    cpu.v[3] = 0xFF;
    cpu.v[4] = 0xFF;
    assert_eq!(cpu.step(), Ok(()));
    assert!(cpu.v[3] <= 7);
    assert_eq!(cpu.step(), Ok(()));
    assert_eq!(cpu.v[4], 0);
    assert_eq!(cpu.pc, 0x204);
}

#[test]
fn failed_instruction_leaves_pc_behind_it() {
    let mut cpu = booted(&[0x01, 0x23]);
    assert_eq!(cpu.step(), Err(StepError::UnsupportedNativeCall));
    assert_eq!(cpu.pc, 0x202);
    let mut cpu = booted(&[0xF0, 0xFF]);
    assert_eq!(cpu.step(), Err(StepError::InvalidOpcode));
    assert_eq!(cpu.pc, 0x202);
}

#[test]
fn skip_through_step() {
    let mut cpu = booted(&[0x30, 0x00, 0x61, 0x01, 0x62, 0x02]);
    assert_eq!(cpu.step(), Ok(()));
    assert_eq!(cpu.pc, 0x204);
    assert_eq!(cpu.step(), Ok(()));
    assert_eq!(cpu.v[1], 0);
    assert_eq!(cpu.v[2], 2);
}

#[test]
fn call_then_return() {
    // 0x200: call 0x206; 0x202: V1 = 1; 0x206: return
    let mut cpu = booted(&[0x22, 0x06, 0x61, 0x01, 0x00, 0x00, 0x00, 0xEE]);
    assert_eq!(cpu.step(), Ok(()));
    assert_eq!(cpu.pc, 0x206);
    assert_eq!(cpu.sp, 1);
    assert_eq!(cpu.stack[1], 0x202);
    assert_eq!(cpu.step(), Ok(()));
    assert_eq!(cpu.pc, 0x202);
    assert_eq!(cpu.sp, 0);
    assert_eq!(cpu.step(), Ok(()));
    assert_eq!(cpu.v[1], 1);
}

#[test]
fn calls_nest_fifteen_deep_and_unwind() {
    // Fifteen calls, each to the next word; then fifteen returns.
    let mut program = Vec::new();
    for k in 0..15u16 {
        let target = 0x200 + 2 * (k + 1);
        program.push(0x20 | (target >> 8) as u8);
        program.push(target as u8);
    }
    program.push(0x00);
    program.push(0xEE);
    let mut cpu = booted(&program);
    for k in 0..15u16 {
        assert_eq!(cpu.step(), Ok(()));
        assert_eq!(cpu.sp as u16, k + 1);
        assert_eq!(cpu.pc, 0x200 + 2 * (k + 1));
        assert_eq!(cpu.stack[(k + 1) as usize], 0x200 + 2 * (k + 1));
    }
    for k in (0..15u16).rev() {
        cpu.pc = 0x21E;
        assert_eq!(cpu.step(), Ok(()));
        assert_eq!(cpu.sp as u16, k);
        assert_eq!(cpu.pc, 0x200 + 2 * (k + 1));
    }
    assert_eq!(cpu.sp, 0);
}

#[test]
fn sixteenth_nested_call_overflows() {
    let mut cpu = CPU::initialize();
    for depth in 1..=15u8 {
        assert_eq!(cpu.decode_and_execute(0x2300), Ok(()));
        assert_eq!(cpu.sp, depth);
    }
    let stack = cpu.stack;
    cpu.pc = 0x456;
    assert_eq!(cpu.decode_and_execute(0x2300), Err(StepError::StackOverflow));
    assert_eq!(cpu.sp, 15);
    assert_eq!(cpu.pc, 0x456);
    assert_eq!(cpu.stack, stack);
}

#[test]
fn return_with_empty_stack_underflows() {
    let mut cpu = booted(&[0x00, 0xEE]);
    assert_eq!(cpu.step(), Err(StepError::StackUnderflow));
    assert_eq!(cpu.sp, 0);
    assert_eq!(cpu.pc, 0x202);
}

#[test]
fn clear_screen_darkens_and_marks_dirty() {
    let mut cpu = booted(&[0x00, 0xE0]);
    cpu.fb.data[0] = true;
    cpu.fb.data[1000] = true;
    cpu.fb.data[2047] = true;
    assert_eq!(cpu.step(), Ok(()));
    assert!(cpu.fb.data.iter().all(|p| !*p));
    assert!(cpu.fb.update);
}

#[test]
fn clear_screen_marks_a_dark_screen_dirty_too() {
    let mut cpu = CPU::initialize();
    cpu.op_00e0();
    assert!(cpu.fb.data.iter().all(|p| !*p));
    assert!(cpu.fb.update);
}

#[test]
fn draw_glyph_zero_at_origin() {
    let mut cpu = booted(&[0xA3, 0x00, 0x60, 0x00, 0x61, 0x00, 0xD0, 0x05]);
    cpu.mem[0x300..0x305].copy_from_slice(&[0xF0, 0x90, 0x90, 0x90, 0xF0]);
    for _ in 0..4 {
        assert_eq!(cpu.step(), Ok(()));
    }
    let glyph = [0xF0u8, 0x90, 0x90, 0x90, 0xF0];
    for y in 0..5usize {
        for x in 0..8usize {
            let bit = glyph[y] & (0x80 >> x) != 0;
            assert_eq!(cpu.fb.data[y * 64 + x], bit);
        }
    }
    assert_eq!(lit_cells(&cpu).len(), 14);
    assert!(cpu.fb.update);
    assert_eq!(cpu.v[0xF], 0);
    assert_eq!(cpu.pc, 0x208);
}

#[test]
fn draw_uses_most_significant_bit_first() {
    let mut cpu = CPU::initialize();
    cpu.mem[0x300] = 0b1000_0001;
    cpu.i = 0x300;
    cpu.v[0] = 10;
    cpu.v[1] = 3;
    assert_eq!(cpu.op_dxyn(0, 1, 1), Ok(()));
    assert_eq!(lit_cells(&cpu), vec![(10, 3), (17, 3)]);
}

#[test]
fn draw_twice_restores_and_collides() {
    let mut cpu = CPU::initialize();
    cpu.fb.data[5 * 64 + 9] = true;
    cpu.fb.data[100] = true;
    let before = cpu.fb.data;
    cpu.i = 0;
    cpu.v[2] = 8;
    cpu.v[3] = 4;
    assert_eq!(cpu.decode_and_execute(0xD235), Ok(()));
    assert_ne!(cpu.fb.data, before);
    assert_eq!(cpu.decode_and_execute(0xD235), Ok(()));
    assert_eq!(cpu.fb.data, before);
    assert_eq!(cpu.v[0xF], 1);
    assert!(cpu.fb.update);
}

#[test]
fn first_draw_on_dark_screen_does_not_collide() {
    let mut cpu = CPU::initialize();
    cpu.i = 5;
    cpu.v[0xF] = 1;
    assert_eq!(cpu.op_dxyn(0, 0, 5), Ok(()));
    assert_eq!(cpu.v[0xF], 0);
    assert_eq!(cpu.op_dxyn(0, 0, 5), Ok(()));
    assert_eq!(cpu.v[0xF], 1);
    assert!(lit_cells(&cpu).is_empty());
}

#[test]
fn draw_over_fully_lit_sprite_collides_then_not() {
    let mut cpu = CPU::initialize();
    cpu.mem[0x300] = 0xFF;
    cpu.i = 0x300;
    for x in 0..8usize {
        cpu.fb.data[x] = true;
    }
    assert_eq!(cpu.op_dxyn(0, 0, 1), Ok(()));
    assert_eq!(cpu.v[0xF], 1);
    assert!(lit_cells(&cpu).is_empty());
    assert_eq!(cpu.op_dxyn(0, 0, 1), Ok(()));
    assert_eq!(cpu.v[0xF], 0);
    assert_eq!(lit_cells(&cpu).len(), 8);
}

#[test]
fn draw_wraps_at_the_edges() {
    let mut cpu = CPU::initialize();
    cpu.mem[0x300] = 0xFF;
    cpu.mem[0x301] = 0x81;
    cpu.i = 0x300;
    cpu.v[0] = 60;
    cpu.v[1] = 31;
    assert_eq!(cpu.op_dxyn(0, 1, 2), Ok(()));
    let cells = lit_cells(&cpu);
    let mut expect = vec![
        (3, 0), (60, 0), (0, 31), (1, 31), (2, 31), (3, 31), (60, 31), (61, 31), (62, 31), (63, 31),
    ];
    expect.sort_by_key(|c| (c.1, c.0));
    assert_eq!(cells, expect);
}

#[test]
fn draw_position_is_taken_modulo_the_screen() {
    let mut cpu = CPU::initialize();
    cpu.mem[0x300] = 0x80;
    cpu.i = 0x300;
    cpu.v[0] = 64 + 5;
    cpu.v[1] = 32 * 7 + 2;
    assert_eq!(cpu.op_dxyn(0, 1, 1), Ok(()));
    assert_eq!(lit_cells(&cpu), vec![(5, 2)]);
    let mut cpu = CPU::initialize();
    cpu.mem[0x300] = 0x01;
    cpu.i = 0x300;
    cpu.v[0] = 255;
    cpu.v[1] = 255;
    assert_eq!(cpu.op_dxyn(0, 1, 1), Ok(()));
    assert_eq!(lit_cells(&cpu), vec![(6, 31)]);
}

#[test]
fn draw_of_no_rows_marks_dirty_and_clears_flag() {
    let mut cpu = CPU::initialize();
    cpu.v[0xF] = 1;
    cpu.i = 0xFFFF;
    assert_eq!(cpu.op_dxyn(0, 0, 0), Ok(()));
    assert_eq!(cpu.v[0xF], 0);
    assert!(cpu.fb.update);
    assert!(lit_cells(&cpu).is_empty());
}

#[test]
fn draw_through_flag_register_starts_at_zero() {
    let mut cpu = CPU::initialize();
    cpu.mem[0x300] = 0x80;
    cpu.i = 0x300;
    cpu.v[0xF] = 20;
    cpu.v[1] = 7;
    assert_eq!(cpu.op_dxyn(0xF, 1, 1), Ok(()));
    assert_eq!(lit_cells(&cpu), vec![(0, 7)]);
}

#[test]
fn draw_through_flag_register_moves_at_first_collision() {
    // Column taken from VF: 0 until the first collision, 1 after it.
    let mut cpu = CPU::initialize();
    cpu.mem[0x300] = 0xC0;
    cpu.i = 0x300;
    cpu.fb.data[0] = true;
    cpu.v[0xF] = 9;
    assert_eq!(cpu.op_dxyn(0xF, 0, 1), Ok(()));
    assert_eq!(lit_cells(&cpu), vec![(2, 0)]);
    assert_eq!(cpu.v[0xF], 1);
}

#[test]
fn draw_row_through_flag_register_is_read_at_each_row() {
    // Row taken from VF: read when a row is begun.
    let mut cpu = CPU::initialize();
    cpu.mem[0x300] = 0x80;
    cpu.mem[0x301] = 0x80;
    cpu.i = 0x300;
    cpu.fb.data[0] = true;
    assert_eq!(cpu.op_dxyn(0, 0xF, 2), Ok(()));
    assert_eq!(lit_cells(&cpu), vec![(0, 2)]);
    assert_eq!(cpu.v[0xF], 1);
}

#[test]
fn draw_twice_through_flag_register_need_not_restore() {
    let mut cpu = CPU::initialize();
    cpu.mem[0x300] = 0xC0;
    cpu.i = 0x300;
    cpu.fb.data[0] = true;
    assert_eq!(cpu.op_dxyn(0xF, 0, 1), Ok(()));
    assert_eq!(cpu.op_dxyn(0xF, 0, 1), Ok(()));
    assert_eq!(lit_cells(&cpu), vec![(0, 0), (1, 0), (2, 0)]);
    assert_eq!(cpu.v[0xF], 0);
}

#[test]
fn draw_past_the_end_of_memory_is_reported() {
    let mut cpu = CPU::initialize();
    cpu.i = 4092;
    cpu.v[0xF] = 1;
    assert_eq!(cpu.op_dxyn(0, 0, 5), Err(StepError::AddressOutOfBounds));
    assert_eq!(cpu.v[0xF], 1);
    assert!(!cpu.fb.update);
    assert!(lit_cells(&cpu).is_empty());
    cpu.mem[4092] = 0x80;
    assert_eq!(cpu.op_dxyn(0, 0, 4), Ok(()));
    assert_eq!(lit_cells(&cpu), vec![(0, 0)]);
}

#[test]
fn key_wait_holds_until_a_key_is_down() {
    // 0x200: wait for key into V5; 0x202: V1 = 0x77
    let mut cpu = booted(&[0xF5, 0x0A, 0x61, 0x77]);
    cpu.v[2] = 9;
    assert_eq!(cpu.step(), Ok(()));
    assert!(cpu.kp.block);
    assert_eq!(cpu.pc, 0x202);
    let registers = cpu.v;
    for _ in 0..10 {
        assert_eq!(cpu.step(), Ok(()));
        assert_eq!(cpu.pc, 0x202);
        assert_eq!(cpu.v, registers);
        assert!(cpu.kp.block);
    }
    cpu.kp.set(0xC, true);
    cpu.kp.set(0x3, true);
    assert_eq!(cpu.step(), Ok(()));
    assert_eq!(cpu.v[5], 3);
    assert!(!cpu.kp.block);
    assert_eq!(cpu.pc, 0x202);
    assert_eq!(cpu.v[1], 0);
    assert_eq!(cpu.step(), Ok(()));
    assert_eq!(cpu.v[1], 0x77);
    assert_eq!(cpu.pc, 0x204);
}

#[test]
fn key_wait_takes_key_zero() {
    let mut cpu = CPU::initialize();
    cpu.v[7] = 0xFF;
    cpu.op_fx0a(7);
    cpu.kp.set(0, true);
    cpu.kp.set(15, true);
    assert_eq!(cpu.step(), Ok(()));
    assert_eq!(cpu.v[7], 0);
    assert!(!cpu.kp.block);
}

#[test]
fn key_wait_does_not_gate_the_timers() {
    let mut cpu = CPU::initialize();
    cpu.op_fx0a(0);
    cpu.dt = 3;
    assert_eq!(cpu.step(), Ok(()));
    cpu.tick();
    assert_eq!(cpu.dt, 2);
}

#[test]
fn invariant_check_sees_bad_fields() {
    let mut cpu = CPU::initialize();
    assert!(cpu.is_wf());
    cpu.sp = 15;
    assert!(cpu.is_wf());
    cpu.sp = 16;
    assert!(!cpu.is_wf());
    cpu.sp = 0;
    cpu.kp.block_reg = 16;
    assert!(!cpu.is_wf());
}
