use chip8::cpu::{Cpu, DISPLAY_SIZE, DISPLAY_WIDTH, FONT_START, PROGRAM_START, RAM_SIZE};

const FONT: [u8; 80] = [
    0xF0, 0x90, 0x90, 0x90, 0xF0, 0x20, 0x60, 0x20, 0x20, 0x70, 0xF0, 0x10, 0xF0, 0x80, 0xF0,
    0xF0, 0x10, 0xF0, 0x10, 0xF0, 0x90, 0x90, 0xF0, 0x10, 0x10, 0xF0, 0x80, 0xF0, 0x10, 0xF0,
    0xF0, 0x80, 0xF0, 0x90, 0xF0, 0xF0, 0x10, 0x20, 0x40, 0x40, 0xF0, 0x90, 0xF0, 0x90, 0xF0,
    0xF0, 0x90, 0xF0, 0x10, 0xF0, 0xF0, 0x90, 0xF0, 0x90, 0x90, 0xE0, 0x90, 0xE0, 0x90, 0xE0,
    0xF0, 0x80, 0x80, 0x80, 0xF0, 0xE0, 0x90, 0x90, 0x90, 0xE0, 0xF0, 0x80, 0xF0, 0x80, 0xF0,
    0xF0, 0x80, 0xF0, 0x80, 0x80,
];

/// A fresh machine with `program` (a list of opcodes) loaded.
fn machine(program: &[u16]) -> Cpu {
    let mut bytes = Vec::new();
    for op in program {
        bytes.push((op >> 8) as u8);
        bytes.push((op & 0xFF) as u8);
    }
    let mut cpu = Cpu::new();
    cpu.load_rom(&bytes);
    cpu
}

fn run(cpu: &mut Cpu, cycles: usize) {
    for _ in 0..cycles {
        assert!(cpu.can_tick());
        cpu.tick();
    }
}

fn pixel(cpu: &Cpu, x: usize, y: usize) -> bool {
    cpu.display[y * DISPLAY_WIDTH + x]
}

#[test]
fn new_machine_holds_font_and_starts_at_program_start() {
    let cpu = Cpu::new();
    assert_eq!(&cpu.ram[FONT_START..FONT_START + 80], &FONT[..]);
    assert!(cpu.ram[80..].iter().all(|&b| b == 0));
    assert_eq!(cpu.pc, PROGRAM_START);
    assert_eq!(cpu.pc, 0x200);
    assert_eq!(cpu.i, 0);
    assert_eq!(cpu.sp, 0);
    assert_eq!(cpu.v, [0; 16]);
    assert_eq!(cpu.stack, [0; 16]);
    assert_eq!(cpu.delay_timer, 0);
    assert_eq!(cpu.sound_timer, 0);
    assert!(cpu.display.iter().all(|&p| !p));
    assert!(cpu.keys.iter().all(|&k| !k));
    assert!(!cpu.draw_flag);
}

#[test]
fn load_rom_copies_to_program_start_only() {
    let mut cpu = Cpu::new();
    cpu.load_rom(&[1, 2, 3]);
    assert_eq!(&cpu.ram[0x200..0x203], &[1, 2, 3]);
    assert_eq!(cpu.ram[0x1FF], 0);
    assert_eq!(cpu.ram[0x203], 0);
    assert_eq!(&cpu.ram[..80], &FONT[..]);
    assert_eq!(cpu.pc, 0x200);
}

#[test]
fn load_rom_fills_memory_to_the_end() {
    let mut cpu = Cpu::new();
    let data = vec![0xAB; RAM_SIZE - 0x200];
    cpu.load_rom(&data);
    assert_eq!(cpu.ram[RAM_SIZE - 1], 0xAB);
    assert_eq!(cpu.ram[0x200], 0xAB);
}

#[test]
fn fetch_reads_big_endian_and_advances() {
    let mut cpu = Cpu::new();
    cpu.load_rom(&[0x12, 0x34, 0xAB, 0xCD]);
    assert_eq!(cpu.fetch(), 0x1234);
    assert_eq!(cpu.pc, 0x202);
    assert_eq!(cpu.fetch(), 0xABCD);
    assert_eq!(cpu.pc, 0x204);
}

#[test]
fn tick_timers_counts_down_and_stops_at_zero() {
    let mut cpu = Cpu::new();
    cpu.delay_timer = 2;
    cpu.sound_timer = 1;
    cpu.tick_timers();
    assert_eq!((cpu.delay_timer, cpu.sound_timer), (1, 0));
    cpu.tick_timers();
    assert_eq!((cpu.delay_timer, cpu.sound_timer), (0, 0));
    cpu.tick_timers();
    assert_eq!((cpu.delay_timer, cpu.sound_timer), (0, 0));
}

#[test]
fn clear_screen() {
    let mut cpu = machine(&[0x00E0]);
    cpu.display[5] = true;
    cpu.display[DISPLAY_SIZE - 1] = true;
    run(&mut cpu, 1);
    assert!(cpu.display.iter().all(|&p| !p));
    assert!(cpu.draw_flag);
    assert_eq!(cpu.pc, 0x202);
}

#[test]
fn jump() {
    let mut cpu = machine(&[0x1ABC]);
    run(&mut cpu, 1);
    assert_eq!(cpu.pc, 0xABC);
}

#[test]
fn call_and_return() {
    // 0x200: call 0x206; 0x202: (return lands here); 0x206: ret
    let mut cpu = machine(&[0x2206, 0x0000, 0x0000, 0x00EE]);
    run(&mut cpu, 1);
    assert_eq!(cpu.pc, 0x206);
    assert_eq!(cpu.sp, 1);
    assert_eq!(cpu.stack[0], 0x202);
    run(&mut cpu, 1);
    assert_eq!(cpu.pc, 0x202);
    assert_eq!(cpu.sp, 0);
}

#[test]
fn skip_if_equal_byte() {
    let mut cpu = machine(&[0x6342, 0x3342, 0x0000, 0x3341]);
    run(&mut cpu, 2);
    assert_eq!(cpu.pc, 0x206);
    run(&mut cpu, 1);
    assert_eq!(cpu.pc, 0x208);
}

#[test]
fn skip_if_not_equal_byte() {
    let mut cpu = machine(&[0x6342, 0x4342, 0x4341]);
    run(&mut cpu, 2);
    assert_eq!(cpu.pc, 0x204);
    run(&mut cpu, 1);
    assert_eq!(cpu.pc, 0x208);
}

#[test]
fn skip_on_register_comparison() {
    let mut cpu = machine(&[0x6107, 0x6207, 0x5120, 0x0000, 0x9120, 0x6208, 0x9120]);
    run(&mut cpu, 3);
    assert_eq!(cpu.pc, 0x208);
    run(&mut cpu, 1);
    assert_eq!(cpu.pc, 0x20A);
    run(&mut cpu, 2);
    assert_eq!(cpu.pc, 0x210);
}

#[test]
fn load_and_add_byte_wraps() {
    let mut cpu = machine(&[0x6AF0, 0x7A20]);
    cpu.v[0xF] = 7;
    run(&mut cpu, 2);
    assert_eq!(cpu.v[0xA], 0x10);
    assert_eq!(cpu.v[0xF], 7);
}

#[test]
fn register_logic() {
    let mut cpu = machine(&[0x61CC, 0x62AA, 0x8310, 0x8321, 0x8410, 0x8422, 0x8510, 0x8523]);
    run(&mut cpu, 8);
    assert_eq!(cpu.v[3], 0xCC | 0xAA);
    assert_eq!(cpu.v[4], 0xCC & 0xAA);
    assert_eq!(cpu.v[5], 0xCC ^ 0xAA);
    assert_eq!(cpu.v[1], 0xCC);
}

#[test]
fn add_registers_sets_carry() {
    let mut cpu = machine(&[0x61F0, 0x6220, 0x8124, 0x6301, 0x6401, 0x8344]);
    run(&mut cpu, 3);
    assert_eq!(cpu.v[1], 0x10);
    assert_eq!(cpu.v[0xF], 1);
    // carry * 256 + result is the full sum
    assert_eq!(cpu.v[0xF] as u16 * 256 + cpu.v[1] as u16, 0xF0 + 0x20);
    run(&mut cpu, 3);
    assert_eq!(cpu.v[3], 2);
    assert_eq!(cpu.v[0xF], 0);
}

#[test]
fn add_into_flag_register_keeps_only_the_carry() {
    let mut cpu = machine(&[0x6FFF, 0x6102, 0x8F14]);
    run(&mut cpu, 3);
    assert_eq!(cpu.v[0xF], 1);
}

#[test]
fn subtract_sets_no_borrow_flag() {
    let mut cpu = machine(&[0x6105, 0x6203, 0x8125, 0x6303, 0x6405, 0x8345]);
    run(&mut cpu, 3);
    assert_eq!(cpu.v[1], 2);
    assert_eq!(cpu.v[0xF], 1);
    run(&mut cpu, 3);
    assert_eq!(cpu.v[3], 0xFE);
    assert_eq!(cpu.v[0xF], 0);
}

#[test]
fn subtract_equal_values_sets_flag() {
    let mut cpu = machine(&[0x6109, 0x6209, 0x8125]);
    run(&mut cpu, 3);
    assert_eq!(cpu.v[1], 0);
    assert_eq!(cpu.v[0xF], 1);
}

#[test]
fn reverse_subtract() {
    let mut cpu = machine(&[0x6103, 0x6205, 0x8127, 0x6305, 0x6403, 0x8347]);
    run(&mut cpu, 3);
    assert_eq!(cpu.v[1], 2);
    assert_eq!(cpu.v[0xF], 1);
    run(&mut cpu, 3);
    assert_eq!(cpu.v[3], 0xFE);
    assert_eq!(cpu.v[0xF], 0);
}

#[test]
fn shifts_set_the_flag_to_the_bit_shifted_out() {
    let mut cpu = machine(&[0x6105, 0x8106, 0x6281, 0x820E, 0x6340, 0x830E]);
    run(&mut cpu, 2);
    assert_eq!(cpu.v[1], 2);
    assert_eq!(cpu.v[0xF], 1);
    run(&mut cpu, 2);
    assert_eq!(cpu.v[2], 0x02);
    assert_eq!(cpu.v[0xF], 1);
    run(&mut cpu, 2);
    assert_eq!(cpu.v[3], 0x80);
    assert_eq!(cpu.v[0xF], 0);
}

#[test]
fn shift_right_of_flag_register() {
    let mut cpu = machine(&[0x6F03, 0x8F06]);
    run(&mut cpu, 2);
    // VF gets the low bit (1), then VF itself is shifted: 1 >> 1 == 0
    assert_eq!(cpu.v[0xF], 0);
}

#[test]
fn load_register_from_register() {
    let mut cpu = machine(&[0x6277, 0x8120]);
    run(&mut cpu, 2);
    assert_eq!(cpu.v[1], 0x77);
}

#[test]
fn set_index_and_jump_with_offset() {
    let mut cpu = machine(&[0xA123, 0x6010, 0xB300]);
    run(&mut cpu, 3);
    assert_eq!(cpu.i, 0x123);
    assert_eq!(cpu.pc, 0x310);
}

#[test]
fn jump_with_offset_beyond_twelve_bits() {
    let mut cpu = machine(&[0x60FF, 0xBFFF]);
    run(&mut cpu, 2);
    assert_eq!(cpu.pc, 0x10FE);
}

#[test]
fn random_byte_is_masked() {
    for _ in 0..50 {
        let mut cpu = machine(&[0xC50F]);
        run(&mut cpu, 1);
        assert_eq!(cpu.v[5] & 0xF0, 0);
        assert_eq!(cpu.pc, 0x202);
    }
    let mut cpu = machine(&[0xC500]);
    cpu.v[5] = 0x77;
    run(&mut cpu, 1);
    assert_eq!(cpu.v[5], 0);
}

#[test]
fn tick_with_uses_the_given_random_byte() {
    let mut cpu = machine(&[0xC53C]);
    cpu.tick_with(0xFF);
    assert_eq!(cpu.v[5], 0x3C);
    let mut cpu = machine(&[0xC53C]);
    cpu.tick_with(0x24);
    assert_eq!(cpu.v[5], 0x24);
}

#[test]
fn draw_font_glyph() {
    // I = glyph of 0; draw it at (0, 0)
    let mut cpu = machine(&[0x6000, 0xF029, 0xD005]);
    run(&mut cpu, 3);
    assert_eq!(cpu.i, 0);
    assert!(pixel(&cpu, 0, 0) && pixel(&cpu, 1, 0) && pixel(&cpu, 2, 0) && pixel(&cpu, 3, 0));
    assert!(!pixel(&cpu, 4, 0));
    assert!(pixel(&cpu, 0, 1) && !pixel(&cpu, 1, 1) && !pixel(&cpu, 2, 1) && pixel(&cpu, 3, 1));
    assert!(!pixel(&cpu, 0, 5));
    assert_eq!(cpu.display.iter().filter(|&&p| p).count(), 14);
    assert_eq!(cpu.v[0xF], 0);
    assert!(cpu.draw_flag);
}

#[test]
fn draw_twice_erases_and_reports_collision() {
    let mut cpu = machine(&[0x610A, 0x6205, 0xF129, 0xD125, 0xD125]);
    run(&mut cpu, 4);
    assert_eq!(cpu.v[0xF], 0);
    let lit = cpu.display.iter().filter(|&&p| p).count();
    assert!(lit > 0);
    run(&mut cpu, 1);
    assert_eq!(cpu.v[0xF], 1);
    assert!(cpu.display.iter().all(|&p| !p));
}

#[test]
fn draw_wraps_around_the_edges() {
    // a one-row sprite 0xFF at (60, 31): columns 60..63 and 0..3 of row 31
    let mut cpu = machine(&[0xA300, 0x613C, 0x621F, 0xD121]);
    cpu.ram[0x300] = 0xFF;
    run(&mut cpu, 4);
    for x in 60..64 {
        assert!(pixel(&cpu, x, 31));
    }
    for x in 0..4 {
        assert!(pixel(&cpu, x, 31));
    }
    assert!(!pixel(&cpu, 4, 31));
    assert!(!pixel(&cpu, 59, 31));
    assert_eq!(cpu.display.iter().filter(|&&p| p).count(), 8);
}

#[test]
fn draw_position_is_taken_modulo_the_screen() {
    // VX = 64 + 2, VY = 32 + 1: drawn at (2, 1)
    let mut cpu = machine(&[0xA300, 0x6142, 0x6221, 0xD121]);
    cpu.ram[0x300] = 0x80;
    run(&mut cpu, 4);
    assert!(pixel(&cpu, 2, 1));
    assert_eq!(cpu.display.iter().filter(|&&p| p).count(), 1);
}

#[test]
fn draw_vertical_wrap() {
    let mut cpu = machine(&[0xA300, 0x6100, 0x621F, 0xD122]);
    cpu.ram[0x300] = 0x80;
    cpu.ram[0x301] = 0x80;
    run(&mut cpu, 4);
    assert!(pixel(&cpu, 0, 31));
    assert!(pixel(&cpu, 0, 0));
}

#[test]
fn draw_zero_rows_only_clears_flag() {
    let mut cpu = machine(&[0xD120]);
    cpu.v[0xF] = 1;
    run(&mut cpu, 1);
    assert_eq!(cpu.v[0xF], 0);
    assert!(cpu.display.iter().all(|&p| !p));
    assert!(cpu.draw_flag);
}

#[test]
fn skip_on_key() {
    let mut cpu = machine(&[0x6105, 0xE19E, 0x0000, 0xE1A1, 0x0000]);
    cpu.keys[5] = true;
    run(&mut cpu, 2);
    assert_eq!(cpu.pc, 0x206);
    run(&mut cpu, 1);
    assert_eq!(cpu.pc, 0x208);
    let mut cpu = machine(&[0x6105, 0xE1A1]);
    run(&mut cpu, 2);
    assert_eq!(cpu.pc, 0x206);
}

#[test]
fn timers_from_and_to_registers() {
    let mut cpu = machine(&[0x6142, 0xF115, 0xF118, 0xF207]);
    run(&mut cpu, 4);
    assert_eq!(cpu.delay_timer, 0x42);
    assert_eq!(cpu.sound_timer, 0x42);
    assert_eq!(cpu.v[2], 0x42);
}

#[test]
fn wait_for_key_idles_without_a_key() {
    let mut cpu = machine(&[0xF30A]);
    run(&mut cpu, 3);
    assert_eq!(cpu.pc, 0x200);
    assert_eq!(cpu.v[3], 0);
}

#[test]
fn wait_for_key_stores_lowest_pressed_key() {
    let mut cpu = machine(&[0xF30A]);
    cpu.keys[9] = true;
    cpu.keys[4] = true;
    run(&mut cpu, 1);
    assert_eq!(cpu.v[3], 4);
    assert_eq!(cpu.pc, 0x202);
}

#[test]
fn add_to_index_wraps() {
    let mut cpu = machine(&[0x6102, 0xF11E]);
    cpu.i = 0xFFFF;
    run(&mut cpu, 2);
    assert_eq!(cpu.i, 1);
}

#[test]
fn font_address_uses_low_nibble() {
    let mut cpu = machine(&[0x611B, 0xF129]);
    run(&mut cpu, 2);
    assert_eq!(cpu.i, 0xB * 5);
    assert_eq!(&cpu.ram[cpu.i as usize..cpu.i as usize + 5], &FONT[55..60]);
}

#[test]
fn decimal_digits() {
    let mut cpu = machine(&[0x61FE, 0xA300, 0xF133, 0x6207, 0xA310, 0xF233]);
    run(&mut cpu, 3);
    assert_eq!(&cpu.ram[0x300..0x303], &[2, 5, 4]);
    run(&mut cpu, 3);
    assert_eq!(&cpu.ram[0x310..0x313], &[0, 0, 7]);
}

#[test]
fn store_and_load_registers() {
    let mut cpu = machine(&[0xA300, 0xF255, 0x6000, 0x6100, 0x6200, 0x63EE, 0xF265]);
    cpu.v[0] = 10;
    cpu.v[1] = 20;
    cpu.v[2] = 30;
    cpu.v[3] = 40;
    run(&mut cpu, 2);
    assert_eq!(&cpu.ram[0x300..0x304], &[10, 20, 30, 0]);
    assert_eq!(cpu.i, 0x300);
    run(&mut cpu, 5);
    assert_eq!(&cpu.v[..4], &[10, 20, 30, 0xEE]);
}

#[test]
fn load_register_out_of_reach_changes_nothing_else() {
    let mut cpu = machine(&[0x6F12]);
    run(&mut cpu, 1);
    assert_eq!(cpu.v[0xF], 0x12);
}

#[test]
fn unknown_opcodes_only_advance() {
    let mut cpu = machine(&[0x0123, 0x8008, 0xE100, 0xF1FF]);
    let before_v = cpu.v;
    run(&mut cpu, 4);
    assert_eq!(cpu.pc, 0x208);
    assert_eq!(cpu.v, before_v);
    assert_eq!(cpu.i, 0);
    assert!(!cpu.draw_flag);
}

#[test]
fn can_tick_refuses_faulting_cycles() {
    let mut cpu = Cpu::new();
    cpu.pc = (RAM_SIZE - 1) as u16;
    assert!(!cpu.can_tick());

    let cpu = machine(&[0x00EE]);
    assert!(!cpu.can_tick());

    let mut cpu = machine(&[0x2200]);
    cpu.sp = 16;
    assert!(!cpu.can_tick());
    cpu.sp = 15;
    assert!(cpu.can_tick());

    let mut cpu = machine(&[0xD125]);
    cpu.i = (RAM_SIZE - 4) as u16;
    assert!(!cpu.can_tick());
    cpu.i = (RAM_SIZE - 5) as u16;
    assert!(cpu.can_tick());

    let mut cpu = machine(&[0xE19E]);
    cpu.v[1] = 16;
    assert!(!cpu.can_tick());

    let mut cpu = machine(&[0xF133]);
    cpu.i = (RAM_SIZE - 2) as u16;
    assert!(!cpu.can_tick());

    let mut cpu = machine(&[0xF355]);
    cpu.i = (RAM_SIZE - 3) as u16;
    assert!(!cpu.can_tick());
    cpu.i = (RAM_SIZE - 4) as u16;
    assert!(cpu.can_tick());
}

#[test]
fn tick_and_tick_with_agree_outside_random() {
    let mut a = machine(&[0x6A05, 0x7A03, 0x8AA4]);
    let mut b = machine(&[0x6A05, 0x7A03, 0x8AA4]);
    for _ in 0..3 {
        a.tick();
        b.tick_with(0x5A);
    }
    assert_eq!(a.v, b.v);
    assert_eq!(a.pc, b.pc);
    assert_eq!(a.v[0xA], 16);
}

#[test]
fn names_instruction_matches_the_instruction_set() {
    for op in [0x00E0u16, 0x00EE, 0x1000, 0x2FFF, 0x8120, 0x8127, 0x812E, 0xD123, 0xE19E,
        0xE1A1, 0xF107, 0xF10A, 0xF115, 0xF118, 0xF11E, 0xF129, 0xF133, 0xF155, 0xF165]
    {
        assert!(Cpu::names_instruction(op), "{:04X}", op);
    }
    for op in [0x0000u16, 0x0123, 0x8128, 0x812F, 0xE100, 0xF100, 0xF1FF] {
        assert!(!Cpu::names_instruction(op), "{:04X}", op);
    }
}

#[test]
fn stack_fills_after_sixteen_calls() {
    // a subroutine that calls itself
    let mut cpu = machine(&[0x2200]);
    run(&mut cpu, 16);
    assert_eq!(cpu.sp, 16);
    assert!(cpu.stack.iter().all(|&a| a == 0x202));
    assert!(!cpu.can_tick());
}

#[test]
fn first_fetched_opcode_is_the_start_of_the_rom() {
    let mut cpu = Cpu::new();
    cpu.load_rom(&[0xA2, 0x2A, 0x60, 0x0C]);
    assert_eq!(cpu.fetch(), 0xA22A);
}

#[test]
fn timers_after_many_ticks() {
    let mut cpu = Cpu::new();
    cpu.delay_timer = 5;
    cpu.sound_timer = 200;
    for _ in 0..7 {
        cpu.tick_timers();
    }
    assert_eq!(cpu.delay_timer, 0);
    assert_eq!(cpu.sound_timer, 193);
    for _ in 0..300 {
        cpu.tick_timers();
    }
    assert_eq!((cpu.delay_timer, cpu.sound_timer), (0, 0));
}

#[test]
fn exactly_one_of_equal_and_not_equal_skips() {
    for value in [0x41u8, 0x42] {
        let mut a = machine(&[0x3342]);
        let mut b = machine(&[0x4342]);
        a.v[3] = value;
        b.v[3] = value;
        run(&mut a, 1);
        run(&mut b, 1);
        assert_eq!(a.pc as u32 + b.pc as u32, 2 * 0x200 + 2 + 4);
    }
}

#[test]
fn load_after_store_restores_overwritten_registers() {
    let mut cpu = machine(&[0xA300, 0xF355, 0x6011, 0x6122, 0x6233, 0x6344, 0x6455, 0xF365]);
    cpu.v[..5].copy_from_slice(&[1, 2, 3, 4, 5]);
    run(&mut cpu, 8);
    assert_eq!(&cpu.v[..5], &[1, 2, 3, 4, 0x55]);
}

#[test]
fn xor_twice_restores() {
    let mut cpu = machine(&[0x61C3, 0x625A, 0x8123, 0x8123]);
    run(&mut cpu, 3);
    assert_eq!(cpu.v[1], 0xC3 ^ 0x5A);
    run(&mut cpu, 1);
    assert_eq!(cpu.v[1], 0xC3);
    assert_eq!(cpu.v[2], 0x5A);
}

#[test]
fn jump_with_offset_to_the_top_of_the_address_space() {
    let mut cpu = machine(&[0xBFFF]);
    cpu.v[0] = 0;
    run(&mut cpu, 1);
    assert_eq!(cpu.pc, 0x0FFF);
}
