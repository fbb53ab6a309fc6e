use chip8::{decode, new, Chip8, Chip8Error, Instruction};

fn machine(rom: &[u8]) -> Chip8 {
    new(rom).unwrap()
}

fn run(c: &mut Chip8, cycles: usize) {
    for _ in 0..cycles {
        c.emulate_cycle_with(0).unwrap();
    }
}

#[test]
fn add_immediate_wraps_without_touching_flag() {
    let mut c = machine(&[0x6F, 0x05, 0x60, 0xFF, 0x70, 0x01]);
    run(&mut c, 3);
    assert_eq!(c.register(0), 0x00);
    assert_eq!(c.register(0xF), 0x05);
}

#[test]
fn add_registers_wraps_and_sets_carry() {
    let mut c = machine(&[0x60, 0xFF, 0x61, 0x01, 0x80, 0x14]);
    run(&mut c, 3);
    assert_eq!(c.register(0), 0x00);
    assert_eq!(c.register(0xF), 1);
    let mut d = machine(&[0x60, 0x10, 0x61, 0x20, 0x6F, 0x07, 0x80, 0x14]);
    run(&mut d, 4);
    assert_eq!(d.register(0), 0x30);
    assert_eq!(d.register(0xF), 0);
}

#[test]
fn subtract_with_borrow() {
    let mut c = machine(&[0x60, 0x05, 0x61, 0x0A, 0x80, 0x15]);
    run(&mut c, 3);
    assert_eq!(c.register(0), 0xFB);
    assert_eq!(c.register(0xF), 0);
}

#[test]
fn subtract_without_borrow() {
    let mut c = machine(&[0x60, 0x0A, 0x61, 0x05, 0x80, 0x15]);
    run(&mut c, 3);
    assert_eq!(c.register(0), 0x05);
    assert_eq!(c.register(0xF), 1);
}

#[test]
fn reverse_subtract_and_shifts() {
    let mut c = machine(&[0x60, 0x0A, 0x61, 0x05, 0x80, 0x17]);
    run(&mut c, 3);
    assert_eq!(c.register(0), 0xFB);
    assert_eq!(c.register(0xF), 0);
    let mut d = machine(&[0x60, 0x05, 0x80, 0x06]);
    run(&mut d, 2);
    assert_eq!(d.register(0), 0x02);
    assert_eq!(d.register(0xF), 1);
    let mut e = machine(&[0x60, 0x81, 0x80, 0x0E]);
    run(&mut e, 2);
    assert_eq!(e.register(0), 0x02);
    assert_eq!(e.register(0xF), 1);
}

#[test]
fn flag_register_as_operand_keeps_the_flag() {
    let mut c = machine(&[0x6F, 0xFF, 0x61, 0x01, 0x8F, 0x14]);
    run(&mut c, 3);
    assert_eq!(c.register(0xF), 1);
}

#[test]
fn bitwise_operations() {
    let mut c = machine(&[0x60, 0x0C, 0x61, 0x0A, 0x62, 0x0C, 0x63, 0x0C, 0x80, 0x11, 0x82, 0x12, 0x83, 0x13, 0x84, 0x10]);
    run(&mut c, 8);
    assert_eq!(c.register(0), 0x0E);
    assert_eq!(c.register(2), 0x08);
    assert_eq!(c.register(3), 0x06);
    assert_eq!(c.register(4), 0x0A);
}

#[test]
fn draw_same_sprite_twice_clears_and_collides() {
    // V0 = 0, V1 = 0, I = glyph of V0, draw 5 rows twice.
    let mut c = machine(&[0x60, 0x00, 0x61, 0x00, 0xF0, 0x29, 0xD0, 0x15, 0xD0, 0x15]);
    run(&mut c, 4);
    assert_eq!(c.register(0xF), 0);
    assert!(c.redraw_pending());
    // Glyph 0, first row 0xF0: four lit pixels.
    assert_eq!(c.pixel(0), 1);
    assert_eq!(c.pixel(3), 1);
    assert_eq!(c.pixel(4), 0);
    assert_eq!(c.pixel(64), 1);
    assert_eq!(c.pixel(65), 0);
    let lit = (0..2048).filter(|&i| c.pixel(i) == 1).count();
    assert_eq!(lit, 14);
    c.clear_redraw();
    run(&mut c, 1);
    assert_eq!(c.register(0xF), 1);
    assert!(c.redraw_pending());
    assert!((0..2048).all(|i| c.pixel(i) == 0));
}

#[test]
fn draw_wraps_around_the_framebuffer() {
    let rom = [0x60, 0x3F, 0x61, 0x1F, 0xA2, 0x08, 0xD0, 0x11, 0xC0, 0x00];
    let mut c = machine(&rom);
    run(&mut c, 4);
    assert_eq!(c.pixel(2047), 1);
    assert_eq!(c.pixel(0), 1);
    assert_eq!(c.register(0xF), 0);
    let lit = (0..2048).filter(|&i| c.pixel(i) == 1).count();
    assert_eq!(lit, 2);
}

#[test]
fn clear_screen() {
    let mut c = machine(&[0x60, 0x00, 0xF0, 0x29, 0xD0, 0x05, 0x00, 0xE0]);
    run(&mut c, 3);
    assert_eq!(c.pixel(0), 1);
    run(&mut c, 1);
    assert!((0..2048).all(|i| c.pixel(i) == 0));
    assert_eq!(c.program_counter(), 0x208);
}

#[test]
fn skip_if_equal_immediate() {
    let mut c = machine(&[0x60, 0x12, 0x30, 0x12]);
    run(&mut c, 2);
    assert_eq!(c.program_counter(), 0x206);
    let mut d = machine(&[0x60, 0x12, 0x30, 0x13]);
    run(&mut d, 2);
    assert_eq!(d.program_counter(), 0x204);
}

#[test]
fn skip_if_not_equal_immediate() {
    let mut c = machine(&[0x60, 0x12, 0x40, 0x13]);
    run(&mut c, 2);
    assert_eq!(c.program_counter(), 0x206);
    let mut d = machine(&[0x60, 0x12, 0x40, 0x12]);
    run(&mut d, 2);
    assert_eq!(d.program_counter(), 0x204);
}

#[test]
fn skip_on_register_comparison() {
    let mut c = machine(&[0x60, 0x07, 0x61, 0x07, 0x50, 0x10]);
    run(&mut c, 3);
    assert_eq!(c.program_counter(), 0x208);
    let mut d = machine(&[0x60, 0x07, 0x61, 0x07, 0x90, 0x10]);
    run(&mut d, 3);
    assert_eq!(d.program_counter(), 0x206);
    let mut e = machine(&[0x60, 0x07, 0x61, 0x08, 0x90, 0x10]);
    run(&mut e, 3);
    assert_eq!(e.program_counter(), 0x208);
}

#[test]
fn skip_on_keys() {
    let mut c = machine(&[0x60, 0x0A, 0xE0, 0x9E, 0xE0, 0xA1]);
    c.set_key(0xA, true);
    assert!(c.is_key_pressed(0xA));
    run(&mut c, 2);
    assert_eq!(c.program_counter(), 0x206);
    let mut d = machine(&[0x60, 0x0A, 0xE0, 0x9E, 0xE0, 0xA1]);
    run(&mut d, 3);
    assert_eq!(d.program_counter(), 0x208);
}

#[test]
fn rom_round_trip() {
    let rom: Vec<u8> = (0..3584u32).map(|i| (i * 7 % 256) as u8).collect();
    let c = machine(&rom);
    for i in 0..rom.len() {
        assert_eq!(c.memory_at(0x200 + i), rom[i]);
    }
    assert_eq!(c.program_counter(), 0x200);
    assert_eq!(c.memory_at(0), 0xF0);
    assert_eq!(c.memory_at(79), 0x80);
    assert_eq!(c.memory_at(0x100), 0);
}

#[test]
fn rom_too_large_is_rejected() {
    let rom = vec![0u8; 3585];
    assert_eq!(new(&rom).err(), Some(Chip8Error::RomTooLarge { len: 3585 }));
    assert!(new(&[]).is_ok());
}

#[test]
fn bcd_of_156() {
    let mut c = machine(&[0x60, 0x9C, 0xA3, 0x00, 0xF0, 0x33]);
    run(&mut c, 3);
    assert_eq!(c.memory_at(0x300), 1);
    assert_eq!(c.memory_at(0x301), 5);
    assert_eq!(c.memory_at(0x302), 6);
}

#[test]
fn load_three_registers() {
    let mut rom = vec![0u8; 0x104];
    rom[..8].copy_from_slice(&[0x63, 0x44, 0xA3, 0x00, 0xF2, 0x65, 0x00, 0x00]);
    rom[0x100..0x104].copy_from_slice(&[0x11, 0x22, 0x33, 0x99]);
    let mut c = machine(&rom);
    run(&mut c, 3);
    assert_eq!(c.register(0), 0x11);
    assert_eq!(c.register(1), 0x22);
    assert_eq!(c.register(2), 0x33);
    assert_eq!(c.register(3), 0x44);
    assert_eq!(c.index_register(), 0x303);
    for i in 0..rom.len() {
        assert_eq!(c.memory_at(0x200 + i), rom[i]);
    }
}

#[test]
fn sound_timer_beeps_once() {
    let mut c = machine(&[0x60, 0x01, 0xF0, 0x18, 0x61, 0x00]);
    run(&mut c, 2);
    assert!(c.beep());
    assert_eq!(c.sound_timer(), 0);
    run(&mut c, 1);
    assert!(!c.beep());
    let mut d = machine(&[0x60, 0x01, 0xF0, 0x18]);
    run(&mut d, 1);
    assert!(!d.update_timers());
}

#[test]
fn delay_timer_counts_down() {
    let mut c = machine(&[0x60, 0x05, 0xF0, 0x15, 0xF1, 0x07]);
    run(&mut c, 3);
    // Set to 5, ticked once after the setting instruction, read, ticked again.
    assert_eq!(c.register(1), 4);
    assert_eq!(c.delay_timer(), 3);
}

#[test]
fn unknown_opcode_changes_nothing() {
    let mut c = machine(&[0x50, 0x01]);
    assert_eq!(
        c.emulate_cycle_with(0),
        Err(Chip8Error::UnknownOpcode { opcode: 0x5001, address: 0x200 })
    );
    assert_eq!(c.program_counter(), 0x200);
    assert!((0..16).all(|i| c.register(i) == 0));
    assert_eq!(c.memory_at(0x200), 0x50);
    assert_eq!(decode(0x5001), None);
    assert_eq!(decode(0x00E0), Some(Instruction::ClearScreen));
    assert_eq!(decode(0xD125), Some(Instruction::Draw { x: 1, y: 2, n: 5 }));
}

#[test]
fn call_and_return() {
    let mut c = machine(&[0x22, 0x04, 0x00, 0x00, 0x00, 0xEE]);
    run(&mut c, 1);
    assert_eq!(c.program_counter(), 0x204);
    assert_eq!(c.stack_pointer(), 1);
    run(&mut c, 1);
    assert_eq!(c.program_counter(), 0x202);
    assert_eq!(c.stack_pointer(), 0);
}

#[test]
fn return_without_call_underflows() {
    let mut c = machine(&[0x00, 0xEE]);
    assert_eq!(c.emulate_cycle_with(0), Err(Chip8Error::StackUnderflow));
    assert_eq!(c.program_counter(), 0x200);
}

#[test]
fn seventeenth_call_overflows() {
    let mut c = machine(&[0x22, 0x00]);
    run(&mut c, 16);
    assert_eq!(c.stack_pointer(), 16);
    assert_eq!(c.emulate_cycle_with(0), Err(Chip8Error::StackOverflow));
    assert_eq!(c.stack_pointer(), 16);
}

#[test]
fn memory_out_of_range() {
    let mut c = machine(&[0x1F, 0xFF]);
    run(&mut c, 1);
    assert_eq!(c.emulate_cycle_with(0), Err(Chip8Error::MemoryOutOfRange { address: 0xFFF }));
    let mut d = machine(&[0xAF, 0xFE, 0xF0, 0x33]);
    run(&mut d, 1);
    assert_eq!(d.emulate_cycle_with(0), Err(Chip8Error::MemoryOutOfRange { address: 0xFFE }));
    assert_eq!(d.program_counter(), 0x202);
}

#[test]
fn key_out_of_range() {
    let mut c = machine(&[0x60, 0x10, 0xE0, 0x9E]);
    run(&mut c, 1);
    assert_eq!(c.emulate_cycle_with(0), Err(Chip8Error::KeyOutOfRange { key: 0x10 }));
}

#[test]
fn index_arithmetic_and_font_address() {
    let mut c = machine(&[0x60, 0x0A, 0xF0, 0x29, 0xAF, 0xFF, 0x61, 0x02, 0xF1, 0x1E]);
    run(&mut c, 2);
    assert_eq!(c.index_register(), 50);
    run(&mut c, 3);
    assert_eq!(c.index_register(), 0x1001);
    assert_eq!(c.register(0xF), 1);
    let mut d = machine(&[0xA1, 0x00, 0x60, 0x05, 0xF0, 0x1E]);
    run(&mut d, 3);
    assert_eq!(d.index_register(), 0x105);
    assert_eq!(d.register(0xF), 0);
}

#[test]
fn jumps() {
    let mut c = machine(&[0x13, 0x00]);
    run(&mut c, 1);
    assert_eq!(c.program_counter(), 0x300);
    let mut d = machine(&[0x60, 0x10, 0xB3, 0x00]);
    run(&mut d, 2);
    assert_eq!(d.program_counter(), 0x310);
}

#[test]
fn random_byte_is_masked() {
    let mut c = machine(&[0xC0, 0x0F, 0xC1, 0xF0]);
    c.emulate_cycle_with(0xAB).unwrap();
    c.emulate_cycle_with(0xAB).unwrap();
    assert_eq!(c.register(0), 0x0B);
    assert_eq!(c.register(1), 0xA0);
    let mut d = machine(&[0xC0, 0x0F, 0xC1, 0x00]);
    d.emulate_cycle().unwrap();
    d.emulate_cycle().unwrap();
    assert!(d.register(0) <= 0x0F);
    assert_eq!(d.register(1), 0);
}

#[test]
fn execute_single_instruction() {
    let mut c = machine(&[]);
    c.execute(Instruction::LoadImm { x: 3, nn: 0x42 }, 0).unwrap();
    assert_eq!(c.register(3), 0x42);
    assert_eq!(c.program_counter(), 0x202);
    assert_eq!(c.delay_timer(), 0);
}
