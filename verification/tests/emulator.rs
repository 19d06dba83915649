use chip_8_emulator::emulator::Proc;
use chip_8_emulator::font::font;
use chip_8_emulator::keypad::{
    keypad_value, KEY_A, KEY_C, KEY_D, KEY_E, KEY_ESCAPE, KEY_F, KEY_NUM1, KEY_NUM2, KEY_NUM3,
    KEY_NUM4, KEY_Q, KEY_R, KEY_S, KEY_V, KEY_W, KEY_X, KEY_Z,
};
use chip_8_emulator::machine::Action;
use chip_8_emulator::rom::words_from_bytes;

fn machine(prog: &[u16]) -> Proc {
    let mut p = Proc::new();
    p.load_program(prog);
    p
}

fn step(p: &mut Proc) -> Action {
    assert!(p.can_step());
    p.run()
}

fn steps(p: &mut Proc, n: usize) {
    for _ in 0..n {
        assert_eq!(step(p), Action::Continue);
    }
}

fn lit(fb: &[u8]) -> Vec<usize> {
    (0..fb.len()).filter(|&k| fb[k] != 0).collect()
}

#[test]
fn new_machine_is_blank() {
    let p = Proc::new();
    assert_eq!(p.get_pc(), 0x200);
    assert_eq!(p.get_sp(), 4000);
    assert_eq!(p.get_reg_i(), 0);
    assert_eq!(p.get_delay_timer(), 0);
    assert_eq!(p.get_sound_timer(), 0);
    assert_eq!(p.get_registers(), [0u8; 16]);
    assert_eq!(p.get_keys(), [0u8; 16]);
    assert_eq!(p.timers_last, 0);
    assert_eq!(p.get_framebuffer().len(), 2048);
    assert!(p.get_framebuffer().iter().all(|&b| b == 0));
    assert_eq!(p.get_memory().len(), 4096);
    assert!(p.get_memory().iter().all(|&b| b == 0));
}

#[test]
fn next_instruction_reads_big_endian() {
    let mut p = machine(&[0xABCD, 0x1234]);
    assert_eq!(p.next_instruction(), 0xABCD);
    assert_eq!(p.get_pc(), 0x202);
    assert_eq!(p.next_instruction(), 0x1234);
    assert_eq!(p.get_pc(), 0x204);
}

#[test]
fn load_program_places_program_and_font() {
    let p = machine(&[0x1234, 0x5678]);
    let m = p.get_memory();
    assert_eq!(&m[0x200..0x204], &[0x12, 0x34, 0x56, 0x78]);
    assert_eq!(m[0x204], 0);
    assert_eq!(m[0x4F], 0);
    assert_eq!(&m[0x50..0xA0], &font()[..]);
    assert_eq!(m[0xA0], 0);
    assert_eq!(&m[0x50..0x55], &[0xF0, 0x90, 0x90, 0x90, 0xF0]);
}

#[test]
fn load_program_of_full_size() {
    let prog = vec![0xA1B2u16; 1792];
    let p = machine(&prog);
    let m = p.get_memory();
    assert_eq!(m[0x200], 0xA1);
    assert_eq!(m[4094], 0xA1);
    assert_eq!(m[4095], 0xB2);
}

#[test]
fn fetch_after_load_gives_the_program_back() {
    let prog = [0x00E0, 0x6A12, 0xF229];
    let mut p = machine(&prog);
    for &w in prog.iter() {
        assert_eq!(p.next_instruction(), w);
    }
}

#[test]
fn load_and_add_byte() {
    let mut p = machine(&[0x6005, 0x7003]);
    steps(&mut p, 2);
    assert_eq!(p.get_registers()[0], 8);
    assert_eq!(p.get_pc(), 0x204);
}

#[test]
fn add_byte_wraps_without_carry() {
    let mut p = machine(&[0x60FF, 0x7002]);
    steps(&mut p, 2);
    assert_eq!(p.get_registers()[0], 1);
    assert_eq!(p.get_registers()[15], 0);
}

#[test]
fn alu_copy_or_and_xor() {
    let mut p = machine(&[0x610C, 0x620A, 0x8320, 0x8121]);
    steps(&mut p, 4);
    assert_eq!(p.get_registers()[3], 0x0A);
    assert_eq!(p.get_registers()[1], 0x0E);
    let mut p = machine(&[0x610C, 0x620A, 0x8122]);
    steps(&mut p, 3);
    assert_eq!(p.get_registers()[1], 0x08);
    let mut p = machine(&[0x610C, 0x620A, 0x8123]);
    steps(&mut p, 3);
    assert_eq!(p.get_registers()[1], 0x06);
}

#[test]
fn add_registers_sets_carry() {
    let mut p = machine(&[0x61C8, 0x6264, 0x8124]);
    steps(&mut p, 3);
    assert_eq!(p.get_registers()[1], 44);
    assert_eq!(p.get_registers()[15], 1);
    assert_eq!(p.get_registers()[15] as u16 * 256 + p.get_registers()[1] as u16, 300);
    let mut p = machine(&[0x610A, 0x6214, 0x8124]);
    steps(&mut p, 3);
    assert_eq!(p.get_registers()[1], 30);
    assert_eq!(p.get_registers()[15], 0);
}

#[test]
fn sub_registers_sets_not_borrow() {
    let mut p = machine(&[0x610A, 0x6203, 0x8125]);
    steps(&mut p, 3);
    assert_eq!(p.get_registers()[1], 7);
    assert_eq!(p.get_registers()[15], 1);
    let mut p = machine(&[0x6103, 0x620A, 0x8125]);
    steps(&mut p, 3);
    assert_eq!(p.get_registers()[1], 249);
    assert_eq!(p.get_registers()[15], 0);
    let mut p = machine(&[0x6107, 0x6207, 0x8125]);
    steps(&mut p, 3);
    assert_eq!(p.get_registers()[1], 0);
    assert_eq!(p.get_registers()[15], 0);
}

#[test]
fn shift_right_keeps_low_bit_in_vf() {
    let mut p = machine(&[0x6105, 0x8106]);
    steps(&mut p, 2);
    assert_eq!(p.get_registers()[1], 2);
    assert_eq!(p.get_registers()[15], 1);
}

#[test]
fn shift_right_of_vf_reads_vf_after_it_is_written() {
    let mut p = machine(&[0x6F05, 0x8F06]);
    steps(&mut p, 2);
    assert_eq!(p.get_registers()[15], 0);
}

#[test]
fn subn_registers() {
    let mut p = machine(&[0x6103, 0x620A, 0x8127]);
    steps(&mut p, 3);
    assert_eq!(p.get_registers()[1], 7);
    assert_eq!(p.get_registers()[15], 1);
    let mut p = machine(&[0x610A, 0x6203, 0x8127]);
    steps(&mut p, 3);
    assert_eq!(p.get_registers()[1], 249);
    assert_eq!(p.get_registers()[15], 0);
}

#[test]
fn shift_left_keeps_high_bit_in_vf() {
    let mut p = machine(&[0x6181, 0x810E]);
    steps(&mut p, 2);
    assert_eq!(p.get_registers()[1], 0x02);
    assert_eq!(p.get_registers()[15], 1);
    let mut p = machine(&[0x6141, 0x810E]);
    steps(&mut p, 2);
    assert_eq!(p.get_registers()[1], 0x82);
    assert_eq!(p.get_registers()[15], 0);
}

#[test]
fn unknown_alu_operation_does_nothing() {
    let mut p = machine(&[0x6105, 0x6207, 0x8129]);
    steps(&mut p, 3);
    assert_eq!(p.get_registers()[1], 5);
    assert_eq!(p.get_registers()[2], 7);
}

#[test]
fn skips_on_byte_and_registers() {
    let mut p = machine(&[0x6005, 0x3005]);
    steps(&mut p, 2);
    assert_eq!(p.get_pc(), 0x206);
    let mut p = machine(&[0x6005, 0x3006]);
    steps(&mut p, 2);
    assert_eq!(p.get_pc(), 0x204);
    let mut p = machine(&[0x6005, 0x4006]);
    steps(&mut p, 2);
    assert_eq!(p.get_pc(), 0x206);
    let mut p = machine(&[0x6005, 0x4005]);
    steps(&mut p, 2);
    assert_eq!(p.get_pc(), 0x204);
    let mut p = machine(&[0x6005, 0x6105, 0x5010]);
    steps(&mut p, 3);
    assert_eq!(p.get_pc(), 0x208);
    let mut p = machine(&[0x6005, 0x6106, 0x5010]);
    steps(&mut p, 3);
    assert_eq!(p.get_pc(), 0x206);
    let mut p = machine(&[0x6005, 0x6106, 0x9010]);
    steps(&mut p, 3);
    assert_eq!(p.get_pc(), 0x208);
    let mut p = machine(&[0x6005, 0x6105, 0x9010]);
    steps(&mut p, 3);
    assert_eq!(p.get_pc(), 0x206);
}

#[test]
fn jumps() {
    let mut p = machine(&[0x1ABC]);
    steps(&mut p, 1);
    assert_eq!(p.get_pc(), 0xABC);
    let mut p = machine(&[0xA010, 0xB005]);
    steps(&mut p, 2);
    assert_eq!(p.get_reg_i(), 0x010);
    assert_eq!(p.get_pc(), 0x015);
}

#[test]
fn call_then_return_comes_back() {
    let mut p = machine(&[0x2206, 0x0000, 0x0000, 0x00EE]);
    steps(&mut p, 1);
    assert_eq!(p.get_pc(), 0x206);
    assert_eq!(p.get_sp(), 4002);
    assert_eq!(p.get_memory()[4002], 0x02);
    assert_eq!(p.get_memory()[4001], 0x02);
    steps(&mut p, 1);
    assert_eq!(p.get_pc(), 0x202);
    assert_eq!(p.get_sp(), 4000);
}

#[test]
fn calls_fill_the_stack_up_to_the_end_of_memory() {
    let mut p = machine(&[0x2200]);
    steps(&mut p, 47);
    assert_eq!(p.get_sp(), 4094);
    assert!(!p.can_step());
}

#[test]
fn draw_font_digit_and_draw_again() {
    // V0 = 0, I = glyph of V0, draw 5 rows at (V1, V2) = (0, 0)
    let mut p = machine(&[0x6000, 0xF029, 0xD125, 0xD125]);
    steps(&mut p, 2);
    assert_eq!(p.get_reg_i(), 0x50);
    steps(&mut p, 1);
    let fb = p.get_framebuffer().to_vec();
    assert_eq!(p.get_registers()[15], 0);
    assert_eq!(&fb[0..8], &[1, 1, 1, 1, 0, 0, 0, 0]);
    assert_eq!(&fb[64..72], &[1, 0, 0, 1, 0, 0, 0, 0]);
    assert_eq!(&fb[256..264], &[1, 1, 1, 1, 0, 0, 0, 0]);
    assert_eq!(lit(&fb).len(), 14);
    assert!(fb.iter().all(|&b| b <= 1));
    steps(&mut p, 1);
    assert!(p.get_framebuffer().iter().all(|&b| b == 0));
    assert_eq!(p.get_registers()[15], 1);
}

#[test]
fn draw_past_the_right_edge_continues_on_the_next_row() {
    let mut p = machine(&[0x613E, 0x6200, 0xA050, 0xD121]);
    steps(&mut p, 4);
    assert_eq!(lit(p.get_framebuffer()), vec![62, 63, 64, 65]);
}

#[test]
fn draw_below_the_bottom_is_dropped() {
    let mut p = machine(&[0x6100, 0x621F, 0xA050, 0xD125]);
    steps(&mut p, 4);
    assert_eq!(lit(p.get_framebuffer()), vec![1984, 1985, 1986, 1987]);
}

#[test]
fn draw_of_zero_rows_clears_vf_only() {
    let mut p = machine(&[0x6F01, 0xA050, 0xD120]);
    steps(&mut p, 3);
    assert_eq!(p.get_registers()[15], 0);
    assert!(p.get_framebuffer().iter().all(|&b| b == 0));
}

#[test]
fn clear_screen() {
    let mut p = machine(&[0xA050, 0xD125, 0x00E0]);
    steps(&mut p, 2);
    assert!(!lit(p.get_framebuffer()).is_empty());
    steps(&mut p, 1);
    assert!(p.get_framebuffer().iter().all(|&b| b == 0));
}

#[test]
fn font_digit_address() {
    let mut p = machine(&[0x600F, 0xF029]);
    steps(&mut p, 2);
    assert_eq!(p.get_reg_i(), 0x50 + 75);
    let m = p.get_memory();
    assert_eq!(&m[0x9B..0xA0], &[0xF0, 0x80, 0xF0, 0x80, 0x80]);
}

#[test]
fn font_address_overflow_is_a_fault() {
    let mut p = machine(&[0x6024, 0xF029]);
    steps(&mut p, 1);
    assert!(!p.can_step());
    let mut p = machine(&[0x6023, 0xF029]);
    steps(&mut p, 2);
    assert_eq!(p.get_reg_i(), 255);
}

#[test]
fn store_digits() {
    let mut p = machine(&[0x60EA, 0xA300, 0xF033]);
    steps(&mut p, 3);
    assert_eq!(&p.get_memory()[0x300..0x303], &[2, 23, 234]);
}

#[test]
fn store_and_load_registers_below_x() {
    let mut p = machine(&[0x6001, 0x6102, 0x6203, 0xA300, 0xF255]);
    steps(&mut p, 5);
    assert_eq!(&p.get_memory()[0x300..0x303], &[1, 2, 0]);
    let mut p = machine(&[0xA200, 0xF365]);
    steps(&mut p, 2);
    let r = p.get_registers();
    assert_eq!(&r[0..4], &[0xA2, 0x00, 0xF3, 0]);
}

#[test]
fn add_to_i() {
    let mut p = machine(&[0x6010, 0xA100, 0xF01E]);
    steps(&mut p, 3);
    assert_eq!(p.get_reg_i(), 0x110);
}

#[test]
fn timers_count_down_to_zero() {
    let mut p = machine(&[0x6002, 0xF015, 0xF018, 0xF107]);
    steps(&mut p, 3);
    assert_eq!(p.get_delay_timer(), 2);
    assert_eq!(p.get_sound_timer(), 2);
    p.dec_timers();
    assert_eq!(p.get_delay_timer(), 1);
    steps(&mut p, 1);
    assert_eq!(p.get_registers()[1], 1);
    p.dec_timers();
    p.dec_timers();
    assert_eq!(p.get_delay_timer(), 0);
    assert_eq!(p.get_sound_timer(), 0);
}

#[test]
fn random_does_nothing() {
    let mut p = machine(&[0x6007, 0xC0FF]);
    steps(&mut p, 2);
    assert_eq!(p.get_registers()[0], 7);
}

#[test]
fn unknown_opcode_halts() {
    let mut p = machine(&[0x0123]);
    assert_eq!(step(&mut p), Action::Halt { opcode: 0x0123 });
    assert_eq!(p.get_pc(), 0x202);
}

#[test]
fn keypad_layout() {
    let expected = [
        (KEY_NUM1, 0x1), (KEY_NUM2, 0x2), (KEY_NUM3, 0x3), (KEY_NUM4, 0xC),
        (KEY_A, 0x4), (KEY_Z, 0x5), (KEY_E, 0x6), (KEY_R, 0xD),
        (KEY_Q, 0x7), (KEY_S, 0x8), (KEY_D, 0x9), (KEY_F, 0xE),
        (KEY_W, 0xA), (KEY_X, 0x0), (KEY_C, 0xB), (KEY_V, 0xF),
    ];
    for (sym, k) in expected.iter() {
        assert_eq!(keypad_value(*sym), Some(*k));
    }
    assert_eq!(keypad_value(KEY_ESCAPE), None);
    assert_eq!(keypad_value(0x20), None);
}

#[test]
fn update_key_marks_pressed_keys() {
    let mut p = Proc::new();
    p.update_key(&[KEY_A, 0x20, KEY_V]);
    let k = p.get_keys();
    assert_eq!(k[4], 1);
    assert_eq!(k[15], 1);
    assert_eq!(k.iter().filter(|&&b| b == 1).count(), 2);
    assert!(k.iter().all(|&b| b <= 1));
    p.update_key(&[KEY_A]);
    assert_eq!(p.get_keys()[4], 1);
}

#[test]
fn skip_if_key_pressed() {
    let mut p = machine(&[0xE49E]);
    assert_eq!(step(&mut p), Action::SkipIfKey { x: 4 });
    p.skip_if_key(4, &[KEY_A]);
    assert_eq!(p.get_pc(), 0x204);
    assert_eq!(p.get_keys()[4], 0);
    let mut p = machine(&[0xE49E]);
    step(&mut p);
    p.skip_if_key(4, &[KEY_Z]);
    assert_eq!(p.get_pc(), 0x202);
    assert_eq!(p.get_keys()[5], 1);
}

#[test]
fn skip_unless_key_pressed() {
    let mut p = machine(&[0xE5A1]);
    assert_eq!(step(&mut p), Action::SkipUnlessKey { x: 5 });
    p.skip_unless_key(5, &[]);
    assert_eq!(p.get_pc(), 0x204);
    let mut p = machine(&[0xE5A1]);
    step(&mut p);
    p.skip_unless_key(5, &[KEY_Z]);
    assert_eq!(p.get_pc(), 0x202);
    assert_eq!(p.get_keys()[5], 0);
}

#[test]
fn other_key_opcodes_do_nothing() {
    let mut p = machine(&[0xE512]);
    assert_eq!(step(&mut p), Action::Continue);
    assert_eq!(p.get_pc(), 0x202);
}

#[test]
fn wait_for_key() {
    let mut p = machine(&[0xF50A]);
    assert_eq!(step(&mut p), Action::WaitKey { x: 5 });
    p.load_key(5, KEY_W);
    assert_eq!(p.get_registers()[5], 0xA);
    p.load_key(5, KEY_ESCAPE);
    assert_eq!(p.get_registers()[5], 0xA);
}

#[test]
fn fetch_past_the_end_of_memory_is_a_fault() {
    let mut p = machine(&[0x1FFF]);
    steps(&mut p, 1);
    assert!(!p.can_step());
    let mut p = machine(&[0x1FFE]);
    steps(&mut p, 1);
    assert!(p.can_step());
}

#[test]
fn return_on_the_initial_stack() {
    let mut p = machine(&[0x00EE]);
    steps(&mut p, 1);
    assert_eq!(p.get_pc(), 0);
    assert_eq!(p.get_sp(), 3998);
}

#[test]
fn rom_words_from_bytes() {
    assert_eq!(words_from_bytes(&[0x12, 0x34, 0x56]), vec![0x1234]);
    assert_eq!(words_from_bytes(&[0x00, 0xE0, 0xA2, 0x2A]), vec![0x00E0, 0xA22A]);
    assert_eq!(words_from_bytes(&[]), Vec::<u16>::new());
}
