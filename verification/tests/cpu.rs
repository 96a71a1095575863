use gbemu::console::ConsoleEvent;
use gbemu::gameboy::GameBoy;

const START: usize = 0x3FF0;

fn machine_with(program: &[u8]) -> GameBoy {
    let mut rom = vec![0u8; 0x8000];
    rom[START..START + program.len()].copy_from_slice(program);
    GameBoy::new(rom)
}

fn run(gb: &mut GameBoy, n: usize) {
    for _ in 0..n {
        gb.step();
    }
}

#[test]
fn nop_moves_pc_and_refreshes_div() {
    let mut gb = machine_with(&[0x00]);
    gb.step();
    assert_eq!(gb.program_counter(), 0x3FF1);
    assert_eq!(gb.cpu_timer(), 1);
    let t = gb.cpu_timer();
    assert_eq!(gb.read_ram(0xFF04), (t / 128) as u8);
}

#[test]
fn load_immediates() {
    // ld b, 0x42; ld c, 0x43; ld de, 0x1234; ld a, 0x99
    let mut gb = machine_with(&[0x06, 0x42, 0x0E, 0x43, 0x11, 0x34, 0x12, 0x3E, 0x99]);
    run(&mut gb, 4);
    assert_eq!(gb.get_register_b(), 0x42);
    assert_eq!(gb.get_register_c(), 0x43);
    assert_eq!(gb.get_register_d(), 0x12);
    assert_eq!(gb.get_register_e(), 0x34);
    assert_eq!(gb.get_register_a(), 0x99);
    assert_eq!(gb.program_counter(), 0x3FF9);
}

#[test]
fn add_sets_carry_and_half_carry() {
    // ld a, 0xF8; ld b, 0x08; add a, b
    let mut gb = machine_with(&[0x3E, 0xF8, 0x06, 0x08, 0x80]);
    run(&mut gb, 3);
    assert_eq!(gb.get_register_a(), 0x00);
    assert!(gb.get_zero_flag());
    assert!(!gb.get_subtraction_flag());
    assert!(gb.get_half_carry_flag());
    assert!(gb.get_carry_flag());
}

#[test]
fn adc_adds_the_carry() {
    // scf; ld a, 0x0E; adc a, 0x01
    let mut gb = machine_with(&[0x37, 0x3E, 0x0E, 0xCE, 0x01]);
    run(&mut gb, 3);
    assert_eq!(gb.get_register_a(), 0x10);
    assert!(gb.get_half_carry_flag());
    assert!(!gb.get_carry_flag());
    assert!(!gb.get_zero_flag());
}

#[test]
fn sub_and_sbc_borrow() {
    // ld a, 0x10; sub a, 0x20
    let mut gb = machine_with(&[0x3E, 0x10, 0xD6, 0x20]);
    run(&mut gb, 2);
    assert_eq!(gb.get_register_a(), 0xF0);
    assert!(gb.get_carry_flag());
    assert!(gb.get_subtraction_flag());
    assert!(!gb.get_half_carry_flag());
    // scf; ld a, 0x10; sbc a, 0x0F
    let mut gb = machine_with(&[0x37, 0x3E, 0x10, 0xDE, 0x0F]);
    run(&mut gb, 3);
    assert_eq!(gb.get_register_a(), 0x00);
    assert!(gb.get_zero_flag());
    assert!(gb.get_half_carry_flag());
    assert!(!gb.get_carry_flag());
}

#[test]
fn logic_operations() {
    // ld a, 0xF0; and a, 0x3C
    let mut gb = machine_with(&[0x3E, 0xF0, 0xE6, 0x3C]);
    run(&mut gb, 2);
    assert_eq!(gb.get_register_a(), 0x30);
    assert!(gb.get_half_carry_flag());
    assert!(!gb.get_carry_flag());
    // xor a
    let mut gb = machine_with(&[0xAF]);
    gb.step();
    assert_eq!(gb.get_register_a(), 0x00);
    assert!(gb.get_zero_flag());
    assert!(!gb.get_carry_flag());
    // ld a, 0x0F; or a, 0xF0
    let mut gb = machine_with(&[0x3E, 0x0F, 0xF6, 0xF0]);
    run(&mut gb, 2);
    assert_eq!(gb.get_register_a(), 0xFF);
    assert!(!gb.get_zero_flag());
}

#[test]
fn compare_leaves_a() {
    // ld a, 0x42; cp a, 0x42
    let mut gb = machine_with(&[0x3E, 0x42, 0xFE, 0x42]);
    run(&mut gb, 2);
    assert_eq!(gb.get_register_a(), 0x42);
    assert!(gb.get_zero_flag());
    assert!(gb.get_subtraction_flag());
    assert!(!gb.get_carry_flag());
}

#[test]
fn inc_and_dec_r8() {
    // ld b, 0xFF; inc b; dec b
    let mut gb = machine_with(&[0x06, 0xFF, 0x04]);
    run(&mut gb, 2);
    assert_eq!(gb.get_register_b(), 0x00);
    assert!(gb.get_zero_flag());
    assert!(gb.get_half_carry_flag());
    assert!(!gb.get_subtraction_flag());
    // the carry flag is left as it was (set at power-on)
    assert!(gb.get_carry_flag());
    let mut gb = machine_with(&[0x06, 0x10, 0x05]);
    run(&mut gb, 2);
    assert_eq!(gb.get_register_b(), 0x0F);
    assert!(gb.get_half_carry_flag());
    assert!(gb.get_subtraction_flag());
}

#[test]
fn inc_and_dec_r16_wrap() {
    // ld bc, 0xFFFF; inc bc; dec de (de = 0x00D8)
    let mut gb = machine_with(&[0x01, 0xFF, 0xFF, 0x03, 0x1B]);
    run(&mut gb, 3);
    assert_eq!(gb.get_register_b(), 0x00);
    assert_eq!(gb.get_register_c(), 0x00);
    assert_eq!(gb.get_register_d(), 0x00);
    assert_eq!(gb.get_register_e(), 0xD7);
}

#[test]
fn add_hl_r16() {
    // ld hl, 0x0FFF; ld bc, 0x0001; add hl, bc
    let mut gb = machine_with(&[0x21, 0xFF, 0x0F, 0x01, 0x01, 0x00, 0x09]);
    run(&mut gb, 3);
    assert_eq!(gb.get_register_h(), 0x10);
    assert_eq!(gb.get_register_l(), 0x00);
    assert!(gb.get_half_carry_flag());
    assert!(!gb.get_carry_flag());
    assert!(!gb.get_subtraction_flag());
}

#[test]
fn jumps() {
    // jp 0x4000
    let mut gb = machine_with(&[0xC3, 0x00, 0x40]);
    gb.step();
    assert_eq!(gb.program_counter(), 0x4000);
    // jr -2 loops on itself
    let mut gb = machine_with(&[0x18, 0xFE]);
    gb.step();
    assert_eq!(gb.program_counter(), 0x3FF0);
    // jr z, +5 is taken (Z is set at power-on); jr nz is not
    let mut gb = machine_with(&[0x28, 0x05]);
    gb.step();
    assert_eq!(gb.program_counter(), 0x3FF7);
    let mut gb = machine_with(&[0x20, 0x05]);
    gb.step();
    assert_eq!(gb.program_counter(), 0x3FF2);
    // ld hl, 0x1234; jp hl
    let mut gb = machine_with(&[0x21, 0x34, 0x12, 0xE9]);
    run(&mut gb, 2);
    assert_eq!(gb.program_counter(), 0x1234);
}

#[test]
fn call_and_return() {
    // call 0x3FF8; ...; at 0x3FF8: ret
    let mut gb = machine_with(&[0xCD, 0xF8, 0x3F, 0x00, 0x00, 0x00, 0x00, 0x00, 0xC9]);
    gb.step();
    assert_eq!(gb.program_counter(), 0x3FF8);
    assert_eq!(gb.stack_pointer(), 0xFFFC);
    assert_eq!(gb.read_ram(0xFFFC), 0xF3);
    assert_eq!(gb.read_ram(0xFFFD), 0x3F);
    gb.step();
    assert_eq!(gb.program_counter(), 0x3FF3);
    assert_eq!(gb.stack_pointer(), 0xFFFE);
}

#[test]
fn push_and_pop() {
    // ld bc, 0xBEEF; push bc; pop de
    let mut gb = machine_with(&[0x01, 0xEF, 0xBE, 0xC5, 0xD1]);
    run(&mut gb, 3);
    assert_eq!(gb.get_register_d(), 0xBE);
    assert_eq!(gb.get_register_e(), 0xEF);
    assert_eq!(gb.stack_pointer(), 0xFFFE);
}

#[test]
fn pop_af_clears_the_low_nibble() {
    // ld bc, 0x12FF; push bc; pop af
    let mut gb = machine_with(&[0x01, 0xFF, 0x12, 0xC5, 0xF1]);
    run(&mut gb, 3);
    assert_eq!(gb.get_register_a(), 0x12);
    assert!(gb.get_zero_flag());
    assert!(gb.get_subtraction_flag());
    assert!(gb.get_half_carry_flag());
    assert!(gb.get_carry_flag());
    // push af; pop bc: the low nibble of F reads as zero
    let mut gb = machine_with(&[0x01, 0xFF, 0x12, 0xC5, 0xF1, 0xF5, 0xC1]);
    run(&mut gb, 5);
    assert_eq!(gb.get_register_c(), 0xF0);
}

#[test]
fn rst_pushes_pc_and_jumps() {
    let mut gb = machine_with(&[0xFF]);
    gb.step();
    assert_eq!(gb.program_counter(), 0x0038);
    assert_eq!(gb.stack_pointer(), 0xFFFC);
    assert_eq!(gb.read_ram(0xFFFC), 0xF1);
    assert_eq!(gb.read_ram(0xFFFD), 0x3F);
}

#[test]
fn memory_operands_through_hl() {
    // ld hl, 0xC000; ld a, 0x55; ld [hl+], a; ld [hl-], a; ld b, [hl]
    let mut gb = machine_with(&[0x21, 0x00, 0xC0, 0x3E, 0x55, 0x22, 0x32, 0x46]);
    run(&mut gb, 4);
    assert_eq!(gb.get_register_h(), 0xC0);
    assert_eq!(gb.get_register_l(), 0x00);
    run(&mut gb, 1);
    assert_eq!(gb.get_register_b(), 0x55);
    assert_eq!(gb.read_ram(0xC001), 0x55);
}

#[test]
fn high_page_loads() {
    // ld a, 0x66; ldh [0x80], a; ld a, 0; ldh a, [0x80]
    let mut gb = machine_with(&[0x3E, 0x66, 0xE0, 0x80, 0x3E, 0x00, 0xF0, 0x80]);
    run(&mut gb, 4);
    assert_eq!(gb.get_register_a(), 0x66);
    assert_eq!(gb.read_ram(0xFF80), 0x66);
}

#[test]
fn add_sp_and_ld_hl_sp() {
    // add sp, -2; ld hl, sp + 1
    let mut gb = machine_with(&[0xE8, 0xFE, 0xF8, 0x01]);
    gb.step();
    assert_eq!(gb.stack_pointer(), 0xFFFC);
    assert!(!gb.get_zero_flag());
    gb.step();
    assert_eq!(gb.get_register_h(), 0xFF);
    assert_eq!(gb.get_register_l(), 0xFD);
}

#[test]
fn rotations_of_a() {
    // ld a, 0x81; rlca
    let mut gb = machine_with(&[0x3E, 0x81, 0x07]);
    run(&mut gb, 2);
    assert_eq!(gb.get_register_a(), 0x03);
    assert!(gb.get_carry_flag());
    assert!(!gb.get_zero_flag());
    // ld a, 0x01; rrca
    let mut gb = machine_with(&[0x3E, 0x01, 0x0F]);
    run(&mut gb, 2);
    assert_eq!(gb.get_register_a(), 0x80);
    assert!(gb.get_carry_flag());
    // carry set at power-on; ld a, 0x80; rla
    let mut gb = machine_with(&[0x3E, 0x80, 0x17]);
    run(&mut gb, 2);
    assert_eq!(gb.get_register_a(), 0x01);
    assert!(gb.get_carry_flag());
    // ld a, 0x02; rra (carry in)
    let mut gb = machine_with(&[0x3E, 0x02, 0x1F]);
    run(&mut gb, 2);
    assert_eq!(gb.get_register_a(), 0x81);
    assert!(!gb.get_carry_flag());
}

#[test]
fn daa_adjusts_bcd_sums() {
    // ld a, 0x15; add a, 0x27; daa
    let mut gb = machine_with(&[0x3E, 0x15, 0xC6, 0x27, 0x27]);
    run(&mut gb, 3);
    assert_eq!(gb.get_register_a(), 0x42);
    assert!(!gb.get_carry_flag());
    // ld a, 0x90; add a, 0x20; daa
    let mut gb = machine_with(&[0x3E, 0x90, 0xC6, 0x20, 0x27]);
    run(&mut gb, 3);
    assert_eq!(gb.get_register_a(), 0x10);
    assert!(gb.get_carry_flag());
}

#[test]
fn cpl_scf_ccf() {
    // ld a, 0x0F; cpl; ccf; ccf; scf
    let mut gb = machine_with(&[0x3E, 0x0F, 0x2F, 0x3F]);
    run(&mut gb, 2);
    assert_eq!(gb.get_register_a(), 0xF0);
    assert!(gb.get_subtraction_flag());
    assert!(gb.get_half_carry_flag());
    gb.step();
    assert!(!gb.get_carry_flag()); // power-on carry complemented
    assert!(!gb.get_subtraction_flag());
}

#[test]
fn cb_prefixed_operations() {
    // ld b, 0x12; swap b
    let mut gb = machine_with(&[0x06, 0x12, 0xCB, 0x30]);
    run(&mut gb, 2);
    assert_eq!(gb.get_register_b(), 0x21);
    assert!(!gb.get_carry_flag());
    // ld c, 0x80; sla c
    let mut gb = machine_with(&[0x0E, 0x80, 0xCB, 0x21]);
    run(&mut gb, 2);
    assert_eq!(gb.get_register_c(), 0x00);
    assert!(gb.get_zero_flag());
    assert!(gb.get_carry_flag());
    // ld d, 0x81; sra d
    let mut gb = machine_with(&[0x16, 0x81, 0xCB, 0x2A]);
    run(&mut gb, 2);
    assert_eq!(gb.get_register_d(), 0xC0);
    assert!(gb.get_carry_flag());
    // ld e, 0x01; srl e
    let mut gb = machine_with(&[0x1E, 0x01, 0xCB, 0x3B]);
    run(&mut gb, 2);
    assert_eq!(gb.get_register_e(), 0x00);
    assert!(gb.get_zero_flag());
    // ld a, 0x00; bit 7, a; set 7, a; res 0, a
    let mut gb = machine_with(&[0x3E, 0x00, 0xCB, 0x7F, 0xCB, 0xFF, 0xCB, 0x87]);
    run(&mut gb, 2);
    assert!(gb.get_zero_flag());
    assert!(gb.get_half_carry_flag());
    run(&mut gb, 2);
    assert_eq!(gb.get_register_a(), 0x80);
}

#[test]
fn cb_on_memory_operand() {
    // ld hl, 0xC000; set 3, [hl]
    let mut gb = machine_with(&[0x21, 0x00, 0xC0, 0xCB, 0xDE]);
    run(&mut gb, 2);
    assert_eq!(gb.read_ram(0xC000), 0x08);
}

#[test]
fn halt_stops_the_cpu_until_an_interrupt() {
    let mut gb = machine_with(&[0x76, 0x00]);
    gb.step();
    assert!(gb.is_halted());
    assert_eq!(gb.take_console(), vec![ConsoleEvent::Halted]);
    let pc = gb.program_counter();
    gb.step();
    assert!(gb.is_halted());
    assert_eq!(gb.program_counter(), pc);
    // IE and IF both hold the timer and serial bits: pending & enabled & 0x0F = 0x0C > 1
    gb.write_ram(0xFFFF, 0x0C);
    gb.write_ram(0xFF0F, 0x0C);
    gb.step();
    assert!(!gb.is_halted());
    assert_eq!(gb.program_counter(), pc + 1);
}

#[test]
fn reti_returns_through_the_stack() {
    // ld hl, 0xFFFC; ld sp, hl; di; ei; reti
    let mut gb = machine_with(&[0x21, 0xFC, 0xFF, 0xF9, 0xF3, 0xFB, 0xD9]);
    gb.write_ram(0xFFFC, 0x34);
    gb.write_ram(0xFFFD, 0x12);
    run(&mut gb, 2);
    assert_eq!(gb.stack_pointer(), 0xFFFC);
    run(&mut gb, 3);
    assert_eq!(gb.program_counter(), 0x1234);
    assert_eq!(gb.stack_pointer(), 0xFFFE);
}

#[test]
fn serial_output_from_a_program() {
    // ld a, 'H'; ldh [0x01], a; ld a, 0x81; ldh [0x02], a
    let mut gb = machine_with(&[0x3E, b'H', 0xE0, 0x01, 0x3E, 0x81, 0xE0, 0x02]);
    run(&mut gb, 4);
    assert_eq!(gb.take_console(), vec![ConsoleEvent::Serial(b'H')]);
}
