use gbemu::console::ConsoleEvent;
use gbemu::gameboy::GameBoy;

fn rom_of(len: usize) -> Vec<u8> {
    (0..len).map(|i| (i % 251) as u8).collect()
}

#[test]
fn power_on_registers() {
    let gb = GameBoy::new(vec![0u8; 16]);
    assert_eq!(gb.get_register_a(), 0x01);
    assert_eq!(gb.get_register_b(), 0x00);
    assert_eq!(gb.get_register_c(), 0x13);
    assert_eq!(gb.get_register_d(), 0x00);
    assert_eq!(gb.get_register_e(), 0xD8);
    assert_eq!(gb.get_register_h(), 0x01);
    assert_eq!(gb.get_register_l(), 0x4D);
    assert!(gb.get_zero_flag());
    assert!(!gb.get_subtraction_flag());
    assert!(gb.get_half_carry_flag());
    assert!(gb.get_carry_flag());
    assert_eq!(gb.stack_pointer(), 0xFFFE);
    assert_eq!(gb.program_counter(), 0x3FF0);
    assert!(!gb.is_halted());
    assert_eq!(gb.cpu_timer(), 0);
}

#[test]
fn rom_is_loaded_and_bank_one_is_mapped() {
    let rom = rom_of(0x10000);
    let mut gb = GameBoy::new(rom.clone());
    assert_eq!(gb.read_ram(0x0000), rom[0]);
    assert_eq!(gb.read_ram(0x1234), rom[0x1234]);
    assert_eq!(gb.read_ram(0x4000), rom[0x4000]);
    assert_eq!(gb.read_ram(0x7fff), rom[0x7fff]);
    // past the end of the image the ROM reads as zero
    let mut small = GameBoy::new(vec![7u8; 4]);
    assert_eq!(small.read_ram(3), 7);
    assert_eq!(small.read_ram(4), 0);
}

#[test]
fn rom_bank_switching() {
    let rom = rom_of(0x20000);
    let mut gb = GameBoy::new(rom.clone());
    gb.write_ram(0x2000, 2);
    assert_eq!(gb.read_ram(0x4000), rom[0x8000]);
    gb.write_ram(0x3fff, 0x23); // only the low five bits count
    assert_eq!(gb.read_ram(0x4001), rom[3 * 0x4000 + 1]);
    gb.write_ram(0x2000, 0x20); // bank 0 maps to bank 1
    assert_eq!(gb.read_ram(0x4000), rom[0x4000]);
    // writes to the ROM area never change the ROM
    assert_eq!(gb.read_ram(0x2000), rom[0x2000]);
}

#[test]
fn work_ram_high_ram_oam_io_and_ie_read_back() {
    let mut gb = GameBoy::new(vec![]);
    for (addr, val) in [(0xC000u16, 1u8), (0xCFFF, 2), (0xD000, 3), (0xDFFF, 4), (0xFE00, 5),
        (0xFE9F, 6), (0xFF80, 7), (0xFFFE, 8), (0xFFFF, 9), (0xFF10, 10)]
    {
        gb.write_ram(addr, val);
        assert_eq!(gb.read_ram(addr), val, "address {addr:#x}");
    }
}

#[test]
fn echo_ram_mirrors_work_ram() {
    let mut gb = GameBoy::new(vec![]);
    gb.write_ram(0xC010, 0x5A);
    assert_eq!(gb.read_ram(0xE010), 0x5A);
    gb.write_ram(0xE020, 0xA5);
    assert_eq!(gb.read_ram(0xC020), 0xA5);
    gb.write_ram(0xF000, 0x11);
    assert_eq!(gb.read_ram(0xD000), 0x11);
}

#[test]
fn unusable_area_reads_ff() {
    let mut gb = GameBoy::new(vec![]);
    gb.write_ram(0xFEA0, 0x12);
    assert_eq!(gb.read_ram(0xFEA0), 0xFF);
    assert_eq!(gb.read_ram(0xFEFF), 0xFF);
}

#[test]
fn vram_writes_go_to_both_banks_while_bank_zero_is_selected() {
    let mut gb = GameBoy::new(vec![]);
    gb.write_ram(0x8000, 0x42);
    assert_eq!(gb.read_ram(0x8000), 0x42);
    gb.write_ram(0xFF4F, 1); // select bank 1
    assert_eq!(gb.read_ram(0x8000), 0x42);
    gb.write_ram(0x8001, 0x24); // only bank 0 is written now
    assert_eq!(gb.read_ram(0x8001), 0x00);
    gb.write_ram(0xFF4F, 0);
    assert_eq!(gb.read_ram(0x8001), 0x24);
}

#[test]
fn external_ram_banks() {
    let mut gb = GameBoy::new(vec![]);
    gb.write_ram(0xA000, 0x77);
    assert_eq!(gb.read_ram(0xA000), 0x77);
    gb.write_ram(0x4000, 1);
    assert_eq!(gb.read_ram(0xA000), 0x00);
    gb.write_ram(0x4000, 4); // only two bits count: bank 0
    assert_eq!(gb.read_ram(0xA000), 0x77);
}

#[test]
fn serial_port_prints_the_byte_in_ff01() {
    let mut gb = GameBoy::new(vec![]);
    gb.write_ram(0xFF01, b'A');
    gb.write_ram(0xFF02, 0x81);
    gb.write_ram(0xFF01, b'B');
    gb.write_ram(0xFF02, 0x80);
    assert_eq!(gb.take_console(), vec![ConsoleEvent::Serial(b'A')]);
    assert_eq!(gb.take_console(), vec![]);
    assert_eq!(gb.read_ram(0xFF02), 0x80);
}

#[test]
fn memory_accesses_tick_the_timer() {
    let mut gb = GameBoy::new(vec![]);
    gb.read_ram(0x0000);
    assert_eq!(gb.cpu_timer(), 1);
    gb.read_ram(0x8000);
    assert_eq!(gb.cpu_timer(), 3);
    gb.read_ram(0xD000);
    assert_eq!(gb.cpu_timer(), 5);
    gb.read_ram(0xE000);
    assert_eq!(gb.cpu_timer(), 7);
    gb.read_ram(0xF000);
    assert_eq!(gb.cpu_timer(), 10);
    gb.write_ram(0xC000, 1);
    assert_eq!(gb.cpu_timer(), 11);
    gb.write_ram(0x9000, 1);
    assert_eq!(gb.cpu_timer(), 13);
    gb.write_ram(0xFF01, 1);
    gb.write_ram(0xFF02, 0x81);
    assert_eq!(gb.cpu_timer(), 16);
}

#[test]
fn div_register_takes_the_written_value() {
    let mut gb = GameBoy::new(vec![]);
    gb.write_ram(0xFF04, 0x33);
    assert_eq!(gb.read_ram(0xFF04), 0x33);
}

#[test]
fn a_write_leaves_other_cells() {
    let mut gb = GameBoy::new(vec![]);
    gb.write_ram(0xC000, 0x10);
    gb.write_ram(0xC001, 0x20);
    gb.write_ram(0xFF80, 0x30);
    assert_eq!(gb.read_ram(0xC000), 0x10);
    assert_eq!(gb.read_ram(0xC001), 0x20);
}

#[test]
fn switchable_wram_banks_differ_for_reads_and_writes() {
    let mut gb = GameBoy::new(vec![]);
    // SVBK = 2: reads see bank 2 (low bits), writes go to bank 1 (bits 7-5 are zero)
    gb.write_ram(0xFF70, 0x02);
    gb.write_ram(0xD000, 0x99);
    assert_eq!(gb.read_ram(0xD000), 0x00);
    gb.write_ram(0xFF70, 0x01);
    assert_eq!(gb.read_ram(0xD000), 0x99);
}
