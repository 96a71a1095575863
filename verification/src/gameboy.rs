use vstd::prelude::*;
use crate::bits::{hi_byte, lemma_byte_ranges, lo_byte, with_hi_byte, with_lo_byte};
use crate::console::ConsoleEvent;
use crate::constants::{DIV_REGISTER, EXT_RAM_SIZE, FLAG_C, FLAG_H, FLAG_N, FLAG_Z, HRAM_SIZE, INTERRUPT_FLAG, IO_SIZE, OAM_SIZE, ROM_SIZE, VBK_ADDR, VRAM_SIZE, WRAM_BANK_SELECT, WRAM_SIZE};
use crate::machine::{lemma_read_tick, lemma_tick_tick, lemma_write_wf, power_on, read_depth, read_ticks, zeros, Machine};

verus! {

/// The emulated machine.
#[derive(Debug)]
pub struct GameBoy {
    pub(crate) catrigde_rom: Vec<u8>,
    pub(crate) catridge_ram: Vec<u8>,
    pub(crate) catridge_selected_rom: u8,
    pub(crate) catridge_selected_ram: u8,
    pub(crate) w_ram: Vec<u8>,
    pub(crate) v_ram: Vec<u8>,
    pub(crate) h_ram: Vec<u8>,
    pub(crate) oam: Vec<u8>,
    pub(crate) io_registers: Vec<u8>,
    pub(crate) af: u16,
    pub(crate) bc: u16,
    pub(crate) de: u16,
    pub(crate) hl: u16,
    pub(crate) sp: u16,
    pub(crate) pc: u16,
    pub(crate) interrupt_master_enable: bool,
    pub(crate) interrupt_enable: u8,
    pub(crate) external_ram_enabled: bool,
    pub(crate) cpu_timer: u32,
    pub(crate) cpu_halted: bool,
    pub(crate) console: Vec<ConsoleEvent>,
}

impl View for GameBoy {
    type V = Machine;

    open(crate) spec fn view(&self) -> Machine {
        Machine {
            rom: self.catrigde_rom@,
            ext_ram: self.catridge_ram@,
            rom_bank: self.catridge_selected_rom,
            ram_bank: self.catridge_selected_ram,
            wram: self.w_ram@,
            vram: self.v_ram@,
            hram: self.h_ram@,
            oam: self.oam@,
            io: self.io_registers@,
            af: self.af,
            bc: self.bc,
            de: self.de,
            hl: self.hl,
            sp: self.sp,
            pc: self.pc,
            ime: self.interrupt_master_enable,
            ie: self.interrupt_enable,
            ext_ram_enabled: self.external_ram_enabled,
            timer: self.cpu_timer,
            halted: self.cpu_halted,
            console: self.console@,
        }
    }
}

impl GameBoy {
    /// The machine's memories have the sizes the memory map relies on.
    pub open spec fn wf(&self) -> bool {
        self@.wf()
    }

    pub(crate) fn increment_cpu_timer(&mut self, value: u32)
        ensures
            final(self)@ == old(self)@.tick(value as nat),
    {
        self.cpu_timer = self.cpu_timer.wrapping_add(value);
        assert(final(self)@ =~= old(self)@.tick(value as nat));
    }

    /// Reads a byte of the address space; each access ticks the CPU timer.
    pub fn read_ram(&mut self, addr: u16) -> (r: u8)
        requires
            old(self).wf(),
        ensures
            r == old(self)@.read(addr),
            final(self)@ == old(self)@.after_read(addr),
        decreases read_depth(addr),
    {
        let ghost m0 = self@;
        self.increment_cpu_timer(1);
        let addr_usize = addr as usize;

        match addr {
            0x0000..=0x3fff => {
                // 16 KiB ROM bank 00
                return self.catrigde_rom[addr_usize];
            },
            0x4000..=0x7fff => {
                // 16 KiB ROM Bank 01–NN
                return self.catrigde_rom[(0x4000 * self.catridge_selected_rom as usize) + (
                addr_usize - 0x4000)];
            },
            0x8000..=0x9fff => {
                // VRAM
                let mut base_addr: usize = 0;

                if self.read_ram(VBK_ADDR) & 1 == 1 {
                    base_addr = 0x2000;
                }
                proof {
                    lemma_tick_tick(m0, 1, 1);
                }
                return self.v_ram[base_addr + (addr_usize - 0x8000)];
            },
            0xa000..=0xbfff => {
                // 8 KiB External RAM
                return self.catridge_ram[(0x2000 * self.catridge_selected_ram as usize) + (
                addr_usize - 0xa000)];
            },
            0xc000..=0xcfff => {
                // 4 KiB Work RAM (WRAM), bank 0
                return self.w_ram[addr_usize - 0xc000];
            },
            0xd000..=0xdfff => {
                // switchable bank 1–7
                let mut selected_bank = (self.read_ram(WRAM_BANK_SELECT as u16) & 0x07) as usize;

                if selected_bank == 0 {
                    selected_bank = 1;  // 0 maps to Bank 1
                }
                proof {
                    lemma_byte_ranges();
                    lemma_tick_tick(m0, 1, 1);
                }
                return self.w_ram[(0x1000 * selected_bank) + (addr_usize - 0xd000)];
            },
            0xe000..=0xfdff => {
                // Echo RAM (mirror of C000–DDFF)
                let r = self.read_ram(addr - 0x2000);
                proof {
                    lemma_tick_tick(m0, 1, read_ticks((addr - 0x2000) as u16));
                    lemma_read_tick(m0, 1, (addr - 0x2000) as u16);
                }
                return r;
            },
            0xfe00..=0xfe9f => {
                // Object attribute memory (OAM)
                return self.oam[addr_usize - 0xfe00];
            },
            0xfea0..=0xfeff => {
                return 0xFF;
            },
            0xff00..=0xff7f => {
                // I/O Registers
                return self.io_registers[addr_usize - 0xff00];
            },
            0xff80..=0xfffe => {
                // High RAM (HRAM)
                return self.h_ram[addr_usize - 0xff80];
            },
            0xffff => {
                return self.interrupt_enable;
            },
        }
    }

    /// Writes a byte to the address space; each access ticks the CPU timer.
    pub fn write_ram(&mut self, addr: u16, val: u8)
        requires
            old(self).wf(),
        ensures
            final(self)@ == old(self)@.write(addr, val),
            final(self).wf(),
        decreases addr,
    {
        proof {
            lemma_write_wf(old(self)@, addr, val);
        }
        let ghost m0 = self@;
        self.increment_cpu_timer(1);

        let addr_usize = addr as usize;

        match addr {
            0x0000..=0x1fff => {
                // external RAM enabled by writing $A
                if val & 0x0F == 0xA {
                    self.external_ram_enabled = true;
                }
            },
            0x2000..=0x3fff => {
                // ROM Bank
                let mut selected_bank: u8 = val & 0x1F;

                if selected_bank == 0 {
                    selected_bank = 1;
                }

                self.catridge_selected_rom = selected_bank;
                proof {
                    lemma_byte_ranges();
                }
            },
            0x4000..=0x5fff => {
                // RAM Bank
                self.catridge_selected_ram = 0x03 & val;
                proof {
                    lemma_byte_ranges();
                    assert(0x03 & val == val & 0x03) by (bit_vector);
                }
            },
            0x6000..=0x7fff => {
                // ROM
            },
            0x8000..=0x9fff => {
                // VRAM
                if self.read_ram(VBK_ADDR) & 1 == 0 {
                    self.v_ram[0x2000 + (addr_usize - 0x8000)] = val;
                }
                self.v_ram[addr_usize - 0x8000] = val;
                proof {
                    lemma_tick_tick(m0, 1, 1);
                }
            },
            0xa000..=0xbfff => {
                // 8 KiB External RAM
                self.catridge_ram[addr_usize - 0xa000] = val;
            },
            0xc000..=0xcfff => {
                // 4 KiB Work RAM (WRAM), bank 0
                self.w_ram[addr_usize - 0xc000] = val;
            },
            0xd000..=0xdfff => {
                // switchable bank 1–7
                let mut selected_bank = (self.io_registers[WRAM_BANK_SELECT - 0xff00] >> 5u8) as usize;

                if selected_bank == 0 {
                    selected_bank = 1;  // 0 maps to Bank 1
                }
                proof {
                    lemma_byte_ranges();
                }
                self.w_ram[(0x1000 * selected_bank) + (addr_usize - 0xd000)] = val;
            },
            0xe000..=0xfdff => {
                // Echo RAM (mirror of C000–DDFF)
                self.write_ram(addr - 0x2000, val);
            },
            0xfe00..=0xfe9f => {
                // Object attribute memory (OAM)
                self.oam[addr_usize - 0xfe00] = val;
            },
            0xfea0..=0xfeff => {
                // unusable area: writes are ignored
            },
            0xff00..=0xff7f => {
                if addr == 0xFF02 {
                    // a serial transfer with the internal clock sends the byte in 0xFF01
                    if val == 0x81 {
                        let char_to_print = self.read_ram(0xFF01);
                        self.console.push(ConsoleEvent::Serial(char_to_print));
                        proof {
                            lemma_tick_tick(m0, 1, 1);
                        }
                    }
                }
                if addr_usize == DIV_REGISTER {
                    self.io_registers[addr_usize - 0xff00] = 0;
                }
                // I/O Registers
                self.io_registers[addr_usize - 0xff00] = val;
            },
            0xff80..=0xfffe => {
                // High RAM (HRAM)
                self.h_ram[addr_usize - 0xff80] = val;
            },
            0xffff => {
                self.interrupt_enable = val;
            },
        }
        assert(self@ =~= old(self)@.write(addr, val));
    }

    /// Creates a machine at power-on with `rom` loaded at the start of the cartridge ROM.
    pub fn new(rom: Vec<u8>) -> (gb: Self)
        requires
            rom.len() <= ROM_SIZE,
        ensures
            gb.wf(),
            gb@ == power_on(rom@),
    {
        let mut gb = GameBoy {
            af: 0x01B0,
            bc: 0x0013,
            de: 0x00D8,
            hl: 0x014D,
            sp: 0xFFFE,
            pc: 0x3FF0,
            w_ram: vec![0u8; WRAM_SIZE],
            v_ram: vec![0u8; VRAM_SIZE],
            h_ram: vec![0u8; HRAM_SIZE],
            oam: vec![0u8; OAM_SIZE],
            io_registers: vec![0u8; IO_SIZE],
            catrigde_rom: vec![0u8; ROM_SIZE],
            catridge_ram: vec![0u8; EXT_RAM_SIZE],
            external_ram_enabled: false,
            catridge_selected_rom: 1,
            catridge_selected_ram: 0,
            interrupt_master_enable: false,  // disabled when game starts running
            interrupt_enable: 0,
            cpu_timer: 0,
            cpu_halted: false,
            console: Vec::new(),
        };
        assert(gb.w_ram@ =~= zeros(WRAM_SIZE as nat));
        assert(gb.v_ram@ =~= zeros(VRAM_SIZE as nat));
        assert(gb.h_ram@ =~= zeros(HRAM_SIZE as nat));
        assert(gb.oam@ =~= zeros(OAM_SIZE as nat));
        assert(gb.io_registers@ =~= zeros(IO_SIZE as nat));
        assert(gb.catrigde_rom@ =~= zeros(ROM_SIZE as nat));
        assert(gb.catridge_ram@ =~= zeros(EXT_RAM_SIZE as nat));

        gb.load_rom(rom);
        proof {
            assert(gb@.rom =~= power_on(rom@).rom);
            assert(gb@ =~= power_on(rom@));
        }
        gb
    }

    /// Copies `rom` to the start of the cartridge ROM.
    fn load_rom(&mut self, rom: Vec<u8>)
        requires
            rom.len() <= old(self)@.rom.len(),
        ensures
            final(self)@ == (Machine { rom: rom@ + old(self)@.rom.skip(rom.len() as int), ..old(self)@ }),
    {
        let ghost m0 = self@;
        for i in 0..rom.len()
            invariant
                rom.len() <= m0.rom.len(),
                self@ == (Machine { rom: self@.rom, ..m0 }),
                self@.rom =~= rom@.take(i as int) + m0.rom.skip(i as int),
        {
            self.catrigde_rom[i] = rom[i];
            proof {
                assert(self@.rom =~= rom@.take(i + 1) + m0.rom.skip(i + 1));
            }
        }
        assert(rom@.take(rom.len() as int) =~= rom@);
    }

    /// Refreshes the DIV register from the CPU timer (one DIV step per 128 timer ticks).
    pub fn update_timers(&mut self)
        requires
            old(self).wf(),
        ensures
            final(self)@ == old(self)@.update_div(),
            final(self).wf(),
    {
        self.io_registers[DIV_REGISTER - 0xff00] = (#[verifier::truncate] ((self.cpu_timer / 128) as u8));
    }

    /// Fetches the byte at PC and moves PC on.
    pub(crate) fn fetch_value_u8(&mut self) -> (r: u8)
        requires
            old(self).wf(),
        ensures
            (final(self)@, r) == old(self)@.fetch8(),
            final(self).wf(),
    {
        let val = self.read_ram(self.pc);
        self.pc = self.pc.wrapping_add(1);

        return val;
    }

    /// Fetches a little-endian word at PC and moves PC on by two.
    pub(crate) fn fetch_value_u16(&mut self) -> (r: u16)
        requires
            old(self).wf(),
        ensures
            (final(self)@, r) == old(self)@.fetch16(),
            final(self).wf(),
    {
        let lo = self.fetch_value_u8();
        let hi = self.fetch_value_u8();
        return lo as u16 | (hi as u16) << 8u16;
    }

    /// Pops a little-endian word off the stack.
    pub(crate) fn pop_from_stack(&mut self) -> (r: u16)
        requires
            old(self).wf(),
        ensures
            (final(self)@, r) == old(self)@.pop(),
            final(self).wf(),
    {
        let mut val = self.read_ram(self.sp) as u16;
        self.sp = self.sp.wrapping_add(1);

        val |= (self.read_ram(self.sp) as u16) << 8u16;
        self.sp = self.sp.wrapping_add(1);

        return val;
    }

    /// Pushes a word on the stack, high byte first.
    pub(crate) fn push_to_stack(&mut self, val: u16)
        requires
            old(self).wf(),
        ensures
            final(self)@ == old(self)@.push(val),
            final(self).wf(),
    {
        self.sp = self.sp.wrapping_sub(1);
        self.write_ram(self.sp, (val >> 8u16) as u8);

        self.sp = self.sp.wrapping_sub(1);
        self.write_ram(self.sp, val as u8);
    }

    pub(crate) fn set_register_a(&mut self, value: u8)
        ensures
            final(self)@ == old(self)@.with_a(value),
    {
        self.af = (self.af & 0x00FF) | (value as u16) << 8u16;
    }

    pub(crate) fn set_register_b(&mut self, value: u8)
        ensures
            final(self)@ == (Machine { bc: with_hi_byte(old(self)@.bc, value), ..old(self)@ }),
    {
        self.bc = (self.bc & 0x00FF) | (value as u16) << 8u16;
    }

    pub(crate) fn set_register_c(&mut self, value: u8)
        ensures
            final(self)@ == (Machine { bc: with_lo_byte(old(self)@.bc, value), ..old(self)@ }),
    {
        self.bc = (self.bc & 0xFF00) | value as u16;
    }

    pub(crate) fn set_register_d(&mut self, value: u8)
        ensures
            final(self)@ == (Machine { de: with_hi_byte(old(self)@.de, value), ..old(self)@ }),
    {
        self.de = (self.de & 0x00FF) | (value as u16) << 8u16;
    }

    pub(crate) fn set_register_e(&mut self, value: u8)
        ensures
            final(self)@ == (Machine { de: with_lo_byte(old(self)@.de, value), ..old(self)@ }),
    {
        self.de = (self.de & 0xFF00) | value as u16;
    }

    pub(crate) fn set_register_h(&mut self, value: u8)
        ensures
            final(self)@ == (Machine { hl: with_hi_byte(old(self)@.hl, value), ..old(self)@ }),
    {
        self.hl = (self.hl & 0x00FF) | (value as u16) << 8u16;
    }

    pub(crate) fn set_register_l(&mut self, value: u8)
        ensures
            final(self)@ == (Machine { hl: with_lo_byte(old(self)@.hl, value), ..old(self)@ }),
    {
        self.hl = (self.hl & 0xFF00) | value as u16;
    }

    /// Register A.
    pub fn get_register_a(&self) -> (r: u8)
        ensures
            r == hi_byte(self@.af),
    {
        (self.af >> 8u16) as u8
    }

    /// Register B.
    pub fn get_register_b(&self) -> (r: u8)
        ensures
            r == hi_byte(self@.bc),
    {
        (self.bc >> 8u16) as u8
    }

    /// Register C.
    pub fn get_register_c(&self) -> (r: u8)
        ensures
            r == lo_byte(self@.bc),
    {
        self.bc as u8
    }

    /// Register D.
    pub fn get_register_d(&self) -> (r: u8)
        ensures
            r == hi_byte(self@.de),
    {
        (self.de >> 8u16) as u8
    }

    /// Register E.
    pub fn get_register_e(&self) -> (r: u8)
        ensures
            r == lo_byte(self@.de),
    {
        self.de as u8
    }

    /// Register L.
    pub fn get_register_l(&self) -> (r: u8)
        ensures
            r == lo_byte(self@.hl),
    {
        self.hl as u8
    }

    /// Register H.
    pub fn get_register_h(&self) -> (r: u8)
        ensures
            r == hi_byte(self@.hl),
    {
        (self.hl >> 8u16) as u8
    }

    pub(crate) fn set_zero_flag(&mut self, value: bool)
        ensures
            final(self)@ == old(self)@.with_flag(FLAG_Z, value),
    {
        if value {
            self.af |= 0x0080;
        } else {
            self.af &= !0x0080u16;
        }
    }

    pub(crate) fn set_subtraction_flag(&mut self, value: bool)
        ensures
            final(self)@ == old(self)@.with_flag(FLAG_N, value),
    {
        if value {
            self.af |= 0x0040;
        } else {
            self.af &= !0x0040u16;
        }
    }

    pub(crate) fn set_half_carry_flag(&mut self, value: bool)
        ensures
            final(self)@ == old(self)@.with_flag(FLAG_H, value),
    {
        if value {
            self.af |= 0x0020;
        } else {
            self.af &= !0x0020u16;
        }
    }

    pub(crate) fn set_carry_flag(&mut self, value: bool)
        ensures
            final(self)@ == old(self)@.with_flag(FLAG_C, value),
    {
        if value {
            self.af |= 0x0010;
        } else {
            self.af &= !0x0010u16;
        }
    }

    /// The zero flag.
    pub fn get_zero_flag(&self) -> (r: bool)
        ensures
            r == self@.zf(),
    {
        (self.af & 0x0080) > 0
    }

    /// The half carry flag.
    pub fn get_half_carry_flag(&self) -> (r: bool)
        ensures
            r == self@.hf(),
    {
        (self.af & 0x0020) > 0
    }

    /// The carry flag.
    pub fn get_carry_flag(&self) -> (r: bool)
        ensures
            r == self@.cf(),
    {
        (self.af & 0x0010) > 0
    }

    /// The subtraction flag.
    pub fn get_subtraction_flag(&self) -> (r: bool)
        ensures
            r == self@.nf(),
    {
        (self.af & 0x0040) > 0
    }

    /// Clears interrupt `idx` in both the enable register and the flag register.
    pub(crate) fn clear_interrupt(&mut self, idx: u8)
        requires
            old(self).wf(),
            idx < 8,
        ensures
            final(self)@ == old(self)@.cleared_interrupt(idx),
            final(self).wf(),
    {
        self.interrupt_enable = self.interrupt_enable & !(1u8 << idx);
        let interrupt_flag = self.read_ram(INTERRUPT_FLAG);
        self.write_ram(INTERRUPT_FLAG, interrupt_flag & !(1u8 << idx));
    }

    /// The program counter.
    pub fn program_counter(&self) -> (r: u16)
        ensures
            r == self@.pc,
    {
        self.pc
    }

    /// The stack pointer.
    pub fn stack_pointer(&self) -> (r: u16)
        ensures
            r == self@.sp,
    {
        self.sp
    }

    /// Whether the CPU is halted.
    pub fn is_halted(&self) -> (r: bool)
        ensures
            r == self@.halted,
    {
        self.cpu_halted
    }

    /// The CPU timer.
    pub fn cpu_timer(&self) -> (r: u32)
        ensures
            r == self@.timer,
    {
        self.cpu_timer
    }

    /// Hands the console output produced so far to the caller and forgets it.
    pub fn take_console(&mut self) -> (out: Vec<ConsoleEvent>)
        ensures
            out@ == old(self)@.console,
            final(self)@ == (Machine { console: Seq::empty(), ..old(self)@ }),
    {
        let mut out: Vec<ConsoleEvent> = Vec::new();
        std::mem::swap(&mut out, &mut self.console);
        out
    }
}

} // verus!
