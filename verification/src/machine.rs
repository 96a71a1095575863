//! The mathematical model of the machine: its state, and what a memory access does to it.
use vstd::prelude::*;
use crate::bits::{add16, has_bits, hi_byte, lemma_byte_ranges, lo_byte, sub16, with_bits, with_hi_byte};
use crate::console::ConsoleEvent;
use crate::constants::{DIV_REGISTER, EXT_RAM_SIZE, FLAG_C, FLAG_H, FLAG_N, FLAG_Z, HRAM_SIZE, IO_SIZE, OAM_SIZE, ROM_SIZE, VBK_ADDR, VRAM_SIZE, WRAM_BANK_SELECT, WRAM_SIZE};

verus! {

/// The state of the machine, as the contracts speak of it.
#[verifier::ext_equal]
pub struct Machine {
    pub rom: Seq<u8>,
    pub ext_ram: Seq<u8>,
    pub rom_bank: u8,
    pub ram_bank: u8,
    pub wram: Seq<u8>,
    pub vram: Seq<u8>,
    pub hram: Seq<u8>,
    pub oam: Seq<u8>,
    pub io: Seq<u8>,
    pub af: u16,
    pub bc: u16,
    pub de: u16,
    pub hl: u16,
    pub sp: u16,
    pub pc: u16,
    pub ime: bool,
    pub ie: u8,
    pub ext_ram_enabled: bool,
    pub timer: u32,
    pub halted: bool,
    pub console: Seq<ConsoleEvent>,
}

/// The CPU timer after `n` more machine cycles (it wraps at 2^32).
pub open spec fn add_ticks(t: u32, n: nat) -> u32 {
    ((t + n) % 0x1_0000_0000) as u32
}

/// The number of timer ticks that reading `addr` costs: one for the access, one more where
/// the access first reads a bank register, and one more for the echo area in front.
pub open spec fn read_ticks(addr: u16) -> nat {
    if 0x8000 <= addr <= 0x9fff || 0xd000 <= addr <= 0xdfff {
        2
    } else if 0xe000 <= addr <= 0xefff {
        2
    } else if 0xf000 <= addr <= 0xfdff {
        3
    } else {
        1
    }
}

/// The number of nested reads that an access to `addr` makes (a termination measure).
pub open spec fn read_depth(addr: u16) -> nat {
    if 0xe000 <= addr <= 0xfdff {
        2
    } else if 0x8000 <= addr <= 0x9fff || 0xd000 <= addr <= 0xdfff {
        1
    } else {
        0
    }
}

impl Machine {
    /// The sizes of the memories and the ranges of the bank registers are those the memory map
    /// relies on.
    pub open spec fn wf(self) -> bool {
        &&& self.rom.len() == ROM_SIZE
        &&& self.ext_ram.len() == EXT_RAM_SIZE
        &&& self.wram.len() == WRAM_SIZE
        &&& self.vram.len() == VRAM_SIZE
        &&& self.hram.len() == HRAM_SIZE
        &&& self.oam.len() == OAM_SIZE
        &&& self.io.len() == IO_SIZE
        &&& self.rom_bank <= 0x1F
        &&& self.ram_bank <= 0x03
    }

    /// The state after `n` timer ticks.
    pub open spec fn tick(self, n: nat) -> Machine {
        Machine { timer: add_ticks(self.timer, n), ..self }
    }

    /// The byte that VBK holds.
    pub open spec fn vbk(self) -> u8 {
        self.io[(VBK_ADDR - 0xff00) as int]
    }

    /// The byte that SVBK holds.
    pub open spec fn svbk(self) -> u8 {
        self.io[(WRAM_BANK_SELECT - 0xff00) as int]
    }

    /// Offset of the VRAM bank that reads see: bit 0 of VBK selects bank 1.
    pub open spec fn vram_read_base(self) -> int {
        if self.vbk() & 1 == 1 {
            0x2000
        } else {
            0
        }
    }

    /// The WRAM bank that reads of 0xD000-0xDFFF see: the low three bits of SVBK, 0 meaning 1.
    pub open spec fn wram_read_bank(self) -> int {
        if self.svbk() & 0x07 == 0 {
            1
        } else {
            (self.svbk() & 0x07) as int
        }
    }

    /// The WRAM bank that writes to 0xD000-0xDFFF go to: SVBK shifted right by five, 0 meaning 1.
    pub open spec fn wram_write_bank(self) -> int {
        if self.svbk() >> 5u8 == 0 {
            1
        } else {
            (self.svbk() >> 5u8) as int
        }
    }

    /// The ROM bank that writing `val` to 0x2000-0x3FFF selects: its low five bits, 0 meaning 1.
    pub open spec fn rom_bank_for_write(val: u8) -> u8 {
        if val & 0x1F == 0 {
            1
        } else {
            val & 0x1F
        }
    }

    /// The byte that a read of `addr` returns.
    pub open spec fn read(self, addr: u16) -> u8
        decreases addr,
    {
        if addr <= 0x3fff {
            self.rom[addr as int]
        } else if addr <= 0x7fff {
            self.rom[0x4000 * self.rom_bank + (addr - 0x4000)]
        } else if addr <= 0x9fff {
            self.vram[self.vram_read_base() + (addr - 0x8000)]
        } else if addr <= 0xbfff {
            self.ext_ram[0x2000 * self.ram_bank + (addr - 0xa000)]
        } else if addr <= 0xcfff {
            self.wram[addr - 0xc000]
        } else if addr <= 0xdfff {
            self.wram[0x1000 * self.wram_read_bank() + (addr - 0xd000)]
        } else if addr <= 0xfdff {
            self.read((addr - 0x2000) as u16)
        } else if addr <= 0xfe9f {
            self.oam[addr - 0xfe00]
        } else if addr <= 0xfeff {
            0xFF
        } else if addr <= 0xff7f {
            self.io[addr - 0xff00]
        } else if addr <= 0xfffe {
            self.hram[addr - 0xff80]
        } else {
            self.ie
        }
    }

    /// The state after a read of `addr`: only the timer moves.
    pub open spec fn after_read(self, addr: u16) -> Machine {
        self.tick(read_ticks(addr))
    }

    /// The state after writing `val` to `addr`.
    pub open spec fn write(self, addr: u16, val: u8) -> Machine
        decreases addr,
    {
        let m = self.tick(1);
        if addr <= 0x1fff {
            if val & 0x0F == 0xA {
                Machine { ext_ram_enabled: true, ..m }
            } else {
                m
            }
        } else if addr <= 0x3fff {
            Machine { rom_bank: Self::rom_bank_for_write(val), ..m }
        } else if addr <= 0x5fff {
            Machine { ram_bank: 0x03 & val, ..m }
        } else if addr <= 0x7fff {
            m
        } else if addr <= 0x9fff {
            let off = addr - 0x8000;
            let both = if m.vbk() & 1 == 0 {
                m.vram.update(0x2000 + off, val)
            } else {
                m.vram
            };
            Machine { vram: both.update(off, val), ..m.tick(1) }
        } else if addr <= 0xbfff {
            Machine { ext_ram: m.ext_ram.update(addr - 0xa000, val), ..m }
        } else if addr <= 0xcfff {
            Machine { wram: m.wram.update(addr - 0xc000, val), ..m }
        } else if addr <= 0xdfff {
            Machine { wram: m.wram.update(0x1000 * m.wram_write_bank() + (addr - 0xd000), val), ..m }
        } else if addr <= 0xfdff {
            m.write((addr - 0x2000) as u16, val)
        } else if addr <= 0xfe9f {
            Machine { oam: m.oam.update(addr - 0xfe00, val), ..m }
        } else if addr <= 0xfeff {
            m
        } else if addr <= 0xff7f {
            let m2 = if addr == 0xFF02 && val == 0x81 {
                Machine {
                    console: m.console.push(ConsoleEvent::Serial(m.io[1])),
                    ..m.tick(1)
                }
            } else {
                m
            };
            Machine { io: m2.io.update(addr - 0xff00, val), ..m2 }
        } else if addr <= 0xfffe {
            Machine { hram: m.hram.update(addr - 0xff80, val), ..m }
        } else {
            Machine { ie: val, ..m }
        }
    }

    /// Register A.
    pub open spec fn a(self) -> u8 {
        hi_byte(self.af)
    }

    /// The zero flag.
    pub open spec fn zf(self) -> bool {
        has_bits(self.af, FLAG_Z)
    }

    /// The subtraction flag.
    pub open spec fn nf(self) -> bool {
        has_bits(self.af, FLAG_N)
    }

    /// The half carry flag.
    pub open spec fn hf(self) -> bool {
        has_bits(self.af, FLAG_H)
    }

    /// The carry flag.
    pub open spec fn cf(self) -> bool {
        has_bits(self.af, FLAG_C)
    }

    /// The state with AF replaced.
    pub open spec fn with_af(self, af: u16) -> Machine {
        Machine { af, ..self }
    }

    /// The state with one flag set or cleared.
    pub open spec fn with_flag(self, mask: u16, on: bool) -> Machine {
        Machine { af: with_bits(self.af, mask, on), ..self }
    }

    /// The state with register A replaced.
    pub open spec fn with_a(self, v: u8) -> Machine {
        Machine { af: with_hi_byte(self.af, v), ..self }
    }

    /// The state after fetching the byte at PC: PC moves on by one.
    pub open spec fn fetch8(self) -> (Machine, u8) {
        (Machine { pc: add16(self.pc, 1), ..self.after_read(self.pc) }, self.read(self.pc))
    }

    /// The state after fetching a little-endian word at PC, and that word.
    pub open spec fn fetch16(self) -> (Machine, u16) {
        let (m1, lo) = self.fetch8();
        let (m2, hi) = m1.fetch8();
        (m2, (lo as u16) | ((hi as u16) << 8u16))
    }

    /// The state after popping a word off the stack, and that word.
    pub open spec fn pop(self) -> (Machine, u16) {
        let lo = self.read(self.sp);
        let m1 = Machine { sp: add16(self.sp, 1), ..self.after_read(self.sp) };
        let hi = m1.read(m1.sp);
        let m2 = Machine { sp: add16(m1.sp, 1), ..m1.after_read(m1.sp) };
        (m2, (lo as u16) | ((hi as u16) << 8u16))
    }

    /// The state after pushing a word: the high byte goes below SP, then the low byte below it.
    pub open spec fn push(self, val: u16) -> Machine {
        let m1 = Machine { sp: sub16(self.sp, 1), ..self }.write(sub16(self.sp, 1), hi_byte(val));
        let m2 = Machine { sp: sub16(m1.sp, 1), ..m1 };
        m2.write(m2.sp, lo_byte(val))
    }

    /// The state after the DIV register is refreshed from the CPU timer.
    pub open spec fn update_div(self) -> Machine {
        Machine {
            io: self.io.update((DIV_REGISTER - 0xff00) as int, (self.timer / 128) as u8),
            ..self
        }
    }
}


/// A sequence of `n` zero bytes.
pub open spec fn zeros(n: nat) -> Seq<u8> {
    Seq::new(n, |i: int| 0u8)
}

/// The state right after power-on with `rom` in the cartridge.
pub open spec fn power_on(rom: Seq<u8>) -> Machine {
    Machine {
        rom: rom + zeros((ROM_SIZE - rom.len()) as nat),
        ext_ram: zeros(EXT_RAM_SIZE as nat),
        rom_bank: 1,
        ram_bank: 0,
        wram: zeros(WRAM_SIZE as nat),
        vram: zeros(VRAM_SIZE as nat),
        hram: zeros(HRAM_SIZE as nat),
        oam: zeros(OAM_SIZE as nat),
        io: zeros(IO_SIZE as nat),
        af: 0x01B0,
        bc: 0x0013,
        de: 0x00D8,
        hl: 0x014D,
        sp: 0xFFFE,
        pc: 0x3FF0,
        ime: false,
        ie: 0,
        ext_ram_enabled: false,
        timer: 0,
        halted: false,
        console: Seq::empty(),
    }
}

/// A write keeps the machine well formed.
pub proof fn lemma_write_wf(m: Machine, addr: u16, val: u8)
    requires
        m.wf(),
    ensures
        m.write(addr, val).wf(),
    decreases addr,
{
    lemma_byte_ranges();
    assert(0x03 & val == val & 0x03) by (bit_vector);
    if 0xe000 <= addr <= 0xfdff {
        lemma_write_wf(m.tick(1), (addr - 0x2000) as u16, val);
    }
}

/// Ticks add up: the timer after `a` then `b` ticks is the timer after `a + b` ticks.
pub proof fn lemma_tick_tick(m: Machine, a: nat, b: nat)
    ensures
        m.tick(a).tick(b) == m.tick(a + b),
{
    let big: int = 0x1_0000_0000;
    vstd::arithmetic::div_mod::lemma_add_mod_noop_right(b as int, m.timer + a, big);
    assert(m.tick(a).tick(b) =~= m.tick(a + b));
}

/// Two states hold the same memory and bank registers.
pub open spec fn same_memory(a: Machine, b: Machine) -> bool {
    &&& a.rom == b.rom
    &&& a.ext_ram == b.ext_ram
    &&& a.rom_bank == b.rom_bank
    &&& a.ram_bank == b.ram_bank
    &&& a.wram == b.wram
    &&& a.vram == b.vram
    &&& a.hram == b.hram
    &&& a.oam == b.oam
    &&& a.io == b.io
    &&& a.ie == b.ie
}

/// What a read returns depends only on the memory and the bank registers.
pub proof fn lemma_read_same_memory(a: Machine, b: Machine, addr: u16)
    requires
        same_memory(a, b),
    ensures
        a.read(addr) == b.read(addr),
    decreases addr,
{
    if 0xe000 <= addr <= 0xfdff {
        lemma_read_same_memory(a, b, (addr - 0x2000) as u16);
    }
}

/// What a read returns does not depend on the timer.
pub proof fn lemma_read_tick(m: Machine, n: nat, addr: u16)
    ensures
        m.tick(n).read(addr) == m.read(addr),
    decreases addr,
{
    if 0xe000 <= addr <= 0xfdff {
        lemma_read_tick(m, n, (addr - 0x2000) as u16);
    }
}

} // verus!
