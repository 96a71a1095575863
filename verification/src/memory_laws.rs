//! What the memory map does, stated in arithmetic over the bank registers and memories.
use vstd::prelude::*;
use crate::bits::{lemma_masks_as_arithmetic, lemma_word_masks_as_arithmetic};
use crate::console::ConsoleEvent;
use crate::machine::{read_ticks, Machine};

verus! {

/// Writing `v` to 0x2000-0x3FFF selects ROM bank `v % 32` (bank 0 meaning bank 1) for
/// 0x4000-0x7FFF; 0x0000-0x3FFF always shows the start of the ROM.
pub proof fn law_rom_bank_select(m: Machine, addr: u16, v: u8, k: u16)
    requires
        m.wf(),
        0x2000 <= addr <= 0x3fff,
        k < 0x4000,
    ensures
        ({
            let b: int = if v % 32 == 0 { 1 } else { (v % 32) as int };
            &&& m.write(addr, v).read((0x4000 + k) as u16) == m.rom[0x4000 * b + k]
            &&& m.write(addr, v).read(k) == m.rom[k as int]
            &&& m.write(addr, v).wf()
        }),
{
    lemma_masks_as_arithmetic();
    crate::machine::lemma_write_wf(m, addr, v);
}

/// Writing `v` to 0x4000-0x5FFF selects cartridge RAM bank `v % 4` for reads of
/// 0xA000-0xBFFF; writing a value whose low digit is 0xA to 0x0000-0x1FFF enables the
/// cartridge RAM, other values leave that setting.
pub proof fn law_ram_bank_select(m: Machine, addr: u16, v: u8, k: u16)
    requires
        m.wf(),
        k < 0x2000,
    ensures
        0x4000 <= addr <= 0x5fff ==> m.write(addr, v).read((0xa000 + k) as u16) == m.ext_ram[
        0x2000 * (v % 4) + k],
        addr <= 0x1fff ==> m.write(addr, v).ext_ram_enabled == (m.ext_ram_enabled || v % 16
            == 10),
{
    lemma_masks_as_arithmetic();
    crate::bits::lemma_low_nibble();
}

/// Reads of the banked areas: VRAM shows bank `VBK % 2`; 0xD000-0xDFFF shows WRAM bank
/// `SVBK % 8` (0 meaning 1); cartridge RAM shows the selected bank; 0xFEA0-0xFEFF reads as
/// 0xFF; ROM bank 0, WRAM bank 0, OAM, the I/O registers, high RAM and IE read as they are.
pub proof fn law_read_map(m: Machine, addr: u16)
    requires
        m.wf(),
    ensures
        ({
            let a = addr as int;
            let wb: int = if m.svbk() % 8 == 0 { 1 } else { (m.svbk() % 8) as int };
            &&& a < 0x4000 ==> m.read(addr) == m.rom[a]
            &&& 0x4000 <= a < 0x8000 ==> m.read(addr) == m.rom[0x4000 * m.rom_bank + a - 0x4000]
            &&& 0x8000 <= a < 0xa000 ==> m.read(addr) == m.vram[0x2000 * (m.vbk() % 2) + a
                - 0x8000]
            &&& 0xa000 <= a < 0xc000 ==> m.read(addr) == m.ext_ram[0x2000 * m.ram_bank + a
                - 0xa000]
            &&& 0xc000 <= a < 0xd000 ==> m.read(addr) == m.wram[a - 0xc000]
            &&& 0xd000 <= a < 0xe000 ==> m.read(addr) == m.wram[0x1000 * wb + a - 0xd000]
            &&& 0xe000 <= a < 0xfe00 ==> m.read(addr) == m.read((a - 0x2000) as u16)
            &&& 0xfe00 <= a < 0xfea0 ==> m.read(addr) == m.oam[a - 0xfe00]
            &&& 0xfea0 <= a < 0xff00 ==> m.read(addr) == 0xFF
            &&& 0xff00 <= a < 0xff80 ==> m.read(addr) == m.io[a - 0xff00]
            &&& 0xff80 <= a < 0xffff ==> m.read(addr) == m.hram[a - 0xff80]
            &&& a == 0xffff ==> m.read(addr) == m.ie
        }),
{
    lemma_masks_as_arithmetic();
    crate::bits::lemma_byte_ranges();
}

/// Writes to the banked areas: a VRAM write goes to bank 0, and to bank 1 as well while
/// `VBK % 2 == 0`; a write to 0xD000-0xDFFF goes to WRAM bank `SVBK / 32` (0 meaning 1); a
/// write to 0xA000-0xBFFF goes to cartridge RAM bank 0.
pub proof fn law_write_map(m: Machine, addr: u16, v: u8)
    requires
        m.wf(),
    ensures
        ({
            let a = addr as int;
            let w = m.write(addr, v);
            let wb: int = if m.svbk() / 32 == 0 { 1 } else { (m.svbk() / 32) as int };
            &&& 0x8000 <= a < 0xa000 ==> w.vram[a - 0x8000] == v && (m.vbk() % 2 == 0 ==> w.vram[
            a - 0x8000 + 0x2000] == v) && (m.vbk() % 2 == 1 ==> w.vram[a - 0x8000 + 0x2000]
                == m.vram[a - 0x8000 + 0x2000])
            &&& 0xa000 <= a < 0xc000 ==> w.ext_ram == m.ext_ram.update(a - 0xa000, v)
            &&& 0xc000 <= a < 0xd000 ==> w.wram == m.wram.update(a - 0xc000, v)
            &&& 0xd000 <= a < 0xe000 ==> w.wram == m.wram.update(0x1000 * wb + a - 0xd000, v)
            &&& 0xe000 <= a < 0xfe00 ==> w == m.tick(1).write((a - 0x2000) as u16, v)
            &&& 0xfe00 <= a < 0xfea0 ==> w.oam == m.oam.update(a - 0xfe00, v)
            &&& 0xff00 <= a < 0xff80 ==> w.io == m.io.update(a - 0xff00, v)
            &&& 0xff80 <= a < 0xffff ==> w.hram == m.hram.update(a - 0xff80, v)
            &&& a == 0xffff ==> w.ie == v
        }),
{
    lemma_masks_as_arithmetic();
    crate::bits::lemma_byte_ranges();
}

/// Writing 0x81 to 0xFF02 sends the byte in 0xFF01 to the console; any other write adds
/// nothing to it.
pub proof fn law_serial_output(m: Machine, addr: u16, v: u8)
    requires
        m.wf(),
    ensures
        addr == 0xFF02 && v == 0x81 ==> m.write(addr, v).console == m.console.push(
            ConsoleEvent::Serial(m.io[1]),
        ),
        !(addr == 0xFF02 && v == 0x81) ==> m.write(addr, v).console == m.console,
    decreases addr,
{
    if 0xe000 <= addr <= 0xfdff {
        law_serial_output(m.tick(1), (addr - 0x2000) as u16, v);
    }
}

/// Each access ticks the CPU timer: a read by `read_ticks` (one, two for VRAM and the
/// switchable WRAM, one more through the echo area), a write by one, plus one for VRAM, plus
/// one for a serial transfer, plus one through the echo area.
pub proof fn law_access_ticks(m: Machine, addr: u16, v: u8)
    ensures
        m.after_read(addr).timer == (m.timer + read_ticks(addr)) % 0x1_0000_0000,
        ({
            let a = addr as int;
            let base = if 0xe000 <= a < 0xfe00 { a - 0x2000 } else { a };
            let n = 1 + (if 0xe000 <= a < 0xfe00 { 1int } else { 0 }) + (if 0x8000 <= base
                < 0xa000 { 1int } else { 0 }) + (if base == 0xFF02 && v == 0x81 { 1int } else {
                0
            });
            m.write(addr, v).timer == (m.timer + n) % 0x1_0000_0000
        }),
    decreases addr,
{
    crate::machine::lemma_tick_tick(m, 1, 1);
    if 0xe000 <= addr <= 0xfdff {
        law_access_ticks(m.tick(1), (addr - 0x2000) as u16, v);
        crate::machine::lemma_tick_tick(m, 1, 2);
        crate::machine::lemma_tick_tick(m, 1, 1);
    }
}

} // verus!
