//! Properties of the machine that hold across its operations.
use vstd::prelude::*;
use crate::bits::{add16, add8, bit_of, hi_byte, lemma_flag_bits, lemma_hi_keeps_flags, lemma_low_nibble, lemma_pair_bytes, lemma_word_bytes, lo_byte, sub16, sub8};
use crate::constants::{FLAG_C, FLAG_H, FLAG_N, FLAG_Z, INTERRUPT_FLAG};
use crate::machine::{lemma_read_tick, lemma_write_wf, Machine};
use crate::semantics::{alu_carry, alu_half, alu_sub, alu_value};

verus! {

/// Whether a write to `addr` is seen by a following read of `addr`: true of work RAM bank 0,
/// OAM, the I/O registers, high RAM and IE; of VRAM when VBK selects bank 0 (writes then go to
/// both banks); of cartridge RAM when bank 0 is selected (writes always go to bank 0); of the
/// switchable WRAM area when SVBK selects the same bank for reads (low three bits) and writes
/// (bits 7-5); and of the echo area when it holds for the mirrored address.
pub open spec fn reads_back(m: Machine, addr: u16) -> bool
    decreases addr,
{
    if 0x8000 <= addr <= 0x9fff {
        m.vbk() & 1 == 0
    } else if 0xa000 <= addr <= 0xbfff {
        m.ram_bank == 0
    } else if 0xc000 <= addr <= 0xcfff {
        true
    } else if 0xd000 <= addr <= 0xdfff {
        m.wram_read_bank() == m.wram_write_bank()
    } else if 0xe000 <= addr <= 0xfdff {
        reads_back(m, (addr - 0x2000) as u16)
    } else if 0xfe00 <= addr <= 0xfe9f {
        true
    } else {
        addr >= 0xff00
    }
}

/// Work RAM bank 0 and high RAM: cells that one address each reaches, with no bank register.
pub open spec fn simple_ram(addr: u16) -> bool {
    0xc000 <= addr <= 0xcfff || 0xff80 <= addr <= 0xfffe
}

/// A read gives back what a write to the same address wrote, wherever `reads_back` holds.
pub proof fn law_read_after_write(m: Machine, addr: u16, val: u8)
    requires
        m.wf(),
        reads_back(m, addr),
    ensures
        m.write(addr, val).read(addr) == val,
    decreases addr,
{
    let w = m.write(addr, val);
    if 0xe000 <= addr <= 0xfdff {
        let a2 = (addr - 0x2000) as u16;
        lemma_reads_back_tick(m, 1, a2);
        law_read_after_write(m.tick(1), a2, val);
    } else if 0x8000 <= addr <= 0x9fff {
        assert(w.vbk() == m.vbk());
        assert(w.read(addr) == val);
    } else if 0xa000 <= addr <= 0xbfff {
        assert(w.read(addr) == val);
    } else if 0xc000 <= addr <= 0xcfff {
        assert(w.read(addr) == val);
    } else if 0xd000 <= addr <= 0xdfff {
        crate::bits::lemma_byte_ranges();
        assert(w.svbk() == m.svbk());
        let idx = 0x1000 * m.wram_write_bank() + (addr - 0xd000);
        assert(0 <= idx < m.wram.len());
        assert(w.wram == m.wram.update(idx, val));
        assert(w.read(addr) == w.wram[idx]);
    } else if 0xfe00 <= addr <= 0xfe9f {
        assert(w.read(addr) == val);
    } else if 0xff00 <= addr <= 0xff7f {
        assert(w.read(addr) == val);
    } else if 0xff80 <= addr <= 0xfffe {
        assert(w.read(addr) == val);
    } else {
        assert(w.read(addr) == val);
    }
}

/// Whether a write reads back does not depend on the timer.
pub proof fn lemma_reads_back_tick(m: Machine, n: nat, addr: u16)
    ensures
        reads_back(m.tick(n), addr) == reads_back(m, addr),
    decreases addr,
{
    if 0xe000 <= addr <= 0xfdff {
        lemma_reads_back_tick(m, n, (addr - 0x2000) as u16);
    }
}

/// Writes to the ROM area switch banks or enable cartridge RAM, but never change the ROM.
pub proof fn law_rom_is_read_only(m: Machine, addr: u16, val: u8)
    requires
        addr <= 0x7fff,
    ensures
        m.write(addr, val).rom == m.rom,
{
}

/// A write to one work RAM bank 0 or high RAM cell leaves every other such cell.
pub proof fn law_write_keeps_other_cell(m: Machine, addr: u16, other: u16, val: u8)
    requires
        m.wf(),
        simple_ram(addr),
        simple_ram(other),
        addr != other,
    ensures
        m.write(addr, val).read(other) == m.read(other),
{
}

/// The echo area 0xE000-0xFDFF reads as 0xC000-0xDDFF.
pub proof fn law_echo_mirror(m: Machine, addr: u16)
    requires
        0xe000 <= addr <= 0xfdff,
    ensures
        m.read(addr) == m.read((addr - 0x2000) as u16),
        m.after_read(addr) == m.tick(1).after_read((addr - 0x2000) as u16),
{
    crate::machine::lemma_tick_tick(m, 1, crate::machine::read_ticks((addr - 0x2000) as u16));
}

/// Popping a word that was just pushed gives it back and restores SP, when both stack cells
/// lie in work RAM bank 0 or high RAM.
pub proof fn law_push_then_pop(m: Machine, v: u16)
    requires
        m.wf(),
        simple_ram(sub16(m.sp, 1)),
        simple_ram(sub16(sub16(m.sp, 1), 1)),
    ensures
        m.push(v).pop().1 == v,
        m.push(v).pop().0.sp == m.sp,
{
    let s1 = sub16(m.sp, 1);
    let s2 = sub16(s1, 1);
    let m1 = Machine { sp: s1, ..m }.write(s1, hi_byte(v));
    let m2 = Machine { sp: s2, ..m1 };
    let m3 = m2.write(s2, lo_byte(v));
    assert(m.push(v) == m3);
    law_read_after_write(Machine { sp: s1, ..m }, s1, hi_byte(v));
    crate::machine::lemma_write_wf(Machine { sp: s1, ..m }, s1, hi_byte(v));
    law_read_after_write(m2, s2, lo_byte(v));
    law_write_keeps_other_cell(m2, s2, s1, lo_byte(v));
    let m4 = Machine { sp: add16(m3.sp, 1), ..m3.after_read(m3.sp) };
    lemma_read_tick(m3, crate::machine::read_ticks(m3.sp), s1);
    assert(m4.read(m4.sp) == hi_byte(v));
    lemma_word_bytes(v, 0, 0);
}

/// A fetched word is little-endian: the byte at PC is its low byte, the next its high byte.
pub proof fn law_fetch16_little_endian(m: Machine)
    ensures
        m.fetch16().1 == m.fetch8().1 + 256 * m.fetch8().0.fetch8().1,
        m.fetch16().0.pc == add16(add16(m.pc, 1), 1),
{
    lemma_word_bytes(0, m.fetch8().1, m.fetch8().0.fetch8().1);
}

/// Setting or clearing a flag reads back, and leaves register A and the other flags.
pub proof fn law_flag_set_get(m: Machine, on: bool)
    ensures
        m.with_flag(FLAG_Z, on).zf() == on,
        m.with_flag(FLAG_N, on).nf() == on,
        m.with_flag(FLAG_H, on).hf() == on,
        m.with_flag(FLAG_C, on).cf() == on,
        m.with_flag(FLAG_Z, on).a() == m.a(),
        m.with_flag(FLAG_N, on).a() == m.a(),
        m.with_flag(FLAG_H, on).a() == m.a(),
        m.with_flag(FLAG_C, on).a() == m.a(),
        m.with_flag(FLAG_Z, on).nf() == m.nf() && m.with_flag(FLAG_Z, on).hf() == m.hf()
            && m.with_flag(FLAG_Z, on).cf() == m.cf(),
        m.with_flag(FLAG_N, on).zf() == m.zf() && m.with_flag(FLAG_N, on).hf() == m.hf()
            && m.with_flag(FLAG_N, on).cf() == m.cf(),
        m.with_flag(FLAG_H, on).zf() == m.zf() && m.with_flag(FLAG_H, on).nf() == m.nf()
            && m.with_flag(FLAG_H, on).cf() == m.cf(),
        m.with_flag(FLAG_C, on).zf() == m.zf() && m.with_flag(FLAG_C, on).nf() == m.nf()
            && m.with_flag(FLAG_C, on).hf() == m.hf(),
{
    lemma_flag_bits(m.af, on);
}

/// Writing an 8-bit register reads back and leaves the other registers and the flags; for A
/// the flags stay too.
pub proof fn law_register_set_get(m: Machine, r: u8, other: u8, v: u8)
    requires
        r < 8,
        r != 6,
        other < 8,
        other != 6,
        r != other,
    ensures
        m.set_r8(r, v).r8(r).1 == v,
        m.set_r8(r, v).r8(other).1 == m.r8(other).1,
        m.set_r8(r, v).zf() == m.zf(),
        m.set_r8(r, v).nf() == m.nf(),
        m.set_r8(r, v).hf() == m.hf(),
        m.set_r8(r, v).cf() == m.cf(),
{
    lemma_pair_bytes(m.bc, v);
    lemma_pair_bytes(m.de, v);
    lemma_pair_bytes(m.hl, v);
    lemma_pair_bytes(m.af, v);
    lemma_hi_keeps_flags(m.af, v);
}

/// The flags and A after an ALU operation are the result, half carry, carry and subtraction
/// bit of `alu_value`, `alu_half`, `alu_carry` and `alu_sub`.
proof fn lemma_alu_state(m: Machine, y: u8, v: u8)
    requires
        y < 8,
    ensures
        ({
            let c = bit_of(m.cf());
            let r = m.alu(y, v);
            &&& y != 7 ==> r.a() == alu_value(y, m.a(), v, c) && r.zf() == (r.a() == 0)
            &&& y == 7 ==> r.a() == m.a() && r.zf() == (alu_value(y, m.a(), v, c) == 0)
            &&& r.nf() == alu_sub(y)
            &&& r.hf() == alu_half(y, m.a(), v, c)
            &&& r.cf() == alu_carry(y, m.a(), v, c)
        }),
{
    let c = bit_of(m.cf());
    let a = m.a();
    let res = alu_value(y, a, v, c);
    if y == 7 {
        let n1 = m.with_flag(FLAG_Z, res == 0);
        let n2 = n1.with_flag(FLAG_N, true);
        let n3 = n2.with_flag(FLAG_H, alu_half(y, a, v, c));
        lemma_flag_bits(m.af, res == 0);
        lemma_flag_bits(n1.af, true);
        lemma_flag_bits(n2.af, alu_half(y, a, v, c));
        lemma_flag_bits(n3.af, alu_carry(y, a, v, c));
    } else {
        let m1 = m.with_flag(FLAG_N, alu_sub(y));
        let m2 = m1.with_flag(FLAG_H, alu_half(y, a, v, c));
        let m3 = m2.with_flag(FLAG_C, alu_carry(y, a, v, c));
        let m4 = m3.with_a(res);
        lemma_flag_bits(m.af, alu_sub(y));
        lemma_flag_bits(m1.af, alu_half(y, a, v, c));
        lemma_flag_bits(m2.af, alu_carry(y, a, v, c));
        lemma_pair_bytes(m3.af, res);
        lemma_hi_keeps_flags(m3.af, res);
        lemma_flag_bits(m4.af, res == 0);
    }
}

/// The ALU's add and subtract operations in arithmetic terms.
proof fn lemma_alu_values(y: u8, a: u8, v: u8, c: u8)
    requires
        c <= 1,
    ensures
        y == 0 ==> alu_value(y, a, v, c) == (a + v) % 256 && alu_carry(y, a, v, c) == (a + v
            > 255) && alu_half(y, a, v, c) == (a % 16 + v % 16 > 15),
        y == 1 ==> alu_value(y, a, v, c) == (a + v + c) % 256 && alu_carry(y, a, v, c) == (a + v
            + c > 255) && alu_half(y, a, v, c) == (a % 16 + v % 16 + c > 15),
        y == 2 || y == 7 ==> alu_value(y, a, v, c) == (a - v + 256) % 256 && alu_carry(y, a, v, c)
            == (a < v) && alu_half(y, a, v, c) == (a % 16 < v % 16),
        y == 3 ==> alu_value(y, a, v, c) == (a - v - c + 512) % 256 && alu_carry(y, a, v, c) == (a
            < v + c) && alu_half(y, a, v, c) == (a % 16 < v % 16 + c),
{
    lemma_low_nibble();
}

/// What the ALU computes, in arithmetic: add and adc give `A + v (+ carry)` modulo 256 with
/// the carry out of bit 7 and of bit 3; sub, sbc and cp give `A - v (- carry)` modulo 256
/// with the borrows; and, xor, or give the bitwise results with their fixed flags; cp leaves
/// A. In every case but cp, Z tells whether the new A is zero.
pub proof fn law_alu_arithmetic(m: Machine, y: u8, v: u8)
    requires
        y < 8,
    ensures
        ({
            let c: int = if m.cf() { 1 } else { 0 };
            let r = m.alu(y, v);
            let a = m.a();
            &&& y == 0 ==> r.a() == (a + v) % 256 && r.cf() == (a + v > 255) && r.hf() == (a % 16
                + v % 16 > 15) && !r.nf()
            &&& y == 1 ==> r.a() == (a + v + c) % 256 && r.cf() == (a + v + c > 255) && r.hf() == (
            a % 16 + v % 16 + c > 15) && !r.nf()
            &&& y == 2 ==> r.a() == (a - v + 256) % 256 && r.cf() == (a < v) && r.hf() == (a % 16
                < v % 16) && r.nf()
            &&& y == 3 ==> r.a() == (a - v - c + 512) % 256 && r.cf() == (a < v + c) && r.hf() == (
            a % 16 < v % 16 + c) && r.nf()
            &&& y == 4 ==> r.a() == v & a && r.hf() && !r.cf() && !r.nf()
            &&& y == 5 ==> r.a() == v ^ a && !r.hf() && !r.cf() && !r.nf()
            &&& y == 6 ==> r.a() == v | a && !r.hf() && !r.cf() && !r.nf()
            &&& y == 7 ==> r.a() == a && r.zf() == (a == v) && r.cf() == (a < v) && r.hf() == (a
                % 16 < v % 16) && r.nf()
            &&& y != 7 ==> r.zf() == (r.a() == 0)
        }),
{
    lemma_alu_state(m, y, v);
    lemma_alu_values(y, m.a(), v, bit_of(m.cf()));
}

/// A halted CPU that does not wake up executes nothing: one turn of the loop only reads IF.
pub proof fn law_halted_waits(m: Machine)
    requires
        m.halted,
        !m.wakes(),
    ensures
        m.step() == m.after_read(INTERRUPT_FLAG),
{
}

/// A write changes no CPU register.
pub broadcast proof fn lemma_write_keeps_registers(m: Machine, addr: u16, val: u8)
    ensures
        (#[trigger] m.write(addr, val)).af == m.af,
        m.write(addr, val).bc == m.bc,
        m.write(addr, val).de == m.de,
        m.write(addr, val).hl == m.hl,
        m.write(addr, val).sp == m.sp,
        m.write(addr, val).pc == m.pc,
    decreases addr,
{
    if 0xe000 <= addr <= 0xfdff {
        lemma_write_keeps_registers(m.tick(1), (addr - 0x2000) as u16, val);
    }
}

/// Setting or clearing a flag leaves the low nibble of F.
pub broadcast proof fn lemma_flag_keeps_nibble(x: u16, mask: u16, on: bool)
    requires
        mask == FLAG_Z || mask == FLAG_N || mask == FLAG_H || mask == FLAG_C,
    ensures
        #[trigger] crate::bits::with_bits(x, mask, on) & 0x0F == x & 0x0F,
{
    lemma_flag_bits(x, on);
}

/// Replacing A leaves the low nibble of F.
pub broadcast proof fn lemma_a_keeps_nibble(x: u16, v: u8)
    ensures
        #[trigger] crate::bits::with_hi_byte(x, v) & 0x0F == x & 0x0F,
{
    lemma_pair_bytes(x, v);
}

/// The low nibble of F is zero.
pub open spec fn f_nibble_clear(af: u16) -> bool {
    af & 0x0F == 0
}

proof fn lemma_nib_r8(m: Machine, r: u8, v: u8)
    requires
        f_nibble_clear(m.af),
        r < 8,
    ensures
        m.r8(r).0.af == m.af,
        f_nibble_clear(m.set_r8(r, v).af),
{
    broadcast use {lemma_write_keeps_registers, lemma_a_keeps_nibble};
}

proof fn lemma_nib_alu(m: Machine, y: u8, v: u8)
    requires
        f_nibble_clear(m.af),
    ensures
        f_nibble_clear(m.alu(y, v).af),
{
    broadcast use {lemma_flag_keeps_nibble, lemma_a_keeps_nibble};
}

proof fn lemma_nib_cb(m: Machine, op: u8)
    requires
        f_nibble_clear(m.af),
    ensures
        f_nibble_clear(m.cb(op).af),
{
    broadcast use {lemma_flag_keeps_nibble};
    crate::bits::lemma_byte_ranges();
    let z = crate::semantics::op_z(op);
    let (m1, r) = m.r8(z);
    lemma_nib_r8(m, z, 0);
    let (m2, r2) = m1.r8(z);
    lemma_nib_r8(m1, z, 0);
    let y = crate::semantics::op_y(op);
    let res = crate::semantics::cb_shift_value(y, r, bit_of(m1.cf()));
    let m3 = m1.with_flag(FLAG_N, false).with_flag(FLAG_H, false).with_flag(
        FLAG_C,
        crate::semantics::cb_shift_carry(y, r),
    ).with_flag(FLAG_Z, res == 0);
    lemma_nib_r8(m3, z, res);
    lemma_nib_r8(m1, z, r & !(1u8 << y));
    lemma_nib_r8(m1, z, r | (1u8 << y));
}

proof fn lemma_nib_x0(m: Machine, y: u8, z: u8)
    requires
        f_nibble_clear(m.af),
        y < 8,
        z < 8,
    ensures
        f_nibble_clear(m.op_x0(y, z).af),
{
    broadcast use {lemma_write_keeps_registers, lemma_flag_keeps_nibble, lemma_a_keeps_nibble};
    crate::bits::lemma_byte_ranges();
    if z == 4 || z == 5 {
        let (m1, r) = m.r8(y);
        lemma_nib_r8(m, y, 0);
        let m2 = m1.with_flag(FLAG_Z, add8(r, 1) == 0).with_flag(FLAG_N, false).with_flag(
            FLAG_H,
            r & 0x0F == 0x0F,
        );
        lemma_nib_r8(m2, y, add8(r, 1));
        let m3 = m1.with_flag(FLAG_Z, sub8(r, 1) == 0).with_flag(FLAG_N, true).with_flag(
            FLAG_H,
            r & 0x0F == 0,
        );
        lemma_nib_r8(m3, y, sub8(r, 1));
    } else if z == 6 {
        let (m1, v) = m.fetch8();
        lemma_nib_r8(m1, y, v);
    } else if z == 1 {
        let (m1, v) = m.fetch16();
        assert(f_nibble_clear(m1.with_r16(y, v).af));
    }
}

proof fn lemma_nib_x3(m: Machine, y: u8, z: u8)
    requires
        f_nibble_clear(m.af),
        y < 8,
        z < 8,
    ensures
        f_nibble_clear(m.op_x3(y, z).af),
{
    broadcast use {lemma_write_keeps_registers, lemma_flag_keeps_nibble, lemma_a_keeps_nibble};
    crate::bits::lemma_byte_ranges();
    assert(forall|v: u16| #[trigger] (v & 0xFFF0) & 0x0F == 0) by (bit_vector);
    if z == 6 {
        let (m1, v) = m.fetch8();
        lemma_nib_alu(m1, y, v);
    } else if z == 3 && y == 1 {
        let (m1, op) = m.fetch8();
        lemma_nib_cb(m1, op);
    } else if z == 1 && y & 1 == 0 {
        let (m1, v) = m.pop();
        assert(m1.af == m.af);
        if y == 6 {
            assert((v & 0xFFF0) & 0x0F == 0);
            assert(m.op_x3_z1(y).af == v & 0xFFF0);
        } else {
            assert(y >> 1u8 != 3);
            assert(m1.with_r16stk(y, v).af == m.af);
        }
    }
}

/// The low four bits of F always read as zero: no instruction sets them, and popping AF
/// clears them.
pub proof fn law_f_low_nibble_stays_zero(m: Machine)
    requires
        f_nibble_clear(m.af),
    ensures
        f_nibble_clear(m.execute().af),
        f_nibble_clear(m.step().af),
{
    crate::bits::lemma_byte_ranges();
    let (m1, op) = m.fetch8();
    let y = crate::semantics::op_y(op);
    let z = crate::semantics::op_z(op);
    lemma_nib_x0(m1, y, z);
    lemma_nib_x3(m1, y, z);
    lemma_nib_r8(m1, y, 0);
    let (m2, v) = m1.r8(z);
    lemma_nib_r8(m1, z, 0);
    lemma_nib_r8(m2, y, v);
    lemma_nib_alu(m2, y, v);
    let m3 = if m.halted {
        let mm = m.after_read(INTERRUPT_FLAG);
        if m.wakes() {
            Machine { halted: false, ..mm }
        } else {
            mm
        }
    } else {
        m
    };
    let (n1, op2) = m3.fetch8();
    let y2 = crate::semantics::op_y(op2);
    let z2 = crate::semantics::op_z(op2);
    lemma_nib_x0(n1, y2, z2);
    lemma_nib_x3(n1, y2, z2);
    lemma_nib_r8(n1, y2, 0);
    let (n2, v2) = n1.r8(z2);
    lemma_nib_r8(n1, z2, 0);
    lemma_nib_r8(n2, y2, v2);
    lemma_nib_alu(n2, y2, v2);
}


/// A relative jump's offset byte is read as a signed number: bytes from 0x80 up count back.
pub proof fn law_sign_extend(v: u8)
    ensures
        v < 128 ==> crate::bits::sign_extend(v) == v as u16,
        v >= 128 ==> crate::bits::sign_extend(v) == v as u16 + 0xFF00,
{
    assert(v < 128 ==> crate::bits::sign_extend(v) == v as u16) by (bit_vector);
    assert(v >= 128 ==> crate::bits::sign_extend(v) == v as u16 + 0xFF00) by (bit_vector);
}

/// The rotations and shifts in arithmetic: rotations move the bit that leaves back in at the
/// other end, rl and rr shift the carry in, sla and srl shift zeros in, sra keeps bit 7, swap
/// exchanges the nibbles.
pub proof fn law_shift_arithmetic(r: u8, cy: u8)
    requires
        cy <= 1,
    ensures
        crate::semantics::cb_shift_value(0, r, cy) == (r * 2) % 256 + r / 128,
        crate::semantics::cb_shift_value(1, r, cy) == r / 2 + (r % 2) * 128,
        crate::semantics::cb_shift_value(2, r, cy) == (r * 2) % 256 + cy,
        crate::semantics::cb_shift_value(3, r, cy) == r / 2 + cy * 128,
        crate::semantics::cb_shift_value(4, r, cy) == (r * 2) % 256,
        crate::semantics::cb_shift_value(5, r, cy) == r / 2 + (r / 128) * 128,
        crate::semantics::cb_shift_value(6, r, cy) == (r % 16) * 16 + r / 16,
        crate::semantics::cb_shift_value(7, r, cy) == r / 2,
        crate::semantics::cb_shift_carry(0, r) == (r >= 128),
        crate::semantics::cb_shift_carry(1, r) == (r % 2 == 1),
        crate::semantics::cb_shift_carry(2, r) == (r >= 128),
        crate::semantics::cb_shift_carry(4, r) == (r >= 128),
{
    assert(crate::bits::rotl8(r) == (r * 2) % 256 + r / 128) by (bit_vector);
    assert(crate::bits::rotr8(r) == r / 2 + (r % 2) * 128) by (bit_vector);
    assert(cy <= 1 ==> (r << 1u8) | cy == (r * 2) % 256 + cy) by (bit_vector);
    assert(cy <= 1 ==> (r >> 1u8) | (cy << 7u8) == r / 2 + cy * 128) by (bit_vector);
    assert(r << 1u8 == (r * 2) % 256) by (bit_vector);
    assert((r >> 1u8) | (r & 0x80) == r / 2 + (r / 128) * 128) by (bit_vector);
    assert((0x0F & r) << 4u8 | (0xF0 & r) >> 4u8 == (r % 16) * 16 + r / 16) by (bit_vector);
    assert(r >> 1u8 == r / 2) by (bit_vector);
    assert((r >> 7u8 == 1) == (r >= 128)) by (bit_vector);
    assert(((r & 1) == 1) == (r % 2 == 1)) by (bit_vector);
    assert(((r & 0x80) > 1) == (r >= 128)) by (bit_vector);
}

/// Opcode 0x76 halts the CPU and says so on the console.
pub proof fn law_halt_instruction(m: Machine)
    requires
        m.fetch8().1 == 0x76,
    ensures
        m.execute().halted,
        m.execute().console == m.console.push(crate::console::ConsoleEvent::Halted),
        m.execute().pc == add16(m.pc, 1),
{
    assert(0x76u8 >> 6u8 == 1 && (0x76u8 >> 3u8) & 0x07 == 6 && 0x76u8 & 0x07 == 6) by (bit_vector);
}

/// Every instruction keeps the machine well formed.
pub proof fn law_execute_keeps_wf(m: Machine)
    requires
        m.wf(),
    ensures
        m.execute().wf(),
        m.step().wf(),
{
    broadcast use lemma_write_keeps_wf;
    crate::bits::lemma_byte_ranges();
    lemma_execute_wf(m);
    let m3 = if m.halted {
        let mm = m.after_read(INTERRUPT_FLAG);
        if m.wakes() {
            Machine { halted: false, ..mm }
        } else {
            mm
        }
    } else {
        m
    };
    lemma_execute_wf(m3);
}

proof fn lemma_wf_r8(m: Machine, r: u8, v: u8)
    requires
        m.wf(),
    ensures
        m.r8(r).0.wf(),
        m.set_r8(r, v).wf(),
{
    broadcast use lemma_write_keeps_wf;
}

proof fn lemma_wf_cb(m: Machine, op: u8)
    requires
        m.wf(),
    ensures
        m.cb(op).wf(),
{
    broadcast use lemma_write_keeps_wf;
}

proof fn lemma_wf_x0(m: Machine, y: u8, z: u8)
    requires
        m.wf(),
        y < 8,
        z < 8,
    ensures
        m.op_x0(y, z).wf(),
{
    broadcast use lemma_write_keeps_wf;
    crate::bits::lemma_byte_ranges();
    if z == 0 {
        if y == 1 {
            let (m1, addr) = m.fetch16();
            lemma_write_wf(m1, addr, lo_byte(m1.sp));
            lemma_write_wf(m1.write(addr, lo_byte(m1.sp)), add16(addr, 1), hi_byte(m1.sp));
        }
    } else if z == 4 || z == 5 {
        let (m1, r) = m.r8(y);
        lemma_wf_r8(m, y, 0);
        let m2 = m1.with_flag(FLAG_Z, add8(r, 1) == 0).with_flag(FLAG_N, false).with_flag(
            FLAG_H,
            r & 0x0F == 0x0F,
        );
        lemma_wf_r8(m2, y, add8(r, 1));
        let m3 = m1.with_flag(FLAG_Z, sub8(r, 1) == 0).with_flag(FLAG_N, true).with_flag(
            FLAG_H,
            r & 0x0F == 0,
        );
        lemma_wf_r8(m3, y, sub8(r, 1));
    } else if z == 6 {
        let (m1, v) = m.fetch8();
        lemma_wf_r8(m1, y, v);
    } else if z == 2 {
        lemma_write_wf(m, m.r16mem_addr(y), m.a());
    }
}

proof fn lemma_wf_x3(m: Machine, y: u8, z: u8)
    requires
        m.wf(),
        y < 8,
        z < 8,
    ensures
        m.op_x3(y, z).wf(),
{
    broadcast use lemma_write_keeps_wf;
    crate::bits::lemma_byte_ranges();
    if z == 3 && y == 1 {
        let (m1, op) = m.fetch8();
        lemma_wf_cb(m1, op);
    } else if z == 0 {
        assert(m.op_x3_z0(y).wf());
    } else if z == 1 {
        assert(m.op_x3_z1(y).wf());
    } else if z == 2 {
        assert(m.op_x3_z2(y).wf());
    } else if z == 4 {
        let (m1, v) = m.fetch16();
        lemma_wf_push(m1, m1.pc);
    } else if z == 5 {
        let (m1, v) = m.fetch16();
        lemma_wf_push(m1, m1.pc);
        lemma_wf_push(m, m.r16stk(y));
        lemma_wf_push(m, m.r16stk(y) & 0xFFF0);
    } else if z == 7 {
        lemma_wf_push(m, m.pc);
    }
}

proof fn lemma_wf_push(m: Machine, v: u16)
    requires
        m.wf(),
    ensures
        m.push(v).wf(),
{
    let m0 = Machine { sp: sub16(m.sp, 1), ..m };
    lemma_write_wf(m0, sub16(m.sp, 1), hi_byte(v));
    let m1 = m0.write(sub16(m.sp, 1), hi_byte(v));
    let m2 = Machine { sp: sub16(m1.sp, 1), ..m1 };
    lemma_write_wf(m2, m2.sp, lo_byte(v));
}

proof fn lemma_execute_wf(m: Machine)
    requires
        m.wf(),
    ensures
        m.execute().wf(),
{
    crate::bits::lemma_byte_ranges();
    let (m1, op) = m.fetch8();
    let y = crate::semantics::op_y(op);
    let z = crate::semantics::op_z(op);
    lemma_wf_x0(m1, y, z);
    lemma_wf_x3(m1, y, z);
    lemma_wf_r8(m1, y, 0);
    let (m2, v) = m1.r8(z);
    lemma_wf_r8(m1, z, 0);
    lemma_wf_r8(m2, y, v);
}

/// A write keeps the machine well formed.
pub broadcast proof fn lemma_write_keeps_wf(m: Machine, addr: u16, val: u8)
    requires
        m.wf(),
    ensures
        #[trigger] m.write(addr, val).wf(),
{
    crate::machine::lemma_write_wf(m, addr, val);
}

/// After a running CPU executes an instruction, DIV holds the CPU timer divided by 128.
pub proof fn law_step_refreshes_div(m: Machine)
    requires
        m.wf(),
        !m.halted,
    ensures
        m.step().io[(crate::constants::DIV_REGISTER - 0xff00) as int] == (m.step().timer / 128) as u8,
{
    lemma_execute_wf(m);
}

} // verus!
