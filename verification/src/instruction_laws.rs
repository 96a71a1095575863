//! What the instructions compute, stated in arithmetic over the registers, flags and memory
//! that they read.
use vstd::prelude::*;
use vstd::arithmetic::power2::pow2;
use crate::bits::{
    lemma_bit_ops, lemma_flag_bits, lemma_hi_keeps_flags, lemma_low_nibble,
    lemma_masks_as_arithmetic, lemma_pair_bytes, lemma_word_masks_as_arithmetic, sign_extend,
    with_bits, with_hi_byte, with_lo_byte,
};
use crate::constants::{FLAG_C, FLAG_H, FLAG_N, FLAG_Z};
use crate::laws::{law_sign_extend, law_shift_arithmetic};
use crate::machine::{add_ticks, Machine};
use crate::semantics::{op_x, op_y, op_z};

verus! {

/// Setting or clearing a flag changes that flag to `on` and nothing else that an instruction
/// reads.
pub broadcast proof fn lemma_with_flag_reads(m: Machine, mask: u16, on: bool)
    requires
        mask == FLAG_Z || mask == FLAG_N || mask == FLAG_H || mask == FLAG_C,
    ensures
        (#[trigger] m.with_flag(mask, on)).zf() == (if mask == FLAG_Z { on } else { m.zf() }),
        m.with_flag(mask, on).nf() == (if mask == FLAG_N { on } else { m.nf() }),
        m.with_flag(mask, on).hf() == (if mask == FLAG_H { on } else { m.hf() }),
        m.with_flag(mask, on).cf() == (if mask == FLAG_C { on } else { m.cf() }),
        m.with_flag(mask, on).a() == m.a(),
{
    lemma_flag_bits(m.af, on);
}

/// Replacing A changes A and leaves the flags.
pub broadcast proof fn lemma_with_a_reads(m: Machine, v: u8)
    ensures
        (#[trigger] m.with_a(v)).a() == v,
        m.with_a(v).zf() == m.zf(),
        m.with_a(v).nf() == m.nf(),
        m.with_a(v).hf() == m.hf(),
        m.with_a(v).cf() == m.cf(),
{
    lemma_pair_bytes(m.af, v);
    lemma_hi_keeps_flags(m.af, v);
}

/// Writing a register operand (not [HL]) reads back, and only A touches AF, and then not the
/// flags.
pub broadcast proof fn lemma_set_r8_reads(m: Machine, r: u8, v: u8)
    requires
        r < 8,
        r != 6,
    ensures
        (#[trigger] m.set_r8(r, v)).r8(r).1 == v,
        m.set_r8(r, v).zf() == m.zf(),
        m.set_r8(r, v).nf() == m.nf(),
        m.set_r8(r, v).hf() == m.hf(),
        m.set_r8(r, v).cf() == m.cf(),
        r != 7 ==> m.set_r8(r, v).a() == m.a(),
{
    lemma_pair_bytes(m.bc, v);
    lemma_pair_bytes(m.de, v);
    lemma_pair_bytes(m.hl, v);
    lemma_pair_bytes(m.af, v);
    lemma_hi_keeps_flags(m.af, v);
}

/// Decoding: an instruction is picked by bits 7-6, 5-3 and 2-0 of its opcode, the byte at PC,
/// and PC moves on by one before it runs.
pub proof fn law_decode(m: Machine)
    ensures
        ({
            let (m1, op) = m.fetch8();
            &&& op == m.read(m.pc)
            &&& m1.pc as int == (m.pc + 1) % 65536
            &&& op / 64 == 0 ==> m.execute() == m1.op_x0(((op / 8) % 8) as u8, (op % 8) as u8)
            &&& op / 64 == 1 ==> m.execute() == m1.op_x1(((op / 8) % 8) as u8, (op % 8) as u8)
            &&& op / 64 == 2 ==> m.execute() == m1.op_x2(((op / 8) % 8) as u8, (op % 8) as u8)
            &&& op / 64 == 3 ==> m.execute() == m1.op_x3(((op / 8) % 8) as u8, (op % 8) as u8)
        }),
{
    lemma_masks_as_arithmetic();
}

/// DAA after a subtraction (N set) takes 0x06 away from A if H is set and 0x60 if C is set,
/// and leaves C; after an addition it adds 0x06 if H is set or the low digit is above 9, and
/// 0x60 if C is set or A is above 0x99, which also sets C. Z tells whether A is zero, H is
/// cleared and N kept.
pub proof fn law_daa(m: Machine)
    ensures
        ({
            let r = m.op_x0_z7(4);
            let a = m.a() as int;
            &&& m.nf() ==> r.a() == (a - (if m.hf() { 0x06int } else { 0 }) - (if m.cf() {
                0x60int
            } else {
                0
            }) + 256) % 256 && r.cf() == m.cf()
            &&& !m.nf() ==> r.a() == (a + (if m.hf() || a % 16 > 9 { 0x06int } else { 0 }) + (
            if m.cf() || a > 0x99 {
                0x60int
            } else {
                0
            })) % 256 && r.cf() == (m.cf() || a > 0x99)
            &&& r.zf() == (r.a() == 0)
            &&& !r.hf()
            &&& r.nf() == m.nf()
        }),
{
    broadcast use {lemma_with_flag_reads, lemma_with_a_reads};
    lemma_low_nibble();
}

/// The rotations of A (carry out of the bit that leaves; rla and rra shift the old carry in;
/// Z, N and H cleared), cpl (A becomes 255 - A, N and H set), scf (C set) and ccf (C
/// complemented); scf and ccf clear N and H and keep Z.
pub proof fn law_a_rotations_and_flags(m: Machine)
    ensures
        ({
            let a = m.a() as int;
            let c: int = if m.cf() { 1 } else { 0 };
            &&& m.op_x0_z7(0).a() == (a * 2) % 256 + a / 128 && m.op_x0_z7(0).cf() == (a >= 128)
            &&& m.op_x0_z7(1).a() == a / 2 + (a % 2) * 128 && m.op_x0_z7(1).cf() == (a % 2 == 1)
            &&& m.op_x0_z7(2).a() == (a * 2) % 256 + c && m.op_x0_z7(2).cf() == (a >= 128)
            &&& m.op_x0_z7(3).a() == a / 2 + c * 128 && m.op_x0_z7(3).cf() == (a % 2 == 1)
            &&& forall|y: u8|
                y < 4 ==> !#[trigger] m.op_x0_z7(y).zf() && !m.op_x0_z7(y).nf()
                    && !m.op_x0_z7(y).hf()
            &&& m.op_x0_z7(5).a() == 255 - a && m.op_x0_z7(5).nf() && m.op_x0_z7(5).hf()
                && m.op_x0_z7(5).zf() == m.zf() && m.op_x0_z7(5).cf() == m.cf()
            &&& m.op_x0_z7(6).cf() && !m.op_x0_z7(6).nf() && !m.op_x0_z7(6).hf()
                && m.op_x0_z7(6).zf() == m.zf() && m.op_x0_z7(6).a() == m.a()
            &&& m.op_x0_z7(7).cf() == !m.cf() && !m.op_x0_z7(7).nf() && !m.op_x0_z7(7).hf()
                && m.op_x0_z7(7).zf() == m.zf() && m.op_x0_z7(7).a() == m.a()
        }),
{
    broadcast use {lemma_with_flag_reads, lemma_with_a_reads};
    let a = m.a();
    law_shift_arithmetic(a, if m.cf() { 1u8 } else { 0u8 });
    assert(!a == 255 - a) by (bit_vector);
    assert(((a & 0x80) > 1) == (a >= 128)) by (bit_vector);
    assert(((a & 1) == 1) == (a % 2 == 1)) by (bit_vector);
}

/// Branch conditions: NZ (y % 4 == 0) holds when Z is clear, Z (1) when Z is set, NC (2)
/// when C is clear, C (3) when C is set; bit 2 of `y` does not matter.
pub proof fn law_branch_conditions(m: Machine, y: u8)
    requires
        y < 8,
    ensures
        y % 4 == 0 ==> (m.cond(y) <==> !m.zf()),
        y % 4 == 1 ==> (m.cond(y) <==> m.zf()),
        y % 4 == 2 ==> (m.cond(y) <==> !m.cf()),
        y % 4 == 3 ==> (m.cond(y) <==> m.cf()),
{
    lemma_masks_as_arithmetic();
}

/// jr: PC moves on past the offset byte, then by the offset read as a signed byte (modulo
/// 2^16); jr cond does so only when its condition holds. A jump taken costs one machine
/// cycle more than reading the offset; a jump not taken costs nothing more.
pub proof fn law_relative_jumps(m: Machine, y: u8)
    requires
        y == 3 || 4 <= y < 8,
    ensures
        ({
            let e = m.read(m.pc) as int;
            let off: int = if e < 128 { e } else { e - 256 };
            let jumped = (m.pc + 1 + off + 65536) % 65536;
            let taken = y == 3 || (y % 4 == 0 && !m.zf()) || (y % 4 == 1 && m.zf()) || (y % 4
                == 2 && !m.cf()) || (y % 4 == 3 && m.cf());
            &&& taken ==> m.op_x0_z0(y).pc == jumped
            &&& !taken ==> m.op_x0_z0(y).pc == (m.pc + 1) % 65536
            &&& taken ==> m.op_x0_z0(y).timer == add_ticks(m.fetch8().0.timer, 1)
            &&& !taken ==> m.op_x0_z0(y).timer == m.fetch8().0.timer
        }),
{
    law_branch_conditions(m, y);
    law_sign_extend(m.read(m.pc));
}

/// The $CB-prefixed operations on operand `z` with value `v` (bits 2-0 of the opcode), bit
/// number or shift kind `y` (bits 5-3): bit y tests that bit (Z set iff it is 0, N cleared,
/// H set, C kept); res and set clear and set it; the shifts give their arithmetic result, the
/// bit shifted out in C, Z for a zero result and N, H cleared.
pub proof fn law_cb_operations(m: Machine, op: u8)
    ensures
        ({
            let x = op / 64;
            let y = (op / 8) % 8;
            let z = (op % 8) as u8;
            let v = m.r8(z).1 as int;
            let p = pow2(y as nat) as int;
            let c: int = if m.cf() { 1 } else { 0 };
            let r = m.cb(op);
            &&& x == 1 ==> r.zf() == ((v / p) % 2 == 0) && !r.nf() && r.hf() && r.cf() == m.cf()
            &&& x == 2 && z != 6 ==> r.r8(z).1 == (if (v / p) % 2 == 1 { v - p } else { v })
            &&& x == 3 && z != 6 ==> r.r8(z).1 == (if (v / p) % 2 == 1 { v } else { v + p })
            &&& x >= 2 ==> r.zf() == m.zf() && r.nf() == m.nf() && r.hf() == m.hf() && r.cf()
                == m.cf()
            &&& x == 0 ==> !r.nf() && !r.hf()
            &&& x == 0 && y == 0 && z != 6 ==> r.r8(z).1 == (v * 2) % 256 + v / 128 && r.cf() == (v
                >= 128)
            &&& x == 0 && y == 1 && z != 6 ==> r.r8(z).1 == v / 2 + (v % 2) * 128 && r.cf() == (v
                % 2 == 1)
            &&& x == 0 && y == 2 && z != 6 ==> r.r8(z).1 == (v * 2) % 256 + c && r.cf() == (v
                >= 128)
            &&& x == 0 && y == 3 && z != 6 ==> r.r8(z).1 == v / 2 + c * 128 && r.cf() == (v % 2
                == 1)
            &&& x == 0 && y == 4 && z != 6 ==> r.r8(z).1 == (v * 2) % 256 && r.cf() == (v >= 128)
            &&& x == 0 && y == 5 && z != 6 ==> r.r8(z).1 == v / 2 + (v / 128) * 128 && r.cf() == (v
                % 2 == 1)
            &&& x == 0 && y == 6 && z != 6 ==> r.r8(z).1 == (v % 16) * 16 + v / 16 && !r.cf()
            &&& x == 0 && y == 7 && z != 6 ==> r.r8(z).1 == v / 2 && r.cf() == (v % 2 == 1)
            &&& x == 0 && z != 6 ==> r.zf() == (r.r8(z).1 == 0)
        }),
{
    broadcast use {lemma_with_flag_reads, lemma_with_a_reads, lemma_set_r8_reads};
    lemma_masks_as_arithmetic();
    vstd::arithmetic::power2::lemma2_to64();
    let z = op_z(op);
    let y = op_y(op);
    let (m1, v) = m.r8(z);
    crate::machine::lemma_read_tick(m, crate::machine::read_ticks(m.hl), m.hl);
    assert(m1.r8(z).1 == v);
    lemma_bit_ops(v, y);
    law_shift_arithmetic(v, if m.cf() { 1u8 } else { 0u8 });
    let x = op_x(op);
    assert(y == (op / 8) % 8 && z == op % 8 && x == op / 64);
    let p = pow2(y as nat) as int;
    if x == 1 {
        let (m2, v2) = m1.r8(z);
        assert(v2 == v);
        assert(((v2 >> y) & 1 == 1) == ((v as int / p) % 2 == 1));
    } else if x == 0 {
        let c = crate::bits::bit_of(m1.cf());
        let res = crate::semantics::cb_shift_value(y, v, c);
        let m3 = m1.with_flag(FLAG_N, false).with_flag(FLAG_H, false).with_flag(
            FLAG_C,
            crate::semantics::cb_shift_carry(y, v),
        ).with_flag(FLAG_Z, res == 0);
        assert(!m3.nf() && !m3.hf());
        if z == 6 {
            lemma_set_r8_flags_hl(m3, res);
        } else {
            assert(m3.set_r8(z, res).r8(z).1 == res);
        }
    } else if z == 6 {
        lemma_set_r8_flags_hl(m1, v & !(1u8 << y));
        lemma_set_r8_flags_hl(m1, v | (1u8 << y));
    } else {
        assert(m1.set_r8(z, v & !(1u8 << y)).r8(z).1 == v & !(1u8 << y));
        assert(m1.set_r8(z, v | (1u8 << y)).r8(z).1 == v | (1u8 << y));
    }
}

/// inc r8 and dec r8: the operand becomes its value plus or minus one, modulo 256; Z tells
/// whether that is zero, N tells which of the two it was, H tells whether the low digit
/// carried or borrowed, and C is kept.
pub proof fn law_inc_dec_r8(m: Machine, y: u8)
    requires
        y < 8,
    ensures
        ({
            let v = m.r8(y).1 as int;
            let inc = m.op_x0(y, 4);
            let dec = m.op_x0(y, 5);
            &&& inc.zf() == ((v + 1) % 256 == 0) && !inc.nf() && inc.hf() == (v % 16 == 15)
                && inc.cf() == m.cf()
            &&& dec.zf() == ((v + 255) % 256 == 0) && dec.nf() && dec.hf() == (v % 16 == 0)
                && dec.cf() == m.cf()
            &&& y != 6 ==> inc.r8(y).1 == (v + 1) % 256 && dec.r8(y).1 == (v + 255) % 256
        }),
{
    broadcast use {lemma_with_flag_reads, lemma_with_a_reads, lemma_set_r8_reads};
    lemma_low_nibble();
    let (m1, v) = m.r8(y);
    let i1 = m1.with_flag(FLAG_Z, crate::bits::add8(v, 1) == 0).with_flag(FLAG_N, false).with_flag(
        FLAG_H,
        v & 0x0F == 0x0F,
    );
    let d1 = m1.with_flag(FLAG_Z, crate::bits::sub8(v, 1) == 0).with_flag(FLAG_N, true).with_flag(
        FLAG_H,
        v & 0x0F == 0,
    );
    if y == 6 {
        lemma_set_r8_flags_hl(i1, crate::bits::add8(v, 1));
        lemma_set_r8_flags_hl(d1, crate::bits::sub8(v, 1));
    }
}

/// Writing [HL] leaves the flags.
proof fn lemma_set_r8_flags_hl(m: Machine, v: u8)
    ensures
        m.set_r8(6, v).zf() == m.zf(),
        m.set_r8(6, v).nf() == m.nf(),
        m.set_r8(6, v).hf() == m.hf(),
        m.set_r8(6, v).cf() == m.cf(),
{
    crate::laws::lemma_write_keeps_registers(m, m.hl, v);
}

/// The 16-bit arithmetic: inc and dec of BC, DE, HL, SP (modulo 2^16, flags kept); add hl
/// (HL + r modulo 2^16, C the carry out of bit 15, H out of bit 11, N cleared, Z kept); add sp
/// and ld hl, sp + e with a signed offset byte e (C and H from the low byte and digit of SP
/// plus e, Z and N cleared). Beyond reading their operands, add sp takes two machine cycles
/// and the others one.
pub proof fn law_16bit_arithmetic(m: Machine, y: u8)
    requires
        y < 8,
    ensures
        ({
            let rv = m.r16(y) as int;
            let hl = m.hl as int;
            let sp = m.sp as int;
            let e = m.read(m.pc) as int;
            let off: int = if e < 128 { e } else { e - 256 };
            &&& y % 2 == 0 ==> m.op_x0(y, 3).r16(y) == (rv + 1) % 65536
            &&& y % 2 == 1 ==> m.op_x0(y, 3).r16(y) == (rv + 65535) % 65536
            &&& m.op_x0(y, 3).af == m.af
            &&& y % 2 == 1 ==> m.op_x0(y, 1).hl == (hl + rv) % 65536 && m.op_x0(y, 1).cf() == (hl
                + rv > 65535) && m.op_x0(y, 1).hf() == (hl % 4096 + rv % 4096 > 4095) && !m.op_x0(
                y,
                1,
            ).nf() && m.op_x0(y, 1).zf() == m.zf()
            &&& y % 2 == 0 ==> m.op_x0(y, 1).r16(y) == m.fetch16().1
            &&& m.op_x3_z0(5).sp == (sp + off + 65536) % 65536 && m.op_x3_z0(5).hf() == (sp % 16 + e
                % 16 > 15) && m.op_x3_z0(5).cf() == (sp % 256 + e > 255) && !m.op_x3_z0(5).zf()
                && !m.op_x3_z0(5).nf()
            &&& m.op_x3_z0(7).hl == (sp + off + 65536) % 65536 && m.op_x3_z0(7).sp == m.sp
                && m.op_x3_z0(7).hf() == (sp % 16 + e % 16 > 15) && m.op_x3_z0(7).cf() == (sp % 256
                + e > 255) && !m.op_x3_z0(7).zf() && !m.op_x3_z0(7).nf()
            &&& m.op_x0(y, 3).timer == add_ticks(m.timer, 1)
            &&& y % 2 == 1 ==> m.op_x0(y, 1).timer == add_ticks(m.timer, 1)
            &&& m.op_x3_z0(5).timer == add_ticks(m.fetch8().0.timer, 2)
            &&& m.op_x3_z0(7).timer == add_ticks(m.fetch8().0.timer, 1)
        }),
{
    broadcast use lemma_with_flag_reads;
    crate::bits::lemma_byte_ranges();
    lemma_word_masks_as_arithmetic();
    law_sign_extend(m.read(m.pc));
}

/// Jumps: jp goes to the fetched word, jp cond only when its condition holds (else PC moves
/// past the word), and costs one machine cycle more than reading the word only then; jp hl goes to HL; di and ei clear and set IME.
pub proof fn law_jumps(m: Machine, y: u8)
    requires
        y < 4,
    ensures
        ({
            let taken = (y % 4 == 0 && !m.zf()) || (y % 4 == 1 && m.zf()) || (y % 4 == 2 && !m.cf())
                || (y % 4 == 3 && m.cf());
            &&& m.op_x3_z3(0).pc == m.fetch16().1
            &&& taken ==> m.op_x3_z2(y).pc == m.fetch16().1
            &&& !taken ==> m.op_x3_z2(y).pc == (m.pc + 2) % 65536
            &&& taken ==> m.op_x3_z2(y).timer == add_ticks(m.fetch16().0.timer, 1)
            &&& !taken ==> m.op_x3_z2(y).timer == m.fetch16().0.timer
            &&& m.op_x3_z1(5).pc == m.hl
            &&& !m.op_x3_z3(6).ime && m.op_x3_z3(7).ime
        }),
{
    crate::bits::lemma_byte_ranges();
    let (m1, v) = m.fetch16();
    law_branch_conditions(m1, y);
}

/// Calls and restarts: call goes to the fetched word, call cond only when its condition holds
/// (else PC moves past the word and SP stays); rst goes to 8 * y; each that jumps moves SP
/// down by two.
pub proof fn law_calls(m: Machine, y: u8)
    requires
        y < 8,
    ensures
        ({
            let taken = (y % 4 == 0 && !m.zf()) || (y % 4 == 1 && m.zf()) || (y % 4 == 2 && !m.cf())
                || (y % 4 == 3 && m.cf());
            &&& m.op_x3(1, 5).pc == m.fetch16().1 && m.op_x3(1, 5).sp == (m.sp + 65534) % 65536
            &&& y < 4 && taken ==> m.op_x3(y, 4).pc == m.fetch16().1 && m.op_x3(y, 4).sp == (m.sp
                + 65534) % 65536
            &&& y < 4 && !taken ==> m.op_x3(y, 4).pc == (m.pc + 2) % 65536 && m.op_x3(y, 4).sp
                == m.sp
            &&& m.op_x3(y, 7).pc == 8 * y && m.op_x3(y, 7).sp == (m.sp + 65534) % 65536
        }),
{
    broadcast use crate::laws::lemma_write_keeps_registers;
    crate::bits::lemma_byte_ranges();
    let (m1, v) = m.fetch16();
    law_branch_conditions(m1, y);
}

/// Returns: ret goes to the popped word and moves SP up by two; reti also sets IME; ret cond
/// does so only when its condition holds, else leaves PC and SP and costs one machine cycle.
pub proof fn law_returns(m: Machine, y: u8)
    requires
        y < 4,
    ensures
        ({
            let taken = (y % 4 == 0 && !m.zf()) || (y % 4 == 1 && m.zf()) || (y % 4 == 2 && !m.cf())
                || (y % 4 == 3 && m.cf());
            &&& m.op_x3_z1(1).pc == m.pop().1 && m.op_x3_z1(1).sp == (m.sp + 2) % 65536
            &&& m.op_x3_z1(3).pc == m.pop().1 && m.op_x3_z1(3).ime
            &&& taken ==> m.op_x3_z0(y).pc == m.pop().1
            &&& !taken ==> m.op_x3_z0(y).pc == m.pc && m.op_x3_z0(y).sp == m.sp
                && m.op_x3_z0(y).timer == add_ticks(m.timer, 1)
        }),
{
    crate::bits::lemma_byte_ranges();
    law_branch_conditions(m.tick(1), y);
    lemma_pop_same_memory(m, m.tick(1));
    lemma_pop_same_memory(m, Machine { ime: true, ..m });
}

/// What a pop gives depends only on the memory and SP.
proof fn lemma_pop_same_memory(a: Machine, b: Machine)
    requires
        crate::machine::same_memory(a, b),
        a.sp == b.sp,
    ensures
        a.pop().1 == b.pop().1,
{
    crate::machine::lemma_read_same_memory(a, b, a.sp);
    let a1 = Machine { sp: crate::bits::add16(a.sp, 1), ..a.after_read(a.sp) };
    let b1 = Machine { sp: crate::bits::add16(b.sp, 1), ..b.after_read(b.sp) };
    crate::machine::lemma_read_same_memory(a1, b1, a1.sp);
}

/// A pop reads the word little-endian from SP and SP + 1 and moves SP up by two; a push puts
/// the high byte at SP - 1 and the low byte at SP - 2 when both are work RAM bank 0 or high
/// RAM cells, and moves SP down by two.
pub proof fn law_stack_layout(m: Machine, v: u16)
    requires
        m.wf(),
    ensures
        m.pop().1 == m.read(m.sp) + 256 * m.read(((m.sp + 1) % 65536) as u16),
        m.pop().0.sp == (m.sp + 2) % 65536,
        m.push(v).sp == (m.sp + 65534) % 65536,
        crate::laws::simple_ram(((m.sp + 65535) % 65536) as u16) && crate::laws::simple_ram(
            ((m.sp + 65534) % 65536) as u16,
        ) ==> m.push(v).read(((m.sp + 65535) % 65536) as u16) == v / 256 && m.push(v).read(
            ((m.sp + 65534) % 65536) as u16,
        ) == v % 256,
{
    broadcast use crate::laws::lemma_write_keeps_registers;
    lemma_word_masks_as_arithmetic();
    let lo = m.read(m.sp);
    let m1 = Machine { sp: crate::bits::add16(m.sp, 1), ..m.after_read(m.sp) };
    crate::machine::lemma_read_same_memory(m1, m, m1.sp);
    crate::bits::lemma_word_bytes(0, lo, m1.read(m1.sp));
    assert(m.pop().1 == lo + 256 * m1.read(m1.sp));
    let s1 = crate::bits::sub16(m.sp, 1);
    let s2 = crate::bits::sub16(s1, 1);
    if crate::laws::simple_ram(s1) && crate::laws::simple_ram(s2) {
        let m0 = Machine { sp: s1, ..m };
        crate::laws::law_read_after_write(m0, s1, crate::bits::hi_byte(v));
        crate::machine::lemma_write_wf(m0, s1, crate::bits::hi_byte(v));
        let m2 = Machine { sp: s2, ..m0.write(s1, crate::bits::hi_byte(v)) };
        crate::laws::law_read_after_write(m2, s2, crate::bits::lo_byte(v));
        crate::laws::law_write_keeps_other_cell(m2, s2, s1, crate::bits::lo_byte(v));
        assert((v as u8) as u16 == v % 256);
        assert(crate::bits::hi_byte(v) == v / 256 && crate::bits::lo_byte(v) == v % 256);
    }
}

/// The loads: ld r, r' copies the operand (8-bit), ld r, imm8 takes the byte after the opcode,
/// ld a, [r16mem] reads at BC, DE or HL and ld [r16mem], a writes A there, then [HL+] and
/// [HL-] move HL up or down by one; ldh reads and writes at 0xFF00 plus the byte after the
/// opcode or plus C.
#[verifier::rlimit(40)]
pub proof fn law_loads(m: Machine, y: u8, z: u8)
    requires
        y < 8,
        z < 8,
    ensures
        ({
            let addr: int = if y / 2 == 0 { m.bc as int } else if y / 2 == 1 { m.de as int } else {
                m.hl as int
            };
            let hl_after: int = if y / 2 == 2 { (m.hl + 1) % 65536 } else if y / 2 == 3 { (m.hl
                + 65535) % 65536 } else { m.hl as int };
            let e = m.read(m.pc) as int;
            let c = (m.bc % 256) as int;
            &&& y != 6 && !(y == 6 && z == 6) ==> m.op_x1(y, z).r8(y).1 == m.r8(z).1
            &&& y != 6 ==> m.op_x0(y, 6).r8(y).1 == e
            &&& y % 2 == 1 ==> m.op_x0(y, 2).a() == m.read(addr as u16) && m.op_x0(y, 2).hl
                == hl_after
            &&& y % 2 == 0 ==> m.op_x0(y, 2) == Machine {
                hl: hl_after as u16,
                ..m.write(addr as u16, m.a())
            }
            &&& m.op_x3_z0(4) == m.fetch8().0.write((0xFF00 + e) as u16, m.a())
            &&& m.op_x3_z0(6).a() == m.read((0xFF00 + e) as u16)
            &&& m.op_x3_z2(4) == m.write((0xFF00 + c) as u16, m.a())
            &&& m.op_x3_z2(6).a() == m.read((0xFF00 + c) as u16)
        }),
{
    broadcast use {lemma_with_a_reads, lemma_set_r8_reads, crate::laws::lemma_write_keeps_registers};
    crate::bits::lemma_byte_ranges();
    lemma_masks_as_arithmetic();
    lemma_word_masks_as_arithmetic();
    let (m1, e) = m.fetch8();
    crate::machine::lemma_read_same_memory(m1, m, (0xFF00 + e) as u16);
    let (m2, v) = m.r8(z);
    assert((m.bc as u8) as u16 == m.bc % 256);
    if y != 6 && !(y == 6 && z == 6) {
        assert(m.op_x1(y, z).r8(y).1 == m.r8(z).1);
    }
    if y != 6 {
        assert(m.op_x0(y, 6).r8(y).1 == e);
    }
    assert(m.op_x3_z0(6).a() == m.read((0xFF00 + e) as u16));
    assert(m.op_x3_z2(6).a() == m.read((0xFF00 + m.bc % 256) as u16));
}

/// The 8-bit registers are the bytes of the register pairs (B, D, H, A high; C, E, L low),
/// and the flags are bits 7 (Z), 6 (N), 5 (H) and 4 (C) of AF.
pub proof fn law_register_pairs(m: Machine)
    ensures
        m.r8(0).1 == m.bc / 256,
        m.r8(1).1 == m.bc % 256,
        m.r8(2).1 == m.de / 256,
        m.r8(3).1 == m.de % 256,
        m.r8(4).1 == m.hl / 256,
        m.r8(5).1 == m.hl % 256,
        m.r8(7).1 == m.af / 256,
        m.a() == m.af / 256,
        m.zf() == ((m.af / 128) % 2 == 1),
        m.nf() == ((m.af / 64) % 2 == 1),
        m.hf() == ((m.af / 32) % 2 == 1),
        m.cf() == ((m.af / 16) % 2 == 1),
{
    lemma_word_masks_as_arithmetic();
    lemma_flag_positions(m.af);
    assert((m.bc as u8) as u16 == m.bc % 256);
    assert((m.de as u8) as u16 == m.de % 256);
    assert((m.hl as u8) as u16 == m.hl % 256);
}

/// The flag masks pick bits 7, 6, 5 and 4.
proof fn lemma_flag_positions(af: u16)
    by (bit_vector)
    ensures
        ((af & 0x80) > 0) == ((af / 128) % 2 == 1),
        ((af & 0x40) > 0) == ((af / 64) % 2 == 1),
        ((af & 0x20) > 0) == ((af / 32) % 2 == 1),
        ((af & 0x10) > 0) == ((af / 16) % 2 == 1),
{
}

/// A halted CPU stays halted, only reading IF, while the pending and enabled interrupt bits
/// among the low four (IF & IE & 0x0F) are at most 1; otherwise it wakes and executes an
/// instruction in the same turn.
pub proof fn law_halt_wakeup(m: Machine)
    requires
        m.halted,
    ensures
        (m.read(crate::constants::INTERRUPT_FLAG) & m.ie & 0x0F) <= 1 ==> m.step() == m.after_read(
            crate::constants::INTERRUPT_FLAG,
        ),
        (m.read(crate::constants::INTERRUPT_FLAG) & m.ie & 0x0F) > 1 ==> m.step() == (Machine {
            halted: false,
            ..m.after_read(crate::constants::INTERRUPT_FLAG)
        }).execute().update_div(),
{
}

/// pop af keeps only the high twelve bits of the popped word (the low nibble of F reads as
/// zero); push af pushes AF with that nibble cleared.
pub proof fn law_af_on_the_stack(m: Machine)
    ensures
        m.op_x3_z1(6).af == m.pop().1 - m.pop().1 % 16,
        m.op_x3(6, 5) == m.push((m.af - m.af % 16) as u16).tick(1),
{
    lemma_word_masks_as_arithmetic();
    crate::bits::lemma_byte_ranges();
    let v = m.pop().1;
    let af = m.af;
    assert(v & 0xFFF0 == v - v % 16) by (bit_vector);
    assert(af & 0xFFF0 == af - af % 16) by (bit_vector);
}

/// ld [imm16], sp writes the low byte of SP at the fetched address and the high byte after
/// it; ld [imm16], a writes A there and ld a, [imm16] reads A from there; ld sp, hl copies HL.
pub proof fn law_absolute_loads(m: Machine)
    ensures
        ({
            let (m1, addr) = m.fetch16();
            &&& m.op_x0_z0(1) == m1.write(addr, (m.sp % 256) as u8).write(
                ((addr + 1) % 65536) as u16,
                (m.sp / 256) as u8,
            )
            &&& m.op_x3_z2(5) == m1.write(addr, m.a())
            &&& m.op_x3_z2(7).a() == m1.read(addr)
            &&& m.op_x3_z1(7).sp == m.hl
        }),
{
    broadcast use lemma_with_a_reads;
    lemma_word_masks_as_arithmetic();
    assert(((m.sp as u8) as u16) == m.sp % 256);
    assert(crate::bits::lo_byte(m.sp) == (m.sp % 256) as u8);
    assert(crate::bits::hi_byte(m.sp) == (m.sp / 256) as u8);
    let (m1, addr) = m.fetch16();
    assert(crate::bits::add16(addr, 1) == ((addr + 1) % 65536) as u16);
    assert(m.op_x0_z0(1) == m1.write(addr, (m.sp % 256) as u8).write(
        ((addr + 1) % 65536) as u16,
        (m.sp / 256) as u8,
    ));
    crate::machine::lemma_read_same_memory(
        Machine { pc: m1.pc, ..m1 },
        m1,
        addr,
    );
    assert(5u8 & 0b100u8 != 0 && 7u8 & 0b100u8 != 0 && 7u8 & 1u8 != 0) by (bit_vector);
}

/// Clearing interrupt `idx` clears bit `idx` of IE and of IF and leaves the other bits.
pub proof fn law_clear_interrupt(m: Machine, idx: u8)
    requires
        m.wf(),
        idx < 8,
    ensures
        ({
            let r = m.cleared_interrupt(idx);
            let p = pow2(idx as nat) as int;
            let ie = m.ie as int;
            let f = m.io[0x0F] as int;
            &&& r.ie == (if (ie / p) % 2 == 1 { ie - p } else { ie })
            &&& r.io[0x0F] == (if (f / p) % 2 == 1 { f - p } else { f })
        }),
{
    vstd::arithmetic::power2::lemma2_to64();
    lemma_bit_ops(m.ie, idx);
    lemma_bit_ops(m.io[0x0F], idx);
}

} // verus!
