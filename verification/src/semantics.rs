//! What each instruction does to the machine, over the model of `machine.rs`.
use vstd::prelude::*;
use crate::bits::{add16, add8, bit_of, hi_byte, lo_byte, rotl8, rotr8, sign_extend, sub16, sub8, with_hi_byte, with_lo_byte};
use crate::console::ConsoleEvent;
use crate::constants::{FLAG_C, FLAG_H, FLAG_N, FLAG_Z, INTERRUPT_FLAG};
use crate::machine::Machine;

verus! {

/// Bits 7-6 of an opcode.
pub open spec fn op_x(op: u8) -> u8 {
    op >> 6u8
}

/// Bits 5-3 of an opcode.
pub open spec fn op_y(op: u8) -> u8 {
    (op >> 3u8) & 0x07
}

/// Bits 2-0 of an opcode.
pub open spec fn op_z(op: u8) -> u8 {
    op & 0x07
}

/// The result of ALU operation `y` (add, adc, sub, sbc, and, xor, or, cp) on A and `val`, with
/// carry-in `cy` (0 or 1); for cp it is the difference, which is not stored.
pub open spec fn alu_value(y: u8, a: u8, val: u8, cy: u8) -> u8 {
    if y == 0 {
        add8(val, a)
    } else if y == 1 {
        add8(add8(val, a), cy)
    } else if y == 2 {
        sub8(a, val)
    } else if y == 3 {
        sub8(sub8(a, val), cy)
    } else if y == 4 {
        val & a
    } else if y == 5 {
        val ^ a
    } else if y == 6 {
        val | a
    } else {
        sub8(a, val)
    }
}

/// The half carry of ALU operation `y`: a carry out of (or borrow into) bit 3.
pub open spec fn alu_half(y: u8, a: u8, val: u8, cy: u8) -> bool {
    if y == 0 {
        (0x0F & val) + (0x0F & a) > 0x0F
    } else if y == 1 {
        (0x0F & val) + (0x0F & a) + cy > 0x0F
    } else if y == 2 {
        (a & 0x0F) < (0x0F & val)
    } else if y == 3 {
        (a & 0x0F) < (0x0F & val) + cy
    } else if y == 4 {
        true
    } else if y == 5 || y == 6 {
        false
    } else {
        (0x0F & a) < (0x0F & val)
    }
}

/// The carry of ALU operation `y`: a carry out of (or borrow into) bit 7.
pub open spec fn alu_carry(y: u8, a: u8, val: u8, cy: u8) -> bool {
    if y == 0 {
        val + a > 0xFF
    } else if y == 1 {
        val + a > 0xFF || add8(val, a) + cy > 0xFF
    } else if y == 2 {
        a < val
    } else if y == 3 {
        a < val || sub8(a, val) < cy
    } else if y == 7 {
        a < val
    } else {
        false
    }
}

/// Whether ALU operation `y` is a subtraction.
pub open spec fn alu_sub(y: u8) -> bool {
    y == 2 || y == 3 || y == 7
}

/// The result of the $CB-prefixed rotate and shift operation `y` (rlc, rrc, rl, rr, sla, sra,
/// swap, srl) on `r`, with carry-in `cy` (0 or 1).
pub open spec fn cb_shift_value(y: u8, r: u8, cy: u8) -> u8 {
    if y == 0 {
        rotl8(r)
    } else if y == 1 {
        rotr8(r)
    } else if y == 2 {
        (r << 1u8) | cy
    } else if y == 3 {
        (r >> 1u8) | (cy << 7u8)
    } else if y == 4 {
        r << 1u8
    } else if y == 5 {
        (r >> 1u8) | (r & 0x80)
    } else if y == 6 {
        (0x0F & r) << 4u8 | (0xF0 & r) >> 4u8
    } else {
        r >> 1u8
    }
}

/// The carry that the $CB-prefixed rotate and shift operation `y` leaves: the bit shifted out.
pub open spec fn cb_shift_carry(y: u8, r: u8) -> bool {
    if y == 0 || y == 4 {
        r >> 7u8 == 1
    } else if y == 2 {
        (r & 0x80) > 1
    } else if y == 6 {
        false
    } else {
        r & 1 == 1
    }
}

/// The value A takes in DAA, and the carry it leaves: after a subtraction, 0x06 is taken away
/// if H is set and 0x60 if C is set; after an addition, 0x06 is added if H is set or the low
/// nibble is above 9, and 0x60 if C is set or A is above 0x99, which also sets the carry.
pub open spec fn daa(a: u8, n: bool, h: bool, c: bool) -> (u8, bool) {
    if n {
        let adj: u8 = ((if h { 0x06u8 } else { 0u8 }) + (if c { 0x60u8 } else { 0u8 })) as u8;
        (sub8(a, adj), c)
    } else {
        let adj: u8 = ((if h || (a & 0x0F) > 0x09 { 0x06u8 } else { 0u8 }) + (if c || a > 0x99 {
            0x60u8
        } else {
            0u8
        })) as u8;
        (add8(a, adj), c || a > 0x99)
    }
}

impl Machine {
    /// The 8-bit operand `r` (B, C, D, E, H, L, (HL), A): the state after reading it, and its value.
    pub open spec fn r8(self, r: u8) -> (Machine, u8) {
        if r == 0 {
            (self, hi_byte(self.bc))
        } else if r == 1 {
            (self, lo_byte(self.bc))
        } else if r == 2 {
            (self, hi_byte(self.de))
        } else if r == 3 {
            (self, lo_byte(self.de))
        } else if r == 4 {
            (self, hi_byte(self.hl))
        } else if r == 5 {
            (self, lo_byte(self.hl))
        } else if r == 6 {
            (self.after_read(self.hl), self.read(self.hl))
        } else {
            (self, self.a())
        }
    }

    /// The state after writing `v` to the 8-bit operand `r`.
    pub open spec fn set_r8(self, r: u8, v: u8) -> Machine {
        if r == 0 {
            Machine { bc: with_hi_byte(self.bc, v), ..self }
        } else if r == 1 {
            Machine { bc: with_lo_byte(self.bc, v), ..self }
        } else if r == 2 {
            Machine { de: with_hi_byte(self.de, v), ..self }
        } else if r == 3 {
            Machine { de: with_lo_byte(self.de, v), ..self }
        } else if r == 4 {
            Machine { hl: with_hi_byte(self.hl, v), ..self }
        } else if r == 5 {
            Machine { hl: with_lo_byte(self.hl, v), ..self }
        } else if r == 6 {
            self.write(self.hl, v)
        } else {
            self.with_a(v)
        }
    }

    /// The 16-bit register that bits 2-1 of `y` select among BC, DE, HL, SP.
    pub open spec fn r16(self, y: u8) -> u16 {
        if y >> 1u8 == 0 {
            self.bc
        } else if y >> 1u8 == 1 {
            self.de
        } else if y >> 1u8 == 2 {
            self.hl
        } else {
            self.sp
        }
    }

    /// The state with the 16-bit register that `y` selects among BC, DE, HL, SP replaced.
    pub open spec fn with_r16(self, y: u8, v: u16) -> Machine {
        if y >> 1u8 == 0 {
            Machine { bc: v, ..self }
        } else if y >> 1u8 == 1 {
            Machine { de: v, ..self }
        } else if y >> 1u8 == 2 {
            Machine { hl: v, ..self }
        } else {
            Machine { sp: v, ..self }
        }
    }

    /// The 16-bit register that bits 2-1 of `y` select among BC, DE, HL, AF.
    pub open spec fn r16stk(self, y: u8) -> u16 {
        if y >> 1u8 == 0 {
            self.bc
        } else if y >> 1u8 == 1 {
            self.de
        } else if y >> 1u8 == 2 {
            self.hl
        } else {
            self.af
        }
    }

    /// The state with the 16-bit register that `y` selects among BC, DE, HL, AF replaced.
    pub open spec fn with_r16stk(self, y: u8, v: u16) -> Machine {
        if y >> 1u8 == 0 {
            Machine { bc: v, ..self }
        } else if y >> 1u8 == 1 {
            Machine { de: v, ..self }
        } else if y >> 1u8 == 2 {
            Machine { hl: v, ..self }
        } else {
            Machine { af: v, ..self }
        }
    }

    /// The address that the memory operand selected by `y` points at: BC, DE, HL+, HL-.
    pub open spec fn r16mem_addr(self, y: u8) -> u16 {
        if y >> 1u8 == 0 {
            self.bc
        } else if y >> 1u8 == 1 {
            self.de
        } else {
            self.hl
        }
    }

    /// The state after the increment or decrement of HL that the memory operand `y` asks for.
    pub open spec fn post_r16mem(self, y: u8) -> Machine {
        if y >> 1u8 == 2 {
            Machine { hl: add16(self.hl, 1), ..self }
        } else if y >> 1u8 == 3 {
            Machine { hl: sub16(self.hl, 1), ..self }
        } else {
            self
        }
    }

    /// Branch condition `y` (NZ, Z, NC, C; bit 2 of `y` is ignored).
    pub open spec fn cond(self, y: u8) -> bool {
        let sel = y & !0b100u8;
        if sel == 0 {
            !self.zf()
        } else if sel == 1 {
            self.zf()
        } else if sel == 2 {
            !self.cf()
        } else {
            self.cf()
        }
    }

    /// The state after ALU operation `y` on A and `val`.
    pub open spec fn alu(self, y: u8, val: u8) -> Machine {
        let a = self.a();
        let cy = bit_of(self.cf());
        let res = alu_value(y, a, val, cy);
        if y == 7 {
            self.with_flag(FLAG_Z, res == 0).with_flag(FLAG_N, true).with_flag(
                FLAG_H,
                alu_half(y, a, val, cy),
            ).with_flag(FLAG_C, alu_carry(y, a, val, cy))
        } else {
            self.with_flag(FLAG_N, alu_sub(y)).with_flag(FLAG_H, alu_half(y, a, val, cy)).with_flag(
                FLAG_C,
                alu_carry(y, a, val, cy),
            ).with_a(res).with_flag(FLAG_Z, res == 0)
        }
    }

    /// The state after the $CB-prefixed instruction `op`.
    pub open spec fn cb(self, op: u8) -> Machine {
        let x = op_x(op);
        let y = op_y(op);
        let z = op_z(op);
        let (m1, r) = self.r8(z);
        if x == 0 {
            let res = cb_shift_value(y, r, bit_of(m1.cf()));
            m1.with_flag(FLAG_N, false).with_flag(FLAG_H, false).with_flag(
                FLAG_C,
                cb_shift_carry(y, r),
            ).with_flag(FLAG_Z, res == 0).set_r8(z, res)
        } else if x == 1 {
            let (m2, r2) = m1.r8(z);
            m2.with_flag(FLAG_Z, !((r2 >> y) & 1 == 1)).with_flag(FLAG_N, false).with_flag(
                FLAG_H,
                true,
            )
        } else if x == 2 {
            m1.set_r8(z, r & !(1u8 << y))
        } else {
            m1.set_r8(z, r | (1u8 << y))
        }
    }

    /// Opcodes 0x00-0x3F: loads, 16-bit arithmetic, 8-bit increments, rotations of A, jumps.
    pub open spec fn op_x0(self, y: u8, z: u8) -> Machine {
        if z == 0 {
            self.op_x0_z0(y)
        } else if z == 1 {
            if y & 1 == 0 {
                // ld r16, imm16
                let (m1, v) = self.fetch16();
                m1.with_r16(y, v)
            } else {
                // add hl, r16
                let rv = self.r16(y);
                let m1 = self.with_flag(FLAG_N, false).with_flag(
                    FLAG_H,
                    (rv & 0x0FFF) + (self.hl & 0x0FFF) > 0x0FFF,
                ).with_flag(FLAG_C, self.hl + rv > 0xFFFF);
                Machine { hl: add16(self.hl, rv), ..m1 }.tick(1)
            }
        } else if z == 2 {
            if y & 1 == 0 {
                // ld [r16mem], a
                self.write(self.r16mem_addr(y), self.a()).post_r16mem(y)
            } else {
                // ld a, [r16mem]
                let addr = self.r16mem_addr(y);
                self.after_read(addr).with_a(self.read(addr)).post_r16mem(y)
            }
        } else if z == 3 {
            if y & 1 == 0 {
                // inc r16
                self.with_r16(y, add16(self.r16(y), 1)).tick(1)
            } else {
                // dec r16
                self.with_r16(y, sub16(self.r16(y), 1)).tick(1)
            }
        } else if z == 4 {
            // inc r8
            let (m1, r) = self.r8(y);
            let sum = add8(r, 1);
            m1.with_flag(FLAG_Z, sum == 0).with_flag(FLAG_N, false).with_flag(
                FLAG_H,
                r & 0x0F == 0x0F,
            ).set_r8(y, sum)
        } else if z == 5 {
            // dec r8
            let (m1, r) = self.r8(y);
            let diff = sub8(r, 1);
            m1.with_flag(FLAG_Z, diff == 0).with_flag(FLAG_N, true).with_flag(
                FLAG_H,
                r & 0x0F == 0,
            ).set_r8(y, diff)
        } else if z == 6 {
            // ld r8, imm8
            let (m1, v) = self.fetch8();
            m1.set_r8(y, v)
        } else {
            self.op_x0_z7(y)
        }
    }

    /// Opcodes 0x00-0x38 with z == 0: nop, ld [imm16] sp, stop, jr, jr cond.
    pub open spec fn op_x0_z0(self, y: u8) -> Machine {
        if y == 1 {
            // ld [imm16], sp
            let (m1, addr) = self.fetch16();
            m1.write(addr, lo_byte(m1.sp)).write(add16(addr, 1), hi_byte(m1.sp))
        } else if y == 3 {
            // jr imm8
            let (m1, off) = self.fetch8();
            Machine { pc: add16(m1.pc, sign_extend(off)), ..m1 }.tick(1)
        } else if y >= 4 {
            // jr cond, imm8
            let (m1, off) = self.fetch8();
            if m1.cond(y) {
                Machine { pc: add16(m1.pc, sign_extend(off)), ..m1.tick(1) }
            } else {
                m1
            }
        } else {
            // nop, stop
            self
        }
    }

    /// Opcodes 0x07-0x3F with z == 7: rlca, rrca, rla, rra, daa, cpl, scf, ccf.
    pub open spec fn op_x0_z7(self, y: u8) -> Machine {
        let a = self.a();
        if y == 0 {
            self.with_flag(FLAG_Z, false).with_flag(FLAG_N, false).with_flag(FLAG_H, false).with_flag(
                FLAG_C,
                a >> 7u8 == 1,
            ).with_a(rotl8(a))
        } else if y == 1 {
            self.with_flag(FLAG_Z, false).with_flag(FLAG_N, false).with_flag(FLAG_H, false).with_flag(
                FLAG_C,
                a & 1 == 1,
            ).with_a(rotr8(a))
        } else if y == 2 {
            let carry = bit_of(self.cf());
            self.with_flag(FLAG_Z, false).with_flag(FLAG_N, false).with_flag(FLAG_H, false).with_flag(
                FLAG_C,
                (a & 0x80) > 1,
            ).with_a((a << 1u8) | carry)
        } else if y == 3 {
            let carry = bit_of(self.cf());
            self.with_flag(FLAG_Z, false).with_flag(FLAG_N, false).with_flag(FLAG_H, false).with_flag(
                FLAG_C,
                (a & 1) == 1,
            ).with_a((a >> 1u8) | (carry << 7u8))
        } else if y == 4 {
            let (res, carry) = daa(a, self.nf(), self.hf(), self.cf());
            self.with_flag(FLAG_Z, res == 0).with_flag(FLAG_H, false).with_flag(
                FLAG_C,
                carry,
            ).with_a(res)
        } else if y == 5 {
            self.with_a(!a).with_flag(FLAG_N, true).with_flag(FLAG_H, true)
        } else if y == 6 {
            self.with_flag(FLAG_N, false).with_flag(FLAG_H, false).with_flag(FLAG_C, true)
        } else {
            let m1 = self.with_flag(FLAG_N, false).with_flag(FLAG_H, false);
            m1.with_flag(FLAG_C, !m1.cf())
        }
    }

    /// Opcodes 0x40-0x7F: ld r8, r8, and halt at 0x76.
    pub open spec fn op_x1(self, y: u8, z: u8) -> Machine {
        if y == 6 && z == 6 {
            Machine { halted: true, console: self.console.push(ConsoleEvent::Halted), ..self }
        } else {
            let (m1, v) = self.r8(z);
            m1.set_r8(y, v)
        }
    }

    /// Opcodes 0x80-0xBF: ALU operation `y` on A and an 8-bit operand.
    pub open spec fn op_x2(self, y: u8, z: u8) -> Machine {
        let (m1, v) = self.r8(z);
        m1.alu(y, v)
    }

    /// Opcodes 0xC0-0xFF: control flow, stack, high-page loads, the $CB prefix.
    pub open spec fn op_x3(self, y: u8, z: u8) -> Machine {
        if z == 0 {
            self.op_x3_z0(y)
        } else if z == 1 {
            self.op_x3_z1(y)
        } else if z == 2 {
            self.op_x3_z2(y)
        } else if z == 3 {
            self.op_x3_z3(y)
        } else if z == 4 {
            if y & 0b100 == 0 {
                // call cond, imm16
                let (m1, v) = self.fetch16();
                if m1.cond(y) {
                    Machine { pc: v, ..m1.push(m1.pc) }.tick(1)
                } else {
                    m1
                }
            } else {
                self
            }
        } else if z == 5 {
            if y & 1 == 0 {
                // push r16stk
                let reg = if y == 6 {
                    self.r16stk(y) & 0xFFF0
                } else {
                    self.r16stk(y)
                };
                self.push(reg).tick(1)
            } else if y == 1 {
                // call imm16
                let (m1, v) = self.fetch16();
                Machine { pc: v, ..m1.push(m1.pc) }.tick(1)
            } else {
                self
            }
        } else if z == 6 {
            // alu a, imm8
            let (m1, v) = self.fetch8();
            m1.alu(y, v)
        } else {
            // rst
            Machine { pc: (8 * y) as u16, ..self.push(self.pc) }.tick(1)
        }
    }

    /// Opcodes 0xC0-0xF8 with z == 0: ret cond, ldh [imm8] a, add sp imm8, ldh a [imm8],
    /// ld hl sp+imm8.
    pub open spec fn op_x3_z0(self, y: u8) -> Machine {
        if y & 0b100 == 0 {
            // ret cond
            let m1 = self.tick(1);
            if m1.cond(y) {
                let (m2, v) = m1.pop();
                Machine { pc: v, ..m2 }.tick(1)
            } else {
                m1
            }
        } else if y == 4 {
            // ldh [imm8], a
            let (m1, v) = self.fetch8();
            m1.write(add16(0xFF00, v as u16), m1.a())
        } else if y == 6 {
            // ldh a, [imm8]
            let (m1, v) = self.fetch8();
            let addr = add16(0xFF00, v as u16);
            m1.after_read(addr).with_a(m1.read(addr))
        } else {
            // add sp, imm8 (y == 5) and ld hl, sp + imm8 (y == 7)
            let (m1, v) = self.fetch8();
            let sum = add16(m1.sp, sign_extend(v));
            let m2 = m1.with_flag(FLAG_Z, false).with_flag(FLAG_N, false);
            if y == 5 {
                let m3 = m2.with_flag(
                    FLAG_H,
                    (0x0F & m1.sp) + (0x0F & (v as u16)) > 0x0F,
                ).with_flag(FLAG_C, (m1.sp & 0xFF) + (v as u16 & 0xFF) > 0xFF);
                Machine { sp: sum, ..m3 }.tick(2)
            } else {
                let m3 = m2.with_flag(
                    FLAG_H,
                    (m1.sp & 0x0F) + (v as u16 & 0x0F) > 0x0F,
                ).with_flag(FLAG_C, (m1.sp & 0xFF) + (v as u16 & 0xFF) > 0xFF);
                Machine { hl: sum, ..m3 }.tick(1)
            }
        }
    }

    /// Opcodes 0xC1-0xF9 with z == 1: pop r16stk, ret, reti, jp hl, ld sp hl.
    pub open spec fn op_x3_z1(self, y: u8) -> Machine {
        if y & 1 == 0 {
            // pop r16stk; the low four bits of F always read as zero
            let (m1, v) = self.pop();
            if y == 6 {
                Machine { af: v & 0xFFF0, ..m1 }
            } else {
                m1.with_r16stk(y, v)
            }
        } else if y == 1 {
            // ret
            let (m1, v) = self.pop();
            Machine { pc: v, ..m1 }.tick(1)
        } else if y == 3 {
            // reti
            let (m1, v) = Machine { ime: true, ..self }.pop();
            Machine { pc: v, ..m1 }.tick(1)
        } else if y == 5 {
            // jp hl
            Machine { pc: self.hl, ..self }
        } else {
            // ld sp, hl
            Machine { sp: self.hl, ..self }.tick(1)
        }
    }

    /// Opcodes 0xC2-0xFA with z == 2: jp cond, ldh [c] a, ld [imm16] a, ldh a [c], ld a [imm16].
    pub open spec fn op_x3_z2(self, y: u8) -> Machine {
        if y & 0b100 == 0 {
            // jp cond, imm16
            let (m1, addr) = self.fetch16();
            if m1.cond(y) {
                Machine { pc: addr, ..m1 }.tick(1)
            } else {
                m1
            }
        } else if y == 4 {
            // ldh [c], a
            self.write(add16(0xFF00, lo_byte(self.bc) as u16), self.a())
        } else if y == 5 {
            // ld [imm16], a
            let (m1, addr) = self.fetch16();
            m1.write(addr, self.a())
        } else if y == 6 {
            // ldh a, [c]
            let addr = add16(0xFF00, lo_byte(self.bc) as u16);
            self.after_read(addr).with_a(self.read(addr))
        } else {
            // ld a, [imm16]
            let (m1, addr) = self.fetch16();
            m1.after_read(addr).with_a(m1.read(addr))
        }
    }

    /// Opcodes 0xC3-0xFB with z == 3: jp imm16, the $CB prefix, di, ei.
    pub open spec fn op_x3_z3(self, y: u8) -> Machine {
        if y == 0 {
            // jp imm16
            let (m1, v) = self.fetch16();
            Machine { pc: v, ..m1 }.tick(1)
        } else if y == 1 {
            // $CB prefix
            let (m1, op) = self.fetch8();
            m1.cb(op)
        } else if y == 6 {
            // di
            Machine { ime: false, ..self }
        } else if y == 7 {
            // ei
            Machine { ime: true, ..self }
        } else {
            self
        }
    }

    /// The state after fetching, decoding and executing one instruction.
    pub open spec fn execute(self) -> Machine {
        let (m, op) = self.fetch8();
        let x = op_x(op);
        let y = op_y(op);
        let z = op_z(op);
        if x == 0 {
            m.op_x0(y, z)
        } else if x == 1 {
            m.op_x1(y, z)
        } else if x == 2 {
            m.op_x2(y, z)
        } else {
            m.op_x3(y, z)
        }
    }

    /// The state after interrupt `idx` is cleared in IE and then, by a read and a write, in IF.
    pub open spec fn cleared_interrupt(self, idx: u8) -> Machine {
        let m1 = Machine { ie: self.ie & !(1u8 << idx), ..self };
        m1.after_read(INTERRUPT_FLAG).write(INTERRUPT_FLAG, m1.read(INTERRUPT_FLAG) & !(1u8 << idx))
    }

    /// Whether a halted CPU wakes up: an enabled interrupt among the low four is pending, and
    /// the pending-and-enabled bits exceed 1.
    pub open spec fn wakes(self) -> bool {
        self.read(INTERRUPT_FLAG) & self.ie & 0x0F > 1
    }

    /// One turn of the main loop: a halted CPU checks for a wake-up; a running CPU executes one
    /// instruction and refreshes DIV.
    pub open spec fn step(self) -> Machine {
        let m1 = if self.halted {
            let m = self.after_read(INTERRUPT_FLAG);
            if self.wakes() {
                Machine { halted: false, ..m }
            } else {
                m
            }
        } else {
            self
        };
        if !m1.halted {
            m1.execute().update_div()
        } else {
            m1
        }
    }
}

} // verus!
