//! The CPU: operand access, the ALU, the $CB-prefixed instructions and the
//! fetch-decode-execute loop.
use vstd::prelude::*;
use crate::bits::{lemma_byte_ranges, rotate_left_1, rotate_right_1, sign_extend_exec};
use crate::constants::INTERRUPT_FLAG;
use crate::console::ConsoleEvent;
use crate::gameboy::GameBoy;

verus! {

impl GameBoy {
    /// Branch condition `y`: NZ, Z, NC, C (bit 2 of `y` is ignored).
    pub(crate) fn check_condition(&mut self, y: u8) -> (r: bool)
        requires
            y & !0b100u8 < 4,
        ensures
            r == old(self)@.cond(y),
            *final(self) == *old(self),
    {
        let sel: u8 = y & !0b100u8;
        let res = if sel == 0 {
            !self.get_zero_flag()
        } else if sel == 1 {
            self.get_zero_flag()
        } else if sel == 2 {
            !self.get_carry_flag()
        } else {
            self.get_carry_flag()
        };

        res
    }

    /// The 16-bit register that bits 2-1 of `y` select: BC, DE, HL, SP.
    pub(crate) fn get_r16(&mut self, y: u8) -> (r: &mut u16)
        requires
            y < 8,
        ensures
            *r == old(self)@.r16(y),
            final(self)@ == old(self)@.with_r16(y, *final(r)),
    {
        proof {
            lemma_byte_ranges();
        }
        let sel: u8 = y >> 1u8;
        let res = if sel == 0 {
            &mut self.bc
        } else if sel == 1 {
            &mut self.de
        } else if sel == 2 {
            &mut self.hl
        } else {
            &mut self.sp
        };

        res
    }

    /// The 16-bit register that bits 2-1 of `y` select for the stack: BC, DE, HL, AF.
    pub(crate) fn get_r16stk(&mut self, y: u8) -> (r: &mut u16)
        requires
            y < 8,
        ensures
            *r == old(self)@.r16stk(y),
            final(self)@ == old(self)@.with_r16stk(y, *final(r)),
    {
        proof {
            lemma_byte_ranges();
        }
        let sel: u8 = y >> 1u8;
        let res = if sel == 0 {
            &mut self.bc
        } else if sel == 1 {
            &mut self.de
        } else if sel == 2 {
            &mut self.hl
        } else {
            &mut self.af
        };

        res
    }

    /// Reads the memory operand that `y` selects: [BC], [DE], [HL+], [HL-].
    pub(crate) fn get_r16mem(&mut self, y: u8) -> (r: u8)
        requires
            old(self).wf(),
            y < 8,
        ensures
            r == old(self)@.read(old(self)@.r16mem_addr(y)),
            final(self)@ == old(self)@.after_read(old(self)@.r16mem_addr(y)),
            final(self).wf(),
    {
        proof {
            lemma_byte_ranges();
        }
        let sel: u8 = y >> 1u8;
        let res = if sel == 0 {
            self.read_ram(self.bc)
        } else if sel == 1 {
            self.read_ram(self.de)
        } else {
            self.read_ram(self.hl)
        };

        res
    }

    /// Writes the memory operand that `y` selects: [BC], [DE], [HL+], [HL-].
    pub(crate) fn set_r16mem(&mut self, y: u8, val: u8)
        requires
            old(self).wf(),
            y < 8,
        ensures
            final(self)@ == old(self)@.write(old(self)@.r16mem_addr(y), val),
            final(self).wf(),
    {
        proof {
            lemma_byte_ranges();
        }
        let sel: u8 = y >> 1u8;
        if sel == 0 {
            self.write_ram(self.bc, val);
        } else if sel == 1 {
            self.write_ram(self.de, val);
        } else {
            self.write_ram(self.hl, val);
        }
    }

    /// Increments HL after [HL+] and decrements it after [HL-].
    pub(crate) fn post_ins_r16mem(&mut self, y: u8)
        requires
            y < 8,
        ensures
            final(self)@ == old(self)@.post_r16mem(y),
    {
        proof {
            lemma_byte_ranges();
        }
        let sel: u8 = y >> 1u8;
        if sel == 2 {
            self.hl = self.hl.wrapping_add(1);
        } else if sel == 3 {
            self.hl = self.hl.wrapping_sub(1);
        }
    }

    /// Reads the 8-bit operand `register`: B, C, D, E, H, L, [HL], A.
    pub(crate) fn get_r8(&mut self, register: u8) -> (r: u8)
        requires
            old(self).wf(),
            register < 8,
        ensures
            (final(self)@, r) == old(self)@.r8(register),
            final(self).wf(),
    {
        let res = if register == 0 {
            self.get_register_b()
        } else if register == 1 {
            self.get_register_c()
        } else if register == 2 {
            self.get_register_d()
        } else if register == 3 {
            self.get_register_e()
        } else if register == 4 {
            self.get_register_h()
        } else if register == 5 {
            self.get_register_l()
        } else if register == 6 {
            self.read_ram(self.hl)
        } else {
            self.get_register_a()
        };

        res
    }

    /// Writes the 8-bit operand `register`: B, C, D, E, H, L, [HL], A.
    pub(crate) fn set_r8(&mut self, register: u8, val: u8)
        requires
            old(self).wf(),
            register < 8,
        ensures
            final(self)@ == old(self)@.set_r8(register, val),
            final(self).wf(),
    {
        if register == 0 {
            self.set_register_b(val);
        } else if register == 1 {
            self.set_register_c(val);
        } else if register == 2 {
            self.set_register_d(val);
        } else if register == 3 {
            self.set_register_e(val);
        } else if register == 4 {
            self.set_register_h(val);
        } else if register == 5 {
            self.set_register_l(val);
        } else if register == 6 {
            self.write_ram(self.hl, val);
        } else {
            self.set_register_a(val);
        }
    }

    /// ALU operation `y` on A and `val`: add, adc, sub, sbc, and, xor, or, cp.
    pub(crate) fn handle_alu_op(&mut self, y: u8, val: u8)
        requires
            y < 8,
        ensures
            final(self)@ == old(self)@.alu(y, val),
    {
        proof {
            lemma_byte_ranges();
        }
        let a = self.get_register_a();

        let res: u8 = if y == 0 {
            // add a, r8
            let sum = val.wrapping_add(a);
            let did_overflow = val as u16 + a as u16 > 0xFF;

            self.set_subtraction_flag(false);
            self.set_half_carry_flag((0x0F & val) + (0x0F & a) > 0x0F);
            self.set_carry_flag(did_overflow);

            sum
        } else if y == 1 {
            // adc a, r8
            let overflow: u8 = if self.get_carry_flag() {
                1
            } else {
                0
            };

            let sum1 = val.wrapping_add(a);
            let carry1 = val as u16 + a as u16 > 0xFF;
            let sum = sum1.wrapping_add(overflow);
            let carry2 = sum1 as u16 + overflow as u16 > 0xFF;

            self.set_subtraction_flag(false);
            self.set_half_carry_flag((0x0F & val) + (0x0F & a) + overflow > 0x0F);
            self.set_carry_flag(carry1 || carry2);

            sum
        } else if y == 2 {
            // sub a, r8
            let a = self.get_register_a();
            let diff = a.wrapping_sub(val);
            let did_carry = a < val;

            self.set_subtraction_flag(true);
            self.set_half_carry_flag((a & 0x0F) < (0x0F & val));
            self.set_carry_flag(did_carry);

            diff
        } else if y == 3 {
            // sbc a, r8
            let overflow: u8 = if self.get_carry_flag() {
                1
            } else {
                0
            };

            let diff1 = a.wrapping_sub(val);
            let borrow1 = a < val;
            let diff = diff1.wrapping_sub(overflow);
            let borrow2 = diff1 < overflow;

            self.set_subtraction_flag(true);
            self.set_half_carry_flag((a & 0x0F) < (0x0F & val) + overflow);
            self.set_carry_flag(borrow1 || borrow2);

            diff
        } else if y == 4 {
            // and a, r8
            let and = val & a;

            self.set_subtraction_flag(false);
            self.set_half_carry_flag(true);
            self.set_carry_flag(false);

            and
        } else if y == 5 {
            // xor a, r8
            let xor = val ^ a;

            self.set_subtraction_flag(false);
            self.set_half_carry_flag(false);
            self.set_carry_flag(false);

            xor
        } else if y == 6 {
            // or a, r8
            let or = val | a;

            self.set_subtraction_flag(false);
            self.set_half_carry_flag(false);
            self.set_carry_flag(false);

            or
        } else {
            // cp a, r8
            let diff = a.wrapping_sub(val);
            let did_carry = a < val;

            self.set_zero_flag(diff == 0);
            self.set_subtraction_flag(true);
            self.set_half_carry_flag((0x0F & a) < (0x0F & val));
            self.set_carry_flag(did_carry);

            return ;  // instruction does not update the register A
        };

        self.set_register_a(res);
        self.set_zero_flag(res == 0);
    }

    /// The $CB-prefixed instruction `opcode`: rotations and shifts, bit tests, resets and sets.
    pub(crate) fn handle_prefix_cb_instruction(&mut self, opcode: u8)
        requires
            old(self).wf(),
        ensures
            final(self)@ == old(self)@.cb(opcode),
            final(self).wf(),
    {
        proof {
            lemma_byte_ranges();
        }
        let x: u8 = opcode >> 6u8;
        let y: u8 = (opcode >> 3u8) & 0x07;
        let z: u8 = opcode & 0x07;
        let register = self.get_r8(z);

        if x == 0 {
            let res: u8 = if y == 0 {
                // rlc r8
                let last_bit = register >> 7u8;

                self.set_subtraction_flag(false);
                self.set_half_carry_flag(false);
                self.set_carry_flag(last_bit == 1);

                rotate_left_1(register)
            } else if y == 1 {
                // rrc r8
                let first_bit = register & 1;

                self.set_subtraction_flag(false);
                self.set_half_carry_flag(false);
                self.set_carry_flag(first_bit == 1);

                rotate_right_1(register)
            } else if y == 2 {
                // rl r8
                let carry: u8 = if self.get_carry_flag() {
                    1
                } else {
                    0
                };

                self.set_subtraction_flag(false);
                self.set_half_carry_flag(false);
                self.set_carry_flag((register & 0x80) > 1);

                (register << 1u8) | carry
            } else if y == 3 {
                // rr r8
                let carry: u8 = if self.get_carry_flag() {
                    1
                } else {
                    0
                };

                self.set_subtraction_flag(false);
                self.set_half_carry_flag(false);
                self.set_carry_flag((register & 1) == 1);

                (register >> 1u8) | (carry << 7u8)
            } else if y == 4 {
                // sla r8
                let last_bit = register >> 7u8;

                self.set_subtraction_flag(false);
                self.set_half_carry_flag(false);
                self.set_carry_flag(last_bit == 1);

                register << 1u8
            } else if y == 5 {
                // sra r8
                let first_bit = register & 1;
                let last_bit = register & 0x80;

                self.set_subtraction_flag(false);
                self.set_half_carry_flag(false);
                self.set_carry_flag(first_bit == 1);

                (register >> 1u8) | last_bit
            } else if y == 6 {
                // swap r8
                self.set_subtraction_flag(false);
                self.set_half_carry_flag(false);
                self.set_carry_flag(false);

                let lower_bits = 0x0F & register;
                let upper_bits = 0xF0 & register;

                lower_bits << 4u8 | upper_bits >> 4u8
            } else {
                // srl r8
                self.set_subtraction_flag(false);
                self.set_half_carry_flag(false);
                self.set_carry_flag(register & 1 == 1);

                register >> 1u8
            };

            self.set_zero_flag(res == 0);
            self.set_r8(z, res);
        } else if x == 1 {
            // bit b3, r8
            let register = self.get_r8(z);

            self.set_zero_flag(!((register >> y) & 1 == 1));
            self.set_subtraction_flag(false);
            self.set_half_carry_flag(true);
        } else if x == 2 {
            // res b3, r8
            self.set_r8(z, register & !(1u8 << y));
        } else {
            // set b3, r8
            self.set_r8(z, register | (1u8 << y));
        }
    }

    /// Fetches, decodes and executes one instruction.
    pub fn fde(&mut self)
        requires
            old(self).wf(),
        ensures
            final(self)@ == old(self)@.execute(),
            final(self).wf(),
    {
        let opcode = self.fetch_value_u8();
        proof {
            lemma_byte_ranges();
        }
        let x: u8 = opcode >> 6u8;
        let y: u8 = (opcode >> 3u8) & 0x07;
        let z: u8 = opcode & 0x07;

        if x == 0 {
            self.fde_x0(y, z);
        } else if x == 1 {
            if y == 6 && z == 6 {
                // halt
                self.cpu_halted = true;
                self.console.push(ConsoleEvent::Halted);
            } else {
                // ld r8, r8
                let val = self.get_r8(z);
                self.set_r8(y, val);
            }
        } else if x == 2 {
            // alu a, r8
            let val = self.get_r8(z);
            self.handle_alu_op(y, val);
        } else {
            self.fde_x3(y, z);
        }
    }

    /// Opcodes 0x00-0x3F.
    fn fde_x0(&mut self, y: u8, z: u8)
        requires
            old(self).wf(),
            y < 8,
            z < 8,
        ensures
            final(self)@ == old(self)@.op_x0(y, z),
            final(self).wf(),
    {
        proof {
            lemma_byte_ranges();
        }
        if z == 0 {
            self.fde_x0_z0(y);
        } else if z == 1 {
            if (y & 0b001) == 0 {
                // ld r16, imm16
                let val = self.fetch_value_u16();
                let register = self.get_r16(y);

                *register = val;
            } else {
                // add hl, r16
                let register_val = *self.get_r16(y);
                let sum = self.hl.wrapping_add(register_val);
                let did_carry = self.hl as u32 + register_val as u32 > 0xFFFF;

                self.set_subtraction_flag(false);
                self.set_half_carry_flag((register_val & 0x0FFF) + (self.hl & 0x0FFF) > 0x0FFF);
                self.set_carry_flag(did_carry);

                self.hl = sum;

                self.increment_cpu_timer(1);
            }
        } else if z == 2 {
            if (y & 0b001) == 0 {
                // ld [r16mem], a
                let a = self.get_register_a();

                self.set_r16mem(y, a);
                self.post_ins_r16mem(y);
            } else {
                // ld a, [r16mem]
                let val = self.get_r16mem(y);

                self.set_register_a(val);
                self.post_ins_r16mem(y);
            }
        } else if z == 3 {
            if (y & 0b001) == 0 {
                // inc r16
                let register = self.get_r16(y);
                let sum = (*register).wrapping_add(1);

                *register = sum;

                self.increment_cpu_timer(1);
            } else {
                // dec r16
                let register = self.get_r16(y);
                let sum = (*register).wrapping_sub(1);

                *register = sum;

                self.increment_cpu_timer(1);
            }
        } else if z == 4 {
            // inc r8
            let register = self.get_r8(y);
            let sum = register.wrapping_add(1);

            self.set_zero_flag(sum == 0);
            self.set_subtraction_flag(false);
            self.set_half_carry_flag(register & 0x0F == 0x0F);

            self.set_r8(y, sum);
        } else if z == 5 {
            // dec r8
            let register = self.get_r8(y);
            let diff = register.wrapping_sub(1);

            self.set_zero_flag(diff == 0);
            self.set_subtraction_flag(true);
            self.set_half_carry_flag(register & 0x0F == 0);

            self.set_r8(y, diff);
        } else if z == 6 {
            // ld r8, imm8
            let val = self.fetch_value_u8();
            self.set_r8(y, val);
        } else {
            self.fde_x0_z7(y);
        }
    }

    /// Opcodes 0x00-0x38 with z == 0: nop, ld [imm16] sp, stop, jr, jr cond.
    fn fde_x0_z0(&mut self, y: u8)
        requires
            old(self).wf(),
            y < 8,
        ensures
            final(self)@ == old(self)@.op_x0_z0(y),
            final(self).wf(),
    {
        proof {
            lemma_byte_ranges();
        }
        if y == 1 {
            // ld [imm16], sp
            let addr = self.fetch_value_u16();
            let sp = self.sp;

            self.write_ram(addr, sp as u8);
            self.write_ram(addr.wrapping_add(1), (sp >> 8u16) as u8);
        } else if y == 3 {
            // jr imm8
            let new_add = self.fetch_value_u8();
            self.pc = self.pc.wrapping_add(sign_extend_exec(new_add));

            self.increment_cpu_timer(1);
        } else if y & 0b100 > 1 {
            // jr cond, imm8
            let offset = self.fetch_value_u8();

            if self.check_condition(y) {
                self.increment_cpu_timer(1);
                self.pc = self.pc.wrapping_add(sign_extend_exec(offset));
            }
        } else {
            // nop (y == 0), stop (y == 2)
        }
    }

    /// Opcodes 0x07-0x3F with z == 7: rlca, rrca, rla, rra, daa, cpl, scf, ccf.
    fn fde_x0_z7(&mut self, y: u8)
        requires
            y < 8,
        ensures
            final(self)@ == old(self)@.op_x0_z7(y),
    {
        if y == 0 {
            // rlca
            let a = self.get_register_a();
            let last_bit = a >> 7u8;

            self.set_zero_flag(false);
            self.set_subtraction_flag(false);
            self.set_half_carry_flag(false);
            self.set_carry_flag(last_bit == 1);

            self.set_register_a(rotate_left_1(a));
        } else if y == 1 {
            // rrca
            let a = self.get_register_a();
            let first_bit = a & 1;

            self.set_zero_flag(false);
            self.set_subtraction_flag(false);
            self.set_half_carry_flag(false);
            self.set_carry_flag(first_bit == 1);

            self.set_register_a(rotate_right_1(a));
        } else if y == 2 {
            // rla
            let a = self.get_register_a();
            let carry: u8 = if self.get_carry_flag() {
                1
            } else {
                0
            };

            self.set_zero_flag(false);
            self.set_subtraction_flag(false);
            self.set_half_carry_flag(false);
            self.set_carry_flag((a & 0x80) > 1);

            let res = (a << 1u8) | carry;

            self.set_register_a(res);
        } else if y == 3 {
            // rra
            let a = self.get_register_a();
            let carry: u8 = if self.get_carry_flag() {
                1
            } else {
                0
            };

            self.set_zero_flag(false);
            self.set_subtraction_flag(false);
            self.set_half_carry_flag(false);
            self.set_carry_flag((a & 1) == 1);

            let res = (a >> 1u8) | (carry << 7u8);

            self.set_register_a(res);
        } else if y == 4 {
            // daa
            proof {
                assert(0u8 | 0x06u8 == 0x06u8 && 0x06u8 | 0x60u8 == 0x66u8 && 0u8 | 0x60u8 == 0x60u8)
                    by (bit_vector);
            }
            let mut a = self.get_register_a();
            let mut adjust = 0u8;
            let mut carry = self.get_carry_flag();

            if self.get_subtraction_flag() {
                if self.get_half_carry_flag() {
                    adjust |= 0x06;
                }
                if carry {
                    adjust |= 0x60;
                }
                a = a.wrapping_sub(adjust);
            } else {
                if self.get_half_carry_flag() || (a & 0x0F) > 0x09 {
                    adjust |= 0x06;
                }
                if carry || a > 0x99 {
                    adjust |= 0x60;
                    carry = true;
                }
                a = a.wrapping_add(adjust);
            }

            self.set_zero_flag(a == 0);
            self.set_half_carry_flag(false);
            self.set_carry_flag(carry);
            self.set_register_a(a);
        } else if y == 5 {
            // cpl
            let a = self.get_register_a();
            self.set_register_a(!a);
            self.set_subtraction_flag(true);
            self.set_half_carry_flag(true);
        } else if y == 6 {
            // scf
            self.set_subtraction_flag(false);
            self.set_half_carry_flag(false);
            self.set_carry_flag(true);
        } else {
            // ccf
            self.set_subtraction_flag(false);
            self.set_half_carry_flag(false);
            let carry = self.get_carry_flag();
            self.set_carry_flag(!carry);
        }
    }

    /// Opcodes 0xC0-0xFF.
    fn fde_x3(&mut self, y: u8, z: u8)
        requires
            old(self).wf(),
            y < 8,
            z < 8,
        ensures
            final(self)@ == old(self)@.op_x3(y, z),
            final(self).wf(),
    {
        proof {
            lemma_byte_ranges();
        }
        if z == 0 {
            self.fde_x3_z0(y);
        } else if z == 1 {
            self.fde_x3_z1(y);
        } else if z == 2 {
            self.fde_x3_z2(y);
        } else if z == 3 {
            self.fde_x3_z3(y);
        } else if z == 4 {
            if (y & 0b100) == 0 {
                // call cond, imm16
                let val = self.fetch_value_u16();

                if self.check_condition(y) {
                    let pc = self.pc;
                    self.push_to_stack(pc);
                    self.pc = val;
                    self.increment_cpu_timer(1);
                }
            }
        } else if z == 5 {
            if (y & 0b001) == 0 {
                // push r16stk
                let mut register = *self.get_r16stk(y);

                if y == 6 {
                    register &= 0xFFF0;
                }

                self.push_to_stack(register);
                self.increment_cpu_timer(1);
            } else if y == 1 {
                // call imm16
                let val = self.fetch_value_u16();
                let pc = self.pc;
                self.push_to_stack(pc);
                self.pc = val;
                self.increment_cpu_timer(1);
            }
        } else if z == 6 {
            // alu a, imm8
            let val = self.fetch_value_u8();
            self.handle_alu_op(y, val);
        } else {
            // rst tgt3
            let pc = self.pc;
            self.push_to_stack(pc);
            self.pc = 0x0000 + (8 * y as u16);  // jump to y * 8
            self.increment_cpu_timer(1);
        }
    }

    /// Opcodes 0xC0-0xF8 with z == 0: ret cond, ldh [imm8] a, add sp imm8, ldh a [imm8],
    /// ld hl sp+imm8.
    fn fde_x3_z0(&mut self, y: u8)
        requires
            old(self).wf(),
            y < 8,
        ensures
            final(self)@ == old(self)@.op_x3_z0(y),
            final(self).wf(),
    {
        proof {
            lemma_byte_ranges();
        }
        if (y & 0b100) == 0 {
            // ret cond
            self.increment_cpu_timer(1);

            if self.check_condition(y) {
                let pc = self.pop_from_stack();
                self.pc = pc;
                self.increment_cpu_timer(1);
            }
        } else if y == 4 {
            // ldh [imm8], a
            let val = self.fetch_value_u8() as u16;
            let a = self.get_register_a();

            self.write_ram((0xFF00_u16).wrapping_add(val), a);
        } else if y == 6 {
            // ldh a, [imm8]
            let addr = self.fetch_value_u8() as u16;
            let val = self.read_ram((0xFF00_u16).wrapping_add(addr));

            self.set_register_a(val);
        } else if y == 5 {
            // add sp, imm8
            let val = self.fetch_value_u8();
            let sum = self.sp.wrapping_add(sign_extend_exec(val));

            self.set_zero_flag(false);
            self.set_subtraction_flag(false);
            self.set_half_carry_flag((0x0F & self.sp) + (0x0F & (val as u16)) > 0x0F);
            self.set_carry_flag((self.sp & 0xFF) + (val as u16 & 0xFF) > 0xFF);

            self.sp = sum;

            self.increment_cpu_timer(2);
        } else {
            // ld hl, sp + imm8
            let val = self.fetch_value_u8();
            let sum = self.sp.wrapping_add(sign_extend_exec(val));

            self.set_zero_flag(false);
            self.set_subtraction_flag(false);
            self.set_half_carry_flag((self.sp & 0x0F) + (val as u16 & 0x0F) > 0x0F);
            self.set_carry_flag((self.sp & 0xFF) + (val as u16 & 0xFF) > 0xFF);

            self.hl = sum;

            self.increment_cpu_timer(1);
        }
    }

    /// Opcodes 0xC1-0xF9 with z == 1: pop r16stk, ret, reti, jp hl, ld sp hl.
    fn fde_x3_z1(&mut self, y: u8)
        requires
            old(self).wf(),
            y < 8,
        ensures
            final(self)@ == old(self)@.op_x3_z1(y),
            final(self).wf(),
    {
        if (y & 0b001) == 0 {
            // pop r16stk
            let val = self.pop_from_stack();

            if y == 6 {
                // force the bottom 4 bits to 0
                self.af = val & 0xFFF0;
            } else {
                let register = self.get_r16stk(y);
                *register = val;
            }
        } else if y == 1 {
            // ret
            let pc = self.pop_from_stack();
            self.pc = pc;
            self.increment_cpu_timer(1);
        } else if y == 3 {
            // reti
            self.interrupt_master_enable = true;
            let pc = self.pop_from_stack();
            self.pc = pc;
            self.increment_cpu_timer(1);
        } else if y == 5 {
            // jp hl
            self.pc = self.hl;
        } else {
            // ld sp, hl
            self.sp = self.hl;
            self.increment_cpu_timer(1);
        }
    }

    /// Opcodes 0xC2-0xFA with z == 2: jp cond, ldh [c] a, ld [imm16] a, ldh a [c], ld a [imm16].
    fn fde_x3_z2(&mut self, y: u8)
        requires
            old(self).wf(),
            y < 8,
        ensures
            final(self)@ == old(self)@.op_x3_z2(y),
            final(self).wf(),
    {
        proof {
            lemma_byte_ranges();
        }
        if (y & 0b100) == 0 {
            // jp cond, imm16
            let addr = self.fetch_value_u16();

            if self.check_condition(y) {
                self.pc = addr;
                self.increment_cpu_timer(1);
            }
        } else if y == 4 {
            // ldh [c], a
            let c = self.get_register_c();
            let a = self.get_register_a();

            self.write_ram((0xFF00_u16).wrapping_add(c as u16), a);
        } else if y == 5 {
            // ld [imm16], a
            let a = self.get_register_a();
            let addr = self.fetch_value_u16();

            self.write_ram(addr, a);
        } else if y == 6 {
            // ldh a, [c]
            let c = self.get_register_c();
            let val = self.read_ram((0xFF00_u16).wrapping_add(c as u16));

            self.set_register_a(val);
        } else {
            // ld a, [imm16]
            let addr = self.fetch_value_u16();
            let val = self.read_ram(addr);

            self.set_register_a(val);
        }
    }

    /// Opcodes 0xC3-0xFB with z == 3: jp imm16, the $CB prefix, di, ei.
    fn fde_x3_z3(&mut self, y: u8)
        requires
            old(self).wf(),
            y < 8,
        ensures
            final(self)@ == old(self)@.op_x3_z3(y),
            final(self).wf(),
    {
        if y == 0 {
            // jp imm16
            let pc = self.fetch_value_u16();
            self.pc = pc;
            self.increment_cpu_timer(1);
        } else if y == 1 {
            // $CB prefix instructions
            let ins = self.fetch_value_u8();
            self.handle_prefix_cb_instruction(ins);
        } else if y == 6 {
            // di
            self.interrupt_master_enable = false;
        } else if y == 7 {
            // ei
            self.interrupt_master_enable = true;
        }
    }

    /// One turn of the main loop: a halted CPU checks whether it wakes up; a running CPU
    /// executes one instruction and refreshes DIV.
    pub fn step(&mut self)
        requires
            old(self).wf(),
        ensures
            final(self)@ == old(self)@.step(),
            final(self).wf(),
    {
        if self.cpu_halted {
            let flags = self.read_ram(INTERRUPT_FLAG);
            if flags & self.interrupt_enable & 0x0F > 1 {
                self.cpu_halted = false;
            }
        }

        if !self.cpu_halted {
            self.fde();
            self.update_timers();
        }
    }
}

} // verus!
