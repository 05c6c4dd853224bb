//! The execution of each instruction form, one method each.
use vstd::prelude::*;

use crate::cpu::Cpu;
use crate::registers::{Flag, Reg16, Reg8};
use crate::semantics::{
    ld_a_ic, ld_a_ihl_move, ld_a_inn, ld_ic_a, ld_ihl_a_move, ld_ihl_n, ld_inn_a, ld_irr_r, ld_r_irr,
    ld_r_n, ld_r_r, ld_rr_nn, ld_sp_hl, ldh_a_in, ldh_in_a, ldhl_sp_n, ld_inn_sp, push_rr, pop_rr,
    pop_af, can_push, can_pop, add_a, adc_a, sub_a, sbc_a, and_a, or_a, xor_a, cp_a, inc8, dec8,
    Target8, half_carry, add_hl_rr, add_sp_n, inc_rr, dec_rr, shift, ShiftOp, daa, daa_defined,
    daa_value, cpl, ccf, scf, nop, rlca, rla, rrca, rra, rotate_left, shift_left_in, test_bit, set_bit, reset_bit,
    jp_nn, jp_cc_nn, jp_ihl, jr_n, jr_cc_n, call_nn, call_cc_nn, rst, rst_pushed, is_rst_opcode, ret,
    ret_cc, store_shifted,
};
use crate::alu::lemma_carry_weights;
use crate::state::{signed8, wrap16};

verus! {

impl Cpu {
    /// Moves the program counter past an instruction of `size` bytes.
    fn advance_pc(&mut self, size: u16)
        requires
            old(self)@.can_advance(size as int),
        ensures
            final(self)@ == old(self)@.advance(size as int),
    {
        let pc = self.reg16(Reg16::PC);
        self.set_reg16(Reg16::PC, pc + size);
    }

    /// Reads the little-endian 16-bit value at `address`.
    fn read_word(&self, address: u16) -> (value: u16)
        requires
            address < 0xFFFF,
        ensures
            value == self@.word_at(address as int),
    {
        let low = self.read_byte(address);
        let high = self.read_byte(address + 1);
        high as u16 * 256 + low as u16
    }

    /// Writes the little-endian 16-bit `value` at `address`.
    fn write_word(&mut self, address: u16, value: u16)
        requires
            address < 0xFFFF,
        ensures
            final(self)@ == old(self)@.with_word_at(address as int, value),
    {
        self.write_byte(address, (value % 256) as u8);
        self.write_byte(address + 1, (value / 256) as u8);
    }

    // -----------------------------------------------------------------------------------------
    // Loads
    // -----------------------------------------------------------------------------------------
    pub(crate) fn execute_LD_r_n(&mut self, dst_register: Reg8, immediate: &u8)
        requires
            old(self)@.can_advance(2),
        ensures
            final(self)@ == ld_r_n(old(self)@, dst_register, *immediate),
    {
        self.advance_pc(2);
        self.set_reg8(dst_register, *immediate);
    }

    pub(crate) fn execute_LD_r1_r2(&mut self, dst_register: Reg8, src_register: Reg8)
        requires
            old(self)@.can_advance(1),
        ensures
            final(self)@ == ld_r_r(old(self)@, dst_register, src_register),
    {
        self.advance_pc(1);
        let value = self.reg8(src_register);
        self.set_reg8(dst_register, value);
    }

    pub(crate) fn execute_LD_r1_Irr2(&mut self, dst_register: Reg8, src_register: Reg16)
        requires
            old(self)@.can_advance(1),
        ensures
            final(self)@ == ld_r_irr(old(self)@, dst_register, src_register),
    {
        self.advance_pc(1);
        let address = self.reg16(src_register);
        let value = self.read_byte(address);
        self.set_reg8(dst_register, value);
    }

    pub(crate) fn execute_LD_Irr1_r2(&mut self, dst_register: Reg16, src_register: Reg8)
        requires
            old(self)@.can_advance(1),
        ensures
            final(self)@ == ld_irr_r(old(self)@, dst_register, src_register),
    {
        self.advance_pc(1);
        let address = self.reg16(dst_register);
        let value = self.reg8(src_register);
        self.write_byte(address, value);
    }

    pub(crate) fn execute_LD_IHL_n(&mut self, immediate: &u8)
        requires
            old(self)@.can_advance(2),
        ensures
            final(self)@ == ld_ihl_n(old(self)@, *immediate),
    {
        self.advance_pc(2);
        let address = self.reg16(Reg16::HL);
        self.write_byte(address, *immediate);
    }

    pub(crate) fn execute_LD_A_Inn(&mut self, immediate: &u16)
        requires
            old(self)@.can_advance(3),
        ensures
            final(self)@ == ld_a_inn(old(self)@, *immediate),
    {
        self.advance_pc(3);
        let value = self.read_byte(*immediate);
        self.set_reg8(Reg8::A, value);
    }

    pub(crate) fn execute_LD_Inn_A(&mut self, immediate: &u16)
        requires
            old(self)@.can_advance(3),
        ensures
            final(self)@ == ld_inn_a(old(self)@, *immediate),
    {
        self.advance_pc(3);
        let value = self.reg8(Reg8::A);
        self.write_byte(*immediate, value);
    }

    pub(crate) fn execute_LD_A_IC(&mut self)
        requires
            old(self)@.can_advance(1),
        ensures
            final(self)@ == ld_a_ic(old(self)@),
    {
        self.advance_pc(1);
        let address = 0xFF00 + self.reg8(Reg8::C) as u16;
        let value = self.read_byte(address);
        self.set_reg8(Reg8::A, value);
    }

    pub(crate) fn execute_LD_IC_A(&mut self)
        requires
            old(self)@.can_advance(1),
        ensures
            final(self)@ == ld_ic_a(old(self)@),
    {
        self.advance_pc(1);
        let address = 0xFF00 + self.reg8(Reg8::C) as u16;
        let value = self.reg8(Reg8::A);
        self.write_byte(address, value);
    }

    pub(crate) fn execute_LDD_A_IHL(&mut self)
        requires
            old(self)@.can_advance(1),
        ensures
            final(self)@ == ld_a_ihl_move(old(self)@, -1),
    {
        self.advance_pc(1);
        let address = self.reg16(Reg16::HL);
        let value = self.read_byte(address);
        self.set_reg8(Reg8::A, value);
        let hl = self.reg16(Reg16::HL);
        self.set_reg16(Reg16::HL, hl.wrapping_sub(1));
    }

    pub(crate) fn execute_LDD_IHL_A(&mut self)
        requires
            old(self)@.can_advance(1),
        ensures
            final(self)@ == ld_ihl_a_move(old(self)@, -1),
    {
        self.advance_pc(1);
        let address = self.reg16(Reg16::HL);
        let value = self.reg8(Reg8::A);
        self.write_byte(address, value);
        let hl = self.reg16(Reg16::HL);
        self.set_reg16(Reg16::HL, hl.wrapping_sub(1));
    }

    pub(crate) fn execute_LDI_A_IHL(&mut self)
        requires
            old(self)@.can_advance(1),
        ensures
            final(self)@ == ld_a_ihl_move(old(self)@, 1),
    {
        self.advance_pc(1);
        let address = self.reg16(Reg16::HL);
        let value = self.read_byte(address);
        self.set_reg8(Reg8::A, value);
        let hl = self.reg16(Reg16::HL);
        self.set_reg16(Reg16::HL, hl.wrapping_add(1));
    }

    pub(crate) fn execute_LDI_IHL_A(&mut self)
        requires
            old(self)@.can_advance(1),
        ensures
            final(self)@ == ld_ihl_a_move(old(self)@, 1),
    {
        self.advance_pc(1);
        let address = self.reg16(Reg16::HL);
        let value = self.reg8(Reg8::A);
        self.write_byte(address, value);
        let hl = self.reg16(Reg16::HL);
        self.set_reg16(Reg16::HL, hl.wrapping_add(1));
    }

    pub(crate) fn execute_LDH_In_A(&mut self, immediate: &u8)
        requires
            old(self)@.can_advance(2),
        ensures
            final(self)@ == ldh_in_a(old(self)@, *immediate),
    {
        self.advance_pc(2);
        let address = 0xFF00 + *immediate as u16;
        let value = self.reg8(Reg8::A);
        self.write_byte(address, value);
    }

    pub(crate) fn execute_LDH_A_In(&mut self, immediate: &u8)
        requires
            old(self)@.can_advance(2),
        ensures
            final(self)@ == ldh_a_in(old(self)@, *immediate),
    {
        self.advance_pc(2);
        let address = 0xFF00 + *immediate as u16;
        let value = self.read_byte(address);
        self.set_reg8(Reg8::A, value);
    }

    pub(crate) fn execute_LD_rr_nn(&mut self, dst_register: Reg16, immediate: &u16)
        requires
            old(self)@.can_advance(3),
        ensures
            final(self)@ == ld_rr_nn(old(self)@, dst_register, *immediate),
    {
        self.advance_pc(3);
        self.set_reg16(dst_register, *immediate);
    }

    pub(crate) fn execute_LD_SP_HL(&mut self)
        requires
            old(self)@.can_advance(1),
        ensures
            final(self)@ == ld_sp_hl(old(self)@),
    {
        self.advance_pc(1);
        let hl = self.reg16(Reg16::HL);
        self.set_reg16(Reg16::SP, hl);
    }
    /// The 16-bit two's complement extension of a signed byte.
    fn sign_extend(immediate: u8) -> (extended: u16)
        ensures
            extended as int == wrap16(signed8(immediate)),
            extended % 16 == immediate % 16,
            extended % 256 == immediate,
    {
        if immediate < 128 {
            immediate as u16
        } else {
            0xFF00 + immediate as u16
        }
    }

    /// `SP` plus the signed `immediate`, with the carries out of bits 3 and 7 of the
    /// addition, as `LDHL SP, n` and `ADD SP, n` compute them.
    fn sp_plus_signed(&self, immediate: u8) -> (sum: (u16, bool, bool))
        ensures
            sum.0 == wrap16(self@.sp + signed8(immediate)),
            sum.1 == half_carry(self@.sp as int, immediate as int),
            sum.2 == (self@.sp % 256 + immediate >= 256),
    {
        let operand1 = self.reg16(Reg16::SP);
        let operand2 = Cpu::sign_extend(immediate);
        let result = operand1.wrapping_add(operand2);
        let flag_h_value = Cpu::compute_carry_flag(operand1, operand2, result, 4);
        let flag_c_value = Cpu::compute_carry_flag(operand1, operand2, result, 8);
        proof {
            lemma_carry_weights();
            assert(result == wrap16(operand1 + operand2));
            if immediate < 128 {
                assert(operand2 == immediate);
            } else {
                assert(operand2 == immediate + 0xFF00);
                assert(wrap16(operand1 + operand2) == wrap16(operand1 + signed8(immediate)));
            }
        }
        (result, flag_h_value, flag_c_value)
    }

    pub(crate) fn execute_LDHL_SP_n(&mut self, immediate: &u8)
        requires
            old(self)@.can_advance(2),
        ensures
            final(self)@ == ldhl_sp_n(old(self)@, *immediate),
    {
        self.advance_pc(2);
        let (result, flag_h_value, flag_c_value) = self.sp_plus_signed(*immediate);
        self.set_reg16(Reg16::HL, result);
        self.set_flag(Flag::z, false);
        self.set_flag(Flag::n, false);
        self.set_flag(Flag::h, flag_h_value);
        self.set_flag(Flag::c, flag_c_value);
    }

    pub(crate) fn execute_LD_Inn_SP(&mut self, immediate: &u16)
        requires
            old(self)@.can_advance(3),
            *immediate < 0xFFFF,
        ensures
            final(self)@ == ld_inn_sp(old(self)@, *immediate),
    {
        self.advance_pc(3);
        let sp = self.reg16(Reg16::SP);
        self.write_byte(*immediate, (sp % 256) as u8);
        self.write_byte(*immediate + 1, (sp / 256) as u8);
    }

    pub(crate) fn execute_PUSH_rr(&mut self, dst_register: Reg16)
        requires
            old(self)@.can_advance(1),
            can_push(old(self)@),
        ensures
            final(self)@ == push_rr(old(self)@, dst_register),
    {
        self.advance_pc(1);
        let new_sp = self.reg16(Reg16::SP).wrapping_sub(2);
        self.set_reg16(Reg16::SP, new_sp);
        let pushed = self.reg16(dst_register);
        self.write_word(new_sp, pushed);
    }

    pub(crate) fn execute_POP_rr(&mut self, dst_register: Reg16)
        requires
            old(self)@.can_advance(1),
            can_pop(old(self)@),
        ensures
            final(self)@ == pop_rr(old(self)@, dst_register),
    {
        self.advance_pc(1);
        let sp = self.reg16(Reg16::SP);
        let value = self.read_word(sp);
        self.set_reg16(dst_register, value);
        let new_sp = self.reg16(Reg16::SP).wrapping_add(2);
        self.set_reg16(Reg16::SP, new_sp);
    }

    pub(crate) fn execute_POP_AF(&mut self)
        requires
            old(self)@.can_advance(1),
            can_pop(old(self)@),
        ensures
            final(self)@ == pop_af(old(self)@),
    {
        self.advance_pc(1);
        let sp = self.reg16(Reg16::SP);
        let value = self.read_word(sp);
        let masked = value - value % 16;
        self.set_reg16(Reg16::AF, masked);
        let new_sp = self.reg16(Reg16::SP).wrapping_add(2);
        self.set_reg16(Reg16::SP, new_sp);
    }
    // -----------------------------------------------------------------------------------------
    // 8-bit arithmetic and logic
    // -----------------------------------------------------------------------------------------
    fn alu_add(&mut self, operand2: u8)
        ensures
            final(self)@ == add_a(old(self)@, operand2),
    {
        let operand1 = self.reg8(Reg8::A);
        let sum = operand1 as u16 + operand2 as u16;
        let result = (sum % 256) as u8;
        let carry = sum > 255;
        self.set_reg8(Reg8::A, result);
        self.set_flag(Flag::c, carry);
        self.set_flag(Flag::z, result == 0);
        self.set_flag(Flag::n, false);
        let flag_h_value = Cpu::compute_carry_flag(operand1 as u16, operand2 as u16, result as u16, 4);
        self.set_flag(Flag::h, flag_h_value);
        proof {
            lemma_carry_weights();
        }
    }

    fn alu_adc(&mut self, value: u8)
        ensures
            final(self)@ == adc_a(old(self)@, value),
    {
        let operand1 = self.reg8(Reg8::A) as u16;
        let carry_in: u16 = if self.get_flag(Flag::c) {
            1
        } else {
            0
        };
        let operand2 = value as u16 + carry_in;
        let result = operand1 + operand2;
        self.set_reg8(Reg8::A, (result % 256) as u8);
        let carry_set = result > 255;
        self.set_flag(Flag::c, carry_set);
        self.set_flag(Flag::z, result == 0);
        self.set_flag(Flag::n, false);
        let flag_h_value = Cpu::compute_carry_flag(operand1, operand2, result, 4);
        self.set_flag(Flag::h, flag_h_value);
        proof {
            lemma_carry_weights();
        }
    }

    fn alu_sub(&mut self, operand2: u8)
        ensures
            final(self)@ == sub_a(old(self)@, operand2),
    {
        let operand1 = self.reg8(Reg8::A);
        let result = operand1.wrapping_sub(operand2);
        let carry = operand1 < operand2;
        self.set_reg8(Reg8::A, result);
        self.set_flag(Flag::c, carry);
        self.set_flag(Flag::n, true);
        self.set_flag(Flag::z, result == 0);
        let flag_h_value = Cpu::compute_carry_flag(operand1 as u16, operand2 as u16, result as u16, 4);
        self.set_flag(Flag::h, flag_h_value);
        proof {
            lemma_carry_weights();
        }
    }

    fn alu_sbc(&mut self, value: u8)
        ensures
            final(self)@ == sbc_a(old(self)@, value),
    {
        let operand1 = self.reg8(Reg8::A) as u16;
        let carry_in: u16 = if self.get_flag(Flag::c) {
            1
        } else {
            0
        };
        let operand2 = value as u16 + carry_in;
        let result = operand1.wrapping_sub(operand2);
        let carry = operand1 < operand2;
        self.set_reg8(Reg8::A, (result % 256) as u8);
        self.set_flag(Flag::c, carry);
        self.set_flag(Flag::z, result == 0);
        self.set_flag(Flag::n, true);
        let flag_h_value = Cpu::compute_carry_flag(operand1, operand2, result, 4);
        self.set_flag(Flag::h, flag_h_value);
        proof {
            lemma_carry_weights();
        }
    }

    fn alu_and(&mut self, operand2: u8)
        ensures
            final(self)@ == and_a(old(self)@, operand2),
    {
        let result = self.reg8(Reg8::A) & operand2;
        self.set_reg8(Reg8::A, result);
        self.set_flag(Flag::z, result == 0);
        self.set_flag(Flag::n, false);
        self.set_flag(Flag::h, true);
        self.set_flag(Flag::c, false);
    }

    fn alu_or(&mut self, operand2: u8)
        ensures
            final(self)@ == or_a(old(self)@, operand2),
    {
        let result = self.reg8(Reg8::A) | operand2;
        self.set_reg8(Reg8::A, result);
        self.set_flag(Flag::z, result == 0);
        self.set_flag(Flag::n, false);
        self.set_flag(Flag::h, false);
        self.set_flag(Flag::c, false);
    }

    fn alu_xor(&mut self, operand2: u8)
        ensures
            final(self)@ == xor_a(old(self)@, operand2),
    {
        let result = self.reg8(Reg8::A) ^ operand2;
        self.set_reg8(Reg8::A, result);
        self.set_flag(Flag::z, result == 0);
        self.set_flag(Flag::n, false);
        self.set_flag(Flag::h, false);
        self.set_flag(Flag::c, false);
    }

    fn alu_cp(&mut self, operand2: u8)
        ensures
            final(self)@ == cp_a(old(self)@, operand2),
    {
        let operand1 = self.reg8(Reg8::A);
        let result = operand1.wrapping_sub(operand2);
        let carry = operand1 < operand2;
        self.set_flag(Flag::c, carry);
        self.set_flag(Flag::n, true);
        self.set_flag(Flag::z, result == 0);
        let flag_h_value = Cpu::compute_carry_flag(operand1 as u16, operand2 as u16, result as u16, 4);
        self.set_flag(Flag::h, flag_h_value);
        proof {
            lemma_carry_weights();
        }
    }

    pub(crate) fn execute_ADD_A_r(&mut self, dst_register: Reg8)
        requires
            old(self)@.can_advance(1),
        ensures
            final(self)@ == add_a(old(self)@.advance(1), old(self)@.reg8(dst_register)),
    {
        self.advance_pc(1);
        let operand2 = self.reg8(dst_register);
        self.alu_add(operand2);
    }

    pub(crate) fn execute_ADD_A_IHL(&mut self)
        requires
            old(self)@.can_advance(1),
        ensures
            final(self)@ == add_a(old(self)@.advance(1), old(self)@.byte(old(self)@.hl() as int)),
    {
        self.advance_pc(1);
        let address = self.reg16(Reg16::HL);
        let operand2 = self.read_byte(address);
        self.alu_add(operand2);
    }

    pub(crate) fn execute_ADD_A_n(&mut self, immediate: &u8)
        requires
            old(self)@.can_advance(2),
        ensures
            final(self)@ == add_a(old(self)@.advance(2), *immediate),
    {
        self.advance_pc(2);
        self.alu_add(*immediate);
    }

    pub(crate) fn execute_ADC_A_r(&mut self, dst_register: Reg8)
        requires
            old(self)@.can_advance(1),
        ensures
            final(self)@ == adc_a(old(self)@.advance(1), old(self)@.reg8(dst_register)),
    {
        self.advance_pc(1);
        let operand2 = self.reg8(dst_register);
        self.alu_adc(operand2);
    }

    pub(crate) fn execute_ADC_A_IHL(&mut self)
        requires
            old(self)@.can_advance(1),
        ensures
            final(self)@ == adc_a(old(self)@.advance(1), old(self)@.byte(old(self)@.hl() as int)),
    {
        self.advance_pc(1);
        let address = self.reg16(Reg16::HL);
        let operand2 = self.read_byte(address);
        self.alu_adc(operand2);
    }

    pub(crate) fn execute_ADC_A_n(&mut self, immediate: &u8)
        requires
            old(self)@.can_advance(2),
        ensures
            final(self)@ == adc_a(old(self)@.advance(2), *immediate),
    {
        self.advance_pc(2);
        self.alu_adc(*immediate);
    }

    pub(crate) fn execute_SUB_A_r(&mut self, dst_register: Reg8)
        requires
            old(self)@.can_advance(1),
        ensures
            final(self)@ == sub_a(old(self)@.advance(1), old(self)@.reg8(dst_register)),
    {
        self.advance_pc(1);
        let operand2 = self.reg8(dst_register);
        self.alu_sub(operand2);
    }

    pub(crate) fn execute_SUB_A_IHL(&mut self)
        requires
            old(self)@.can_advance(1),
        ensures
            final(self)@ == sub_a(old(self)@.advance(1), old(self)@.byte(old(self)@.hl() as int)),
    {
        self.advance_pc(1);
        let address = self.reg16(Reg16::HL);
        let operand2 = self.read_byte(address);
        self.alu_sub(operand2);
    }

    pub(crate) fn execute_SUB_A_n(&mut self, immediate: &u8)
        requires
            old(self)@.can_advance(2),
        ensures
            final(self)@ == sub_a(old(self)@.advance(2), *immediate),
    {
        self.advance_pc(2);
        self.alu_sub(*immediate);
    }

    pub(crate) fn execute_SBC_A_r(&mut self, dst_register: Reg8)
        requires
            old(self)@.can_advance(1),
        ensures
            final(self)@ == sbc_a(old(self)@.advance(1), old(self)@.reg8(dst_register)),
    {
        self.advance_pc(1);
        let operand2 = self.reg8(dst_register);
        self.alu_sbc(operand2);
    }

    pub(crate) fn execute_SBC_A_IHL(&mut self)
        requires
            old(self)@.can_advance(1),
        ensures
            final(self)@ == sbc_a(old(self)@.advance(1), old(self)@.byte(old(self)@.hl() as int)),
    {
        self.advance_pc(1);
        let address = self.reg16(Reg16::HL);
        let operand2 = self.read_byte(address);
        self.alu_sbc(operand2);
    }

    pub(crate) fn execute_SBC_A_n(&mut self, immediate: &u8)
        requires
            old(self)@.can_advance(2),
        ensures
            final(self)@ == sbc_a(old(self)@.advance(2), *immediate),
    {
        self.advance_pc(2);
        self.alu_sbc(*immediate);
    }

    pub(crate) fn execute_AND_A_r(&mut self, dst_register: Reg8)
        requires
            old(self)@.can_advance(1),
        ensures
            final(self)@ == and_a(old(self)@.advance(1), old(self)@.reg8(dst_register)),
    {
        self.advance_pc(1);
        let operand2 = self.reg8(dst_register);
        self.alu_and(operand2);
    }

    pub(crate) fn execute_AND_A_IHL(&mut self)
        requires
            old(self)@.can_advance(1),
        ensures
            final(self)@ == and_a(old(self)@.advance(1), old(self)@.byte(old(self)@.hl() as int)),
    {
        self.advance_pc(1);
        let address = self.reg16(Reg16::HL);
        let operand2 = self.read_byte(address);
        self.alu_and(operand2);
    }

    pub(crate) fn execute_AND_A_n(&mut self, immediate: &u8)
        requires
            old(self)@.can_advance(2),
        ensures
            final(self)@ == and_a(old(self)@.advance(2), *immediate),
    {
        self.advance_pc(2);
        self.alu_and(*immediate);
    }

    pub(crate) fn execute_OR_A_r(&mut self, dst_register: Reg8)
        requires
            old(self)@.can_advance(1),
        ensures
            final(self)@ == or_a(old(self)@.advance(1), old(self)@.reg8(dst_register)),
    {
        self.advance_pc(1);
        let operand2 = self.reg8(dst_register);
        self.alu_or(operand2);
    }

    pub(crate) fn execute_OR_A_IHL(&mut self)
        requires
            old(self)@.can_advance(1),
        ensures
            final(self)@ == or_a(old(self)@.advance(1), old(self)@.byte(old(self)@.hl() as int)),
    {
        self.advance_pc(1);
        let address = self.reg16(Reg16::HL);
        let operand2 = self.read_byte(address);
        self.alu_or(operand2);
    }

    pub(crate) fn execute_OR_A_n(&mut self, immediate: &u8)
        requires
            old(self)@.can_advance(2),
        ensures
            final(self)@ == or_a(old(self)@.advance(2), *immediate),
    {
        self.advance_pc(2);
        self.alu_or(*immediate);
    }

    pub(crate) fn execute_XOR_A_r(&mut self, dst_register: Reg8)
        requires
            old(self)@.can_advance(1),
        ensures
            final(self)@ == xor_a(old(self)@.advance(1), old(self)@.reg8(dst_register)),
    {
        self.advance_pc(1);
        let operand2 = self.reg8(dst_register);
        self.alu_xor(operand2);
    }

    pub(crate) fn execute_XOR_A_IHL(&mut self)
        requires
            old(self)@.can_advance(1),
        ensures
            final(self)@ == xor_a(old(self)@.advance(1), old(self)@.byte(old(self)@.hl() as int)),
    {
        self.advance_pc(1);
        let address = self.reg16(Reg16::HL);
        let operand2 = self.read_byte(address);
        self.alu_xor(operand2);
    }

    pub(crate) fn execute_XOR_A_n(&mut self, immediate: &u8)
        requires
            old(self)@.can_advance(2),
        ensures
            final(self)@ == xor_a(old(self)@.advance(2), *immediate),
    {
        self.advance_pc(2);
        self.alu_xor(*immediate);
    }

    pub(crate) fn execute_CP_A_r(&mut self, dst_register: Reg8)
        requires
            old(self)@.can_advance(1),
        ensures
            final(self)@ == cp_a(old(self)@.advance(1), old(self)@.reg8(dst_register)),
    {
        self.advance_pc(1);
        let operand2 = self.reg8(dst_register);
        self.alu_cp(operand2);
    }

    pub(crate) fn execute_CP_A_IHL(&mut self)
        requires
            old(self)@.can_advance(1),
        ensures
            final(self)@ == cp_a(old(self)@.advance(1), old(self)@.byte(old(self)@.hl() as int)),
    {
        self.advance_pc(1);
        let address = self.reg16(Reg16::HL);
        let operand2 = self.read_byte(address);
        self.alu_cp(operand2);
    }

    pub(crate) fn execute_CP_A_n(&mut self, immediate: &u8)
        requires
            old(self)@.can_advance(2),
        ensures
            final(self)@ == cp_a(old(self)@.advance(2), *immediate),
    {
        self.advance_pc(2);
        self.alu_cp(*immediate);
    }

    pub(crate) fn execute_INC_r(&mut self, dst_register: Reg8)
        requires
            old(self)@.can_advance(1),
        ensures
            final(self)@ == inc8(old(self)@, Target8::Reg(dst_register)),
    {
        self.advance_pc(1);
        let operand1 = self.reg8(dst_register);
        let result = operand1.wrapping_add(1);
        self.set_reg8(dst_register, result);
        self.set_flag(Flag::z, result == 0);
        self.set_flag(Flag::n, false);
        let flag_h_value = Cpu::compute_carry_flag(operand1 as u16, 1, result as u16, 4);
        self.set_flag(Flag::h, flag_h_value);
        proof {
            lemma_carry_weights();
        }
    }

    pub(crate) fn execute_INC_IHL(&mut self)
        requires
            old(self)@.can_advance(1),
        ensures
            final(self)@ == inc8(old(self)@, Target8::IndirectHL),
    {
        self.advance_pc(1);
        let address = self.reg16(Reg16::HL);
        let operand1 = self.read_byte(address);
        let result = operand1.wrapping_add(1);
        self.write_byte(address, result);
        self.set_flag(Flag::z, result == 0);
        self.set_flag(Flag::n, false);
        let flag_h_value = Cpu::compute_carry_flag(operand1 as u16, 1, result as u16, 4);
        self.set_flag(Flag::h, flag_h_value);
        proof {
            lemma_carry_weights();
        }
    }

    pub(crate) fn execute_DEC_r(&mut self, dst_register: Reg8)
        requires
            old(self)@.can_advance(1),
        ensures
            final(self)@ == dec8(old(self)@, Target8::Reg(dst_register)),
    {
        self.advance_pc(1);
        let operand1 = self.reg8(dst_register);
        let result = operand1.wrapping_sub(1);
        self.set_reg8(dst_register, result);
        self.set_flag(Flag::z, result == 0);
        self.set_flag(Flag::n, true);
        let flag_h_value = Cpu::compute_carry_flag(operand1 as u16, 1, result as u16, 4);
        self.set_flag(Flag::h, flag_h_value);
        proof {
            lemma_carry_weights();
        }
    }

    pub(crate) fn execute_DEC_IHL(&mut self)
        requires
            old(self)@.can_advance(1),
        ensures
            final(self)@ == dec8(old(self)@, Target8::IndirectHL),
    {
        self.advance_pc(1);
        let address = self.reg16(Reg16::HL);
        let operand1 = self.read_byte(address);
        let result = operand1.wrapping_sub(1);
        self.write_byte(address, result);
        self.set_flag(Flag::z, result == 0);
        self.set_flag(Flag::n, true);
        let flag_h_value = Cpu::compute_carry_flag(operand1 as u16, 1, result as u16, 4);
        self.set_flag(Flag::h, flag_h_value);
        proof {
            lemma_carry_weights();
        }
    }
    // -----------------------------------------------------------------------------------------
    // 16-bit arithmetic
    // -----------------------------------------------------------------------------------------
    pub(crate) fn execute_ADD_HL_rr(&mut self, dst_register: Reg16)
        requires
            old(self)@.can_advance(1),
        ensures
            final(self)@ == add_hl_rr(old(self)@, dst_register),
    {
        self.advance_pc(1);
        let operand1 = self.reg16(Reg16::HL);
        let operand2 = self.reg16(dst_register);
        let result = operand1.wrapping_add(operand2);
        let carry = operand1 as u32 + operand2 as u32 > 0xFFFF;
        self.set_reg16(Reg16::HL, result);
        self.set_flag(Flag::c, carry);
        self.set_flag(Flag::n, false);
        let flag_h_value = Cpu::compute_carry_flag(operand1, operand2, result, 12);
        self.set_flag(Flag::h, flag_h_value);
        proof {
            lemma_carry_weights();
        }
    }

    pub(crate) fn execute_ADD_SP_n(&mut self, immediate: &u8)
        requires
            old(self)@.can_advance(2),
        ensures
            final(self)@ == add_sp_n(old(self)@, *immediate),
    {
        self.advance_pc(2);
        let (result, flag_h_value, flag_c_value) = self.sp_plus_signed(*immediate);
        self.set_reg16(Reg16::SP, result);
        self.set_flag(Flag::z, false);
        self.set_flag(Flag::n, false);
        self.set_flag(Flag::h, flag_h_value);
        self.set_flag(Flag::c, flag_c_value);
    }

    pub(crate) fn execute_INC_rr(&mut self, dst_register: Reg16)
        requires
            old(self)@.can_advance(1),
        ensures
            final(self)@ == inc_rr(old(self)@, dst_register),
    {
        self.advance_pc(1);
        let operand1 = self.reg16(dst_register);
        let result = operand1.wrapping_add(1);
        assert(result == wrap16(operand1 + 1));
        self.set_reg16(dst_register, result);
    }

    pub(crate) fn execute_DEC_rr(&mut self, dst_register: Reg16)
        requires
            old(self)@.can_advance(1),
        ensures
            final(self)@ == dec_rr(old(self)@, dst_register),
    {
        self.advance_pc(1);
        let operand1 = self.reg16(dst_register);
        let result = operand1.wrapping_sub(1);
        assert(result == wrap16(operand1 - 1));
        self.set_reg16(dst_register, result);
    }

    // -----------------------------------------------------------------------------------------
    // Miscellaneous
    // -----------------------------------------------------------------------------------------
    pub(crate) fn execute_SWAP_r(&mut self, dst_register: Reg8)
        requires
            old(self)@.can_advance(2),
        ensures
            final(self)@ == shift(old(self)@, ShiftOp::Swap, Target8::Reg(dst_register)),
    {
        self.advance_pc(2);
        let value = self.reg8(dst_register);
        let result = value / 16 + (value % 16) * 16;
        self.set_reg8(dst_register, result);
        self.set_flag(Flag::z, result == 0);
        self.set_flag(Flag::n, false);
        self.set_flag(Flag::h, false);
        self.set_flag(Flag::c, false);
    }

    pub(crate) fn execute_SWAP_IHL(&mut self)
        requires
            old(self)@.can_advance(2),
        ensures
            final(self)@ == shift(old(self)@, ShiftOp::Swap, Target8::IndirectHL),
    {
        self.advance_pc(2);
        let address = self.reg16(Reg16::HL);
        let value = self.read_byte(address);
        let result = value / 16 + (value % 16) * 16;
        self.write_byte(address, result);
        self.set_flag(Flag::z, result == 0);
        self.set_flag(Flag::n, false);
        self.set_flag(Flag::h, false);
        self.set_flag(Flag::c, false);
    }

    pub(crate) fn execute_DAA(&mut self)
        requires
            old(self)@.can_advance(1),
            daa_defined(old(self)@),
        ensures
            final(self)@ == daa(old(self)@),
    {
        self.advance_pc(1);
        let ghost t = self@;
        let mut result = self.reg8(Reg8::A) as u16;
        self.set_reg8(Reg8::A, 0x00);
        self.set_flag(Flag::z, true);
        if self.get_flag(Flag::n) {
            if self.get_flag(Flag::h) {
                result = (result - 0x06) % 256;
            }
            if self.get_flag(Flag::c) {
                result = result - 0x60;
            }
        } else {
            if self.get_flag(Flag::h) || result % 16 > 0x09 {
                result = result + 0x06;
            }
            if self.get_flag(Flag::c) || result > 0x9F {
                result = result + 0x60;
            }
        }
        assert(result == daa_value(t.a, t.nf, t.hf, t.cf));
        if result % 256 == 0 {
            self.set_flag(Flag::z, true);
        }
        if (result / 256) % 2 == 1 {
            self.set_flag(Flag::c, true);
        }
        self.set_flag(Flag::h, false);
        self.set_reg8(Reg8::A, (result % 256) as u8);
    }

    pub(crate) fn execute_CPL(&mut self)
        requires
            old(self)@.can_advance(1),
        ensures
            final(self)@ == cpl(old(self)@),
    {
        self.advance_pc(1);
        let value = self.reg8(Reg8::A);
        self.set_reg8(Reg8::A, 255 - value);
        self.set_flag(Flag::n, true);
        self.set_flag(Flag::h, true);
    }

    pub(crate) fn execute_CCF(&mut self)
        requires
            old(self)@.can_advance(1),
        ensures
            final(self)@ == ccf(old(self)@),
    {
        self.advance_pc(1);
        let cf_value = self.get_flag(Flag::c);
        self.set_flag(Flag::c, !cf_value);
        self.set_flag(Flag::n, false);
        self.set_flag(Flag::h, false);
    }

    pub(crate) fn execute_SCF(&mut self)
        requires
            old(self)@.can_advance(1),
        ensures
            final(self)@ == scf(old(self)@),
    {
        self.advance_pc(1);
        self.set_flag(Flag::c, true);
        self.set_flag(Flag::n, false);
        self.set_flag(Flag::h, false);
    }

    pub(crate) fn execute_NOP(&mut self)
        requires
            old(self)@.can_advance(1),
        ensures
            final(self)@ == nop(old(self)@),
    {
        self.advance_pc(1);
    }
    // -----------------------------------------------------------------------------------------
    // Rotations and shifts
    // -----------------------------------------------------------------------------------------
    pub(crate) fn execute_RLCA(&mut self)
        requires
            old(self)@.can_advance(1),
        ensures
            final(self)@ == rlca(old(self)@),
    {
        self.advance_pc(1);
        let value = self.reg8(Reg8::A);
        self.set_flag(Flag::c, value >= 0b1000_0000);
        let value = self.reg8(Reg8::A);
        let result = (value % 128) * 2 + value / 128;
        assert(result == rotate_left(value));
        self.set_reg8(Reg8::A, result);
        self.set_flag(Flag::z, result == 0);
        self.set_flag(Flag::n, false);
        self.set_flag(Flag::h, false);
    }

    pub(crate) fn execute_RLA(&mut self)
        requires
            old(self)@.can_advance(1),
        ensures
            final(self)@ == rla(old(self)@),
    {
        self.advance_pc(1);
        let value = self.reg8(Reg8::A);
        let new_carry = value >= 0b1000_0000;
        let carry_flag = self.get_flag(Flag::c);
        let carry_in: u8 = if carry_flag {
            1
        } else {
            0
        };
        let result = (value % 128) * 2 + carry_in;
        assert(result == shift_left_in(value, carry_flag));
        self.set_reg8(Reg8::A, result);
        self.set_flag(Flag::c, new_carry);
        self.set_flag(Flag::z, result == 0);
        self.set_flag(Flag::n, false);
        self.set_flag(Flag::h, false);
    }

    pub(crate) fn execute_RRCA(&mut self)
        requires
            old(self)@.can_advance(1),
        ensures
            final(self)@ == rrca(old(self)@),
    {
        self.advance_pc(1);
        let value = self.reg8(Reg8::A);
        self.set_flag(Flag::c, value % 2 != 0);
        let value = self.reg8(Reg8::A);
        let result = value / 2 + (value % 2) * 128;
        self.set_reg8(Reg8::A, result);
        self.set_flag(Flag::z, result == 0);
        self.set_flag(Flag::n, false);
        self.set_flag(Flag::h, false);
    }

    pub(crate) fn execute_RRA(&mut self)
        requires
            old(self)@.can_advance(1),
        ensures
            final(self)@ == rra(old(self)@),
    {
        self.advance_pc(1);
        let value = self.reg8(Reg8::A);
        let new_carry = value % 2 != 0;
        let mut result = value / 2;
        if self.get_flag(Flag::c) {
            result = result + 0b1000_0000;
        }
        self.set_reg8(Reg8::A, result);
        self.set_flag(Flag::c, new_carry);
        self.set_flag(Flag::z, result == 0);
        self.set_flag(Flag::n, false);
        self.set_flag(Flag::h, false);
    }


    /// Stores the result of a rotation or shift and sets the flags: `z` from the result, `n`
    /// and `h` cleared, `c` as given.
    fn store_shifted_result(&mut self, target: Target8, result: u8, carry: bool)
        ensures
            final(self)@ == store_shifted(old(self)@, target, result, carry),
    {
        match target {
            Target8::Reg(register) => self.set_reg8(register, result),
            Target8::IndirectHL => {
                let address = self.reg16(Reg16::HL);
                self.write_byte(address, result);
            },
        }
        self.set_flag(Flag::c, carry);
        self.set_flag(Flag::z, result == 0);
        self.set_flag(Flag::n, false);
        self.set_flag(Flag::h, false);
    }

    pub(crate) fn execute_RLC_r(&mut self, dst_register: Reg8)
        requires
            old(self)@.can_advance(2),
        ensures
            final(self)@ == shift(old(self)@, ShiftOp::Rlc, Target8::Reg(dst_register)),
    {
        self.advance_pc(2);
        let value = self.reg8(dst_register);
        self.set_flag(Flag::c, value >= 0b1000_0000);
        let value = self.reg8(dst_register);
        let result = (value % 128) * 2 + value / 128;
        assert(result == rotate_left(value));
        self.set_reg8(dst_register, result);
        self.set_flag(Flag::z, result == 0);
        self.set_flag(Flag::n, false);
        self.set_flag(Flag::h, false);
    }

    pub(crate) fn execute_RLC_IHL(&mut self)
        requires
            old(self)@.can_advance(2),
        ensures
            final(self)@ == shift(old(self)@, ShiftOp::Rlc, Target8::IndirectHL),
    {
        self.advance_pc(2);
        let address = self.reg16(Reg16::HL);
        let value = self.read_byte(address);
        self.set_flag(Flag::c, value >= 0b1000_0000);
        let value = self.read_byte(address);
        let result = (value % 128) * 2 + value / 128;
        assert(result == rotate_left(value));
        self.write_byte(address, result);
        self.set_flag(Flag::z, result == 0);
        self.set_flag(Flag::n, false);
        self.set_flag(Flag::h, false);
    }

    pub(crate) fn execute_RL_r(&mut self, dst_register: Reg8)
        requires
            old(self)@.can_advance(2),
        ensures
            final(self)@ == shift(old(self)@, ShiftOp::Rl, Target8::Reg(dst_register)),
    {
        self.advance_pc(2);
        let value = self.reg8(dst_register);
        let new_carry = value >= 0b1000_0000;
        let carry_flag = self.get_flag(Flag::c);
        let carry_in: u8 = if carry_flag {
            1
        } else {
            0
        };
        let result = (value % 128) * 2 + carry_in;
        assert(result == shift_left_in(value, carry_flag));
        self.store_shifted_result(Target8::Reg(dst_register), result, new_carry);
    }

    pub(crate) fn execute_RL_IHL(&mut self)
        requires
            old(self)@.can_advance(2),
        ensures
            final(self)@ == shift(old(self)@, ShiftOp::Rl, Target8::IndirectHL),
    {
        self.advance_pc(2);
        let address = self.reg16(Reg16::HL);
        let value = self.read_byte(address);
        let new_carry = value >= 0b1000_0000;
        let carry_flag = self.get_flag(Flag::c);
        let carry_in: u8 = if carry_flag {
            1
        } else {
            0
        };
        let result = (value % 128) * 2 + carry_in;
        assert(result == shift_left_in(value, carry_flag));
        self.store_shifted_result(Target8::IndirectHL, result, new_carry);
    }

    pub(crate) fn execute_RRC_r(&mut self, dst_register: Reg8)
        requires
            old(self)@.can_advance(2),
        ensures
            final(self)@ == shift(old(self)@, ShiftOp::Rrc, Target8::Reg(dst_register)),
    {
        self.advance_pc(2);
        let value = self.reg8(dst_register);
        let new_carry = value % 2 != 0;
        let mut result = value / 2;
        if self.get_flag(Flag::c) {
            result = result + 0b1000_0000;
        }
        self.store_shifted_result(Target8::Reg(dst_register), result, new_carry);
    }

    pub(crate) fn execute_RRC_IHL(&mut self)
        requires
            old(self)@.can_advance(2),
        ensures
            final(self)@ == shift(old(self)@, ShiftOp::Rrc, Target8::IndirectHL),
    {
        self.advance_pc(2);
        let address = self.reg16(Reg16::HL);
        let value = self.read_byte(address);
        let new_carry = value % 2 != 0;
        let mut result = value / 2;
        if self.get_flag(Flag::c) {
            result = result + 0b1000_0000;
        }
        self.store_shifted_result(Target8::IndirectHL, result, new_carry);
    }

    pub(crate) fn execute_RR_r(&mut self, dst_register: Reg8)
        requires
            old(self)@.can_advance(2),
        ensures
            final(self)@ == shift(old(self)@, ShiftOp::Rr, Target8::Reg(dst_register)),
    {
        self.advance_pc(2);
        let value = self.reg8(dst_register);
        let new_carry = value % 2 != 0;
        let mut result = value / 2;
        if self.get_flag(Flag::c) {
            result = result + 0b1000_0000;
        }
        self.store_shifted_result(Target8::Reg(dst_register), result, new_carry);
    }

    pub(crate) fn execute_RR_IHL(&mut self)
        requires
            old(self)@.can_advance(2),
        ensures
            final(self)@ == shift(old(self)@, ShiftOp::Rr, Target8::IndirectHL),
    {
        self.advance_pc(2);
        let address = self.reg16(Reg16::HL);
        let value = self.read_byte(address);
        let new_carry = value % 2 != 0;
        let mut result = value / 2;
        if self.get_flag(Flag::c) {
            result = result + 0b1000_0000;
        }
        self.store_shifted_result(Target8::IndirectHL, result, new_carry);
    }

    pub(crate) fn execute_SLA_r(&mut self, dst_register: Reg8)
        requires
            old(self)@.can_advance(2),
        ensures
            final(self)@ == shift(old(self)@, ShiftOp::Sla, Target8::Reg(dst_register)),
    {
        self.advance_pc(2);
        let value = self.reg8(dst_register);
        let new_carry = value >= 0b1000_0000;
        let result = (value % 128) * 2;
        assert(result == shift_left_in(value, false));
        self.store_shifted_result(Target8::Reg(dst_register), result, new_carry);
    }

    pub(crate) fn execute_SLA_IHL(&mut self)
        requires
            old(self)@.can_advance(2),
        ensures
            final(self)@ == shift(old(self)@, ShiftOp::Sla, Target8::IndirectHL),
    {
        self.advance_pc(2);
        let address = self.reg16(Reg16::HL);
        let value = self.read_byte(address);
        let new_carry = value >= 0b1000_0000;
        let result = (value % 128) * 2;
        assert(result == shift_left_in(value, false));
        self.store_shifted_result(Target8::IndirectHL, result, new_carry);
    }

    pub(crate) fn execute_SRA_r(&mut self, dst_register: Reg8)
        requires
            old(self)@.can_advance(2),
        ensures
            final(self)@ == shift(old(self)@, ShiftOp::Sra, Target8::Reg(dst_register)),
    {
        self.advance_pc(2);
        let value = self.reg8(dst_register);
        let new_carry = value % 2 != 0;
        let old_msb: u8 = if value >= 0b1000_0000 {
            0b1000_0000
        } else {
            0
        };
        let result = value / 2 + old_msb;
        self.store_shifted_result(Target8::Reg(dst_register), result, new_carry);
    }

    pub(crate) fn execute_SRA_IHL(&mut self)
        requires
            old(self)@.can_advance(2),
        ensures
            final(self)@ == shift(old(self)@, ShiftOp::Sra, Target8::IndirectHL),
    {
        self.advance_pc(2);
        let address = self.reg16(Reg16::HL);
        let value = self.read_byte(address);
        let new_carry = value % 2 != 0;
        let old_msb: u8 = if value >= 0b1000_0000 {
            0b1000_0000
        } else {
            0
        };
        let result = value / 2 + old_msb;
        self.store_shifted_result(Target8::IndirectHL, result, new_carry);
    }

    pub(crate) fn execute_SRL_r(&mut self, dst_register: Reg8)
        requires
            old(self)@.can_advance(2),
        ensures
            final(self)@ == shift(old(self)@, ShiftOp::Srl, Target8::Reg(dst_register)),
    {
        self.advance_pc(2);
        let value = self.reg8(dst_register);
        let new_carry = value >= 0b1000_0000;
        let result = (value % 128) * 2;
        assert(result == shift_left_in(value, false));
        self.store_shifted_result(Target8::Reg(dst_register), result, new_carry);
    }

    pub(crate) fn execute_SRL_IHL(&mut self)
        requires
            old(self)@.can_advance(2),
        ensures
            final(self)@ == shift(old(self)@, ShiftOp::Srl, Target8::IndirectHL),
    {
        self.advance_pc(2);
        let address = self.reg16(Reg16::HL);
        let value = self.read_byte(address);
        let new_carry = value >= 0b1000_0000;
        let result = (value % 128) * 2;
        assert(result == shift_left_in(value, false));
        self.store_shifted_result(Target8::IndirectHL, result, new_carry);
    }

    // -----------------------------------------------------------------------------------------
    // Single bits
    // -----------------------------------------------------------------------------------------
    pub(crate) fn execute_BIT_n_r(&mut self, immediate: &u8, src_register: Reg8)
        requires
            old(self)@.can_advance(2),
            *immediate < 8,
        ensures
            final(self)@ == test_bit(old(self)@, *immediate, Target8::Reg(src_register)),
    {
        self.advance_pc(2);
        let bitmask: u8 = 1u8 << *immediate;
        let result = self.reg8(src_register) & bitmask;
        self.set_flag(Flag::z, result == 0);
        self.set_flag(Flag::n, false);
        self.set_flag(Flag::h, true);
    }

    pub(crate) fn execute_BIT_n_IHL(&mut self, immediate: &u8)
        requires
            old(self)@.can_advance(2),
            *immediate < 8,
        ensures
            final(self)@ == test_bit(old(self)@, *immediate, Target8::IndirectHL),
    {
        self.advance_pc(2);
        let address = self.reg16(Reg16::HL);
        let bitmask: u8 = 1u8 << *immediate;
        let result = self.read_byte(address) & bitmask;
        self.set_flag(Flag::z, result == 0);
        self.set_flag(Flag::n, false);
        self.set_flag(Flag::h, true);
    }

    pub(crate) fn execute_SET_n_r(&mut self, immediate: &u8, src_register: Reg8)
        requires
            old(self)@.can_advance(2),
            *immediate < 8,
        ensures
            final(self)@ == set_bit(old(self)@, *immediate, Target8::Reg(src_register)),
    {
        self.advance_pc(2);
        let bitmask: u8 = 1u8 << *immediate;
        let value = self.reg8(src_register);
        self.set_reg8(src_register, value | bitmask);
    }

    pub(crate) fn execute_SET_n_IHL(&mut self, immediate: &u8)
        requires
            old(self)@.can_advance(2),
            *immediate < 8,
        ensures
            final(self)@ == set_bit(old(self)@, *immediate, Target8::IndirectHL),
    {
        self.advance_pc(2);
        let address = self.reg16(Reg16::HL);
        let bitmask: u8 = 1u8 << *immediate;
        let value = self.read_byte(address);
        self.write_byte(address, value | bitmask);
    }

    pub(crate) fn execute_RES_n_r(&mut self, immediate: &u8, src_register: Reg8)
        requires
            old(self)@.can_advance(2),
            *immediate < 8,
        ensures
            final(self)@ == reset_bit(old(self)@, *immediate, Target8::Reg(src_register)),
    {
        self.advance_pc(2);
        let bitmask: u8 = !(1u8 << *immediate);
        let value = self.reg8(src_register);
        self.set_reg8(src_register, value & bitmask);
    }

    pub(crate) fn execute_RES_n_IHL(&mut self, immediate: &u8)
        requires
            old(self)@.can_advance(2),
            *immediate < 8,
        ensures
            final(self)@ == reset_bit(old(self)@, *immediate, Target8::IndirectHL),
    {
        self.advance_pc(2);
        let address = self.reg16(Reg16::HL);
        let bitmask: u8 = !(1u8 << *immediate);
        let value = self.read_byte(address);
        self.write_byte(address, value & bitmask);
    }
    // -----------------------------------------------------------------------------------------
    // Jumps, calls and returns
    // -----------------------------------------------------------------------------------------
    pub(crate) fn execute_JP_nn(&mut self, immediate: &u16)
        ensures
            final(self)@ == jp_nn(old(self)@, *immediate),
    {
        self.set_reg16(Reg16::PC, *immediate);
    }

    pub(crate) fn execute_JP_cc_nn(&mut self, flag: Flag, flag_condition: bool, immediate: &u16)
        requires
            old(self)@.condition(flag, flag_condition) || old(self)@.can_advance(3),
        ensures
            final(self)@ == jp_cc_nn(old(self)@, flag, flag_condition, *immediate),
    {
        if self.get_flag(flag) == flag_condition {
            self.set_reg16(Reg16::PC, *immediate);
        } else {
            self.advance_pc(3);
        }
    }

    pub(crate) fn execute_JP_IHL(&mut self)
        ensures
            final(self)@ == jp_ihl(old(self)@),
    {
        let hl = self.reg16(Reg16::HL);
        self.set_reg16(Reg16::PC, hl);
    }

    /// The program counter moved by the signed `immediate`, wrapping around memory.
    fn pc_plus_signed(&self, immediate: u8) -> (target: u16)
        ensures
            target == wrap16(self@.pc + signed8(immediate)),
    {
        let operand1 = self.reg16(Reg16::PC);
        let operand2 = Cpu::sign_extend(immediate);
        let result = operand1.wrapping_add(operand2);
        proof {
            if immediate >= 128 {
                assert(operand2 == immediate + 0xFF00);
                assert(wrap16(operand1 + operand2) == wrap16(operand1 + signed8(immediate)));
            }
        }
        result
    }

    pub(crate) fn execute_JR_n(&mut self, immediate: &u8)
        ensures
            final(self)@ == jr_n(old(self)@, *immediate),
    {
        let result = self.pc_plus_signed(*immediate);
        self.set_reg16(Reg16::PC, result);
    }

    pub(crate) fn execute_JR_cc_n(&mut self, flag: Flag, flag_condition: bool, immediate: &u8)
        requires
            old(self)@.condition(flag, flag_condition) || old(self)@.can_advance(2),
        ensures
            final(self)@ == jr_cc_n(old(self)@, flag, flag_condition, *immediate),
    {
        if self.get_flag(flag) == flag_condition {
            let result = self.pc_plus_signed(*immediate);
            self.set_reg16(Reg16::PC, result);
        } else {
            self.advance_pc(2);
        }
    }

    /// Pushes the address of the instruction after a three-byte call, and jumps.
    fn call(&mut self, immediate: u16)
        requires
            can_push(old(self)@),
        ensures
            final(self)@ == call_nn(old(self)@, immediate),
    {
        let new_sp = self.reg16(Reg16::SP).wrapping_sub(2);
        self.set_reg16(Reg16::SP, new_sp);
        let stored_address = self.reg16(Reg16::PC).wrapping_add(3);
        self.write_word(new_sp, stored_address);
        self.set_reg16(Reg16::PC, immediate);
    }

    pub(crate) fn execute_CALL_nn(&mut self, immediate: &u16)
        requires
            can_push(old(self)@),
        ensures
            final(self)@ == call_nn(old(self)@, *immediate),
    {
        self.call(*immediate);
    }

    pub(crate) fn execute_CALL_cc_nn(&mut self, flag: Flag, flag_condition: bool, immediate: &u16)
        requires
            if old(self)@.condition(flag, flag_condition) {
                can_push(old(self)@)
            } else {
                old(self)@.can_advance(3)
            },
        ensures
            final(self)@ == call_cc_nn(old(self)@, flag, flag_condition, *immediate),
    {
        if self.get_flag(flag) == flag_condition {
            self.call(*immediate);
        } else {
            self.advance_pc(3);
        }
    }

    pub(crate) fn execute_RST(&mut self)
        requires
            can_push(old(self)@),
            is_rst_opcode(rst_pushed(old(self)@).byte(old(self)@.pc as int)),
        ensures
            final(self)@ == rst(old(self)@),
    {
        let new_sp = self.reg16(Reg16::SP).wrapping_sub(2);
        self.set_reg16(Reg16::SP, new_sp);
        let pc = self.reg16(Reg16::PC);
        self.write_word(new_sp, pc);
        let opcode = self.read_byte(pc);
        let destination_address: u16 = match opcode {
            0xC7 => 0x00,
            0xCF => 0x08,
            0xD7 => 0x10,
            0xDF => 0x18,
            0xE7 => 0x20,
            0xEF => 0x28,
            0xF7 => 0x30,
            0xFF => 0x38,
            _ => {
                proof {
                    assert(false);
                }
                0x00
            },
        };
        self.set_reg16(Reg16::PC, destination_address);
    }

    /// Pops the return address into the program counter.
    fn return_from_call(&mut self)
        requires
            can_pop(old(self)@),
        ensures
            final(self)@ == ret(old(self)@),
    {
        let sp = self.reg16(Reg16::SP);
        let address = self.read_word(sp);
        self.set_reg16(Reg16::PC, address);
        let new_sp = self.reg16(Reg16::SP).wrapping_add(2);
        self.set_reg16(Reg16::SP, new_sp);
    }

    pub(crate) fn execute_RET(&mut self)
        requires
            can_pop(old(self)@),
        ensures
            final(self)@ == ret(old(self)@),
    {
        self.return_from_call();
    }

    pub(crate) fn execute_RET_cc(&mut self, flag: Flag, flag_condition: bool)
        requires
            if old(self)@.condition(flag, flag_condition) {
                can_pop(old(self)@)
            } else {
                old(self)@.can_advance(1)
            },
        ensures
            final(self)@ == ret_cc(old(self)@, flag, flag_condition),
    {
        if self.get_flag(flag) == flag_condition {
            self.return_from_call();
        } else {
            self.advance_pc(1);
        }
    }
}

} // verus!
