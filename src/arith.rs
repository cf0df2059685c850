//! 8-bit and 16-bit arithmetic and logic, and the flag instructions.
use vstd::prelude::*;

use crate::alu::{alu8, ALU_ADC, ALU_ADD, ALU_AND, ALU_CP, ALU_OR, ALU_SBC, ALU_SUB, ALU_XOR};
use crate::cpu::Cpu;
use crate::flags::{lemma_flag_masks, CF, HF, NF, ZF};
use crate::loads::signed_offset;
use crate::registers::{is_r8, A_ID, HL_ID};
use crate::semantics;
use crate::semantics::{op_y, op_z};
use crate::state::ProgramCounter;

verus! {

impl Cpu {
    /// Applies ALU operation `kind` to A and `b`: A gets the result (but for CP) and F the
    /// flags.
    pub fn apply_alu(&mut self, kind: u8, b: u8)
        requires
            kind < 8,
        ensures
            final(self)@ == semantics::alu_op(old(self)@, kind, b),
    {
        let (res, flags) = alu8(kind, self.reg.a, b, self.reg.f);
        self.reg.a = res;
        self.reg.f = flags;
    }

    /// The register in bits 2-0 of the opcode.
    fn source_r8(&self) -> (r: u8)
        requires
            is_r8(op_z(self@.opcode())),
        ensures
            r == self.reg.r8(op_z(self@.opcode())),
    {
        let idx = self.get_r8_from();
        self.read_from_r8(idx).unwrap()
    }

    /// The byte at HL.
    fn hl_operand(&self) -> (r: u8)
        ensures
            r == self@.hl_byte(),
    {
        self.interconnect.read(self.reg.hl())
    }

    /// ADD A,r.
    pub fn add_ar(&mut self) -> (r: ProgramCounter)
        requires
            is_r8(op_z(old(self)@.opcode())),
        ensures
            (final(self)@, r) == semantics::alu_r(old(self)@, ALU_ADD),
    {
        let b = self.source_r8();
        self.apply_alu(ALU_ADD, b);
        ProgramCounter::Next(1, 1)
    }

    /// ADD A,n.
    pub fn add_an(&mut self) -> (r: ProgramCounter)
        ensures
            (final(self)@, r) == semantics::alu_n(old(self)@, ALU_ADD),
    {
        let b = self.get_n();
        self.apply_alu(ALU_ADD, b);
        ProgramCounter::Next(2, 2)
    }

    /// ADD A,(HL).
    pub fn add_ahl(&mut self) -> (r: ProgramCounter)
        ensures
            (final(self)@, r) == semantics::alu_hl(old(self)@, ALU_ADD),
    {
        let b = self.hl_operand();
        self.apply_alu(ALU_ADD, b);
        ProgramCounter::Next(1, 2)
    }

    /// ADC A,r.
    pub fn adc_ar(&mut self) -> (r: ProgramCounter)
        requires
            is_r8(op_z(old(self)@.opcode())),
        ensures
            (final(self)@, r) == semantics::alu_r(old(self)@, ALU_ADC),
    {
        let b = self.source_r8();
        self.apply_alu(ALU_ADC, b);
        ProgramCounter::Next(1, 1)
    }

    /// ADC A,n.
    pub fn adc_an(&mut self) -> (r: ProgramCounter)
        ensures
            (final(self)@, r) == semantics::alu_n(old(self)@, ALU_ADC),
    {
        let b = self.get_n();
        self.apply_alu(ALU_ADC, b);
        ProgramCounter::Next(2, 2)
    }

    /// ADC A,(HL).
    pub fn adc_ahl(&mut self) -> (r: ProgramCounter)
        ensures
            (final(self)@, r) == semantics::alu_hl(old(self)@, ALU_ADC),
    {
        let b = self.hl_operand();
        self.apply_alu(ALU_ADC, b);
        ProgramCounter::Next(1, 2)
    }

    /// SUB r.
    pub fn sub_r(&mut self) -> (r: ProgramCounter)
        requires
            is_r8(op_z(old(self)@.opcode())),
        ensures
            (final(self)@, r) == semantics::alu_r(old(self)@, ALU_SUB),
    {
        let b = self.source_r8();
        self.apply_alu(ALU_SUB, b);
        ProgramCounter::Next(1, 1)
    }

    /// SUB n.
    pub fn sub_n(&mut self) -> (r: ProgramCounter)
        ensures
            (final(self)@, r) == semantics::alu_n(old(self)@, ALU_SUB),
    {
        let b = self.get_n();
        self.apply_alu(ALU_SUB, b);
        ProgramCounter::Next(2, 2)
    }

    /// SUB (HL).
    pub fn sub_hl(&mut self) -> (r: ProgramCounter)
        ensures
            (final(self)@, r) == semantics::alu_hl(old(self)@, ALU_SUB),
    {
        let b = self.hl_operand();
        self.apply_alu(ALU_SUB, b);
        ProgramCounter::Next(1, 2)
    }

    /// SBC A,r.
    pub fn sbc_ar(&mut self) -> (r: ProgramCounter)
        requires
            is_r8(op_z(old(self)@.opcode())),
        ensures
            (final(self)@, r) == semantics::alu_r(old(self)@, ALU_SBC),
    {
        let b = self.source_r8();
        self.apply_alu(ALU_SBC, b);
        ProgramCounter::Next(1, 1)
    }

    /// SBC A,n.
    pub fn sbc_an(&mut self) -> (r: ProgramCounter)
        ensures
            (final(self)@, r) == semantics::alu_n(old(self)@, ALU_SBC),
    {
        let b = self.get_n();
        self.apply_alu(ALU_SBC, b);
        ProgramCounter::Next(2, 2)
    }

    /// SBC A,(HL).
    pub fn sbc_ahl(&mut self) -> (r: ProgramCounter)
        ensures
            (final(self)@, r) == semantics::alu_hl(old(self)@, ALU_SBC),
    {
        let b = self.hl_operand();
        self.apply_alu(ALU_SBC, b);
        ProgramCounter::Next(1, 2)
    }

    /// AND r.
    pub fn and_r(&mut self) -> (r: ProgramCounter)
        requires
            is_r8(op_z(old(self)@.opcode())),
        ensures
            (final(self)@, r) == semantics::alu_r(old(self)@, ALU_AND),
    {
        let b = self.source_r8();
        self.apply_alu(ALU_AND, b);
        ProgramCounter::Next(1, 1)
    }

    /// AND n.
    pub fn and_n(&mut self) -> (r: ProgramCounter)
        ensures
            (final(self)@, r) == semantics::alu_n(old(self)@, ALU_AND),
    {
        let b = self.get_n();
        self.apply_alu(ALU_AND, b);
        ProgramCounter::Next(2, 2)
    }

    /// AND (HL).
    pub fn and_hl(&mut self) -> (r: ProgramCounter)
        ensures
            (final(self)@, r) == semantics::alu_hl(old(self)@, ALU_AND),
    {
        let b = self.hl_operand();
        self.apply_alu(ALU_AND, b);
        ProgramCounter::Next(1, 2)
    }

    /// OR r.
    pub fn or_r(&mut self) -> (r: ProgramCounter)
        requires
            is_r8(op_z(old(self)@.opcode())),
        ensures
            (final(self)@, r) == semantics::alu_r(old(self)@, ALU_OR),
    {
        let b = self.source_r8();
        self.apply_alu(ALU_OR, b);
        ProgramCounter::Next(1, 1)
    }

    /// OR n.
    pub fn or_n(&mut self) -> (r: ProgramCounter)
        ensures
            (final(self)@, r) == semantics::alu_n(old(self)@, ALU_OR),
    {
        let b = self.get_n();
        self.apply_alu(ALU_OR, b);
        ProgramCounter::Next(2, 2)
    }

    /// OR (HL).
    pub fn or_hl(&mut self) -> (r: ProgramCounter)
        ensures
            (final(self)@, r) == semantics::alu_hl(old(self)@, ALU_OR),
    {
        let b = self.hl_operand();
        self.apply_alu(ALU_OR, b);
        ProgramCounter::Next(1, 2)
    }

    /// XOR r.
    pub fn xor_r(&mut self) -> (r: ProgramCounter)
        requires
            is_r8(op_z(old(self)@.opcode())),
        ensures
            (final(self)@, r) == semantics::alu_r(old(self)@, ALU_XOR),
    {
        let b = self.source_r8();
        self.apply_alu(ALU_XOR, b);
        ProgramCounter::Next(1, 1)
    }

    /// XOR n.
    pub fn xor_n(&mut self) -> (r: ProgramCounter)
        ensures
            (final(self)@, r) == semantics::alu_n(old(self)@, ALU_XOR),
    {
        let b = self.get_n();
        self.apply_alu(ALU_XOR, b);
        ProgramCounter::Next(2, 2)
    }

    /// XOR (HL).
    pub fn xor_hl(&mut self) -> (r: ProgramCounter)
        ensures
            (final(self)@, r) == semantics::alu_hl(old(self)@, ALU_XOR),
    {
        let b = self.hl_operand();
        self.apply_alu(ALU_XOR, b);
        ProgramCounter::Next(1, 2)
    }

    /// CP r: flags of A - r; A unchanged.
    pub fn cp_r(&mut self) -> (r: ProgramCounter)
        requires
            is_r8(op_z(old(self)@.opcode())),
        ensures
            (final(self)@, r) == semantics::alu_r(old(self)@, ALU_CP),
    {
        let b = self.source_r8();
        self.apply_alu(ALU_CP, b);
        ProgramCounter::Next(1, 1)
    }

    /// CP n.
    pub fn cp_n(&mut self) -> (r: ProgramCounter)
        ensures
            (final(self)@, r) == semantics::alu_n(old(self)@, ALU_CP),
    {
        let b = self.get_n();
        self.apply_alu(ALU_CP, b);
        ProgramCounter::Next(2, 2)
    }

    /// CP (HL).
    pub fn cp_hl(&mut self) -> (r: ProgramCounter)
        ensures
            (final(self)@, r) == semantics::alu_hl(old(self)@, ALU_CP),
    {
        let b = self.hl_operand();
        self.apply_alu(ALU_CP, b);
        ProgramCounter::Next(1, 2)
    }

    /// INC r: the register in bits 5-3 plus one; C unchanged.
    pub fn inc_r(&mut self) -> (r: ProgramCounter)
        requires
            is_r8(op_y(old(self)@.opcode())),
        ensures
            (final(self)@, r) == semantics::inc_r(old(self)@),
    {
        let idx = self.get_r8_to();
        let v = self.read_from_r8(idx).unwrap();
        let res = v.wrapping_add(1);
        self.write_to_r8(idx, res);
        self.set_hnz(v % 16 == 0xF, false, res == 0);
        ProgramCounter::Next(1, 1)
    }

    /// INC (HL).
    pub fn inc_hl(&mut self) -> (r: ProgramCounter)
        ensures
            (final(self)@, r) == semantics::inc_hl(old(self)@),
    {
        let hl = self.reg.hl();
        let v = self.interconnect.read(hl);
        let res = v.wrapping_add(1);
        self.interconnect.write(hl, res);
        self.set_hnz(v % 16 == 0xF, false, res == 0);
        ProgramCounter::Next(1, 3)
    }

    /// DEC r: the register in bits 5-3 minus one; C unchanged.
    pub fn dec_r(&mut self) -> (r: ProgramCounter)
        requires
            is_r8(op_y(old(self)@.opcode())),
        ensures
            (final(self)@, r) == semantics::dec_r(old(self)@),
    {
        let idx = self.get_r8_to();
        let v = self.read_from_r8(idx).unwrap();
        let res = v.wrapping_sub(1);
        self.write_to_r8(idx, res);
        self.set_hnz(v % 16 == 0, true, res == 0);
        ProgramCounter::Next(1, 1)
    }

    /// DEC (HL).
    pub fn dec_hl(&mut self) -> (r: ProgramCounter)
        ensures
            (final(self)@, r) == semantics::dec_hl(old(self)@),
    {
        let hl = self.reg.hl();
        let v = self.interconnect.read(hl);
        let res = v.wrapping_sub(1);
        self.interconnect.write(hl, res);
        self.set_hnz(v % 16 == 0, true, res == 0);
        ProgramCounter::Next(1, 3)
    }

    /// ADD HL,ss: adds BC, DE, HL or SP to HL; Z unchanged.
    pub fn add_hlss(&mut self) -> (r: ProgramCounter)
        ensures
            (final(self)@, r) == semantics::add_hlss(old(self)@),
    {
        let idx = self.get_r16();
        let v = self.read_from_r16(idx).unwrap();
        let hl = self.reg.hl();
        let sum: u32 = v as u32 + hl as u32;
        let h = (hl % 0x1000) + (v % 0x1000) > 0x0FFF;
        self.write_to_r16(HL_ID, (sum % 0x10000) as u16);
        self.set_hcn(h, sum > 0xFFFF, false);
        ProgramCounter::Next(1, 2)
    }

    /// ADD SP,e: adds the signed immediate to SP; Z and N cleared, H and C from the
    /// low-byte addition.
    pub fn add_spe(&mut self) -> (r: ProgramCounter)
        ensures
            (final(self)@, r) == semantics::add_spe(old(self)@),
    {
        let e = self.get_n();
        let sp = self.reg.sp;
        let h = (sp % 16) + (e as u16 % 16) > 0xF;
        let c = (sp % 256) + (e as u16) > 0xFF;
        self.reg.sp = sp.wrapping_add_signed(signed_offset(e));
        self.set_hcnz(h, c, false, false);
        ProgramCounter::Next(2, 4)
    }

    /// INC ss: flags unchanged.
    pub fn inc_ss(&mut self) -> (r: ProgramCounter)
        ensures
            (final(self)@, r) == semantics::inc_ss(old(self)@),
    {
        let idx = self.get_r16();
        let v = self.read_from_r16(idx).unwrap();
        self.write_to_r16(idx, v.wrapping_add(1));
        ProgramCounter::Next(1, 2)
    }

    /// DEC ss: flags unchanged.
    pub fn dec_ss(&mut self) -> (r: ProgramCounter)
        ensures
            (final(self)@, r) == semantics::dec_ss(old(self)@),
    {
        let idx = self.get_r16();
        let v = self.read_from_r16(idx).unwrap();
        self.write_to_r16(idx, v.wrapping_sub(1));
        ProgramCounter::Next(1, 2)
    }

    /// CCF: complements C; N and H cleared.
    pub fn ccf(&mut self) -> (r: ProgramCounter)
        ensures
            (final(self)@, r) == semantics::ccf(old(self)@),
    {
        proof {
            lemma_flag_masks(self.reg.f);
        }
        let c_bit = self.reg.f & CF;
        self.set_hcn(false, c_bit == 0, false);
        ProgramCounter::Next(1, 1)
    }

    /// SCF: sets C; N and H cleared.
    pub fn scf(&mut self) -> (r: ProgramCounter)
        ensures
            (final(self)@, r) == semantics::scf(old(self)@),
    {
        self.set_hcn(false, true, false);
        ProgramCounter::Next(1, 1)
    }

    /// NOP.
    pub fn nop(&mut self) -> (r: ProgramCounter)
        ensures
            (final(self)@, r) == semantics::nop(old(self)@),
    {
        ProgramCounter::Next(1, 1)
    }

    /// DAA: adjusts A to packed BCD after an addition or a subtraction.
    pub fn daa(&mut self) -> (r: ProgramCounter)
        ensures
            (final(self)@, r) == semantics::daa(old(self)@),
    {
        let mut a = self.reg.a;
        proof {
            lemma_flag_masks(self.reg.f);
        }
        let n_flag = self.reg.f & NF != 0;
        let c_flag = self.reg.f & CF != 0;
        let h_flag = self.reg.f & HF != 0;
        let mut has_carry = c_flag;
        if !n_flag {
            let low_high = a % 16 > 9;
            if c_flag || a > 0x99 {
                a = a.wrapping_add(0x60);
                has_carry = true;
            }
            if h_flag || low_high {
                a = a.wrapping_add(0x06);
            }
        } else {
            if c_flag {
                a = a.wrapping_sub(0x60);
            }
            if h_flag {
                a = a.wrapping_sub(0x06);
            }
        }
        self.write_to_r8(A_ID, a);
        self.set_hcnz(false, has_carry, n_flag, a == 0);
        ProgramCounter::Next(1, 1)
    }

    /// CPL: complements A; N and H set.
    pub fn cpl(&mut self) -> (r: ProgramCounter)
        ensures
            (final(self)@, r) == semantics::cpl(old(self)@),
    {
        let a = 255 - self.reg.a;
        self.write_to_r8(A_ID, a);
        proof {
            lemma_flag_masks(self.reg.f);
        }
        let z = self.reg.f & ZF != 0;
        self.set_hnz(true, true, z);
        ProgramCounter::Next(1, 1)
    }
}

} // verus!
