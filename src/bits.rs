//! Rotates, shifts, and the single-bit instructions.
use vstd::prelude::*;

use crate::alu::{
    rot_kind, shift8, shift_carry, shift_value, SH_RL, SH_RLC, SH_RR, SH_RRC, SH_SLA, SH_SRA, SH_SRL,
    SH_SWAP,
};
use crate::cpu::Cpu;
use crate::flags::{flag_c, lemma_flag_masks, CF};
use crate::registers::{is_r8, HL_SLOT};
use crate::semantics;
use crate::semantics::{cb_z, set_f, set_r8, shift_flags};
use crate::state::ProgramCounter;

verus! {

impl Cpu {
    /// The C flag.
    fn carry(&self) -> (r: bool)
        ensures
            r == flag_c(self.reg.f),
    {
        proof {
            lemma_flag_masks(self.reg.f);
        }
        self.reg.f & CF != 0
    }

    /// Rotates the 8-bit register `r8_id` left or right, through C (`has_carry` false) or
    /// not (`has_carry` true); Z from the result, N and H cleared, C gets the bit moved out.
    /// Does nothing for an ID that names no register.
    pub fn rotate_r8(&mut self, r8_id: u8, is_rotate_left: bool, has_carry: bool)
        ensures
            final(self)@ == (if is_r8(r8_id) {
                let v = old(self).reg.r8(r8_id);
                let k = rot_kind(is_rotate_left, has_carry);
                let res = shift_value(k, v, flag_c(old(self).reg.f));
                set_f(set_r8(old(self)@, r8_id, res), shift_flags(res, shift_carry(k, v)))
            } else {
                old(self)@
            }),
    {
        let data = match self.read_from_r8(r8_id) {
            Some(value) => value,
            None => return,
        };
        let kind = if is_rotate_left {
            if has_carry {
                SH_RLC
            } else {
                SH_RL
            }
        } else {
            if has_carry {
                SH_RRC
            } else {
                SH_RR
            }
        };
        let cin = self.carry();
        let (res, c) = shift8(kind, data, cin);
        self.write_to_r8(r8_id, res);
        self.set_hcnz(false, c, false, res == 0);
    }

    /// Rotates the byte at `addr` as `rotate_r8` rotates a register.
    pub fn rotate_mem(&mut self, addr: u16, is_left_rotate: bool, has_carry: bool)
        ensures
            final(self)@ == ({
                let v = old(self)@.byte(addr);
                let k = rot_kind(is_left_rotate, has_carry);
                let res = shift_value(k, v, flag_c(old(self).reg.f));
                set_f(old(self)@.store(addr, res), shift_flags(res, shift_carry(k, v)))
            }),
    {
        let data = self.interconnect.read(addr);
        let kind = if is_left_rotate {
            if has_carry {
                SH_RLC
            } else {
                SH_RL
            }
        } else {
            if has_carry {
                SH_RRC
            } else {
                SH_RR
            }
        };
        let cin = self.carry();
        let (res, c) = shift8(kind, data, cin);
        self.interconnect.write(addr, res);
        self.set_hcnz(false, c, false, res == 0);
    }

    /// Shift or rotate `kind` of A; Z always cleared.
    fn rotate_a(&mut self, kind: u8) -> (r: ProgramCounter)
        requires
            kind < 4,
        ensures
            (final(self)@, r) == semantics::rotate_a(old(self)@, kind),
    {
        let cin = self.carry();
        let (res, c) = shift8(kind, self.reg.a, cin);
        self.write_a(res);
        self.set_hcnz(false, c, false, false);
        ProgramCounter::Next(1, 1)
    }

    /// RLCA: rotates A left; bit 7 goes to C and to bit 0.
    pub fn rlca(&mut self) -> (r: ProgramCounter)
        ensures
            (final(self)@, r) == semantics::rotate_a(old(self)@, SH_RLC),
    {
        self.rotate_a(SH_RLC)
    }

    /// RLA: rotates A left through C.
    pub fn rla(&mut self) -> (r: ProgramCounter)
        ensures
            (final(self)@, r) == semantics::rotate_a(old(self)@, SH_RL),
    {
        self.rotate_a(SH_RL)
    }

    /// RRCA: rotates A right; bit 0 goes to C and to bit 7.
    pub fn rrca(&mut self) -> (r: ProgramCounter)
        ensures
            (final(self)@, r) == semantics::rotate_a(old(self)@, SH_RRC),
    {
        self.rotate_a(SH_RRC)
    }

    /// RRA: rotates A right through C.
    pub fn rra(&mut self) -> (r: ProgramCounter)
        ensures
            (final(self)@, r) == semantics::rotate_a(old(self)@, SH_RR),
    {
        self.rotate_a(SH_RR)
    }

    /// A CB rotate of the operand in bits 2-0 of the suffix.
    fn cb_rotate(&mut self, is_left: bool, has_carry: bool) -> (r: ProgramCounter)
        ensures
            (final(self)@, r) == semantics::cb_shift(old(self)@, rot_kind(is_left, has_carry)),
    {
        let r = self.get_n() % 8;
        if r == HL_SLOT {
            let hl = self.reg.hl();
            self.rotate_mem(hl, is_left, has_carry);
            ProgramCounter::Next(2, 4)
        } else {
            self.rotate_r8(r, is_left, has_carry);
            ProgramCounter::Next(2, 2)
        }
    }

    /// A CB shift or swap of the operand in bits 2-0 of the suffix.
    fn cb_shift(&mut self, kind: u8) -> (r: ProgramCounter)
        requires
            kind < 8,
        ensures
            (final(self)@, r) == semantics::cb_shift(old(self)@, kind),
    {
        let r = self.get_n() % 8;
        let cin = self.carry();
        if r == HL_SLOT {
            let hl = self.reg.hl();
            let data = self.interconnect.read(hl);
            let (res, c) = shift8(kind, data, cin);
            self.interconnect.write(hl, res);
            self.set_hcnz(false, c, false, res == 0);
            ProgramCounter::Next(2, 4)
        } else {
            let data = self.read_from_r8(r).unwrap();
            let (res, c) = shift8(kind, data, cin);
            self.write_to_r8(r, res);
            self.set_hcnz(false, c, false, res == 0);
            ProgramCounter::Next(2, 2)
        }
    }

    /// RLC m: rotates a register or (HL) left.
    pub fn rlc(&mut self) -> (r: ProgramCounter)
        ensures
            (final(self)@, r) == semantics::cb_shift(old(self)@, SH_RLC),
    {
        self.cb_rotate(true, true)
    }

    /// RL m: rotates a register or (HL) left through C.
    pub fn rl(&mut self) -> (r: ProgramCounter)
        ensures
            (final(self)@, r) == semantics::cb_shift(old(self)@, SH_RL),
    {
        self.cb_rotate(true, false)
    }

    /// RRC m: rotates a register or (HL) right.
    pub fn rrc(&mut self) -> (r: ProgramCounter)
        ensures
            (final(self)@, r) == semantics::cb_shift(old(self)@, SH_RRC),
    {
        self.cb_rotate(false, true)
    }

    /// RR m: rotates a register or (HL) right through C.
    pub fn rr(&mut self) -> (r: ProgramCounter)
        ensures
            (final(self)@, r) == semantics::cb_shift(old(self)@, SH_RR),
    {
        self.cb_rotate(false, false)
    }

    /// SLA m: shifts left; bit 7 goes to C, bit 0 cleared.
    pub fn sla(&mut self) -> (r: ProgramCounter)
        ensures
            (final(self)@, r) == semantics::cb_shift(old(self)@, SH_SLA),
    {
        self.cb_shift(SH_SLA)
    }

    /// SRA m: shifts right; bit 0 goes to C, bit 7 kept.
    pub fn sra(&mut self) -> (r: ProgramCounter)
        ensures
            (final(self)@, r) == semantics::cb_shift(old(self)@, SH_SRA),
    {
        self.cb_shift(SH_SRA)
    }

    /// SRL m: shifts right; bit 0 goes to C, bit 7 cleared.
    pub fn srl(&mut self) -> (r: ProgramCounter)
        ensures
            (final(self)@, r) == semantics::cb_shift(old(self)@, SH_SRL),
    {
        self.cb_shift(SH_SRL)
    }

    /// SWAP m: exchanges the nibbles; C cleared.
    pub fn swap(&mut self) -> (r: ProgramCounter)
        ensures
            (final(self)@, r) == semantics::cb_shift(old(self)@, SH_SWAP),
    {
        self.cb_shift(SH_SWAP)
    }

    /// BIT b,r: Z gets the complement of bit b of a register; N cleared, H set.
    pub fn bit_b_r(&mut self) -> (r: ProgramCounter)
        requires
            is_r8(cb_z(old(self)@)),
        ensures
            (final(self)@, r) == semantics::bit_b(old(self)@),
    {
        let br_info = self.get_n();
        let b = (br_info / 8) % 8;
        let r = br_info % 8;
        let val = self.read_from_r8(r).unwrap();
        self.set_hnz(true, false, (val >> b) & 0x01 == 0);
        ProgramCounter::Next(2, 2)
    }

    /// BIT b,(HL).
    pub fn bit_b_hl(&mut self) -> (r: ProgramCounter)
        requires
            cb_z(old(self)@) == HL_SLOT,
        ensures
            (final(self)@, r) == semantics::bit_b(old(self)@),
    {
        let b_info = self.get_n();
        let b = (b_info / 8) % 8;
        let val = self.interconnect.read(self.reg.hl());
        self.set_hnz(true, false, (val >> b) & 0x01 == 0);
        ProgramCounter::Next(2, 3)
    }

    /// SET b,r: sets bit b of a register.
    pub fn set_b_r(&mut self) -> (r: ProgramCounter)
        requires
            is_r8(cb_z(old(self)@)),
        ensures
            (final(self)@, r) == semantics::set_b(old(self)@),
    {
        let br_info = self.get_n();
        let b = (br_info / 8) % 8;
        let r = br_info % 8;
        let val = self.read_from_r8(r).unwrap();
        self.write_to_r8(r, val | (1u8 << b));
        ProgramCounter::Next(2, 2)
    }

    /// SET b,(HL).
    pub fn set_b_hl(&mut self) -> (r: ProgramCounter)
        requires
            cb_z(old(self)@) == HL_SLOT,
        ensures
            (final(self)@, r) == semantics::set_b(old(self)@),
    {
        let b_info = self.get_n();
        let b = (b_info / 8) % 8;
        let hl = self.reg.hl();
        let val = self.interconnect.read(hl);
        self.interconnect.write(hl, val | (1u8 << b));
        ProgramCounter::Next(2, 4)
    }

    /// RES b,r: clears bit b of a register.
    pub fn res_b_r(&mut self) -> (r: ProgramCounter)
        requires
            is_r8(cb_z(old(self)@)),
        ensures
            (final(self)@, r) == semantics::res_b(old(self)@),
    {
        let br_info = self.get_n();
        let b = (br_info / 8) % 8;
        let r = br_info % 8;
        let val = self.read_from_r8(r).unwrap();
        self.write_to_r8(r, val & !(1u8 << b));
        ProgramCounter::Next(2, 2)
    }

    /// RES b,(HL).
    pub fn res_b_hl(&mut self) -> (r: ProgramCounter)
        requires
            cb_z(old(self)@) == HL_SLOT,
        ensures
            (final(self)@, r) == semantics::res_b(old(self)@),
    {
        let b_info = self.get_n();
        let b = (b_info / 8) % 8;
        let hl = self.reg.hl();
        let val = self.interconnect.read(hl);
        self.interconnect.write(hl, val & !(1u8 << b));
        ProgramCounter::Next(2, 4)
    }
}

} // verus!
