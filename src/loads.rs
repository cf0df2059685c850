//! 8-bit and 16-bit loads, and the stack.
use vstd::prelude::*;

use crate::cpu::Cpu;
use crate::registers::{is_r8, A_ID, HL_ID};
use crate::semantics;
use crate::semantics::{op_y, op_z};
use crate::state::ProgramCounter;

verus! {

impl Cpu {
    /// LD r,r': copies the register in bits 2-0 into the register in bits 5-3.
    pub fn ld_rx_ry(&mut self) -> (r: ProgramCounter)
        requires
            is_r8(op_z(old(self)@.opcode())) ==> is_r8(op_y(old(self)@.opcode())),
        ensures
            (final(self)@, r) == semantics::ld_rx_ry(old(self)@),
    {
        let rx = self.get_r8_to();
        let ry = self.get_r8_from();
        match self.read_from_r8(ry) {
            Some(value) => self.write_to_r8(rx, value),
            None => {},
        }
        ProgramCounter::Next(1, 1)
    }

    /// LD r,n: loads the immediate byte into the register in bits 5-3.
    pub fn ld_r_n(&mut self) -> (r: ProgramCounter)
        requires
            is_r8(op_y(old(self)@.opcode())),
        ensures
            (final(self)@, r) == semantics::ld_r_n(old(self)@),
    {
        let r = self.get_r8_to();
        let n = self.get_n();
        self.write_to_r8(r, n);
        ProgramCounter::Next(2, 2)
    }

    /// LD r,(HL): loads the byte at HL into the register in bits 5-3.
    pub fn ld_r_addr_hl(&mut self) -> (r: ProgramCounter)
        requires
            is_r8(op_y(old(self)@.opcode())),
        ensures
            (final(self)@, r) == semantics::ld_r_addr_hl(old(self)@),
    {
        let r = self.get_r8_to();
        let hl = self.reg.hl();
        self.load_mem_to_r8(r, hl);
        ProgramCounter::Next(1, 2)
    }

    /// LD (HL),r: stores the register in bits 2-0 at HL.
    pub fn ld_addr_hl_r(&mut self) -> (r: ProgramCounter)
        ensures
            (final(self)@, r) == semantics::ld_addr_hl_r(old(self)@),
    {
        let r = self.get_r8_from();
        let hl = self.reg.hl();
        self.save_r8_to_mem(r, hl);
        ProgramCounter::Next(1, 2)
    }

    /// LD (HL),n: stores the immediate byte at HL.
    pub fn ld_addr_hl_n(&mut self) -> (r: ProgramCounter)
        ensures
            (final(self)@, r) == semantics::ld_addr_hl_n(old(self)@),
    {
        let n = self.get_n();
        let hl = self.reg.hl();
        self.interconnect.write(hl, n);
        ProgramCounter::Next(2, 3)
    }

    /// LD A,(BC).
    pub fn ld_a_addr_bc(&mut self) -> (r: ProgramCounter)
        ensures
            (final(self)@, r) == semantics::ld_a_addr_bc(old(self)@),
    {
        let bc = self.reg.bc();
        self.load_mem_to_r8(A_ID, bc);
        ProgramCounter::Next(1, 2)
    }

    /// LD A,(DE).
    pub fn ld_a_addr_de(&mut self) -> (r: ProgramCounter)
        ensures
            (final(self)@, r) == semantics::ld_a_addr_de(old(self)@),
    {
        let de = self.reg.de();
        self.load_mem_to_r8(A_ID, de);
        ProgramCounter::Next(1, 2)
    }

    /// LD A,(0xFF00+C).
    pub fn ldh_a_addr_offset_c(&mut self) -> (r: ProgramCounter)
        ensures
            (final(self)@, r) == semantics::ldh_a_addr_offset_c(old(self)@),
    {
        let addr = 0xFF00 + (self.reg.c as u16);
        self.load_mem_to_r8(A_ID, addr);
        ProgramCounter::Next(1, 2)
    }

    /// LD (0xFF00+C),A.
    pub fn ldh_addr_offset_c_a(&mut self) -> (r: ProgramCounter)
        ensures
            (final(self)@, r) == semantics::ldh_addr_offset_c_a(old(self)@),
    {
        let addr = 0xFF00 + (self.reg.c as u16);
        self.save_r8_to_mem(A_ID, addr);
        ProgramCounter::Next(1, 2)
    }

    /// LDH A,(n): loads the byte at 0xFF00+n into A.
    pub fn ldh_a_addr_offset_n(&mut self) -> (r: ProgramCounter)
        ensures
            (final(self)@, r) == semantics::ldh_a_addr_offset_n(old(self)@),
    {
        let n = self.get_n();
        self.load_mem_to_r8(A_ID, 0xFF00 + (n as u16));
        ProgramCounter::Next(2, 3)
    }

    /// LDH (n),A: stores A at 0xFF00+n.
    pub fn ldh_addr_offset_n_a(&mut self) -> (r: ProgramCounter)
        ensures
            (final(self)@, r) == semantics::ldh_addr_offset_n_a(old(self)@),
    {
        let n = self.get_n();
        self.save_r8_to_mem(A_ID, 0xFF00 + (n as u16));
        ProgramCounter::Next(2, 3)
    }

    /// LD A,(nn).
    pub fn ld_a_addr_nn(&mut self) -> (r: ProgramCounter)
        ensures
            (final(self)@, r) == semantics::ld_a_addr_nn(old(self)@),
    {
        let nn = self.get_nn();
        self.load_mem_to_r8(A_ID, nn);
        ProgramCounter::Next(3, 4)
    }

    /// LD (nn),A.
    pub fn ld_addr_nn_a(&mut self) -> (r: ProgramCounter)
        ensures
            (final(self)@, r) == semantics::ld_addr_nn_a(old(self)@),
    {
        let nn = self.get_nn();
        self.save_r8_to_mem(A_ID, nn);
        ProgramCounter::Next(3, 4)
    }

    /// LD A,(HL+): loads the byte at HL into A, then increments HL.
    pub fn ld_a_addr_hl_inc(&mut self) -> (r: ProgramCounter)
        ensures
            (final(self)@, r) == semantics::ld_a_addr_hl_inc(old(self)@),
    {
        let hl = self.reg.hl();
        self.load_mem_to_r8(A_ID, hl);
        self.write_to_r16(HL_ID, hl.wrapping_add(1));
        ProgramCounter::Next(1, 2)
    }

    /// LD A,(HL-): loads the byte at HL into A, then decrements HL.
    pub fn ld_a_addr_hl_dec(&mut self) -> (r: ProgramCounter)
        ensures
            (final(self)@, r) == semantics::ld_a_addr_hl_dec(old(self)@),
    {
        let hl = self.reg.hl();
        self.load_mem_to_r8(A_ID, hl);
        self.write_to_r16(HL_ID, hl.wrapping_sub(1));
        ProgramCounter::Next(1, 2)
    }

    /// LD (BC),A.
    pub fn ld_addr_bc_a(&mut self) -> (r: ProgramCounter)
        ensures
            (final(self)@, r) == semantics::ld_addr_bc_a(old(self)@),
    {
        let bc = self.reg.bc();
        self.save_r8_to_mem(A_ID, bc);
        ProgramCounter::Next(1, 2)
    }

    /// LD (DE),A.
    pub fn ld_addr_de_a(&mut self) -> (r: ProgramCounter)
        ensures
            (final(self)@, r) == semantics::ld_addr_de_a(old(self)@),
    {
        let de = self.reg.de();
        self.save_r8_to_mem(A_ID, de);
        ProgramCounter::Next(1, 2)
    }

    /// LD (HL+),A: stores A at HL, then increments HL.
    pub fn ld_addr_hl_a_inc(&mut self) -> (r: ProgramCounter)
        ensures
            (final(self)@, r) == semantics::ld_addr_hl_a_inc(old(self)@),
    {
        let hl = self.reg.hl();
        self.save_r8_to_mem(A_ID, hl);
        self.write_to_r16(HL_ID, hl.wrapping_add(1));
        ProgramCounter::Next(1, 2)
    }

    /// LD (HL-),A: stores A at HL, then decrements HL.
    pub fn ld_addr_hl_a_dec(&mut self) -> (r: ProgramCounter)
        ensures
            (final(self)@, r) == semantics::ld_addr_hl_a_dec(old(self)@),
    {
        let hl = self.reg.hl();
        self.save_r8_to_mem(A_ID, hl);
        self.write_to_r16(HL_ID, hl.wrapping_sub(1));
        ProgramCounter::Next(1, 2)
    }

    /// LD rr,nn: loads the immediate word into the pair in bits 5-4.
    pub fn ld_rr_nn(&mut self) -> (r: ProgramCounter)
        ensures
            (final(self)@, r) == semantics::ld_rr_nn(old(self)@),
    {
        let rr = self.get_r16();
        let nn = self.get_nn();
        self.write_to_r16(rr, nn);
        ProgramCounter::Next(3, 3)
    }

    /// LD (nn),SP: stores the low byte of SP at nn and the high byte at nn+1.
    pub fn ld_addr_nn_sp(&mut self) -> (r: ProgramCounter)
        ensures
            (final(self)@, r) == semantics::ld_addr_nn_sp(old(self)@),
    {
        let nn = self.get_nn();
        self.save_r16_to_mem(crate::registers::SP_ID, nn);
        ProgramCounter::Next(3, 5)
    }

    /// LD SP,HL.
    pub fn ld_sp_hl(&mut self) -> (r: ProgramCounter)
        ensures
            (final(self)@, r) == semantics::ld_sp_hl(old(self)@),
    {
        self.reg.sp = self.reg.hl();
        ProgramCounter::Next(1, 2)
    }

    /// PUSH rr: pushes BC, DE, HL or AF.
    pub fn push_rr(&mut self) -> (r: ProgramCounter)
        ensures
            (final(self)@, r) == semantics::push_rr(old(self)@),
    {
        let rr = self.get_r16();
        let val = self.pp_read_r16(rr).unwrap();
        self.push_u16(val);
        ProgramCounter::Next(1, 4)
    }

    /// POP rr: pops into BC, DE, HL or AF (F keeps its high nibble only).
    pub fn pop_rr(&mut self) -> (r: ProgramCounter)
        ensures
            (final(self)@, r) == semantics::pop_rr(old(self)@),
    {
        let rr = self.get_r16();
        let val_pop = self.pop_u16();
        self.pp_write_r16(rr, val_pop);
        ProgramCounter::Next(1, 3)
    }

    /// LD HL,SP+e: HL gets SP plus the signed immediate; Z and N cleared, H and C from
    /// the low-byte addition.
    pub fn ld_hl_sp_e(&mut self) -> (r: ProgramCounter)
        ensures
            (final(self)@, r) == semantics::ld_hl_sp_e(old(self)@),
    {
        let e = self.get_n();
        let sp = self.reg.sp;
        let new_hl = sp.wrapping_add_signed(signed_offset(e));
        let h = (sp % 16) + (e as u16 % 16) > 0xF;
        let c = (sp % 256) + (e as u16) > 0xFF;
        self.set_hcnz(h, c, false, false);
        self.write_to_r16(HL_ID, new_hl);
        ProgramCounter::Next(2, 3)
    }
}

/// The signed value of an 8-bit two's-complement offset.
pub fn signed_offset(e: u8) -> (r: i16)
    ensures
        r as int == crate::state::sext8(e),
{
    if e >= 128 {
        e as i16 - 256
    } else {
        e as i16
    }
}

} // verus!
