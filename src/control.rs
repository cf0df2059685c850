//! Jumps, calls, returns, and the instructions that change the processor's mode.
use vstd::prelude::*;

use crate::cpu::Cpu;
use crate::loads::signed_offset;
use crate::semantics;
use crate::state::ProgramCounter;

verus! {

impl Cpu {
    /// JP nn.
    pub fn jp_nn(&mut self) -> (r: ProgramCounter)
        ensures
            (final(self)@, r) == semantics::jp_nn(old(self)@),
    {
        ProgramCounter::Jump(self.get_nn(), 4)
    }

    /// JP HL.
    pub fn jp_hl(&mut self) -> (r: ProgramCounter)
        ensures
            (final(self)@, r) == semantics::jp_hl(old(self)@),
    {
        ProgramCounter::Jump(self.reg.hl(), 1)
    }

    /// JP cc,nn: jumps when the condition holds.
    pub fn jp_cc_nn(&mut self) -> (r: ProgramCounter)
        ensures
            (final(self)@, r) == semantics::jp_cc_nn(old(self)@),
    {
        let abs_addr = self.get_nn();
        if self.check_cc() {
            ProgramCounter::Jump(abs_addr, 4)
        } else {
            ProgramCounter::Next(3, 3)
        }
    }

    /// JR e: jumps by the signed offset, counted from the next instruction.
    pub fn jr_e(&mut self) -> (r: ProgramCounter)
        ensures
            (final(self)@, r) == semantics::jr_e(old(self)@),
    {
        let e = signed_offset(self.get_n());
        ProgramCounter::Next(e + 2, 3)
    }

    /// JR cc,e: jumps by the signed offset when the condition holds.
    pub fn jr_cc_e(&mut self) -> (r: ProgramCounter)
        ensures
            (final(self)@, r) == semantics::jr_cc_e(old(self)@),
    {
        let e = signed_offset(self.get_n());
        if self.check_cc() {
            ProgramCounter::Next(e + 2, 3)
        } else {
            ProgramCounter::Next(2, 2)
        }
    }

    /// CALL nn: pushes the address of the next instruction and jumps to nn.
    pub fn call_nn(&mut self) -> (r: ProgramCounter)
        ensures
            (final(self)@, r) == semantics::call_nn(old(self)@),
    {
        let nn = self.get_nn();
        let ret_addr = self.reg.pc.wrapping_add(3);
        self.push_u16(ret_addr);
        ProgramCounter::Jump(nn, 6)
    }

    /// CALL cc,nn: calls when the condition holds.
    pub fn call_cc_nn(&mut self) -> (r: ProgramCounter)
        ensures
            (final(self)@, r) == semantics::call_cc_nn(old(self)@),
    {
        let nn = self.get_nn();
        if self.check_cc() {
            let ret_addr = self.reg.pc.wrapping_add(3);
            self.push_u16(ret_addr);
            ProgramCounter::Jump(nn, 6)
        } else {
            ProgramCounter::Next(3, 3)
        }
    }

    /// RET: pops PC.
    pub fn ret(&mut self) -> (r: ProgramCounter)
        ensures
            (final(self)@, r) == semantics::ret(old(self)@),
    {
        let pop_val = self.pop_u16();
        ProgramCounter::Jump(pop_val, 4)
    }

    /// RET cc: returns when the condition holds.
    pub fn ret_cc(&mut self) -> (r: ProgramCounter)
        ensures
            (final(self)@, r) == semantics::ret_cc(old(self)@),
    {
        if self.check_cc() {
            let pop_val = self.pop_u16();
            ProgramCounter::Jump(pop_val, 5)
        } else {
            ProgramCounter::Next(1, 2)
        }
    }

    /// RETI: returns and sets IME at once.
    pub fn reti(&mut self) -> (r: ProgramCounter)
        ensures
            (final(self)@, r) == semantics::reti(old(self)@),
    {
        let pop_val = self.pop_u16();
        self.reg.ime = true;
        ProgramCounter::Jump(pop_val, 4)
    }

    /// RST n: pushes the address of the next instruction and jumps to 8 times bits 5-3.
    pub fn rst_n(&mut self) -> (r: ProgramCounter)
        ensures
            (final(self)@, r) == semantics::rst_n(old(self)@),
    {
        let xxx = self.get_r8_to();
        let ret_addr = self.reg.pc.wrapping_add(1);
        self.push_u16(ret_addr);
        ProgramCounter::Jump((xxx as u16) * 8, 4)
    }

    /// HALT: enters halt mode until an interrupt is requested. The hardware quirk where
    /// HALT with IME clear and an interrupt already pending reads the next byte twice is
    /// not reproduced.
    pub fn halt(&mut self) -> (r: ProgramCounter)
        ensures
            (final(self)@, r) == semantics::halt(old(self)@),
    {
        self.halt_mode = true;
        ProgramCounter::Next(1, 1)
    }

    /// STOP: enters stop mode.
    pub fn stop(&mut self) -> (r: ProgramCounter)
        ensures
            (final(self)@, r) == semantics::stop(old(self)@),
    {
        self.stop_mode = true;
        ProgramCounter::Next(1, 1)
    }

    /// DI: clears IME at once and cancels a pending EI.
    pub fn di(&mut self) -> (r: ProgramCounter)
        ensures
            (final(self)@, r) == semantics::di(old(self)@),
    {
        self.reg.ime = false;
        self.ei_pending = false;
        ProgramCounter::Next(1, 1)
    }

    /// EI: IME is set once the next instruction has run.
    pub fn ei(&mut self) -> (r: ProgramCounter)
        ensures
            (final(self)@, r) == semantics::ei(old(self)@),
    {
        self.ei_pending = true;
        ProgramCounter::Next(1, 1)
    }
}

} // verus!
