//! Decoding and dispatch: one instruction, one interrupt, one step.
use vstd::prelude::*;

use crate::alu::{ALU_ADC, ALU_ADD, ALU_AND, ALU_OR, ALU_SBC, ALU_SUB, ALU_XOR};
use crate::cpu::Cpu;
use crate::registers::HL_SLOT;
use crate::semantics;
use crate::state::{cycles_of, ProgramCounter};

verus! {

/// Whether `op` is an assigned opcode. The eleven unassigned ones cannot be executed: a
/// host tests the opcode at PC with this before `step` and treats a failure as fatal.
pub fn is_defined(op: u8) -> (r: bool)
    ensures
        r == semantics::defined(op),
{
    !(op == 0xD3 || op == 0xDB || op == 0xDD || op == 0xE3 || op == 0xE4 || op == 0xEB || op
        == 0xEC || op == 0xED || op == 0xF4 || op == 0xFC || op == 0xFD)
}

impl Cpu {
    /// Executes the instruction at PC, moves PC past it or to its target, and returns the
    /// T-states it took (four per machine cycle).
    pub fn execute_opcode(&mut self) -> (r: u32)
        requires
            semantics::defined(old(self)@.opcode()),
        ensures
            (final(self)@, r) == semantics::execute_opcode(old(self)@),
            r <= 24,
    {
        let opcode: u8 = self.interconnect.read(self.reg.pc);
        let x = opcode / 64;
        let pc_change = if x == 0 {
            self.execute_x0()
        } else if x == 1 {
            self.execute_x1()
        } else if x == 2 {
            self.execute_x2()
        } else {
            self.execute_x3()
        };
        match pc_change {
            ProgramCounter::Next(bytes, cycles) => {
                self.reg.pc = self.reg.pc.wrapping_add_signed(bytes);
                cycles * 4
            },
            ProgramCounter::Jump(addr, cycles) => {
                self.reg.pc = addr;
                cycles * 4
            },
        }
    }

    /// Opcodes 00yyyzzz.
    fn execute_x0(&mut self) -> (r: ProgramCounter)
        requires
            semantics::op_x(old(self)@.opcode()) == 0,
        ensures
            (final(self)@, r) == semantics::execute_x0(old(self)@),
            cycles_of(r) <= 6,
    {
        reveal(semantics::execute_x0);
        let opcode = self.interconnect.read(self.reg.pc);
        let y = (opcode / 8) % 8;
        let z = opcode % 8;
        if z == 0 {
            if y == 0 {
                self.nop()
            } else if y == 1 {
                self.ld_addr_nn_sp()
            } else if y == 2 {
                self.stop()
            } else if y == 3 {
                self.jr_e()
            } else {
                self.jr_cc_e()
            }
        } else if z == 1 {
            if y % 2 == 0 {
                self.ld_rr_nn()
            } else {
                self.add_hlss()
            }
        } else if z == 2 {
            if y == 0 {
                self.ld_addr_bc_a()
            } else if y == 1 {
                self.ld_a_addr_bc()
            } else if y == 2 {
                self.ld_addr_de_a()
            } else if y == 3 {
                self.ld_a_addr_de()
            } else if y == 4 {
                self.ld_addr_hl_a_inc()
            } else if y == 5 {
                self.ld_a_addr_hl_inc()
            } else if y == 6 {
                self.ld_addr_hl_a_dec()
            } else {
                self.ld_a_addr_hl_dec()
            }
        } else if z == 3 {
            if y % 2 == 0 {
                self.inc_ss()
            } else {
                self.dec_ss()
            }
        } else if z == 4 {
            if y == HL_SLOT {
                self.inc_hl()
            } else {
                self.inc_r()
            }
        } else if z == 5 {
            if y == HL_SLOT {
                self.dec_hl()
            } else {
                self.dec_r()
            }
        } else if z == 6 {
            if y == HL_SLOT {
                self.ld_addr_hl_n()
            } else {
                self.ld_r_n()
            }
        } else {
            if y == 0 {
                self.rlca()
            } else if y == 1 {
                self.rrca()
            } else if y == 2 {
                self.rla()
            } else if y == 3 {
                self.rra()
            } else if y == 4 {
                self.daa()
            } else if y == 5 {
                self.cpl()
            } else if y == 6 {
                self.scf()
            } else {
                self.ccf()
            }
        }
    }

    /// Opcodes 01yyyzzz: register loads, and HALT.
    fn execute_x1(&mut self) -> (r: ProgramCounter)
        requires
            semantics::op_x(old(self)@.opcode()) == 1,
        ensures
            (final(self)@, r) == semantics::execute_x1(old(self)@),
            cycles_of(r) <= 6,
    {
        reveal(semantics::execute_x1);
        let opcode = self.interconnect.read(self.reg.pc);
        if opcode == 0x76 {
            self.halt()
        } else if (opcode / 8) % 8 == HL_SLOT {
            self.ld_addr_hl_r()
        } else if opcode % 8 == HL_SLOT {
            self.ld_r_addr_hl()
        } else {
            self.ld_rx_ry()
        }
    }

    /// Opcodes 10yyyzzz: ALU operations on A.
    fn execute_x2(&mut self) -> (r: ProgramCounter)
        requires
            semantics::op_x(old(self)@.opcode()) == 2,
        ensures
            (final(self)@, r) == semantics::execute_x2(old(self)@),
            cycles_of(r) <= 6,
    {
        reveal(semantics::execute_x2);
        let opcode = self.interconnect.read(self.reg.pc);
        let y = (opcode / 8) % 8;
        if opcode % 8 == HL_SLOT {
            if y == ALU_ADD {
                self.add_ahl()
            } else if y == ALU_ADC {
                self.adc_ahl()
            } else if y == ALU_SUB {
                self.sub_hl()
            } else if y == ALU_SBC {
                self.sbc_ahl()
            } else if y == ALU_AND {
                self.and_hl()
            } else if y == ALU_XOR {
                self.xor_hl()
            } else if y == ALU_OR {
                self.or_hl()
            } else {
                self.cp_hl()
            }
        } else {
            if y == ALU_ADD {
                self.add_ar()
            } else if y == ALU_ADC {
                self.adc_ar()
            } else if y == ALU_SUB {
                self.sub_r()
            } else if y == ALU_SBC {
                self.sbc_ar()
            } else if y == ALU_AND {
                self.and_r()
            } else if y == ALU_XOR {
                self.xor_r()
            } else if y == ALU_OR {
                self.or_r()
            } else {
                self.cp_r()
            }
        }
    }

    /// Opcodes 11yyyzzz.
    fn execute_x3(&mut self) -> (r: ProgramCounter)
        requires
            semantics::op_x(old(self)@.opcode()) == 3,
            semantics::defined(old(self)@.opcode()),
        ensures
            (final(self)@, r) == semantics::execute_x3(old(self)@),
            cycles_of(r) <= 6,
    {
        reveal(semantics::execute_x3);
        let opcode = self.interconnect.read(self.reg.pc);
        let y = (opcode / 8) % 8;
        let z = opcode % 8;
        if z == 0 {
            if y < 4 {
                self.ret_cc()
            } else if y == 4 {
                self.ldh_addr_offset_n_a()
            } else if y == 5 {
                self.add_spe()
            } else if y == 6 {
                self.ldh_a_addr_offset_n()
            } else {
                self.ld_hl_sp_e()
            }
        } else if z == 1 {
            if y % 2 == 0 {
                self.pop_rr()
            } else if y == 1 {
                self.ret()
            } else if y == 3 {
                self.reti()
            } else if y == 5 {
                self.jp_hl()
            } else {
                self.ld_sp_hl()
            }
        } else if z == 2 {
            if y < 4 {
                self.jp_cc_nn()
            } else if y == 4 {
                self.ldh_addr_offset_c_a()
            } else if y == 5 {
                self.ld_addr_nn_a()
            } else if y == 6 {
                self.ldh_a_addr_offset_c()
            } else {
                self.ld_a_addr_nn()
            }
        } else if z == 3 {
            if y == 0 {
                self.jp_nn()
            } else if y == 1 {
                let pc = self.reg.pc;
                self.execute_bc(pc)
            } else if y == 6 {
                self.di()
            } else {
                self.ei()
            }
        } else if z == 4 {
            self.call_cc_nn()
        } else if z == 5 {
            if y % 2 == 0 {
                self.push_rr()
            } else {
                self.call_nn()
            }
        } else if z == 6 {
            if y == ALU_ADD {
                self.add_an()
            } else if y == ALU_ADC {
                self.adc_an()
            } else if y == ALU_SUB {
                self.sub_n()
            } else if y == ALU_SBC {
                self.sbc_an()
            } else if y == ALU_AND {
                self.and_n()
            } else if y == ALU_XOR {
                self.xor_n()
            } else if y == ALU_OR {
                self.or_n()
            } else {
                self.cp_n()
            }
        } else {
            self.rst_n()
        }
    }

    /// Executes the CB-prefixed instruction whose prefix is at `pc_current`.
    pub fn execute_bc(&mut self, pc_current: u16) -> (r: ProgramCounter)
        requires
            pc_current == old(self).reg.pc,
        ensures
            (final(self)@, r) == semantics::execute_cb(old(self)@),
            cycles_of(r) <= 4,
    {
        reveal(semantics::execute_cb);
        let suffix = self.interconnect.read(pc_current.wrapping_add(1));
        let x = suffix / 64;
        let y = (suffix / 8) % 8;
        let z = suffix % 8;
        if x == 0 {
            if y == 0 {
                self.rlc()
            } else if y == 1 {
                self.rrc()
            } else if y == 2 {
                self.rl()
            } else if y == 3 {
                self.rr()
            } else if y == 4 {
                self.sla()
            } else if y == 5 {
                self.sra()
            } else if y == 6 {
                self.swap()
            } else {
                self.srl()
            }
        } else if x == 1 {
            if z == HL_SLOT {
                self.bit_b_hl()
            } else {
                self.bit_b_r()
            }
        } else if x == 2 {
            if z == HL_SLOT {
                self.res_b_hl()
            } else {
                self.res_b_r()
            }
        } else {
            if z == HL_SLOT {
                self.set_b_hl()
            } else {
                self.set_b_r()
            }
        }
    }

    /// Between instructions: leaves halt mode when an enabled interrupt is requested and,
    /// with IME set, services the lowest such interrupt: clears its request bit and IME,
    /// pushes PC and jumps to its vector. Returns the T-states taken (20, or 0).
    pub fn handle_interrupt(&mut self) -> (r: u32)
        ensures
            (final(self)@, r) == semantics::handle_interrupt(old(self)@),
    {
        let all_ints = self.interconnect.int_flags & self.interconnect.int_enable & 0x1F;
        if self.halt_mode && all_ints != 0 {
            self.halt_mode = false;
        }
        if !self.reg.ime || all_ints == 0 {
            return 0;
        }
        let interrupt_bit: u8 = if all_ints & 0x01 != 0 {
            0
        } else if all_ints & 0x02 != 0 {
            1
        } else if all_ints & 0x04 != 0 {
            2
        } else if all_ints & 0x08 != 0 {
            3
        } else {
            4
        };
        self.interconnect.int_flags = self.interconnect.int_flags & !(1u8 << interrupt_bit);
        self.reg.ime = false;
        let pc = self.reg.pc;
        self.push_u16(pc);
        self.reg.pc = 0x40 + 8 * (interrupt_bit as u16);
        20
    }

    /// One step: the instruction at PC (or, in halt mode, one idle machine cycle), then at
    /// most one interrupt dispatch. Returns the T-states of both, for the peripherals to
    /// advance by.
    pub fn step(&mut self) -> (r: u32)
        requires
            old(self).halt_mode || semantics::defined(old(self)@.opcode()),
        ensures
            (final(self)@, r) == semantics::step(old(self)@),
    {
        let was_pending = self.ei_pending;
        let cycles: u32 = if self.halt_mode {
            4
        } else {
            self.execute_opcode()
        };
        if was_pending && self.ei_pending {
            self.reg.ime = true;
            self.ei_pending = false;
        }
        cycles + self.handle_interrupt()
    }
}

} // verus!
