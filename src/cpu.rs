use vstd::prelude::*;

use crate::bus::Interconnect;
use crate::flags::{flag_c, flag_z, flags_byte, lemma_flag_masks, pack_flags, CF, HF, NF, ZF};
use crate::registers::{
    hi_byte, is_r8, lo_byte, Registers, AF_ID, A_ID, BC_ID, B_ID, C_ID, DE_ID, D_ID, E_ID,
    HL_ID, H_ID, L_ID, SP_ID,
};
use crate::semantics::{cond, op_p, op_y, op_z};
use crate::state::{add16, CpuState};

verus! {

/// The processor: registers, mode flags and the bus it owns.
pub struct Cpu {
    pub reg: Registers,
    pub halt_mode: bool,
    pub stop_mode: bool,
    /// Set by EI: IME is set once the next instruction has run.
    pub ei_pending: bool,
    pub interconnect: Interconnect,
}

impl View for Cpu {
    type V = CpuState;

    open spec fn view(&self) -> CpuState {
        CpuState {
            reg: self.reg,
            mem: self.interconnect.mem@,
            int_flags: self.interconnect.int_flags,
            int_enable: self.interconnect.int_enable,
            halt_mode: self.halt_mode,
            stop_mode: self.stop_mode,
            ei_pending: self.ei_pending,
        }
    }
}

impl Cpu {
    /// A processor in its post-boot state, running on `interconnect`.
    pub fn new(interconnect: Interconnect) -> (r: Self)
        ensures
            r.reg == Registers::new_spec(),
            !r.halt_mode,
            !r.stop_mode,
            !r.ei_pending,
            r.interconnect == interconnect,
    {
        Cpu {
            reg: Registers::new(),
            halt_mode: false,
            stop_mode: false,
            ei_pending: false,
            interconnect,
        }
    }

    /// Writes `content` to the 8-bit register with ID `r8_id`.
    pub fn write_to_r8(&mut self, r8_id: u8, content: u8)
        requires
            is_r8(r8_id),
        ensures
            final(self)@ == old(self)@.with_reg(old(self).reg.with_r8(r8_id, content)),
    {
        if r8_id == A_ID {
            self.reg.a = content;
        } else if r8_id == B_ID {
            self.reg.b = content;
        } else if r8_id == C_ID {
            self.reg.c = content;
        } else if r8_id == D_ID {
            self.reg.d = content;
        } else if r8_id == E_ID {
            self.reg.e = content;
        } else if r8_id == H_ID {
            self.reg.h = content;
        } else {
            self.reg.l = content;
        }
    }

    /// The 8-bit register with ID `r8_id`; `None` for an ID that names none.
    pub fn read_from_r8(&self, r8_id: u8) -> (r: Option<u8>)
        ensures
            r == (if is_r8(r8_id) {
                Some(self.reg.r8(r8_id))
            } else {
                None::<u8>
            }),
    {
        if r8_id == A_ID {
            Some(self.reg.a)
        } else if r8_id == B_ID {
            Some(self.reg.b)
        } else if r8_id == C_ID {
            Some(self.reg.c)
        } else if r8_id == D_ID {
            Some(self.reg.d)
        } else if r8_id == E_ID {
            Some(self.reg.e)
        } else if r8_id == H_ID {
            Some(self.reg.h)
        } else if r8_id == L_ID {
            Some(self.reg.l)
        } else {
            None
        }
    }

    /// Loads the byte at `addr` into the 8-bit register with ID `r8_id`.
    pub fn load_mem_to_r8(&mut self, r8_id: u8, addr: u16)
        requires
            is_r8(r8_id),
        ensures
            final(self)@ == old(self)@.with_reg(old(self).reg.with_r8(r8_id, old(self)@.byte(addr))),
    {
        let res = self.interconnect.read(addr);
        self.write_to_r8(r8_id, res);
    }

    /// Stores the 8-bit register with ID `r8_id` at `addr`; does nothing for an ID that
    /// names no register.
    pub fn save_r8_to_mem(&mut self, r8_id: u8, addr: u16)
        ensures
            final(self)@ == (if is_r8(r8_id) {
                old(self)@.store(addr, old(self).reg.r8(r8_id))
            } else {
                old(self)@
            }),
    {
        match self.read_from_r8(r8_id) {
            Some(content) => self.interconnect.write(addr, content),
            None => {},
        }
    }

    /// The byte after the opcode.
    pub fn get_n(&self) -> (r: u8)
        ensures
            r == self@.imm8(),
    {
        self.interconnect.read(self.reg.pc.wrapping_add(1))
    }

    /// The register ID in bits 5-3 of the opcode: the register written to.
    pub fn get_r8_to(&self) -> (r: u8)
        ensures
            r == op_y(self@.opcode()),
            r < 8,
    {
        (self.interconnect.read(self.reg.pc) / 8) % 8
    }

    /// The register ID in bits 2-0 of the opcode: the register read from.
    pub fn get_r8_from(&self) -> (r: u8)
        ensures
            r == op_z(self@.opcode()),
            r < 8,
    {
        self.interconnect.read(self.reg.pc) % 8
    }

    /// Writes `content` to the pair with selector `r16_id`: BC, DE, HL or SP.
    pub fn write_to_r16(&mut self, r16_id: u8, content: u16)
        requires
            r16_id < 4,
        ensures
            final(self)@ == old(self)@.with_reg(old(self).reg.with_r16(r16_id, content)),
    {
        let msb = (content / 256) as u8;
        let lsb = (content % 256) as u8;
        if r16_id == BC_ID {
            self.reg.b = msb;
            self.reg.c = lsb;
        } else if r16_id == DE_ID {
            self.reg.d = msb;
            self.reg.e = lsb;
        } else if r16_id == HL_ID {
            self.reg.h = msb;
            self.reg.l = lsb;
        } else {
            self.reg.sp = content;
        }
    }

    /// Writes `content` to the pair with push/pop selector `r16_id`: BC, DE, HL or AF. The
    /// low nibble of F stays clear.
    pub fn pp_write_r16(&mut self, r16_id: u8, content: u16)
        requires
            r16_id < 4,
        ensures
            final(self)@ == old(self)@.with_reg(old(self).reg.with_pp_r16(r16_id, content)),
    {
        if r16_id == AF_ID {
            let lsb = (content % 256) as u8;
            self.reg.a = (content / 256) as u8;
            self.reg.f = lsb - lsb % 16;
        } else {
            self.write_to_r16(r16_id, content);
        }
    }

    /// The pair with selector `r16_id` (BC, DE, HL or SP); `None` for another value.
    pub fn read_from_r16(&self, r16_id: u8) -> (r: Option<u16>)
        ensures
            r == (if r16_id < 4 {
                Some(self.reg.r16(r16_id))
            } else {
                None::<u16>
            }),
    {
        if r16_id == BC_ID {
            Some(self.reg.bc())
        } else if r16_id == DE_ID {
            Some(self.reg.de())
        } else if r16_id == HL_ID {
            Some(self.reg.hl())
        } else if r16_id == SP_ID {
            Some(self.reg.sp)
        } else {
            None
        }
    }

    /// The pair with push/pop selector `r16_id` (BC, DE, HL or AF); `None` for another value.
    pub fn pp_read_r16(&self, r16_id: u8) -> (r: Option<u16>)
        ensures
            r == (if r16_id < 4 {
                Some(self.reg.pp_r16(r16_id))
            } else {
                None::<u16>
            }),
    {
        if r16_id == AF_ID {
            Some(self.reg.af())
        } else {
            self.read_from_r16(r16_id)
        }
    }

    /// Stores the pair with selector `r16_id` at `addr`: low byte first, high byte at
    /// `addr + 1`. Does nothing for a selector that names no pair.
    pub fn save_r16_to_mem(&mut self, r16_id: u8, addr: u16)
        ensures
            final(self)@ == (if r16_id < 4 {
                old(self)@.store(addr, lo_byte(old(self).reg.r16(r16_id))).store(
                    add16(addr, 1),
                    hi_byte(old(self).reg.r16(r16_id)),
                )
            } else {
                old(self)@
            }),
    {
        match self.read_from_r16(r16_id) {
            Some(value) => {
                self.interconnect.write(addr, (value % 256) as u8);
                self.interconnect.write(addr.wrapping_add(1), (value / 256) as u8);
            },
            None => {},
        }
    }

    /// The little-endian word after the opcode.
    pub fn get_nn(&self) -> (r: u16)
        ensures
            r == self@.imm16(),
    {
        let nn_low = self.interconnect.read(self.reg.pc.wrapping_add(1));
        let nn_high = self.interconnect.read(self.reg.pc.wrapping_add(2));
        (nn_high as u16) * 256 + (nn_low as u16)
    }

    /// The pair selector in bits 5-4 of the opcode.
    pub fn get_r16(&self) -> (r: u8)
        ensures
            r == op_p(self@.opcode()),
            r < 4,
    {
        (self.interconnect.read(self.reg.pc) / 16) % 4
    }

    /// Sets the bits of `flag` in F.
    pub fn set_flag(&mut self, flag: u8)
        ensures
            final(self)@ == old(self)@.with_reg(old(self).reg.with_f(old(self).reg.f | flag)),
    {
        self.reg.f = self.reg.f | flag;
    }

    /// Clears one of the four flags in F; any other value changes nothing.
    pub fn reset_flag(&mut self, flag: u8)
        ensures
            final(self)@ == (if flag == ZF || flag == NF || flag == HF || flag == CF {
                old(self)@.with_reg(old(self).reg.with_f(old(self).reg.f & !flag))
            } else {
                old(self)@
            }),
    {
        if flag == ZF || flag == NF || flag == HF || flag == CF {
            self.reg.f = self.reg.f & !flag;
        }
    }

    /// Writes `to_write` to A.
    pub fn write_a(&mut self, to_write: u8)
        ensures
            final(self)@ == old(self)@.with_reg(old(self).reg.with_r8(A_ID, to_write)),
    {
        self.write_to_r8(A_ID, to_write);
    }

    /// Sets all four flags.
    pub fn set_hcnz(&mut self, h: bool, c: bool, n: bool, z: bool)
        ensures
            final(self)@ == old(self)@.with_reg(old(self).reg.with_f(flags_byte(z, n, h, c))),
    {
        self.reg.f = pack_flags(z, n, h, c);
    }

    /// Sets H, N and Z; C keeps its value.
    pub fn set_hnz(&mut self, h: bool, n: bool, z: bool)
        ensures
            final(self)@ == old(self)@.with_reg(
                old(self).reg.with_f(flags_byte(z, n, h, flag_c(old(self).reg.f))),
            ),
    {
        proof {
            lemma_flag_masks(self.reg.f);
        }
        let c = self.reg.f & CF != 0;
        self.reg.f = pack_flags(z, n, h, c);
    }

    /// Sets H, C and N; Z keeps its value.
    pub fn set_hcn(&mut self, h: bool, c: bool, n: bool)
        ensures
            final(self)@ == old(self)@.with_reg(
                old(self).reg.with_f(flags_byte(flag_z(old(self).reg.f), n, h, c)),
            ),
    {
        proof {
            lemma_flag_masks(self.reg.f);
        }
        let z = self.reg.f & ZF != 0;
        self.reg.f = pack_flags(z, n, h, c);
    }

    /// Whether the condition in bits 4-3 of the opcode (NZ, Z, NC, C) holds.
    pub fn check_cc(&self) -> (r: bool)
        ensures
            r == cond(self@.opcode() / 8 % 4, self.reg.f),
    {
        let opcode = self.interconnect.read(self.reg.pc);
        let cc: u8 = (opcode / 8) % 4;
        proof {
            lemma_flag_masks(self.reg.f);
        }
        if cc == 0 {
            self.reg.f & ZF == 0
        } else if cc == 1 {
            self.reg.f & ZF != 0
        } else if cc == 2 {
            self.reg.f & CF == 0
        } else {
            self.reg.f & CF != 0
        }
    }

    /// Pushes `val` through the bus: high byte at SP-1, low byte at SP-2; SP drops by 2.
    pub fn push_u16(&mut self, val: u16)
        ensures
            final(self)@ == old(self)@.push16(val),
    {
        let sp1 = self.reg.sp.wrapping_sub(1);
        let sp2 = self.reg.sp.wrapping_sub(2);
        self.interconnect.write(sp1, (val / 256) as u8);
        self.interconnect.write(sp2, (val % 256) as u8);
        self.reg.sp = sp2;
    }

    /// Pops a word through the bus: low byte at SP, high byte at SP+1; SP rises by 2.
    pub fn pop_u16(&mut self) -> (r: u16)
        ensures
            r == old(self)@.top16(),
            final(self)@ == old(self)@.pop16(),
    {
        let lsb = self.interconnect.read(self.reg.sp);
        let msb = self.interconnect.read(self.reg.sp.wrapping_add(1));
        self.reg.sp = self.reg.sp.wrapping_add(2);
        (msb as u16) * 256 + (lsb as u16)
    }
}

} // verus!
