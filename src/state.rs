use vstd::prelude::*;

use crate::registers::{hi_byte, lo_byte, word, Registers};

verus! {

/// How an instruction moves the program counter, and the machine cycles it takes.
#[derive(Clone, Copy, Debug, PartialEq, Eq, Structural)]
pub enum ProgramCounter {
    /// Advance PC by this many bytes (negative for a backward branch), modulo 2^16.
    Next(i16, u32),
    /// Set PC to this address.
    Jump(u16, u32),
}

/// The machine cycles that a program counter update carries.
pub open spec fn cycles_of(p: ProgramCounter) -> u32 {
    match p {
        ProgramCounter::Next(_, c) => c,
        ProgramCounter::Jump(_, c) => c,
    }
}

/// `x + d` modulo 2^16.
pub open spec fn add16(x: u16, d: int) -> u16 {
    ((x as int + d) % 0x10000) as u16
}

/// The signed value of an 8-bit two's-complement offset.
pub open spec fn sext8(e: u8) -> int {
    if e >= 128 {
        e as int - 256
    } else {
        e as int
    }
}

/// Everything an instruction reads or writes: registers, memory, the interrupt bytes and
/// the mode flags.
pub struct CpuState {
    pub reg: Registers,
    pub mem: Seq<u8>,
    pub int_flags: u8,
    pub int_enable: u8,
    pub halt_mode: bool,
    pub stop_mode: bool,
    /// An EI took effect on the instruction before: IME is set after the next one.
    pub ei_pending: bool,
}

impl CpuState {
    /// The byte in memory at `addr`.
    pub open spec fn byte(self, addr: u16) -> u8 {
        self.mem[addr as int]
    }

    /// The opcode at PC.
    pub open spec fn opcode(self) -> u8 {
        self.byte(self.reg.pc)
    }

    /// The byte after the opcode: an immediate, an offset or the CB suffix.
    pub open spec fn imm8(self) -> u8 {
        self.byte(add16(self.reg.pc, 1))
    }

    /// The little-endian word after the opcode.
    pub open spec fn imm16(self) -> u16 {
        word(self.byte(add16(self.reg.pc, 2)), self.imm8())
    }

    /// The byte in memory at HL.
    pub open spec fn hl_byte(self) -> u8 {
        self.byte(self.reg.hl_spec())
    }

    pub open spec fn with_reg(self, reg: Registers) -> CpuState {
        CpuState { reg, ..self }
    }

    /// The state with `v` stored at `addr`.
    pub open spec fn store(self, addr: u16, v: u8) -> CpuState {
        CpuState { mem: self.mem.update(addr as int, v), ..self }
    }

    /// The state after pushing `v`: its high byte at SP-1, its low byte at SP-2, and SP
    /// lowered by 2.
    pub open spec fn push16(self, v: u16) -> CpuState {
        let sp = self.reg.sp;
        let t = self.store(add16(sp, -1), hi_byte(v)).store(add16(sp, -2), lo_byte(v));
        t.with_reg(Registers { sp: add16(sp, -2), ..t.reg })
    }

    /// The word on top of the stack: low byte at SP, high byte at SP+1.
    pub open spec fn top16(self) -> u16 {
        word(self.byte(add16(self.reg.sp, 1)), self.byte(self.reg.sp))
    }

    /// The state after popping a word: SP raised by 2.
    pub open spec fn pop16(self) -> CpuState {
        self.with_reg(Registers { sp: add16(self.reg.sp, 2), ..self.reg })
    }
}

/// The state with the program counter moved as `p` says.
pub open spec fn advance(s: CpuState, p: ProgramCounter) -> CpuState {
    match p {
        ProgramCounter::Next(d, _) => s.with_reg(Registers { pc: add16(s.reg.pc, d as int), ..s.reg }),
        ProgramCounter::Jump(a, _) => s.with_reg(Registers { pc: a, ..s.reg }),
    }
}

} // verus!
