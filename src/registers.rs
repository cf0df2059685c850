use vstd::prelude::*;

verus! {

/// Register ID of A in the 3-bit register slot of an opcode.
pub const A_ID: u8 = 0b111;

pub const B_ID: u8 = 0b000;

pub const C_ID: u8 = 0b001;

pub const D_ID: u8 = 0b010;

pub const E_ID: u8 = 0b011;

pub const H_ID: u8 = 0b100;

pub const L_ID: u8 = 0b101;

/// The 3-bit register slot value that denotes the byte in memory at HL.
pub const HL_SLOT: u8 = 0b110;

/// 16-bit pair selectors.
pub const BC_ID: u8 = 0b00;

pub const DE_ID: u8 = 0b01;

pub const HL_ID: u8 = 0b10;

pub const SP_ID: u8 = 0b11;

/// In push and pop the SP slot selects AF.
pub const AF_ID: u8 = 0b11;

/// An 8-bit register ID: a 3-bit slot value other than the memory slot.
pub open spec fn is_r8(id: u8) -> bool {
    id < 8 && id != HL_SLOT
}

/// The word with `hi` as its high byte and `lo` as its low byte.
pub open spec fn word(hi: u8, lo: u8) -> u16 {
    (hi as int * 256 + lo as int) as u16
}

pub open spec fn hi_byte(v: u16) -> u8 {
    (v / 256) as u8
}

pub open spec fn lo_byte(v: u16) -> u8 {
    (v % 256) as u8
}

/// The register file. Register pairs are not stored: they are read from and written to
/// their halves.
#[derive(Clone, Copy, Debug, PartialEq, Eq, Structural)]
pub struct Registers {
    pub a: u8,
    pub b: u8,
    pub c: u8,
    pub d: u8,
    pub e: u8,
    pub h: u8,
    pub l: u8,
    pub f: u8,
    pub sp: u16,
    pub pc: u16,
    /// Interrupt master enable.
    pub ime: bool,
}

impl Registers {
    /// The 8-bit register with the given ID.
    pub open spec fn r8(self, id: u8) -> u8 {
        if id == A_ID {
            self.a
        } else if id == B_ID {
            self.b
        } else if id == C_ID {
            self.c
        } else if id == D_ID {
            self.d
        } else if id == E_ID {
            self.e
        } else if id == H_ID {
            self.h
        } else if id == L_ID {
            self.l
        } else {
            0
        }
    }

    /// The registers with the 8-bit register of the given ID set to `v`.
    pub open spec fn with_r8(self, id: u8, v: u8) -> Registers {
        if id == A_ID {
            Registers { a: v, ..self }
        } else if id == B_ID {
            Registers { b: v, ..self }
        } else if id == C_ID {
            Registers { c: v, ..self }
        } else if id == D_ID {
            Registers { d: v, ..self }
        } else if id == E_ID {
            Registers { e: v, ..self }
        } else if id == H_ID {
            Registers { h: v, ..self }
        } else if id == L_ID {
            Registers { l: v, ..self }
        } else {
            self
        }
    }

    pub open spec fn with_f(self, f: u8) -> Registers {
        Registers { f, ..self }
    }

    pub open spec fn bc_spec(self) -> u16 {
        word(self.b, self.c)
    }

    pub open spec fn de_spec(self) -> u16 {
        word(self.d, self.e)
    }

    pub open spec fn hl_spec(self) -> u16 {
        word(self.h, self.l)
    }

    pub open spec fn af_spec(self) -> u16 {
        word(self.a, self.f)
    }

    /// The pair with the given selector: BC, DE, HL or SP.
    pub open spec fn r16(self, id: u8) -> u16 {
        if id == BC_ID {
            self.bc_spec()
        } else if id == DE_ID {
            self.de_spec()
        } else if id == HL_ID {
            self.hl_spec()
        } else {
            self.sp
        }
    }

    /// The pair with the given push/pop selector: BC, DE, HL or AF.
    pub open spec fn pp_r16(self, id: u8) -> u16 {
        if id == AF_ID {
            self.af_spec()
        } else {
            self.r16(id)
        }
    }

    /// The registers with the pair of the given selector (BC, DE, HL or SP) set to `v`.
    pub open spec fn with_r16(self, id: u8, v: u16) -> Registers {
        if id == BC_ID {
            Registers { b: hi_byte(v), c: lo_byte(v), ..self }
        } else if id == DE_ID {
            Registers { d: hi_byte(v), e: lo_byte(v), ..self }
        } else if id == HL_ID {
            Registers { h: hi_byte(v), l: lo_byte(v), ..self }
        } else {
            Registers { sp: v, ..self }
        }
    }

    /// The registers with the pair of the given push/pop selector (BC, DE, HL or AF) set
    /// to `v`; F keeps only the high nibble of the low byte.
    pub open spec fn with_pp_r16(self, id: u8, v: u16) -> Registers {
        if id == AF_ID {
            Registers { a: hi_byte(v), f: (lo_byte(v) - lo_byte(v) % 16) as u8, ..self }
        } else {
            self.with_r16(id, v)
        }
    }

    /// The register values after power-on and the boot program.
    pub open spec fn new_spec() -> Registers {
        Registers {
            a: 0x01,
            b: 0x00,
            c: 0x13,
            d: 0x00,
            e: 0xD8,
            h: 0x01,
            l: 0x4D,
            f: 0xB0,
            sp: 0xFFFE,
            pc: 0x0100,
            ime: true,
        }
    }

    /// The state after power-on and the boot program.
    pub fn new() -> (r: Self)
        ensures
            r == Registers::new_spec(),
    {
        Registers {
            a: 0x01,
            b: 0x00,
            c: 0x13,
            d: 0x00,
            e: 0xD8,
            h: 0x01,
            l: 0x4D,
            f: 0xB0,
            sp: 0xFFFE,
            pc: 0x0100,
            ime: true,
        }
    }

    /// The pair BC.
    pub fn bc(&self) -> (r: u16)
        ensures
            r == self.bc_spec(),
    {
        (self.b as u16) * 256 + (self.c as u16)
    }

    /// The pair DE.
    pub fn de(&self) -> (r: u16)
        ensures
            r == self.de_spec(),
    {
        (self.d as u16) * 256 + (self.e as u16)
    }

    /// The pair HL.
    pub fn hl(&self) -> (r: u16)
        ensures
            r == self.hl_spec(),
    {
        (self.h as u16) * 256 + (self.l as u16)
    }

    /// The pair AF.
    pub fn af(&self) -> (r: u16)
        ensures
            r == self.af_spec(),
    {
        (self.a as u16) * 256 + (self.f as u16)
    }
}

} // verus!
