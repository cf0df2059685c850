use vstd::prelude::*;

use crate::flags::{flag_c, flags_byte};

verus! {

/// ALU operation codes, as they stand in bits 5-3 of an ALU opcode.
pub const ALU_ADD: u8 = 0;

pub const ALU_ADC: u8 = 1;

pub const ALU_SUB: u8 = 2;

pub const ALU_SBC: u8 = 3;

pub const ALU_AND: u8 = 4;

pub const ALU_XOR: u8 = 5;

pub const ALU_OR: u8 = 6;

pub const ALU_CP: u8 = 7;

/// The carry that ADC and SBC take in: the C flag; the other operations take none.
pub open spec fn carry_in(kind: u8, f: u8) -> int {
    if (kind == ALU_ADC || kind == ALU_SBC) && flag_c(f) {
        1
    } else {
        0
    }
}

/// `a + b + c` modulo 256.
pub open spec fn add_value(a: u8, b: u8, c: int) -> u8 {
    ((a + b + c) % 256) as u8
}

/// `a - b - c` modulo 256.
pub open spec fn sub_value(a: u8, b: u8, c: int) -> u8 {
    ((a - b - c) % 256) as u8
}

/// Flags of ADD and ADC: carry out of bit 3 and out of bit 7.
pub open spec fn add_flags(a: u8, b: u8, c: int) -> u8 {
    flags_byte(add_value(a, b, c) == 0, false, a % 16 + b % 16 + c > 0xF, a + b + c > 0xFF)
}

/// Flags of SUB, SBC and CP: borrow from bit 4 and from beyond bit 7.
pub open spec fn sub_flags(a: u8, b: u8, c: int) -> u8 {
    flags_byte(sub_value(a, b, c) == 0, true, a % 16 < b % 16 + c, a < b + c)
}

/// What an ALU operation leaves in A (CP leaves A as it was).
pub open spec fn alu_value(kind: u8, a: u8, b: u8, f: u8) -> u8 {
    let c = carry_in(kind, f);
    if kind == ALU_ADD || kind == ALU_ADC {
        add_value(a, b, c)
    } else if kind == ALU_SUB || kind == ALU_SBC {
        sub_value(a, b, c)
    } else if kind == ALU_AND {
        a & b
    } else if kind == ALU_XOR {
        a ^ b
    } else if kind == ALU_OR {
        a | b
    } else {
        a
    }
}

/// The flag byte an ALU operation leaves.
pub open spec fn alu_flags(kind: u8, a: u8, b: u8, f: u8) -> u8 {
    let c = carry_in(kind, f);
    if kind == ALU_ADD || kind == ALU_ADC {
        add_flags(a, b, c)
    } else if kind == ALU_SUB || kind == ALU_SBC || kind == ALU_CP {
        sub_flags(a, b, c)
    } else if kind == ALU_AND {
        flags_byte(a & b == 0, false, true, false)
    } else if kind == ALU_XOR {
        flags_byte(a ^ b == 0, false, false, false)
    } else {
        flags_byte(a | b == 0, false, false, false)
    }
}

/// Shift and rotate codes, as they stand in bits 5-3 of a CB-prefixed opcode.
pub const SH_RLC: u8 = 0;

pub const SH_RRC: u8 = 1;

pub const SH_RL: u8 = 2;

pub const SH_RR: u8 = 3;

pub const SH_SLA: u8 = 4;

pub const SH_SRA: u8 = 5;

pub const SH_SWAP: u8 = 6;

pub const SH_SRL: u8 = 7;

pub open spec fn bit_int(b: bool) -> int {
    if b {
        1
    } else {
        0
    }
}

/// The value a shift or rotate produces from `v`, with `c` the incoming C flag.
pub open spec fn shift_value(kind: u8, v: u8, c: bool) -> u8 {
    (if kind == SH_RLC {
        (v * 2) % 256 + v / 128
    } else if kind == SH_RRC {
        v / 2 + (v % 2) * 128
    } else if kind == SH_RL {
        (v * 2) % 256 + bit_int(c)
    } else if kind == SH_RR {
        v / 2 + bit_int(c) * 128
    } else if kind == SH_SLA {
        (v * 2) % 256
    } else if kind == SH_SRA {
        v / 2 + (v / 128) * 128
    } else if kind == SH_SWAP {
        (v % 16) * 16 + v / 16
    } else {
        v as int / 2
    }) as u8
}

/// The bit a shift or rotate moves out into C (SWAP: none).
pub open spec fn shift_carry(kind: u8, v: u8) -> bool {
    if kind == SH_RLC || kind == SH_RL || kind == SH_SLA {
        v >= 128
    } else if kind == SH_SWAP {
        false
    } else {
        v % 2 == 1
    }
}

/// Result and flags of one 8-bit ALU operation.
pub fn alu8(kind: u8, a: u8, b: u8, f: u8) -> (r: (u8, u8))
    requires
        kind < 8,
    ensures
        r.0 == alu_value(kind, a, b, f),
        r.1 == alu_flags(kind, a, b, f),
{
    let c: u8 = if (kind == ALU_ADC || kind == ALU_SBC) && f & crate::flags::CF != 0 {
        1
    } else {
        0
    };
    proof {
        crate::flags::lemma_flag_masks(f);
    }
    if kind == ALU_ADD || kind == ALU_ADC {
        let sum: u16 = a as u16 + b as u16 + c as u16;
        let res: u8 = (sum % 256) as u8;
        let h = (a % 16) + (b % 16) + c > 0xF;
        (res, crate::flags::pack_flags(res == 0, false, h, sum > 0xFF))
    } else if kind == ALU_SUB || kind == ALU_SBC || kind == ALU_CP {
        let d: i16 = a as i16 - b as i16 - c as i16;
        let res: u8 = if d < 0 {
            (d + 256) as u8
        } else {
            d as u8
        };
        let h = (a % 16) < (b % 16) + c;
        let flags = crate::flags::pack_flags(res == 0, true, h, (a as u16) < (b as u16) + c as u16);
        if kind == ALU_CP {
            (a, flags)
        } else {
            (res, flags)
        }
    } else if kind == ALU_AND {
        let res = a & b;
        (res, crate::flags::pack_flags(res == 0, false, true, false))
    } else if kind == ALU_XOR {
        let res = a ^ b;
        (res, crate::flags::pack_flags(res == 0, false, false, false))
    } else {
        let res = a | b;
        (res, crate::flags::pack_flags(res == 0, false, false, false))
    }
}

/// The rotate that a direction and a carry mode select: with `has_carry` the bit moved
/// out comes back in at the other end (RLC, RRC); without it C comes in (RL, RR).
pub open spec fn rot_kind(is_left: bool, has_carry: bool) -> u8 {
    if is_left {
        if has_carry {
            SH_RLC
        } else {
            SH_RL
        }
    } else {
        if has_carry {
            SH_RRC
        } else {
            SH_RR
        }
    }
}

/// Result and outgoing carry of one shift or rotate.
pub fn shift8(kind: u8, v: u8, c: bool) -> (r: (u8, bool))
    requires
        kind < 8,
    ensures
        r.0 == shift_value(kind, v, c),
        r.1 == shift_carry(kind, v),
{
    let cin: u8 = if c {
        1
    } else {
        0
    };
    let res: u8 = if kind == SH_RLC {
        (v % 128) * 2 + v / 128
    } else if kind == SH_RRC {
        v / 2 + (v % 2) * 128
    } else if kind == SH_RL {
        (v % 128) * 2 + cin
    } else if kind == SH_RR {
        v / 2 + cin * 128
    } else if kind == SH_SLA {
        (v % 128) * 2
    } else if kind == SH_SRA {
        v / 2 + (v / 128) * 128
    } else if kind == SH_SWAP {
        (v % 16) * 16 + v / 16
    } else {
        v / 2
    };
    let out = if kind == SH_RLC || kind == SH_RL || kind == SH_SLA {
        v >= 128
    } else if kind == SH_SWAP {
        false
    } else {
        v % 2 == 1
    };
    (res, out)
}

} // verus!
