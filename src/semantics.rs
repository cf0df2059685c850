//! What each instruction does to the state, and how it moves PC.
use vstd::prelude::*;

use crate::alu::{alu_flags, alu_value, shift_carry, shift_value};
use crate::flags::{flag_c, flag_h, flag_n, flag_z, flags_byte};
use crate::registers::{hi_byte, is_r8, lo_byte, Registers, A_ID, HL_ID, HL_SLOT};
use crate::state::{add16, advance, cycles_of, sext8, CpuState, ProgramCounter};

verus! {

/// Bits 7-6 of an opcode.
pub open spec fn op_x(op: u8) -> u8 {
    op / 64
}

/// Bits 5-3 of an opcode: destination register, operation, bit number or condition.
pub open spec fn op_y(op: u8) -> u8 {
    op / 8 % 8
}

/// Bits 2-0 of an opcode: source register.
pub open spec fn op_z(op: u8) -> u8 {
    op % 8
}

/// Bits 5-4 of an opcode: the register pair selector.
pub open spec fn op_p(op: u8) -> u8 {
    op / 16 % 4
}

/// Whether condition `cc` (NZ, Z, NC, C) holds under flag byte `f`.
pub open spec fn cond(cc: u8, f: u8) -> bool {
    if cc == 0 {
        !flag_z(f)
    } else if cc == 1 {
        flag_z(f)
    } else if cc == 2 {
        !flag_c(f)
    } else {
        flag_c(f)
    }
}

/// The condition of a conditional jump, call or return (bits 4-3) holds.
pub open spec fn cc_holds(s: CpuState) -> bool {
    cond(s.opcode() / 8 % 4, s.reg.f)
}

pub open spec fn next(s: CpuState, len: i16, cycles: u32) -> (CpuState, ProgramCounter) {
    (s, ProgramCounter::Next(len, cycles))
}

pub open spec fn set_r8(s: CpuState, id: u8, v: u8) -> CpuState {
    s.with_reg(s.reg.with_r8(id, v))
}

pub open spec fn set_r16(s: CpuState, id: u8, v: u16) -> CpuState {
    s.with_reg(s.reg.with_r16(id, v))
}

pub open spec fn set_f(s: CpuState, f: u8) -> CpuState {
    s.with_reg(s.reg.with_f(f))
}

pub open spec fn io_addr(n: u8) -> u16 {
    (0xFF00 + n) as u16
}

// ---------------------------------------------------------------- 8-bit loads
/// A source slot that names no register (the memory slot) leaves the state unchanged.
pub open spec fn ld_rx_ry(s: CpuState) -> (CpuState, ProgramCounter) {
    let op = s.opcode();
    if is_r8(op_z(op)) {
        next(set_r8(s, op_y(op), s.reg.r8(op_z(op))), 1, 1)
    } else {
        next(s, 1, 1)
    }
}

pub open spec fn ld_r_n(s: CpuState) -> (CpuState, ProgramCounter) {
    next(set_r8(s, op_y(s.opcode()), s.imm8()), 2, 2)
}

pub open spec fn ld_r_addr_hl(s: CpuState) -> (CpuState, ProgramCounter) {
    next(set_r8(s, op_y(s.opcode()), s.hl_byte()), 1, 2)
}

/// A source slot that names no register leaves memory unchanged.
pub open spec fn ld_addr_hl_r(s: CpuState) -> (CpuState, ProgramCounter) {
    let z = op_z(s.opcode());
    if is_r8(z) {
        next(s.store(s.reg.hl_spec(), s.reg.r8(z)), 1, 2)
    } else {
        next(s, 1, 2)
    }
}

pub open spec fn ld_addr_hl_n(s: CpuState) -> (CpuState, ProgramCounter) {
    next(s.store(s.reg.hl_spec(), s.imm8()), 2, 3)
}

pub open spec fn ld_a_addr_bc(s: CpuState) -> (CpuState, ProgramCounter) {
    next(set_r8(s, A_ID, s.byte(s.reg.bc_spec())), 1, 2)
}

pub open spec fn ld_a_addr_de(s: CpuState) -> (CpuState, ProgramCounter) {
    next(set_r8(s, A_ID, s.byte(s.reg.de_spec())), 1, 2)
}

pub open spec fn ldh_a_addr_offset_c(s: CpuState) -> (CpuState, ProgramCounter) {
    next(set_r8(s, A_ID, s.byte(io_addr(s.reg.c))), 1, 2)
}

pub open spec fn ldh_addr_offset_c_a(s: CpuState) -> (CpuState, ProgramCounter) {
    next(s.store(io_addr(s.reg.c), s.reg.a), 1, 2)
}

pub open spec fn ldh_a_addr_offset_n(s: CpuState) -> (CpuState, ProgramCounter) {
    next(set_r8(s, A_ID, s.byte(io_addr(s.imm8()))), 2, 3)
}

pub open spec fn ldh_addr_offset_n_a(s: CpuState) -> (CpuState, ProgramCounter) {
    next(s.store(io_addr(s.imm8()), s.reg.a), 2, 3)
}

pub open spec fn ld_a_addr_nn(s: CpuState) -> (CpuState, ProgramCounter) {
    next(set_r8(s, A_ID, s.byte(s.imm16())), 3, 4)
}

pub open spec fn ld_addr_nn_a(s: CpuState) -> (CpuState, ProgramCounter) {
    next(s.store(s.imm16(), s.reg.a), 3, 4)
}

pub open spec fn ld_a_addr_hl_inc(s: CpuState) -> (CpuState, ProgramCounter) {
    let t = set_r8(s, A_ID, s.hl_byte());
    next(set_r16(t, HL_ID, add16(s.reg.hl_spec(), 1)), 1, 2)
}

pub open spec fn ld_a_addr_hl_dec(s: CpuState) -> (CpuState, ProgramCounter) {
    let t = set_r8(s, A_ID, s.hl_byte());
    next(set_r16(t, HL_ID, add16(s.reg.hl_spec(), -1)), 1, 2)
}

pub open spec fn ld_addr_bc_a(s: CpuState) -> (CpuState, ProgramCounter) {
    next(s.store(s.reg.bc_spec(), s.reg.a), 1, 2)
}

pub open spec fn ld_addr_de_a(s: CpuState) -> (CpuState, ProgramCounter) {
    next(s.store(s.reg.de_spec(), s.reg.a), 1, 2)
}

pub open spec fn ld_addr_hl_a_inc(s: CpuState) -> (CpuState, ProgramCounter) {
    let t = s.store(s.reg.hl_spec(), s.reg.a);
    next(set_r16(t, HL_ID, add16(s.reg.hl_spec(), 1)), 1, 2)
}

pub open spec fn ld_addr_hl_a_dec(s: CpuState) -> (CpuState, ProgramCounter) {
    let t = s.store(s.reg.hl_spec(), s.reg.a);
    next(set_r16(t, HL_ID, add16(s.reg.hl_spec(), -1)), 1, 2)
}

// ---------------------------------------------------------------- 16-bit loads
pub open spec fn ld_rr_nn(s: CpuState) -> (CpuState, ProgramCounter) {
    next(set_r16(s, op_p(s.opcode()), s.imm16()), 3, 3)
}

pub open spec fn ld_addr_nn_sp(s: CpuState) -> (CpuState, ProgramCounter) {
    let nn = s.imm16();
    next(s.store(nn, lo_byte(s.reg.sp)).store(add16(nn, 1), hi_byte(s.reg.sp)), 3, 5)
}

pub open spec fn ld_sp_hl(s: CpuState) -> (CpuState, ProgramCounter) {
    next(s.with_reg(Registers { sp: s.reg.hl_spec(), ..s.reg }), 1, 2)
}

pub open spec fn push_rr(s: CpuState) -> (CpuState, ProgramCounter) {
    next(s.push16(s.reg.pp_r16(op_p(s.opcode()))), 1, 4)
}

pub open spec fn pop_rr(s: CpuState) -> (CpuState, ProgramCounter) {
    let t = s.pop16();
    next(t.with_reg(t.reg.with_pp_r16(op_p(s.opcode()), s.top16())), 1, 3)
}

/// Flags of `SP + e` for ADD SP,e and LD HL,SP+e: carries out of bits 3 and 7 of the
/// low-byte addition.
pub open spec fn sp_e_flags(sp: u16, e: u8) -> u8 {
    flags_byte(false, false, sp % 16 + e % 16 > 0xF, sp % 256 + e > 0xFF)
}

pub open spec fn ld_hl_sp_e(s: CpuState) -> (CpuState, ProgramCounter) {
    let e = s.imm8();
    let t = set_r16(s, HL_ID, add16(s.reg.sp, sext8(e)));
    next(set_f(t, sp_e_flags(s.reg.sp, e)), 2, 3)
}

// ---------------------------------------------------------------- 8-bit arithmetic
/// A after ALU operation `kind` with operand `b`, and the flags it sets.
pub open spec fn alu_op(s: CpuState, kind: u8, b: u8) -> CpuState {
    let r = s.reg;
    s.with_reg(Registers { a: alu_value(kind, r.a, b, r.f), f: alu_flags(kind, r.a, b, r.f), ..r })
}

/// ALU operation `kind` on A and the register in bits 2-0.
pub open spec fn alu_r(s: CpuState, kind: u8) -> (CpuState, ProgramCounter) {
    next(alu_op(s, kind, s.reg.r8(op_z(s.opcode()))), 1, 1)
}

/// ALU operation `kind` on A and the immediate byte.
pub open spec fn alu_n(s: CpuState, kind: u8) -> (CpuState, ProgramCounter) {
    next(alu_op(s, kind, s.imm8()), 2, 2)
}

/// ALU operation `kind` on A and the byte at HL.
pub open spec fn alu_hl(s: CpuState, kind: u8) -> (CpuState, ProgramCounter) {
    next(alu_op(s, kind, s.hl_byte()), 1, 2)
}

pub open spec fn inc_value(v: u8) -> u8 {
    ((v + 1) % 256) as u8
}

pub open spec fn dec_value(v: u8) -> u8 {
    ((v - 1) % 256) as u8
}

/// Flags of INC: C unchanged.
pub open spec fn inc_flags(v: u8, f: u8) -> u8 {
    flags_byte(inc_value(v) == 0, false, v % 16 == 0xF, flag_c(f))
}

/// Flags of DEC: C unchanged.
pub open spec fn dec_flags(v: u8, f: u8) -> u8 {
    flags_byte(dec_value(v) == 0, true, v % 16 == 0, flag_c(f))
}

pub open spec fn inc_r(s: CpuState) -> (CpuState, ProgramCounter) {
    let y = op_y(s.opcode());
    let v = s.reg.r8(y);
    next(set_f(set_r8(s, y, inc_value(v)), inc_flags(v, s.reg.f)), 1, 1)
}

pub open spec fn inc_hl(s: CpuState) -> (CpuState, ProgramCounter) {
    let v = s.hl_byte();
    next(set_f(s.store(s.reg.hl_spec(), inc_value(v)), inc_flags(v, s.reg.f)), 1, 3)
}

pub open spec fn dec_r(s: CpuState) -> (CpuState, ProgramCounter) {
    let y = op_y(s.opcode());
    let v = s.reg.r8(y);
    next(set_f(set_r8(s, y, dec_value(v)), dec_flags(v, s.reg.f)), 1, 1)
}

pub open spec fn dec_hl(s: CpuState) -> (CpuState, ProgramCounter) {
    let v = s.hl_byte();
    next(set_f(s.store(s.reg.hl_spec(), dec_value(v)), dec_flags(v, s.reg.f)), 1, 3)
}

// ---------------------------------------------------------------- 16-bit arithmetic
/// Flags of ADD HL,ss: carries out of bits 11 and 15; Z unchanged.
pub open spec fn add_hl_flags(hl: u16, v: u16, f: u8) -> u8 {
    flags_byte(flag_z(f), false, hl % 0x1000 + v % 0x1000 > 0xFFF, hl + v > 0xFFFF)
}

pub open spec fn add_hlss(s: CpuState) -> (CpuState, ProgramCounter) {
    let hl = s.reg.hl_spec();
    let v = s.reg.r16(op_p(s.opcode()));
    next(set_f(set_r16(s, HL_ID, add16(hl, v as int)), add_hl_flags(hl, v, s.reg.f)), 1, 2)
}

pub open spec fn add_spe(s: CpuState) -> (CpuState, ProgramCounter) {
    let e = s.imm8();
    let sp = s.reg.sp;
    next(s.with_reg(Registers { sp: add16(sp, sext8(e)), f: sp_e_flags(sp, e), ..s.reg }), 2, 4)
}

pub open spec fn inc_ss(s: CpuState) -> (CpuState, ProgramCounter) {
    let p = op_p(s.opcode());
    next(set_r16(s, p, add16(s.reg.r16(p), 1)), 1, 2)
}

pub open spec fn dec_ss(s: CpuState) -> (CpuState, ProgramCounter) {
    let p = op_p(s.opcode());
    next(set_r16(s, p, add16(s.reg.r16(p), -1)), 1, 2)
}

// ---------------------------------------------------------------- rotates and shifts
/// The flags a CB shift leaves on result `v` and outgoing carry `c`.
pub open spec fn shift_flags(v: u8, c: bool) -> u8 {
    flags_byte(v == 0, false, false, c)
}

/// A rotate of A (RLCA, RRCA, RLA, RRA): Z is always cleared.
pub open spec fn rotate_a(s: CpuState, kind: u8) -> (CpuState, ProgramCounter) {
    let a = s.reg.a;
    let t = set_r8(s, A_ID, shift_value(kind, a, flag_c(s.reg.f)));
    next(set_f(t, flags_byte(false, false, false, shift_carry(kind, a))), 1, 1)
}

/// The operand slot (bits 2-0) of the CB suffix.
pub open spec fn cb_z(s: CpuState) -> u8 {
    op_z(s.imm8())
}

/// The bit number (bits 5-3) of the CB suffix.
pub open spec fn cb_bit(s: CpuState) -> u8 {
    op_y(s.imm8())
}

/// The operand of a CB instruction: a register, or the byte at HL for slot 110.
pub open spec fn cb_operand(s: CpuState) -> u8 {
    if cb_z(s) == HL_SLOT {
        s.hl_byte()
    } else {
        s.reg.r8(cb_z(s))
    }
}

/// The state with the operand of a CB instruction replaced by `v`.
pub open spec fn cb_store(s: CpuState, v: u8) -> CpuState {
    if cb_z(s) == HL_SLOT {
        s.store(s.reg.hl_spec(), v)
    } else {
        set_r8(s, cb_z(s), v)
    }
}

/// Machine cycles of a CB instruction: `reg` on a register, `mem` on the byte at HL.
pub open spec fn cb_next(s: CpuState, t: CpuState, reg: u32, mem: u32) -> (CpuState, ProgramCounter) {
    next(t, 2, if cb_z(s) == HL_SLOT { mem } else { reg })
}

/// A CB shift or rotate of kind `kind`.
pub open spec fn cb_shift(s: CpuState, kind: u8) -> (CpuState, ProgramCounter) {
    let v = cb_operand(s);
    let res = shift_value(kind, v, flag_c(s.reg.f));
    cb_next(s, set_f(cb_store(s, res), shift_flags(res, shift_carry(kind, v))), 2, 4)
}

// ---------------------------------------------------------------- bit operations
pub open spec fn bit_is_set(v: u8, b: u8) -> bool {
    (v >> b) & 1 != 0
}

/// BIT: Z is the complement of the bit, N cleared, H set, C unchanged.
pub open spec fn bit_b(s: CpuState) -> (CpuState, ProgramCounter) {
    let f = s.reg.f;
    let t = set_f(s, flags_byte(!bit_is_set(cb_operand(s), cb_bit(s)), false, true, flag_c(f)));
    cb_next(s, t, 2, 3)
}

pub open spec fn set_b(s: CpuState) -> (CpuState, ProgramCounter) {
    cb_next(s, cb_store(s, cb_operand(s) | (1u8 << cb_bit(s))), 2, 4)
}

pub open spec fn res_b(s: CpuState) -> (CpuState, ProgramCounter) {
    cb_next(s, cb_store(s, cb_operand(s) & !(1u8 << cb_bit(s))), 2, 4)
}

/// The CB-prefixed instruction whose suffix follows the opcode.
#[verifier::opaque]
pub open spec fn execute_cb(s: CpuState) -> (CpuState, ProgramCounter) {
    let x = op_x(s.imm8());
    if x == 0 {
        cb_shift(s, cb_bit(s))
    } else if x == 1 {
        bit_b(s)
    } else if x == 2 {
        res_b(s)
    } else {
        set_b(s)
    }
}

// ---------------------------------------------------------------- control flow
pub open spec fn jp_nn(s: CpuState) -> (CpuState, ProgramCounter) {
    (s, ProgramCounter::Jump(s.imm16(), 4))
}

pub open spec fn jp_hl(s: CpuState) -> (CpuState, ProgramCounter) {
    (s, ProgramCounter::Jump(s.reg.hl_spec(), 1))
}

pub open spec fn jp_cc_nn(s: CpuState) -> (CpuState, ProgramCounter) {
    if cc_holds(s) {
        (s, ProgramCounter::Jump(s.imm16(), 4))
    } else {
        next(s, 3, 3)
    }
}

pub open spec fn jr_e(s: CpuState) -> (CpuState, ProgramCounter) {
    next(s, (sext8(s.imm8()) + 2) as i16, 3)
}

pub open spec fn jr_cc_e(s: CpuState) -> (CpuState, ProgramCounter) {
    if cc_holds(s) {
        next(s, (sext8(s.imm8()) + 2) as i16, 3)
    } else {
        next(s, 2, 2)
    }
}

pub open spec fn call_nn(s: CpuState) -> (CpuState, ProgramCounter) {
    (s.push16(add16(s.reg.pc, 3)), ProgramCounter::Jump(s.imm16(), 6))
}

pub open spec fn call_cc_nn(s: CpuState) -> (CpuState, ProgramCounter) {
    if cc_holds(s) {
        call_nn(s)
    } else {
        next(s, 3, 3)
    }
}

pub open spec fn ret(s: CpuState) -> (CpuState, ProgramCounter) {
    (s.pop16(), ProgramCounter::Jump(s.top16(), 4))
}

pub open spec fn ret_cc(s: CpuState) -> (CpuState, ProgramCounter) {
    if cc_holds(s) {
        (s.pop16(), ProgramCounter::Jump(s.top16(), 5))
    } else {
        next(s, 1, 2)
    }
}

pub open spec fn reti(s: CpuState) -> (CpuState, ProgramCounter) {
    let t = s.pop16();
    (t.with_reg(Registers { ime: true, ..t.reg }), ProgramCounter::Jump(s.top16(), 4))
}

pub open spec fn rst_n(s: CpuState) -> (CpuState, ProgramCounter) {
    (s.push16(add16(s.reg.pc, 1)), ProgramCounter::Jump((op_y(s.opcode()) * 8) as u16, 4))
}

// ---------------------------------------------------------------- miscellaneous
pub open spec fn halt(s: CpuState) -> (CpuState, ProgramCounter) {
    next(CpuState { halt_mode: true, ..s }, 1, 1)
}

pub open spec fn stop(s: CpuState) -> (CpuState, ProgramCounter) {
    next(CpuState { stop_mode: true, ..s }, 1, 1)
}

pub open spec fn di(s: CpuState) -> (CpuState, ProgramCounter) {
    next(CpuState { reg: Registers { ime: false, ..s.reg }, ei_pending: false, ..s }, 1, 1)
}

pub open spec fn ei(s: CpuState) -> (CpuState, ProgramCounter) {
    next(CpuState { ei_pending: true, ..s }, 1, 1)
}

pub open spec fn ccf(s: CpuState) -> (CpuState, ProgramCounter) {
    let f = s.reg.f;
    next(set_f(s, flags_byte(flag_z(f), false, false, !flag_c(f))), 1, 1)
}

pub open spec fn scf(s: CpuState) -> (CpuState, ProgramCounter) {
    next(set_f(s, flags_byte(flag_z(s.reg.f), false, false, true)), 1, 1)
}

pub open spec fn nop(s: CpuState) -> (CpuState, ProgramCounter) {
    next(s, 1, 1)
}

/// The carry DAA leaves: set after an addition whose result went past 0x99.
pub open spec fn daa_carry(a: u8, f: u8) -> bool {
    flag_c(f) || (!flag_n(f) && a > 0x99)
}

/// A adjusted to packed BCD after an addition (N clear) or a subtraction (N set).
pub open spec fn daa_value(a: u8, f: u8) -> u8 {
    if !flag_n(f) {
        let hi = if daa_carry(a, f) { 0x60int } else { 0 };
        let lo = if flag_h(f) || a % 16 > 9 { 6int } else { 0 };
        ((a + hi + lo) % 256) as u8
    } else {
        let hi = if flag_c(f) { 0x60int } else { 0 };
        let lo = if flag_h(f) { 6int } else { 0 };
        ((a - hi - lo) % 256) as u8
    }
}

pub open spec fn daa(s: CpuState) -> (CpuState, ProgramCounter) {
    let a = s.reg.a;
    let f = s.reg.f;
    let v = daa_value(a, f);
    next(set_f(set_r8(s, A_ID, v), flags_byte(v == 0, flag_n(f), false, daa_carry(a, f))), 1, 1)
}

pub open spec fn cpl(s: CpuState) -> (CpuState, ProgramCounter) {
    let f = s.reg.f;
    let t = set_r8(s, A_ID, (255 - s.reg.a) as u8);
    next(set_f(t, flags_byte(flag_z(f), true, true, flag_c(f))), 1, 1)
}

// ---------------------------------------------------------------- decoding
/// The opcode is assigned: all but eleven primary opcodes are.
pub open spec fn defined(op: u8) -> bool {
    !(op == 0xD3 || op == 0xDB || op == 0xDD || op == 0xE3 || op == 0xE4 || op == 0xEB || op
        == 0xEC || op == 0xED || op == 0xF4 || op == 0xFC || op == 0xFD)
}

/// Opcodes 00yyyzzz.
#[verifier::opaque]
pub open spec fn execute_x0(s: CpuState) -> (CpuState, ProgramCounter) {
    let op = s.opcode();
    let y = op_y(op);
    let z = op_z(op);
    if z == 0 {
        if y == 0 {
            nop(s)
        } else if y == 1 {
            ld_addr_nn_sp(s)
        } else if y == 2 {
            stop(s)
        } else if y == 3 {
            jr_e(s)
        } else {
            jr_cc_e(s)
        }
    } else if z == 1 {
        if y % 2 == 0 {
            ld_rr_nn(s)
        } else {
            add_hlss(s)
        }
    } else if z == 2 {
        if y == 0 {
            ld_addr_bc_a(s)
        } else if y == 1 {
            ld_a_addr_bc(s)
        } else if y == 2 {
            ld_addr_de_a(s)
        } else if y == 3 {
            ld_a_addr_de(s)
        } else if y == 4 {
            ld_addr_hl_a_inc(s)
        } else if y == 5 {
            ld_a_addr_hl_inc(s)
        } else if y == 6 {
            ld_addr_hl_a_dec(s)
        } else {
            ld_a_addr_hl_dec(s)
        }
    } else if z == 3 {
        if y % 2 == 0 {
            inc_ss(s)
        } else {
            dec_ss(s)
        }
    } else if z == 4 {
        if y == HL_SLOT {
            inc_hl(s)
        } else {
            inc_r(s)
        }
    } else if z == 5 {
        if y == HL_SLOT {
            dec_hl(s)
        } else {
            dec_r(s)
        }
    } else if z == 6 {
        if y == HL_SLOT {
            ld_addr_hl_n(s)
        } else {
            ld_r_n(s)
        }
    } else {
        if y < 4 {
            rotate_a(s, y)
        } else if y == 4 {
            daa(s)
        } else if y == 5 {
            cpl(s)
        } else if y == 6 {
            scf(s)
        } else {
            ccf(s)
        }
    }
}

/// Opcodes 01yyyzzz: register loads, and HALT.
#[verifier::opaque]
pub open spec fn execute_x1(s: CpuState) -> (CpuState, ProgramCounter) {
    let op = s.opcode();
    if op == 0x76 {
        halt(s)
    } else if op_y(op) == HL_SLOT {
        ld_addr_hl_r(s)
    } else if op_z(op) == HL_SLOT {
        ld_r_addr_hl(s)
    } else {
        ld_rx_ry(s)
    }
}

/// Opcodes 10yyyzzz: ALU operations on A.
#[verifier::opaque]
pub open spec fn execute_x2(s: CpuState) -> (CpuState, ProgramCounter) {
    let op = s.opcode();
    if op_z(op) == HL_SLOT {
        alu_hl(s, op_y(op))
    } else {
        alu_r(s, op_y(op))
    }
}

/// Opcodes 11yyyzzz.
#[verifier::opaque]
pub open spec fn execute_x3(s: CpuState) -> (CpuState, ProgramCounter) {
    let op = s.opcode();
    let y = op_y(op);
    let z = op_z(op);
    if z == 0 {
        if y < 4 {
            ret_cc(s)
        } else if y == 4 {
            ldh_addr_offset_n_a(s)
        } else if y == 5 {
            add_spe(s)
        } else if y == 6 {
            ldh_a_addr_offset_n(s)
        } else {
            ld_hl_sp_e(s)
        }
    } else if z == 1 {
        if y % 2 == 0 {
            pop_rr(s)
        } else if y == 1 {
            ret(s)
        } else if y == 3 {
            reti(s)
        } else if y == 5 {
            jp_hl(s)
        } else {
            ld_sp_hl(s)
        }
    } else if z == 2 {
        if y < 4 {
            jp_cc_nn(s)
        } else if y == 4 {
            ldh_addr_offset_c_a(s)
        } else if y == 5 {
            ld_addr_nn_a(s)
        } else if y == 6 {
            ldh_a_addr_offset_c(s)
        } else {
            ld_a_addr_nn(s)
        }
    } else if z == 3 {
        if y == 0 {
            jp_nn(s)
        } else if y == 1 {
            execute_cb(s)
        } else if y == 6 {
            di(s)
        } else {
            ei(s)
        }
    } else if z == 4 {
        call_cc_nn(s)
    } else if z == 5 {
        if y % 2 == 0 {
            push_rr(s)
        } else {
            call_nn(s)
        }
    } else if z == 6 {
        alu_n(s, y)
    } else {
        rst_n(s)
    }
}

/// The instruction at PC: its effect, before PC moves, and how PC moves.
pub open spec fn execute(s: CpuState) -> (CpuState, ProgramCounter) {
    let x = op_x(s.opcode());
    if x == 0 {
        execute_x0(s)
    } else if x == 1 {
        execute_x1(s)
    } else if x == 2 {
        execute_x2(s)
    } else {
        execute_x3(s)
    }
}

/// The state after the instruction at PC, with PC moved, and the T-states it took.
pub open spec fn execute_opcode(s: CpuState) -> (CpuState, u32) {
    let (t, p) = execute(s);
    (advance(t, p), (4 * cycles_of(p)) as u32)
}

// ---------------------------------------------------------------- interrupts
/// Requested and enabled interrupts.
pub open spec fn pending(s: CpuState) -> u8 {
    s.int_flags & s.int_enable & 0x1F
}

/// The index of the lowest set bit of a nonzero 5-bit value.
pub open spec fn lowest_bit(p: u8) -> u8 {
    if p & 0x01 != 0 {
        0
    } else if p & 0x02 != 0 {
        1
    } else if p & 0x04 != 0 {
        2
    } else if p & 0x08 != 0 {
        3
    } else {
        4
    }
}

/// The service address of interrupt `k`.
pub open spec fn vector(k: u8) -> u16 {
    (0x40 + 8 * k) as u16
}

/// Interrupt dispatch between instructions, and the T-states it takes.
pub open spec fn handle_interrupt(s: CpuState) -> (CpuState, u32) {
    let p = pending(s);
    let t = if s.halt_mode && p != 0 {
        CpuState { halt_mode: false, ..s }
    } else {
        s
    };
    if !s.reg.ime || p == 0 {
        (t, 0)
    } else {
        let k = lowest_bit(p);
        let u = CpuState {
            int_flags: s.int_flags & !(1u8 << k),
            reg: Registers { ime: false, ..s.reg },
            ..t
        };
        let w = u.push16(s.reg.pc);
        (w.with_reg(Registers { pc: vector(k), ..w.reg }), 20)
    }
}

/// EI takes effect after the instruction that follows it, unless that one cancelled it.
pub open spec fn promote_ei(before: CpuState, after: CpuState) -> CpuState {
    if before.ei_pending && after.ei_pending {
        CpuState { reg: Registers { ime: true, ..after.reg }, ei_pending: false, ..after }
    } else {
        after
    }
}

/// One step: an instruction (or one machine cycle of HALT), then at most one interrupt
/// dispatch; with the T-states of both.
pub open spec fn step(s: CpuState) -> (CpuState, u32) {
    let (t, c1) = if s.halt_mode {
        (s, 4u32)
    } else {
        execute_opcode(s)
    };
    let (u, c2) = handle_interrupt(promote_ei(s, t));
    (u, (c1 + c2) as u32)
}

} // verus!
