//! Properties of the instruction set that hold for every input.
use vstd::prelude::*;

use crate::alu::{
    add_value, alu_flags, alu_value, carry_in, sub_value, ALU_ADC, ALU_ADD, ALU_AND, ALU_CP, ALU_OR,
    ALU_SBC, ALU_SUB, ALU_XOR,
};
use crate::flags::{flag_c, flag_h, flag_n, flag_z, lemma_flags_byte, low_nibble_clear};
use crate::registers::{hi_byte, lo_byte, word, Registers, AF_ID};
use crate::semantics;
use crate::timing;
use crate::semantics::{dec_flags, dec_value, inc_flags, inc_value};
use crate::state::{add16, CpuState};

verus! {

/// Every 8-bit ALU operation sets Z, N, H and C as its table row says: ADD and ADC by the
/// carries out of bits 3 and 7, SUB, SBC and CP by the borrows, AND with H set, OR and XOR
/// with H and C clear; Z tells whether the result (for CP: A - b) is zero.
pub proof fn lemma_alu_flag_table(kind: u8, a: u8, b: u8, f: u8)
    requires
        kind < 8,
    ensures
        ({
            let fl = alu_flags(kind, a, b, f);
            let c = carry_in(kind, f);
            &&& (kind == ALU_ADD || kind == ALU_ADC) ==> {
                &&& flag_z(fl) == (add_value(a, b, c) == 0)
                &&& !flag_n(fl)
                &&& flag_h(fl) == (a % 16 + b % 16 + c > 0xF)
                &&& flag_c(fl) == (a + b + c > 0xFF)
            }
            &&& (kind == ALU_SUB || kind == ALU_SBC || kind == ALU_CP) ==> {
                &&& flag_z(fl) == (sub_value(a, b, c) == 0)
                &&& flag_n(fl)
                &&& flag_h(fl) == (a % 16 < b % 16 + c)
                &&& flag_c(fl) == (a < b + c)
            }
            &&& kind == ALU_CP ==> (flag_z(fl) == (a == b) && alu_value(kind, a, b, f) == a)
            &&& kind == ALU_AND ==> (flag_z(fl) == (a & b == 0) && !flag_n(fl) && flag_h(fl)
                && !flag_c(fl))
            &&& kind == ALU_OR ==> (flag_z(fl) == (a | b == 0) && !flag_n(fl) && !flag_h(fl)
                && !flag_c(fl))
            &&& kind == ALU_XOR ==> (flag_z(fl) == (a ^ b == 0) && !flag_n(fl) && !flag_h(fl)
                && !flag_c(fl))
            &&& low_nibble_clear(fl)
        }),
{
    let c = carry_in(kind, f);
    lemma_flags_byte(add_value(a, b, c) == 0, false, a % 16 + b % 16 + c > 0xF, a + b + c > 0xFF);
    lemma_flags_byte(sub_value(a, b, c) == 0, true, a % 16 < b % 16 + c, a < b + c);
    lemma_flags_byte(a & b == 0, false, true, false);
    lemma_flags_byte(a | b == 0, false, false, false);
    lemma_flags_byte(a ^ b == 0, false, false, false);
}

/// INC and DEC of a byte set Z from the result, N as the operation, H on a carry into or
/// a borrow from bit 4, and leave C as it was.
pub proof fn lemma_inc_dec_flag_table(v: u8, f: u8)
    ensures
        flag_z(inc_flags(v, f)) == (inc_value(v) == 0),
        !flag_n(inc_flags(v, f)),
        flag_h(inc_flags(v, f)) == (v % 16 == 0xF),
        flag_c(inc_flags(v, f)) == flag_c(f),
        flag_z(dec_flags(v, f)) == (dec_value(v) == 0),
        flag_n(dec_flags(v, f)),
        flag_h(dec_flags(v, f)) == (v % 16 == 0),
        flag_c(dec_flags(v, f)) == flag_c(f),
{
    lemma_flags_byte(inc_value(v) == 0, false, v % 16 == 0xF, flag_c(f));
    lemma_flags_byte(dec_value(v) == 0, true, v % 16 == 0, flag_c(f));
}

/// A pair reads as its high half shifted left by eight bits, or-ed with its low half.
pub proof fn lemma_word_bits(hi: u8, lo: u8)
    ensures
        word(hi, lo) == ((hi as u16) << 8u16) | (lo as u16),
{
    assert((hi as int * 256 + lo as int) as u16 == ((hi as u16) << 8u16) | (lo as u16))
        by (bit_vector);
}

/// Pairs stay coherent with their halves: after any 8-bit register write, BC, DE, HL and
/// AF read as (high << 8) | low of the new halves; after a pair write, the pair reads back
/// the value written, and its halves hold its high and low bytes.
pub proof fn lemma_pair_coherence(r: Registers, id: u8, v: u8, p: u8, w: u16)
    requires
        p < 4,
    ensures
        ({
            let t = r.with_r8(id, v);
            &&& t.bc_spec() == ((t.b as u16) << 8u16) | (t.c as u16)
            &&& t.de_spec() == ((t.d as u16) << 8u16) | (t.e as u16)
            &&& t.hl_spec() == ((t.h as u16) << 8u16) | (t.l as u16)
            &&& t.af_spec() == ((t.a as u16) << 8u16) | (t.f as u16)
        }),
        r.with_r16(p, w).r16(p) == w,
        p != 3 ==> r.with_r16(p, w).r16(p) == word(hi_byte(w), lo_byte(w)),
{
    let t = r.with_r8(id, v);
    lemma_word_bits(t.b, t.c);
    lemma_word_bits(t.d, t.e);
    lemma_word_bits(t.h, t.l);
    lemma_word_bits(t.a, t.f);
}

/// PUSH rr followed by POP rr gives rr back (AF with the low nibble of F cleared) and SP
/// back; the pushed high byte sits at SP-1 and the low byte at SP-2. The two opcodes stand
/// at PC and PC+1, and the pushed bytes do not land on the POP opcode.
pub proof fn lemma_push_pop_round_trip(s: CpuState, p: u8)
    requires
        p < 4,
        s.mem.len() == 0x10000,
        s.opcode() == 0xC5 + 16 * p,
        s.byte(add16(s.reg.pc, 1)) == 0xC1 + 16 * p,
        add16(s.reg.sp, -1) != add16(s.reg.pc, 1),
        add16(s.reg.sp, -2) != add16(s.reg.pc, 1),
    ensures
        ({
            let (t, _) = semantics::execute_opcode(s);
            let (u, _) = semantics::execute_opcode(t);
            let v = s.reg.pp_r16(p);
            &&& t.byte(add16(s.reg.sp, -1)) == hi_byte(v)
            &&& t.byte(add16(s.reg.sp, -2)) == lo_byte(v)
            &&& t.reg.sp == add16(s.reg.sp, -2)
            &&& u.reg.sp == s.reg.sp
            &&& p != AF_ID ==> u.reg.pp_r16(p) == v
            &&& p == AF_ID ==> u.reg.a == s.reg.a && u.reg.f == (s.reg.f - s.reg.f % 16) as u8
        }),
{
    lemma_decode_push_pop(s, p);
    let (t, _) = semantics::execute_opcode(s);
    assert(t.opcode() == 0xC1 + 16 * p);
    lemma_decode_push_pop(t, p);
    assert(t.top16() == s.reg.pp_r16(p));
}

/// Opcodes 11pp0101 are PUSH and 11pp0001 are POP.
#[verifier::rlimit(50)]
proof fn lemma_decode_push_pop(s: CpuState, p: u8)
    requires
        p < 4,
    ensures
        s.opcode() == 0xC5 + 16 * p ==> semantics::execute(s) == semantics::push_rr(s),
        s.opcode() == 0xC1 + 16 * p ==> semantics::execute(s) == semantics::pop_rr(s),
{
    reveal(semantics::execute_x3);
    let op = s.opcode();
    if p == 0 {
        assert(op == 0xC5 ==> semantics::op_z(op) == 5 && semantics::op_y(op) == 0);
        assert(op == 0xC1 ==> semantics::op_z(op) == 1 && semantics::op_y(op) == 0);
    } else if p == 1 {
        assert(op == 0xD5 ==> semantics::op_z(op) == 5 && semantics::op_y(op) == 2);
        assert(op == 0xD1 ==> semantics::op_z(op) == 1 && semantics::op_y(op) == 2);
    } else if p == 2 {
        assert(op == 0xE5 ==> semantics::op_z(op) == 5 && semantics::op_y(op) == 4);
        assert(op == 0xE1 ==> semantics::op_z(op) == 1 && semantics::op_y(op) == 4);
    } else {
        assert(op == 0xF5 ==> semantics::op_z(op) == 5 && semantics::op_y(op) == 6);
        assert(op == 0xF1 ==> semantics::op_z(op) == 1 && semantics::op_y(op) == 6);
    }
}

/// SCF twice leaves C set and N, H clear; CCF twice leaves C as it was. Z is kept by both.
pub proof fn lemma_flag_ops_twice(s: CpuState)
    ensures
        ({
            let u = semantics::scf(semantics::scf(s).0).0;
            flag_c(u.reg.f) && !flag_n(u.reg.f) && !flag_h(u.reg.f) && flag_z(u.reg.f) == flag_z(
                s.reg.f,
            )
        }),
        ({
            let u = semantics::ccf(semantics::ccf(s).0).0;
            flag_c(u.reg.f) == flag_c(s.reg.f) && !flag_n(u.reg.f) && !flag_h(u.reg.f) && flag_z(
                u.reg.f,
            ) == flag_z(s.reg.f)
        }),
{
    let f = s.reg.f;
    lemma_flags_byte(flag_z(f), false, false, true);
    let f1 = semantics::scf(s).0.reg.f;
    lemma_flags_byte(flag_z(f1), false, false, true);
    lemma_flags_byte(flag_z(f), false, false, !flag_c(f));
    let g1 = semantics::ccf(s).0.reg.f;
    lemma_flags_byte(flag_z(g1), false, false, !flag_c(g1));
}

/// The interrupt chosen is the lowest requested and enabled one.
pub proof fn lemma_lowest_bit(p: u8)
    requires
        p & 0x1F != 0,
    ensures
        semantics::lowest_bit(p) < 5,
        (p >> semantics::lowest_bit(p)) & 1 == 1,
        forall|j: u8| j < semantics::lowest_bit(p) ==> (p >> j) & 1 == 0,
{
    assert(p & 0x01 != 0 ==> (p >> 0u8) & 1 == 1) by (bit_vector);
    assert(p & 0x01 == 0 && p & 0x02 != 0 ==> (p >> 1u8) & 1 == 1 && (p >> 0u8) & 1 == 0)
        by (bit_vector);
    assert(p & 0x03 == 0 ==> p & 0x01 == 0 && p & 0x02 == 0) by (bit_vector);
    assert(p & 0x01 == 0 && p & 0x02 == 0 && p & 0x04 != 0 ==> (p >> 2u8) & 1 == 1 && (p >> 1u8)
        & 1 == 0 && (p >> 0u8) & 1 == 0) by (bit_vector);
    assert(p & 0x01 == 0 && p & 0x02 == 0 && p & 0x04 == 0 && p & 0x08 != 0 ==> (p >> 3u8) & 1
        == 1 && (p >> 2u8) & 1 == 0 && (p >> 1u8) & 1 == 0 && (p >> 0u8) & 1 == 0)
        by (bit_vector);
    assert(p & 0x1F != 0 && p & 0x01 == 0 && p & 0x02 == 0 && p & 0x04 == 0 && p & 0x08 == 0
        ==> (p >> 4u8) & 1 == 1 && (p >> 3u8) & 1 == 0 && (p >> 2u8) & 1 == 0 && (p >> 1u8) & 1
        == 0 && (p >> 0u8) & 1 == 0) by (bit_vector);
    let k = semantics::lowest_bit(p);
    assert forall|j: u8| j < k implies (p >> j) & 1 == 0 by {
        if j == 0 {
        } else if j == 1 {
        } else if j == 2 {
        } else {
        }
    }
}

/// With IME set and an interrupt both requested and enabled, dispatch services the lowest
/// such interrupt k: it pushes PC (high byte at SP-1, low byte at SP-2), clears bit k of IF
/// and no other, clears IME, jumps to 0x40 + 8k and takes 20 T-states.
pub proof fn lemma_interrupt_dispatch(s: CpuState)
    requires
        s.mem.len() == 0x10000,
        s.reg.ime,
        semantics::pending(s) != 0,
    ensures
        ({
            let (t, c) = semantics::handle_interrupt(s);
            let k = semantics::lowest_bit(semantics::pending(s));
            &&& k < 5
            &&& (semantics::pending(s) >> k) & 1 == 1
            &&& forall|j: u8| j < k ==> (semantics::pending(s) >> j) & 1 == 0
            &&& t.reg.pc == 0x40 + 8 * k
            &&& t.reg.sp == add16(s.reg.sp, -2)
            &&& t.byte(add16(s.reg.sp, -1)) == hi_byte(s.reg.pc)
            &&& t.byte(add16(s.reg.sp, -2)) == lo_byte(s.reg.pc)
            &&& (t.int_flags >> k) & 1 == 0
            &&& forall|j: u8| j < 8 && j != k ==> (t.int_flags >> j) & 1 == (s.int_flags >> j) & 1
            &&& !t.reg.ime
            &&& !t.halt_mode
            &&& c == 20
        }),
{
    let p = semantics::pending(s);
    let i_f = s.int_flags;
    let i_e = s.int_enable;
    assert(p & 0x1F != 0) by (bit_vector)
        requires
            p == i_f & i_e & 0x1F,
            p != 0,
    ;
    lemma_lowest_bit(p);
    let k = semantics::lowest_bit(p);
    let fl = s.int_flags;
    assert(k < 8 ==> ((fl & !(1u8 << k)) >> k) & 1 == 0) by (bit_vector);
    assert(forall|j: u8|
        j < 8 && j != k && k < 8 ==> #[trigger] (((fl & !(1u8 << k)) >> j) & 1) == (fl >> j) & 1)
        by (bit_vector);
    let (t, c) = semantics::handle_interrupt(s);
    assert(t.int_flags == fl & !(1u8 << k));
    assert(t.reg.pc == 0x40 + 8 * k);
    assert(t.byte(add16(s.reg.sp, -1)) == hi_byte(s.reg.pc));
    assert(t.byte(add16(s.reg.sp, -2)) == lo_byte(s.reg.pc));
}

} // verus!

verus! {

/// Every instruction keeps the low nibble of F clear.
pub proof fn lemma_f_low_nibble(s: CpuState)
    requires
        s.mem.len() == 0x10000,
        semantics::defined(s.opcode()),
        low_nibble_clear(s.reg.f),
    ensures
        low_nibble_clear(semantics::execute_opcode(s).0.reg.f),
{
    let x = semantics::op_x(s.opcode());
    if x == 0 {
        lemma_f_x0(s);
    } else if x == 1 {
        lemma_f_x1(s);
    } else if x == 2 {
        lemma_f_x2(s);
    } else {
        lemma_f_x3(s);
    }
}

#[verifier::rlimit(50)]
proof fn lemma_f_x0(s: CpuState)
    requires
        s.mem.len() == 0x10000,
        low_nibble_clear(s.reg.f),
    ensures
        low_nibble_clear(semantics::execute_x0(s).0.reg.f),
{
    broadcast use crate::flags::lemma_flags_byte_clear;

    reveal(semantics::execute_x0);
}

proof fn lemma_f_x1(s: CpuState)
    requires
        s.mem.len() == 0x10000,
        low_nibble_clear(s.reg.f),
    ensures
        low_nibble_clear(semantics::execute_x1(s).0.reg.f),
{
    reveal(semantics::execute_x1);
}

proof fn lemma_f_x2(s: CpuState)
    requires
        s.mem.len() == 0x10000,
        low_nibble_clear(s.reg.f),
    ensures
        low_nibble_clear(semantics::execute_x2(s).0.reg.f),
{
    broadcast use crate::flags::lemma_flags_byte_clear;

    reveal(semantics::execute_x2);
}

#[verifier::rlimit(50)]
proof fn lemma_f_x3(s: CpuState)
    requires
        s.mem.len() == 0x10000,
        low_nibble_clear(s.reg.f),
    ensures
        low_nibble_clear(semantics::execute_x3(s).0.reg.f),
{
    broadcast use crate::flags::lemma_flags_byte_clear;

    reveal(semantics::execute_x3);
    reveal(semantics::execute_cb);
}

/// A step keeps the low nibble of F clear: neither an instruction nor an interrupt
/// dispatch sets it.
pub proof fn lemma_step_f_low_nibble(s: CpuState)
    requires
        s.mem.len() == 0x10000,
        s.halt_mode || semantics::defined(s.opcode()),
        low_nibble_clear(s.reg.f),
    ensures
        low_nibble_clear(semantics::step(s).0.reg.f),
{
    if !s.halt_mode {
        lemma_f_low_nibble(s);
    }
}

} // verus!

verus! {

/// Every defined instruction moves PC past its own bytes, or to its documented target when
/// it transfers control, and takes its documented number of machine cycles (taken and
/// untaken branches differ); `execute_opcode` reports them as T-states, four per cycle.
pub proof fn lemma_length_and_cycles(s: CpuState)
    requires
        s.mem.len() == 0x10000,
        semantics::defined(s.opcode()),
    ensures
        semantics::execute_opcode(s).0.reg.pc == timing::next_pc(s),
        semantics::execute_opcode(s).1 == 4 * timing::machine_cycles(s),
{
    let x = semantics::op_x(s.opcode());
    if x == 0 {
        lemma_timing_x0(s);
    } else if x == 1 {
        lemma_timing_x1(s);
    } else if x == 2 {
        lemma_timing_x2(s);
    } else {
        lemma_timing_x3(s);
    }
}

#[verifier::rlimit(50)]
proof fn lemma_timing_x0(s: CpuState)
    requires
        s.mem.len() == 0x10000,
        semantics::op_x(s.opcode()) == 0,
    ensures
        semantics::execute_opcode(s).0.reg.pc == timing::next_pc(s),
        semantics::execute_opcode(s).1 == 4 * timing::machine_cycles(s),
{
    reveal(semantics::execute_x0);
}

#[verifier::rlimit(50)]
proof fn lemma_timing_x1(s: CpuState)
    requires
        s.mem.len() == 0x10000,
        semantics::op_x(s.opcode()) == 1,
    ensures
        semantics::execute_opcode(s).0.reg.pc == timing::next_pc(s),
        semantics::execute_opcode(s).1 == 4 * timing::machine_cycles(s),
{
    reveal(semantics::execute_x1);
}

#[verifier::rlimit(50)]
proof fn lemma_timing_x2(s: CpuState)
    requires
        s.mem.len() == 0x10000,
        semantics::op_x(s.opcode()) == 2,
    ensures
        semantics::execute_opcode(s).0.reg.pc == timing::next_pc(s),
        semantics::execute_opcode(s).1 == 4 * timing::machine_cycles(s),
{
    reveal(semantics::execute_x2);
}

proof fn lemma_timing_x3(s: CpuState)
    requires
        s.mem.len() == 0x10000,
        semantics::op_x(s.opcode()) == 3,
        semantics::defined(s.opcode()),
    ensures
        semantics::execute_opcode(s).0.reg.pc == timing::next_pc(s),
        semantics::execute_opcode(s).1 == 4 * timing::machine_cycles(s),
{
    let z = semantics::op_z(s.opcode());
    if z < 3 {
        lemma_timing_x3_z(s, z);
    } else if z == 3 {
        lemma_timing_x3_cb(s);
    } else {
        lemma_timing_x3_z(s, z);
    }
}

#[verifier::rlimit(50)]
proof fn lemma_timing_x3_z(s: CpuState, z: u8)
    requires
        s.mem.len() == 0x10000,
        semantics::op_x(s.opcode()) == 3,
        semantics::op_z(s.opcode()) == z,
        z != 3,
        semantics::defined(s.opcode()),
    ensures
        semantics::execute_opcode(s).0.reg.pc == timing::next_pc(s),
        semantics::execute_opcode(s).1 == 4 * timing::machine_cycles(s),
{
    reveal(semantics::execute_x3);
}

#[verifier::rlimit(50)]
proof fn lemma_timing_x3_cb(s: CpuState)
    requires
        s.mem.len() == 0x10000,
        semantics::op_x(s.opcode()) == 3,
        semantics::op_z(s.opcode()) == 3,
        semantics::defined(s.opcode()),
    ensures
        semantics::execute_opcode(s).0.reg.pc == timing::next_pc(s),
        semantics::execute_opcode(s).1 == 4 * timing::machine_cycles(s),
{
    reveal(semantics::execute_x3);
    reveal(semantics::execute_cb);
}

} // verus!

verus! {

/// No instruction changes the size of memory.
#[verifier::rlimit(50)]
proof fn lemma_mem_len(s: CpuState)
    requires
        s.mem.len() == 0x10000,
        semantics::defined(s.opcode()),
    ensures
        semantics::execute_opcode(s).0.mem.len() == s.mem.len(),
{
    let x = semantics::op_x(s.opcode());
    if x == 0 {
        reveal(semantics::execute_x0);
    } else if x == 1 {
        reveal(semantics::execute_x1);
    } else if x == 2 {
        reveal(semantics::execute_x2);
    } else {
        reveal(semantics::execute_x3);
        reveal(semantics::execute_cb);
    }
}

/// When, after its instruction (or idle HALT cycle), a step finds IME set and an interrupt
/// both requested and enabled, it services the lowest such interrupt k: PC as the
/// instruction left it is pushed, bit k of IF is cleared, IME is cleared, PC becomes
/// 0x40 + 8k, and 20 T-states are added to those of the instruction.
pub proof fn lemma_step_dispatch(s: CpuState)
    requires
        s.mem.len() == 0x10000,
        s.halt_mode || semantics::defined(s.opcode()),
    ensures
        ({
            let (t, c1) = if s.halt_mode {
                (s, 4u32)
            } else {
                semantics::execute_opcode(s)
            };
            let u = semantics::promote_ei(s, t);
            let (w, c) = semantics::step(s);
            let k = semantics::lowest_bit(semantics::pending(u));
            u.reg.ime && semantics::pending(u) != 0 ==> {
                &&& w.reg.pc == 0x40 + 8 * k
                &&& w.reg.sp == add16(u.reg.sp, -2)
                &&& w.byte(add16(u.reg.sp, -1)) == hi_byte(u.reg.pc)
                &&& w.byte(add16(u.reg.sp, -2)) == lo_byte(u.reg.pc)
                &&& (w.int_flags >> k) & 1 == 0
                &&& !w.reg.ime
                &&& c == c1 + 20
            }
        }),
{
    let (t, c1) = if s.halt_mode {
        (s, 4u32)
    } else {
        semantics::execute_opcode(s)
    };
    if !s.halt_mode {
        lemma_mem_len(s);
        lemma_length_and_cycles(s);
        assert(timing::machine_cycles(s) <= 6);
    }
    let u = semantics::promote_ei(s, t);
    if u.reg.ime && semantics::pending(u) != 0 {
        lemma_interrupt_dispatch(u);
    }
}

} // verus!
