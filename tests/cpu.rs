use lr35902::bus::Interconnect;
use lr35902::cpu::Cpu;
use lr35902::execute::is_defined;
use lr35902::registers::{Registers, AF_ID, BC_ID, B_ID, C_ID, DE_ID, HL_ID};
use lr35902::state::ProgramCounter;

const BC_DEF: u16 = 0x0013;
const DE_DEF: u16 = 0x00D8;

const MEM_HL_DEF: u8 = 0x08;
const MEM_DE_DEF: u8 = 0x04;

const ZF: u8 = 0x80;
const NF: u8 = 0x40;
const HF: u8 = 0x20;
const CF: u8 = 0x10;

fn set_up_cpu() -> Cpu {
    let mut cpu = Cpu::new(Interconnect::new());
    cpu.write_to_r16(BC_ID, BC_DEF);
    cpu.write_to_r16(DE_ID, DE_DEF);
    let hl = cpu.reg.hl();
    cpu.interconnect.write(hl, MEM_HL_DEF);
    let de = cpu.reg.de();
    cpu.interconnect.write(de, MEM_DE_DEF);
    cpu
}

fn set_1byte_op(cpu: &mut Cpu, opcode: u8) {
    let pc = cpu.reg.pc;
    cpu.interconnect.write(pc, opcode);
}

fn set_bytes(cpu: &mut Cpu, bytes: &[u8]) {
    let pc = cpu.reg.pc;
    for (i, b) in bytes.iter().enumerate() {
        cpu.interconnect.write(pc.wrapping_add(i as u16), *b);
    }
}

fn read_af(cpu: &Cpu) -> u16 {
    ((cpu.reg.a as u16) << 8) | (cpu.reg.f as u16)
}

fn fresh() -> Cpu {
    Cpu::new(Interconnect::new())
}

#[test]
fn test_pop_rr() {
    let mut cpu = set_up_cpu(); // Stack: empty, SP: 0xFFFE
    let af_before = ((cpu.reg.a as u16) << 8) | (cpu.reg.f as u16);
    let bc_before = cpu.reg.bc();
    let de_before = cpu.reg.de();
    let sp_before = cpu.reg.sp;

    set_1byte_op(&mut cpu, 0b11_000_101 | (AF_ID << 4)); // push AF
    assert_eq!(cpu.reg.pc, 0x0100);
    assert_eq!(cpu.interconnect.read(cpu.reg.pc), 0b11_110_101);
    cpu.execute_opcode(); // Stack: AF,          SP: 0xFFFC
    assert_eq!(cpu.reg.sp, sp_before - 2);
    set_1byte_op(&mut cpu, 0b11_000_101 | (BC_ID << 4)); // push BC
    cpu.execute_opcode(); // Stack: AF BC,       SP: 0xFFFA
    assert_eq!(cpu.reg.sp, 0xFFFA);
    set_1byte_op(&mut cpu, 0b11_000_101 | (DE_ID << 4)); // push DE
    cpu.execute_opcode(); // Stack: AF BC DE,    SP: 0xFFF8
    assert_eq!(cpu.reg.sp, 0xFFF8);

    set_1byte_op(&mut cpu, 0b11_000_001 | (AF_ID << 4)); // pop AF
    cpu.execute_opcode(); // AF = DE as pushed, with the low nibble of F cleared
    assert_eq!(read_af(&cpu), de_before & 0xFFF0);
    set_1byte_op(&mut cpu, 0b11_000_001 | (DE_ID << 4)); // pop DE
    cpu.execute_opcode(); // DE = BC as pushed
    assert_eq!(cpu.reg.de(), bc_before);
    set_1byte_op(&mut cpu, 0b11_000_001 | (BC_ID << 4)); // pop BC
    cpu.execute_opcode(); // BC = AF as pushed
    assert_eq!(cpu.reg.bc(), af_before);
}

#[test]
fn add_carries_to_zero() {
    let mut cpu = fresh();
    cpu.reg.a = 0x3A;
    cpu.reg.b = 0xC6;
    cpu.reg.f = 0;
    set_bytes(&mut cpu, &[0x80]);
    let pc = cpu.reg.pc;
    let cycles = cpu.execute_opcode();
    assert_eq!(cpu.reg.a, 0x00);
    assert_eq!(cpu.reg.f, 0xB0);
    assert_eq!(cpu.reg.pc, pc + 1);
    assert_eq!(cycles, 4);
}

#[test]
fn sub_hl_borrows() {
    let mut cpu = fresh();
    cpu.reg.a = 0x3E;
    cpu.reg.f = 0;
    cpu.write_to_r16(HL_ID, 0xC000);
    cpu.interconnect.write(0xC000, 0x40);
    set_bytes(&mut cpu, &[0x96]);
    let pc = cpu.reg.pc;
    let cycles = cpu.execute_opcode();
    assert_eq!(cpu.reg.a, 0xFE);
    // 0xE - 0x0 does not borrow from bit 4: H is clear; N and C are set.
    assert_eq!(cpu.reg.f, NF | CF);
    assert_eq!(cpu.reg.pc, pc + 1);
    assert_eq!(cycles, 8);
}

#[test]
fn daa_after_add() {
    let mut cpu = fresh();
    cpu.reg.a = 0x45;
    cpu.reg.f = 0x00;
    set_bytes(&mut cpu, &[0xC6, 0x38, 0x27]);
    cpu.execute_opcode();
    assert_eq!(cpu.reg.a, 0x7D);
    // 0x5 + 0x8 does not carry out of bit 3: no flag is set.
    assert_eq!(cpu.reg.f, 0x00);
    cpu.execute_opcode();
    assert_eq!(cpu.reg.a, 0x83);
    assert_eq!(cpu.reg.f, 0x00);
}

#[test]
fn jr_nz_taken() {
    let mut cpu = fresh();
    cpu.reg.pc = 0x0150;
    cpu.reg.f = 0x00;
    set_bytes(&mut cpu, &[0x20, 0x05]);
    let cycles = cpu.execute_opcode();
    assert_eq!(cpu.reg.pc, 0x0157);
    assert_eq!(cycles, 12);
}

#[test]
fn call_then_ret() {
    let mut cpu = fresh();
    cpu.reg.pc = 0x0200;
    cpu.reg.sp = 0xFFFE;
    set_bytes(&mut cpu, &[0xCD, 0x34, 0x12]);
    cpu.interconnect.write(0x1234, 0xC9);
    let cycles = cpu.execute_opcode();
    assert_eq!(cycles, 24);
    assert_eq!(cpu.reg.pc, 0x1234);
    assert_eq!(cpu.reg.sp, 0xFFFC);
    assert_eq!(cpu.interconnect.read(0xFFFD), 0x02);
    assert_eq!(cpu.interconnect.read(0xFFFC), 0x03);
    let cycles = cpu.execute_opcode();
    assert_eq!(cycles, 16);
    assert_eq!(cpu.reg.pc, 0x0203);
    assert_eq!(cpu.reg.sp, 0xFFFE);
}

#[test]
fn vblank_dispatch_after_nop() {
    let mut cpu = fresh();
    cpu.reg.ime = true;
    cpu.interconnect.int_flags = 0x05;
    cpu.interconnect.int_enable = 0x05;
    cpu.reg.pc = 0x0300;
    cpu.reg.sp = 0xFFFE;
    set_bytes(&mut cpu, &[0x00]);
    let cycles = cpu.step();
    assert_eq!(cpu.reg.pc, 0x0040);
    assert_eq!(cpu.reg.sp, 0xFFFC);
    assert_eq!(cpu.interconnect.int_flags, 0x04);
    assert!(!cpu.reg.ime);
    assert_eq!(cpu.interconnect.read(0xFFFD), 0x03);
    assert_eq!(cpu.interconnect.read(0xFFFC), 0x01);
    assert_eq!(cycles, 4 + 20);
}

#[test]
fn power_on_registers() {
    let r = Registers::new();
    assert_eq!((r.a, r.f, r.b, r.c, r.d, r.e, r.h, r.l), (0x01, 0xB0, 0x00, 0x13, 0x00, 0xD8, 0x01, 0x4D));
    assert_eq!((r.sp, r.pc, r.ime), (0xFFFE, 0x0100, true));
    assert_eq!(r.bc(), 0x0013);
    assert_eq!(r.de(), 0x00D8);
    assert_eq!(r.hl(), 0x014D);
    assert_eq!(r.af(), 0x01B0);
    let cpu = fresh();
    assert!(!cpu.halt_mode && !cpu.stop_mode && !cpu.ei_pending);
}

#[test]
fn pairs_follow_their_halves() {
    let mut cpu = fresh();
    cpu.write_to_r8(C_ID, 0x5A);
    assert_eq!(cpu.reg.bc(), ((cpu.reg.b as u16) << 8) | 0x5A);
    cpu.write_to_r8(B_ID, 0xA5);
    assert_eq!(cpu.reg.bc(), 0xA55A);
    cpu.write_to_r16(HL_ID, 0xBEEF);
    assert_eq!((cpu.reg.h, cpu.reg.l), (0xBE, 0xEF));
    assert_eq!(cpu.read_from_r16(HL_ID), Some(0xBEEF));
    assert_eq!(cpu.read_from_r8(6), None);
    assert_eq!(cpu.read_from_r16(4), None);
    cpu.pp_write_r16(AF_ID, 0x12FF);
    assert_eq!((cpu.reg.a, cpu.reg.f), (0x12, 0xF0));
    assert_eq!(cpu.pp_read_r16(AF_ID), Some(0x12F0));
}

#[test]
fn alu_flag_rows() {
    // ADC with carry in: 0x0F + 0x00 + 1 carries out of bit 3.
    let mut cpu = fresh();
    cpu.reg.a = 0x0F;
    cpu.reg.f = CF;
    set_bytes(&mut cpu, &[0xCE, 0x00]);
    assert_eq!(cpu.execute_opcode(), 8);
    assert_eq!((cpu.reg.a, cpu.reg.f), (0x10, HF));
    // SBC with carry in: 0x10 - 0x0F - 1 = 0.
    let mut cpu = fresh();
    cpu.reg.a = 0x10;
    cpu.reg.f = CF;
    set_bytes(&mut cpu, &[0xDE, 0x0F]);
    cpu.execute_opcode();
    assert_eq!((cpu.reg.a, cpu.reg.f), (0x00, ZF | NF | HF));
    // AND sets H; OR and XOR clear everything but Z.
    let mut cpu = fresh();
    cpu.reg.a = 0xF0;
    cpu.reg.b = 0x0F;
    set_bytes(&mut cpu, &[0xA0, 0xB0, 0xA8]);
    cpu.execute_opcode();
    assert_eq!((cpu.reg.a, cpu.reg.f), (0x00, ZF | HF));
    cpu.execute_opcode();
    assert_eq!((cpu.reg.a, cpu.reg.f), (0x0F, 0x00));
    cpu.execute_opcode();
    assert_eq!((cpu.reg.a, cpu.reg.f), (0x00, ZF));
    // CP keeps A and sets Z on equality.
    let mut cpu = fresh();
    cpu.reg.a = 0x42;
    set_bytes(&mut cpu, &[0xFE, 0x42]);
    cpu.execute_opcode();
    assert_eq!((cpu.reg.a, cpu.reg.f), (0x42, ZF | NF));
}

#[test]
fn inc_dec_keep_carry() {
    let mut cpu = fresh();
    cpu.reg.b = 0xFF;
    cpu.reg.f = CF;
    set_bytes(&mut cpu, &[0x04, 0x05, 0x05]);
    cpu.execute_opcode();
    assert_eq!((cpu.reg.b, cpu.reg.f), (0x00, ZF | HF | CF));
    cpu.execute_opcode();
    assert_eq!((cpu.reg.b, cpu.reg.f), (0xFF, NF | HF | CF));
    cpu.execute_opcode();
    assert_eq!((cpu.reg.b, cpu.reg.f), (0xFE, NF | CF));
    // INC (HL) and DEC (HL) take 3 machine cycles.
    let mut cpu = fresh();
    cpu.write_to_r16(HL_ID, 0xC000);
    cpu.interconnect.write(0xC000, 0x0F);
    set_bytes(&mut cpu, &[0x34, 0x35]);
    assert_eq!(cpu.execute_opcode(), 12);
    assert_eq!(cpu.interconnect.read(0xC000), 0x10);
    assert_eq!(cpu.reg.f & 0xF0, HF | (0xB0 & CF));
    assert_eq!(cpu.execute_opcode(), 12);
    assert_eq!(cpu.interconnect.read(0xC000), 0x0F);
}

#[test]
fn sixteen_bit_arithmetic() {
    let mut cpu = fresh();
    cpu.write_to_r16(HL_ID, 0x0FFF);
    cpu.write_to_r16(BC_ID, 0x0001);
    cpu.reg.f = ZF;
    set_bytes(&mut cpu, &[0x09]);
    assert_eq!(cpu.execute_opcode(), 8);
    assert_eq!(cpu.reg.hl(), 0x1000);
    assert_eq!(cpu.reg.f, ZF | HF);
    // ADD SP,e takes its flags from the low byte.
    let mut cpu = fresh();
    cpu.reg.sp = 0xFFF8;
    set_bytes(&mut cpu, &[0xE8, 0x08]);
    assert_eq!(cpu.execute_opcode(), 16);
    assert_eq!(cpu.reg.sp, 0x0000);
    assert_eq!(cpu.reg.f, HF | CF);
    let mut cpu = fresh();
    cpu.reg.sp = 0x0001;
    set_bytes(&mut cpu, &[0xE8, 0xFF]);
    cpu.execute_opcode();
    assert_eq!(cpu.reg.sp, 0x0000);
    assert_eq!(cpu.reg.f, HF | CF);
    // LD HL,SP+e leaves SP alone.
    let mut cpu = fresh();
    cpu.reg.sp = 0x1000;
    set_bytes(&mut cpu, &[0xF8, 0xFE]);
    assert_eq!(cpu.execute_opcode(), 12);
    assert_eq!(cpu.reg.hl(), 0x0FFE);
    assert_eq!(cpu.reg.sp, 0x1000);
    assert_eq!(cpu.reg.f, 0x00);
    // INC and DEC of a pair wrap and keep the flags.
    let mut cpu = fresh();
    cpu.write_to_r16(DE_ID, 0xFFFF);
    let f = cpu.reg.f;
    set_bytes(&mut cpu, &[0x13, 0x1B]);
    cpu.execute_opcode();
    assert_eq!(cpu.reg.de(), 0x0000);
    cpu.execute_opcode();
    assert_eq!(cpu.reg.de(), 0xFFFF);
    assert_eq!(cpu.reg.f, f);
}

#[test]
fn accumulator_rotates_clear_z() {
    let mut cpu = fresh();
    cpu.reg.a = 0x80;
    cpu.reg.f = 0;
    set_bytes(&mut cpu, &[0x17]); // RLA: bit 7 out, C (0) in
    cpu.execute_opcode();
    assert_eq!((cpu.reg.a, cpu.reg.f), (0x00, CF));
    let mut cpu = fresh();
    cpu.reg.a = 0x81;
    cpu.reg.f = 0;
    set_bytes(&mut cpu, &[0x07, 0x0F, 0x1F]);
    cpu.execute_opcode(); // RLCA
    assert_eq!((cpu.reg.a, cpu.reg.f), (0x03, CF));
    cpu.execute_opcode(); // RRCA
    assert_eq!((cpu.reg.a, cpu.reg.f), (0x81, CF));
    cpu.execute_opcode(); // RRA: C in at bit 7
    assert_eq!((cpu.reg.a, cpu.reg.f), (0xC0, CF));
}

#[test]
fn cb_shifts_and_bits() {
    let mut cpu = fresh();
    cpu.reg.a = 0xF1;
    cpu.reg.f = 0;
    set_bytes(&mut cpu, &[0xCB, 0x37]); // SWAP A
    assert_eq!(cpu.execute_opcode(), 8);
    assert_eq!((cpu.reg.a, cpu.reg.f), (0x1F, 0x00));
    let mut cpu = fresh();
    cpu.reg.b = 0x81;
    set_bytes(&mut cpu, &[0xCB, 0x28, 0xCB, 0x38, 0xCB, 0x20]); // SRA B, SRL B, SLA B
    cpu.execute_opcode();
    assert_eq!((cpu.reg.b, cpu.reg.f), (0xC0, CF));
    cpu.execute_opcode();
    assert_eq!((cpu.reg.b, cpu.reg.f), (0x60, 0x00));
    cpu.execute_opcode();
    assert_eq!((cpu.reg.b, cpu.reg.f), (0xC0, 0x00));
    let mut cpu = fresh();
    cpu.reg.c = 0x80;
    cpu.reg.f = 0;
    set_bytes(&mut cpu, &[0xCB, 0x11, 0xCB, 0x19]); // RL C, RR C
    cpu.execute_opcode();
    assert_eq!((cpu.reg.c, cpu.reg.f), (0x00, ZF | CF));
    cpu.execute_opcode();
    assert_eq!((cpu.reg.c, cpu.reg.f), (0x80, 0x00));
    // BIT, SET and RES take the bit number from the CB suffix.
    let mut cpu = fresh();
    cpu.reg.h = 0x7F;
    cpu.reg.f = CF;
    set_bytes(&mut cpu, &[0xCB, 0x7C]); // BIT 7,H
    assert_eq!(cpu.execute_opcode(), 8);
    assert_eq!(cpu.reg.f, ZF | HF | CF);
    let mut cpu = fresh();
    cpu.write_to_r16(HL_ID, 0xC000);
    set_bytes(&mut cpu, &[0xCB, 0xDE, 0xCB, 0x46, 0xCB, 0x80, 0xCB, 0x06]); // SET 3,(HL); BIT 0,(HL); RES 0,B; RLC (HL)
    cpu.reg.b = 0xFF;
    assert_eq!(cpu.execute_opcode(), 16);
    assert_eq!(cpu.interconnect.read(0xC000), 0x08);
    assert_eq!(cpu.execute_opcode(), 12);
    assert_eq!(cpu.reg.f & ZF, ZF);
    assert_eq!(cpu.execute_opcode(), 8);
    assert_eq!(cpu.reg.b, 0xFE);
    assert_eq!(cpu.execute_opcode(), 16);
    assert_eq!(cpu.interconnect.read(0xC000), 0x10);
}

#[test]
fn push_pop_restores_pairs() {
    let mut cpu = fresh();
    cpu.write_to_r16(HL_ID, 0xABCD);
    let sp = cpu.reg.sp;
    set_bytes(&mut cpu, &[0xE5, 0xE1]);
    assert_eq!(cpu.execute_opcode(), 16);
    assert_eq!(cpu.interconnect.read(sp - 1), 0xAB);
    assert_eq!(cpu.interconnect.read(sp - 2), 0xCD);
    cpu.write_to_r16(HL_ID, 0);
    assert_eq!(cpu.execute_opcode(), 12);
    assert_eq!(cpu.reg.hl(), 0xABCD);
    assert_eq!(cpu.reg.sp, sp);
}

#[test]
fn scf_and_ccf_twice() {
    let mut cpu = fresh();
    cpu.reg.f = ZF | NF | HF;
    set_bytes(&mut cpu, &[0x37, 0x37, 0x3F, 0x3F]);
    cpu.execute_opcode();
    cpu.execute_opcode();
    assert_eq!(cpu.reg.f, ZF | CF);
    cpu.execute_opcode();
    assert_eq!(cpu.reg.f, ZF);
    cpu.execute_opcode();
    assert_eq!(cpu.reg.f, ZF | CF);
}

#[test]
fn daa_after_subtraction() {
    let mut cpu = fresh();
    cpu.reg.a = 0x10;
    cpu.reg.f = 0;
    set_bytes(&mut cpu, &[0xD6, 0x01, 0x27]); // SUB 1; DAA
    cpu.execute_opcode();
    assert_eq!((cpu.reg.a, cpu.reg.f), (0x0F, NF | HF));
    cpu.execute_opcode();
    assert_eq!((cpu.reg.a, cpu.reg.f), (0x09, NF));
    // After an addition past 0x99, DAA sets C.
    let mut cpu = fresh();
    cpu.reg.a = 0x9A;
    cpu.reg.f = 0;
    set_bytes(&mut cpu, &[0x27]);
    cpu.execute_opcode();
    assert_eq!((cpu.reg.a, cpu.reg.f), (0x00, ZF | CF));
}

#[test]
fn cpl_complements_a() {
    let mut cpu = fresh();
    cpu.reg.a = 0x35;
    cpu.reg.f = ZF | CF;
    set_bytes(&mut cpu, &[0x2F]);
    cpu.execute_opcode();
    assert_eq!((cpu.reg.a, cpu.reg.f), (0xCA, ZF | NF | HF | CF));
}

#[test]
fn loads_and_auto_increment() {
    let mut cpu = fresh();
    cpu.write_to_r16(HL_ID, 0xC000);
    cpu.interconnect.write(0xC000, 0x77);
    set_bytes(&mut cpu, &[0x2A, 0x32, 0x08, 0x00, 0xD0, 0xE0, 0x80, 0xF2]);
    cpu.execute_opcode(); // LD A,(HL+)
    assert_eq!((cpu.reg.a, cpu.reg.hl()), (0x77, 0xC001));
    cpu.execute_opcode(); // LD (HL-),A
    assert_eq!(cpu.interconnect.read(0xC001), 0x77);
    assert_eq!(cpu.reg.hl(), 0xC000);
    cpu.reg.sp = 0x1234;
    assert_eq!(cpu.execute_opcode(), 20); // LD (0xD000),SP
    assert_eq!(cpu.interconnect.read(0xD000), 0x34);
    assert_eq!(cpu.interconnect.read(0xD001), 0x12);
    cpu.execute_opcode(); // LDH (0x80),A
    assert_eq!(cpu.interconnect.read(0xFF80), 0x77);
    cpu.reg.c = 0x80;
    cpu.reg.a = 0;
    cpu.execute_opcode(); // LD A,(0xFF00+C)
    assert_eq!(cpu.reg.a, 0x77);
    // LD B,C and LD (HL),n.
    let mut cpu = fresh();
    cpu.reg.c = 0x99;
    cpu.write_to_r16(HL_ID, 0xC100);
    set_bytes(&mut cpu, &[0x41, 0x36, 0x5E]);
    assert_eq!(cpu.execute_opcode(), 4);
    assert_eq!(cpu.reg.b, 0x99);
    assert_eq!(cpu.execute_opcode(), 12);
    assert_eq!(cpu.interconnect.read(0xC100), 0x5E);
}

#[test]
fn branches_taken_and_not() {
    let mut cpu = fresh();
    cpu.reg.pc = 0x0200;
    cpu.reg.f = ZF;
    set_bytes(&mut cpu, &[0xC2, 0x00, 0x30]); // JP NZ: not taken
    assert_eq!(cpu.execute_opcode(), 12);
    assert_eq!(cpu.reg.pc, 0x0203);
    set_bytes(&mut cpu, &[0xCA, 0x00, 0x30]); // JP Z: taken
    assert_eq!(cpu.execute_opcode(), 16);
    assert_eq!(cpu.reg.pc, 0x3000);
    set_bytes(&mut cpu, &[0xC4, 0x00, 0x40]); // CALL NZ: not taken
    assert_eq!(cpu.execute_opcode(), 12);
    assert_eq!(cpu.reg.pc, 0x3003);
    set_bytes(&mut cpu, &[0xD8]); // RET C: not taken
    assert_eq!(cpu.execute_opcode(), 8);
    assert_eq!(cpu.reg.pc, 0x3004);
    set_bytes(&mut cpu, &[0xFF]); // RST 0x38
    let sp = cpu.reg.sp;
    assert_eq!(cpu.execute_opcode(), 16);
    assert_eq!(cpu.reg.pc, 0x0038);
    assert_eq!(cpu.interconnect.read(sp - 2), 0x05);
    set_bytes(&mut cpu, &[0xC8]); // RET Z: taken
    assert_eq!(cpu.execute_opcode(), 20);
    assert_eq!(cpu.reg.pc, 0x3005);
    set_bytes(&mut cpu, &[0x18, 0xFE]); // JR -2: to itself
    assert_eq!(cpu.execute_opcode(), 12);
    assert_eq!(cpu.reg.pc, 0x3005);
    set_bytes(&mut cpu, &[0x38, 0x10]); // JR C: not taken
    assert_eq!(cpu.execute_opcode(), 8);
    assert_eq!(cpu.reg.pc, 0x3007);
    cpu.write_to_r16(HL_ID, 0x4000);
    set_bytes(&mut cpu, &[0xE9]); // JP HL
    assert_eq!(cpu.execute_opcode(), 4);
    assert_eq!(cpu.reg.pc, 0x4000);
}

#[test]
fn reti_sets_ime() {
    let mut cpu = fresh();
    cpu.reg.ime = false;
    cpu.reg.sp = 0xC000;
    cpu.interconnect.write(0xC000, 0x34);
    cpu.interconnect.write(0xC001, 0x12);
    set_bytes(&mut cpu, &[0xD9]);
    assert_eq!(cpu.execute_opcode(), 16);
    assert_eq!(cpu.reg.pc, 0x1234);
    assert!(cpu.reg.ime);
    assert_eq!(cpu.reg.sp, 0xC002);
}

#[test]
fn halt_waits_for_an_interrupt() {
    let mut cpu = fresh();
    cpu.reg.ime = false;
    set_bytes(&mut cpu, &[0x76]);
    cpu.step();
    assert!(cpu.halt_mode);
    let pc = cpu.reg.pc;
    assert_eq!(cpu.step(), 4);
    assert_eq!(cpu.reg.pc, pc);
    assert!(cpu.halt_mode);
    cpu.interconnect.int_enable = 0x04;
    cpu.interconnect.int_flags = 0x04;
    assert_eq!(cpu.step(), 4);
    assert!(!cpu.halt_mode);
    assert_eq!(cpu.reg.pc, pc);
    assert_eq!(cpu.interconnect.int_flags, 0x04);
}

#[test]
fn stop_sets_stop_mode() {
    let mut cpu = fresh();
    set_bytes(&mut cpu, &[0x10]);
    cpu.execute_opcode();
    assert!(cpu.stop_mode);
}

#[test]
fn ei_takes_effect_after_the_next_instruction() {
    let mut cpu = fresh();
    cpu.reg.ime = false;
    cpu.interconnect.int_enable = 0x01;
    cpu.interconnect.int_flags = 0x01;
    set_bytes(&mut cpu, &[0xFB, 0x00, 0x00]);
    assert_eq!(cpu.step(), 4); // EI: no dispatch yet
    assert!(!cpu.reg.ime);
    assert_eq!(cpu.reg.pc, 0x0101);
    assert_eq!(cpu.step(), 24); // NOP, then the interrupt
    assert_eq!(cpu.reg.pc, 0x0040);
    assert!(!cpu.reg.ime);
}

#[test]
fn di_cancels_a_pending_ei() {
    let mut cpu = fresh();
    cpu.reg.ime = false;
    cpu.interconnect.int_enable = 0x01;
    cpu.interconnect.int_flags = 0x01;
    set_bytes(&mut cpu, &[0xFB, 0xF3, 0x00]);
    cpu.step();
    cpu.step();
    assert!(!cpu.reg.ime);
    assert!(!cpu.ei_pending);
    assert_eq!(cpu.step(), 4);
    assert_eq!(cpu.reg.pc, 0x0103);
}

#[test]
fn interrupt_priority_and_masking() {
    let mut cpu = fresh();
    cpu.interconnect.int_flags = 0x1E;
    cpu.interconnect.int_enable = 0x1F;
    let pc = cpu.reg.pc;
    assert_eq!(cpu.handle_interrupt(), 20);
    assert_eq!(cpu.reg.pc, 0x0048);
    assert_eq!(cpu.interconnect.int_flags, 0x1C);
    assert_eq!(cpu.pop_u16(), pc);
    // Bits above 4 request nothing.
    let mut cpu = fresh();
    cpu.interconnect.int_flags = 0xE0;
    cpu.interconnect.int_enable = 0xFF;
    assert_eq!(cpu.handle_interrupt(), 0);
    assert_eq!(cpu.reg.pc, 0x0100);
    // The joypad interrupt has the last vector.
    let mut cpu = fresh();
    cpu.interconnect.int_flags = 0x10;
    cpu.interconnect.int_enable = 0x10;
    assert_eq!(cpu.handle_interrupt(), 20);
    assert_eq!(cpu.reg.pc, 0x0060);
}

#[test]
fn executors_report_length_and_cycles() {
    let mut cpu = fresh();
    set_bytes(&mut cpu, &[0x00]);
    assert_eq!(cpu.nop(), ProgramCounter::Next(1, 1));
    set_bytes(&mut cpu, &[0xC3, 0x50, 0x01]);
    assert_eq!(cpu.jp_nn(), ProgramCounter::Jump(0x0150, 4));
    set_bytes(&mut cpu, &[0x01, 0x34, 0x12]);
    assert_eq!(cpu.ld_rr_nn(), ProgramCounter::Next(3, 3));
    assert_eq!(cpu.reg.bc(), 0x1234);
    assert_eq!(cpu.get_nn(), 0x1234);
    assert_eq!(cpu.get_n(), 0x34);
    assert_eq!(cpu.get_r16(), 0);
}

#[test]
fn flag_helpers() {
    let mut cpu = fresh();
    cpu.reg.f = 0;
    cpu.set_flag(ZF);
    cpu.set_flag(CF);
    assert_eq!(cpu.reg.f, ZF | CF);
    cpu.reset_flag(ZF);
    assert_eq!(cpu.reg.f, CF);
    cpu.reset_flag(0x01);
    assert_eq!(cpu.reg.f, CF);
    cpu.set_hnz(true, true, true);
    assert_eq!(cpu.reg.f, ZF | NF | HF | CF);
    cpu.set_hcn(false, false, false);
    assert_eq!(cpu.reg.f, ZF);
    cpu.set_hcnz(true, true, false, false);
    assert_eq!(cpu.reg.f, HF | CF);
}

#[test]
fn unassigned_opcodes() {
    let unassigned = [0xD3u8, 0xDB, 0xDD, 0xE3, 0xE4, 0xEB, 0xEC, 0xED, 0xF4, 0xFC, 0xFD];
    for op in 0..=255u8 {
        assert_eq!(is_defined(op), !unassigned.contains(&op), "opcode {:#04x}", op);
    }
}
