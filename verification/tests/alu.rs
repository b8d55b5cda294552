// 8-bit ALU, DAA and rotate behaviour, including the flag formulas, checked
// against hand-computed values.

use gbcore::cpu::Z80;

fn program(bytes: &[u8]) -> Z80 {
    let mut c = Z80::new();
    let mut addr: u16 = 0xC000;
    for &b in bytes {
        c.writeByte(addr, b);
        addr += 1;
    }
    c.pc = 0xC000;
    c
}

#[test]
fn add_flags_scenario() {
    // ADD A,B with A=0x3A, B=0xC6: result 0, Z=1 N=0 H=1 C=1, one M-cycle
    let mut c = program(&[0x80]);
    c.a = 0x3A;
    c.b = 0xC6;
    c.fetchOpcode().unwrap();
    let n = c.stepInstruction().unwrap();
    assert_eq!(n, 1);
    assert_eq!(c.a, 0x00);
    assert_eq!(c.f, 0xB0);
    assert_eq!(c.pc, 0xC001);
}

#[test]
fn sub_borrow_flags() {
    // SUB A,B with A=0x10, B=0x20: result 0xF0, Z=0 N=1 H=0 C=1
    let mut c = program(&[0x90]);
    c.a = 0x10;
    c.b = 0x20;
    c.fetchOpcode().unwrap();
    c.stepInstruction().unwrap();
    assert_eq!(c.a, 0xF0);
    assert_eq!(c.f, 0x50);
}

#[test]
fn sub_half_borrow() {
    // SUB A,B with A=0x21, B=0x12: result 0x0F, N=1 H=1 C=0
    let mut c = program(&[0x90]);
    c.a = 0x21;
    c.b = 0x12;
    c.fetchOpcode().unwrap();
    c.stepInstruction().unwrap();
    assert_eq!(c.a, 0x0F);
    assert_eq!(c.f, 0x60);
}

#[test]
fn adc_uses_carry_in() {
    // Carry set, ADC A,C with A=0xFF, C=0x00: result 0, Z=1 H=1 C=1
    let mut c = program(&[0x89]);
    c.a = 0xFF;
    c.c = 0x00;
    c.f = 0x10;
    c.fetchOpcode().unwrap();
    c.stepInstruction().unwrap();
    assert_eq!(c.a, 0x00);
    assert_eq!(c.f, 0xB0);
}

#[test]
fn sbc_uses_carry_in() {
    // Carry set, SBC A,B with A=0x01, B=0x00: result 0, Z=1 N=1
    let mut c = program(&[0x98]);
    c.a = 0x01;
    c.b = 0x00;
    c.f = 0x10;
    c.fetchOpcode().unwrap();
    c.stepInstruction().unwrap();
    assert_eq!(c.a, 0x00);
    assert_eq!(c.f, 0xC0);
}

#[test]
fn and_sets_half_carry() {
    // AND A,B with A=0xF0, B=0x0F: result 0, Z=1 H=1
    let mut c = program(&[0xA0]);
    c.a = 0xF0;
    c.b = 0x0F;
    c.fetchOpcode().unwrap();
    c.stepInstruction().unwrap();
    assert_eq!(c.a, 0x00);
    assert_eq!(c.f, 0xA0);
}

#[test]
fn xor_clears_flags() {
    let mut c = program(&[0xA8]);
    c.a = 0x5A;
    c.b = 0x5A;
    c.f = 0x70;
    c.fetchOpcode().unwrap();
    c.stepInstruction().unwrap();
    assert_eq!(c.a, 0x00);
    assert_eq!(c.f, 0x80);
}

#[test]
fn cp_leaves_a_alone() {
    // CP A,u8 0x2F against A=0x2F: A untouched, Z=1 N=1
    let mut c = program(&[0xFE, 0x2F]);
    c.a = 0x2F;
    c.fetchOpcode().unwrap();
    let n = c.stepInstruction().unwrap();
    assert_eq!(n, 2);
    assert_eq!(c.a, 0x2F);
    assert_eq!(c.f, 0xC0);
}

#[test]
fn inc_preserves_carry() {
    // Carry set, INC B on 0x0F: B=0x10, H=1, C still 1
    let mut c = program(&[0x04]);
    c.b = 0x0F;
    c.f = 0x10;
    c.fetchOpcode().unwrap();
    c.stepInstruction().unwrap();
    assert_eq!(c.b, 0x10);
    assert_eq!(c.f, 0x30);
}

#[test]
fn dec_to_zero() {
    let mut c = program(&[0x05]);
    c.b = 0x01;
    c.fetchOpcode().unwrap();
    c.stepInstruction().unwrap();
    assert_eq!(c.b, 0x00);
    assert_eq!(c.f, 0xC0);
}

#[test]
fn daa_after_addition() {
    // 0x15 + 0x27 = 0x3C; DAA corrects to 0x42
    let mut c = program(&[0x80, 0x27]);
    c.a = 0x15;
    c.b = 0x27;
    c.fetchOpcode().unwrap();
    c.stepInstruction().unwrap();
    assert_eq!(c.a, 0x3C);
    c.stepInstruction().unwrap();
    assert_eq!(c.a, 0x42);
    assert_eq!(c.f & 0x10, 0x00);
}

#[test]
fn daa_after_subtraction() {
    // 0x42 - 0x15 = 0x2D; DAA corrects to 0x27 with N kept
    let mut c = program(&[0x90, 0x27]);
    c.a = 0x42;
    c.b = 0x15;
    c.fetchOpcode().unwrap();
    c.stepInstruction().unwrap();
    assert_eq!(c.a, 0x2D);
    c.stepInstruction().unwrap();
    assert_eq!(c.a, 0x27);
    assert_eq!(c.f & 0x40, 0x40);
}

#[test]
fn rlca_forces_zero_clear() {
    // RLCA on 0x80: A=0x01, C=1, Z forced 0
    let mut c = program(&[0x07]);
    c.a = 0x80;
    c.fetchOpcode().unwrap();
    c.stepInstruction().unwrap();
    assert_eq!(c.a, 0x01);
    assert_eq!(c.f, 0x10);
}

#[test]
fn rra_through_carry() {
    // Carry set, RRA on 0x00: A=0x80, C=0
    let mut c = program(&[0x1F]);
    c.a = 0x00;
    c.f = 0x10;
    c.fetchOpcode().unwrap();
    c.stepInstruction().unwrap();
    assert_eq!(c.a, 0x80);
    assert_eq!(c.f, 0x00);
}

#[test]
fn cb_swap_scenario() {
    // CB 37 (SWAP A) on 0xAB: A=0xBA, all flags clear, 2 M-cycles
    let mut c = program(&[0xCB, 0x37]);
    c.a = 0xAB;
    c.fetchOpcode().unwrap();
    let n = c.stepInstruction().unwrap();
    assert_eq!(n, 2);
    assert_eq!(c.a, 0xBA);
    assert_eq!(c.f, 0x00);
    assert_eq!(c.pc, 0xC002);
}

#[test]
fn cb_sla_sets_zero_and_carry() {
    // CB 20 (SLA B) on 0x80: B=0, Z=1 C=1
    let mut c = program(&[0xCB, 0x20]);
    c.b = 0x80;
    c.fetchOpcode().unwrap();
    c.stepInstruction().unwrap();
    assert_eq!(c.b, 0x00);
    assert_eq!(c.f, 0x90);
}

#[test]
fn cb_sra_preserves_top_bit() {
    // CB 28 (SRA B) on 0x81: B=0xC0, C=1
    let mut c = program(&[0xCB, 0x28]);
    c.b = 0x81;
    c.fetchOpcode().unwrap();
    c.stepInstruction().unwrap();
    assert_eq!(c.b, 0xC0);
    assert_eq!(c.f, 0x10);
}

#[test]
fn cb_bit_test() {
    // CB 47 (BIT 0,A) on 0x01: Z=0, H=1; then on 0x00: Z=1
    let mut c = program(&[0xCB, 0x47, 0xCB, 0x47]);
    c.a = 0x01;
    c.f = 0x10;
    c.fetchOpcode().unwrap();
    c.stepInstruction().unwrap();
    assert_eq!(c.f, 0x30);
    c.a = 0x00;
    c.stepInstruction().unwrap();
    assert_eq!(c.f, 0xB0);
}

#[test]
fn cb_res_set_on_memory() {
    // RES 7,(HL) then SET 0,(HL) at 0xC100 holding 0xFF
    let mut c = program(&[0xCB, 0xBE, 0xCB, 0xC6]);
    c.writeByte(0xC100, 0xFF);
    c.h = 0xC1;
    c.l = 0x00;
    c.fetchOpcode().unwrap();
    let n = c.stepInstruction().unwrap();
    assert_eq!(n, 6);
    assert_eq!(c.readByte(0xC100), 0x7F);
    c.stepInstruction().unwrap();
    assert_eq!(c.readByte(0xC100), 0x7F);
}

#[test]
fn cpl_complements() {
    let mut c = program(&[0x2F]);
    c.a = 0x35;
    c.f = 0x90;
    c.fetchOpcode().unwrap();
    c.stepInstruction().unwrap();
    assert_eq!(c.a, 0xCA);
    assert_eq!(c.f, 0xF0);
}

#[test]
fn scf_and_ccf() {
    let mut c = program(&[0x37, 0x3F]);
    c.f = 0x80;
    c.fetchOpcode().unwrap();
    c.stepInstruction().unwrap();
    assert_eq!(c.f, 0x90);
    c.stepInstruction().unwrap();
    assert_eq!(c.f, 0x80);
}

#[test]
fn add_hl_flags() {
    // ADD HL,BC with HL=0x0FFF, BC=0x0001: HL=0x1000, H=1, Z kept
    let mut c = program(&[0x09]);
    c.h = 0x0F;
    c.l = 0xFF;
    c.b = 0x00;
    c.c = 0x01;
    c.f = 0x80;
    c.fetchOpcode().unwrap();
    let n = c.stepInstruction().unwrap();
    assert_eq!(n, 2);
    assert_eq!(c.h, 0x10);
    assert_eq!(c.l, 0x00);
    assert_eq!(c.f, 0xA0);
}

#[test]
fn add_sp_signed() {
    // ADD SP,-2 from 0xFFF8: SP=0xFFF6, flags from the low-byte add
    let mut c = program(&[0xE8, 0xFE]);
    c.sp = 0xFFF8;
    c.fetchOpcode().unwrap();
    let n = c.stepInstruction().unwrap();
    assert_eq!(n, 4);
    assert_eq!(c.sp, 0xFFF6);
    assert_eq!(c.f, 0x30);
}

#[test]
fn ld_hl_sp_offset() {
    // LD HL,SP+3 from 0xC0FF: HL=0xC102, SP unchanged
    let mut c = program(&[0xF8, 0x03]);
    c.sp = 0xC0FF;
    c.fetchOpcode().unwrap();
    let n = c.stepInstruction().unwrap();
    assert_eq!(n, 3);
    assert_eq!(c.h, 0xC1);
    assert_eq!(c.l, 0x02);
    assert_eq!(c.sp, 0xC0FF);
    assert_eq!(c.f, 0x30);
}
