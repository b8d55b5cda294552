// The 8-bit register-move block, the (HL) operand forms, and the remaining
// load shapes.

use gbcore::cpu::Z80;

fn program(bytes: &[u8]) -> Z80 {
    let mut c = Z80::new();
    let mut addr: u16 = 0xC000;
    for &b in bytes {
        c.writeByte(addr, b);
        addr += 1;
    }
    c.pc = 0xC000;
    c
}

#[test]
fn register_moves() {
    // LD B,C; LD D,B; LD A,D
    let mut c = program(&[0x41, 0x50, 0x7A]);
    c.c = 0x3C;
    c.fetchOpcode().unwrap();
    let n = c.stepInstruction().unwrap();
    assert_eq!(n, 1);
    assert_eq!(c.b, 0x3C);
    c.stepInstruction().unwrap();
    assert_eq!(c.d, 0x3C);
    c.stepInstruction().unwrap();
    assert_eq!(c.a, 0x3C);
}

#[test]
fn load_from_and_to_hl() {
    // LD E,(HL) then LD (HL),A
    let mut c = program(&[0x5E, 0x77]);
    c.writeByte(0xC200, 0x99);
    c.h = 0xC2;
    c.l = 0x00;
    c.a = 0x11;
    c.fetchOpcode().unwrap();
    let n = c.stepInstruction().unwrap();
    assert_eq!(n, 2);
    assert_eq!(c.e, 0x99);
    let n2 = c.stepInstruction().unwrap();
    assert_eq!(n2, 2);
    assert_eq!(c.readByte(0xC200), 0x11);
}

#[test]
fn alu_with_hl_operand() {
    // ADD A,(HL): two M-cycles, operand read from memory
    let mut c = program(&[0x86]);
    c.writeByte(0xC200, 0x22);
    c.h = 0xC2;
    c.l = 0x00;
    c.a = 0x11;
    c.fetchOpcode().unwrap();
    let n = c.stepInstruction().unwrap();
    assert_eq!(n, 2);
    assert_eq!(c.a, 0x33);
    assert_eq!(c.f, 0x00);
}

#[test]
fn cp_with_hl_operand() {
    // CP A,(HL) with equal bytes: Z=1 N=1, A untouched
    let mut c = program(&[0xBE]);
    c.writeByte(0xC200, 0x44);
    c.h = 0xC2;
    c.l = 0x00;
    c.a = 0x44;
    c.fetchOpcode().unwrap();
    c.stepInstruction().unwrap();
    assert_eq!(c.a, 0x44);
    assert_eq!(c.f, 0xC0);
}

#[test]
fn ld_sp_immediate_and_store() {
    // LD SP,0xCFF0 then LD (HL),u8
    let mut c = program(&[0x31, 0xF0, 0xCF, 0x36, 0x7B]);
    c.h = 0xC2;
    c.l = 0x00;
    c.fetchOpcode().unwrap();
    let n = c.stepInstruction().unwrap();
    assert_eq!(n, 3);
    assert_eq!(c.sp, 0xCFF0);
    let n2 = c.stepInstruction().unwrap();
    assert_eq!(n2, 3);
    assert_eq!(c.readByte(0xC200), 0x7B);
}

#[test]
fn ld_absolute_round_trip() {
    // LD (u16),A then LD A,(u16) through work RAM
    let mut c = program(&[0xEA, 0x34, 0xC2, 0x3E, 0x00, 0xFA, 0x34, 0xC2]);
    c.a = 0x5D;
    c.fetchOpcode().unwrap();
    let n = c.stepInstruction().unwrap();
    assert_eq!(n, 4);
    assert_eq!(c.readByte(0xC234), 0x5D);
    c.stepInstruction().unwrap();
    assert_eq!(c.a, 0x00);
    let n2 = c.stepInstruction().unwrap();
    assert_eq!(n2, 4);
    assert_eq!(c.a, 0x5D);
}

#[test]
fn sixteen_bit_inc_dec() {
    // INC DE and DEC HL wrap at the 16-bit edges
    let mut c = program(&[0x13, 0x2B]);
    c.d = 0xFF;
    c.e = 0xFF;
    c.h = 0x00;
    c.l = 0x00;
    c.fetchOpcode().unwrap();
    let n = c.stepInstruction().unwrap();
    assert_eq!(n, 2);
    assert_eq!(c.getDE(), 0x0000);
    c.stepInstruction().unwrap();
    assert_eq!(c.getHL(), 0xFFFF);
}

#[test]
fn ld_a_hl_decrement() {
    // LD A,(HL-) reads then steps HL down
    let mut c = program(&[0x3A]);
    c.writeByte(0xC200, 0x66);
    c.h = 0xC2;
    c.l = 0x00;
    c.fetchOpcode().unwrap();
    c.stepInstruction().unwrap();
    assert_eq!(c.a, 0x66);
    assert_eq!(c.getHL(), 0xC1FF);
}
