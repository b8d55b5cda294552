// Control flow: conditional cycle counts for both outcomes, stack round
// trips, interrupt dispatch cost and vectoring, EI delay, HALT behaviour.

use gbcore::cpu::Z80;

fn program(bytes: &[u8]) -> Z80 {
    let mut c = Z80::new();
    let mut addr: u16 = 0xC000;
    for &b in bytes {
        c.writeByte(addr, b);
        addr += 1;
    }
    c.pc = 0xC000;
    c.sp = 0xD000;
    c
}

#[test]
fn jr_taken_scenario() {
    // JR Z,-2 with Z set jumps back onto itself in 3 M-cycles
    let mut c = program(&[0x28, 0xFE]);
    c.f = 0x80;
    c.fetchOpcode().unwrap();
    let n = c.stepInstruction().unwrap();
    assert_eq!(n, 3);
    assert_eq!(c.pc, 0xC000);
}

#[test]
fn jr_not_taken_scenario() {
    // the same bytes with Z clear fall through in 2 M-cycles
    let mut c = program(&[0x28, 0xFE]);
    c.f = 0x00;
    c.fetchOpcode().unwrap();
    let n = c.stepInstruction().unwrap();
    assert_eq!(n, 2);
    assert_eq!(c.pc, 0xC002);
}

#[test]
fn jp_cycle_counts() {
    // JP NZ taken costs 4, not taken 3
    let mut c = program(&[0xC2, 0x00, 0xC1]);
    c.f = 0x00;
    c.fetchOpcode().unwrap();
    let n = c.stepInstruction().unwrap();
    assert_eq!(n, 4);
    assert_eq!(c.pc, 0xC100);

    let mut c2 = program(&[0xC2, 0x00, 0xC1]);
    c2.f = 0x80;
    c2.fetchOpcode().unwrap();
    let n2 = c2.stepInstruction().unwrap();
    assert_eq!(n2, 3);
    assert_eq!(c2.pc, 0xC003);
}

#[test]
fn call_and_ret_cycle_counts() {
    // CALL C taken costs 6 and pushes the return address; RET costs 4
    let mut c = program(&[0xDC, 0x00, 0xC1]);
    c.writeByte(0xC100, 0xC9);
    c.f = 0x10;
    c.fetchOpcode().unwrap();
    let n = c.stepInstruction().unwrap();
    assert_eq!(n, 6);
    assert_eq!(c.pc, 0xC100);
    assert_eq!(c.sp, 0xCFFE);
    assert_eq!(c.readByte(0xCFFE), 0x03);
    assert_eq!(c.readByte(0xCFFF), 0xC0);
    let n2 = c.stepInstruction().unwrap();
    assert_eq!(n2, 4);
    assert_eq!(c.pc, 0xC003);
    assert_eq!(c.sp, 0xD000);
}

#[test]
fn call_not_taken() {
    let mut c = program(&[0xDC, 0x00, 0xC1]);
    c.f = 0x00;
    c.fetchOpcode().unwrap();
    let n = c.stepInstruction().unwrap();
    assert_eq!(n, 3);
    assert_eq!(c.pc, 0xC003);
    assert_eq!(c.sp, 0xD000);
}

#[test]
fn ret_conditional_cycle_counts() {
    // RET NZ taken costs 5, not taken 2
    let mut c = program(&[0xC0]);
    c.writeByte(0xCFFE, 0x00);
    c.writeByte(0xCFFF, 0xC2);
    c.sp = 0xCFFE;
    c.f = 0x00;
    c.fetchOpcode().unwrap();
    let n = c.stepInstruction().unwrap();
    assert_eq!(n, 5);
    assert_eq!(c.pc, 0xC200);

    let mut c2 = program(&[0xC0]);
    c2.f = 0x80;
    c2.fetchOpcode().unwrap();
    let n2 = c2.stepInstruction().unwrap();
    assert_eq!(n2, 2);
    assert_eq!(c2.pc, 0xC001);
}

#[test]
fn jp_hl_single_cycle() {
    let mut c = program(&[0xE9]);
    c.h = 0xC3;
    c.l = 0x21;
    c.fetchOpcode().unwrap();
    let n = c.stepInstruction().unwrap();
    assert_eq!(n, 1);
    assert_eq!(c.pc, 0xC321);
}

#[test]
fn rst_pushes_return_address() {
    // RST 0x28 costs 4, pushes the address after the instruction, jumps low
    let mut c = program(&[0xEF]);
    c.fetchOpcode().unwrap();
    let n = c.stepInstruction().unwrap();
    assert_eq!(n, 4);
    assert_eq!(c.pc, 0x0028);
    assert_eq!(c.readByte(0xCFFE), 0x01);
    assert_eq!(c.readByte(0xCFFF), 0xC0);
}

#[test]
fn push_pop_af_round_trip() {
    // PUSH AF; INC B; POP AF: A and F come back exactly (low nibble of F was
    // already zero)
    let mut c = program(&[0xF5, 0x04, 0xF1]);
    c.a = 0x5A;
    c.f = 0x30;
    c.fetchOpcode().unwrap();
    c.stepInstruction().unwrap();
    c.stepInstruction().unwrap();
    c.stepInstruction().unwrap();
    assert_eq!(c.a, 0x5A);
    assert_eq!(c.f, 0x30);
    assert_eq!(c.sp, 0xD000);
}

#[test]
fn pop_af_masks_low_nibble() {
    // stack holds FF FF: POP AF gives A=0xFF, F=0xF0, SP moves up by 2
    let mut c = program(&[0xF1]);
    c.writeByte(0xCFFE, 0xFF);
    c.writeByte(0xCFFF, 0xFF);
    c.sp = 0xCFFE;
    c.fetchOpcode().unwrap();
    let n = c.stepInstruction().unwrap();
    assert_eq!(n, 3);
    assert_eq!(c.a, 0xFF);
    assert_eq!(c.f, 0xF0);
    assert_eq!(c.sp, 0xD000);
}

#[test]
fn push_pop_bc_round_trip() {
    let mut c = program(&[0xC5, 0xD1]);
    c.b = 0x12;
    c.c = 0x34;
    c.fetchOpcode().unwrap();
    let n = c.stepInstruction().unwrap();
    assert_eq!(n, 4);
    let n2 = c.stepInstruction().unwrap();
    assert_eq!(n2, 3);
    assert_eq!(c.d, 0x12);
    assert_eq!(c.e, 0x34);
}

#[test]
fn interrupt_dispatch_cost_and_vector() {
    // NOP retires with IME on and the Timer interrupt pending: the dispatch
    // costs exactly 5 M-cycles, lands on 0x50, clears IF.Timer and IME
    let mut c = program(&[0x00]);
    c.masterInterrupt = true;
    c.bus.interruptEnableRegister = 0x04;
    c.bus.interruptRequestRegister = 0x04;
    c.fetchOpcode().unwrap();
    let n = c.stepInstruction().unwrap();
    assert_eq!(n, 1);
    assert!(c.servicing);
    assert_eq!(c.cyclesLeft, 5);
    assert!(!c.masterInterrupt);
    assert_eq!(c.bus.interruptRequestRegister, 0x00);
    let n2 = c.stepInstruction().unwrap();
    assert_eq!(n2, 5);
    assert_eq!(c.pc, 0x0050);
    assert!(!c.servicing);
}

#[test]
fn interrupt_priority_lowest_bit() {
    // Timer (bit 2) and Joypad (bit 4) both pending: Timer wins, its bit
    // clears, Joypad stays
    let mut c = program(&[0x00]);
    c.masterInterrupt = true;
    c.bus.interruptEnableRegister = 0x14;
    c.bus.interruptRequestRegister = 0x14;
    c.fetchOpcode().unwrap();
    c.stepInstruction().unwrap();
    assert!(c.servicing);
    assert_eq!(c.serviceAddr, 0x0050);
    assert_eq!(c.bus.interruptRequestRegister, 0x10);
}

#[test]
fn interrupt_pushes_pc() {
    // the dispatch pushes the interrupted PC, high byte first
    let mut c = program(&[0x00]);
    c.masterInterrupt = true;
    c.bus.interruptEnableRegister = 0x01;
    c.bus.interruptRequestRegister = 0x01;
    c.fetchOpcode().unwrap();
    c.stepInstruction().unwrap();
    c.stepInstruction().unwrap();
    assert_eq!(c.pc, 0x0040);
    assert_eq!(c.sp, 0xCFFE);
    assert_eq!(c.readByte(0xCFFE), 0x01);
    assert_eq!(c.readByte(0xCFFF), 0xC0);
}

#[test]
fn ei_has_one_instruction_delay() {
    // DI; EI; NOP: IME is still off while the NOP runs and on after it
    let mut c = program(&[0xF3, 0xFB, 0x00, 0x00]);
    c.masterInterrupt = true;
    c.fetchOpcode().unwrap();
    c.stepInstruction().unwrap();
    assert!(!c.masterInterrupt);
    c.stepInstruction().unwrap();
    // the EI has retired; its effect is still pending
    assert!(!c.masterInterrupt);
    assert!(c.eiPending);
    c.stepInstruction().unwrap();
    // the NOP has retired; IME is on now
    assert!(c.masterInterrupt);
    assert!(!c.eiPending);
}

#[test]
fn di_cancels_pending_ei() {
    // EI; DI: the scheduled enable is discarded
    let mut c = program(&[0xFB, 0xF3, 0x00]);
    c.fetchOpcode().unwrap();
    c.stepInstruction().unwrap();
    assert!(c.eiPending);
    c.stepInstruction().unwrap();
    assert!(!c.masterInterrupt);
    assert!(!c.eiPending);
    c.stepInstruction().unwrap();
    assert!(!c.masterInterrupt);
}

#[test]
fn reti_enables_ime_immediately() {
    let mut c = program(&[0xD9]);
    c.writeByte(0xCFFE, 0x00);
    c.writeByte(0xCFFF, 0xC2);
    c.sp = 0xCFFE;
    c.fetchOpcode().unwrap();
    let n = c.stepInstruction().unwrap();
    assert_eq!(n, 4);
    assert_eq!(c.pc, 0xC200);
    assert!(c.masterInterrupt);
}

#[test]
fn halt_wakes_on_pending_interrupt() {
    // HALT with IME off: the CPU parks, the timer keeps ticking, and a
    // pending enabled interrupt resumes execution without servicing
    let mut c = program(&[0x76, 0x04]);
    c.bus.interruptEnableRegister = 0x10;
    c.fetchOpcode().unwrap();
    c.stepInstruction().unwrap();
    assert!(c.halted);
    let div0 = c.bus.timerRegisters.divRegister;
    c.clock().unwrap();
    c.clock().unwrap();
    assert!(c.halted);
    assert_eq!(c.bus.timerRegisters.divRegister, div0.wrapping_add(8));
    c.bus.requestInterrupt(gbcore::bus::IntrFlags::Joypad);
    c.clock().unwrap();
    assert!(!c.halted);
    assert!(!c.servicing);
    // execution continues with the INC B that follows the HALT
    let b0 = c.b;
    c.stepInstruction().unwrap();
    assert_eq!(c.b, b0.wrapping_add(1));
}

#[test]
fn halt_with_ime_dispatches() {
    let mut c = program(&[0x76]);
    c.masterInterrupt = true;
    c.bus.interruptEnableRegister = 0x01;
    c.fetchOpcode().unwrap();
    c.stepInstruction().unwrap();
    assert!(c.halted);
    c.bus.requestInterrupt(gbcore::bus::IntrFlags::VBlank);
    c.clock().unwrap();
    assert!(!c.halted);
    assert!(c.servicing);
    c.stepInstruction().unwrap();
    assert_eq!(c.pc, 0x0040);
}
