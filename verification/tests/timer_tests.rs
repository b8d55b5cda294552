// Timer unit: DIV advance, the falling-edge increment rate, the overflow
// pipeline with its four-cycle reload delay, and the port-write edge cases.

use gbcore::cpu::Z80;
use gbcore::timer::Timers;

fn nopMachine() -> Z80 {
    // pc points at work RAM full of NOPs
    let mut c = Z80::new();
    c.pc = 0xC000;
    c
}

#[test]
fn div_advances_four_per_cycle() {
    let mut c = nopMachine();
    c.fetchOpcode().unwrap();
    for _ in 0..5 {
        c.clock().unwrap();
    }
    assert_eq!(c.bus.timerRegisters.divRegister, 20);
    // the DIV port shows the high byte
    assert_eq!(c.readByte(0xFF04), 0x00);
    for _ in 0..59 {
        c.clock().unwrap();
    }
    assert_eq!(c.bus.timerRegisters.divRegister, 256);
    assert_eq!(c.readByte(0xFF04), 0x01);
}

#[test]
fn tima_increment_rate() {
    // TAC=0x06: enabled, selector 2, period 16 M-cycles; 160 cycles from
    // divider 0 give exactly 10 increments
    let mut c = nopMachine();
    c.bus.cpuWrite(0xFF07, 0x06);
    c.fetchOpcode().unwrap();
    for _ in 0..160 {
        c.clock().unwrap();
    }
    assert_eq!(c.bus.timerRegisters.timaRegister, 10);
}

#[test]
fn tima_fast_selector_rate() {
    // TAC=0x05: enabled, selector 1, period 4 M-cycles; 40 cycles give 10
    let mut c = nopMachine();
    c.bus.cpuWrite(0xFF07, 0x05);
    c.fetchOpcode().unwrap();
    for _ in 0..40 {
        c.clock().unwrap();
    }
    assert_eq!(c.bus.timerRegisters.timaRegister, 10);
}

#[test]
fn tima_disabled_never_increments() {
    let mut c = nopMachine();
    c.bus.cpuWrite(0xFF07, 0x01);
    c.fetchOpcode().unwrap();
    for _ in 0..64 {
        c.clock().unwrap();
    }
    assert_eq!(c.bus.timerRegisters.timaRegister, 0);
}

#[test]
fn timer_overflow_reload_after_four_cycles() {
    // TAC=0x05, TMA=0xAB, TIMA=0xFF: the overflow lands on the fourth cycle,
    // TIMA reads 0 through the window, and four cycles later it reloads from
    // TMA and raises IF.Timer
    let mut c = nopMachine();
    c.bus.cpuWrite(0xFF07, 0x05);
    c.bus.cpuWrite(0xFF06, 0xAB);
    c.bus.cpuWrite(0xFF05, 0xFF);
    c.fetchOpcode().unwrap();
    for _ in 0..4 {
        c.clock().unwrap();
    }
    assert_eq!(c.readByte(0xFF05), 0x00);
    assert_eq!(c.bus.cpuRead(0xFF0F) & 0x04, 0x00);
    for _ in 0..3 {
        c.clock().unwrap();
    }
    assert_eq!(c.readByte(0xFF05), 0x00);
    assert_eq!(c.bus.cpuRead(0xFF0F) & 0x04, 0x00);
    c.clock().unwrap();
    assert_eq!(c.readByte(0xFF05), 0xAB);
    assert_eq!(c.bus.cpuRead(0xFF0F) & 0x04, 0x04);
}

#[test]
fn timer_overflow_dispatches_interrupt() {
    // the same overflow with IE.Timer and IME set vectors to 0x50 and clears
    // IF.Timer at the following boundary
    let mut c = nopMachine();
    c.bus.cpuWrite(0xFF07, 0x05);
    c.bus.cpuWrite(0xFF06, 0xAB);
    c.bus.cpuWrite(0xFF05, 0xFF);
    c.bus.cpuWrite(0xFFFF, 0x04);
    c.masterInterrupt = true;
    c.fetchOpcode().unwrap();
    for _ in 0..8 {
        c.clock().unwrap();
    }
    assert!(c.servicing);
    assert_eq!(c.serviceAddr, 0x0050);
    assert_eq!(c.bus.cpuRead(0xFF0F) & 0x04, 0x00);
    let n = c.stepInstruction().unwrap();
    assert_eq!(n, 5);
    assert_eq!(c.pc, 0x0050);
    assert!(!c.masterInterrupt);
}

#[test]
fn tima_write_cancels_pending_reload() {
    // a TIMA write inside the overflow window cancels the reload and the
    // interrupt
    let mut c = nopMachine();
    c.bus.cpuWrite(0xFF07, 0x05);
    c.bus.cpuWrite(0xFF06, 0xAB);
    c.bus.cpuWrite(0xFF05, 0xFF);
    c.fetchOpcode().unwrap();
    for _ in 0..5 {
        c.clock().unwrap();
    }
    assert!(c.bus.timerRegisters.timaOverflow);
    c.bus.cpuWrite(0xFF05, 0x7E);
    assert!(!c.bus.timerRegisters.timaOverflow);
    for _ in 0..4 {
        c.clock().unwrap();
    }
    assert_eq!(c.bus.cpuRead(0xFF0F) & 0x04, 0x00);
    assert_ne!(c.readByte(0xFF05), 0xAB);
}

#[test]
fn div_write_resets_counter_and_may_tick_tima() {
    // with the selected bit high, writing DIV drops the detector input: TIMA
    // increments once and the divider restarts at zero
    let mut c = nopMachine();
    c.bus.cpuWrite(0xFF07, 0x05);
    c.fetchOpcode().unwrap();
    c.clock().unwrap();
    c.clock().unwrap();
    // divider is 8: bit 3 is high, so the detector input is high
    assert_eq!(c.bus.timerRegisters.divRegister, 8);
    assert!(c.bus.timerRegisters.lastCycleBit);
    let tima0 = c.bus.timerRegisters.timaRegister;
    c.bus.cpuWrite(0xFF04, 0x55);
    assert_eq!(c.bus.timerRegisters.divRegister, 0);
    assert_eq!(c.bus.timerRegisters.timaRegister, tima0 + 1);
}

#[test]
fn tac_disable_falling_edge_ticks_tima() {
    // disabling TAC while the selected bit is high counts as a falling edge
    let mut c = nopMachine();
    c.bus.cpuWrite(0xFF07, 0x05);
    c.fetchOpcode().unwrap();
    c.clock().unwrap();
    c.clock().unwrap();
    let tima0 = c.bus.timerRegisters.timaRegister;
    c.bus.cpuWrite(0xFF07, 0x01);
    assert_eq!(c.bus.timerRegisters.timaRegister, tima0 + 1);
}

#[test]
fn tma_write_during_reload_uses_old_value() {
    // a TMA write on the reload cycle: TIMA reloads from the pre-write TMA
    let mut t = Timers::new();
    t.tacWrite(0x05);
    t.tmaWrite(0xAA);
    t.incrTimers();
    t.timaWrite(0xFF);
    // run until the overflow fires
    let mut fired = 0;
    for _ in 0..16 {
        if t.timaOverflow {
            break;
        }
        t.incrTimers();
        fired += 1;
    }
    assert!(t.timaOverflow);
    assert!(fired <= 16);
    // three quiet pipeline cycles
    t.incrTimers();
    t.incrTimers();
    t.incrTimers();
    // the reload lands on this cycle; write TMA in the same cycle first
    t.tmaWrite(0x12);
    let irq = t.incrTimers();
    assert!(irq);
    assert_eq!(t.timaRegister, 0xAA);
    assert_eq!(t.tmaRegister, 0x12);
}

#[test]
fn timer_registers_read_back() {
    let mut c = nopMachine();
    c.bus.cpuWrite(0xFF06, 0x9C);
    c.bus.cpuWrite(0xFF07, 0x07);
    assert_eq!(c.readByte(0xFF06), 0x9C);
    assert_eq!(c.readByte(0xFF07), 0x07);
}

#[test]
fn div_write_keeps_pending_reload() {
    // a DIV write during the overflow window must not cancel the reload:
    // only a TIMA write does
    let mut t = Timers::new();
    t.tacWrite(0x05);
    t.tmaWrite(0x77);
    t.incrTimers();
    t.timaWrite(0xFF);
    for _ in 0..16 {
        if t.timaOverflow {
            break;
        }
        t.incrTimers();
    }
    assert!(t.timaOverflow);
    t.incrTimers();
    // divider reset mid-window: the pending reload stays due
    t.divWrite();
    assert!(t.timaOverflow);
    let mut fired = false;
    for _ in 0..4 {
        if t.incrTimers() {
            fired = true;
            break;
        }
    }
    assert!(fired);
    assert_eq!(t.timaRegister, 0x77);
}

#[test]
fn tac_write_keeps_pending_reload() {
    // likewise for a TAC write that drops the detector input
    let mut t = Timers::new();
    t.tacWrite(0x05);
    t.tmaWrite(0x55);
    t.incrTimers();
    t.timaWrite(0xFF);
    for _ in 0..16 {
        if t.timaOverflow {
            break;
        }
        t.incrTimers();
    }
    assert!(t.timaOverflow);
    t.incrTimers();
    t.tacWrite(0x01);
    assert!(t.timaOverflow);
    let mut fired = false;
    for _ in 0..4 {
        if t.incrTimers() {
            fired = true;
        }
    }
    assert!(fired);
    assert_eq!(t.timaRegister, 0x55);
}
