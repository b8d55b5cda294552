//! Per-cycle instruction execution: the unprefixed and CB-prefixed opcode
//! dispatchers, instruction fetch, interrupt dispatch, and the machine-cycle
//! driver `clock`.
//!
//! An instruction's whole M-cycle budget is loaded into `cyclesLeft` at fetch
//! (conditionals get their not-taken count when the condition fails, so the
//! counter falls by exactly one on every cycle).  Each dispatcher arm performs
//! the work scheduled for the current counter position; the boundary step at
//! zero advances PC, applies the delayed EI, dispatches interrupts and fetches
//! the next opcode.

use vstd::prelude::*;

use crate::EmuError;
use crate::bus::readSpec;
use crate::cpu::Flags;
use crate::cpu::Z80;
use crate::cpu::flagCSpec;
use crate::cpu::flagsByte;
use crate::cpu::wadd;
use crate::step::aluAVal;
use crate::step::aluFVal;
use crate::step::clockOkSpec;
use crate::step::clockPostSpec;
use crate::step::clockStepsSpec;
use crate::step::intCycleSpec;
use crate::step::lowestPending;
use crate::step::prefCycleSpec;
use crate::step::shiftCarry;
use crate::step::shiftVal;
use crate::step::unprefCycleSpec;
use crate::step::vectorOf;
use crate::tables::instrCyclesSpec;
use crate::tables::isIllegalSpec;
use crate::tables::prefCyclesSpec;

verus! {

/// The interrupts both enabled and requested (low five bits of IE AND IF).
pub open spec fn pendingMask(s: Z80) -> u8 {
    s.bus.interruptEnableRegister & s.bus.interruptRequestRegister & 0x1F
}

/// IF as a parked (halted or stopped) CPU sees it after this cycle's timer
/// tick: the tick may raise the Timer bit.
pub open spec fn ifAfterTick(s: Z80) -> u8 {
    if crate::timer::tickIrqSpec(s.bus.timerRegisters) {
        s.bus.interruptRequestRegister | (1u8 << 2)
    } else {
        s.bus.interruptRequestRegister
    }
}

/// What one execution cycle never touches: the instruction bookkeeping that
/// `clock` owns.
pub open spec fn cycleFrame(pre: Z80, post: Z80) -> bool {
    &&& post.wf()
    &&& post.cyclesLeft == pre.cyclesLeft
    &&& post.currentOpcode == pre.currentOpcode
    &&& post.prefixedInstruction == pre.prefixedInstruction
    &&& post.justBooted == pre.justBooted
    &&& post.servicing == pre.servicing
    &&& post.serviceAddr == pre.serviceAddr
}

/// The 8-bit register selected by a 3-bit operand index (6, the (HL) slot, is
/// handled by the callers).
pub open spec fn reg8Spec(s: Z80, i: u8) -> u8 {
    if i == 0 {
        s.b
    } else if i == 1 {
        s.c
    } else if i == 2 {
        s.d
    } else if i == 3 {
        s.e
    } else if i == 4 {
        s.h
    } else if i == 5 {
        s.l
    } else {
        s.a
    }
}

/// The CPU with the 8-bit register of index `i` replaced by `v`.
pub open spec fn setReg8Spec(s: Z80, i: u8, v: u8) -> Z80 {
    if i == 0 {
        Z80 { b: v, ..s }
    } else if i == 1 {
        Z80 { c: v, ..s }
    } else if i == 2 {
        Z80 { d: v, ..s }
    } else if i == 3 {
        Z80 { e: v, ..s }
    } else if i == 4 {
        Z80 { h: v, ..s }
    } else if i == 5 {
        Z80 { l: v, ..s }
    } else {
        Z80 { a: v, ..s }
    }
}

/// Contract of one execution cycle of an unprefixed opcode: the bookkeeping
/// frame, plus exactly which opcodes may move the HALT/STOP/IME/EI state on
/// their final cycle.
pub open spec fn unprefPost(pre: Z80, post: Z80, opcode: u8) -> bool {
    &&& cycleFrame(pre, post)
    &&& post.halted == (pre.halted || (opcode == 0x76 && pre.cyclesLeft == 1))
    &&& post.stopped == (pre.stopped || (opcode == 0x10 && pre.cyclesLeft == 1))
    &&& post.masterInterrupt == (if opcode == 0xF3 && pre.cyclesLeft == 1 {
        false
    } else if opcode == 0xD9 && pre.cyclesLeft == 1 {
        true
    } else {
        pre.masterInterrupt
    })
    &&& post.eiPending == (if opcode == 0xFB && pre.cyclesLeft == 1 {
        true
    } else if opcode == 0xF3 && pre.cyclesLeft == 1 {
        false
    } else {
        pre.eiPending
    })
}

impl Z80 {
    /// Read the 8-bit register with operand index `i` (not the (HL) slot).
    fn getReg8(&self, i: u8) -> (r: u8)
        requires
            i < 8,
            i != 6,
        ensures
            r == reg8Spec(*self, i),
    {
        if i == 0 {
            self.b
        } else if i == 1 {
            self.c
        } else if i == 2 {
            self.d
        } else if i == 3 {
            self.e
        } else if i == 4 {
            self.h
        } else if i == 5 {
            self.l
        } else {
            self.a
        }
    }

    /// Write the 8-bit register with operand index `i` (not the (HL) slot).
    fn setReg8(&mut self, i: u8, v: u8)
        requires
            i < 8,
            i != 6,
        ensures
            *final(self) == setReg8Spec(*old(self), i, v),
    {
        if i == 0 {
            self.b = v;
        } else if i == 1 {
            self.c = v;
        } else if i == 2 {
            self.d = v;
        } else if i == 3 {
            self.e = v;
        } else if i == 4 {
            self.h = v;
        } else if i == 5 {
            self.l = v;
        } else {
            self.a = v;
        }
    }

    /// Apply ALU operation `kind` to A and `v`: A takes the result (except
    /// for CP) and F takes the operation's flags.
    fn aluApply(&mut self, kind: u8, v: u8)
        requires
            kind < 8,
        ensures
            final(self).a == aluAVal(kind, old(self).a, v, flagCSpec(old(self).f)),
            final(self).f == aluFVal(kind, old(self).a, v, flagCSpec(old(self).f)),
            *final(self) == (Z80 { a: final(self).a, f: final(self).f, ..*old(self) }),
    {
        let a = self.a;
        if kind == 0 {
            let r = self.ADD(a, v);
            self.a = r;
        } else if kind == 1 {
            let r = self.ADC(a, v);
            self.a = r;
        } else if kind == 2 {
            let r = self.SUB(a, v);
            self.a = r;
        } else if kind == 3 {
            let r = self.SBC(a, v);
            self.a = r;
        } else if kind == 4 {
            let r = self.AND(a, v);
            self.a = r;
        } else if kind == 5 {
            let r = self.XOR(a, v);
            self.a = r;
        } else if kind == 6 {
            let r = self.OR(a, v);
            self.a = r;
        } else {
            let _ = self.SUB(a, v);
        }
    }

    /// Apply rotate/shift operation `kind` to `v`, returning the result and
    /// writing the rotate flags (Zero from the result, Sub and HalfCarry
    /// cleared, Carry from the ejected bit).
    fn rotApply(&mut self, kind: u8, v: u8) -> (r: u8)
        requires
            kind < 8,
        ensures
            r == shiftVal(kind, v, flagCSpec(old(self).f)),
            final(self).f == flagsByte(
                shiftVal(kind, v, flagCSpec(old(self).f)) == 0,
                false,
                false,
                shiftCarry(kind, v),
            ),
            *final(self) == (Z80 { f: final(self).f, ..*old(self) }),
    {
        if kind == 0 {
            self.RLC(v)
        } else if kind == 1 {
            self.RRC(v)
        } else if kind == 2 {
            self.RL(v)
        } else if kind == 3 {
            self.RR(v)
        } else if kind == 4 {
            self.SLA(v)
        } else if kind == 5 {
            self.SRA(v)
        } else if kind == 6 {
            self.SWAP(v)
        } else {
            self.SRL(v)
        }
    }

    /// Opcodes 0x00-0x3F: 16-bit loads and arithmetic, 8-bit immediates,
    /// increments, rotates of A, relative jumps and the flag instructions.
    fn execRow0(&mut self, opcode: u8)
        requires
            old(self).wf(),
            opcode < 0x40,
        ensures
            unprefPost(*old(self), *final(self), opcode),
            final(self).model() == unprefCycleSpec(old(self).model(), opcode),
    {
        if opcode < 0x08 {
            self.execRow0_00a(opcode);
        } else if opcode < 0x10 {
            self.execRow0_00b(opcode);
        } else if opcode < 0x18 {
            self.execRow0_10a(opcode);
        } else if opcode < 0x20 {
            self.execRow0_10b(opcode);
        } else if opcode < 0x24 {
            self.execRow0_20a1(opcode);
        } else if opcode < 0x28 {
            self.execRow0_20a2(opcode);
        } else if opcode < 0x30 {
            self.execRow0_20b(opcode);
        } else if opcode < 0x38 {
            self.execRow0_30a(opcode);
        } else {
            self.execRow0_30b(opcode);
        }
    }

    #[verifier::rlimit(100)]
    #[verifier::spinoff_prover]
    fn execRow0_00a(&mut self, opcode: u8)
        requires
            old(self).wf(),
            opcode < 0x08,
        ensures
            unprefPost(*old(self), *final(self), opcode),
            final(self).model() == crate::step::row0Spec00(old(self).model(), opcode),
    {
        match opcode {
            0x00 => {  // NOP
            },
            0x01 => {  // LD BC,u16
                if self.cyclesLeft == 2 {
                    self.c = self.readByte(self.pc.wrapping_add(1));
                } else if self.cyclesLeft == 1 {
                    self.b = self.readByte(self.pc.wrapping_add(2));
                }
            },
            0x02 => {  // LD (BC),A
                if self.cyclesLeft == 1 {
                    let t = self.getBC();
                    let v = self.a;
                    self.writeByte(t, v);
                }
            },
            0x03 => {  // INC BC
                if self.cyclesLeft == 1 {
                    let v = self.getBC().wrapping_add(1);
                    self.setBC(v);
                }
            },
            0x04 => {  // INC B
                let v = self.b;
                let r = self.inc8(v);
                self.b = r;
            },
            0x05 => {  // DEC B
                let v = self.b;
                let r = self.dec8(v);
                self.b = r;
            },
            0x06 => {  // LD B,u8
                if self.cyclesLeft == 1 {
                    self.b = self.readByte(self.pc.wrapping_add(1));
                }
            },
            0x07 => {  // RLCA (Zero forced clear)
                let v = self.a;
                let r = self.RLC(v);
                self.a = r;
                let cy = self.getFlag(Flags::Carry);
                self.setFlags(false, false, false, cy);
            },
            _ => {
            },
        }
    }

    #[verifier::rlimit(100)]
    #[verifier::spinoff_prover]
    fn execRow0_00b(&mut self, opcode: u8)
        requires
            old(self).wf(),
            0x08 <= opcode < 0x10,
        ensures
            unprefPost(*old(self), *final(self), opcode),
            final(self).model() == crate::step::row0Spec00(old(self).model(), opcode),
    {
        match opcode {
            0x08 => {  // LD (u16),SP
                if self.cyclesLeft == 2 {
                    let t = self.readBytes(self.pc.wrapping_add(1));
                    let lo = (self.sp % 256) as u8;
                    self.writeByte(t, lo);
                } else if self.cyclesLeft == 1 {
                    let t = self.readBytes(self.pc.wrapping_add(1));
                    let hi = (self.sp / 256) as u8;
                    self.writeByte(t.wrapping_add(1), hi);
                }
            },
            0x09 => {  // ADD HL,BC
                if self.cyclesLeft == 1 {
                    let v = self.getBC();
                    self.addHL(v);
                }
            },
            0x0A => {  // LD A,(BC)
                if self.cyclesLeft == 1 {
                    let t = self.getBC();
                    self.a = self.readByte(t);
                }
            },
            0x0B => {  // DEC BC
                if self.cyclesLeft == 1 {
                    let v = self.getBC().wrapping_sub(1);
                    self.setBC(v);
                }
            },
            0x0C => {  // INC C
                let v = self.c;
                let r = self.inc8(v);
                self.c = r;
            },
            0x0D => {  // DEC C
                let v = self.c;
                let r = self.dec8(v);
                self.c = r;
            },
            0x0E => {  // LD C,u8
                if self.cyclesLeft == 1 {
                    self.c = self.readByte(self.pc.wrapping_add(1));
                }
            },
            0x0F => {  // RRCA (Zero forced clear)
                let v = self.a;
                let r = self.RRC(v);
                self.a = r;
                let cy = self.getFlag(Flags::Carry);
                self.setFlags(false, false, false, cy);
            },
            _ => {
            },
        }
    }

    #[verifier::rlimit(100)]
    #[verifier::spinoff_prover]
    fn execRow0_10a(&mut self, opcode: u8)
        requires
            old(self).wf(),
            0x10 <= opcode < 0x18,
        ensures
            unprefPost(*old(self), *final(self), opcode),
            final(self).model() == crate::step::row0Spec10(old(self).model(), opcode),
    {
        match opcode {
            0x10 => {  // STOP (treated as HALT on DMG)
                if self.cyclesLeft == 1 {
                    self.stopped = true;
                }
            },
            0x11 => {  // LD DE,u16
                if self.cyclesLeft == 2 {
                    self.e = self.readByte(self.pc.wrapping_add(1));
                } else if self.cyclesLeft == 1 {
                    self.d = self.readByte(self.pc.wrapping_add(2));
                }
            },
            0x12 => {  // LD (DE),A
                if self.cyclesLeft == 1 {
                    let t = self.getDE();
                    let v = self.a;
                    self.writeByte(t, v);
                }
            },
            0x13 => {  // INC DE
                if self.cyclesLeft == 1 {
                    let v = self.getDE().wrapping_add(1);
                    self.setDE(v);
                }
            },
            0x14 => {  // INC D
                let v = self.d;
                let r = self.inc8(v);
                self.d = r;
            },
            0x15 => {  // DEC D
                let v = self.d;
                let r = self.dec8(v);
                self.d = r;
            },
            0x16 => {  // LD D,u8
                if self.cyclesLeft == 1 {
                    self.d = self.readByte(self.pc.wrapping_add(1));
                }
            },
            0x17 => {  // RLA (Zero forced clear)
                let v = self.a;
                let r = self.RL(v);
                self.a = r;
                let cy = self.getFlag(Flags::Carry);
                self.setFlags(false, false, false, cy);
            },
            _ => {
            },
        }
    }

    #[verifier::rlimit(100)]
    #[verifier::spinoff_prover]
    fn execRow0_10b(&mut self, opcode: u8)
        requires
            old(self).wf(),
            0x18 <= opcode < 0x20,
        ensures
            unprefPost(*old(self), *final(self), opcode),
            final(self).model() == crate::step::row0Spec10(old(self).model(), opcode),
    {
        match opcode {
            0x18 => {  // JR i8
                self.JR_CONDITIONAL(true);
            },
            0x19 => {  // ADD HL,DE
                if self.cyclesLeft == 1 {
                    let v = self.getDE();
                    self.addHL(v);
                }
            },
            0x1A => {  // LD A,(DE)
                if self.cyclesLeft == 1 {
                    let t = self.getDE();
                    self.a = self.readByte(t);
                }
            },
            0x1B => {  // DEC DE
                if self.cyclesLeft == 1 {
                    let v = self.getDE().wrapping_sub(1);
                    self.setDE(v);
                }
            },
            0x1C => {  // INC E
                let v = self.e;
                let r = self.inc8(v);
                self.e = r;
            },
            0x1D => {  // DEC E
                let v = self.e;
                let r = self.dec8(v);
                self.e = r;
            },
            0x1E => {  // LD E,u8
                if self.cyclesLeft == 1 {
                    self.e = self.readByte(self.pc.wrapping_add(1));
                }
            },
            0x1F => {  // RRA (Zero forced clear)
                let v = self.a;
                let r = self.RR(v);
                self.a = r;
                let cy = self.getFlag(Flags::Carry);
                self.setFlags(false, false, false, cy);
            },
            _ => {
            },
        }
    }

    #[verifier::rlimit(100)]
    #[verifier::spinoff_prover]
    fn execRow0_20a1(&mut self, opcode: u8)
        requires
            old(self).wf(),
            0x20 <= opcode < 0x24,
        ensures
            unprefPost(*old(self), *final(self), opcode),
            final(self).model() == crate::step::row0Spec20(old(self).model(), opcode),
    {
        match opcode {
            0x20 => {  // JR NZ,i8
                let cond = self.condHolds(opcode);
                self.JR_CONDITIONAL(cond);
            },
            0x21 => {  // LD HL,u16
                if self.cyclesLeft == 2 {
                    self.l = self.readByte(self.pc.wrapping_add(1));
                } else if self.cyclesLeft == 1 {
                    self.h = self.readByte(self.pc.wrapping_add(2));
                }
            },
            0x22 => {  // LD (HL+),A
                if self.cyclesLeft == 1 {
                    let t = self.getHL();
                    let v = self.a;
                    self.writeByte(t, v);
                    self.setHL(t.wrapping_add(1));
                }
            },
            0x23 => {  // INC HL
                if self.cyclesLeft == 1 {
                    let v = self.getHL().wrapping_add(1);
                    self.setHL(v);
                }
            },
            _ => {
            },
        }
    }

    #[verifier::rlimit(100)]
    #[verifier::spinoff_prover]
    fn execRow0_20a2(&mut self, opcode: u8)
        requires
            old(self).wf(),
            0x24 <= opcode < 0x28,
        ensures
            unprefPost(*old(self), *final(self), opcode),
            final(self).model() == crate::step::row0Spec20(old(self).model(), opcode),
    {
        match opcode {
            0x24 => {  // INC H
                let v = self.h;
                let r = self.inc8(v);
                self.h = r;
            },
            0x25 => {  // DEC H
                let v = self.h;
                let r = self.dec8(v);
                self.h = r;
            },
            0x26 => {  // LD H,u8
                if self.cyclesLeft == 1 {
                    self.h = self.readByte(self.pc.wrapping_add(1));
                }
            },
            0x27 => {  // DAA
                self.daaApply();
            },
            _ => {
            },
        }
    }

    #[verifier::rlimit(100)]
    #[verifier::spinoff_prover]
    fn execRow0_20b(&mut self, opcode: u8)
        requires
            old(self).wf(),
            0x28 <= opcode < 0x30,
        ensures
            unprefPost(*old(self), *final(self), opcode),
            final(self).model() == crate::step::row0Spec20(old(self).model(), opcode),
    {
        match opcode {
            0x28 => {  // JR Z,i8
                let cond = self.condHolds(opcode);
                self.JR_CONDITIONAL(cond);
            },
            0x29 => {  // ADD HL,HL
                if self.cyclesLeft == 1 {
                    let v = self.getHL();
                    self.addHL(v);
                }
            },
            0x2A => {  // LD A,(HL+)
                if self.cyclesLeft == 1 {
                    let t = self.getHL();
                    self.a = self.readByte(t);
                    self.setHL(t.wrapping_add(1));
                }
            },
            0x2B => {  // DEC HL
                if self.cyclesLeft == 1 {
                    let v = self.getHL().wrapping_sub(1);
                    self.setHL(v);
                }
            },
            0x2C => {  // INC L
                let v = self.l;
                let r = self.inc8(v);
                self.l = r;
            },
            0x2D => {  // DEC L
                let v = self.l;
                let r = self.dec8(v);
                self.l = r;
            },
            0x2E => {  // LD L,u8
                if self.cyclesLeft == 1 {
                    self.l = self.readByte(self.pc.wrapping_add(1));
                }
            },
            0x2F => {  // CPL
                let z = self.getFlag(Flags::Zero);
                let cy = self.getFlag(Flags::Carry);
                self.a = !self.a;
                self.setFlags(z, true, true, cy);
            },
            _ => {
            },
        }
    }

    #[verifier::rlimit(100)]
    #[verifier::spinoff_prover]
    fn execRow0_30a(&mut self, opcode: u8)
        requires
            old(self).wf(),
            0x30 <= opcode < 0x38,
        ensures
            unprefPost(*old(self), *final(self), opcode),
            final(self).model() == crate::step::row0Spec30(old(self).model(), opcode),
    {
        match opcode {
            0x30 => {  // JR NC,i8
                let cond = self.condHolds(opcode);
                self.JR_CONDITIONAL(cond);
            },
            0x31 => {  // LD SP,u16
                if self.cyclesLeft == 2 {
                    let lo = self.readByte(self.pc.wrapping_add(1));
                    self.sp = lo as u16;
                } else if self.cyclesLeft == 1 {
                    let hi = self.readByte(self.pc.wrapping_add(2));
                    self.sp = (hi as u16) * 256 + self.sp % 256;
                }
            },
            0x32 => {  // LD (HL-),A
                if self.cyclesLeft == 1 {
                    let t = self.getHL();
                    let v = self.a;
                    self.writeByte(t, v);
                    self.setHL(t.wrapping_sub(1));
                }
            },
            0x33 => {  // INC SP
                if self.cyclesLeft == 1 {
                    self.sp = self.sp.wrapping_add(1);
                }
            },
            0x34 => {  // INC (HL)
                if self.cyclesLeft == 2 {
                    let t = self.getHL();
                    self.fetched = self.readByte(t);
                } else if self.cyclesLeft == 1 {
                    let v = self.fetched;
                    let r = self.inc8(v);
                    let t = self.getHL();
                    self.writeByte(t, r);
                }
            },
            0x35 => {  // DEC (HL)
                if self.cyclesLeft == 2 {
                    let t = self.getHL();
                    self.fetched = self.readByte(t);
                } else if self.cyclesLeft == 1 {
                    let v = self.fetched;
                    let r = self.dec8(v);
                    let t = self.getHL();
                    self.writeByte(t, r);
                }
            },
            0x36 => {  // LD (HL),u8
                if self.cyclesLeft == 2 {
                    self.fetched = self.readByte(self.pc.wrapping_add(1));
                } else if self.cyclesLeft == 1 {
                    let t = self.getHL();
                    let v = self.fetched;
                    self.writeByte(t, v);
                }
            },
            0x37 => {  // SCF
                let z = self.getFlag(Flags::Zero);
                self.setFlags(z, false, false, true);
            },
            _ => {
            },
        }
    }

    #[verifier::rlimit(100)]
    #[verifier::spinoff_prover]
    fn execRow0_30b(&mut self, opcode: u8)
        requires
            old(self).wf(),
            0x38 <= opcode < 0x40,
        ensures
            unprefPost(*old(self), *final(self), opcode),
            final(self).model() == crate::step::row0Spec30(old(self).model(), opcode),
    {
        match opcode {
            0x38 => {  // JR C,i8
                let cond = self.condHolds(opcode);
                self.JR_CONDITIONAL(cond);
            },
            0x39 => {  // ADD HL,SP
                if self.cyclesLeft == 1 {
                    let v = self.sp;
                    self.addHL(v);
                }
            },
            0x3A => {  // LD A,(HL-)
                if self.cyclesLeft == 1 {
                    let t = self.getHL();
                    self.a = self.readByte(t);
                    self.setHL(t.wrapping_sub(1));
                }
            },
            0x3B => {  // DEC SP
                if self.cyclesLeft == 1 {
                    self.sp = self.sp.wrapping_sub(1);
                }
            },
            0x3C => {  // INC A
                let v = self.a;
                let r = self.inc8(v);
                self.a = r;
            },
            0x3D => {  // DEC A
                let v = self.a;
                let r = self.dec8(v);
                self.a = r;
            },
            0x3E => {  // LD A,u8
                if self.cyclesLeft == 1 {
                    self.a = self.readByte(self.pc.wrapping_add(1));
                }
            },
            0x3F => {  // CCF
                let z = self.getFlag(Flags::Zero);
                let cy = self.getFlag(Flags::Carry);
                self.setFlags(z, false, false, !cy);
            },
            _ => {
            },
        }
    }

    /// Opcodes 0x40-0x7F: the 8-bit register moves, the (HL) loads and
    /// stores, and HALT.
    fn execLoads(&mut self, opcode: u8)
        requires
            old(self).wf(),
            0x40 <= opcode < 0x80,
        ensures
            unprefPost(*old(self), *final(self), opcode),
            final(self).model() == crate::step::loadsSpec(old(self).model(), opcode),
    {
        if opcode == 0x76 {  // HALT
            if self.cyclesLeft == 1 {
                self.halted = true;
            }
        } else if opcode % 8 == 6 {
            self.execLoadFromHL(opcode);
        } else if 0x70 <= opcode && opcode < 0x78 {
            self.execLoadToHL(opcode);
        } else {
            self.execLoadRegReg(opcode);
        }
    }

    /// LD r,(HL): the read lands on the final cycle.
    #[verifier::rlimit(100)]
    #[verifier::spinoff_prover]
    fn execLoadFromHL(&mut self, opcode: u8)
        requires
            old(self).wf(),
            0x40 <= opcode < 0x80,
            opcode % 8 == 6,
            opcode != 0x76,
        ensures
            unprefPost(*old(self), *final(self), opcode),
            final(self).model() == crate::step::loadsSpec(old(self).model(), opcode),
    {
        let dst = (opcode - 0x40) / 8;
        if self.cyclesLeft == 1 {
            let t = self.getHL();
            let v = self.readByte(t);
            self.setReg8(dst, v);
        }
    }

    /// LD (HL),r: the write lands on the final cycle.
    #[verifier::rlimit(100)]
    #[verifier::spinoff_prover]
    fn execLoadToHL(&mut self, opcode: u8)
        requires
            old(self).wf(),
            0x70 <= opcode < 0x78,
            opcode != 0x76,
        ensures
            unprefPost(*old(self), *final(self), opcode),
            final(self).model() == crate::step::loadsSpec(old(self).model(), opcode),
    {
        let src = opcode % 8;
        if self.cyclesLeft == 1 {
            let t = self.getHL();
            let v = self.getReg8(src);
            self.writeByte(t, v);
        }
    }

    /// LD r,r': a straight register copy in a single cycle.
    #[verifier::rlimit(100)]
    #[verifier::spinoff_prover]
    fn execLoadRegReg(&mut self, opcode: u8)
        requires
            old(self).wf(),
            0x40 <= opcode < 0x80,
            opcode % 8 != 6,
            !(0x70 <= opcode < 0x78),
        ensures
            unprefPost(*old(self), *final(self), opcode),
            final(self).model() == crate::step::loadsSpec(old(self).model(), opcode),
    {
        let dst = (opcode - 0x40) / 8;
        let src = opcode % 8;
        let v = self.getReg8(src);
        self.setReg8(dst, v);
    }

    /// Opcodes 0x80-0xBF: the 8-bit ALU block, operation `(opcode - 0x80)/8`
    /// on register `opcode % 8` or on (HL).
    #[verifier::rlimit(100)]
    #[verifier::spinoff_prover]
    fn execAlu(&mut self, opcode: u8)
        requires
            old(self).wf(),
            0x80 <= opcode < 0xC0,
        ensures
            unprefPost(*old(self), *final(self), opcode),
            final(self).model() == unprefCycleSpec(old(self).model(), opcode),
    {
        let src = opcode % 8;
        if src == 6 {
            self.execAluMem(opcode);
        } else {
            self.execAluReg(opcode);
        }
    }

    /// The (HL) operand forms of the ALU block: read on the first effective
    /// cycle, apply on the second.
    fn execAluMem(&mut self, opcode: u8)
        requires
            old(self).wf(),
            0x80 <= opcode < 0xC0,
            opcode % 8 == 6,
        ensures
            unprefPost(*old(self), *final(self), opcode),
            final(self).model() == crate::step::aluSpec(old(self).model(), opcode),
    {
        if opcode < 0xA0 {
            self.execAluMemA(opcode);
        } else {
            self.execAluMemB(opcode);
        }
    }

    #[verifier::rlimit(100)]
    #[verifier::spinoff_prover]
    fn execAluMemA(&mut self, opcode: u8)
        requires
            old(self).wf(),
            0x80 <= opcode < 0xA0,
            opcode % 8 == 6,
        ensures
            unprefPost(*old(self), *final(self), opcode),
            final(self).model() == crate::step::aluSpec(old(self).model(), opcode),
    {
        let kind = (opcode - 0x80) / 8;
        if self.cyclesLeft == 2 {
            let t = self.getHL();
            self.fetched = self.readByte(t);
        } else if self.cyclesLeft == 1 {
            let v = self.fetched;
            self.aluApply(kind, v);
        }
    }

    #[verifier::rlimit(100)]
    #[verifier::spinoff_prover]
    fn execAluMemB(&mut self, opcode: u8)
        requires
            old(self).wf(),
            0xA0 <= opcode < 0xC0,
            opcode % 8 == 6,
        ensures
            unprefPost(*old(self), *final(self), opcode),
            final(self).model() == crate::step::aluSpec(old(self).model(), opcode),
    {
        let kind = (opcode - 0x80) / 8;
        if self.cyclesLeft == 2 {
            let t = self.getHL();
            self.fetched = self.readByte(t);
        } else if self.cyclesLeft == 1 {
            let v = self.fetched;
            self.aluApply(kind, v);
        }
    }

    /// The register operand forms of the ALU block: a single cycle.
    fn execAluReg(&mut self, opcode: u8)
        requires
            old(self).wf(),
            0x80 <= opcode < 0xC0,
            opcode % 8 != 6,
        ensures
            unprefPost(*old(self), *final(self), opcode),
            final(self).model() == crate::step::aluSpec(old(self).model(), opcode),
    {
        if opcode < 0xA0 {
            self.execAluRegA(opcode);
        } else {
            self.execAluRegB(opcode);
        }
    }

    fn execAluRegA(&mut self, opcode: u8)
        requires
            old(self).wf(),
            0x80 <= opcode < 0xA0,
            opcode % 8 != 6,
        ensures
            unprefPost(*old(self), *final(self), opcode),
            final(self).model() == crate::step::aluSpec(old(self).model(), opcode),
    {
        if opcode < 0x90 {
            self.execAluRegA1(opcode);
        } else {
            self.execAluRegA2(opcode);
        }
    }

    #[verifier::rlimit(100)]
    #[verifier::spinoff_prover]
    fn execAluRegA1(&mut self, opcode: u8)
        requires
            old(self).wf(),
            0x80 <= opcode < 0x90,
            opcode % 8 != 6,
        ensures
            unprefPost(*old(self), *final(self), opcode),
            final(self).model() == crate::step::aluSpec(old(self).model(), opcode),
    {
        let kind = (opcode - 0x80) / 8;
        let src = opcode % 8;
        let v = self.getReg8(src);
        self.aluApply(kind, v);
    }

    #[verifier::rlimit(100)]
    #[verifier::spinoff_prover]
    fn execAluRegA2(&mut self, opcode: u8)
        requires
            old(self).wf(),
            0x90 <= opcode < 0xA0,
            opcode % 8 != 6,
        ensures
            unprefPost(*old(self), *final(self), opcode),
            final(self).model() == crate::step::aluSpec(old(self).model(), opcode),
    {
        let kind = (opcode - 0x80) / 8;
        let src = opcode % 8;
        let v = self.getReg8(src);
        self.aluApply(kind, v);
    }

    #[verifier::rlimit(100)]
    #[verifier::spinoff_prover]
    fn execAluRegB(&mut self, opcode: u8)
        requires
            old(self).wf(),
            0xA0 <= opcode < 0xC0,
            opcode % 8 != 6,
        ensures
            unprefPost(*old(self), *final(self), opcode),
            final(self).model() == crate::step::aluSpec(old(self).model(), opcode),
    {
        let kind = (opcode - 0x80) / 8;
        let src = opcode % 8;
        let v = self.getReg8(src);
        self.aluApply(kind, v);
    }

    /// Opcodes 0xC0-0xFF: stack, calls, returns, jumps, immediate ALU, the
    /// high-page loads, the 16-bit SP arithmetic, DI and EI.
    fn execRow3(&mut self, opcode: u8)
        requires
            old(self).wf(),
            0xC0 <= opcode,
        ensures
            unprefPost(*old(self), *final(self), opcode),
            final(self).model() == unprefCycleSpec(old(self).model(), opcode),
    {
        if opcode < 0xC9 {
            self.execRow3_C0a(opcode);
        } else if opcode < 0xD0 {
            self.execRow3_C0b(opcode);
        } else if opcode < 0xD8 {
            self.execRow3_D0a(opcode);
        } else if opcode < 0xE0 {
            self.execRow3_D0b(opcode);
        } else if opcode < 0xE8 {
            self.execRow3_E0a(opcode);
        } else if opcode < 0xF0 {
            self.execRow3_E0b(opcode);
        } else if opcode < 0xF8 {
            self.execRow3_F0a(opcode);
        } else {
            self.execRow3_F0b(opcode);
        }
    }

    #[verifier::rlimit(100)]
    #[verifier::spinoff_prover]
    fn execRow3_C0a(&mut self, opcode: u8)
        requires
            old(self).wf(),
            0xC0 <= opcode < 0xC9,
        ensures
            unprefPost(*old(self), *final(self), opcode),
            final(self).model() == crate::step::row3SpecC0(old(self).model(), opcode),
    {
        match opcode {
            0xC0 => {  // RET NZ
                let cond = self.condHolds(opcode);
                self.RET_CONDITIAL(cond);
            },
            0xC1 => {  // POP BC
                if self.cyclesLeft == 2 {
                    self.c = self.POP8();
                } else if self.cyclesLeft == 1 {
                    self.b = self.POP8();
                }
            },
            0xC2 => {  // JP NZ,u16
                let cond = self.condHolds(opcode);
                let t = self.readBytes(self.pc.wrapping_add(1));
                self.JP_CONDITIAL(cond, t);
            },
            0xC3 => {  // JP u16
                let t = self.readBytes(self.pc.wrapping_add(1));
                self.JP_CONDITIAL(true, t);
            },
            0xC4 => {  // CALL NZ,u16
                let cond = self.condHolds(opcode);
                let t = self.readBytes(self.pc.wrapping_add(1));
                self.CALL_CONDITIONAL(cond, t);
            },
            0xC5 => {  // PUSH BC
                if self.cyclesLeft == 2 {
                    let v = self.b;
                    self.PUSH8(v);
                } else if self.cyclesLeft == 1 {
                    let v = self.c;
                    self.PUSH8(v);
                }
            },
            0xC6 => {  // ADD A,u8
                if self.cyclesLeft == 2 {
                    self.fetched = self.readByte(self.pc.wrapping_add(1));
                } else if self.cyclesLeft == 1 {
                    let v = self.fetched;
                    self.aluApply(0, v);
                }
            },
            0xC7 => {  // RST 0x00
                self.RST(0x00);
            },
            0xC8 => {  // RET Z
                let cond = self.condHolds(opcode);
                self.RET_CONDITIAL(cond);
            },
            _ => {
            },
        }
    }

    #[verifier::rlimit(100)]
    #[verifier::spinoff_prover]
    fn execRow3_C0b(&mut self, opcode: u8)
        requires
            old(self).wf(),
            0xC9 <= opcode < 0xD0,
        ensures
            unprefPost(*old(self), *final(self), opcode),
            final(self).model() == crate::step::row3SpecC9(old(self).model(), opcode),
    {
        match opcode {
            0xC9 => {  // RET
                self.RET();
            },
            0xCA => {  // JP Z,u16
                let cond = self.condHolds(opcode);
                let t = self.readBytes(self.pc.wrapping_add(1));
                self.JP_CONDITIAL(cond, t);
            },
            0xCB => {  // CB prefix byte: handled wholly at fetch
            },
            0xCC => {  // CALL Z,u16
                let cond = self.condHolds(opcode);
                let t = self.readBytes(self.pc.wrapping_add(1));
                self.CALL_CONDITIONAL(cond, t);
            },
            0xCD => {  // CALL u16
                let t = self.readBytes(self.pc.wrapping_add(1));
                self.CALL_CONDITIONAL(true, t);
            },
            0xCE => {  // ADC A,u8
                if self.cyclesLeft == 2 {
                    self.fetched = self.readByte(self.pc.wrapping_add(1));
                } else if self.cyclesLeft == 1 {
                    let v = self.fetched;
                    self.aluApply(1, v);
                }
            },
            0xCF => {  // RST 0x08
                self.RST(0x08);
            },
            _ => {
            },
        }
    }

    #[verifier::rlimit(100)]
    #[verifier::spinoff_prover]
    fn execRow3_D0a(&mut self, opcode: u8)
        requires
            old(self).wf(),
            0xD0 <= opcode < 0xD8,
        ensures
            unprefPost(*old(self), *final(self), opcode),
            final(self).model() == crate::step::row3SpecD0(old(self).model(), opcode),
    {
        match opcode {
            0xD0 => {  // RET NC
                let cond = self.condHolds(opcode);
                self.RET_CONDITIAL(cond);
            },
            0xD1 => {  // POP DE
                if self.cyclesLeft == 2 {
                    self.e = self.POP8();
                } else if self.cyclesLeft == 1 {
                    self.d = self.POP8();
                }
            },
            0xD2 => {  // JP NC,u16
                let cond = self.condHolds(opcode);
                let t = self.readBytes(self.pc.wrapping_add(1));
                self.JP_CONDITIAL(cond, t);
            },
            0xD4 => {  // CALL NC,u16
                let cond = self.condHolds(opcode);
                let t = self.readBytes(self.pc.wrapping_add(1));
                self.CALL_CONDITIONAL(cond, t);
            },
            0xD5 => {  // PUSH DE
                if self.cyclesLeft == 2 {
                    let v = self.d;
                    self.PUSH8(v);
                } else if self.cyclesLeft == 1 {
                    let v = self.e;
                    self.PUSH8(v);
                }
            },
            0xD6 => {  // SUB A,u8
                if self.cyclesLeft == 2 {
                    self.fetched = self.readByte(self.pc.wrapping_add(1));
                } else if self.cyclesLeft == 1 {
                    let v = self.fetched;
                    self.aluApply(2, v);
                }
            },
            0xD7 => {  // RST 0x10
                self.RST(0x10);
            },
            _ => {
            },
        }
    }

    #[verifier::rlimit(100)]
    #[verifier::spinoff_prover]
    fn execRow3_D0b(&mut self, opcode: u8)
        requires
            old(self).wf(),
            0xD8 <= opcode < 0xE0,
        ensures
            unprefPost(*old(self), *final(self), opcode),
            final(self).model() == crate::step::row3SpecD0(old(self).model(), opcode),
    {
        match opcode {
            0xD8 => {  // RET C
                let cond = self.condHolds(opcode);
                self.RET_CONDITIAL(cond);
            },
            0xD9 => {  // RETI
                self.RETI();
            },
            0xDA => {  // JP C,u16
                let cond = self.condHolds(opcode);
                let t = self.readBytes(self.pc.wrapping_add(1));
                self.JP_CONDITIAL(cond, t);
            },
            0xDC => {  // CALL C,u16
                let cond = self.condHolds(opcode);
                let t = self.readBytes(self.pc.wrapping_add(1));
                self.CALL_CONDITIONAL(cond, t);
            },
            0xDE => {  // SBC A,u8
                if self.cyclesLeft == 2 {
                    self.fetched = self.readByte(self.pc.wrapping_add(1));
                } else if self.cyclesLeft == 1 {
                    let v = self.fetched;
                    self.aluApply(3, v);
                }
            },
            0xDF => {  // RST 0x18
                self.RST(0x18);
            },
            _ => {
            },
        }
    }

    #[verifier::rlimit(100)]
    #[verifier::spinoff_prover]
    fn execRow3_E0a(&mut self, opcode: u8)
        requires
            old(self).wf(),
            0xE0 <= opcode < 0xE8,
        ensures
            unprefPost(*old(self), *final(self), opcode),
            final(self).model() == crate::step::row3SpecE0(old(self).model(), opcode),
    {
        match opcode {
            0xE0 => {  // LD (0xFF00+u8),A
                if self.cyclesLeft == 2 {
                    self.fetched = self.readByte(self.pc.wrapping_add(1));
                } else if self.cyclesLeft == 1 {
                    let t = 0xFF00 + self.fetched as u16;
                    let v = self.a;
                    self.writeByte(t, v);
                }
            },
            0xE1 => {  // POP HL
                if self.cyclesLeft == 2 {
                    self.l = self.POP8();
                } else if self.cyclesLeft == 1 {
                    self.h = self.POP8();
                }
            },
            0xE2 => {  // LD (0xFF00+C),A
                if self.cyclesLeft == 1 {
                    let t = 0xFF00 + self.c as u16;
                    let v = self.a;
                    self.writeByte(t, v);
                }
            },
            0xE5 => {  // PUSH HL
                if self.cyclesLeft == 2 {
                    let v = self.h;
                    self.PUSH8(v);
                } else if self.cyclesLeft == 1 {
                    let v = self.l;
                    self.PUSH8(v);
                }
            },
            0xE6 => {  // AND A,u8
                if self.cyclesLeft == 2 {
                    self.fetched = self.readByte(self.pc.wrapping_add(1));
                } else if self.cyclesLeft == 1 {
                    let v = self.fetched;
                    self.aluApply(4, v);
                }
            },
            0xE7 => {  // RST 0x20
                self.RST(0x20);
            },
            _ => {
            },
        }
    }

    #[verifier::rlimit(100)]
    #[verifier::spinoff_prover]
    fn execRow3_E0b(&mut self, opcode: u8)
        requires
            old(self).wf(),
            0xE8 <= opcode < 0xF0,
        ensures
            unprefPost(*old(self), *final(self), opcode),
            final(self).model() == crate::step::row3SpecE0(old(self).model(), opcode),
    {
        match opcode {
            0xE8 => {  // ADD SP,i8
                if self.cyclesLeft == 1 {
                    let eu = self.readByte(self.pc.wrapping_add(1));
                    let half = self.sp % 16 + (eu % 16) as u16 > 15;
                    let carry = self.sp % 256 + eu as u16 > 255;
                    let off: u16 = if eu >= 0x80 {
                        eu as u16 + 0xFF00
                    } else {
                        eu as u16
                    };
                    self.sp = self.sp.wrapping_add(off);
                    self.setFlags(false, false, half, carry);
                }
            },
            0xE9 => {  // JP HL
                if self.cyclesLeft == 1 {
                    self.pc = self.getHL();
                    self.branchTaken = true;
                }
            },
            0xEA => {  // LD (u16),A
                if self.cyclesLeft == 1 {
                    let t = self.readBytes(self.pc.wrapping_add(1));
                    let v = self.a;
                    self.writeByte(t, v);
                }
            },
            0xEE => {  // XOR A,u8
                if self.cyclesLeft == 2 {
                    self.fetched = self.readByte(self.pc.wrapping_add(1));
                } else if self.cyclesLeft == 1 {
                    let v = self.fetched;
                    self.aluApply(5, v);
                }
            },
            0xEF => {  // RST 0x28
                self.RST(0x28);
            },
            _ => {
            },
        }
    }

    #[verifier::rlimit(100)]
    #[verifier::spinoff_prover]
    fn execRow3_F0a(&mut self, opcode: u8)
        requires
            old(self).wf(),
            0xF0 <= opcode < 0xF8,
        ensures
            unprefPost(*old(self), *final(self), opcode),
            final(self).model() == crate::step::row3SpecF0(old(self).model(), opcode),
    {
        match opcode {
            0xF0 => {  // LD A,(0xFF00+u8)
                if self.cyclesLeft == 2 {
                    self.fetched = self.readByte(self.pc.wrapping_add(1));
                } else if self.cyclesLeft == 1 {
                    let t = 0xFF00 + self.fetched as u16;
                    self.a = self.readByte(t);
                }
            },
            0xF1 => {  // POP AF (the low nibble of F reads back as zero)
                if self.cyclesLeft == 2 {
                    let v = self.POP8();
                    self.setF(v);
                } else if self.cyclesLeft == 1 {
                    self.a = self.POP8();
                }
            },
            0xF2 => {  // LD A,(0xFF00+C)
                if self.cyclesLeft == 1 {
                    let t = 0xFF00 + self.c as u16;
                    self.a = self.readByte(t);
                }
            },
            0xF3 => {  // DI (immediate, and cancels a pending EI)
                if self.cyclesLeft == 1 {
                    self.masterInterrupt = false;
                    self.eiPending = false;
                }
            },
            0xF5 => {  // PUSH AF
                if self.cyclesLeft == 2 {
                    let v = self.a;
                    self.PUSH8(v);
                } else if self.cyclesLeft == 1 {
                    let v = self.f;
                    self.PUSH8(v);
                }
            },
            0xF6 => {  // OR A,u8
                if self.cyclesLeft == 2 {
                    self.fetched = self.readByte(self.pc.wrapping_add(1));
                } else if self.cyclesLeft == 1 {
                    let v = self.fetched;
                    self.aluApply(6, v);
                }
            },
            0xF7 => {  // RST 0x30
                self.RST(0x30);
            },
            _ => {
            },
        }
    }

    #[verifier::rlimit(100)]
    #[verifier::spinoff_prover]
    fn execRow3_F0b(&mut self, opcode: u8)
        requires
            old(self).wf(),
            0xF8 <= opcode,
        ensures
            unprefPost(*old(self), *final(self), opcode),
            final(self).model() == crate::step::row3SpecF0(old(self).model(), opcode),
    {
        match opcode {
            0xF8 => {  // LD HL,SP+i8
                if self.cyclesLeft == 1 {
                    let eu = self.readByte(self.pc.wrapping_add(1));
                    let half = self.sp % 16 + (eu % 16) as u16 > 15;
                    let carry = self.sp % 256 + eu as u16 > 255;
                    let off: u16 = if eu >= 0x80 {
                        eu as u16 + 0xFF00
                    } else {
                        eu as u16
                    };
                    let v = self.sp.wrapping_add(off);
                    self.setHL(v);
                    self.setFlags(false, false, half, carry);
                }
            },
            0xF9 => {  // LD SP,HL
                if self.cyclesLeft == 1 {
                    self.sp = self.getHL();
                }
            },
            0xFA => {  // LD A,(u16)
                if self.cyclesLeft == 1 {
                    let t = self.readBytes(self.pc.wrapping_add(1));
                    self.a = self.readByte(t);
                }
            },
            0xFB => {  // EI (takes effect after the next instruction)
                if self.cyclesLeft == 1 {
                    self.eiPending = true;
                }
            },
            0xFE => {  // CP A,u8
                if self.cyclesLeft == 2 {
                    self.fetched = self.readByte(self.pc.wrapping_add(1));
                } else if self.cyclesLeft == 1 {
                    let v = self.fetched;
                    self.aluApply(7, v);
                }
            },
            0xFF => {  // RST 0x38
                self.RST(0x38);
            },
            _ => {  // illegal opcodes never reach execution: fetch rejects them
            },
        }
    }

    /// Execute the cycle of an unprefixed instruction scheduled at the
    /// current counter position.
    pub fn unprefixedOpcodes(&mut self, opcode: u8)
        requires
            old(self).wf(),
        ensures
            unprefPost(*old(self), *final(self), opcode),
            final(self).model() == unprefCycleSpec(old(self).model(), opcode),
    {
        if opcode < 0x40 {
            self.execRow0(opcode);
        } else if opcode < 0x80 {
            self.execLoads(opcode);
        } else if opcode < 0xC0 {
            self.execAlu(opcode);
        } else {
            self.execRow3(opcode);
        }
    }

    /// Execute the cycle of a CB-prefixed instruction scheduled at the
    /// current counter position: rotates/shifts, BIT, RES and SET, decoded as
    /// operation `opcode / 8` on target `opcode % 8`.
    pub fn prefixedOpcodes(&mut self, opcode: u8)
        requires
            old(self).wf(),
        ensures
            cycleFrame(*old(self), *final(self)),
            final(self).halted == old(self).halted,
            final(self).stopped == old(self).stopped,
            final(self).masterInterrupt == old(self).masterInterrupt,
            final(self).eiPending == old(self).eiPending,
            final(self).model() == prefCycleSpec(old(self).model(), opcode),
    {
        if opcode % 8 == 6 {
            self.prefixedOnMemory(opcode);
        } else {
            self.prefixedOnRegister(opcode);
        }
    }

    /// The (HL) forms of the CB-prefixed set: read the byte on one cycle,
    /// test it (BIT) or compute and write it back on the last.
    #[verifier::rlimit(100)]
    #[verifier::spinoff_prover]
    fn prefixedOnMemory(&mut self, opcode: u8)
        requires
            old(self).wf(),
            opcode % 8 == 6,
        ensures
            cycleFrame(*old(self), *final(self)),
            final(self).halted == old(self).halted,
            final(self).stopped == old(self).stopped,
            final(self).masterInterrupt == old(self).masterInterrupt,
            final(self).eiPending == old(self).eiPending,
            final(self).model() == prefCycleSpec(old(self).model(), opcode),
    {
        let kind = opcode / 8;
        if kind >= 8 && kind < 16 {
            // BIT n,(HL): read the byte, then test it
            if self.cyclesLeft == 2 {
                let hl = self.getHL();
                self.fetched = self.readByte(hl);
            } else if self.cyclesLeft == 1 {
                let v = self.fetched;
                self.BIT(v, kind - 8);
            }
        } else {
            // rotate/shift/RES/SET (HL): read, then compute and write back
            if self.cyclesLeft == 2 {
                let hl = self.getHL();
                self.fetched = self.readByte(hl);
            } else if self.cyclesLeft == 1 {
                let v = self.fetched;
                let r = if kind < 8 {
                    self.rotApply(kind, v)
                } else if kind < 24 {
                    self.RES(v, kind - 16)
                } else {
                    self.SET(v, kind - 24)
                };
                let hl = self.getHL();
                self.writeByte(hl, r);
            }
        }
    }

    /// The register forms of the CB-prefixed set: one effective cycle (the
    /// other was the CB fetch).
    #[verifier::rlimit(100)]
    #[verifier::spinoff_prover]
    fn prefixedOnRegister(&mut self, opcode: u8)
        requires
            old(self).wf(),
            opcode % 8 != 6,
        ensures
            cycleFrame(*old(self), *final(self)),
            final(self).halted == old(self).halted,
            final(self).stopped == old(self).stopped,
            final(self).masterInterrupt == old(self).masterInterrupt,
            final(self).eiPending == old(self).eiPending,
            final(self).model() == prefCycleSpec(old(self).model(), opcode),
    {
        let target = opcode % 8;
        let kind = opcode / 8;
        if self.cyclesLeft == 1 {
            let v = self.getReg8(target);
            if kind < 8 {
                let r = self.rotApply(kind, v);
                self.setReg8(target, r);
            } else if kind < 16 {
                self.BIT(v, kind - 8);
            } else if kind < 24 {
                let r = self.RES(v, kind - 16);
                self.setReg8(target, r);
            } else {
                let r = self.SET(v, kind - 24);
                self.setReg8(target, r);
            }
        }
    }

    /// Execute the work of the current M-cycle of the current instruction.
    pub fn executeOneCycle(&mut self, opcode: u8)
        requires
            old(self).wf(),
        ensures
            cycleFrame(*old(self), *final(self)),
            final(self).halted == (old(self).halted || (!old(self).prefixedInstruction && opcode
                == 0x76 && old(self).cyclesLeft == 1)),
            final(self).stopped == (old(self).stopped || (!old(self).prefixedInstruction && opcode
                == 0x10 && old(self).cyclesLeft == 1)),
            final(self).masterInterrupt == (if !old(self).prefixedInstruction && opcode == 0xF3
                && old(self).cyclesLeft == 1 {
                false
            } else if !old(self).prefixedInstruction && opcode == 0xD9 && old(self).cyclesLeft
                == 1 {
                true
            } else {
                old(self).masterInterrupt
            }),
            final(self).eiPending == (if !old(self).prefixedInstruction && opcode == 0xFB && old(self).cyclesLeft == 1 {
                true
            } else if !old(self).prefixedInstruction && opcode == 0xF3 && old(self).cyclesLeft
                == 1 {
                false
            } else {
                old(self).eiPending
            }),
            final(self).model() == (if old(self).prefixedInstruction {
                prefCycleSpec(old(self).model(), opcode)
            } else {
                unprefCycleSpec(old(self).model(), opcode)
            }),
    {
        if self.prefixedInstruction {
            self.prefixedOpcodes(opcode);
        } else {
            self.unprefixedOpcodes(opcode);
        }
    }

    /// Fetch the instruction at PC: reject an illegal opcode, latch the CB
    /// opcode of a prefixed instruction, and load the whole M-cycle budget
    /// into `cyclesLeft` (a conditional whose condition fails gets its
    /// not-taken count).
    pub fn fetchOpcode(&mut self) -> (r: Result<(), EmuError>)
        requires
            old(self).wf(),
        ensures
            final(self).wf(),
            r is Err ==> *final(self) == *old(self) && isIllegalSpec(
                readSpec(old(self).busModel(), old(self).pc),
            ) && r == Result::<(), EmuError>::Err(
                EmuError::IllegalOpcode(readSpec(old(self).busModel(), old(self).pc)),
            ),
            r is Ok ==> !isIllegalSpec(readSpec(old(self).busModel(), old(self).pc)),
            r is Ok && readSpec(old(self).busModel(), old(self).pc) == 0xCB ==> *final(self) == (
            Z80 {
                prefixedInstruction: true,
                currentOpcode: readSpec(old(self).busModel(), wadd(old(self).pc, 1)),
                cyclesLeft: (2 * prefCyclesSpec(
                    readSpec(old(self).busModel(), wadd(old(self).pc, 1)),
                )) as u8,
                justBooted: false,
                ..*old(self)
            }),
            r is Ok && readSpec(old(self).busModel(), old(self).pc) != 0xCB ==> *final(self) == (
            Z80 {
                prefixedInstruction: false,
                currentOpcode: readSpec(old(self).busModel(), old(self).pc),
                cyclesLeft: instrCyclesSpec(
                    readSpec(old(self).busModel(), old(self).pc),
                    old(self).f,
                ),
                justBooted: false,
                ..*old(self)
            }),
            r is Ok ==> final(self).cyclesLeft >= 1,
    {
        let op = self.readByte(self.pc);
        if crate::tables::isIllegal(op) {
            return Err(EmuError::IllegalOpcode(op));
        }
        self.justBooted = false;
        if op == 0xCB {
            let cb = self.readByte(self.pc.wrapping_add(1));
            self.prefixedInstruction = true;
            self.currentOpcode = cb;
            self.cyclesLeft = 2 * crate::tables::prefCyclesOf(cb);
        } else {
            self.prefixedInstruction = false;
            self.currentOpcode = op;
            let cond = crate::tables::hasCond(op);
            self.cyclesLeft = if cond && !self.condHolds(op) {
                crate::tables::notTakenCyclesOf(op)
            } else {
                crate::tables::unprefCyclesOf(op)
            };
        }
        Ok(())
    }

    /// At an instruction boundary with IME set and an interrupt both enabled
    /// and requested: acknowledge the lowest-numbered one — clear its IF bit,
    /// IME and the halt — and start the five-M-cycle dispatch to its vector.
    pub fn handleInterrupts(&mut self)
        requires
            old(self).wf(),
        ensures
            final(self).wf(),
            !(old(self).masterInterrupt && pendingMask(*old(self)) != 0) ==> *final(self) == *old(self),
            old(self).masterInterrupt && pendingMask(*old(self)) != 0 ==> {
                let i = lowestPending(pendingMask(*old(self)));
                &&& final(self).servicing && final(self).cyclesLeft == 5
                &&& !final(self).masterInterrupt && !final(self).halted
                &&& final(self).serviceAddr == vectorOf(i)
                &&& final(self).bus.interruptRequestRegister == (old(self).bus.interruptRequestRegister & !(1u8 << i))
                &&& *final(self) == (Z80 {
                    servicing: true,
                    cyclesLeft: 5u8,
                    masterInterrupt: false,
                    halted: false,
                    serviceAddr: vectorOf(i),
                    bus: final(self).bus,
                    ..*old(self)
                })
                &&& final(self).busModel() == (crate::bus::BusModel {
                    iflag: final(self).bus.interruptRequestRegister,
                    ..old(self).busModel()
                })
            },
    {
        let pend = self.bus.interruptEnableRegister & self.bus.interruptRequestRegister & 0x1F;
        if self.masterInterrupt && pend != 0 {
            let i: u8 = if pend & 1 != 0 {
                0
            } else if pend & 2 != 0 {
                1
            } else if pend & 4 != 0 {
                2
            } else if pend & 8 != 0 {
                3
            } else {
                4
            };
            self.bus.interruptRequestRegister = self.bus.interruptRequestRegister & !(1u8 << i);
            self.masterInterrupt = false;
            self.halted = false;
            self.servicing = true;
            self.serviceAddr = 0x40 + 8 * (i as u16);
            self.cyclesLeft = 5;
        }
    }

    /// The parked machine's cycle: halted or stopped, the timer still ticks
    /// and a pending enabled interrupt wakes the CPU — dispatching when IME
    /// is set, fetching otherwise.
    #[verifier::rlimit(100)]
    #[verifier::spinoff_prover]
    fn clockParked(&mut self) -> (r: Result<(), EmuError>)
        requires
            old(self).wf(),
            old(self).halted || old(self).stopped,
        ensures
            final(self).wf(),
            final(self).model() == clockPostSpec(old(self).model()),
            r is Ok <==> clockOkSpec(old(self).model()),
            r is Err ==> (r matches Result::Err(EmuError::IllegalOpcode(_))),
            (old(self).halted && (old(self).bus.interruptEnableRegister & ifAfterTick(*old(self))
                & 0x1F) == 0) ==> final(self).halted,
            (old(self).halted && (old(self).bus.interruptEnableRegister & ifAfterTick(*old(self))
                & 0x1F) != 0) ==> !final(self).halted,
    {
        let ghost m0 = old(self).model();
        self.bus.tick();
        proof {
            assert(self.model() == (crate::cpu::CpuModel {
                bus: crate::step::tickedBusSpec(m0.bus),
                ..m0
            }));
        }
        let ghost m1 = self.model();
        let pend = self.bus.interruptEnableRegister & self.bus.interruptRequestRegister & 0x1F;
        if pend != 0 {
            self.halted = false;
            self.stopped = false;
            let ghost m2 = self.model();
            if self.masterInterrupt {
                self.handleInterrupts();
                proof {
                    assert(self.model() == crate::step::dispatchCheckSpec(m2));
                }
            } else {
                match self.fetchOpcode() {
                    Ok(()) => {
                        proof {
                            assert(self.model() == crate::step::fetchedSpec(m2));
                        }
                    },
                    Err(e) => {
                        return Err(e);
                    },
                }
            }
        }
        Ok(())
    }

    /// The instruction boundary (not a dispatch landing): advance PC past the
    /// retired instruction unless a branch wrote it, apply a delayed EI, let
    /// a fresh HALT with something already pending fall through, dispatch
    /// interrupts, and fetch the next opcode unless the machine parked or
    /// entered a dispatch.
    #[verifier::rlimit(100)]
    #[verifier::spinoff_prover]
    fn clockBoundary(&mut self) -> (r: Result<(), EmuError>)
        requires
            old(self).wf(),
            old(self).cyclesLeft == 0,
            !old(self).servicing,
        ensures
            final(self).wf(),
            final(self).model() == crate::step::boundaryStepSpec(old(self).model()),
            r is Ok <==> crate::step::boundaryStepOk(old(self).model()),
            r is Err ==> (r matches Result::Err(EmuError::IllegalOpcode(_))),
            // a pending EI lands now, unless this very instruction was the EI
            (old(self).eiPending && !(old(self).currentOpcode == 0xFB && !old(self).prefixedInstruction)) ==> ((final(self).masterInterrupt || final(self).servicing)
                && !final(self).eiPending),
            // at the EI's own boundary the enable stays pending and IME stays off
            (old(self).eiPending && old(self).currentOpcode == 0xFB && !old(self).prefixedInstruction && !old(self).masterInterrupt) ==> (!final(self).masterInterrupt && final(self).eiPending),
            // a dispatch begun here costs five M-cycles with IME off
            final(self).servicing ==> (final(self).cyclesLeft == 5 && !final(self).masterInterrupt),
    {
        let ghost mC = old(self).model();
        let op = self.currentOpcode;
        let pref = self.prefixedInstruction;
        if !self.branchTaken {
            let len = if pref {
                2
            } else {
                crate::tables::unprefLengthOf(op)
            };
            self.pc = self.pc.wrapping_add(len as u16);
        }
        self.branchTaken = false;
        // delayed EI: an enable scheduled before this instruction turns IME on now
        if self.eiPending && !(op == 0xFB && !pref) {
            self.masterInterrupt = true;
            self.eiPending = false;
        }
        // HALT with an interrupt already pending falls through at once
        if self.halted || self.stopped {
            let pend = self.bus.interruptEnableRegister & self.bus.interruptRequestRegister
                & 0x1F;
            if pend != 0 {
                self.halted = false;
                self.stopped = false;
            }
        }
        self.handleInterrupts();
        let ghost mD = self.model();
        proof {
            assert(mD == crate::step::boundarySpec(mC));
        }
        if self.servicing {
            // dispatch set up; its five cycles run next
        } else if self.halted || self.stopped {
            // parked until an interrupt is requested
        } else {
            match self.fetchOpcode() {
                Ok(()) => {
                    proof {
                        assert(self.model() == crate::step::fetchedSpec(mD));
                    }
                },
                Err(e) => {
                    return Err(e);
                },
            }
        }
        Ok(())
    }

    /// Advance the machine by exactly one M-cycle: run the cycle's work (or
    /// idle while halted), tick the timer, and at an instruction boundary
    /// advance PC, apply a delayed EI, dispatch interrupts and fetch the next
    /// opcode.  The whole step equals `clockPostSpec` of the old state; the
    /// only failure is an illegal opcode at a fetch, and the call fails
    /// exactly when `clockOkSpec` denies it.
    #[verifier::rlimit(100)]
    #[verifier::spinoff_prover]
    pub fn clock(&mut self) -> (r: Result<(), EmuError>)
        requires
            old(self).wf(),
        ensures
            final(self).wf(),
            // the whole machine cycle, pinned to the model-level step
            final(self).model() == clockPostSpec(old(self).model()),
            r is Ok <==> clockOkSpec(old(self).model()),
            // the flag-nibble law: F's low nibble is zero after every cycle
            final(self).f % 16 == 0,
            r is Err ==> (r matches Result::Err(EmuError::IllegalOpcode(_))),
            // mid-instruction: the counter falls by one and the bookkeeping stands still
            (!old(self).halted && !old(self).stopped && old(self).cyclesLeft > 1) ==> (r is Ok
                && final(self).cyclesLeft == old(self).cyclesLeft - 1 && final(self).servicing
                == old(self).servicing && final(self).serviceAddr == old(self).serviceAddr && final(self).currentOpcode == old(self).currentOpcode && final(self).prefixedInstruction == old(self).prefixedInstruction && final(self).halted == old(self).halted && final(self).stopped
                == old(self).stopped && (old(self).servicing ==> final(self).masterInterrupt == old(self).masterInterrupt)),
            // the dispatch lands: after its fifth cycle PC is at the vector and IME is still off
            (!old(self).halted && !old(self).stopped && old(self).servicing && old(self).cyclesLeft
                == 1) ==> (final(self).pc == old(self).serviceAddr && final(self).masterInterrupt
                == old(self).masterInterrupt && !final(self).servicing),
            // EI's one-instruction delay, positive half: when an instruction other than EI
            // itself (or the cancelling DI) completes with an enable pending, IME is on
            // afterwards unless a dispatch consumed it at this same boundary
            (!old(self).halted && !old(self).stopped && !old(self).servicing && old(self).cyclesLeft == 1 && old(self).eiPending && !(old(self).currentOpcode == 0xFB && !old(self).prefixedInstruction) && !(old(self).currentOpcode == 0xF3 && !old(self).prefixedInstruction)) ==> ((final(self).masterInterrupt || final(self).servicing)
                && !final(self).eiPending),
            // EI's one-instruction delay, negative half: EI's own retirement leaves IME off,
            // so IME is still off while the following instruction runs
            (!old(self).halted && !old(self).stopped && !old(self).servicing && old(self).cyclesLeft == 1 && old(self).currentOpcode == 0xFB && !old(self).prefixedInstruction && !old(self).eiPending && !old(self).masterInterrupt) ==> (!final(self).masterInterrupt && final(self).eiPending),
            // a dispatch begun at this boundary is budgeted exactly five M-cycles, IME off
            (!old(self).halted && !old(self).stopped && !old(self).servicing && final(self).servicing) ==> (final(self).cyclesLeft == 5 && !final(self).masterInterrupt),
            // a halted CPU with no enabled interrupt pending after the tick stays halted
            (old(self).halted && (old(self).bus.interruptEnableRegister & ifAfterTick(*old(self))
                & 0x1F) == 0) ==> final(self).halted,
            // any enabled pending interrupt wakes it, with or without IME
            (old(self).halted && (old(self).bus.interruptEnableRegister & ifAfterTick(*old(self))
                & 0x1F) != 0) ==> !final(self).halted,
    {
        let ghost m0 = old(self).model();
        // parked: a halted or stopped CPU still ticks the timer and watches IF
        if self.halted || self.stopped {
            let r = self.clockParked();
            return r;
        }
        // a fresh machine has nothing fetched yet
        if self.cyclesLeft == 0 {
            match self.fetchOpcode() {
                Ok(()) => {},
                Err(e) => {
                    return Err(e);
                },
            }
        }
        let ghost mA = self.model();
        proof {
            assert(mA == if m0.cyclesLeft == 0 {
                crate::step::fetchedSpec(m0)
            } else {
                m0
            });
        }
        // the cycle's work, then the timer
        if self.servicing {
            let addr = self.serviceAddr;
            self.INT(addr);
        } else {
            let op = self.currentOpcode;
            self.executeOneCycle(op);
        }
        proof {
            assert(self.model() == crate::step::workCycleSpec(mA));
        }
        let ghost mB = self.model();
        self.bus.tick();
        self.cyclesLeft = self.cyclesLeft - 1;
        let ghost mC = self.model();
        proof {
            assert(mC == (crate::cpu::CpuModel {
                bus: crate::step::tickedBusSpec(mB.bus),
                cyclesLeft: (mB.cyclesLeft - 1) as u8,
                ..mB
            }));
        }
        if self.cyclesLeft > 0 {
            return Ok(());
        }
        // instruction boundary
        if self.servicing {
            // the dispatch has landed: fetch from the vector
            self.servicing = false;
            let ghost mD = self.model();
            match self.fetchOpcode() {
                Ok(()) => {
                    proof {
                        assert(self.model() == crate::step::fetchedSpec(mD));
                    }
                },
                Err(e) => {
                    return Err(e);
                },
            }
            return Ok(());
        }
        let r = self.clockBoundary();
        r
    }

    /// Run `clock` to the end of the current instruction (or of the dispatch
    /// in progress) and report how many M-cycles it took: always exactly the
    /// budget that fetch loaded — the taken or not-taken count of a
    /// conditional, five for an interrupt dispatch.
    pub fn stepInstruction(&mut self) -> (r: Result<u8, EmuError>)
        requires
            old(self).wf(),
            !old(self).halted,
            !old(self).stopped,
            old(self).cyclesLeft >= 1,
        ensures
            final(self).wf(),
            r matches Ok(n) ==> n == old(self).cyclesLeft,
            r is Ok ==> final(self).model() == clockStepsSpec(
                old(self).model(),
                old(self).cyclesLeft as nat,
            ),
            old(self).servicing && r is Ok ==> final(self).pc == old(self).serviceAddr && final(self).masterInterrupt == old(self).masterInterrupt,
    {
        let total = self.cyclesLeft;
        let mut done: u8 = 0;
        while done + 1 < total
            invariant
                self.wf(),
                !self.halted,
                !self.stopped,
                done < total,
                self.cyclesLeft == total - done,
                self.model() == clockStepsSpec(old(self).model(), done as nat),
                self.servicing == old(self).servicing,
                self.serviceAddr == old(self).serviceAddr,
                old(self).servicing ==> self.masterInterrupt == old(self).masterInterrupt,
            decreases total - done,
        {
            let res = self.clock();
            match res {
                Ok(()) => {},
                Err(e) => {
                    return Err(e);
                },
            }
            done = done + 1;
        }
        let res = self.clock();
        match res {
            Ok(()) => Ok(total),
            Err(e) => Err(e),
        }
    }
}

} // verus!
