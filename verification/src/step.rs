//! The machine cycle as mathematics.  Spec-level interpreters for one
//! execution cycle of every unprefixed and CB-prefixed opcode, for the
//! interrupt-dispatch cycles, and for a whole `clock` step — timer tick,
//! boundary PC advance, delayed EI, halt wake, interrupt dispatch and the
//! next fetch included.  The execution layer's contracts equate the machine
//! with these functions, so a body that skipped any of an instruction's work
//! could not verify.

use vstd::prelude::*;

use crate::bus::BusModel;
use crate::bus::readSpec;
use crate::bus::writeSpec;
use crate::cpu::CpuModel;
use crate::cpu::adcVal;
use crate::cpu::addVal;
use crate::cpu::daaCarry;
use crate::cpu::daaVal;
use crate::cpu::flagCSpec;
use crate::cpu::flagHSpec;
use crate::cpu::flagNSpec;
use crate::cpu::flagZSpec;
use crate::cpu::flagsByte;
use crate::cpu::hi8;
use crate::cpu::lo8;
use crate::cpu::pair16;
use crate::cpu::rlVal;
use crate::cpu::rlcVal;
use crate::cpu::rrVal;
use crate::cpu::rrcVal;
use crate::cpu::sbcVal;
use crate::cpu::signedOffset;
use crate::cpu::slaVal;
use crate::cpu::sraVal;
use crate::cpu::srlVal;
use crate::cpu::subVal;
use crate::cpu::swapVal;
use crate::cpu::wadd;
use crate::cpu::wsub;
use crate::tables::condHoldsSpec;
use crate::tables::instrCyclesSpec;
use crate::tables::isIllegalSpec;
use crate::tables::prefCyclesSpec;
use crate::tables::unprefLengthSpec;
use crate::timer::tickIrqSpec;
use crate::timer::tickedTimers;

verus! {

// ---------------------------------------------------------------------------
// Decode-level values shared with the executable dispatchers
// ---------------------------------------------------------------------------
/// Accumulator value after 8-bit ALU operation `kind` (ADD, ADC, SUB, SBC,
/// AND, XOR, OR, CP in table order) with operand `v`; CP leaves A alone.
pub open spec fn aluAVal(kind: u8, a: u8, v: u8, cin: bool) -> u8 {
    if kind == 0 {
        addVal(a, v)
    } else if kind == 1 {
        adcVal(a, v, cin)
    } else if kind == 2 {
        subVal(a, v)
    } else if kind == 3 {
        sbcVal(a, v, cin)
    } else if kind == 4 {
        a & v
    } else if kind == 5 {
        a ^ v
    } else if kind == 6 {
        a | v
    } else {
        a
    }
}

/// Flag byte after 8-bit ALU operation `kind` with operand `v`.
pub open spec fn aluFVal(kind: u8, a: u8, v: u8, cin: bool) -> u8 {
    let ci: int = if cin {
        1
    } else {
        0
    };
    if kind == 0 {
        flagsByte(addVal(a, v) == 0, false, a % 16 + v % 16 > 15, a + v > 255)
    } else if kind == 1 {
        flagsByte(adcVal(a, v, cin) == 0, false, a % 16 + v % 16 + ci > 15, a + v + ci > 255)
    } else if kind == 2 {
        flagsByte(subVal(a, v) == 0, true, a % 16 < v % 16, a < v)
    } else if kind == 3 {
        flagsByte(sbcVal(a, v, cin) == 0, true, a % 16 < v % 16 + ci, (a as int) < v + ci)
    } else if kind == 4 {
        flagsByte((a & v) == 0, false, true, false)
    } else if kind == 5 {
        flagsByte((a ^ v) == 0, false, false, false)
    } else if kind == 6 {
        flagsByte((a | v) == 0, false, false, false)
    } else {
        flagsByte(subVal(a, v) == 0, true, a % 16 < v % 16, a < v)
    }
}

/// Result byte of rotate/shift operation `kind` (RLC, RRC, RL, RR, SLA, SRA,
/// SWAP, SRL in table order) applied to `v` with carry-in `cin`.
pub open spec fn shiftVal(kind: u8, v: u8, cin: bool) -> u8 {
    if kind == 0 {
        rlcVal(v)
    } else if kind == 1 {
        rrcVal(v)
    } else if kind == 2 {
        rlVal(v, cin)
    } else if kind == 3 {
        rrVal(v, cin)
    } else if kind == 4 {
        slaVal(v)
    } else if kind == 5 {
        sraVal(v)
    } else if kind == 6 {
        swapVal(v)
    } else {
        srlVal(v)
    }
}

/// Carry produced by rotate/shift operation `kind` on `v`.
pub open spec fn shiftCarry(kind: u8, v: u8) -> bool {
    if kind == 0 || kind == 2 || kind == 4 {
        v >= 128
    } else if kind == 6 {
        false
    } else {
        v % 2 == 1
    }
}

/// Index of the lowest set bit of a nonzero pending mask: the interrupt with
/// dispatch priority.
pub open spec fn lowestPending(p: u8) -> u8 {
    if p & 1 != 0 {
        0
    } else if p & 2 != 0 {
        1
    } else if p & 4 != 0 {
        2
    } else if p & 8 != 0 {
        3
    } else {
        4
    }
}

/// The dispatch vector of interrupt bit `i`.
pub open spec fn vectorOf(i: u8) -> u16 {
    (0x40 + 8 * i) as u16
}

// ---------------------------------------------------------------------------
// Model helpers
// ---------------------------------------------------------------------------
pub open spec fn hlOf(m: CpuModel) -> u16 {
    pair16(m.h, m.l)
}

pub open spec fn bcOf(m: CpuModel) -> u16 {
    pair16(m.b, m.c)
}

pub open spec fn deOf(m: CpuModel) -> u16 {
    pair16(m.d, m.e)
}

/// The 8-bit register of operand index `i` (6, the (HL) slot, handled by the
/// callers).
pub open spec fn regM(m: CpuModel, i: u8) -> u8 {
    if i == 0 {
        m.b
    } else if i == 1 {
        m.c
    } else if i == 2 {
        m.d
    } else if i == 3 {
        m.e
    } else if i == 4 {
        m.h
    } else if i == 5 {
        m.l
    } else {
        m.a
    }
}

/// The machine with the 8-bit register of index `i` replaced by `v`.
pub open spec fn setRegM(m: CpuModel, i: u8, v: u8) -> CpuModel {
    if i == 0 {
        CpuModel { b: v, ..m }
    } else if i == 1 {
        CpuModel { c: v, ..m }
    } else if i == 2 {
        CpuModel { d: v, ..m }
    } else if i == 3 {
        CpuModel { e: v, ..m }
    } else if i == 4 {
        CpuModel { h: v, ..m }
    } else if i == 5 {
        CpuModel { l: v, ..m }
    } else {
        CpuModel { a: v, ..m }
    }
}

/// The little-endian 16-bit word at `addr`.
pub open spec fn word16At(b: BusModel, addr: u16) -> u16 {
    pair16(readSpec(b, wadd(addr, 1)), readSpec(b, addr))
}

/// One byte pushed: SP falls by one, the byte lands at the new SP.
pub open spec fn pushM(m: CpuModel, v: u8) -> CpuModel {
    CpuModel { sp: wsub(m.sp, 1), bus: writeSpec(m.bus, wsub(m.sp, 1), v), ..m }
}

/// The final cycle of RET, RET cc and RETI: pop PC low byte first.
pub open spec fn retM(m: CpuModel) -> CpuModel {
    CpuModel { pc: word16At(m.bus, m.sp), sp: wadd(m.sp, 2), branchTaken: true, ..m }
}

/// The final cycle of a taken JR: displacement applied to the address after
/// the two-byte instruction.
pub open spec fn jrM(m: CpuModel) -> CpuModel {
    CpuModel {
        pc: wadd(wadd(m.pc, 2), signedOffset(readSpec(m.bus, wadd(m.pc, 1)))),
        branchTaken: true,
        ..m
    }
}

/// INC r: result and flags (Carry kept).
pub open spec fn incFlags(m: CpuModel, v: u8) -> u8 {
    flagsByte(addVal(v, 1) == 0, false, v % 16 == 15, flagCSpec(m.f))
}

/// DEC r: result and flags (Carry kept).
pub open spec fn decFlags(m: CpuModel, v: u8) -> u8 {
    flagsByte(subVal(v, 1) == 0, true, v % 16 == 0, flagCSpec(m.f))
}

/// ADD HL,rr on its final cycle.
pub open spec fn addHlM(m: CpuModel, rr: u16) -> CpuModel {
    let hl = hlOf(m);
    CpuModel {
        h: hi8(wadd(hl, rr)),
        l: lo8(wadd(hl, rr)),
        f: flagsByte(flagZSpec(m.f), false, hl % 4096 + rr % 4096 > 4095, hl + rr > 65535),
        ..m
    }
}

/// ADD SP,e / LD HL,SP+e flags: an 8-bit add of SP's low byte and the raw
/// displacement byte.
pub open spec fn spOffsetFlags(m: CpuModel, e: u8) -> u8 {
    flagsByte(false, false, m.sp % 16 + e % 16 > 15, m.sp % 256 + e > 255)
}

// ---------------------------------------------------------------------------
// One execution cycle of an unprefixed opcode
// ---------------------------------------------------------------------------
pub open spec fn row0Spec00(m: CpuModel, op: u8) -> CpuModel {
    if op == 0x00 {  // NOP
        m
    } else if op == 0x01 {  // LD BC,u16
        if m.cyclesLeft == 2 {
            CpuModel { c: readSpec(m.bus, wadd(m.pc, 1)), ..m }
        } else if m.cyclesLeft == 1 {
            CpuModel { b: readSpec(m.bus, wadd(m.pc, 2)), ..m }
        } else {
            m
        }
    } else if op == 0x02 {  // LD (BC),A
        if m.cyclesLeft == 1 {
            CpuModel { bus: writeSpec(m.bus, bcOf(m), m.a), ..m }
        } else {
            m
        }
    } else if op == 0x03 {  // INC BC
        if m.cyclesLeft == 1 {
            CpuModel { b: hi8(wadd(bcOf(m), 1)), c: lo8(wadd(bcOf(m), 1)), ..m }
        } else {
            m
        }
    } else if op == 0x04 {  // INC B
        CpuModel { b: addVal(m.b, 1), f: incFlags(m, m.b), ..m }
    } else if op == 0x05 {  // DEC B
        CpuModel { b: subVal(m.b, 1), f: decFlags(m, m.b), ..m }
    } else if op == 0x06 {  // LD B,u8
        if m.cyclesLeft == 1 {
            CpuModel { b: readSpec(m.bus, wadd(m.pc, 1)), ..m }
        } else {
            m
        }
    } else if op == 0x07 {  // RLCA (Zero forced clear)
        CpuModel { a: rlcVal(m.a), f: flagsByte(false, false, false, m.a >= 128), ..m }
    } else if op == 0x08 {  // LD (u16),SP
        if m.cyclesLeft == 2 {
            CpuModel { bus: writeSpec(m.bus, word16At(m.bus, wadd(m.pc, 1)), lo8(m.sp)), ..m }
        } else if m.cyclesLeft == 1 {
            CpuModel {
                bus: writeSpec(m.bus, wadd(word16At(m.bus, wadd(m.pc, 1)), 1), hi8(m.sp)),
                ..m
            }
        } else {
            m
        }
    } else if op == 0x09 {  // ADD HL,BC
        if m.cyclesLeft == 1 {
            addHlM(m, bcOf(m))
        } else {
            m
        }
    } else if op == 0x0A {  // LD A,(BC)
        if m.cyclesLeft == 1 {
            CpuModel { a: readSpec(m.bus, bcOf(m)), ..m }
        } else {
            m
        }
    } else if op == 0x0B {  // DEC BC
        if m.cyclesLeft == 1 {
            CpuModel { b: hi8(wsub(bcOf(m), 1)), c: lo8(wsub(bcOf(m), 1)), ..m }
        } else {
            m
        }
    } else if op == 0x0C {  // INC C
        CpuModel { c: addVal(m.c, 1), f: incFlags(m, m.c), ..m }
    } else if op == 0x0D {  // DEC C
        CpuModel { c: subVal(m.c, 1), f: decFlags(m, m.c), ..m }
    } else if op == 0x0E {  // LD C,u8
        if m.cyclesLeft == 1 {
            CpuModel { c: readSpec(m.bus, wadd(m.pc, 1)), ..m }
        } else {
            m
        }
    } else {  // 0x0F RRCA (Zero forced clear)
        CpuModel { a: rrcVal(m.a), f: flagsByte(false, false, false, m.a % 2 == 1), ..m }
    }
}

pub open spec fn row0Spec10(m: CpuModel, op: u8) -> CpuModel {
    if op == 0x10 {  // STOP (treated as HALT)
        if m.cyclesLeft == 1 {
            CpuModel { stopped: true, ..m }
        } else {
            m
        }
    } else if op == 0x11 {  // LD DE,u16
        if m.cyclesLeft == 2 {
            CpuModel { e: readSpec(m.bus, wadd(m.pc, 1)), ..m }
        } else if m.cyclesLeft == 1 {
            CpuModel { d: readSpec(m.bus, wadd(m.pc, 2)), ..m }
        } else {
            m
        }
    } else if op == 0x12 {  // LD (DE),A
        if m.cyclesLeft == 1 {
            CpuModel { bus: writeSpec(m.bus, deOf(m), m.a), ..m }
        } else {
            m
        }
    } else if op == 0x13 {  // INC DE
        if m.cyclesLeft == 1 {
            CpuModel { d: hi8(wadd(deOf(m), 1)), e: lo8(wadd(deOf(m), 1)), ..m }
        } else {
            m
        }
    } else if op == 0x14 {  // INC D
        CpuModel { d: addVal(m.d, 1), f: incFlags(m, m.d), ..m }
    } else if op == 0x15 {  // DEC D
        CpuModel { d: subVal(m.d, 1), f: decFlags(m, m.d), ..m }
    } else if op == 0x16 {  // LD D,u8
        if m.cyclesLeft == 1 {
            CpuModel { d: readSpec(m.bus, wadd(m.pc, 1)), ..m }
        } else {
            m
        }
    } else if op == 0x17 {  // RLA (Zero forced clear)
        CpuModel {
            a: rlVal(m.a, flagCSpec(m.f)),
            f: flagsByte(false, false, false, m.a >= 128),
            ..m
        }
    } else if op == 0x18 {  // JR i8
        if m.cyclesLeft == 1 {
            jrM(m)
        } else {
            m
        }
    } else if op == 0x19 {  // ADD HL,DE
        if m.cyclesLeft == 1 {
            addHlM(m, deOf(m))
        } else {
            m
        }
    } else if op == 0x1A {  // LD A,(DE)
        if m.cyclesLeft == 1 {
            CpuModel { a: readSpec(m.bus, deOf(m)), ..m }
        } else {
            m
        }
    } else if op == 0x1B {  // DEC DE
        if m.cyclesLeft == 1 {
            CpuModel { d: hi8(wsub(deOf(m), 1)), e: lo8(wsub(deOf(m), 1)), ..m }
        } else {
            m
        }
    } else if op == 0x1C {  // INC E
        CpuModel { e: addVal(m.e, 1), f: incFlags(m, m.e), ..m }
    } else if op == 0x1D {  // DEC E
        CpuModel { e: subVal(m.e, 1), f: decFlags(m, m.e), ..m }
    } else if op == 0x1E {  // LD E,u8
        if m.cyclesLeft == 1 {
            CpuModel { e: readSpec(m.bus, wadd(m.pc, 1)), ..m }
        } else {
            m
        }
    } else {  // 0x1F RRA (Zero forced clear)
        CpuModel {
            a: rrVal(m.a, flagCSpec(m.f)),
            f: flagsByte(false, false, false, m.a % 2 == 1),
            ..m
        }
    }
}

pub open spec fn row0Spec20(m: CpuModel, op: u8) -> CpuModel {
    if op == 0x20 {  // JR NZ,i8
        if m.cyclesLeft == 1 && condHoldsSpec(op, m.f) {
            jrM(m)
        } else {
            m
        }
    } else if op == 0x21 {  // LD HL,u16
        if m.cyclesLeft == 2 {
            CpuModel { l: readSpec(m.bus, wadd(m.pc, 1)), ..m }
        } else if m.cyclesLeft == 1 {
            CpuModel { h: readSpec(m.bus, wadd(m.pc, 2)), ..m }
        } else {
            m
        }
    } else if op == 0x22 {  // LD (HL+),A
        if m.cyclesLeft == 1 {
            CpuModel {
                bus: writeSpec(m.bus, hlOf(m), m.a),
                h: hi8(wadd(hlOf(m), 1)),
                l: lo8(wadd(hlOf(m), 1)),
                ..m
            }
        } else {
            m
        }
    } else if op == 0x23 {  // INC HL
        if m.cyclesLeft == 1 {
            CpuModel { h: hi8(wadd(hlOf(m), 1)), l: lo8(wadd(hlOf(m), 1)), ..m }
        } else {
            m
        }
    } else if op == 0x24 {  // INC H
        CpuModel { h: addVal(m.h, 1), f: incFlags(m, m.h), ..m }
    } else if op == 0x25 {  // DEC H
        CpuModel { h: subVal(m.h, 1), f: decFlags(m, m.h), ..m }
    } else if op == 0x26 {  // LD H,u8
        if m.cyclesLeft == 1 {
            CpuModel { h: readSpec(m.bus, wadd(m.pc, 1)), ..m }
        } else {
            m
        }
    } else if op == 0x27 {  // DAA
        CpuModel {
            a: daaVal(m.a, flagNSpec(m.f), flagHSpec(m.f), flagCSpec(m.f)),
            f: flagsByte(
                daaVal(m.a, flagNSpec(m.f), flagHSpec(m.f), flagCSpec(m.f)) == 0,
                flagNSpec(m.f),
                false,
                daaCarry(m.a, flagNSpec(m.f), flagCSpec(m.f)),
            ),
            ..m
        }
    } else if op == 0x28 {  // JR Z,i8
        if m.cyclesLeft == 1 && condHoldsSpec(op, m.f) {
            jrM(m)
        } else {
            m
        }
    } else if op == 0x29 {  // ADD HL,HL
        if m.cyclesLeft == 1 {
            addHlM(m, hlOf(m))
        } else {
            m
        }
    } else if op == 0x2A {  // LD A,(HL+)
        if m.cyclesLeft == 1 {
            CpuModel {
                a: readSpec(m.bus, hlOf(m)),
                h: hi8(wadd(hlOf(m), 1)),
                l: lo8(wadd(hlOf(m), 1)),
                ..m
            }
        } else {
            m
        }
    } else if op == 0x2B {  // DEC HL
        if m.cyclesLeft == 1 {
            CpuModel { h: hi8(wsub(hlOf(m), 1)), l: lo8(wsub(hlOf(m), 1)), ..m }
        } else {
            m
        }
    } else if op == 0x2C {  // INC L
        CpuModel { l: addVal(m.l, 1), f: incFlags(m, m.l), ..m }
    } else if op == 0x2D {  // DEC L
        CpuModel { l: subVal(m.l, 1), f: decFlags(m, m.l), ..m }
    } else if op == 0x2E {  // LD L,u8
        if m.cyclesLeft == 1 {
            CpuModel { l: readSpec(m.bus, wadd(m.pc, 1)), ..m }
        } else {
            m
        }
    } else {  // 0x2F CPL
        CpuModel { a: !m.a, f: flagsByte(flagZSpec(m.f), true, true, flagCSpec(m.f)), ..m }
    }
}

pub open spec fn row0Spec30(m: CpuModel, op: u8) -> CpuModel {
    if op == 0x30 {  // JR NC,i8
        if m.cyclesLeft == 1 && condHoldsSpec(op, m.f) {
            jrM(m)
        } else {
            m
        }
    } else if op == 0x31 {  // LD SP,u16
        if m.cyclesLeft == 2 {
            CpuModel { sp: readSpec(m.bus, wadd(m.pc, 1)) as u16, ..m }
        } else if m.cyclesLeft == 1 {
            CpuModel { sp: (readSpec(m.bus, wadd(m.pc, 2)) * 256 + m.sp % 256) as u16, ..m }
        } else {
            m
        }
    } else if op == 0x32 {  // LD (HL-),A
        if m.cyclesLeft == 1 {
            CpuModel {
                bus: writeSpec(m.bus, hlOf(m), m.a),
                h: hi8(wsub(hlOf(m), 1)),
                l: lo8(wsub(hlOf(m), 1)),
                ..m
            }
        } else {
            m
        }
    } else if op == 0x33 {  // INC SP
        if m.cyclesLeft == 1 {
            CpuModel { sp: wadd(m.sp, 1), ..m }
        } else {
            m
        }
    } else if op == 0x34 {  // INC (HL)
        if m.cyclesLeft == 2 {
            CpuModel { fetched: readSpec(m.bus, hlOf(m)), ..m }
        } else if m.cyclesLeft == 1 {
            CpuModel {
                f: incFlags(m, m.fetched),
                bus: writeSpec(m.bus, hlOf(m), addVal(m.fetched, 1)),
                ..m
            }
        } else {
            m
        }
    } else if op == 0x35 {  // DEC (HL)
        if m.cyclesLeft == 2 {
            CpuModel { fetched: readSpec(m.bus, hlOf(m)), ..m }
        } else if m.cyclesLeft == 1 {
            CpuModel {
                f: decFlags(m, m.fetched),
                bus: writeSpec(m.bus, hlOf(m), subVal(m.fetched, 1)),
                ..m
            }
        } else {
            m
        }
    } else if op == 0x36 {  // LD (HL),u8
        if m.cyclesLeft == 2 {
            CpuModel { fetched: readSpec(m.bus, wadd(m.pc, 1)), ..m }
        } else if m.cyclesLeft == 1 {
            CpuModel { bus: writeSpec(m.bus, hlOf(m), m.fetched), ..m }
        } else {
            m
        }
    } else if op == 0x37 {  // SCF
        CpuModel { f: flagsByte(flagZSpec(m.f), false, false, true), ..m }
    } else if op == 0x38 {  // JR C,i8
        if m.cyclesLeft == 1 && condHoldsSpec(op, m.f) {
            jrM(m)
        } else {
            m
        }
    } else if op == 0x39 {  // ADD HL,SP
        if m.cyclesLeft == 1 {
            addHlM(m, m.sp)
        } else {
            m
        }
    } else if op == 0x3A {  // LD A,(HL-)
        if m.cyclesLeft == 1 {
            CpuModel {
                a: readSpec(m.bus, hlOf(m)),
                h: hi8(wsub(hlOf(m), 1)),
                l: lo8(wsub(hlOf(m), 1)),
                ..m
            }
        } else {
            m
        }
    } else if op == 0x3B {  // DEC SP
        if m.cyclesLeft == 1 {
            CpuModel { sp: wsub(m.sp, 1), ..m }
        } else {
            m
        }
    } else if op == 0x3C {  // INC A
        CpuModel { a: addVal(m.a, 1), f: incFlags(m, m.a), ..m }
    } else if op == 0x3D {  // DEC A
        CpuModel { a: subVal(m.a, 1), f: decFlags(m, m.a), ..m }
    } else if op == 0x3E {  // LD A,u8
        if m.cyclesLeft == 1 {
            CpuModel { a: readSpec(m.bus, wadd(m.pc, 1)), ..m }
        } else {
            m
        }
    } else {  // 0x3F CCF
        CpuModel { f: flagsByte(flagZSpec(m.f), false, false, !flagCSpec(m.f)), ..m }
    }
}

/// Opcodes 0x40-0x7F: the register moves, the (HL) loads and stores, HALT.
pub open spec fn loadsSpec(m: CpuModel, op: u8) -> CpuModel {
    if op == 0x76 {  // HALT
        if m.cyclesLeft == 1 {
            CpuModel { halted: true, ..m }
        } else {
            m
        }
    } else {
        let dst = ((op - 0x40) / 8) as u8;
        let src = (op % 8) as u8;
        if src == 6 {  // LD r,(HL)
            if m.cyclesLeft == 1 {
                setRegM(m, dst, readSpec(m.bus, hlOf(m)))
            } else {
                m
            }
        } else if dst == 6 {  // LD (HL),r
            if m.cyclesLeft == 1 {
                CpuModel { bus: writeSpec(m.bus, hlOf(m), regM(m, src)), ..m }
            } else {
                m
            }
        } else {  // LD r,r'
            setRegM(m, dst, regM(m, src))
        }
    }
}

/// Opcodes 0x80-0xBF: the 8-bit ALU block.
pub open spec fn aluSpec(m: CpuModel, op: u8) -> CpuModel {
    let kind = ((op - 0x80) / 8) as u8;
    let src = (op % 8) as u8;
    if src == 6 {
        if m.cyclesLeft == 2 {
            CpuModel { fetched: readSpec(m.bus, hlOf(m)), ..m }
        } else if m.cyclesLeft == 1 {
            CpuModel {
                a: aluAVal(kind, m.a, m.fetched, flagCSpec(m.f)),
                f: aluFVal(kind, m.a, m.fetched, flagCSpec(m.f)),
                ..m
            }
        } else {
            m
        }
    } else {
        CpuModel {
            a: aluAVal(kind, m.a, regM(m, src), flagCSpec(m.f)),
            f: aluFVal(kind, m.a, regM(m, src), flagCSpec(m.f)),
            ..m
        }
    }
}

pub open spec fn row3SpecC0(m: CpuModel, op: u8) -> CpuModel {
    if op == 0xC0 {  // RET NZ
        if m.cyclesLeft == 1 && condHoldsSpec(op, m.f) {
            retM(m)
        } else {
            m
        }
    } else if op == 0xC1 {  // POP BC
        if m.cyclesLeft == 2 {
            CpuModel { c: readSpec(m.bus, m.sp), sp: wadd(m.sp, 1), ..m }
        } else if m.cyclesLeft == 1 {
            CpuModel { b: readSpec(m.bus, m.sp), sp: wadd(m.sp, 1), ..m }
        } else {
            m
        }
    } else if op == 0xC2 {  // JP NZ,u16
        if m.cyclesLeft == 1 && condHoldsSpec(op, m.f) {
            CpuModel { pc: word16At(m.bus, wadd(m.pc, 1)), branchTaken: true, ..m }
        } else {
            m
        }
    } else if op == 0xC3 {  // JP u16
        if m.cyclesLeft == 1 {
            CpuModel { pc: word16At(m.bus, wadd(m.pc, 1)), branchTaken: true, ..m }
        } else {
            m
        }
    } else if op == 0xC4 {  // CALL NZ,u16
        callSpec(m, condHoldsSpec(op, m.f))
    } else if op == 0xC5 {  // PUSH BC
        if m.cyclesLeft == 2 {
            pushM(m, m.b)
        } else if m.cyclesLeft == 1 {
            pushM(m, m.c)
        } else {
            m
        }
    } else if op == 0xC6 {  // ADD A,u8
        immAluSpec(m, 0)
    } else if op == 0xC7 {  // RST 0x00
        rstSpec(m, 0x00)
    } else {  // 0xC8 RET Z
        if m.cyclesLeft == 1 && condHoldsSpec(op, m.f) {
            retM(m)
        } else {
            m
        }
    }
}

/// CALL cc on each of its effective cycles: push the return address high byte
/// first, then jump.
pub open spec fn callSpec(m: CpuModel, cond: bool) -> CpuModel {
    if cond {
        if m.cyclesLeft == 3 {
            pushM(m, hi8(wadd(m.pc, 3)))
        } else if m.cyclesLeft == 2 {
            pushM(m, lo8(wadd(m.pc, 3)))
        } else if m.cyclesLeft == 1 {
            CpuModel { pc: word16At(m.bus, wadd(m.pc, 1)), branchTaken: true, ..m }
        } else {
            m
        }
    } else {
        m
    }
}

/// RST: push the address after the one-byte instruction, then jump low.
pub open spec fn rstSpec(m: CpuModel, target: u8) -> CpuModel {
    if m.cyclesLeft == 3 {
        pushM(m, hi8(wadd(m.pc, 1)))
    } else if m.cyclesLeft == 2 {
        pushM(m, lo8(wadd(m.pc, 1)))
    } else if m.cyclesLeft == 1 {
        CpuModel { pc: target as u16, branchTaken: true, ..m }
    } else {
        m
    }
}

/// The immediate ALU forms: fetch the operand byte, then apply.
pub open spec fn immAluSpec(m: CpuModel, kind: u8) -> CpuModel {
    if m.cyclesLeft == 2 {
        CpuModel { fetched: readSpec(m.bus, wadd(m.pc, 1)), ..m }
    } else if m.cyclesLeft == 1 {
        CpuModel {
            a: aluAVal(kind, m.a, m.fetched, flagCSpec(m.f)),
            f: aluFVal(kind, m.a, m.fetched, flagCSpec(m.f)),
            ..m
        }
    } else {
        m
    }
}

pub open spec fn row3SpecC9(m: CpuModel, op: u8) -> CpuModel {
    if op == 0xC9 {  // RET
        if m.cyclesLeft == 1 {
            retM(m)
        } else {
            m
        }
    } else if op == 0xCA {  // JP Z,u16
        if m.cyclesLeft == 1 && condHoldsSpec(op, m.f) {
            CpuModel { pc: word16At(m.bus, wadd(m.pc, 1)), branchTaken: true, ..m }
        } else {
            m
        }
    } else if op == 0xCB {  // CB prefix byte: handled wholly at fetch
        m
    } else if op == 0xCC {  // CALL Z,u16
        callSpec(m, condHoldsSpec(op, m.f))
    } else if op == 0xCD {  // CALL u16
        callSpec(m, true)
    } else if op == 0xCE {  // ADC A,u8
        immAluSpec(m, 1)
    } else {  // 0xCF RST 0x08
        rstSpec(m, 0x08)
    }
}

pub open spec fn row3SpecD0(m: CpuModel, op: u8) -> CpuModel {
    if op == 0xD0 {  // RET NC
        if m.cyclesLeft == 1 && condHoldsSpec(op, m.f) {
            retM(m)
        } else {
            m
        }
    } else if op == 0xD1 {  // POP DE
        if m.cyclesLeft == 2 {
            CpuModel { e: readSpec(m.bus, m.sp), sp: wadd(m.sp, 1), ..m }
        } else if m.cyclesLeft == 1 {
            CpuModel { d: readSpec(m.bus, m.sp), sp: wadd(m.sp, 1), ..m }
        } else {
            m
        }
    } else if op == 0xD2 {  // JP NC,u16
        if m.cyclesLeft == 1 && condHoldsSpec(op, m.f) {
            CpuModel { pc: word16At(m.bus, wadd(m.pc, 1)), branchTaken: true, ..m }
        } else {
            m
        }
    } else if op == 0xD4 {  // CALL NC,u16
        callSpec(m, condHoldsSpec(op, m.f))
    } else if op == 0xD5 {  // PUSH DE
        if m.cyclesLeft == 2 {
            pushM(m, m.d)
        } else if m.cyclesLeft == 1 {
            pushM(m, m.e)
        } else {
            m
        }
    } else if op == 0xD6 {  // SUB A,u8
        immAluSpec(m, 2)
    } else if op == 0xD7 {  // RST 0x10
        rstSpec(m, 0x10)
    } else if op == 0xD8 {  // RET C
        if m.cyclesLeft == 1 && condHoldsSpec(op, m.f) {
            retM(m)
        } else {
            m
        }
    } else if op == 0xD9 {  // RETI: RET plus an immediate IME enable
        if m.cyclesLeft == 1 {
            CpuModel { masterInterrupt: true, ..retM(m) }
        } else {
            m
        }
    } else if op == 0xDA {  // JP C,u16
        if m.cyclesLeft == 1 && condHoldsSpec(op, m.f) {
            CpuModel { pc: word16At(m.bus, wadd(m.pc, 1)), branchTaken: true, ..m }
        } else {
            m
        }
    } else if op == 0xDC {  // CALL C,u16
        callSpec(m, condHoldsSpec(op, m.f))
    } else if op == 0xDE {  // SBC A,u8
        immAluSpec(m, 3)
    } else if op == 0xDF {  // RST 0x18
        rstSpec(m, 0x18)
    } else {  // illegal opcodes never execute
        m
    }
}

pub open spec fn row3SpecE0(m: CpuModel, op: u8) -> CpuModel {
    if op == 0xE0 {  // LD (0xFF00+u8),A
        if m.cyclesLeft == 2 {
            CpuModel { fetched: readSpec(m.bus, wadd(m.pc, 1)), ..m }
        } else if m.cyclesLeft == 1 {
            CpuModel { bus: writeSpec(m.bus, (0xFF00 + m.fetched) as u16, m.a), ..m }
        } else {
            m
        }
    } else if op == 0xE1 {  // POP HL
        if m.cyclesLeft == 2 {
            CpuModel { l: readSpec(m.bus, m.sp), sp: wadd(m.sp, 1), ..m }
        } else if m.cyclesLeft == 1 {
            CpuModel { h: readSpec(m.bus, m.sp), sp: wadd(m.sp, 1), ..m }
        } else {
            m
        }
    } else if op == 0xE2 {  // LD (0xFF00+C),A
        if m.cyclesLeft == 1 {
            CpuModel { bus: writeSpec(m.bus, (0xFF00 + m.c) as u16, m.a), ..m }
        } else {
            m
        }
    } else if op == 0xE5 {  // PUSH HL
        if m.cyclesLeft == 2 {
            pushM(m, m.h)
        } else if m.cyclesLeft == 1 {
            pushM(m, m.l)
        } else {
            m
        }
    } else if op == 0xE6 {  // AND A,u8
        immAluSpec(m, 4)
    } else if op == 0xE7 {  // RST 0x20
        rstSpec(m, 0x20)
    } else if op == 0xE8 {  // ADD SP,i8
        if m.cyclesLeft == 1 {
            CpuModel {
                sp: wadd(m.sp, signedOffset(readSpec(m.bus, wadd(m.pc, 1)))),
                f: spOffsetFlags(m, readSpec(m.bus, wadd(m.pc, 1))),
                ..m
            }
        } else {
            m
        }
    } else if op == 0xE9 {  // JP HL
        if m.cyclesLeft == 1 {
            CpuModel { pc: hlOf(m), branchTaken: true, ..m }
        } else {
            m
        }
    } else if op == 0xEA {  // LD (u16),A
        if m.cyclesLeft == 1 {
            CpuModel { bus: writeSpec(m.bus, word16At(m.bus, wadd(m.pc, 1)), m.a), ..m }
        } else {
            m
        }
    } else if op == 0xEE {  // XOR A,u8
        immAluSpec(m, 5)
    } else if op == 0xEF {  // RST 0x28
        rstSpec(m, 0x28)
    } else {  // illegal opcodes never execute
        m
    }
}

pub open spec fn row3SpecF0(m: CpuModel, op: u8) -> CpuModel {
    if op == 0xF0 {  // LD A,(0xFF00+u8)
        if m.cyclesLeft == 2 {
            CpuModel { fetched: readSpec(m.bus, wadd(m.pc, 1)), ..m }
        } else if m.cyclesLeft == 1 {
            CpuModel { a: readSpec(m.bus, (0xFF00 + m.fetched) as u16), ..m }
        } else {
            m
        }
    } else if op == 0xF1 {  // POP AF (the low nibble of F reads back as zero)
        if m.cyclesLeft == 2 {
            CpuModel { f: (readSpec(m.bus, m.sp) / 16 * 16) as u8, sp: wadd(m.sp, 1), ..m }
        } else if m.cyclesLeft == 1 {
            CpuModel { a: readSpec(m.bus, m.sp), sp: wadd(m.sp, 1), ..m }
        } else {
            m
        }
    } else if op == 0xF2 {  // LD A,(0xFF00+C)
        if m.cyclesLeft == 1 {
            CpuModel { a: readSpec(m.bus, (0xFF00 + m.c) as u16), ..m }
        } else {
            m
        }
    } else if op == 0xF3 {  // DI (immediate, and cancels a pending EI)
        if m.cyclesLeft == 1 {
            CpuModel { masterInterrupt: false, eiPending: false, ..m }
        } else {
            m
        }
    } else if op == 0xF5 {  // PUSH AF
        if m.cyclesLeft == 2 {
            pushM(m, m.a)
        } else if m.cyclesLeft == 1 {
            pushM(m, m.f)
        } else {
            m
        }
    } else if op == 0xF6 {  // OR A,u8
        immAluSpec(m, 6)
    } else if op == 0xF7 {  // RST 0x30
        rstSpec(m, 0x30)
    } else if op == 0xF8 {  // LD HL,SP+i8
        if m.cyclesLeft == 1 {
            CpuModel {
                h: hi8(wadd(m.sp, signedOffset(readSpec(m.bus, wadd(m.pc, 1))))),
                l: lo8(wadd(m.sp, signedOffset(readSpec(m.bus, wadd(m.pc, 1))))),
                f: spOffsetFlags(m, readSpec(m.bus, wadd(m.pc, 1))),
                ..m
            }
        } else {
            m
        }
    } else if op == 0xF9 {  // LD SP,HL
        if m.cyclesLeft == 1 {
            CpuModel { sp: hlOf(m), ..m }
        } else {
            m
        }
    } else if op == 0xFA {  // LD A,(u16)
        if m.cyclesLeft == 1 {
            CpuModel { a: readSpec(m.bus, word16At(m.bus, wadd(m.pc, 1))), ..m }
        } else {
            m
        }
    } else if op == 0xFB {  // EI (takes effect after the next instruction)
        if m.cyclesLeft == 1 {
            CpuModel { eiPending: true, ..m }
        } else {
            m
        }
    } else if op == 0xFE {  // CP A,u8
        immAluSpec(m, 7)
    } else if op == 0xFF {  // RST 0x38
        rstSpec(m, 0x38)
    } else {  // illegal opcodes never execute
        m
    }
}

/// One execution cycle of an unprefixed opcode at the current counter
/// position.
pub open spec fn unprefCycleSpec(m: CpuModel, op: u8) -> CpuModel {
    if op < 0x10 {
        row0Spec00(m, op)
    } else if op < 0x20 {
        row0Spec10(m, op)
    } else if op < 0x30 {
        row0Spec20(m, op)
    } else if op < 0x40 {
        row0Spec30(m, op)
    } else if op < 0x80 {
        loadsSpec(m, op)
    } else if op < 0xC0 {
        aluSpec(m, op)
    } else if op < 0xC9 {
        row3SpecC0(m, op)
    } else if op < 0xD0 {
        row3SpecC9(m, op)
    } else if op < 0xE0 {
        row3SpecD0(m, op)
    } else if op < 0xF0 {
        row3SpecE0(m, op)
    } else {
        row3SpecF0(m, op)
    }
}

/// One execution cycle of a CB-prefixed opcode: operation `op / 8` on target
/// `op % 8`; the (HL) forms read on one cycle and test or write back on the
/// last.
pub open spec fn prefCycleSpec(m: CpuModel, op: u8) -> CpuModel {
    let target = (op % 8) as u8;
    let kind = (op / 8) as u8;
    if target == 6 {
        if 8 <= kind < 16 {  // BIT n,(HL)
            if m.cyclesLeft == 2 {
                CpuModel { fetched: readSpec(m.bus, hlOf(m)), ..m }
            } else if m.cyclesLeft == 1 {
                CpuModel {
                    f: flagsByte(
                        m.fetched & (1u8 << (kind - 8)) == 0,
                        false,
                        true,
                        flagCSpec(m.f),
                    ),
                    ..m
                }
            } else {
                m
            }
        } else {
            if m.cyclesLeft == 2 {
                CpuModel { fetched: readSpec(m.bus, hlOf(m)), ..m }
            } else if m.cyclesLeft == 1 {
                if kind < 8 {
                    CpuModel {
                        f: flagsByte(
                            shiftVal(kind, m.fetched, flagCSpec(m.f)) == 0,
                            false,
                            false,
                            shiftCarry(kind, m.fetched),
                        ),
                        bus: writeSpec(
                            m.bus,
                            hlOf(m),
                            shiftVal(kind, m.fetched, flagCSpec(m.f)),
                        ),
                        ..m
                    }
                } else if kind < 24 {  // RES n,(HL)
                    CpuModel {
                        bus: writeSpec(m.bus, hlOf(m), m.fetched & !(1u8 << (kind - 16))),
                        ..m
                    }
                } else {  // SET n,(HL)
                    CpuModel {
                        bus: writeSpec(m.bus, hlOf(m), m.fetched | (1u8 << (kind - 24))),
                        ..m
                    }
                }
            } else {
                m
            }
        }
    } else {
        if m.cyclesLeft == 1 {
            if kind < 8 {
                let m2 = CpuModel {
                    f: flagsByte(
                        shiftVal(kind, regM(m, target), flagCSpec(m.f)) == 0,
                        false,
                        false,
                        shiftCarry(kind, regM(m, target)),
                    ),
                    ..m
                };
                setRegM(m2, target, shiftVal(kind, regM(m, target), flagCSpec(m.f)))
            } else if kind < 16 {  // BIT n,r
                CpuModel {
                    f: flagsByte(
                        regM(m, target) & (1u8 << (kind - 8)) == 0,
                        false,
                        true,
                        flagCSpec(m.f),
                    ),
                    ..m
                }
            } else if kind < 24 {  // RES n,r
                setRegM(m, target, regM(m, target) & !(1u8 << (kind - 16)))
            } else {  // SET n,r
                setRegM(m, target, regM(m, target) | (1u8 << (kind - 24)))
            }
        } else {
            m
        }
    }
}

/// One cycle of the five-cycle interrupt dispatch: two idle cycles, push PC
/// high then low, then load PC from the vector.
pub open spec fn intCycleSpec(m: CpuModel, addr: u16) -> CpuModel {
    if m.cyclesLeft == 3 {
        pushM(m, hi8(m.pc))
    } else if m.cyclesLeft == 2 {
        pushM(m, lo8(m.pc))
    } else if m.cyclesLeft == 1 {
        CpuModel { pc: addr, ..m }
    } else {
        m
    }
}

/// The work of the current cycle: the dispatch in progress, or the current
/// instruction's scheduled effect.
pub open spec fn workCycleSpec(m: CpuModel) -> CpuModel {
    if m.servicing {
        intCycleSpec(m, m.serviceAddr)
    } else if m.prefixedInstruction {
        prefCycleSpec(m, m.currentOpcode)
    } else {
        unprefCycleSpec(m, m.currentOpcode)
    }
}

// ---------------------------------------------------------------------------
// The whole machine cycle
// ---------------------------------------------------------------------------
/// The bus after its one timer M-cycle: timers step, a reload raises
/// IF.Timer.
pub open spec fn tickedBusSpec(b: BusModel) -> BusModel {
    BusModel {
        timers: tickedTimers(b.timers),
        iflag: if tickIrqSpec(b.timers) {
            (b.iflag | (1u8 << 2)) as u8
        } else {
            b.iflag
        },
        ..b
    }
}

/// The interrupts both enabled and requested.
pub open spec fn pendingM(m: CpuModel) -> u8 {
    m.bus.ie & m.bus.iflag & 0x1F
}

/// The byte at PC is a fetchable (legal) opcode.
pub open spec fn fetchOkSpec(m: CpuModel) -> bool {
    !isIllegalSpec(readSpec(m.bus, m.pc))
}

/// The machine after a fetch at PC: the opcode (or the CB opcode after the
/// prefix) is latched and the whole M-cycle budget loaded.
pub open spec fn fetchedSpec(m: CpuModel) -> CpuModel {
    let op = readSpec(m.bus, m.pc);
    if op == 0xCB {
        CpuModel {
            prefixedInstruction: true,
            currentOpcode: readSpec(m.bus, wadd(m.pc, 1)),
            cyclesLeft: (2 * prefCyclesSpec(readSpec(m.bus, wadd(m.pc, 1)))) as u8,
            justBooted: false,
            ..m
        }
    } else {
        CpuModel {
            prefixedInstruction: false,
            currentOpcode: op,
            cyclesLeft: instrCyclesSpec(op, m.f),
            justBooted: false,
            ..m
        }
    }
}

/// The interrupt-dispatch check at a boundary: with IME set and something
/// pending, acknowledge the lowest bit and start the five-cycle dispatch.
pub open spec fn dispatchCheckSpec(m: CpuModel) -> CpuModel {
    if m.masterInterrupt && pendingM(m) != 0 {
        let i = lowestPending(pendingM(m));
        CpuModel {
            servicing: true,
            cyclesLeft: 5,
            masterInterrupt: false,
            halted: false,
            serviceAddr: vectorOf(i),
            bus: BusModel { iflag: (m.bus.iflag & !(1u8 << i)) as u8, ..m.bus },
            ..m
        }
    } else {
        m
    }
}

/// The boundary after an instruction retires (not after a dispatch): PC
/// advances unless a branch already wrote it, a delayed EI lands, a fresh
/// HALT with something already pending falls through, and interrupts may
/// dispatch.
pub open spec fn boundarySpec(m: CpuModel) -> CpuModel {
    let len: u8 = if m.prefixedInstruction {
        2
    } else {
        unprefLengthSpec(m.currentOpcode)
    };
    let pc2 = if m.branchTaken {
        m.pc
    } else {
        wadd(m.pc, len as u16)
    };
    let m1 = CpuModel { pc: pc2, branchTaken: false, ..m };
    let enableEi = m1.eiPending && !(m1.currentOpcode == 0xFB && !m1.prefixedInstruction);
    let m2 = if enableEi {
        CpuModel { masterInterrupt: true, eiPending: false, ..m1 }
    } else {
        m1
    };
    let m3 = if (m2.halted || m2.stopped) && pendingM(m2) != 0 {
        CpuModel { halted: false, stopped: false, ..m2 }
    } else {
        m2
    };
    dispatchCheckSpec(m3)
}

/// The non-dispatch instruction boundary followed by the next fetch, when
/// the machine is neither parked nor freshly dispatched afterwards.
pub open spec fn boundaryStepSpec(m: CpuModel) -> CpuModel {
    let mD = boundarySpec(m);
    if mD.servicing || mD.halted || mD.stopped {
        mD
    } else if fetchOkSpec(mD) {
        fetchedSpec(mD)
    } else {
        mD
    }
}

/// Whether the boundary's fetch (when one happens) finds a legal opcode.
pub open spec fn boundaryStepOk(m: CpuModel) -> bool {
    let mD = boundarySpec(m);
    mD.servicing || mD.halted || mD.stopped || fetchOkSpec(mD)
}

/// One whole `clock` step, with every fetch applied only when the byte at PC
/// is legal (an illegal byte stops the machine where it stands and the call
/// reports the error).
pub open spec fn clockPostSpec(m: CpuModel) -> CpuModel {
    if m.halted || m.stopped {
        let m1 = CpuModel { bus: tickedBusSpec(m.bus), ..m };
        if pendingM(m1) != 0 {
            let m2 = CpuModel { halted: false, stopped: false, ..m1 };
            if m2.masterInterrupt {
                dispatchCheckSpec(m2)
            } else if fetchOkSpec(m2) {
                fetchedSpec(m2)
            } else {
                m2
            }
        } else {
            m1
        }
    } else if m.cyclesLeft == 0 && !fetchOkSpec(m) {
        m
    } else {
        let mA = if m.cyclesLeft == 0 {
            fetchedSpec(m)
        } else {
            m
        };
        let mB = workCycleSpec(mA);
        let mC = CpuModel {
            bus: tickedBusSpec(mB.bus),
            cyclesLeft: (mB.cyclesLeft - 1) as u8,
            ..mB
        };
        if mC.cyclesLeft > 0 {
            mC
        } else if mC.servicing {
            let mD = CpuModel { servicing: false, ..mC };
            if fetchOkSpec(mD) {
                fetchedSpec(mD)
            } else {
                mD
            }
        } else {
            boundaryStepSpec(mC)
        }
    }
}

/// Whether a `clock` step completes without hitting an illegal opcode at any
/// of its fetch points.
pub open spec fn clockOkSpec(m: CpuModel) -> bool {
    if m.halted || m.stopped {
        let m1 = CpuModel { bus: tickedBusSpec(m.bus), ..m };
        if pendingM(m1) != 0 && !m1.masterInterrupt {
            fetchOkSpec(m1)
        } else {
            true
        }
    } else if m.cyclesLeft == 0 && !fetchOkSpec(m) {
        false
    } else {
        let mA = if m.cyclesLeft == 0 {
            fetchedSpec(m)
        } else {
            m
        };
        let mB = workCycleSpec(mA);
        let mC = CpuModel {
            bus: tickedBusSpec(mB.bus),
            cyclesLeft: (mB.cyclesLeft - 1) as u8,
            ..mB
        };
        if mC.cyclesLeft > 0 {
            true
        } else if mC.servicing {
            fetchOkSpec(CpuModel { servicing: false, ..mC })
        } else {
            boundaryStepOk(mC)
        }
    }
}

/// `n` whole `clock` steps.
pub open spec fn clockStepsSpec(m: CpuModel, n: nat) -> CpuModel
    decreases n,
{
    if n == 0 {
        m
    } else {
        clockPostSpec(clockStepsSpec(m, (n - 1) as nat))
    }
}

} // verus!
