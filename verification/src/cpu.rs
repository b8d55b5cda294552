//! SM83 CPU state and the exactly-specified building blocks of instruction
//! execution: flag handling, 8-bit ALU, rotates and shifts, stack traffic and
//! the per-cycle control-flow helpers.
//!
//! Every multi-cycle instruction counts its remaining M-cycles in
//! `cyclesLeft`; a helper keyed on that counter performs the work scheduled
//! for the current cycle.  All flag writes go through `flagsByte`, which keeps
//! the low nibble of F zero — the register-file invariant `wf` that every
//! public operation preserves.

use vstd::prelude::*;

use crate::bus::Bus;
use crate::bus::BusModel;
use crate::bus::readSpec;
use crate::bus::writeSpec;

verus! {

pub struct Z80 {
    pub a: u8,
    pub f: u8,
    pub b: u8,
    pub c: u8,
    pub d: u8,
    pub e: u8,
    pub h: u8,
    pub l: u8,
    pub sp: u16,
    pub pc: u16,
    pub bus: Bus,
    /// M-cycles still owed by the current instruction (0 = nothing fetched).
    pub cyclesLeft: u8,
    /// Operand byte latched between the cycles of one instruction.
    pub fetched: u8,
    pub currentOpcode: u8,
    /// The current instruction came from the CB-prefixed table.
    pub prefixedInstruction: bool,
    /// The current instruction already wrote PC, so the boundary must not
    /// advance it by the instruction length.
    pub branchTaken: bool,
    /// No instruction has been fetched yet (fresh reset).
    pub justBooted: bool,
    pub halted: bool,
    pub stopped: bool,
    /// IME: the master interrupt enable.
    pub masterInterrupt: bool,
    /// An EI is waiting for its one-instruction delay before IME turns on.
    pub eiPending: bool,
    /// An interrupt dispatch (5 M-cycles) is in progress.
    pub servicing: bool,
    /// Vector the dispatch in progress will load into PC.
    pub serviceAddr: u16,
}

#[derive(Clone, Copy, Debug, PartialEq, Eq, Structural)]
pub enum Flags {
    Zero,
    Sub,
    HCarry,
    Carry,
}

impl Flags {
    /// Bit position of this flag inside F.
    pub open spec fn bitIndex(self) -> usize {
        match self {
            Flags::Zero => 7,
            Flags::Sub => 6,
            Flags::HCarry => 5,
            Flags::Carry => 4,
        }
    }

    /// Bit position of this flag inside F.
    pub fn index(&self) -> (r: usize)
        ensures
            r == self.bitIndex(),
    {
        match self {
            Flags::Zero => 7,
            Flags::Sub => 6,
            Flags::HCarry => 5,
            Flags::Carry => 4,
        }
    }
}

// ---------------------------------------------------------------------------
// 16-bit word helpers
// ---------------------------------------------------------------------------
/// `x + y` wrapping at 2^16.
pub open spec fn wadd(x: u16, y: u16) -> u16 {
    if x + y > 0xFFFF {
        (x + y - 0x10000) as u16
    } else {
        (x + y) as u16
    }
}

/// `x - y` wrapping at 2^16.
pub open spec fn wsub(x: u16, y: u16) -> u16 {
    if x - y < 0 {
        (x - y + 0x10000) as u16
    } else {
        (x - y) as u16
    }
}

/// The 16-bit word with high byte `hi` and low byte `lo`.
pub open spec fn pair16(hi: u8, lo: u8) -> u16 {
    (hi * 256 + lo) as u16
}

pub open spec fn hi8(w: u16) -> u8 {
    (w / 256) as u8
}

pub open spec fn lo8(w: u16) -> u8 {
    (w % 256) as u8
}

/// An 8-bit PC displacement sign-extended to 16 bits.
pub open spec fn signedOffset(e: u8) -> u16 {
    if e >= 0x80 {
        (e + 0xFF00) as u16
    } else {
        e as u16
    }
}

// ---------------------------------------------------------------------------
// Flag byte
// ---------------------------------------------------------------------------
/// The F byte holding exactly the four flags; its low nibble is always zero.
pub open spec fn flagsByte(z: bool, n: bool, h: bool, cy: bool) -> u8 {
    ((if z {
        0x80int
    } else {
        0int
    }) + (if n {
        0x40int
    } else {
        0int
    }) + (if h {
        0x20int
    } else {
        0int
    }) + (if cy {
        0x10int
    } else {
        0int
    })) as u8
}

pub open spec fn getFlagSpec(f: u8, fl: Flags) -> bool {
    f & (1u8 << fl.bitIndex()) != 0
}

pub open spec fn flagZSpec(f: u8) -> bool {
    f & (1u8 << 7) != 0
}

pub open spec fn flagNSpec(f: u8) -> bool {
    f & (1u8 << 6) != 0
}

pub open spec fn flagHSpec(f: u8) -> bool {
    f & (1u8 << 5) != 0
}

pub open spec fn flagCSpec(f: u8) -> bool {
    f & (1u8 << 4) != 0
}

/// What `flagsByte` stores: each flag lands on its own bit and the low nibble
/// stays zero.
pub broadcast proof fn lemma_flags_byte(z: bool, n: bool, h: bool, cy: bool)
    ensures
        #[trigger] flagsByte(z, n, h, cy) % 16 == 0,
        flagZSpec(flagsByte(z, n, h, cy)) == z,
        flagNSpec(flagsByte(z, n, h, cy)) == n,
        flagHSpec(flagsByte(z, n, h, cy)) == h,
        flagCSpec(flagsByte(z, n, h, cy)) == cy,
{
    let zb: u8 = if z {
        0x80
    } else {
        0
    };
    let nb: u8 = if n {
        0x40
    } else {
        0
    };
    let hb: u8 = if h {
        0x20
    } else {
        0
    };
    let cb: u8 = if cy {
        0x10
    } else {
        0
    };
    let fb = flagsByte(z, n, h, cy);
    assert(fb == zb + nb + hb + cb);
    assert(fb % 16 == 0 && ((fb & (1u8 << 7) != 0) == (zb == 0x80)) && ((fb & (1u8 << 6) != 0) == (
    nb == 0x40)) && ((fb & (1u8 << 5) != 0) == (hb == 0x20)) && ((fb & (1u8 << 4) != 0) == (cb
        == 0x10))) by (bit_vector)
        requires
            fb == zb + nb + hb + cb,
            zb == 0x80 || zb == 0,
            nb == 0x40 || nb == 0,
            hb == 0x20 || hb == 0,
            cb == 0x10 || cb == 0,
    ;
}

// ---------------------------------------------------------------------------
// 8-bit ALU results and flags
// ---------------------------------------------------------------------------
pub open spec fn addVal(a: u8, b: u8) -> u8 {
    if a + b > 255 {
        (a + b - 256) as u8
    } else {
        (a + b) as u8
    }
}

pub open spec fn adcVal(a: u8, b: u8, cin: bool) -> u8 {
    let s = a + b + (if cin {
        1int
    } else {
        0
    });
    if s > 255 {
        (s - 256) as u8
    } else {
        s as u8
    }
}

pub open spec fn subVal(a: u8, b: u8) -> u8 {
    if a >= b {
        (a - b) as u8
    } else {
        (a - b + 256) as u8
    }
}

pub open spec fn sbcVal(a: u8, b: u8, cin: bool) -> u8 {
    let t = b + (if cin {
        1int
    } else {
        0
    });
    if a >= t {
        (a - t) as u8
    } else {
        (a - t + 256) as u8
    }
}

/// The BCD adjustment of A after an add or subtract, driven by N, H and C.
pub open spec fn daaVal(a: u8, n: bool, h: bool, c: bool) -> u8 {
    if !n {
        let a1 = if h || a % 16 > 9 {
            addVal(a, 0x06)
        } else {
            a
        };
        if c || a > 0x99 {
            addVal(a1, 0x60)
        } else {
            a1
        }
    } else {
        let a1 = if h {
            subVal(a, 0x06)
        } else {
            a
        };
        if c {
            subVal(a1, 0x60)
        } else {
            a1
        }
    }
}

pub open spec fn daaCarry(a: u8, n: bool, c: bool) -> bool {
    if !n {
        c || a > 0x99
    } else {
        c
    }
}

// ---------------------------------------------------------------------------
// Rotate / shift results
// ---------------------------------------------------------------------------
pub open spec fn rlcVal(v: u8) -> u8 {
    ((v % 128) * 2 + v / 128) as u8
}

pub open spec fn rrcVal(v: u8) -> u8 {
    (v / 2 + (v % 2) * 128) as u8
}

pub open spec fn rlVal(v: u8, cin: bool) -> u8 {
    ((v % 128) * 2 + (if cin {
        1int
    } else {
        0
    })) as u8
}

pub open spec fn rrVal(v: u8, cin: bool) -> u8 {
    (v / 2 + (if cin {
        128int
    } else {
        0
    })) as u8
}

pub open spec fn slaVal(v: u8) -> u8 {
    ((v % 128) * 2) as u8
}

pub open spec fn sraVal(v: u8) -> u8 {
    (v / 2 + (v / 128) * 128) as u8
}

pub open spec fn swapVal(v: u8) -> u8 {
    ((v % 16) * 16 + v / 16) as u8
}

pub open spec fn srlVal(v: u8) -> u8 {
    v / 2
}

/// PUSH AF / POP AF round-trip law.  `m1` below is the bus after PUSH AF ran
/// from stack pointer `sp`: A pushed first (to sp-1), then F (to sp-2).  Let
/// `t` be the bus at the later POP AF, after any stretch of stack-neutral
/// work: the two stack cells still read as PUSH left them.  Then the byte POP
/// AF loads into A is the old A, and the byte it loads into F — with its low
/// nibble forced to zero, as on every write to F — is exactly the old F,
/// whose low nibble was already zero.
pub proof fn lemma_push_pop_af(m: BusModel, t: BusModel, sp: u16, a: u8, f: u8)
    requires
        crate::bus::wfModel(m),
        f % 16 == 0,
        0xC002 <= sp <= 0xE000,
        readSpec(t, wsub(sp, 2)) == readSpec(
            writeSpec(writeSpec(m, wsub(sp, 1), a), wsub(sp, 2), f),
            wsub(sp, 2),
        ),
        readSpec(t, wsub(sp, 1)) == readSpec(
            writeSpec(writeSpec(m, wsub(sp, 1), a), wsub(sp, 2), f),
            wsub(sp, 1),
        ),
    ensures
        readSpec(t, wsub(sp, 2)) / 16 * 16 == f,
        readSpec(t, wsub(sp, 1)) == a,
{
    let m1 = writeSpec(m, wsub(sp, 1), a);
    let m2 = writeSpec(m1, wsub(sp, 2), f);
    crate::bus::lemma_write_then_read(m1, wsub(sp, 2), f);
    crate::bus::lemma_write_then_read(m, wsub(sp, 1), a);
    crate::bus::lemma_write_frame(m1, wsub(sp, 2), f, wsub(sp, 1));
}

/// Mathematical state of the whole machine: every CPU field as a plain
/// value, the bus as its sequence-based model.  The execution layer's
/// contracts equate the machine after a cycle with a spec-level transition of
/// this model.
pub struct CpuModel {
    pub a: u8,
    pub f: u8,
    pub b: u8,
    pub c: u8,
    pub d: u8,
    pub e: u8,
    pub h: u8,
    pub l: u8,
    pub sp: u16,
    pub pc: u16,
    pub cyclesLeft: u8,
    pub fetched: u8,
    pub currentOpcode: u8,
    pub prefixedInstruction: bool,
    pub branchTaken: bool,
    pub justBooted: bool,
    pub halted: bool,
    pub stopped: bool,
    pub masterInterrupt: bool,
    pub eiPending: bool,
    pub servicing: bool,
    pub serviceAddr: u16,
    pub bus: BusModel,
}

impl Z80 {
    /// The machine state as a mathematical model.
    pub open spec fn model(self) -> CpuModel {
        CpuModel {
            a: self.a,
            f: self.f,
            b: self.b,
            c: self.c,
            d: self.d,
            e: self.e,
            h: self.h,
            l: self.l,
            sp: self.sp,
            pc: self.pc,
            cyclesLeft: self.cyclesLeft,
            fetched: self.fetched,
            currentOpcode: self.currentOpcode,
            prefixedInstruction: self.prefixedInstruction,
            branchTaken: self.branchTaken,
            justBooted: self.justBooted,
            halted: self.halted,
            stopped: self.stopped,
            masterInterrupt: self.masterInterrupt,
            eiPending: self.eiPending,
            servicing: self.servicing,
            serviceAddr: self.serviceAddr,
            bus: self.bus.model(),
        }
    }
}

impl Z80 {
    /// Register-file invariant: the low nibble of F is zero and the bus RAM
    /// banks have their hardware sizes.
    pub open spec fn wf(self) -> bool {
        &&& self.f % 16 == 0
        &&& self.bus.wf()
    }

    /// The bus state as a mathematical model.
    pub open spec fn busModel(self) -> BusModel {
        self.bus.model()
    }

    pub fn new() -> (r: Self)
        ensures
            r.wf(),
            r.a == 0 && r.f == 0 && r.b == 0 && r.c == 0 && r.d == 0 && r.e == 0 && r.h == 0 && r.l
                == 0,
            r.sp == 0 && r.pc == 0,
            r.cyclesLeft == 0 && r.fetched == 0 && r.currentOpcode == 0,
            !r.prefixedInstruction && !r.branchTaken && r.justBooted,
            !r.halted && !r.stopped && !r.masterInterrupt && !r.eiPending,
            !r.servicing && r.serviceAddr == 0,
            r.bus.cartridge is None,
            r.busModel().ie == 0 && r.busModel().iflag == 0,
            r.busModel().timers == crate::timer::initTimers(),
            forall|i: int| 0 <= i < 4096 ==> r.busModel().wram0[i] == 0u8,
            forall|i: int| 0 <= i < 4096 ==> r.busModel().wram1[i] == 0u8,
            forall|i: int| 0 <= i < 127 ==> r.busModel().hram[i] == 0u8,
    {
        Self {
            a: 0,
            f: 0,
            b: 0,
            c: 0,
            d: 0,
            e: 0,
            h: 0,
            l: 0,
            sp: 0,
            pc: 0,
            bus: Bus::new(),
            cyclesLeft: 0,
            fetched: 0,
            currentOpcode: 0,
            prefixedInstruction: false,
            branchTaken: false,
            justBooted: true,
            halted: false,
            stopped: false,
            masterInterrupt: false,
            eiPending: false,
            servicing: false,
            serviceAddr: 0,
        }
    }

    /// Load the post-boot register values and clear the control state (IME,
    /// IF, halted, stopped); the next `clock` fetches from 0x0100.
    pub fn reset(&mut self)
        requires
            old(self).bus.wf(),
        ensures
            final(self).wf(),
            final(self).a == 0x01 && final(self).f == 0xB0,
            final(self).b == 0x00 && final(self).c == 0x13,
            final(self).d == 0x00 && final(self).e == 0xD8,
            final(self).h == 0x01 && final(self).l == 0x4D,
            final(self).sp == 0xFFFE && final(self).pc == 0x0100,
            final(self).cyclesLeft == 0 && final(self).justBooted,
            !final(self).halted && !final(self).stopped,
            !final(self).masterInterrupt && !final(self).eiPending,
            !final(self).branchTaken && !final(self).servicing,
            !final(self).prefixedInstruction,
            final(self).busModel() == (BusModel { iflag: 0u8, ..old(self).busModel() }),
    {
        self.a = 0x01;
        self.f = 0xB0;
        self.b = 0x00;
        self.c = 0x13;
        self.d = 0x00;
        self.e = 0xD8;
        self.h = 0x01;
        self.l = 0x4D;
        self.sp = 0xFFFE;
        self.pc = 0x0100;
        self.cyclesLeft = 0;
        self.justBooted = true;
        self.halted = false;
        self.stopped = false;
        self.masterInterrupt = false;
        self.eiPending = false;
        self.branchTaken = false;
        self.servicing = false;
        self.prefixedInstruction = false;
        self.bus.interruptRequestRegister = 0;
    }

    // -----------------------------------------------------------------------
    // Register pairs
    // -----------------------------------------------------------------------
    pub fn getAF(&self) -> (r: u16)
        ensures
            r == pair16(self.a, self.f),
    {
        (self.a as u16) * 256 + (self.f as u16)
    }

    pub fn getBC(&self) -> (r: u16)
        ensures
            r == pair16(self.b, self.c),
    {
        (self.b as u16) * 256 + (self.c as u16)
    }

    pub fn getDE(&self) -> (r: u16)
        ensures
            r == pair16(self.d, self.e),
    {
        (self.d as u16) * 256 + (self.e as u16)
    }

    pub fn getHL(&self) -> (r: u16)
        ensures
            r == pair16(self.h, self.l),
    {
        (self.h as u16) * 256 + (self.l as u16)
    }

    /// Write AF; the low nibble of F is forced to zero, as on any write to F.
    pub fn setAF(&mut self, data: u16)
        ensures
            final(self).a == hi8(data),
            final(self).f == lo8(data) / 16 * 16,
            *final(self) == (Z80 { a: final(self).a, f: final(self).f, ..*old(self) }),
            final(self).f % 16 == 0,
    {
        self.a = (data / 256) as u8;
        let low = (data % 256) as u8;
        self.f = low / 16 * 16;
    }

    pub fn setBC(&mut self, data: u16)
        ensures
            final(self).b == hi8(data) && final(self).c == lo8(data),
            *final(self) == (Z80 { b: final(self).b, c: final(self).c, ..*old(self) }),
    {
        self.b = (data / 256) as u8;
        self.c = (data % 256) as u8;
    }

    pub fn setDE(&mut self, data: u16)
        ensures
            final(self).d == hi8(data) && final(self).e == lo8(data),
            *final(self) == (Z80 { d: final(self).d, e: final(self).e, ..*old(self) }),
    {
        self.d = (data / 256) as u8;
        self.e = (data % 256) as u8;
    }

    pub fn setHL(&mut self, data: u16)
        ensures
            final(self).h == hi8(data) && final(self).l == lo8(data),
            *final(self) == (Z80 { h: final(self).h, l: final(self).l, ..*old(self) }),
    {
        self.h = (data / 256) as u8;
        self.l = (data % 256) as u8;
    }

    // -----------------------------------------------------------------------
    // Flags
    // -----------------------------------------------------------------------
    pub fn getFlag(&self, fl: Flags) -> (r: bool)
        ensures
            r == getFlagSpec(self.f, fl),
    {
        crate::bit::get(self.f, fl.index())
    }

    /// Set or clear one flag bit, leaving the rest of F alone.
    pub fn setFlag(&mut self, v: bool, fl: Flags)
        ensures
            final(self).f == (if v {
                old(self).f | (1u8 << fl.bitIndex())
            } else {
                old(self).f & !(1u8 << fl.bitIndex())
            }),
            *final(self) == (Z80 { f: final(self).f, ..*old(self) }),
    {
        if v {
            self.f = crate::bit::set(self.f, fl.index());
        } else {
            self.f = crate::bit::clr(self.f, fl.index());
        }
    }

    /// Set the Zero flag from a result byte.
    pub fn setZeroFlag(&mut self, d: u8)
        ensures
            final(self).f == (if d == 0 {
                old(self).f | (1u8 << 7)
            } else {
                old(self).f & !(1u8 << 7)
            }),
            *final(self) == (Z80 { f: final(self).f, ..*old(self) }),
    {
        self.setFlag(d == 0, Flags::Zero);
    }

    /// Replace F wholesale with the four flags.
    pub(crate) fn setFlags(&mut self, z: bool, n: bool, h: bool, cy: bool)
        ensures
            final(self).f == flagsByte(z, n, h, cy),
            flagZSpec(final(self).f) == z,
            flagNSpec(final(self).f) == n,
            flagHSpec(final(self).f) == h,
            flagCSpec(final(self).f) == cy,
            final(self).f % 16 == 0,
            *final(self) == (Z80 { f: final(self).f, ..*old(self) }),
    {
        proof {
            lemma_flags_byte(z, n, h, cy);
        }
        let mut v: u8 = 0;
        if z {
            v = v + 0x80;
        }
        if n {
            v = v + 0x40;
        }
        if h {
            v = v + 0x20;
        }
        if cy {
            v = v + 0x10;
        }
        self.f = v;
    }

    /// Write F from a popped byte: the low nibble is forced to zero.
    pub(crate) fn setF(&mut self, v: u8)
        ensures
            final(self).f == v / 16 * 16,
            final(self).f % 16 == 0,
            *final(self) == (Z80 { f: final(self).f, ..*old(self) }),
    {
        self.f = v / 16 * 16;
    }

    // -----------------------------------------------------------------------
    // Bus access
    // -----------------------------------------------------------------------
    pub fn readByte(&self, addr: u16) -> (r: u8)
        requires
            self.bus.wf(),
        ensures
            r == readSpec(self.busModel(), addr),
    {
        self.bus.cpuRead(addr)
    }

    /// Read a little-endian 16-bit word at `addr`.
    pub fn readBytes(&self, addr: u16) -> (r: u16)
        requires
            self.bus.wf(),
        ensures
            r == pair16(
                readSpec(self.busModel(), wadd(addr, 1)),
                readSpec(self.busModel(), addr),
            ),
    {
        let lo = self.bus.cpuRead(addr);
        let hiAddr = if addr == 0xFFFF {
            0u16
        } else {
            addr + 1
        };
        let hi = self.bus.cpuRead(hiAddr);
        (hi as u16) * 256 + (lo as u16)
    }

    pub fn writeByte(&mut self, addr: u16, data: u8)
        requires
            old(self).bus.wf(),
        ensures
            final(self).bus.wf(),
            final(self).busModel() == writeSpec(old(self).busModel(), addr, data),
            *final(self) == (Z80 { bus: final(self).bus, ..*old(self) }),
    {
        self.bus.cpuWrite(addr, data);
    }

    /// Write a little-endian 16-bit word at `addr`.
    pub fn writeBytes(&mut self, addr: u16, data: u16)
        requires
            old(self).bus.wf(),
        ensures
            final(self).bus.wf(),
            final(self).busModel() == writeSpec(
                writeSpec(old(self).busModel(), addr, lo8(data)),
                wadd(addr, 1),
                hi8(data),
            ),
            *final(self) == (Z80 { bus: final(self).bus, ..*old(self) }),
    {
        let dLO = (data % 256) as u8;
        let dHI = (data / 256) as u8;
        self.bus.cpuWrite(addr, dLO);
        let hiAddr = if addr == 0xFFFF {
            0u16
        } else {
            addr + 1
        };
        self.bus.cpuWrite(hiAddr, dHI);
    }

    // -----------------------------------------------------------------------
    // 8-bit ALU; each returns the result and writes the four flags
    // -----------------------------------------------------------------------
    pub fn ADD(&mut self, op1: u8, op2: u8) -> (r: u8)
        ensures
            r == addVal(op1, op2),
            final(self).f == flagsByte(
                addVal(op1, op2) == 0,
                false,
                op1 % 16 + op2 % 16 > 15,
                op1 + op2 > 255,
            ),
            *final(self) == (Z80 { f: final(self).f, ..*old(self) }),
    {
        let sum = op1 as u16 + op2 as u16;
        let result = (sum % 256) as u8;
        self.setFlags(result == 0, false, op1 % 16 + op2 % 16 > 15, sum > 255);
        result
    }

    pub fn ADC(&mut self, op1: u8, op2: u8) -> (r: u8)
        ensures
            r == adcVal(op1, op2, flagCSpec(old(self).f)),
            final(self).f == flagsByte(
                adcVal(op1, op2, flagCSpec(old(self).f)) == 0,
                false,
                op1 % 16 + op2 % 16 + (if flagCSpec(old(self).f) {
                    1int
                } else {
                    0
                }) > 15,
                op1 + op2 + (if flagCSpec(old(self).f) {
                    1int
                } else {
                    0
                }) > 255,
            ),
            *final(self) == (Z80 { f: final(self).f, ..*old(self) }),
    {
        let cin: u16 = if self.getFlag(Flags::Carry) {
            1
        } else {
            0
        };
        let sum = op1 as u16 + op2 as u16 + cin;
        let result = (sum % 256) as u8;
        self.setFlags(
            result == 0,
            false,
            (op1 % 16) as u16 + (op2 % 16) as u16 + cin > 15,
            sum > 255,
        );
        result
    }

    pub fn SUB(&mut self, op1: u8, op2: u8) -> (r: u8)
        ensures
            r == subVal(op1, op2),
            final(self).f == flagsByte(
                subVal(op1, op2) == 0,
                true,
                op1 % 16 < op2 % 16,
                op1 < op2,
            ),
            *final(self) == (Z80 { f: final(self).f, ..*old(self) }),
    {
        let result = if op1 >= op2 {
            op1 - op2
        } else {
            (op1 as u16 + 256 - op2 as u16) as u8
        };
        self.setFlags(result == 0, true, op1 % 16 < op2 % 16, op1 < op2);
        result
    }

    pub fn SBC(&mut self, op1: u8, op2: u8) -> (r: u8)
        ensures
            r == sbcVal(op1, op2, flagCSpec(old(self).f)),
            final(self).f == flagsByte(
                sbcVal(op1, op2, flagCSpec(old(self).f)) == 0,
                true,
                (op1 % 16) < op2 % 16 + (if flagCSpec(old(self).f) {
                    1int
                } else {
                    0
                }),
                (op1 as int) < op2 + (if flagCSpec(old(self).f) {
                    1int
                } else {
                    0
                }),
            ),
            *final(self) == (Z80 { f: final(self).f, ..*old(self) }),
    {
        let cin: u16 = if self.getFlag(Flags::Carry) {
            1
        } else {
            0
        };
        let t = op2 as u16 + cin;
        let a16 = op1 as u16;
        let result = if a16 >= t {
            (a16 - t) as u8
        } else {
            (a16 + 256 - t) as u8
        };
        let halfBorrow = ((op1 % 16) as u16) < ((op2 % 16) as u16) + cin;
        self.setFlags(result == 0, true, halfBorrow, a16 < t);
        result
    }

    pub fn AND(&mut self, op1: u8, op2: u8) -> (r: u8)
        ensures
            r == (op1 & op2),
            final(self).f == flagsByte((op1 & op2) == 0, false, true, false),
            *final(self) == (Z80 { f: final(self).f, ..*old(self) }),
    {
        let r = op1 & op2;
        self.setFlags(r == 0, false, true, false);
        r
    }

    pub fn XOR(&mut self, op1: u8, op2: u8) -> (r: u8)
        ensures
            r == (op1 ^ op2),
            final(self).f == flagsByte((op1 ^ op2) == 0, false, false, false),
            *final(self) == (Z80 { f: final(self).f, ..*old(self) }),
    {
        let r = op1 ^ op2;
        self.setFlags(r == 0, false, false, false);
        r
    }

    pub fn OR(&mut self, op1: u8, op2: u8) -> (r: u8)
        ensures
            r == (op1 | op2),
            final(self).f == flagsByte((op1 | op2) == 0, false, false, false),
            *final(self) == (Z80 { f: final(self).f, ..*old(self) }),
    {
        let r = op1 | op2;
        self.setFlags(r == 0, false, false, false);
        r
    }

    // -----------------------------------------------------------------------
    // Rotates and shifts; the CB-prefixed forms set Zero from the result
    // -----------------------------------------------------------------------
    pub fn RLC(&mut self, op1: u8) -> (r: u8)
        ensures
            r == rlcVal(op1),
            final(self).f == flagsByte(rlcVal(op1) == 0, false, false, op1 >= 128),
            flagCSpec(final(self).f) == (op1 >= 128),
            *final(self) == (Z80 { f: final(self).f, ..*old(self) }),
    {
        let result = (op1 % 128) * 2 + op1 / 128;
        self.setFlags(result == 0, false, false, op1 >= 128);
        result
    }

    pub fn RRC(&mut self, op1: u8) -> (r: u8)
        ensures
            r == rrcVal(op1),
            final(self).f == flagsByte(rrcVal(op1) == 0, false, false, op1 % 2 == 1),
            flagCSpec(final(self).f) == (op1 % 2 == 1),
            *final(self) == (Z80 { f: final(self).f, ..*old(self) }),
    {
        let result = op1 / 2 + (op1 % 2) * 128;
        self.setFlags(result == 0, false, false, op1 % 2 == 1);
        result
    }

    pub fn RL(&mut self, op1: u8) -> (r: u8)
        ensures
            r == rlVal(op1, flagCSpec(old(self).f)),
            final(self).f == flagsByte(
                rlVal(op1, flagCSpec(old(self).f)) == 0,
                false,
                false,
                op1 >= 128,
            ),
            flagCSpec(final(self).f) == (op1 >= 128),
            *final(self) == (Z80 { f: final(self).f, ..*old(self) }),
    {
        let cin: u8 = if self.getFlag(Flags::Carry) {
            1
        } else {
            0
        };
        let result = (op1 % 128) * 2 + cin;
        self.setFlags(result == 0, false, false, op1 >= 128);
        result
    }

    pub fn RR(&mut self, op1: u8) -> (r: u8)
        ensures
            r == rrVal(op1, flagCSpec(old(self).f)),
            final(self).f == flagsByte(
                rrVal(op1, flagCSpec(old(self).f)) == 0,
                false,
                false,
                op1 % 2 == 1,
            ),
            flagCSpec(final(self).f) == (op1 % 2 == 1),
            *final(self) == (Z80 { f: final(self).f, ..*old(self) }),
    {
        let cin: u8 = if self.getFlag(Flags::Carry) {
            128
        } else {
            0
        };
        let result = op1 / 2 + cin;
        self.setFlags(result == 0, false, false, op1 % 2 == 1);
        result
    }

    pub fn SLA(&mut self, op1: u8) -> (r: u8)
        ensures
            r == slaVal(op1),
            final(self).f == flagsByte(slaVal(op1) == 0, false, false, op1 >= 128),
            flagCSpec(final(self).f) == (op1 >= 128),
            *final(self) == (Z80 { f: final(self).f, ..*old(self) }),
    {
        let result = (op1 % 128) * 2;
        self.setFlags(result == 0, false, false, op1 >= 128);
        result
    }

    /// Arithmetic shift right: bit 7 is preserved.
    pub fn SRA(&mut self, op1: u8) -> (r: u8)
        ensures
            r == sraVal(op1),
            final(self).f == flagsByte(sraVal(op1) == 0, false, false, op1 % 2 == 1),
            flagCSpec(final(self).f) == (op1 % 2 == 1),
            *final(self) == (Z80 { f: final(self).f, ..*old(self) }),
    {
        let result = op1 / 2 + (op1 / 128) * 128;
        self.setFlags(result == 0, false, false, op1 % 2 == 1);
        result
    }

    /// Exchange the nibbles; Carry is cleared.
    pub fn SWAP(&mut self, op1: u8) -> (r: u8)
        ensures
            r == swapVal(op1),
            final(self).f == flagsByte(swapVal(op1) == 0, false, false, false),
            flagCSpec(final(self).f) == false,
            *final(self) == (Z80 { f: final(self).f, ..*old(self) }),
    {
        let result = (op1 % 16) * 16 + op1 / 16;
        self.setFlags(result == 0, false, false, false);
        result
    }

    pub fn SRL(&mut self, op1: u8) -> (r: u8)
        ensures
            r == srlVal(op1),
            final(self).f == flagsByte(srlVal(op1) == 0, false, false, op1 % 2 == 1),
            flagCSpec(final(self).f) == (op1 % 2 == 1),
            *final(self) == (Z80 { f: final(self).f, ..*old(self) }),
    {
        let result = op1 / 2;
        self.setFlags(result == 0, false, false, op1 % 2 == 1);
        result
    }

    /// Test bit `n`: Zero is the complement of the bit, Carry is untouched.
    pub fn BIT(&mut self, op1: u8, n: u8)
        requires
            n < 8,
        ensures
            final(self).f == flagsByte(
                op1 & (1u8 << n) == 0,
                false,
                true,
                flagCSpec(old(self).f),
            ),
            *final(self) == (Z80 { f: final(self).f, ..*old(self) }),
    {
        let bitSet = crate::bit::get(op1, n as usize);
        let cy = self.getFlag(Flags::Carry);
        self.setFlags(!bitSet, false, true, cy);
    }

    pub fn RES(&self, op1: u8, n: u8) -> (r: u8)
        requires
            n < 8,
        ensures
            r == (op1 & !(1u8 << n)),
    {
        crate::bit::clr(op1, n as usize)
    }

    pub fn SET(&self, op1: u8, n: u8) -> (r: u8)
        requires
            n < 8,
        ensures
            r == (op1 | (1u8 << n)),
    {
        crate::bit::set(op1, n as usize)
    }

    // -----------------------------------------------------------------------
    // Stack
    // -----------------------------------------------------------------------
    /// Pop one byte: read at SP, then increment SP.
    pub fn POP8(&mut self) -> (r: u8)
        requires
            old(self).bus.wf(),
        ensures
            r == readSpec(old(self).busModel(), old(self).sp),
            final(self).sp == wadd(old(self).sp, 1),
            *final(self) == (Z80 { sp: final(self).sp, ..*old(self) }),
    {
        let d = self.readByte(self.sp);
        self.sp = if self.sp == 0xFFFF {
            0
        } else {
            self.sp + 1
        };
        d
    }

    /// Push one byte: decrement SP, then write at SP.
    pub fn PUSH8(&mut self, d: u8)
        requires
            old(self).bus.wf(),
        ensures
            final(self).bus.wf(),
            final(self).sp == wsub(old(self).sp, 1),
            final(self).busModel() == writeSpec(old(self).busModel(), wsub(old(self).sp, 1), d),
            *final(self) == (Z80 { sp: final(self).sp, bus: final(self).bus, ..*old(self) }),
    {
        self.sp = if self.sp == 0 {
            0xFFFF
        } else {
            self.sp - 1
        };
        let sp = self.sp;
        self.writeByte(sp, d);
    }

    // -----------------------------------------------------------------------
    // Control flow, one M-cycle at a time (keyed on `cyclesLeft`)
    // -----------------------------------------------------------------------
    /// Interrupt dispatch body: two idle cycles, push PC high then low, then
    /// load PC from the vector.
    pub fn INT(&mut self, addr: u16)
        requires
            old(self).bus.wf(),
        ensures
            final(self).bus.wf(),
            old(self).cyclesLeft == 3 ==> final(self).sp == wsub(old(self).sp, 1) && final(self).busModel() == writeSpec(old(self).busModel(), wsub(old(self).sp, 1), hi8(old(self).pc))
                && *final(self) == (Z80 {
                sp: final(self).sp,
                bus: final(self).bus,
                ..*old(self)
            }),
            old(self).cyclesLeft == 2 ==> final(self).sp == wsub(old(self).sp, 1) && final(self).busModel() == writeSpec(old(self).busModel(), wsub(old(self).sp, 1), lo8(old(self).pc))
                && *final(self) == (Z80 {
                sp: final(self).sp,
                bus: final(self).bus,
                ..*old(self)
            }),
            old(self).cyclesLeft == 1 ==> *final(self) == (Z80 { pc: addr, ..*old(self) }),
            old(self).cyclesLeft == 0 || old(self).cyclesLeft > 3 ==> *final(self) == *old(self),
            final(self).model() == crate::step::intCycleSpec(old(self).model(), addr),
    {
        if self.cyclesLeft == 3 {
            let hi = (self.pc / 256) as u8;
            self.PUSH8(hi);
        } else if self.cyclesLeft == 2 {
            let lo = (self.pc % 256) as u8;
            self.PUSH8(lo);
        } else if self.cyclesLeft == 1 {
            self.pc = addr;
        }
    }

    /// Shared body of RET and RET cc on their final cycle: pop PC low, then
    /// high, and mark the branch taken.
    fn retFinal(&mut self)
        requires
            old(self).bus.wf(),
        ensures
            final(self).pc == pair16(
                readSpec(old(self).busModel(), wadd(old(self).sp, 1)),
                readSpec(old(self).busModel(), old(self).sp),
            ),
            final(self).sp == wadd(old(self).sp, 2),
            *final(self) == (Z80 {
                pc: final(self).pc,
                sp: final(self).sp,
                branchTaken: true,
                ..*old(self)
            }),
    {
        let lo = self.POP8();
        let hi = self.POP8();
        self.pc = (hi as u16) * 256 + (lo as u16);
        self.branchTaken = true;
    }

    /// RET cc: when the condition fails the instruction idles (its cycle
    /// budget was already shortened at fetch); when it holds, the final cycle
    /// pops PC.
    pub fn RET_CONDITIAL(&mut self, condition: bool)
        requires
            old(self).bus.wf(),
        ensures
            old(self).cyclesLeft == 1 && condition ==> final(self).pc == pair16(
                readSpec(old(self).busModel(), wadd(old(self).sp, 1)),
                readSpec(old(self).busModel(), old(self).sp),
            ) && final(self).sp == wadd(old(self).sp, 2) && *final(self) == (Z80 {
                pc: final(self).pc,
                sp: final(self).sp,
                branchTaken: true,
                ..*old(self)
            }),
            !(old(self).cyclesLeft == 1 && condition) ==> *final(self) == *old(self),
    {
        if self.cyclesLeft == 1 && condition {
            self.retFinal();
        }
    }

    /// RETI: RET plus an immediate (not delayed) IME enable.
    pub fn RETI(&mut self)
        requires
            old(self).bus.wf(),
        ensures
            old(self).cyclesLeft == 1 ==> final(self).pc == pair16(
                readSpec(old(self).busModel(), wadd(old(self).sp, 1)),
                readSpec(old(self).busModel(), old(self).sp),
            ) && final(self).sp == wadd(old(self).sp, 2) && *final(self) == (Z80 {
                pc: final(self).pc,
                sp: final(self).sp,
                branchTaken: true,
                masterInterrupt: true,
                ..*old(self)
            }),
            old(self).cyclesLeft != 1 ==> *final(self) == *old(self),
    {
        if self.cyclesLeft == 1 {
            self.retFinal();
            self.masterInterrupt = true;
        }
    }

    pub fn RET(&mut self)
        requires
            old(self).bus.wf(),
        ensures
            old(self).cyclesLeft == 1 ==> final(self).pc == pair16(
                readSpec(old(self).busModel(), wadd(old(self).sp, 1)),
                readSpec(old(self).busModel(), old(self).sp),
            ) && final(self).sp == wadd(old(self).sp, 2) && *final(self) == (Z80 {
                pc: final(self).pc,
                sp: final(self).sp,
                branchTaken: true,
                ..*old(self)
            }),
            old(self).cyclesLeft != 1 ==> *final(self) == *old(self),
    {
        if self.cyclesLeft == 1 {
            self.retFinal();
        }
    }

    /// JP cc / JP nn: on the final cycle of a taken jump, load PC.
    pub fn JP_CONDITIAL(&mut self, condition: bool, addr: u16)
        ensures
            old(self).cyclesLeft == 1 && condition ==> *final(self) == (Z80 {
                pc: addr,
                branchTaken: true,
                ..*old(self)
            }),
            !(old(self).cyclesLeft == 1 && condition) ==> *final(self) == *old(self),
    {
        if self.cyclesLeft == 1 && condition {
            self.pc = addr;
            self.branchTaken = true;
        }
    }

    /// CALL cc / CALL nn: push the return address (PC after the 3-byte
    /// instruction) high byte first, then jump.
    pub fn CALL_CONDITIONAL(&mut self, condition: bool, addr: u16)
        requires
            old(self).bus.wf(),
        ensures
            final(self).bus.wf(),
            old(self).cyclesLeft == 3 && condition ==> final(self).sp == wsub(old(self).sp, 1)
                && final(self).busModel() == writeSpec(
                old(self).busModel(),
                wsub(old(self).sp, 1),
                hi8(wadd(old(self).pc, 3)),
            ) && *final(self) == (Z80 { sp: final(self).sp, bus: final(self).bus, ..*old(self) }),
            old(self).cyclesLeft == 2 && condition ==> final(self).sp == wsub(old(self).sp, 1)
                && final(self).busModel() == writeSpec(
                old(self).busModel(),
                wsub(old(self).sp, 1),
                lo8(wadd(old(self).pc, 3)),
            ) && *final(self) == (Z80 { sp: final(self).sp, bus: final(self).bus, ..*old(self) }),
            old(self).cyclesLeft == 1 && condition ==> *final(self) == (Z80 {
                pc: addr,
                branchTaken: true,
                ..*old(self)
            }),
            !condition || old(self).cyclesLeft == 0 || old(self).cyclesLeft > 3 ==> *final(self)
                == *old(self),
    {
        if condition {
            if self.cyclesLeft == 3 {
                let ret = self.pc.wrapping_add(3);
                self.PUSH8((ret / 256) as u8);
            } else if self.cyclesLeft == 2 {
                let ret = self.pc.wrapping_add(3);
                self.PUSH8((ret % 256) as u8);
            } else if self.cyclesLeft == 1 {
                self.pc = addr;
                self.branchTaken = true;
            }
        }
    }

    /// RST: push the return address (PC after the 1-byte instruction) high
    /// byte first, then jump to the fixed vector.
    pub fn RST(&mut self, offset: u8)
        requires
            old(self).bus.wf(),
        ensures
            final(self).bus.wf(),
            old(self).cyclesLeft == 3 ==> final(self).sp == wsub(old(self).sp, 1) && final(self).busModel() == writeSpec(
                old(self).busModel(),
                wsub(old(self).sp, 1),
                hi8(wadd(old(self).pc, 1)),
            ) && *final(self) == (Z80 { sp: final(self).sp, bus: final(self).bus, ..*old(self) }),
            old(self).cyclesLeft == 2 ==> final(self).sp == wsub(old(self).sp, 1) && final(self).busModel() == writeSpec(
                old(self).busModel(),
                wsub(old(self).sp, 1),
                lo8(wadd(old(self).pc, 1)),
            ) && *final(self) == (Z80 { sp: final(self).sp, bus: final(self).bus, ..*old(self) }),
            old(self).cyclesLeft == 1 ==> *final(self) == (Z80 {
                pc: offset as u16,
                branchTaken: true,
                ..*old(self)
            }),
            old(self).cyclesLeft == 0 || old(self).cyclesLeft > 3 ==> *final(self) == *old(self),
    {
        if self.cyclesLeft == 3 {
            let ret = self.pc.wrapping_add(1);
            self.PUSH8((ret / 256) as u8);
        } else if self.cyclesLeft == 2 {
            let ret = self.pc.wrapping_add(1);
            self.PUSH8((ret % 256) as u8);
        } else if self.cyclesLeft == 1 {
            self.pc = offset as u16;
            self.branchTaken = true;
        }
    }

    /// JR cc / JR e: on the final cycle of a taken jump, add the signed
    /// displacement to the address of the next instruction.
    pub fn JR_CONDITIONAL(&mut self, condition: bool)
        requires
            old(self).bus.wf(),
        ensures
            old(self).cyclesLeft == 1 && condition ==> *final(self) == (Z80 {
                pc: wadd(
                    wadd(old(self).pc, 2),
                    signedOffset(readSpec(old(self).busModel(), wadd(old(self).pc, 1))),
                ),
                branchTaken: true,
                ..*old(self)
            }),
            !(old(self).cyclesLeft == 1 && condition) ==> *final(self) == *old(self),
    {
        if self.cyclesLeft == 1 && condition {
            let operandAddr = self.pc.wrapping_add(1);
            let eu = self.readByte(operandAddr);
            let off: u16 = if eu >= 0x80 {
                eu as u16 + 0xFF00
            } else {
                eu as u16
            };
            self.pc = self.pc.wrapping_add(2).wrapping_add(off);
            self.branchTaken = true;
        }
    }

    // -----------------------------------------------------------------------
    // 8-bit increment / decrement (Carry untouched) and DAA
    // -----------------------------------------------------------------------
    /// INC r: result and flags (Carry keeps its old value).
    pub(crate) fn inc8(&mut self, v: u8) -> (r: u8)
        ensures
            r == addVal(v, 1),
            final(self).f == flagsByte(
                addVal(v, 1) == 0,
                false,
                v % 16 == 15,
                flagCSpec(old(self).f),
            ),
            *final(self) == (Z80 { f: final(self).f, ..*old(self) }),
    {
        let r = if v == 255 {
            0
        } else {
            v + 1
        };
        let cy = self.getFlag(Flags::Carry);
        self.setFlags(r == 0, false, v % 16 == 15, cy);
        r
    }

    /// DEC r: result and flags (Carry keeps its old value).
    pub(crate) fn dec8(&mut self, v: u8) -> (r: u8)
        ensures
            r == subVal(v, 1),
            final(self).f == flagsByte(
                subVal(v, 1) == 0,
                true,
                v % 16 == 0,
                flagCSpec(old(self).f),
            ),
            *final(self) == (Z80 { f: final(self).f, ..*old(self) }),
    {
        let r = if v == 0 {
            255
        } else {
            v - 1
        };
        let cy = self.getFlag(Flags::Carry);
        self.setFlags(r == 0, true, v % 16 == 0, cy);
        r
    }

    /// DAA: adjust A to binary-coded decimal after an add or subtract.
    pub(crate) fn daaApply(&mut self)
        ensures
            final(self).a == daaVal(
                old(self).a,
                flagNSpec(old(self).f),
                flagHSpec(old(self).f),
                flagCSpec(old(self).f),
            ),
            final(self).f == flagsByte(
                final(self).a == 0,
                flagNSpec(old(self).f),
                false,
                daaCarry(old(self).a, flagNSpec(old(self).f), flagCSpec(old(self).f)),
            ),
            *final(self) == (Z80 { a: final(self).a, f: final(self).f, ..*old(self) }),
    {
        let n = self.getFlag(Flags::Sub);
        let h = self.getFlag(Flags::HCarry);
        let c = self.getFlag(Flags::Carry);
        let a0 = self.a;
        let mut a = self.a;
        let mut newC = c;
        if !n {
            if h || a % 16 > 9 {
                a = if a as u16 + 6 > 255 {
                    (a as u16 + 6 - 256) as u8
                } else {
                    a + 6
                };
            }
            if c || a0 > 0x99 {
                a = if a as u16 + 0x60 > 255 {
                    (a as u16 + 0x60 - 256) as u8
                } else {
                    a + 0x60
                };
                newC = true;
            }
        } else {
            if h {
                a = if a >= 6 {
                    a - 6
                } else {
                    (a as u16 + 256 - 6) as u8
                };
            }
            if c {
                a = if a >= 0x60 {
                    a - 0x60
                } else {
                    (a as u16 + 256 - 0x60) as u8
                };
            }
        }
        self.a = a;
        let z = a == 0;
        self.setFlags(z, n, false, newC);
    }

    /// ADD HL,rr: Zero keeps its value, half-carry comes from bit 11 and
    /// carry from bit 15; the result lands in HL.
    pub(crate) fn addHL(&mut self, rr: u16)
        ensures
            final(self).h == hi8(wadd(pair16(old(self).h, old(self).l), rr)),
            final(self).l == lo8(wadd(pair16(old(self).h, old(self).l), rr)),
            final(self).f == flagsByte(
                flagZSpec(old(self).f),
                false,
                pair16(old(self).h, old(self).l) % 4096 + rr % 4096 > 4095,
                pair16(old(self).h, old(self).l) + rr > 65535,
            ),
            *final(self) == (Z80 {
                h: final(self).h,
                l: final(self).l,
                f: final(self).f,
                ..*old(self)
            }),
    {
        let hl = self.getHL();
        let z = self.getFlag(Flags::Zero);
        let half = hl % 4096 + rr % 4096 > 4095;
        let carry = hl as u32 + rr as u32 > 65535;
        let sum = hl.wrapping_add(rr);
        self.setHL(sum);
        self.setFlags(z, false, half, carry);
    }
}

} // verus!
