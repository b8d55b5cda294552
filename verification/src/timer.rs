//! DIV/TIMA/TMA/TAC timer unit with the SM83 falling-edge behaviour.
//!
//! `divRegister` is the internal 16-bit counter; the DIV port shows its high
//! byte.  It advances by 4 (one M-cycle is four T-cycles) on every tick.  TIMA
//! increments when the mux bit selected by TAC, ANDed with the TAC enable bit,
//! falls from 1 to 0.  A TIMA overflow starts a four-M-cycle pipeline before
//! TIMA is reloaded from TMA and the Timer interrupt is requested.

use vstd::prelude::*;

use crate::bit;

verus! {

#[derive(Clone, Copy, Debug, PartialEq, Eq, Structural)]
pub struct Timers {
    /// Internal 16-bit divider; the DIV port reads its high byte.
    pub divRegister: u16,
    pub timaRegister: u8,
    pub tacRegister: u8,
    pub tmaRegister: u8,
    /// Previous value of `mux bit AND enable`, for the falling-edge detector.
    pub lastCycleBit: bool,
    /// M-cycles spent so far in the overflow pipeline (0..=3).
    pub timerOverflowDelay: u8,
    /// A TIMA overflow is waiting for its reload.
    pub timaOverflow: bool,
    /// TMA value before the most recent TMA write, used when the reload lands
    /// on the same cycle as that write.
    pub oldTMA: u8,
    /// A TMA write happened since the last tick.
    pub tmaWriteCycle: bool,
}

/// True iff bit `n` of the 16-bit word `v` is set.
pub open spec fn bit16(v: u16, n: usize) -> bool {
    v & (1u16 << n) != 0
}

/// Which bit of the divider the TAC clock select feeds to the edge detector.
pub open spec fn selShift(tac: u8) -> usize {
    if tac & 0b11 == 0 {
        9
    } else if tac & 0b11 == 1 {
        3
    } else if tac & 0b11 == 2 {
        5
    } else {
        7
    }
}

pub open spec fn timerEnabled(tac: u8) -> bool {
    tac & (1u8 << 2) != 0
}

/// The selected divider bit.
pub open spec fn muxBit(div: u16, tac: u8) -> bool {
    bit16(div, selShift(tac))
}

/// Input of the falling-edge detector: mux bit AND enable.
pub open spec fn andNow(div: u16, tac: u8) -> bool {
    muxBit(div, tac) && timerEnabled(tac)
}

/// The divider after one M-cycle (add 4, wrapping at 2^16).
pub open spec fn divAfterVal(d: u16) -> u16 {
    if d >= 0xFFFC {
        (d + 4 - 0x10000) as u16
    } else {
        (d + 4) as u16
    }
}

/// The falling-edge detector fires this tick: its input drops from 1 to 0
/// once the divider has advanced.  Each firing increments TIMA, except the
/// one that lands on a reload cycle, which the reload swallows.
pub open spec fn edgeInTick(t: Timers) -> bool {
    t.lastCycleBit && !andNow(divAfterVal(t.divRegister), t.tacRegister)
}

/// The reload (and the Timer interrupt) lands on this tick.
pub open spec fn tickIrqSpec(t: Timers) -> bool {
    t.timaOverflow && t.timerOverflowDelay >= 3
}

/// One M-cycle of the timer: advance the divider, run the overflow pipeline,
/// then the falling-edge detector.
pub open spec fn tickedTimers(t: Timers) -> Timers {
    let div2 = divAfterVal(t.divRegister);
    let reload = tickIrqSpec(t);
    let timaP = if reload {
        if t.tmaWriteCycle {
            t.oldTMA
        } else {
            t.tmaRegister
        }
    } else {
        t.timaRegister
    };
    let ovP = t.timaOverflow && !reload;
    let delayP = if ovP {
        (t.timerOverflowDelay + 1) as u8
    } else {
        0u8
    };
    let now = andNow(div2, t.tacRegister);
    // a falling edge on the same cycle as the reload is swallowed: the
    // reload wins
    let edge = t.lastCycleBit && !now && !reload;
    let tima2 = if edge {
        if timaP == 0xFF {
            0u8
        } else {
            (timaP + 1) as u8
        }
    } else {
        timaP
    };
    let ov2 = if edge {
        timaP == 0xFF
    } else {
        ovP
    };
    let delay2 = if edge {
        0u8
    } else {
        delayP
    };
    Timers {
        divRegister: div2,
        timaRegister: tima2,
        tacRegister: t.tacRegister,
        tmaRegister: t.tmaRegister,
        lastCycleBit: now,
        timerOverflowDelay: delay2,
        timaOverflow: ov2,
        oldTMA: t.oldTMA,
        tmaWriteCycle: false,
    }
}

/// Effect of a CPU write to the DIV port: the divider resets to 0, which may
/// itself produce a falling edge on the detector input.  A reload already
/// pending stays pending: only a TIMA write cancels it.
pub open spec fn divWrittenTimers(t: Timers) -> Timers {
    let edge = t.lastCycleBit;
    let tima2 = if edge {
        if t.timaRegister == 0xFF {
            0u8
        } else {
            (t.timaRegister + 1) as u8
        }
    } else {
        t.timaRegister
    };
    // only a fresh overflow touches the pipeline: a pending reload stays due
    let ov2 = if edge && t.timaRegister == 0xFF {
        true
    } else {
        t.timaOverflow
    };
    let delay2 = if edge && t.timaRegister == 0xFF {
        0u8
    } else {
        t.timerOverflowDelay
    };
    Timers { divRegister: 0, timaRegister: tima2, lastCycleBit: false, timerOverflowDelay: delay2, timaOverflow: ov2, ..t }
}

/// Effect of a CPU write to the TAC port: disabling the timer or switching the
/// clock select can drop the detector input, which counts as a falling edge.
/// A reload already pending stays pending: only a TIMA write cancels it.
pub open spec fn tacWrittenTimers(t: Timers, data: u8) -> Timers {
    let oldAnd = andNow(t.divRegister, t.tacRegister);
    let newAnd = andNow(t.divRegister, data);
    let edge = oldAnd && !newAnd;
    let tima2 = if edge {
        if t.timaRegister == 0xFF {
            0u8
        } else {
            (t.timaRegister + 1) as u8
        }
    } else {
        t.timaRegister
    };
    // only a fresh overflow touches the pipeline: a pending reload stays due
    let ov2 = if edge && t.timaRegister == 0xFF {
        true
    } else {
        t.timaOverflow
    };
    let delay2 = if edge && t.timaRegister == 0xFF {
        0u8
    } else {
        t.timerOverflowDelay
    };
    Timers { tacRegister: data, timaRegister: tima2, lastCycleBit: newAnd, timerOverflowDelay: delay2, timaOverflow: ov2, ..t }
}

/// TIMA increment period in M-cycles for each TAC clock select: the selected
/// divider bit falls once every `4 * 2^(bit+1)` T-cycles.
pub open spec fn periodOf(tac: u8) -> nat {
    if tac & 0b11 == 0 {
        256
    } else if tac & 0b11 == 1 {
        4
    } else if tac & 0b11 == 2 {
        16
    } else {
        64
    }
}

/// Where the divider stands inside the current TIMA period (in M-cycles).
pub open spec fn phaseOf(div: u16, tac: u8) -> nat {
    ((div as nat) / 4) % periodOf(tac)
}

/// The timer after `n` M-cycles with no port writes in between.
pub open spec fn tickedN(t: Timers, n: nat) -> Timers
    decreases n,
{
    if n == 0 {
        t
    } else {
        tickedTimers(tickedN(t, (n - 1) as nat))
    }
}

/// How many of the first `n` ticks increment TIMA (fire the falling-edge
/// detector).
pub open spec fn incrCount(t: Timers, n: nat) -> nat
    decreases n,
{
    if n == 0 {
        0
    } else {
        incrCount(t, (n - 1) as nat) + (if edgeInTick(tickedN(t, (n - 1) as nat)) {
            1nat
        } else {
            0nat
        })
    }
}

/// One tick of an enabled timer: the detector input falls exactly when the
/// divider finishes a period, and the phase steps by one modulo the period.
proof fn lemma_edge_char(d: u16, tac: u8)
    requires
        d % 4 == 0,
        timerEnabled(tac),
    ensures
        (muxBit(d, tac) && !muxBit(divAfterVal(d), tac)) == (phaseOf(d, tac) == (periodOf(tac)
            - 1) as nat),
        phaseOf(divAfterVal(d), tac) == (if phaseOf(d, tac) == (periodOf(tac) - 1) as nat {
            0nat
        } else {
            phaseOf(d, tac) + 1
        }),
{
    let d2 = divAfterVal(d);
    assert(d <= 0xFFFC);
    assert(d <= 0xFFF8 ==> d2 == d + 4);
    assert(d == 0xFFFC ==> d2 == 0);
    if tac & 0b11 == 0 {
        assert((((d & (1u16 << 9usize) != 0) && (d2 & (1u16 << 9usize) == 0)) == ((d / 4) % 256
            == 255)) && ((d2 / 4) % 256 == (if (d / 4) % 256 == 255 {
            0int
        } else {
            (d / 4) % 256 + 1
        }))) by (bit_vector)
            requires
                d % 4 == 0,
                d <= 0xFFFC,
                (d <= 0xFFF8 ==> d2 == d + 4),
                (d == 0xFFFC ==> d2 == 0),
        ;
    } else if tac & 0b11 == 1 {
        assert((((d & (1u16 << 3usize) != 0) && (d2 & (1u16 << 3usize) == 0)) == ((d / 4) % 4
            == 3)) && ((d2 / 4) % 4 == (if (d / 4) % 4 == 3 {
            0int
        } else {
            (d / 4) % 4 + 1
        }))) by (bit_vector)
            requires
                d % 4 == 0,
                d <= 0xFFFC,
                (d <= 0xFFF8 ==> d2 == d + 4),
                (d == 0xFFFC ==> d2 == 0),
        ;
    } else if tac & 0b11 == 2 {
        assert((((d & (1u16 << 5usize) != 0) && (d2 & (1u16 << 5usize) == 0)) == ((d / 4) % 16
            == 15)) && ((d2 / 4) % 16 == (if (d / 4) % 16 == 15 {
            0int
        } else {
            (d / 4) % 16 + 1
        }))) by (bit_vector)
            requires
                d % 4 == 0,
                d <= 0xFFFC,
                (d <= 0xFFF8 ==> d2 == d + 4),
                (d == 0xFFFC ==> d2 == 0),
        ;
    } else {
        assert((((d & (1u16 << 7usize) != 0) && (d2 & (1u16 << 7usize) == 0)) == ((d / 4) % 64
            == 63)) && ((d2 / 4) % 64 == (if (d / 4) % 64 == 63 {
            0int
        } else {
            (d / 4) % 64 + 1
        }))) by (bit_vector)
            requires
                d % 4 == 0,
                d <= 0xFFFC,
                (d <= 0xFFF8 ==> d2 == d + 4),
                (d == 0xFFFC ==> d2 == 0),
        ;
    }
}

/// Stepping a value by one walks `%` and `/` in lockstep: the remainder wraps
/// exactly when it was at its top value, and the quotient grows by one then.
proof fn lemma_mod_step(m: int, p: int)
    requires
        m >= 0,
        p > 0,
    ensures
        (m + 1) % p == (if m % p == p - 1 {
            0int
        } else {
            m % p + 1
        }),
        (m + 1) / p == m / p + (if m % p == p - 1 {
            1int
        } else {
            0int
        }),
{
    vstd::arithmetic::div_mod::lemma_fundamental_div_mod(m, p);
    vstd::arithmetic::div_mod::lemma_mod_bound(m, p);
    let q = m / p;
    let r = m % p;
    if r == p - 1 {
        assert(m + 1 == (q + 1) * p + 0) by (nonlinear_arith)
            requires
                m == p * q + r,
                r == p - 1,
        ;
        vstd::arithmetic::div_mod::lemma_fundamental_div_mod_converse(m + 1, p, q + 1, 0);
    } else {
        assert(m + 1 == q * p + (r + 1)) by (nonlinear_arith)
            requires
                m == p * q + r,
        ;
        vstd::arithmetic::div_mod::lemma_fundamental_div_mod_converse(m + 1, p, q, r + 1);
    }
}

/// With `0 <= c < p`, the quotient `(c + n) / p` can exceed `n / p` by at
/// most one.
proof fn lemma_div_bounds(c: int, n: int, p: int)
    requires
        0 <= c < p,
        0 <= n,
    ensures
        n / p <= (c + n) / p <= n / p + 1,
{
    vstd::arithmetic::div_mod::lemma_fundamental_div_mod(n, p);
    vstd::arithmetic::div_mod::lemma_mod_bound(n, p);
    let q = n / p;
    let r = n % p;
    if r + c < p {
        assert(c + n == q * p + (r + c)) by (nonlinear_arith)
            requires
                n == p * q + r,
        ;
        vstd::arithmetic::div_mod::lemma_fundamental_div_mod_converse(c + n, p, q, r + c);
    } else {
        assert(c + n == (q + 1) * p + (r + c - p)) by (nonlinear_arith)
            requires
                n == p * q + r,
        ;
        vstd::arithmetic::div_mod::lemma_fundamental_div_mod_converse(c + n, p, q + 1, r + c - p);
    }
}

/// The divider, edge detector and well-formedness after `n` ticks of an
/// enabled timer, and the phase trajectory.
proof fn lemma_ticked_state(t: Timers, n: nat)
    requires
        t.wf(),
        timerEnabled(t.tacRegister),
        t.lastCycleBit == muxBit(t.divRegister, t.tacRegister),
    ensures
        tickedN(t, n).wf(),
        tickedN(t, n).tacRegister == t.tacRegister,
        tickedN(t, n).lastCycleBit == muxBit(tickedN(t, n).divRegister, t.tacRegister),
        phaseOf(tickedN(t, n).divRegister, t.tacRegister) as int == ((phaseOf(
            t.divRegister,
            t.tacRegister,
        ) + n) as int) % (periodOf(t.tacRegister) as int),
    decreases n,
{
    let p = periodOf(t.tacRegister) as int;
    let c = phaseOf(t.divRegister, t.tacRegister) as int;
    vstd::arithmetic::div_mod::lemma_mod_bound((t.divRegister as nat / 4) as int, p);
    if n == 0 {
        vstd::arithmetic::div_mod::lemma_small_mod(c as nat, p as nat);
    } else {
        lemma_ticked_state(t, (n - 1) as nat);
        let s = tickedN(t, (n - 1) as nat);
        lemma_edge_char(s.divRegister, t.tacRegister);
        lemma_mod_step(c + n - 1, p);
        vstd::arithmetic::div_mod::lemma_mod_bound(c + n - 1, p);
        assert(tickedN(t, n) == tickedTimers(s));
        assert(tickedTimers(s).divRegister == divAfterVal(s.divRegister));
    }
}

/// Timer increment law.  Across `n` consecutive M-cycles with TAC enabled
/// (and the edge detector consistent with the divider, as every tick leaves
/// it), TIMA increments exactly `(phase + n) / period` times, where `phase`
/// is the divider's position inside the current period — which always lies
/// within one of `n / period`.  The period is 256, 4, 16 or 64 M-cycles for
/// clock selects 0 to 3.
pub proof fn lemma_tima_increment_rate(t: Timers, n: nat)
    requires
        t.wf(),
        timerEnabled(t.tacRegister),
        t.lastCycleBit == muxBit(t.divRegister, t.tacRegister),
    ensures
        incrCount(t, n) as int == ((phaseOf(t.divRegister, t.tacRegister) + n) as int) / (
        periodOf(t.tacRegister) as int),
        (n as int) / (periodOf(t.tacRegister) as int) <= incrCount(t, n) as int <= (n as int) / (
        periodOf(t.tacRegister) as int) + 1,
    decreases n,
{
    let p = periodOf(t.tacRegister) as int;
    let c = phaseOf(t.divRegister, t.tacRegister) as int;
    vstd::arithmetic::div_mod::lemma_mod_bound((t.divRegister as nat / 4) as int, p);
    if n == 0 {
        vstd::arithmetic::div_mod::lemma_small_mod(c as nat, p as nat);
        assert(c / p == 0) by {
            vstd::arithmetic::div_mod::lemma_fundamental_div_mod_converse(c, p, 0, c);
        };
    } else {
        lemma_tima_increment_rate(t, (n - 1) as nat);
        lemma_ticked_state(t, (n - 1) as nat);
        let s = tickedN(t, (n - 1) as nat);
        lemma_edge_char(s.divRegister, t.tacRegister);
        lemma_mod_step(c + n - 1, p);
        lemma_div_bounds(c, n as int, p);
        lemma_div_bounds(c, n - 1, p);
        lemma_mod_step(n - 1, p);
    }
}

/// The power-on timer state: everything zero.
pub open spec fn initTimers() -> Timers {
    Timers {
        divRegister: 0u16,
        timaRegister: 0u8,
        tacRegister: 0u8,
        tmaRegister: 0u8,
        lastCycleBit: false,
        timerOverflowDelay: 0u8,
        timaOverflow: false,
        oldTMA: 0u8,
        tmaWriteCycle: false,
    }
}

impl Timers {
    /// Internal consistency: the divider only ever advances in steps of four
    /// T-cycles, and the overflow pipeline age is meaningful only while an
    /// overflow is pending.
    pub open spec fn wf(self) -> bool {
        &&& self.divRegister % 4 == 0
        &&& (self.timaOverflow ==> self.timerOverflowDelay < 4)
        &&& (!self.timaOverflow ==> self.timerOverflowDelay == 0)
    }

    pub fn new() -> (r: Self)
        ensures
            r == initTimers(),
            r.wf(),
    {
        Self {
            divRegister: 0,
            timaRegister: 0,
            tacRegister: 0,
            tmaRegister: 0,
            lastCycleBit: false,
            timerOverflowDelay: 0,
            timaOverflow: false,
            oldTMA: 0,
            tmaWriteCycle: false,
        }
    }

    /// Advance the timer by exactly one M-cycle; true means the Timer
    /// interrupt must be requested on the bus this cycle.
    pub fn incrTimers(&mut self) -> (r: bool)
        requires
            old(self).wf(),
        ensures
            *final(self) == tickedTimers(*old(self)),
            r == tickIrqSpec(*old(self)),
            final(self).wf(),
    {
        self.divRegister = if self.divRegister >= 0xFFFC {
            self.divRegister - 0xFFFC
        } else {
            self.divRegister + 4
        };
        let mut interruptRequest = false;
        if self.timaOverflow {
            if self.timerOverflowDelay >= 3 {
                self.timaRegister = if self.tmaWriteCycle {
                    self.oldTMA
                } else {
                    self.tmaRegister
                };
                self.timaOverflow = false;
                self.timerOverflowDelay = 0;
                interruptRequest = true;
            } else {
                self.timerOverflowDelay = self.timerOverflowDelay + 1;
            }
        }
        let timerEnable = bit::get(self.tacRegister, 2);
        let timaBit = match self.tacRegister & 0b11 {
            0 => bit::get16(self.divRegister, 9),
            1 => bit::get16(self.divRegister, 3),
            2 => bit::get16(self.divRegister, 5),
            _ => bit::get16(self.divRegister, 7),
        };
        let currentCycleBit = timaBit && timerEnable;
        if self.lastCycleBit && !currentCycleBit && !interruptRequest {
            if self.timaRegister == 0xFF {
                self.timaRegister = 0;
                self.timaOverflow = true;
            } else {
                self.timaRegister = self.timaRegister + 1;
                self.timaOverflow = false;
            }
            self.timerOverflowDelay = 0;
        }
        self.lastCycleBit = currentCycleBit;
        self.tmaWriteCycle = false;
        interruptRequest
    }

    /// CPU write to the DIV port (any value resets the divider).
    pub fn divWrite(&mut self)
        requires
            old(self).wf(),
        ensures
            *final(self) == divWrittenTimers(*old(self)),
            final(self).wf(),
    {
        self.divRegister = 0;
        if self.lastCycleBit {
            if self.timaRegister == 0xFF {
                self.timaRegister = 0;
                self.timaOverflow = true;
                self.timerOverflowDelay = 0;
            } else {
                self.timaRegister = self.timaRegister + 1;
            }
        }
        self.lastCycleBit = false;
    }

    /// CPU write to the TIMA port; a write during the overflow window cancels
    /// the pending reload and interrupt.
    pub fn timaWrite(&mut self, data: u8)
        ensures
            *final(self) == (Timers {
                timaRegister: data,
                timaOverflow: false,
                timerOverflowDelay: 0u8,
                ..*old(self)
            }),
    {
        self.timaRegister = data;
        self.timaOverflow = false;
        self.timerOverflowDelay = 0;
    }

    /// CPU write to the TMA port; the pre-write value is kept for a reload
    /// that lands on this same cycle.
    pub fn tmaWrite(&mut self, data: u8)
        ensures
            *final(self) == (Timers {
                tmaRegister: data,
                oldTMA: old(self).tmaRegister,
                tmaWriteCycle: true,
                ..*old(self)
            }),
    {
        self.oldTMA = self.tmaRegister;
        self.tmaRegister = data;
        self.tmaWriteCycle = true;
    }

    /// CPU write to the TAC port.
    pub fn tacWrite(&mut self, data: u8)
        requires
            old(self).wf(),
        ensures
            *final(self) == tacWrittenTimers(*old(self), data),
            final(self).wf(),
    {
        let oldAnd = {
            let timaBit = match self.tacRegister & 0b11 {
                0 => bit::get16(self.divRegister, 9),
                1 => bit::get16(self.divRegister, 3),
                2 => bit::get16(self.divRegister, 5),
                _ => bit::get16(self.divRegister, 7),
            };
            timaBit && bit::get(self.tacRegister, 2)
        };
        let newAnd = {
            let timaBit = match data & 0b11 {
                0 => bit::get16(self.divRegister, 9),
                1 => bit::get16(self.divRegister, 3),
                2 => bit::get16(self.divRegister, 5),
                _ => bit::get16(self.divRegister, 7),
            };
            timaBit && bit::get(data, 2)
        };
        if oldAnd && !newAnd {
            if self.timaRegister == 0xFF {
                self.timaRegister = 0;
                self.timaOverflow = true;
                self.timerOverflowDelay = 0;
            } else {
                self.timaRegister = self.timaRegister + 1;
            }
        }
        self.lastCycleBit = newAnd;
        self.tacRegister = data;
    }
}

} // verus!
