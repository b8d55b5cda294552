//! Debug display: plain-text renderings of memory, registers, timers and a
//! short disassembly, for the host to draw or print.

use vstd::prelude::*;

use vstd::string::StringExecFns;

use crate::cpu::Z80;
use crate::tables::opcodeName;
use crate::tables::prefCyclesOf;
use crate::tables::prefixedOpcodeName;
use crate::tables::unprefCyclesOf;
use crate::tables::unprefLengthOf;

verus! {

/// One uppercase hex digit.
fn hexUpper(n: u8) -> &'static str
    requires
        n < 16,
{
    match n {
        0 => "0",
        1 => "1",
        2 => "2",
        3 => "3",
        4 => "4",
        5 => "5",
        6 => "6",
        7 => "7",
        8 => "8",
        9 => "9",
        10 => "A",
        11 => "B",
        12 => "C",
        13 => "D",
        14 => "E",
        _ => "F",
    }
}

/// One lowercase hex digit.
fn hexLower(n: u8) -> &'static str
    requires
        n < 16,
{
    match n {
        0 => "0",
        1 => "1",
        2 => "2",
        3 => "3",
        4 => "4",
        5 => "5",
        6 => "6",
        7 => "7",
        8 => "8",
        9 => "9",
        10 => "a",
        11 => "b",
        12 => "c",
        13 => "d",
        14 => "e",
        _ => "f",
    }
}

/// Append a byte as two lowercase hex digits.
fn pushHexByteLower(s: &mut String, v: u8) {
    s.append(hexLower(v / 16));
    s.append(hexLower(v % 16));
}

/// Append a byte as two uppercase hex digits.
fn pushHexByteUpper(s: &mut String, v: u8) {
    s.append(hexUpper(v / 16));
    s.append(hexUpper(v % 16));
}

/// Append a 16-bit word as `0x` and four uppercase hex digits.
fn pushHexAddr(s: &mut String, v: u16) {
    s.append("0x");
    pushHexByteUpper(s, (v / 256) as u8);
    pushHexByteUpper(s, (v % 256) as u8);
}

/// Append a byte count (single decimal digit for every M-cycle budget).
fn pushSmallDecimal(s: &mut String, v: u8)
    requires
        v < 100,
{
    if v < 10 {
        s.append(hexUpper(v));
    } else {
        s.append(hexUpper(v / 10));
        s.append(hexUpper(v % 10));
    }
}

/// Append a 16-bit word in binary, without leading zeros.
fn pushBinary16(s: &mut String, v: u16) {
    if v == 0 {
        s.append("0");
        return ;
    }
    let mut started = false;
    let mut mask: u16 = 0x8000;
    loop
        invariant
            mask >= 1,
        decreases mask,
    {
        if v & mask != 0 {
            s.append("1");
            started = true;
        } else if started {
            s.append("0");
        }
        if mask == 1 {
            break ;
        }
        mask = mask / 2;
    }
}

/// Append a byte in binary, without leading zeros.
fn pushBinary8(s: &mut String, v: u8) {
    pushBinary16(s, v as u16);
}

/// A hex dump of `nRows` rows of `nCols` bytes starting at `startIndex`,
/// one address-prefixed line per row.
pub fn showRam(c: &Z80, startIndex: u16, nRows: u16, nCols: u16) -> String
    requires
        c.bus.wf(),
{
    let mut nStr = String::new();
    let mut n: u16 = 0;
    let mut i: u16 = 0;
    while i < nRows
        invariant
            c.bus.wf(),
        decreases nRows - i,
    {
        let addr = startIndex.wrapping_add(n);
        pushHexAddr(&mut nStr, addr);
        nStr.append(":\t");
        let mut j: u16 = 0;
        while j < nCols
            invariant
                c.bus.wf(),
            decreases nCols - j,
        {
            let b = c.readByte(addr.wrapping_add(j));
            pushHexByteLower(&mut nStr, b);
            nStr.append(" ");
            j = j + 1;
        }
        n = n.wrapping_add(nCols);
        nStr.append("\n");
        i = i + 1;
    }
    nStr
}

/// The register file on two lines: A/B/D/H and SP above, F/C/E/L and PC
/// below.
pub fn showRegisters(c: &Z80) -> String {
    let mut nStr = String::new();
    let mut nStr2 = String::new();
    nStr.append("A: ");
    pushHexByteUpper(&mut nStr, c.a);
    nStr.append(" ");
    nStr2.append("F: ");
    pushHexByteUpper(&mut nStr2, c.f);
    nStr2.append(" ");
    nStr.append("B: ");
    pushHexByteUpper(&mut nStr, c.b);
    nStr.append(" ");
    nStr2.append("C: ");
    pushHexByteUpper(&mut nStr2, c.c);
    nStr2.append(" ");
    nStr.append("D: ");
    pushHexByteUpper(&mut nStr, c.d);
    nStr.append(" ");
    nStr2.append("E: ");
    pushHexByteUpper(&mut nStr2, c.e);
    nStr2.append(" ");
    nStr.append("H: ");
    pushHexByteUpper(&mut nStr, c.h);
    nStr.append(" ");
    nStr2.append("L: ");
    pushHexByteUpper(&mut nStr2, c.l);
    nStr2.append(" ");
    nStr.append("SP: ");
    pushHexByteUpper(&mut nStr, (c.sp / 256) as u8);
    pushHexByteUpper(&mut nStr, (c.sp % 256) as u8);
    nStr.append(" ");
    nStr2.append("PC: ");
    pushHexByteUpper(&mut nStr2, (c.pc / 256) as u8);
    pushHexByteUpper(&mut nStr2, (c.pc % 256) as u8);
    nStr2.append(" ");
    nStr.append("\n");
    nStr.concat(nStr2.as_str())
}

/// A short disassembly of `nInstructions` instructions starting at
/// `startIndex`: address, mnemonic, immediate operand, M-cycle budget.
pub fn showCode(c: &Z80, startIndex: u16, nInstructions: u16) -> String
    requires
        c.bus.wf(),
{
    let mut nStr = String::new();
    let mut addr = startIndex;
    let mut i: u16 = 0;
    while i < nInstructions
        invariant
            c.bus.wf(),
        decreases nInstructions - i,
    {
        pushHexAddr(&mut nStr, addr);
        nStr.append("\t");
        let op = c.readByte(addr);
        if op == 0xCB {
            let cb = c.readByte(addr.wrapping_add(1));
            nStr.append(prefixedOpcodeName(cb));
            nStr.append(" [");
            pushSmallDecimal(&mut nStr, 2 * prefCyclesOf(cb));
            nStr.append("]");
            addr = addr.wrapping_add(2);
        } else {
            let length = unprefLengthOf(op);
            let cycles = unprefCyclesOf(op);
            nStr.append(opcodeName(op));
            if length == 3 {
                nStr.append(" #");
                let w = c.readBytes(addr.wrapping_add(1));
                pushHexAddr(&mut nStr, w);
            } else if length == 2 {
                nStr.append(" #0x");
                let b = c.readByte(addr.wrapping_add(1));
                pushHexByteUpper(&mut nStr, b);
            }
            nStr.append(" [");
            pushSmallDecimal(&mut nStr, cycles);
            nStr.append("]");
            // an illegal opcode has length 0: step one byte so the listing
            // moves on
            let step = if length == 0 {
                1u16
            } else {
                length as u16
            };
            addr = addr.wrapping_add(step);
        }
        nStr.append("\n");
        i = i + 1;
    }
    nStr
}

/// The four timer registers in binary, one per line (DIV shows the whole
/// internal 16-bit divider).
pub fn showTimers(c: &Z80) -> String {
    let mut nStr = String::new();
    nStr.append("DIV [");
    pushBinary16(&mut nStr, c.bus.timerRegisters.divRegister);
    nStr.append("]\n");
    nStr.append("TIMA [");
    pushBinary8(&mut nStr, c.bus.timerRegisters.timaRegister);
    nStr.append("]\n");
    nStr.append("TMA [");
    pushBinary8(&mut nStr, c.bus.timerRegisters.tmaRegister);
    nStr.append("]\n");
    nStr.append("TAC [");
    pushBinary8(&mut nStr, c.bus.timerRegisters.tacRegister);
    nStr.append("]\n");
    nStr
}

} // verus!
