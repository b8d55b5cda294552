//! Instruction decode tables: byte length and M-cycle budget of every
//! unprefixed and CB-prefixed opcode, the conditional-branch cycle counts for
//! both outcomes, and the mnemonics used by the disassembly display.
//!
//! Conditional instructions carry two counts: the table (taken) count and the
//! shorter not-taken count; `instrCyclesSpec` picks between them from the
//! flags, which is exactly what the fetch step loads into `cyclesLeft`.

use vstd::prelude::*;

use crate::cpu::Z80;
use crate::cpu::flagCSpec;
use crate::cpu::flagZSpec;

verus! {

/// The eleven opcodes the SM83 does not implement; fetching one is fatal.
pub open spec fn isIllegalSpec(op: u8) -> bool {
    op == 0xD3 || op == 0xDB || op == 0xDD || op == 0xE3 || op == 0xE4 || op == 0xEB || op == 0xEC
        || op == 0xED || op == 0xF4 || op == 0xFC || op == 0xFD
}

/// Byte length of an unprefixed instruction (0 for the illegal opcodes; the
/// CB prefix byte counts 1 here, the prefixed instruction as a whole is 2).
pub open spec fn unprefLengthSpec(op: u8) -> u8 {
    if isIllegalSpec(op) {
        0
    } else if op < 0x40 {
        if op % 16 == 1 || op == 0x08 {
            3
        } else if op % 16 == 6 || op % 16 == 14 {
            2
        } else if op == 0x10 || op == 0x18 || op == 0x20 || op == 0x28 || op == 0x30 || op
            == 0x38 {
            2
        } else {
            1
        }
    } else if op < 0xC0 {
        1
    } else if op == 0xC2 || op == 0xC3 || op == 0xC4 || op == 0xCA || op == 0xCC || op == 0xCD
        || op == 0xD2 || op == 0xD4 || op == 0xDA || op == 0xDC || op == 0xEA || op == 0xFA {
        3
    } else if op % 16 == 6 || op % 16 == 14 || op == 0xE0 || op == 0xE8 || op == 0xF0 || op
        == 0xF8 {
        2
    } else {
        1
    }
}

/// M-cycles of an unprefixed instruction on its longer (taken) path.
pub open spec fn unprefCyclesSpec(op: u8) -> u8 {
    if isIllegalSpec(op) {
        0
    } else if op < 0x40 {
        let col = op % 16;
        if op == 0x00 || op == 0x10 {
            1
        } else if op == 0x20 || op == 0x30 {
            3
        } else if col == 1 {
            3
        } else if col == 2 || col == 3 {
            2
        } else if col == 4 || col == 5 {
            if op == 0x34 || op == 0x35 {
                3
            } else {
                1
            }
        } else if col == 6 {
            if op == 0x36 {
                3
            } else {
                2
            }
        } else if col == 7 {
            1
        } else if col == 8 {
            if op == 0x08 {
                5
            } else {
                3
            }
        } else if col == 9 || col == 10 || col == 11 || col == 14 {
            2
        } else {
            1
        }
    } else if op < 0xC0 {
        if op == 0x76 {
            1
        } else if (0x70 <= op && op <= 0x77) || op % 8 == 6 {
            2
        } else {
            1
        }
    } else {
        let col = op % 16;
        if col == 0 {
            if op == 0xC0 || op == 0xD0 {
                5
            } else {
                3
            }
        } else if col == 1 {
            3
        } else if col == 2 {
            if op == 0xC2 || op == 0xD2 {
                4
            } else {
                2
            }
        } else if col == 3 {
            if op == 0xC3 {
                4
            } else {
                1
            }
        } else if col == 4 {
            6
        } else if col == 5 {
            4
        } else if col == 6 {
            2
        } else if col == 7 {
            4
        } else if col == 8 {
            if op == 0xC8 || op == 0xD8 {
                5
            } else if op == 0xE8 {
                4
            } else {
                3
            }
        } else if col == 9 {
            if op == 0xC9 || op == 0xD9 {
                4
            } else if op == 0xE9 {
                1
            } else {
                2
            }
        } else if col == 10 {
            4
        } else if col == 11 {
            1
        } else if col == 12 || col == 13 {
            6
        } else if col == 14 {
            2
        } else {
            4
        }
    }
}

/// The sixteen conditional instructions: JR cc, RET cc, JP cc, CALL cc.
pub open spec fn hasCondSpec(op: u8) -> bool {
    op == 0x20 || op == 0x28 || op == 0x30 || op == 0x38 || op == 0xC0 || op == 0xC8 || op == 0xD0
        || op == 0xD8 || op == 0xC2 || op == 0xCA || op == 0xD2 || op == 0xDA || op == 0xC4 || op
        == 0xCC || op == 0xD4 || op == 0xDC
}

/// Whether the condition encoded in bits 3-4 of a conditional opcode holds
/// for the given flags: NZ, Z, NC, C.
pub open spec fn condHoldsSpec(op: u8, f: u8) -> bool {
    let ci = (op / 8) % 4;
    if ci == 0 {
        !flagZSpec(f)
    } else if ci == 1 {
        flagZSpec(f)
    } else if ci == 2 {
        !flagCSpec(f)
    } else {
        flagCSpec(f)
    }
}

/// M-cycles of a conditional instruction when the condition fails.
pub open spec fn notTakenCyclesSpec(op: u8) -> u8 {
    if op == 0x20 || op == 0x28 || op == 0x30 || op == 0x38 {
        2
    } else if op == 0xC0 || op == 0xC8 || op == 0xD0 || op == 0xD8 {
        2
    } else {
        3
    }
}

/// M-cycles a CB-prefixed operation adds on top of the CB fetch (the whole
/// instruction costs twice this).
pub open spec fn prefCyclesSpec(op: u8) -> u8 {
    if op % 8 == 6 {
        if 0x40 <= op && op < 0x80 {
            2
        } else {
            3
        }
    } else {
        1
    }
}

/// Total M-cycle budget loaded at fetch for an unprefixed instruction: the
/// table count, or the shorter count for a conditional whose condition fails.
pub open spec fn instrCyclesSpec(op: u8, f: u8) -> u8 {
    if hasCondSpec(op) && !condHoldsSpec(op, f) {
        notTakenCyclesSpec(op)
    } else {
        unprefCyclesSpec(op)
    }
}

/// Conditional-branch cycle-count law: a conditional instruction is budgeted
/// the table (taken) count exactly when its condition holds and the not-taken
/// count otherwise, and the pairs are the hardware reference values —
/// JR cc 3/2, RET cc 5/2, JP cc 4/3, CALL cc 6/3.
pub proof fn lemma_conditional_cycles(op: u8, f: u8)
    requires
        hasCondSpec(op),
    ensures
        instrCyclesSpec(op, f) == if condHoldsSpec(op, f) {
            unprefCyclesSpec(op)
        } else {
            notTakenCyclesSpec(op)
        },
        (op == 0x20 || op == 0x28 || op == 0x30 || op == 0x38) ==> unprefCyclesSpec(op) == 3
            && notTakenCyclesSpec(op) == 2,
        (op == 0xC0 || op == 0xC8 || op == 0xD0 || op == 0xD8) ==> unprefCyclesSpec(op) == 5
            && notTakenCyclesSpec(op) == 2,
        (op == 0xC2 || op == 0xCA || op == 0xD2 || op == 0xDA) ==> unprefCyclesSpec(op) == 4
            && notTakenCyclesSpec(op) == 3,
        (op == 0xC4 || op == 0xCC || op == 0xD4 || op == 0xDC) ==> unprefCyclesSpec(op) == 6
            && notTakenCyclesSpec(op) == 3,
{
}

/// Exec mirror of `isIllegalSpec`.
pub fn isIllegal(op: u8) -> (r: bool)
    ensures
        r == isIllegalSpec(op),
{
    op == 0xD3 || op == 0xDB || op == 0xDD || op == 0xE3 || op == 0xE4 || op == 0xEB || op == 0xEC
        || op == 0xED || op == 0xF4 || op == 0xFC || op == 0xFD
}

/// Exec mirror of `unprefLengthSpec`.
pub fn unprefLengthOf(op: u8) -> (r: u8)
    ensures
        r == unprefLengthSpec(op),
{
    if isIllegal(op) {
        0
    } else if op < 0x40 {
        if op % 16 == 1 || op == 0x08 {
            3
        } else if op % 16 == 6 || op % 16 == 14 {
            2
        } else if op == 0x10 || op == 0x18 || op == 0x20 || op == 0x28 || op == 0x30 || op
            == 0x38 {
            2
        } else {
            1
        }
    } else if op < 0xC0 {
        1
    } else if op == 0xC2 || op == 0xC3 || op == 0xC4 || op == 0xCA || op == 0xCC || op == 0xCD
        || op == 0xD2 || op == 0xD4 || op == 0xDA || op == 0xDC || op == 0xEA || op == 0xFA {
        3
    } else if op % 16 == 6 || op % 16 == 14 || op == 0xE0 || op == 0xE8 || op == 0xF0 || op
        == 0xF8 {
        2
    } else {
        1
    }
}

/// Exec mirror of `unprefCyclesSpec`.
pub fn unprefCyclesOf(op: u8) -> (r: u8)
    ensures
        r == unprefCyclesSpec(op),
{
    if isIllegal(op) {
        0
    } else if op < 0x40 {
        let col = op % 16;
        if op == 0x00 || op == 0x10 {
            1
        } else if op == 0x20 || op == 0x30 {
            3
        } else if col == 1 {
            3
        } else if col == 2 || col == 3 {
            2
        } else if col == 4 || col == 5 {
            if op == 0x34 || op == 0x35 {
                3
            } else {
                1
            }
        } else if col == 6 {
            if op == 0x36 {
                3
            } else {
                2
            }
        } else if col == 7 {
            1
        } else if col == 8 {
            if op == 0x08 {
                5
            } else {
                3
            }
        } else if col == 9 || col == 10 || col == 11 || col == 14 {
            2
        } else {
            1
        }
    } else if op < 0xC0 {
        if op == 0x76 {
            1
        } else if (0x70 <= op && op <= 0x77) || op % 8 == 6 {
            2
        } else {
            1
        }
    } else {
        let col = op % 16;
        if col == 0 {
            if op == 0xC0 || op == 0xD0 {
                5
            } else {
                3
            }
        } else if col == 1 {
            3
        } else if col == 2 {
            if op == 0xC2 || op == 0xD2 {
                4
            } else {
                2
            }
        } else if col == 3 {
            if op == 0xC3 {
                4
            } else {
                1
            }
        } else if col == 4 {
            6
        } else if col == 5 {
            4
        } else if col == 6 {
            2
        } else if col == 7 {
            4
        } else if col == 8 {
            if op == 0xC8 || op == 0xD8 {
                5
            } else if op == 0xE8 {
                4
            } else {
                3
            }
        } else if col == 9 {
            if op == 0xC9 || op == 0xD9 {
                4
            } else if op == 0xE9 {
                1
            } else {
                2
            }
        } else if col == 10 {
            4
        } else if col == 11 {
            1
        } else if col == 12 || col == 13 {
            6
        } else if col == 14 {
            2
        } else {
            4
        }
    }
}

/// Exec mirror of `hasCondSpec`.
pub fn hasCond(op: u8) -> (r: bool)
    ensures
        r == hasCondSpec(op),
{
    op == 0x20 || op == 0x28 || op == 0x30 || op == 0x38 || op == 0xC0 || op == 0xC8 || op == 0xD0
        || op == 0xD8 || op == 0xC2 || op == 0xCA || op == 0xD2 || op == 0xDA || op == 0xC4 || op
        == 0xCC || op == 0xD4 || op == 0xDC
}

/// Exec mirror of `notTakenCyclesSpec`.
pub fn notTakenCyclesOf(op: u8) -> (r: u8)
    ensures
        r == notTakenCyclesSpec(op),
{
    if op == 0x20 || op == 0x28 || op == 0x30 || op == 0x38 {
        2
    } else if op == 0xC0 || op == 0xC8 || op == 0xD0 || op == 0xD8 {
        2
    } else {
        3
    }
}

/// Exec mirror of `prefCyclesSpec`.
pub fn prefCyclesOf(op: u8) -> (r: u8)
    ensures
        r == prefCyclesSpec(op),
{
    if op % 8 == 6 {
        if 0x40 <= op && op < 0x80 {
            2
        } else {
            3
        }
    } else {
        1
    }
}

impl Z80 {
    /// Whether the condition of a conditional instruction holds under the
    /// current flags.
    pub fn condHolds(&self, op: u8) -> (r: bool)
        ensures
            r == condHoldsSpec(op, self.f),
    {
        let ci = (op / 8) % 4;
        if ci == 0 {
            !self.getFlag(crate::cpu::Flags::Zero)
        } else if ci == 1 {
            self.getFlag(crate::cpu::Flags::Zero)
        } else if ci == 2 {
            !self.getFlag(crate::cpu::Flags::Carry)
        } else {
            self.getFlag(crate::cpu::Flags::Carry)
        }
    }

    /// Mnemonic, byte length and taken-path M-cycles of the given opcode,
    /// read from the table the CPU's prefix state selects.  For a CB-prefixed
    /// opcode the length and cycles cover the whole two-byte instruction.
    pub fn getInstructionInfo(&self, opcode: u8) -> (r: (&'static str, u8, u8))
        ensures
            !self.prefixedInstruction ==> r.1 == unprefLengthSpec(opcode) && r.2
                == unprefCyclesSpec(opcode),
            self.prefixedInstruction ==> r.1 == 2 && r.2 == 2 * prefCyclesSpec(opcode),
    {
        if self.prefixedInstruction {
            (prefixedOpcodeName(opcode), 2, 2 * prefCyclesOf(opcode))
        } else {
            (opcodeName(opcode), unprefLengthOf(opcode), unprefCyclesOf(opcode))
        }
    }
}

/// Mnemonic of an unprefixed opcode, for disassembly display.
pub fn opcodeName(opcode: u8) -> &'static str {
    match opcode {
        0x00 => "NOP",
        0x01 => "LD BC,u16",
        0x02 => "LD (BC),A",
        0x03 => "INC BC",
        0x04 => "INC B",
        0x05 => "DEC B",
        0x06 => "LD B,u8",
        0x07 => "RLCA",
        0x08 => "LD (u16),SP",
        0x09 => "ADD HL,BC",
        0x0A => "LD A,(BC)",
        0x0B => "DEC BC",
        0x0C => "INC C",
        0x0D => "DEC C",
        0x0E => "LD C,u8",
        0x0F => "RRCA",
        0x10 => "STOP",
        0x11 => "LD DE,u16",
        0x12 => "LD (DE),A",
        0x13 => "INC DE",
        0x14 => "INC D",
        0x15 => "DEC D",
        0x16 => "LD D,u8",
        0x17 => "RLA",
        0x18 => "JR i8",
        0x19 => "ADD HL,DE",
        0x1A => "LD A,(DE)",
        0x1B => "DEC DE",
        0x1C => "INC E",
        0x1D => "DEC E",
        0x1E => "LD E,u8",
        0x1F => "RRA",
        0x20 => "JR NZ,i8",
        0x21 => "LD HL,u16",
        0x22 => "LD (HL+),A",
        0x23 => "INC HL",
        0x24 => "INC H",
        0x25 => "DEC H",
        0x26 => "LD H,u8",
        0x27 => "DAA",
        0x28 => "JR Z,i8",
        0x29 => "ADD HL,HL",
        0x2A => "LD A,(HL+)",
        0x2B => "DEC HL",
        0x2C => "INC L",
        0x2D => "DEC L",
        0x2E => "LD L,u8",
        0x2F => "CPL",
        0x30 => "JR NC,i8",
        0x31 => "LD SP,u16",
        0x32 => "LD (HL-),A",
        0x33 => "INC SP",
        0x34 => "INC (HL)",
        0x35 => "DEC (HL)",
        0x36 => "LD (HL),u8",
        0x37 => "SCF",
        0x38 => "JR C,i8",
        0x39 => "ADD HL,SP",
        0x3A => "LD A,(HL-)",
        0x3B => "DEC SP",
        0x3C => "INC A",
        0x3D => "DEC A",
        0x3E => "LD A,u8",
        0x3F => "CCF",
        0x40 => "LD B,B",
        0x41 => "LD B,C",
        0x42 => "LD B,D",
        0x43 => "LD B,E",
        0x44 => "LD B,H",
        0x45 => "LD B,L",
        0x46 => "LD B,(HL)",
        0x47 => "LD B,A",
        0x48 => "LD C,B",
        0x49 => "LD C,C",
        0x4A => "LD C,D",
        0x4B => "LD C,E",
        0x4C => "LD C,H",
        0x4D => "LD C,L",
        0x4E => "LD C,(HL)",
        0x4F => "LD C,A",
        0x50 => "LD D,B",
        0x51 => "LD D,C",
        0x52 => "LD D,D",
        0x53 => "LD D,E",
        0x54 => "LD D,H",
        0x55 => "LD D,L",
        0x56 => "LD D,(HL)",
        0x57 => "LD D,A",
        0x58 => "LD E,B",
        0x59 => "LD E,C",
        0x5A => "LD E,D",
        0x5B => "LD E,E",
        0x5C => "LD E,H",
        0x5D => "LD E,L",
        0x5E => "LD E,(HL)",
        0x5F => "LD E,A",
        0x60 => "LD H,B",
        0x61 => "LD H,C",
        0x62 => "LD H,D",
        0x63 => "LD H,E",
        0x64 => "LD H,H",
        0x65 => "LD H,L",
        0x66 => "LD H,(HL)",
        0x67 => "LD H,A",
        0x68 => "LD L,B",
        0x69 => "LD L,C",
        0x6A => "LD L,D",
        0x6B => "LD L,E",
        0x6C => "LD L,H",
        0x6D => "LD L,L",
        0x6E => "LD L,(HL)",
        0x6F => "LD L,A",
        0x70 => "LD (HL),B",
        0x71 => "LD (HL),C",
        0x72 => "LD (HL),D",
        0x73 => "LD (HL),E",
        0x74 => "LD (HL),H",
        0x75 => "LD (HL),L",
        0x76 => "HALT",
        0x77 => "LD (HL),A",
        0x78 => "LD A,B",
        0x79 => "LD A,C",
        0x7A => "LD A,D",
        0x7B => "LD A,E",
        0x7C => "LD A,H",
        0x7D => "LD A,L",
        0x7E => "LD A,(HL)",
        0x7F => "LD A,A",
        0x80 => "ADD A,B",
        0x81 => "ADD A,C",
        0x82 => "ADD A,D",
        0x83 => "ADD A,E",
        0x84 => "ADD A,H",
        0x85 => "ADD A,L",
        0x86 => "ADD A,(HL)",
        0x87 => "ADD A,A",
        0x88 => "ADC A,B",
        0x89 => "ADC A,C",
        0x8A => "ADC A,D",
        0x8B => "ADC A,E",
        0x8C => "ADC A,H",
        0x8D => "ADC A,L",
        0x8E => "ADC A,(HL)",
        0x8F => "ADC A,A",
        0x90 => "SUB A,B",
        0x91 => "SUB A,C",
        0x92 => "SUB A,D",
        0x93 => "SUB A,E",
        0x94 => "SUB A,H",
        0x95 => "SUB A,L",
        0x96 => "SUB A,(HL)",
        0x97 => "SUB A,A",
        0x98 => "SBC A,B",
        0x99 => "SBC A,C",
        0x9A => "SBC A,D",
        0x9B => "SBC A,E",
        0x9C => "SBC A,H",
        0x9D => "SBC A,L",
        0x9E => "SBC A,(HL)",
        0x9F => "SBC A,A",
        0xA0 => "AND A,B",
        0xA1 => "AND A,C",
        0xA2 => "AND A,D",
        0xA3 => "AND A,E",
        0xA4 => "AND A,H",
        0xA5 => "AND A,L",
        0xA6 => "AND A,(HL)",
        0xA7 => "AND A,A",
        0xA8 => "XOR A,B",
        0xA9 => "XOR A,C",
        0xAA => "XOR A,D",
        0xAB => "XOR A,E",
        0xAC => "XOR A,H",
        0xAD => "XOR A,L",
        0xAE => "XOR A,(HL)",
        0xAF => "XOR A,A",
        0xB0 => "OR A,B",
        0xB1 => "OR A,C",
        0xB2 => "OR A,D",
        0xB3 => "OR A,E",
        0xB4 => "OR A,H",
        0xB5 => "OR A,L",
        0xB6 => "OR A,(HL)",
        0xB7 => "OR A,A",
        0xB8 => "CP A,B",
        0xB9 => "CP A,C",
        0xBA => "CP A,D",
        0xBB => "CP A,E",
        0xBC => "CP A,H",
        0xBD => "CP A,L",
        0xBE => "CP A,(HL)",
        0xBF => "CP A,A",
        0xC0 => "RET NZ",
        0xC1 => "POP BC",
        0xC2 => "JP NZ,u16",
        0xC3 => "JP u16",
        0xC4 => "CALL NZ,u16",
        0xC5 => "PUSH BC",
        0xC6 => "ADD A,u8",
        0xC7 => "RST 0x00",
        0xC8 => "RET Z",
        0xC9 => "RET",
        0xCA => "JP Z,u16",
        0xCB => "PREFIX CB",
        0xCC => "CALL Z,u16",
        0xCD => "CALL u16",
        0xCE => "ADC A,u8",
        0xCF => "RST 0x08",
        0xD0 => "RET NC",
        0xD1 => "POP DE",
        0xD2 => "JP NC,u16",
        0xD3 => "ILLEGAL",
        0xD4 => "CALL NC,u16",
        0xD5 => "PUSH DE",
        0xD6 => "SUB A,u8",
        0xD7 => "RST 0x10",
        0xD8 => "RET C",
        0xD9 => "RETI",
        0xDA => "JP C,u16",
        0xDB => "ILLEGAL",
        0xDC => "CALL C,u16",
        0xDD => "ILLEGAL",
        0xDE => "SBC A,u8",
        0xDF => "RST 0x18",
        0xE0 => "LD (0xFF00+u8),A",
        0xE1 => "POP HL",
        0xE2 => "LD (0xFF00+C),A",
        0xE3 => "ILLEGAL",
        0xE4 => "ILLEGAL",
        0xE5 => "PUSH HL",
        0xE6 => "AND A,u8",
        0xE7 => "RST 0x20",
        0xE8 => "ADD SP,i8",
        0xE9 => "JP HL",
        0xEA => "LD (u16),A",
        0xEB => "ILLEGAL",
        0xEC => "ILLEGAL",
        0xED => "ILLEGAL",
        0xEE => "XOR A,u8",
        0xEF => "RST 0x28",
        0xF0 => "LD A,(0xFF00+u8)",
        0xF1 => "POP AF",
        0xF2 => "LD A,(0xFF00+C)",
        0xF3 => "DI",
        0xF4 => "ILLEGAL",
        0xF5 => "PUSH AF",
        0xF6 => "OR A,u8",
        0xF7 => "RST 0x30",
        0xF8 => "LD HL,SP+i8",
        0xF9 => "LD SP,HL",
        0xFA => "LD A,(u16)",
        0xFB => "EI",
        0xFC => "ILLEGAL",
        0xFD => "ILLEGAL",
        0xFE => "CP A,u8",
        0xFF => "RST 0x38",
    }
}

/// Mnemonic of a CB-prefixed opcode, for disassembly display.
pub fn prefixedOpcodeName(opcode: u8) -> &'static str {
    match opcode {
        0x00 => "RLC B",
        0x01 => "RLC C",
        0x02 => "RLC D",
        0x03 => "RLC E",
        0x04 => "RLC H",
        0x05 => "RLC L",
        0x06 => "RLC (HL)",
        0x07 => "RLC A",
        0x08 => "RRC B",
        0x09 => "RRC C",
        0x0A => "RRC D",
        0x0B => "RRC E",
        0x0C => "RRC H",
        0x0D => "RRC L",
        0x0E => "RRC (HL)",
        0x0F => "RRC A",
        0x10 => "RL B",
        0x11 => "RL C",
        0x12 => "RL D",
        0x13 => "RL E",
        0x14 => "RL H",
        0x15 => "RL L",
        0x16 => "RL (HL)",
        0x17 => "RL A",
        0x18 => "RR B",
        0x19 => "RR C",
        0x1A => "RR D",
        0x1B => "RR E",
        0x1C => "RR H",
        0x1D => "RR L",
        0x1E => "RR (HL)",
        0x1F => "RR A",
        0x20 => "SLA B",
        0x21 => "SLA C",
        0x22 => "SLA D",
        0x23 => "SLA E",
        0x24 => "SLA H",
        0x25 => "SLA L",
        0x26 => "SLA (HL)",
        0x27 => "SLA A",
        0x28 => "SRA B",
        0x29 => "SRA C",
        0x2A => "SRA D",
        0x2B => "SRA E",
        0x2C => "SRA H",
        0x2D => "SRA L",
        0x2E => "SRA (HL)",
        0x2F => "SRA A",
        0x30 => "SWAP B",
        0x31 => "SWAP C",
        0x32 => "SWAP D",
        0x33 => "SWAP E",
        0x34 => "SWAP H",
        0x35 => "SWAP L",
        0x36 => "SWAP (HL)",
        0x37 => "SWAP A",
        0x38 => "SRL B",
        0x39 => "SRL C",
        0x3A => "SRL D",
        0x3B => "SRL E",
        0x3C => "SRL H",
        0x3D => "SRL L",
        0x3E => "SRL (HL)",
        0x3F => "SRL A",
        0x40 => "BIT 0,B",
        0x41 => "BIT 0,C",
        0x42 => "BIT 0,D",
        0x43 => "BIT 0,E",
        0x44 => "BIT 0,H",
        0x45 => "BIT 0,L",
        0x46 => "BIT 0,(HL)",
        0x47 => "BIT 0,A",
        0x48 => "BIT 1,B",
        0x49 => "BIT 1,C",
        0x4A => "BIT 1,D",
        0x4B => "BIT 1,E",
        0x4C => "BIT 1,H",
        0x4D => "BIT 1,L",
        0x4E => "BIT 1,(HL)",
        0x4F => "BIT 1,A",
        0x50 => "BIT 2,B",
        0x51 => "BIT 2,C",
        0x52 => "BIT 2,D",
        0x53 => "BIT 2,E",
        0x54 => "BIT 2,H",
        0x55 => "BIT 2,L",
        0x56 => "BIT 2,(HL)",
        0x57 => "BIT 2,A",
        0x58 => "BIT 3,B",
        0x59 => "BIT 3,C",
        0x5A => "BIT 3,D",
        0x5B => "BIT 3,E",
        0x5C => "BIT 3,H",
        0x5D => "BIT 3,L",
        0x5E => "BIT 3,(HL)",
        0x5F => "BIT 3,A",
        0x60 => "BIT 4,B",
        0x61 => "BIT 4,C",
        0x62 => "BIT 4,D",
        0x63 => "BIT 4,E",
        0x64 => "BIT 4,H",
        0x65 => "BIT 4,L",
        0x66 => "BIT 4,(HL)",
        0x67 => "BIT 4,A",
        0x68 => "BIT 5,B",
        0x69 => "BIT 5,C",
        0x6A => "BIT 5,D",
        0x6B => "BIT 5,E",
        0x6C => "BIT 5,H",
        0x6D => "BIT 5,L",
        0x6E => "BIT 5,(HL)",
        0x6F => "BIT 5,A",
        0x70 => "BIT 6,B",
        0x71 => "BIT 6,C",
        0x72 => "BIT 6,D",
        0x73 => "BIT 6,E",
        0x74 => "BIT 6,H",
        0x75 => "BIT 6,L",
        0x76 => "BIT 6,(HL)",
        0x77 => "BIT 6,A",
        0x78 => "BIT 7,B",
        0x79 => "BIT 7,C",
        0x7A => "BIT 7,D",
        0x7B => "BIT 7,E",
        0x7C => "BIT 7,H",
        0x7D => "BIT 7,L",
        0x7E => "BIT 7,(HL)",
        0x7F => "BIT 7,A",
        0x80 => "RES 0,B",
        0x81 => "RES 0,C",
        0x82 => "RES 0,D",
        0x83 => "RES 0,E",
        0x84 => "RES 0,H",
        0x85 => "RES 0,L",
        0x86 => "RES 0,(HL)",
        0x87 => "RES 0,A",
        0x88 => "RES 1,B",
        0x89 => "RES 1,C",
        0x8A => "RES 1,D",
        0x8B => "RES 1,E",
        0x8C => "RES 1,H",
        0x8D => "RES 1,L",
        0x8E => "RES 1,(HL)",
        0x8F => "RES 1,A",
        0x90 => "RES 2,B",
        0x91 => "RES 2,C",
        0x92 => "RES 2,D",
        0x93 => "RES 2,E",
        0x94 => "RES 2,H",
        0x95 => "RES 2,L",
        0x96 => "RES 2,(HL)",
        0x97 => "RES 2,A",
        0x98 => "RES 3,B",
        0x99 => "RES 3,C",
        0x9A => "RES 3,D",
        0x9B => "RES 3,E",
        0x9C => "RES 3,H",
        0x9D => "RES 3,L",
        0x9E => "RES 3,(HL)",
        0x9F => "RES 3,A",
        0xA0 => "RES 4,B",
        0xA1 => "RES 4,C",
        0xA2 => "RES 4,D",
        0xA3 => "RES 4,E",
        0xA4 => "RES 4,H",
        0xA5 => "RES 4,L",
        0xA6 => "RES 4,(HL)",
        0xA7 => "RES 4,A",
        0xA8 => "RES 5,B",
        0xA9 => "RES 5,C",
        0xAA => "RES 5,D",
        0xAB => "RES 5,E",
        0xAC => "RES 5,H",
        0xAD => "RES 5,L",
        0xAE => "RES 5,(HL)",
        0xAF => "RES 5,A",
        0xB0 => "RES 6,B",
        0xB1 => "RES 6,C",
        0xB2 => "RES 6,D",
        0xB3 => "RES 6,E",
        0xB4 => "RES 6,H",
        0xB5 => "RES 6,L",
        0xB6 => "RES 6,(HL)",
        0xB7 => "RES 6,A",
        0xB8 => "RES 7,B",
        0xB9 => "RES 7,C",
        0xBA => "RES 7,D",
        0xBB => "RES 7,E",
        0xBC => "RES 7,H",
        0xBD => "RES 7,L",
        0xBE => "RES 7,(HL)",
        0xBF => "RES 7,A",
        0xC0 => "SET 0,B",
        0xC1 => "SET 0,C",
        0xC2 => "SET 0,D",
        0xC3 => "SET 0,E",
        0xC4 => "SET 0,H",
        0xC5 => "SET 0,L",
        0xC6 => "SET 0,(HL)",
        0xC7 => "SET 0,A",
        0xC8 => "SET 1,B",
        0xC9 => "SET 1,C",
        0xCA => "SET 1,D",
        0xCB => "SET 1,E",
        0xCC => "SET 1,H",
        0xCD => "SET 1,L",
        0xCE => "SET 1,(HL)",
        0xCF => "SET 1,A",
        0xD0 => "SET 2,B",
        0xD1 => "SET 2,C",
        0xD2 => "SET 2,D",
        0xD3 => "SET 2,E",
        0xD4 => "SET 2,H",
        0xD5 => "SET 2,L",
        0xD6 => "SET 2,(HL)",
        0xD7 => "SET 2,A",
        0xD8 => "SET 3,B",
        0xD9 => "SET 3,C",
        0xDA => "SET 3,D",
        0xDB => "SET 3,E",
        0xDC => "SET 3,H",
        0xDD => "SET 3,L",
        0xDE => "SET 3,(HL)",
        0xDF => "SET 3,A",
        0xE0 => "SET 4,B",
        0xE1 => "SET 4,C",
        0xE2 => "SET 4,D",
        0xE3 => "SET 4,E",
        0xE4 => "SET 4,H",
        0xE5 => "SET 4,L",
        0xE6 => "SET 4,(HL)",
        0xE7 => "SET 4,A",
        0xE8 => "SET 5,B",
        0xE9 => "SET 5,C",
        0xEA => "SET 5,D",
        0xEB => "SET 5,E",
        0xEC => "SET 5,H",
        0xED => "SET 5,L",
        0xEE => "SET 5,(HL)",
        0xEF => "SET 5,A",
        0xF0 => "SET 6,B",
        0xF1 => "SET 6,C",
        0xF2 => "SET 6,D",
        0xF3 => "SET 6,E",
        0xF4 => "SET 6,H",
        0xF5 => "SET 6,L",
        0xF6 => "SET 6,(HL)",
        0xF7 => "SET 6,A",
        0xF8 => "SET 7,B",
        0xF9 => "SET 7,C",
        0xFA => "SET 7,D",
        0xFB => "SET 7,E",
        0xFC => "SET 7,H",
        0xFD => "SET 7,L",
        0xFE => "SET 7,(HL)",
        0xFF => "SET 7,A",
    }
}

} // verus!
