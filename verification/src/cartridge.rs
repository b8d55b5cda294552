//! No-mapper cartridge model: the ROM image, the parsed header fields, and the
//! optional external RAM whose size the header names.
//!
//! The host reads the ROM file and hands the bytes in; header parse failures
//! are fatal and reported as errors rather than panics.
//!
//! The four recognized header types are served alike, as the no-mapper
//! baseline: the whole image is addressable flat (which for MBC1 is its
//! power-on banking), external RAM is linear, and ROM writes — bank-switch
//! commands on a real mapper — are dropped, so the banks never switch.  Bank
//! switching itself stays unimplemented.

use vstd::prelude::*;

use crate::EmuError;

verus! {

#[derive(Clone, Copy, Debug, PartialEq, Eq, Structural)]
pub enum CartridgeType {
    Rom,
    Mbc1,
    Mbc1Ram,
    Mbc1RamBattery,
}

#[derive(Clone, Copy, Debug, PartialEq, Eq, Structural)]
pub enum RamType {
    NoRam,
    Unused,
    Kb8,
    Kb32,
    Kb128,
    Kb64,
}

#[derive(Debug)]
pub struct Cartridge {
    pub data: Vec<u8>,
    pub gbcFlag: u8,
    pub cartType: CartridgeType,
    pub ramType: RamType,
    pub romSize: u8,
    pub ram: Option<Vec<u8>>,
}

/// The cartridge type named by header byte 0x0147 (only meaningful for the
/// four codes the core recognizes).
pub open spec fn cartTypeFor(b: u8) -> CartridgeType {
    if b == 0x00 {
        CartridgeType::Rom
    } else if b == 0x01 {
        CartridgeType::Mbc1
    } else if b == 0x02 {
        CartridgeType::Mbc1Ram
    } else {
        CartridgeType::Mbc1RamBattery
    }
}

/// The RAM size class named by header byte 0x0149.
pub open spec fn ramTypeFor(b: u8) -> RamType {
    if b == 0x00 {
        RamType::NoRam
    } else if b == 0x01 {
        RamType::Unused
    } else if b == 0x02 {
        RamType::Kb8
    } else if b == 0x03 {
        RamType::Kb32
    } else if b == 0x04 {
        RamType::Kb128
    } else {
        RamType::Kb64
    }
}

/// External RAM size in bytes for header byte 0x0149 (0 where none exists).
pub open spec fn ramLenFor(b: u8) -> nat {
    if b == 0x02 {
        8192
    } else if b == 0x03 {
        8192 * 4
    } else if b == 0x04 {
        8192 * 16
    } else if b == 0x05 {
        8192 * 8
    } else {
        0
    }
}

/// What a ROM-region read (0x0000-0x7FFF) returns: the image byte, or 0xFF
/// past the end of a short image.
pub open spec fn romReadSpec(rom: Seq<u8>, addr: u16) -> u8 {
    if addr < rom.len() {
        rom[addr as int]
    } else {
        0xFF
    }
}

/// What an external-RAM read (0xA000-0xBFFF) returns: the RAM byte when RAM
/// exists and the offset is inside it, 0 otherwise.
pub open spec fn ramReadSpec(ram: Option<Seq<u8>>, addr: u16) -> u8 {
    match ram {
        Some(r) => {
            if addr - 0xA000 < r.len() {
                r[addr - 0xA000]
            } else {
                0u8
            }
        },
        None => 0u8,
    }
}

/// External RAM contents after a write: updated in place when RAM exists and
/// the offset is inside it, dropped otherwise.
pub open spec fn ramWrittenSpec(ram: Option<Seq<u8>>, addr: u16, d: u8) -> Option<Seq<u8>> {
    match ram {
        Some(r) => {
            if addr - 0xA000 < r.len() {
                Some(r.update(addr - 0xA000, d))
            } else {
                Some(r)
            }
        },
        None => None,
    }
}

/// A zero-filled byte vector of the given length.
pub(crate) fn zeroVec(n: usize) -> (r: Vec<u8>)
    ensures
        r@.len() == n,
        forall|i: int| 0 <= i < n ==> r@[i] == 0u8,
{
    let mut v: Vec<u8> = Vec::new();
    let mut i: usize = 0;
    while i < n
        invariant
            i <= n,
            v@.len() == i,
            forall|j: int| 0 <= j < i ==> v@[j] == 0u8,
        decreases n - i,
    {
        v.push(0u8);
        i = i + 1;
    }
    v
}

impl Cartridge {
    /// Parse the header of a ROM image and build the cartridge.  The image
    /// must at least cover the header; only the four recognized cartridge
    /// types and the six RAM size codes are accepted.
    pub fn new(data: Vec<u8>) -> (r: Result<Cartridge, EmuError>)
        ensures
            data@.len() < 0x014A ==> r == Result::<Cartridge, EmuError>::Err(EmuError::RomTooShort),
            data@.len() >= 0x014A && data@[0x0147] > 0x03 ==> r == Result::<
                Cartridge,
                EmuError,
            >::Err(EmuError::UnsupportedCartridgeType(data@[0x0147])),
            data@.len() >= 0x014A && data@[0x0147] <= 0x03 && data@[0x0149] > 0x05 ==> r
                == Result::<Cartridge, EmuError>::Err(
                EmuError::UnsupportedRamSize(data@[0x0149]),
            ),
            data@.len() >= 0x014A && data@[0x0147] <= 0x03 && data@[0x0149] <= 0x05 ==> {
                &&& r is Ok
                &&& r->Ok_0.data@ == data@
                &&& r->Ok_0.gbcFlag == data@[0x0143]
                &&& r->Ok_0.cartType == cartTypeFor(data@[0x0147])
                &&& r->Ok_0.ramType == ramTypeFor(data@[0x0149])
                &&& r->Ok_0.romSize == data@[0x0148]
                &&& (ramLenFor(data@[0x0149]) == 0 ==> r->Ok_0.ram is None)
                &&& (ramLenFor(data@[0x0149]) > 0 ==> (r->Ok_0.ram matches Some(m) && m@.len()
                    == ramLenFor(data@[0x0149]) && (forall|i: int|
                    0 <= i < m@.len() ==> m@[i] == 0u8)))
            },
    {
        if data.len() < 0x014A {
            return Err(EmuError::RomTooShort);
        }
        let gbcF = data[0x0143];
        let typeByte = data[0x0147];
        let t = match typeByte {
            0x00 => CartridgeType::Rom,
            0x01 => CartridgeType::Mbc1,
            0x02 => CartridgeType::Mbc1Ram,
            0x03 => CartridgeType::Mbc1RamBattery,
            _ => {
                return Err(EmuError::UnsupportedCartridgeType(typeByte));
            },
        };
        let ramByte = data[0x0149];
        let (ram, rT) = match ramByte {
            0x00 => (None, RamType::NoRam),
            0x01 => (None, RamType::Unused),
            0x02 => (Some(zeroVec(8192)), RamType::Kb8),
            0x03 => (Some(zeroVec(8192 * 4)), RamType::Kb32),
            0x04 => (Some(zeroVec(8192 * 16)), RamType::Kb128),
            0x05 => (Some(zeroVec(8192 * 8)), RamType::Kb64),
            _ => {
                return Err(EmuError::UnsupportedRamSize(ramByte));
            },
        };
        let rSize = data[0x0148];
        Ok(Self { data, gbcFlag: gbcF, cartType: t, ramType: rT, romSize: rSize, ram })
    }

    /// Serve a read of the ROM region 0x0000-0x7FFF: the flat image (the
    /// power-on bank mapping), 0xFF past the end of a short image.
    pub fn readRom(&self, addr: u16) -> (r: u8)
        ensures
            r == romReadSpec(self.data@, addr),
    {
        if (addr as usize) < self.data.len() {
            self.data[addr as usize]
        } else {
            0xFF
        }
    }

    /// Serve a read of the external-RAM region 0xA000-0xBFFF.
    pub fn readRam(&self, addr: u16) -> (r: u8)
        requires
            0xA000 <= addr < 0xC000,
        ensures
            r == ramReadSpec(match self.ram {
                Some(ref m) => Some(m@),
                None => None,
            }, addr),
    {
        match &self.ram {
            Some(m) => {
                let idx = (addr - 0xA000) as usize;
                if idx < m.len() {
                    m[idx]
                } else {
                    0
                }
            },
            None => 0,
        }
    }

    /// Serve a write to the external-RAM region 0xA000-0xBFFF; writes outside
    /// the present RAM are dropped, as are all writes when no RAM exists.
    pub fn writeRam(&mut self, addr: u16, d: u8)
        requires
            0xA000 <= addr < 0xC000,
        ensures
            final(self).data@ == old(self).data@,
            final(self).gbcFlag == old(self).gbcFlag,
            final(self).cartType == old(self).cartType,
            final(self).ramType == old(self).ramType,
            final(self).romSize == old(self).romSize,
            (match final(self).ram {
                Some(ref m) => Some(m@),
                None => None,
            }) == ramWrittenSpec(
                match old(self).ram {
                    Some(ref m) => Some(m@),
                    None => None,
                },
                addr,
                d,
            ),
    {
        match &mut self.ram {
            Some(m) => {
                let idx = (addr - 0xA000) as usize;
                if idx < m.len() {
                    m.set(idx, d);
                }
            },
            None => {},
        }
    }

    /// The external RAM contents as a sequence, for contracts.
    pub open spec fn ramSeq(self) -> Option<Seq<u8>> {
        match self.ram {
            Some(m) => Some(m@),
            None => None,
        }
    }
}

} // verus!
