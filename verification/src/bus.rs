//! Memory bus: 16-bit address dispatch to work RAM, echo RAM, high RAM, the
//! cartridge, the I/O register file, the timer ports, and the interrupt
//! registers.
//!
//! Absent collaborators (PPU, APU, joypad, serial) follow the hardware
//! convention for unattached regions: reads return 0xFF (0 for the APU block
//! and the CGB-only ports), writes are dropped.
//! Every read and write is pinned to `readSpec` / `writeSpec` over the bus
//! model.

use vstd::prelude::*;

use crate::bit;
use crate::cartridge::Cartridge;
use crate::cartridge::ramReadSpec;
use crate::cartridge::ramWrittenSpec;
use crate::cartridge::romReadSpec;
use crate::timer::Timers;
use crate::timer::divWrittenTimers;
use crate::timer::tacWrittenTimers;
use crate::timer::tickIrqSpec;
use crate::timer::tickedTimers;

verus! {

pub struct Bus {
    pub ram1: Vec<u8>,
    pub ram2: Vec<u8>,
    pub highRam: Vec<u8>,
    pub interruptEnableRegister: u8,
    pub interruptRequestRegister: u8,
    pub timerRegisters: Timers,
    pub cartridge: Option<Cartridge>,
}

#[derive(Clone, Copy, Debug, PartialEq, Eq, Structural)]
pub enum IntrFlags {
    VBlank,
    LCD,
    Timer,
    Serial,
    Joypad,
}

impl IntrFlags {
    /// Bit position of this interrupt in IE and IF.
    pub open spec fn bitIndex(self) -> usize {
        match self {
            IntrFlags::VBlank => 0,
            IntrFlags::LCD => 1,
            IntrFlags::Timer => 2,
            IntrFlags::Serial => 3,
            IntrFlags::Joypad => 4,
        }
    }

    /// Bit position of this interrupt in IE and IF.
    pub fn index(&self) -> (r: usize)
        ensures
            r == self.bitIndex(),
    {
        match self {
            IntrFlags::VBlank => 0,
            IntrFlags::LCD => 1,
            IntrFlags::Timer => 2,
            IntrFlags::Serial => 3,
            IntrFlags::Joypad => 4,
        }
    }
}

/// Mathematical state of the bus: the RAM banks as sequences, the interrupt
/// registers, the timer state, the cartridge ROM image (empty when no
/// cartridge is inserted) and the cartridge external RAM.
pub struct BusModel {
    pub wram0: Seq<u8>,
    pub wram1: Seq<u8>,
    pub hram: Seq<u8>,
    pub ie: u8,
    pub iflag: u8,
    pub timers: Timers,
    pub rom: Seq<u8>,
    pub extRam: Option<Seq<u8>>,
}

pub open spec fn wfModel(m: BusModel) -> bool {
    &&& m.wram0.len() == 4096
    &&& m.wram1.len() == 4096
    &&& m.hram.len() == 127
    &&& m.timers.wf()
}

/// What a read of an I/O port (0xFF00-0xFF7F) returns.
pub open spec fn ioReadSpec(m: BusModel, addr: u16) -> u8 {
    let lo = addr - 0xFF00;
    if lo == 0x04 {
        (m.timers.divRegister / 256) as u8
    } else if lo == 0x05 {
        m.timers.timaRegister
    } else if lo == 0x06 {
        m.timers.tmaRegister
    } else if lo == 0x07 {
        m.timers.tacRegister
    } else if lo == 0x0F {
        m.iflag
    } else if 0x10 <= lo <= 0x26 {
        0u8
    } else if 0x30 <= lo <= 0x3F {
        0u8
    } else if lo == 0x4F || lo == 0x50 || (0x51 <= lo <= 0x55) || (0x68 <= lo <= 0x69) || lo
        == 0x70 {
        0u8
    } else {
        0xFFu8
    }
}

/// What a read of any bus address returns.
pub open spec fn readSpec(m: BusModel, addr: u16) -> u8 {
    if addr < 0x8000 {
        romReadSpec(m.rom, addr)
    } else if addr < 0xA000 {
        0xFFu8
    } else if addr < 0xC000 {
        ramReadSpec(m.extRam, addr)
    } else if addr < 0xD000 {
        m.wram0[addr - 0xC000]
    } else if addr < 0xE000 {
        m.wram1[addr - 0xD000]
    } else if addr < 0xF000 {
        m.wram0[addr - 0xE000]
    } else if addr < 0xFE00 {
        m.wram1[addr - 0xF000]
    } else if addr < 0xFF00 {
        0xFFu8
    } else if addr < 0xFF80 {
        ioReadSpec(m, addr)
    } else if addr < 0xFFFF {
        m.hram[addr - 0xFF80]
    } else {
        m.ie
    }
}

/// The bus after a write to an I/O port (0xFF00-0xFF7F).
pub open spec fn ioWriteSpec(m: BusModel, addr: u16, data: u8) -> BusModel {
    let lo = addr - 0xFF00;
    if lo == 0x04 {
        BusModel { timers: divWrittenTimers(m.timers), ..m }
    } else if lo == 0x05 {
        BusModel {
            timers: Timers {
                timaRegister: data,
                timaOverflow: false,
                timerOverflowDelay: 0u8,
                ..m.timers
            },
            ..m
        }
    } else if lo == 0x06 {
        BusModel {
            timers: Timers {
                tmaRegister: data,
                oldTMA: m.timers.tmaRegister,
                tmaWriteCycle: true,
                ..m.timers
            },
            ..m
        }
    } else if lo == 0x07 {
        BusModel { timers: tacWrittenTimers(m.timers, data), ..m }
    } else if lo == 0x0F {
        BusModel { iflag: data, ..m }
    } else {
        m
    }
}

/// The bus after a write to any address.  ROM writes, writes to the absent
/// collaborators and writes to the unusable region are dropped.
pub open spec fn writeSpec(m: BusModel, addr: u16, data: u8) -> BusModel {
    if addr < 0xA000 {
        m
    } else if addr < 0xC000 {
        BusModel { extRam: ramWrittenSpec(m.extRam, addr, data), ..m }
    } else if addr < 0xD000 {
        BusModel { wram0: m.wram0.update(addr - 0xC000, data), ..m }
    } else if addr < 0xE000 {
        BusModel { wram1: m.wram1.update(addr - 0xD000, data), ..m }
    } else if addr < 0xF000 {
        BusModel { wram0: m.wram0.update(addr - 0xE000, data), ..m }
    } else if addr < 0xFE00 {
        BusModel { wram1: m.wram1.update(addr - 0xF000, data), ..m }
    } else if addr < 0xFF00 {
        m
    } else if addr < 0xFF80 {
        ioWriteSpec(m, addr, data)
    } else if addr < 0xFFFF {
        BusModel { hram: m.hram.update(addr - 0xFF80, data), ..m }
    } else {
        BusModel { ie: data, ..m }
    }
}

/// Addresses whose writes land in RAM the bus (or the cartridge) owns: work
/// RAM, its echo, high RAM, and present external RAM.
pub open spec fn writableAddr(m: BusModel, addr: u16) -> bool {
    ||| (0xC000 <= addr < 0xFE00)
    ||| (0xFF80 <= addr < 0xFFFF)
    ||| (0xA000 <= addr < 0xC000 && (m.extRam matches Some(r) && addr - 0xA000 < r.len()))
}

/// The base address of the cell `addr` lands in: echo-RAM addresses fold onto
/// the work-RAM address they mirror, everything else is itself.
pub open spec fn mirrorOf(addr: u16) -> u16 {
    if 0xE000 <= addr < 0xFE00 {
        (addr - 0x2000) as u16
    } else {
        addr
    }
}

/// Write-then-read law: within the writable regions (work RAM, echo RAM, high
/// RAM, present external RAM) a read returns the value most recently written
/// to that address.
pub proof fn lemma_write_then_read(m: BusModel, addr: u16, data: u8)
    requires
        wfModel(m),
        writableAddr(m, addr),
    ensures
        readSpec(writeSpec(m, addr, data), addr) == data,
{
}

/// Frame law for writes: a write to a writable address leaves the value read
/// at every address of a different cell unchanged (an echo-RAM address and
/// the work-RAM address it mirrors are the same cell).
pub proof fn lemma_write_frame(m: BusModel, addr: u16, data: u8, other: u16)
    requires
        wfModel(m),
        writableAddr(m, addr),
        mirrorOf(other) != mirrorOf(addr),
    ensures
        readSpec(writeSpec(m, addr, data), other) == readSpec(m, other),
{
}

/// Echo-RAM law: at any time, a read of 0xE000-0xFDFF returns the same byte
/// as the work-RAM address 0x2000 below it.
pub proof fn lemma_echo_ram(m: BusModel, addr: u16)
    requires
        wfModel(m),
        0xE000 <= addr <= 0xFDFF,
    ensures
        readSpec(m, addr) == readSpec(m, (addr - 0x2000) as u16),
{
}

impl Bus {
    /// The mathematical state this bus holds.
    pub open spec fn model(self) -> BusModel {
        BusModel {
            wram0: self.ram1@,
            wram1: self.ram2@,
            hram: self.highRam@,
            ie: self.interruptEnableRegister,
            iflag: self.interruptRequestRegister,
            timers: self.timerRegisters,
            rom: match self.cartridge {
                Some(c) => c.data@,
                None => Seq::empty(),
            },
            extRam: match self.cartridge {
                Some(c) => c.ramSeq(),
                None => None,
            },
        }
    }

    pub open spec fn wf(self) -> bool {
        wfModel(self.model())
    }

    pub fn new() -> (r: Self)
        ensures
            r.wf(),
            r.model().wram0 == Seq::new(4096, |i: int| 0u8),
            r.model().wram1 == Seq::new(4096, |i: int| 0u8),
            r.model().hram == Seq::new(127, |i: int| 0u8),
            r.model().ie == 0u8,
            r.model().iflag == 0u8,
            r.model().timers == crate::timer::initTimers(),
            r.cartridge is None,
    {
        let r = Self {
            ram1: crate::cartridge::zeroVec(4096),
            ram2: crate::cartridge::zeroVec(4096),
            highRam: crate::cartridge::zeroVec(127),
            interruptEnableRegister: 0,
            interruptRequestRegister: 0,
            timerRegisters: Timers::new(),
            cartridge: None,
        };
        proof {
            assert(r.model().wram0 =~= Seq::new(4096, |i: int| 0u8));
            assert(r.model().wram1 =~= Seq::new(4096, |i: int| 0u8));
            assert(r.model().hram =~= Seq::new(127, |i: int| 0u8));
        }
        r
    }

    /// Attach a cartridge; ROM reads and external-RAM traffic go to it from
    /// then on.
    pub fn insertCartridge(&mut self, cart: Cartridge)
        ensures
            *final(self) == (Bus { cartridge: Some(cart), ..*old(self) }),
    {
        self.cartridge = Some(cart);
    }

    /// Read one byte at `addr`, dispatching per the DMG memory map.
    pub fn cpuRead(&self, addr: u16) -> (r: u8)
        requires
            self.wf(),
        ensures
            r == readSpec(self.model(), addr),
    {
        if addr < 0x8000 {
            match &self.cartridge {
                Some(c) => c.readRom(addr),
                None => 0xFF,
            }
        } else if addr < 0xA000 {
            0xFF
        } else if addr < 0xC000 {
            match &self.cartridge {
                Some(c) => c.readRam(addr),
                None => 0,
            }
        } else if addr < 0xD000 {
            self.ram1[(addr - 0xC000) as usize]
        } else if addr < 0xE000 {
            self.ram2[(addr - 0xD000) as usize]
        } else if addr < 0xF000 {
            self.ram1[(addr - 0xE000) as usize]
        } else if addr < 0xFE00 {
            self.ram2[(addr - 0xF000) as usize]
        } else if addr < 0xFF00 {
            0xFF
        } else if addr < 0xFF80 {
            let lo = addr - 0xFF00;
            if lo == 0x04 {
                (self.timerRegisters.divRegister / 256) as u8
            } else if lo == 0x05 {
                self.timerRegisters.timaRegister
            } else if lo == 0x06 {
                self.timerRegisters.tmaRegister
            } else if lo == 0x07 {
                self.timerRegisters.tacRegister
            } else if lo == 0x0F {
                self.interruptRequestRegister
            } else if 0x10 <= lo && lo <= 0x26 {
                0
            } else if 0x30 <= lo && lo <= 0x3F {
                0
            } else if lo == 0x4F || lo == 0x50 || (0x51 <= lo && lo <= 0x55) || (0x68 <= lo && lo
                <= 0x69) || lo == 0x70 {
                0
            } else {
                0xFF
            }
        } else if addr < 0xFFFF {
            self.highRam[(addr - 0xFF80) as usize]
        } else {
            self.interruptEnableRegister
        }
    }

    /// Write one byte at `addr`, dispatching per the DMG memory map.
    pub fn cpuWrite(&mut self, addr: u16, data: u8)
        requires
            old(self).wf(),
        ensures
            final(self).wf(),
            final(self).model() == writeSpec(old(self).model(), addr, data),
    {
        if addr < 0xA000 {
            // ROM and the absent PPU: dropped
        } else if addr < 0xC000 {
            match &mut self.cartridge {
                Some(c) => c.writeRam(addr, data),
                None => {},
            }
        } else if addr < 0xD000 {
            self.ram1.set((addr - 0xC000) as usize, data);
        } else if addr < 0xE000 {
            self.ram2.set((addr - 0xD000) as usize, data);
        } else if addr < 0xF000 {
            self.ram1.set((addr - 0xE000) as usize, data);
        } else if addr < 0xFE00 {
            self.ram2.set((addr - 0xF000) as usize, data);
        } else if addr < 0xFF00 {
            // OAM (absent) and the unusable region: dropped
        } else if addr < 0xFF80 {
            let lo = addr - 0xFF00;
            if lo == 0x04 {
                self.timerRegisters.divWrite();
            } else if lo == 0x05 {
                self.timerRegisters.timaWrite(data);
            } else if lo == 0x06 {
                self.timerRegisters.tmaWrite(data);
            } else if lo == 0x07 {
                self.timerRegisters.tacWrite(data);
            } else if lo == 0x0F {
                self.interruptRequestRegister = data;
            } else {
                // APU, wave RAM, LCD, serial, joypad, CGB-only ports: dropped
            }
        } else if addr < 0xFFFF {
            self.highRam.set((addr - 0xFF80) as usize, data);
        } else {
            self.interruptEnableRegister = data;
        }
    }

    /// Raise the IF bit of the given interrupt.
    pub fn requestInterrupt(&mut self, i: IntrFlags)
        ensures
            final(self).interruptRequestRegister == (old(self).interruptRequestRegister | (1u8
                << i.bitIndex())),
            *final(self) == (Bus {
                interruptRequestRegister: final(self).interruptRequestRegister,
                ..*old(self)
            }),
    {
        self.interruptRequestRegister = bit::set(self.interruptRequestRegister, i.index());
    }

    /// True iff the IF bit of the given interrupt is set.
    pub fn getInterruptRequest(&self, i: IntrFlags) -> (r: bool)
        ensures
            r == (self.interruptRequestRegister & (1u8 << i.bitIndex()) != 0),
    {
        bit::get(self.interruptRequestRegister, i.index())
    }

    /// Clear the IF bit of the given interrupt.
    pub fn resetInterruptRequest(&mut self, i: IntrFlags)
        ensures
            final(self).interruptRequestRegister == (old(self).interruptRequestRegister & !(1u8
                << i.bitIndex())),
            *final(self) == (Bus {
                interruptRequestRegister: final(self).interruptRequestRegister,
                ..*old(self)
            }),
    {
        self.interruptRequestRegister = bit::clr(self.interruptRequestRegister, i.index());
    }

    /// True iff the IE bit of the given interrupt is set.
    pub fn getInterruptEnable(&self, i: IntrFlags) -> (r: bool)
        ensures
            r == (self.interruptEnableRegister & (1u8 << i.bitIndex()) != 0),
    {
        bit::get(self.interruptEnableRegister, i.index())
    }

    /// Advance the timer by one M-cycle; a reload cycle raises IF.Timer.
    pub fn tick(&mut self)
        requires
            old(self).wf(),
        ensures
            final(self).wf(),
            final(self).model() == (BusModel {
                timers: tickedTimers(old(self).model().timers),
                iflag: if tickIrqSpec(old(self).model().timers) {
                    (old(self).model().iflag | (1u8 << 2)) as u8
                } else {
                    old(self).model().iflag
                },
                ..old(self).model()
            }),
    {
        let irq = self.timerRegisters.incrTimers();
        if irq {
            self.requestInterrupt(IntrFlags::Timer);
        }
    }
}

} // verus!
