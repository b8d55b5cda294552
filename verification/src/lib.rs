//! Game Boy (DMG) core: the SM83 CPU with machine-cycle accounting, the memory
//! bus and its address-space dispatch, the hardware timer with its falling-edge
//! counter, the interrupt controller, and the no-mapper cartridge model.
//!
//! The host drives the core one machine cycle at a time through `Z80::clock`;
//! every contract in the crate is stated in machine cycles (one M-cycle equals
//! four T-cycles of the internal divider).
#![allow(non_snake_case)]

use vstd::prelude::*;

pub mod bit;
pub mod bus;
pub mod cartridge;
pub mod cpu;
pub mod exec;
pub mod step;
pub mod tables;
pub mod timer;
pub mod visualizer;

verus! {

/// Fatal conditions that end an emulation run.  They are reported to the host
/// instead of panicking: the core's verified functions never panic.
#[derive(Clone, Copy, Debug, PartialEq, Eq, Structural)]
pub enum EmuError {
    /// The byte fetched at PC is one of the eleven opcodes that the SM83 does
    /// not implement.
    IllegalOpcode(u8),
    /// The cartridge header names a mapper type the core does not recognize.
    UnsupportedCartridgeType(u8),
    /// The cartridge header names an external-RAM size code outside the table.
    UnsupportedRamSize(u8),
    /// The ROM image is too short to hold a cartridge header.
    RomTooShort,
}

} // verus!
