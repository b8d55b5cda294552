// Whole-machine concerns: reset values, cartridge header parsing and its
// error cases, illegal opcodes, the flag-nibble invariant across arbitrary
// work, and the debug display.

use gbcore::EmuError;
use gbcore::cartridge::Cartridge;
use gbcore::cpu::Z80;
use gbcore::visualizer;

fn romWithHeader(cartType: u8, ramSize: u8) -> Vec<u8> {
    let mut d = vec![0u8; 0x8000];
    d[0x0143] = 0x00;
    d[0x0147] = cartType;
    d[0x0148] = 0x00;
    d[0x0149] = ramSize;
    d
}

#[test]
fn reset_loads_post_boot_values() {
    let mut c = Z80::new();
    c.masterInterrupt = true;
    c.halted = true;
    c.bus.interruptRequestRegister = 0x1F;
    c.reset();
    assert_eq!(c.getAF(), 0x01B0);
    assert_eq!(c.getBC(), 0x0013);
    assert_eq!(c.getDE(), 0x00D8);
    assert_eq!(c.getHL(), 0x014D);
    assert_eq!(c.sp, 0xFFFE);
    assert_eq!(c.pc, 0x0100);
    assert!(!c.masterInterrupt);
    assert!(!c.halted);
    assert_eq!(c.bus.interruptRequestRegister, 0x00);
}

#[test]
fn cartridge_parses_header() {
    let cart = Cartridge::new(romWithHeader(0x00, 0x00)).unwrap();
    assert_eq!(cart.romSize, 0x00);
    assert!(cart.ram.is_none());
    let cart2 = Cartridge::new(romWithHeader(0x03, 0x03)).unwrap();
    assert_eq!(cart2.ram.as_ref().map(|r| r.len()), Some(32768));
}

#[test]
fn cartridge_rejects_short_image() {
    let r = Cartridge::new(vec![0u8; 0x100]);
    assert_eq!(r.err(), Some(EmuError::RomTooShort));
}

#[test]
fn cartridge_rejects_unknown_type() {
    let r = Cartridge::new(romWithHeader(0x19, 0x00));
    assert_eq!(r.err(), Some(EmuError::UnsupportedCartridgeType(0x19)));
}

#[test]
fn cartridge_rejects_unknown_ram_size() {
    let r = Cartridge::new(romWithHeader(0x00, 0x06));
    assert_eq!(r.err(), Some(EmuError::UnsupportedRamSize(0x06)));
}

#[test]
fn cartridge_short_rom_reads_ff_past_end() {
    let mut image = romWithHeader(0x00, 0x00);
    image.truncate(0x4000);
    let cart = Cartridge::new(image).unwrap();
    assert_eq!(cart.readRom(0x3FFF), 0x00);
    assert_eq!(cart.readRom(0x4000), 0xFF);
}

#[test]
fn illegal_opcode_is_fatal() {
    let mut c = Z80::new();
    c.writeByte(0xC000, 0xD3);
    c.pc = 0xC000;
    let r = c.fetchOpcode();
    assert_eq!(r, Err(EmuError::IllegalOpcode(0xD3)));
    // clock reports the same failure and the machine state stands still
    let r2 = c.clock();
    assert_eq!(r2, Err(EmuError::IllegalOpcode(0xD3)));
    assert_eq!(c.pc, 0xC000);
}

#[test]
fn illegal_opcode_after_valid_instruction() {
    let mut c = Z80::new();
    c.writeByte(0xC000, 0x00);
    c.writeByte(0xC001, 0xED);
    c.pc = 0xC000;
    c.fetchOpcode().unwrap();
    let r = c.stepInstruction();
    assert_eq!(r, Err(EmuError::IllegalOpcode(0xED)));
}

#[test]
fn flag_low_nibble_always_zero() {
    // run a mix of instructions and watch F's low nibble stay clear after
    // every machine cycle
    let program: [u8; 12] = [
        0x3E, 0x0F,  // LD A,0x0F
        0x06, 0x01,  // LD B,0x01
        0x80,  // ADD A,B
        0x27,  // DAA
        0xCB, 0x37,  // SWAP A
        0xF5,  // PUSH AF
        0xF1,  // POP AF
        0x18, 0xF4,  // JR back to the start
    ];
    let mut c = Z80::new();
    let mut addr: u16 = 0xC000;
    for &b in program.iter() {
        c.writeByte(addr, b);
        addr += 1;
    }
    c.pc = 0xC000;
    c.sp = 0xD000;
    c.fetchOpcode().unwrap();
    for _ in 0..100 {
        c.clock().unwrap();
        assert_eq!(c.f & 0x0F, 0x00);
    }
}

#[test]
fn instruction_info_lengths_and_cycles() {
    let c = Z80::new();
    let (name, len, cycles) = c.getInstructionInfo(0x00);
    assert_eq!(name, "NOP");
    assert_eq!(len, 1);
    assert_eq!(cycles, 1);
    let (name2, len2, cycles2) = c.getInstructionInfo(0x01);
    assert_eq!(name2, "LD BC,u16");
    assert_eq!(len2, 3);
    assert_eq!(cycles2, 3);
    let (_, len3, cycles3) = c.getInstructionInfo(0xCD);
    assert_eq!(len3, 3);
    assert_eq!(cycles3, 6);
    let (name4, len4, _) = c.getInstructionInfo(0xD3);
    assert_eq!(name4, "ILLEGAL");
    assert_eq!(len4, 0);
}

#[test]
fn instruction_info_prefixed() {
    let mut c = Z80::new();
    c.prefixedInstruction = true;
    let (name, len, cycles) = c.getInstructionInfo(0x37);
    assert_eq!(name, "SWAP A");
    assert_eq!(len, 2);
    assert_eq!(cycles, 2);
}

#[test]
fn show_registers_text() {
    let mut c = Z80::new();
    c.a = 0xAB;
    c.f = 0xF0;
    c.pc = 0x0100;
    let s = visualizer::showRegisters(&c);
    assert!(s.contains("A: AB"));
    assert!(s.contains("F: F0"));
    assert!(s.contains("PC: 0100"));
}

#[test]
fn show_ram_text() {
    let mut c = Z80::new();
    c.writeByte(0xC000, 0x42);
    let s = visualizer::showRam(&c, 0xC000, 1, 4);
    assert_eq!(s, "0xC000:\t42 00 00 00 \n");
}

#[test]
fn show_code_text() {
    let mut c = Z80::new();
    c.writeByte(0xC000, 0x3E);
    c.writeByte(0xC001, 0x55);
    c.writeByte(0xC002, 0x00);
    let s = visualizer::showCode(&c, 0xC000, 2);
    assert_eq!(s, "0xC000\tLD A,u8 #0x55 [2]\n0xC002\tNOP [1]\n");
}

#[test]
fn show_timers_text() {
    let mut c = Z80::new();
    c.bus.cpuWrite(0xFF07, 0x05);
    let s = visualizer::showTimers(&c);
    assert!(s.contains("TAC [101]"));
    assert!(s.contains("DIV [0]"));
}

#[test]
fn stop_parks_like_halt() {
    let mut c = Z80::new();
    c.writeByte(0xC000, 0x10);
    c.pc = 0xC000;
    c.fetchOpcode().unwrap();
    c.stepInstruction().unwrap();
    assert!(c.stopped);
    c.clock().unwrap();
    assert!(c.stopped);
    c.bus.interruptEnableRegister = 0x01;
    c.bus.requestInterrupt(gbcore::bus::IntrFlags::VBlank);
    c.clock().unwrap();
    assert!(!c.stopped);
}
