// Memory map behaviour: the write/read round trip in every writable region,
// the echo-RAM mirror, the unattached regions, and the 16-bit loads.

use gbcore::bus::Bus;
use gbcore::bus::IntrFlags;
use gbcore::cartridge::Cartridge;
use gbcore::cpu::Z80;

fn program(bytes: &[u8]) -> Z80 {
    let mut c = Z80::new();
    let mut addr: u16 = 0xC000;
    for &b in bytes {
        c.writeByte(addr, b);
        addr += 1;
    }
    c.pc = 0xC000;
    c
}

fn romWithHeader(cartType: u8, ramSize: u8) -> Vec<u8> {
    let mut d = vec![0u8; 0x8000];
    d[0x0147] = cartType;
    d[0x0149] = ramSize;
    d
}

#[test]
fn wram_write_then_read() {
    let mut b = Bus::new();
    b.cpuWrite(0xC000, 0x11);
    b.cpuWrite(0xCFFF, 0x22);
    b.cpuWrite(0xD000, 0x33);
    b.cpuWrite(0xDFFF, 0x44);
    assert_eq!(b.cpuRead(0xC000), 0x11);
    assert_eq!(b.cpuRead(0xCFFF), 0x22);
    assert_eq!(b.cpuRead(0xD000), 0x33);
    assert_eq!(b.cpuRead(0xDFFF), 0x44);
}

#[test]
fn hram_write_then_read() {
    let mut b = Bus::new();
    b.cpuWrite(0xFF80, 0x55);
    b.cpuWrite(0xFFFE, 0x66);
    assert_eq!(b.cpuRead(0xFF80), 0x55);
    assert_eq!(b.cpuRead(0xFFFE), 0x66);
}

#[test]
fn write_leaves_other_cells_alone() {
    let mut b = Bus::new();
    b.cpuWrite(0xC100, 0x77);
    b.cpuWrite(0xC101, 0x88);
    b.cpuWrite(0xC100, 0x99);
    assert_eq!(b.cpuRead(0xC101), 0x88);
    assert_eq!(b.cpuRead(0xC0FF), 0x00);
}

#[test]
fn echo_ram_mirror() {
    // the scenario from the memory-map table: write 0x42 at 0xC123, read it
    // back at 0xE123
    let mut b = Bus::new();
    b.cpuWrite(0xC123, 0x42);
    assert_eq!(b.cpuRead(0xE123), 0x42);
    // writes through the echo land in work RAM, in both banks
    b.cpuWrite(0xE000, 0x24);
    assert_eq!(b.cpuRead(0xC000), 0x24);
    b.cpuWrite(0xFDFF, 0x12);
    assert_eq!(b.cpuRead(0xDDFF), 0x12);
}

#[test]
fn unusable_region_reads_ff() {
    let mut b = Bus::new();
    b.cpuWrite(0xFEA0, 0x12);
    assert_eq!(b.cpuRead(0xFEA0), 0xFF);
    assert_eq!(b.cpuRead(0xFEFF), 0xFF);
    // VRAM and OAM have no collaborator attached
    assert_eq!(b.cpuRead(0x8000), 0xFF);
    assert_eq!(b.cpuRead(0xFE00), 0xFF);
}

#[test]
fn ie_and_if_registers() {
    let mut b = Bus::new();
    b.cpuWrite(0xFFFF, 0x15);
    b.cpuWrite(0xFF0F, 0x04);
    assert_eq!(b.cpuRead(0xFFFF), 0x15);
    assert_eq!(b.cpuRead(0xFF0F), 0x04);
    assert!(b.getInterruptEnable(IntrFlags::VBlank));
    assert!(b.getInterruptRequest(IntrFlags::Timer));
    assert!(!b.getInterruptRequest(IntrFlags::Serial));
    b.resetInterruptRequest(IntrFlags::Timer);
    assert_eq!(b.cpuRead(0xFF0F), 0x00);
    b.requestInterrupt(IntrFlags::Joypad);
    assert_eq!(b.cpuRead(0xFF0F), 0x10);
}

#[test]
fn rom_reads_and_ignored_writes() {
    let mut b = Bus::new();
    let mut image = romWithHeader(0x00, 0x00);
    image[0x0000] = 0xAA;
    image[0x7FFF] = 0xBB;
    let cart = Cartridge::new(image).unwrap();
    b.insertCartridge(cart);
    assert_eq!(b.cpuRead(0x0000), 0xAA);
    assert_eq!(b.cpuRead(0x7FFF), 0xBB);
    b.cpuWrite(0x0000, 0x01);
    assert_eq!(b.cpuRead(0x0000), 0xAA);
}

#[test]
fn external_ram_round_trip() {
    let mut b = Bus::new();
    let cart = Cartridge::new(romWithHeader(0x02, 0x02)).unwrap();
    b.insertCartridge(cart);
    b.cpuWrite(0xA000, 0x42);
    b.cpuWrite(0xBFFF, 0x24);
    assert_eq!(b.cpuRead(0xA000), 0x42);
    assert_eq!(b.cpuRead(0xBFFF), 0x24);
}

#[test]
fn external_ram_absent_reads_zero() {
    let mut b = Bus::new();
    let cart = Cartridge::new(romWithHeader(0x00, 0x00)).unwrap();
    b.insertCartridge(cart);
    b.cpuWrite(0xA000, 0x42);
    assert_eq!(b.cpuRead(0xA000), 0x00);
}

#[test]
fn no_cartridge_rom_reads_ff() {
    let b = Bus::new();
    assert_eq!(b.cpuRead(0x0000), 0xFF);
    assert_eq!(b.cpuRead(0x4000), 0xFF);
}

#[test]
fn ld_bc_immediate_scenario() {
    // LD BC,0x1234 from bytes 01 34 12: B=0x12, C=0x34, PC advances 3, three
    // M-cycles
    let mut c = program(&[0x01, 0x34, 0x12]);
    c.fetchOpcode().unwrap();
    let n = c.stepInstruction().unwrap();
    assert_eq!(n, 3);
    assert_eq!(c.b, 0x12);
    assert_eq!(c.c, 0x34);
    assert_eq!(c.pc, 0xC003);
}

#[test]
fn ld_indirect_and_increment() {
    // LD (HL+),A then LD A,(BC)
    let mut c = program(&[0x22, 0x0A]);
    c.a = 0x77;
    c.h = 0xC1;
    c.l = 0x00;
    c.b = 0xC1;
    c.c = 0x00;
    c.fetchOpcode().unwrap();
    c.stepInstruction().unwrap();
    assert_eq!(c.readByte(0xC100), 0x77);
    assert_eq!(c.l, 0x01);
    c.a = 0x00;
    c.stepInstruction().unwrap();
    assert_eq!(c.a, 0x77);
}

#[test]
fn ld_u16_sp_little_endian() {
    // LD (0xC200),SP with SP=0xBEEF stores EF then BE
    let mut c = program(&[0x08, 0x00, 0xC2]);
    c.sp = 0xBEEF;
    c.fetchOpcode().unwrap();
    let n = c.stepInstruction().unwrap();
    assert_eq!(n, 5);
    assert_eq!(c.readByte(0xC200), 0xEF);
    assert_eq!(c.readByte(0xC201), 0xBE);
}

#[test]
fn inc_dec_on_memory() {
    // INC (HL) then DEC (HL) at 0xC100
    let mut c = program(&[0x34, 0x35]);
    c.writeByte(0xC100, 0x0F);
    c.h = 0xC1;
    c.l = 0x00;
    c.fetchOpcode().unwrap();
    let n = c.stepInstruction().unwrap();
    assert_eq!(n, 3);
    assert_eq!(c.readByte(0xC100), 0x10);
    assert_eq!(c.f & 0x20, 0x20);
    c.stepInstruction().unwrap();
    assert_eq!(c.readByte(0xC100), 0x0F);
}

#[test]
fn high_page_loads() {
    // LD (0xFF00+u8),A and LD A,(0xFF00+C) through HRAM
    let mut c = program(&[0xE0, 0x80, 0xF2]);
    c.a = 0x5C;
    c.c = 0x80;
    c.fetchOpcode().unwrap();
    let n = c.stepInstruction().unwrap();
    assert_eq!(n, 3);
    assert_eq!(c.readByte(0xFF80), 0x5C);
    c.a = 0x00;
    c.stepInstruction().unwrap();
    assert_eq!(c.a, 0x5C);
}

#[test]
fn read_bytes_little_endian() {
    let mut c = Z80::new();
    c.writeByte(0xC000, 0xCD);
    c.writeByte(0xC001, 0xAB);
    assert_eq!(c.readBytes(0xC000), 0xABCD);
    c.writeBytes(0xC010, 0x1234);
    assert_eq!(c.readByte(0xC010), 0x34);
    assert_eq!(c.readByte(0xC011), 0x12);
}

#[test]
fn register_pairs() {
    let mut c = Z80::new();
    c.setBC(0x1234);
    c.setDE(0x5678);
    c.setHL(0x9ABC);
    assert_eq!(c.getBC(), 0x1234);
    assert_eq!(c.getDE(), 0x5678);
    assert_eq!(c.getHL(), 0x9ABC);
    // writes to F force the low nibble to zero
    c.setAF(0x12FF);
    assert_eq!(c.getAF(), 0x12F0);
}

#[test]
fn bit_helpers() {
    assert!(gbcore::bit::get(0x10, 4));
    assert!(!gbcore::bit::get(0x10, 3));
    assert_eq!(gbcore::bit::set(0x00, 7), 0x80);
    assert_eq!(gbcore::bit::clr(0xFF, 0), 0xFE);
    assert!(gbcore::bit::get16(0x0200, 9));
    assert!(!gbcore::bit::get16(0x0200, 8));
}
