use nesse::error::EmuError;
use nesse::file::NESFile;
use nesse::loader::NESLoader;
use nesse::nes::NES;

fn build_rom(program: &[u8], reset_vector: u16, irq_vector: u16) -> Vec<u8> {
    let mut prg = vec![0u8; 16384];
    prg[..program.len()].copy_from_slice(program);
    prg[0x3FFC] = (reset_vector & 0xFF) as u8;
    prg[0x3FFD] = (reset_vector >> 8) as u8;
    prg[0x3FFE] = (irq_vector & 0xFF) as u8;
    prg[0x3FFF] = (irq_vector >> 8) as u8;
    let mut bytes = vec![0x4E, 0x45, 0x53, 0x1A, 1, 1, 0, 0, 0, 0, 0, 0, 0, 0, 0, 0];
    bytes.extend_from_slice(&prg);
    let mut chr = vec![0u8; 8192];
    chr[0] = 0xD1;
    chr[1] = 0xD2;
    bytes.extend_from_slice(&chr);
    bytes
}

#[test]
fn test_parse_header_fields() {
    let mut bytes = build_rom(&[], 0xC000, 0xC0F7);
    bytes[6] = 0x4B;
    bytes[7] = 0x01;
    let rom = NESFile::parse(&bytes).unwrap();
    assert_eq!(rom.header.magic_number, 0x1A53454E);
    assert_eq!(rom.header.prg_size, 1);
    assert_eq!(rom.header.chr_size, 1);
    assert_eq!(rom.header.flags6, 0x4B);
    assert_eq!(rom.header.flags7, 0x01);
    assert!(rom.is_valid());
    assert_eq!(rom.mapper_lower(), 0x0B);
    assert_eq!(rom.data.prg_rom.len(), 16384);
    assert_eq!(rom.data.chr_rom.len(), 8192);
    assert_eq!(rom.data.chr_rom[0], 0xD1);
}

#[test]
fn test_parse_truncated_header() {
    assert!(matches!(
        NESFile::parse(&[0x4E, 0x45, 0x53]),
        Err(EmuError::InvalidRom)
    ));
}

#[test]
fn test_parse_truncated_banks() {
    let mut bytes = build_rom(&[], 0xC000, 0xC0F7);
    bytes.truncate(16 + 1000);
    assert!(matches!(NESFile::parse(&bytes), Err(EmuError::InvalidRom)));
}

#[test]
fn test_loader_rejects_bad_signature() {
    let mut bytes = build_rom(&[], 0xC000, 0xC0F7);
    bytes[0] = 0x4D;
    let rom = NESFile::parse(&bytes).unwrap();
    assert!(!rom.is_valid());
    let mut nes = NES::new();
    assert_eq!(NESLoader::load_rom(&rom, &mut nes), Err(EmuError::InvalidRom));
    // Nothing was copied.
    assert_eq!(nes.bus.memory.read_u8(0xC000).unwrap(), 0);
}

#[test]
fn test_entry_point() {
    // A loaded image whose vectors encode 0xC000 and 0xC0F7 reads back
    // exactly those values from the vector bus addresses.
    let bytes = build_rom(&[], 0xC000, 0xC0F7);
    let rom = NESFile::parse(&bytes).unwrap();
    let mut nes = NES::new();
    NESLoader::load_rom(&rom, &mut nes).expect("Could not load ROM");
    assert_eq!(nes.bus.memory.read_u16(0xFFFC).unwrap(), 0xC000);
    assert_eq!(nes.bus.memory.read_u16(0xFFFE).unwrap(), 0xC0F7);
}

#[test]
fn test_pattern_banks_copied_to_picture_memory() {
    let bytes = build_rom(&[], 0xC000, 0xC0F7);
    let rom = NESFile::parse(&bytes).unwrap();
    let mut nes = NES::new();
    NESLoader::load_rom(&rom, &mut nes).unwrap();
    assert_eq!(nes.bus.ppu.read_u8(0).unwrap(), 0xD1);
    assert_eq!(nes.bus.ppu.read_u8(1).unwrap(), 0xD2);
    assert_eq!(nes.bus.ppu.read_u8(2).unwrap(), 0);
}

#[test]
fn test_program_bank_copied_to_cartridge_window() {
    let bytes = build_rom(&[0xA9, 0x42, 0xEA], 0xC000, 0xC0F7);
    let rom = NESFile::parse(&bytes).unwrap();
    let mut nes = NES::new();
    NESLoader::load_rom(&rom, &mut nes).unwrap();
    assert_eq!(nes.bus.memory.read_u8(0xC000).unwrap(), 0xA9);
    assert_eq!(nes.bus.memory.read_u8(0xC001).unwrap(), 0x42);
    assert_eq!(nes.bus.memory.read_u8(0xC002).unwrap(), 0xEA);
}

#[test]
fn test_oversized_program_rejected() {
    // Two 16 KiB program banks cannot fit above the fixed base address.
    let mut bytes = vec![0x4E, 0x45, 0x53, 0x1A, 2, 0, 0, 0, 0, 0, 0, 0, 0, 0, 0, 0];
    bytes.extend_from_slice(&vec![0u8; 2 * 16384]);
    let rom = NESFile::parse(&bytes).unwrap();
    let mut nes = NES::new();
    assert_eq!(
        NESLoader::load_rom(&rom, &mut nes),
        Err(EmuError::OutOfBoundsAccess { addr: 0xC000 })
    );
    assert_eq!(nes.bus.memory.read_u8(0xC000).unwrap(), 0);
}
