use nesse::error::EmuError;
use nesse::memory::Memory;
use nesse::memory::Region;

#[test]
fn test_address_decode_totality() {
    for addr in 0u32..0x10000 {
        let in_ram = addr < 0x800;
        let in_mirror = 0x800 <= addr && addr < 0x2000;
        let in_ppu = 0x2000 <= addr && addr < 0x2008;
        let in_apu = 0x4000 <= addr && addr < 0x4018;
        let in_cart = 0x4020 <= addr && addr < 0x10000;
        let unmapped = (0x2008 <= addr && addr < 0x4000) || (0x4018 <= addr && addr < 0x4020);
        let claims = [in_ram, in_mirror, in_ppu, in_apu, in_cart, unmapped];
        assert_eq!(
            claims.iter().filter(|c| **c).count(),
            1,
            "address {addr:#06X} must fall in exactly one range"
        );
        let expected = if in_ram {
            Region::WorkRam
        } else if in_mirror {
            Region::WorkRamMirror
        } else if in_ppu {
            Region::PpuRegisters
        } else if in_apu {
            Region::ApuIo
        } else if in_cart {
            Region::Cartridge
        } else {
            Region::Unmapped
        };
        assert_eq!(Memory::region_of(addr as u16), expected);
    }
}

#[test]
fn test_mirroring() {
    let mut mem = Memory::new();
    for a in [0x0000u16, 0x0123, 0x07FF] {
        mem.write_u8(a, 0xAB).unwrap();
        assert_eq!(mem.read_u8(a + 0x0800).unwrap(), 0xAB);
        mem.write_u8(a + 0x0800, 0x5C).unwrap();
        assert_eq!(mem.read_u8(a).unwrap(), 0x5C);
    }
    // The mirror window repeats the 2 KiB store all the way to 0x2000.
    mem.write_u8(0x0042, 0x77).unwrap();
    assert_eq!(mem.read_u8(0x1042).unwrap(), 0x77);
    assert_eq!(mem.read_u8(0x1842).unwrap(), 0x77);
}

#[test]
fn test_u16_bus_values_are_little_endian() {
    let mut mem = Memory::new();
    mem.write_u16(0x0010, 0xBEEF).unwrap();
    assert_eq!(mem.read_u8(0x0010).unwrap(), 0xEF);
    assert_eq!(mem.read_u8(0x0011).unwrap(), 0xBE);
    assert_eq!(mem.read_u16(0x0010).unwrap(), 0xBEEF);
}

#[test]
fn test_unmapped_addresses_rejected() {
    let mut mem = Memory::new();
    assert_eq!(
        mem.read_u8(0x2008),
        Err(EmuError::UnmappedAddress { addr: 0x2008 })
    );
    assert_eq!(
        mem.read_u8(0x3FFF),
        Err(EmuError::UnmappedAddress { addr: 0x3FFF })
    );
    assert_eq!(
        mem.write_u8(0x4018, 1),
        Err(EmuError::UnmappedAddress { addr: 0x4018 })
    );
    assert_eq!(
        mem.write_u8(0x401F, 1),
        Err(EmuError::UnmappedAddress { addr: 0x401F })
    );
    // A two-byte read whose second byte falls in a gap is rejected too.
    assert_eq!(
        mem.read_u16(0x2007),
        Err(EmuError::UnmappedAddress { addr: 0x2008 })
    );
}

#[test]
fn test_access_past_end_of_space_rejected() {
    let mut mem = Memory::new();
    assert_eq!(
        mem.read_u16(0xFFFF),
        Err(EmuError::OutOfBoundsAccess { addr: 0xFFFF })
    );
    assert_eq!(
        mem.write_u16(0xFFFF, 0x1234),
        Err(EmuError::OutOfBoundsAccess { addr: 0xFFFF })
    );
    // The very last byte is still readable on its own.
    assert_eq!(mem.read_u8(0xFFFF).unwrap(), 0);
}

#[test]
fn test_write_slice_validates_before_writing() {
    let mut mem = Memory::new();
    // This range starts in the picture-register window and runs into the
    // 0x2008 gap: it must be rejected with not a single byte written.
    let data = [0x11u8; 16];
    assert_eq!(
        mem.write_slice(0x2000, &data),
        Err(EmuError::UnmappedAddress { addr: 0x2008 })
    );
    for a in 0x2000u16..0x2008 {
        assert_eq!(mem.read_u8(a).unwrap(), 0, "byte at {a:#06X} must be untouched");
    }
}

#[test]
fn test_write_slice_bounds() {
    let mut mem = Memory::new();
    let data = [0x22u8; 0x20];
    assert_eq!(
        mem.write_slice(0xFFF0, &data),
        Err(EmuError::OutOfBoundsAccess { addr: 0xFFF0 })
    );
    // A slice that ends exactly at the end of the space is fine.
    mem.write_slice(0xFFF0, &[0x33u8; 0x10]).unwrap();
    assert_eq!(mem.read_u8(0xFFFF).unwrap(), 0x33);
}

#[test]
fn test_write_slice_through_mirror() {
    let mut mem = Memory::new();
    mem.write_slice(0x07FE, &[1, 2, 3, 4]).unwrap();
    // The copy crosses from work RAM into the mirror window: the third
    // and fourth bytes land back at the start of the 2 KiB store.
    assert_eq!(mem.read_u8(0x07FE).unwrap(), 1);
    assert_eq!(mem.read_u8(0x07FF).unwrap(), 2);
    assert_eq!(mem.read_u8(0x0000).unwrap(), 3);
    assert_eq!(mem.read_u8(0x0001).unwrap(), 4);
}
