//! The ROM container: a fixed 16-byte header followed by program data and
//! then pattern data. The header is parsed field by field, with bounds and
//! endianness made explicit; a buffer is never reinterpreted as a record.

use vstd::prelude::*;

use crate::error::EmuError;

verus! {

/// The container signature, as the header's first four bytes read as a
/// little-endian 32-bit value.
pub const NES_MAGIC: u32 = 0x1A53454E;

/// Program data comes in banks of this many bytes.
pub const PRG_BANK_SIZE: usize = 16384;

/// Pattern data comes in banks of this many bytes.
pub const CHR_BANK_SIZE: usize = 8192;

/// The four header bytes read as one little-endian 32-bit value.
pub open spec fn le32(b0: u8, b1: u8, b2: u8, b3: u8) -> u32 {
    (b0 + 256 * b1 + 0x10000 * b2 + 0x1000000 * b3) as u32
}

/// The full container length its header promises: 16 header bytes, then
/// the program banks, then the pattern banks.
pub open spec fn spec_container_len(bytes: Seq<u8>) -> int
    recommends
        bytes.len() >= 16,
{
    16 + bytes[4] * (PRG_BANK_SIZE as int) + bytes[5] * (CHR_BANK_SIZE as int)
}

/// The fixed 16-byte container header. Bytes 10..16 are reserved and
/// carry no meaning.
#[derive(Clone, Copy, Debug)]
pub struct NESFileHeader {
    pub magic_number: u32,
    pub prg_size: u8,
    pub chr_size: u8,
    pub flags6: u8,
    pub flags7: u8,
    pub flags8: u8,
    pub flags9: u8,
}

/// The two raw data banks of a container.
#[derive(Debug)]
pub struct NESFileData {
    pub prg_rom: Vec<u8>,
    pub chr_rom: Vec<u8>,
}

/// A parsed ROM container.
#[derive(Debug)]
pub struct NESFile {
    pub header: NESFileHeader,
    pub data: NESFileData,
}

/// Copy `data[start..start + len]` into a fresh vector.
fn copy_range(data: &[u8], start: usize, len: usize) -> (r: Vec<u8>)
    requires
        start + len <= data@.len(),
    ensures
        r@ == data@.subrange(start as int, start as int + len),
{
    let n = data.len();
    let mut out: Vec<u8> = Vec::new();
    let mut i: usize = 0;
    while i < len
        invariant
            start + len <= n == data@.len(),
            0 <= i <= len,
            out@ == data@.subrange(start as int, start as int + i),
        decreases len - i,
    {
        out.push(data[start + i]);
        proof {
            assert(data@.subrange(start as int, start as int + i).push(data@[start + i])
                =~= data@.subrange(start as int, start as int + i + 1));
        }
        i = i + 1;
    }
    out
}

impl NESFile {
    /// Parse a container image. The image is rejected as truncated when it
    /// is shorter than the header, or shorter than the length its bank
    /// counts promise. (The signature is checked separately by
    /// `is_valid`; the loader rejects a bad signature before the machine
    /// starts.)
    pub fn parse(bytes: &[u8]) -> (r: Result<NESFile, EmuError>)
        ensures
            match r {
                Ok(f) => {
                    &&& bytes@.len() >= 16
                    &&& bytes@.len() >= spec_container_len(bytes@)
                    &&& f.header.magic_number == le32(bytes@[0], bytes@[1], bytes@[2], bytes@[3])
                    &&& f.header.prg_size == bytes@[4]
                    &&& f.header.chr_size == bytes@[5]
                    &&& f.header.flags6 == bytes@[6]
                    &&& f.header.flags7 == bytes@[7]
                    &&& f.header.flags8 == bytes@[8]
                    &&& f.header.flags9 == bytes@[9]
                    &&& f.data.prg_rom@ == bytes@.subrange(
                        16,
                        16 + bytes@[4] * (PRG_BANK_SIZE as int),
                    )
                    &&& f.data.chr_rom@ == bytes@.subrange(
                        16 + bytes@[4] * (PRG_BANK_SIZE as int),
                        spec_container_len(bytes@),
                    )
                },
                Err(e) => {
                    &&& e == EmuError::InvalidRom
                    &&& (bytes@.len() < 16 || bytes@.len() < spec_container_len(bytes@))
                },
            },
    {
        if bytes.len() < 16 {
            return Err(EmuError::InvalidRom);
        }
        let magic_number = bytes[0] as u32 + 256 * (bytes[1] as u32) + 0x10000 * (bytes[2] as u32)
            + 0x1000000 * (bytes[3] as u32);
        let prg_size = bytes[4];
        let chr_size = bytes[5];
        let prg_len = prg_size as usize * PRG_BANK_SIZE;
        let chr_len = chr_size as usize * CHR_BANK_SIZE;
        if bytes.len() < 16 + prg_len || bytes.len() - 16 - prg_len < chr_len {
            return Err(EmuError::InvalidRom);
        }
        let header = NESFileHeader {
            magic_number,
            prg_size,
            chr_size,
            flags6: bytes[6],
            flags7: bytes[7],
            flags8: bytes[8],
            flags9: bytes[9],
        };
        let prg_rom = copy_range(bytes, 16, prg_len);
        let chr_rom = copy_range(bytes, 16 + prg_len, chr_len);
        Ok(NESFile { header, data: NESFileData { prg_rom, chr_rom } })
    }

    /// True when the header carries the container signature.
    pub fn is_valid(&self) -> (r: bool)
        ensures
            r == (self.header.magic_number == NES_MAGIC),
    {
        self.header.magic_number == NES_MAGIC
    }

    /// The low bits of the mapper number, from the lower nibble of the
    /// first flag byte. Only the fixed mapping is acted on; other values
    /// are accepted and recorded, not interpreted.
    pub fn mapper_lower(&self) -> (r: u8)
        ensures
            r == self.header.flags6 & 0x0F,
    {
        self.header.flags6 & 0x0F
    }
}

} // verus!
