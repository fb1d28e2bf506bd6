//! The address bus: four disjoint backing stores behind a 16-bit address
//! space, with decode and mirroring.
//!
//! Decode rule, in address order: 0x0000..0x0800 is work RAM; 0x0800..0x2000
//! mirrors work RAM (every address aliases back into the 2 KiB window);
//! 0x2000..0x2008 is the picture-unit register window; 0x4000..0x4018 is the
//! audio/IO register window; 0x4020..0x10000 is the cartridge-mapped window.
//! Everything else (0x2008..0x4000 and 0x4018..0x4020) is unmapped and every
//! access there is rejected; nothing is silently clipped.
//!
//! Serialized 16-bit values on the bus are little-endian end-to-end: the
//! low byte sits at the lower address. (The rule by which an instruction's
//! two operand bytes combine into an absolute address is a separate
//! convention of the instruction encoding, not of the bus.)

use vstd::prelude::*;

use crate::error::EmuError;

verus! {

/// The backing store, if any, that claims an address.
#[derive(Clone, Copy, Debug, PartialEq, Eq, Structural)]
pub enum Region {
    WorkRam,
    WorkRamMirror,
    PpuRegisters,
    ApuIo,
    Cartridge,
    Unmapped,
}

/// True when some backing store claims `addr`.
pub open spec fn addr_mapped(addr: int) -> bool {
    ||| 0 <= addr < 0x2008
    ||| 0x4000 <= addr < 0x4018
    ||| 0x4020 <= addr < 0x10000
}

/// The decode function: which region claims `addr`.
pub open spec fn spec_region_of(addr: int) -> Region {
    if 0 <= addr < 0x800 {
        Region::WorkRam
    } else if 0x800 <= addr < 0x2000 {
        Region::WorkRamMirror
    } else if 0x2000 <= addr < 0x2008 {
        Region::PpuRegisters
    } else if 0x4000 <= addr < 0x4018 {
        Region::ApuIo
    } else if 0x4020 <= addr < 0x10000 {
        Region::Cartridge
    } else {
        Region::Unmapped
    }
}

/// Address decoding is total and unambiguous: every address of the 64 KiB
/// space falls in exactly one region's range, or in one of the two
/// explicitly unmapped gaps.
pub proof fn lemma_address_decode_total(addr: int)
    requires
        0 <= addr < 0x10000,
    ensures
        spec_region_of(addr) is WorkRam <==> 0 <= addr < 0x800,
        spec_region_of(addr) is WorkRamMirror <==> 0x800 <= addr < 0x2000,
        spec_region_of(addr) is PpuRegisters <==> 0x2000 <= addr < 0x2008,
        spec_region_of(addr) is ApuIo <==> 0x4000 <= addr < 0x4018,
        spec_region_of(addr) is Cartridge <==> 0x4020 <= addr < 0x10000,
        spec_region_of(addr) is Unmapped <==> (0x2008 <= addr < 0x4000 || 0x4018 <= addr
            < 0x4020),
        addr_mapped(addr) <==> !(spec_region_of(addr) is Unmapped),
{
}

/// The mathematical bus: the contents of the four backing stores.
#[verifier::ext_equal]
pub struct MemModel {
    pub ram: Seq<u8>,
    pub ppu: Seq<u8>,
    pub apu: Seq<u8>,
    pub cart: Seq<u8>,
}

impl MemModel {
    /// Each backing store has its fixed size.
    pub open spec fn wf(self) -> bool {
        &&& self.ram.len() == 0x800
        &&& self.ppu.len() == 8
        &&& self.apu.len() == 0x18
        &&& self.cart.len() == 0xBFE0
    }

    /// The byte a read of `addr` decodes to.
    pub open spec fn read(self, addr: int) -> u8
        recommends
            self.wf(),
            addr_mapped(addr),
    {
        if 0 <= addr < 0x2000 {
            self.ram[addr % 0x800]
        } else if addr < 0x2008 {
            self.ppu[addr - 0x2000]
        } else if addr < 0x4018 {
            self.apu[addr - 0x4000]
        } else {
            self.cart[addr - 0x4020]
        }
    }

    /// The bus after one byte is written at `addr`.
    pub open spec fn write(self, addr: int, value: u8) -> MemModel
        recommends
            self.wf(),
            addr_mapped(addr),
    {
        if 0 <= addr < 0x2000 {
            MemModel { ram: self.ram.update(addr % 0x800, value), ..self }
        } else if addr < 0x2008 {
            MemModel { ppu: self.ppu.update(addr - 0x2000, value), ..self }
        } else if addr < 0x4018 {
            MemModel { apu: self.apu.update(addr - 0x4000, value), ..self }
        } else {
            MemModel { cart: self.cart.update(addr - 0x4020, value), ..self }
        }
    }

    /// The bus after `data` is written byte by byte from `addr` upward.
    pub open spec fn write_bytes(self, addr: int, data: Seq<u8>) -> MemModel
        decreases data.len(),
    {
        if data.len() == 0 {
            self
        } else {
            self.write(addr, data[0]).write_bytes(addr + 1, data.skip(1))
        }
    }
}

/// True when every address of `[dst, dst + len)` is claimed by a region.
pub open spec fn range_mapped(dst: int, len: int) -> bool {
    forall|a: int| dst <= a < dst + len ==> addr_mapped(a)
}

/// The lowest unmapped address of `[dst, dst + len)`, for a range inside
/// the 64 KiB space that touches one of the two gaps.
pub open spec fn spec_first_unmapped(dst: int, len: int) -> int {
    if dst < 0x4000 && dst + len > 0x2008 {
        if dst >= 0x2008 {
            dst
        } else {
            0x2008
        }
    } else if dst < 0x4020 && dst + len > 0x4018 {
        if dst >= 0x4018 {
            dst
        } else {
            0x4018
        }
    } else {
        0
    }
}

/// Writing through either side of the work-RAM mirror is read back,
/// unchanged, through the other: the two windows are one backing store.
pub proof fn lemma_mirroring(m: MemModel, addr: int, value: u8)
    requires
        m.wf(),
        0 <= addr < 0x800,
    ensures
        m.write(addr, value).read(addr + 0x800) == value,
        m.write(addr + 0x800, value).read(addr) == value,
{
}

/// Bulk writes extend one byte at a time from the back.
pub proof fn lemma_write_bytes_snoc(m: MemModel, addr: int, data: Seq<u8>, value: u8)
    ensures
        m.write_bytes(addr, data.push(value)) == m.write_bytes(addr, data).write(
            addr + data.len(),
            value,
        ),
    decreases data.len(),
{
    if data.len() == 0 {
        assert(data.push(value).skip(1) =~= Seq::<u8>::empty());
        assert(data.push(value)[0] == value);
        assert(m.write_bytes(addr, data.push(value)) == m.write(addr, value).write_bytes(
            addr + 1,
            data.push(value).skip(1),
        ));
        assert(m.write(addr, value).write_bytes(addr + 1, data.push(value).skip(1)) == m.write(
            addr,
            value,
        ));
        assert(m.write_bytes(addr, data) == m);
    } else {
        assert(data.push(value)[0] == data[0]);
        assert(data.push(value).skip(1) =~= data.skip(1).push(value));
        lemma_write_bytes_snoc(m.write(addr, data[0]), addr + 1, data.skip(1), value);
        assert(m.write_bytes(addr, data.push(value)) == m.write(addr, data[0]).write_bytes(
            addr + 1,
            data.skip(1).push(value),
        ));
        assert(m.write_bytes(addr, data) == m.write(addr, data[0]).write_bytes(
            addr + 1,
            data.skip(1),
        ));
    }
}

/// A bulk write into the cartridge window lands verbatim: inside the range
/// each byte reads back from its offset, and every mapped address outside
/// the range is untouched. (The cartridge window has no aliases.)
pub proof fn lemma_write_bytes_cart(m: MemModel, dst: int, data: Seq<u8>, addr: int)
    requires
        m.wf(),
        0x4020 <= dst,
        dst + data.len() <= 0x10000,
    ensures
        m.write_bytes(dst, data).wf(),
        dst <= addr < dst + data.len() ==> m.write_bytes(dst, data).read(addr) == data[addr
            - dst],
        addr_mapped(addr) && !(dst <= addr < dst + data.len()) ==> m.write_bytes(dst, data).read(
            addr,
        ) == m.read(addr),
    decreases data.len(),
{
    if data.len() > 0 {
        lemma_write_bytes_cart(m.write(dst, data[0]), dst + 1, data.skip(1), addr);
    }
}

/// The bus. Owns the four backing stores; every access decodes the address
/// first, and an access in a gap or past the end of the space is rejected
/// before any byte moves.
pub struct Memory {
    ram: Vec<u8>,
    ppu: Vec<u8>,
    apu_io_registers: Vec<u8>,
    cartridge_map: Vec<u8>,
}

impl View for Memory {
    type V = MemModel;

    closed spec fn view(&self) -> MemModel {
        MemModel {
            ram: self.ram@,
            ppu: self.ppu@,
            apu: self.apu_io_registers@,
            cart: self.cartridge_map@,
        }
    }
}

impl Memory {
    pub open spec fn wf(&self) -> bool {
        self@.wf()
    }

    pub fn new() -> (r: Memory)
        ensures
            r.wf(),
            forall|addr: int| addr_mapped(addr) ==> r@.read(addr) == 0,
    {
        Memory {
            ram: vec![0u8; 0x800],
            ppu: vec![0u8; 8],
            apu_io_registers: vec![0u8; 0x18],
            cartridge_map: vec![0u8; 0xBFE0],
        }
    }

    /// The region that claims `addr`.
    pub fn region_of(addr: u16) -> (r: Region)
        ensures
            r == spec_region_of(addr as int),
    {
        if addr < 0x800 {
            Region::WorkRam
        } else if addr < 0x2000 {
            Region::WorkRamMirror
        } else if addr < 0x2008 {
            Region::PpuRegisters
        } else if 0x4000 <= addr && addr < 0x4018 {
            Region::ApuIo
        } else if 0x4020 <= addr {
            Region::Cartridge
        } else {
            Region::Unmapped
        }
    }

    fn is_mapped(addr: u16) -> (r: bool)
        ensures
            r == addr_mapped(addr as int),
    {
        addr < 0x2008 || (0x4000 <= addr && addr < 0x4018) || 0x4020 <= addr
    }

    /// Read one byte.
    pub fn read_u8(&self, addr: u16) -> (r: Result<u8, EmuError>)
        requires
            self.wf(),
        ensures
            match r {
                Ok(v) => addr_mapped(addr as int) && v == self@.read(addr as int),
                Err(e) => !addr_mapped(addr as int) && e == (EmuError::UnmappedAddress { addr }),
            },
    {
        if addr < 0x2000 {
            Ok(self.ram[(addr % 0x800) as usize])
        } else if addr < 0x2008 {
            Ok(self.ppu[(addr - 0x2000) as usize])
        } else if 0x4000 <= addr && addr < 0x4018 {
            Ok(self.apu_io_registers[(addr - 0x4000) as usize])
        } else if 0x4020 <= addr {
            Ok(self.cartridge_map[(addr - 0x4020) as usize])
        } else {
            Err(EmuError::UnmappedAddress { addr })
        }
    }

    /// Read a little-endian 16-bit value: low byte at `addr`, high byte at
    /// `addr + 1`. Rejected when the access would cross the end of the
    /// space or when either byte is unmapped.
    pub fn read_u16(&self, addr: u16) -> (r: Result<u16, EmuError>)
        requires
            self.wf(),
        ensures
            match r {
                Ok(v) => {
                    &&& addr as int + 2 <= 0x10000
                    &&& addr_mapped(addr as int)
                    &&& addr_mapped(addr as int + 1)
                    &&& v == self@.read(addr as int) + 256 * self@.read(addr as int + 1)
                },
                Err(e) => {
                    ||| (addr as int + 2 > 0x10000 && e == (EmuError::OutOfBoundsAccess { addr }))
                    ||| (addr as int + 2 <= 0x10000 && !addr_mapped(addr as int) && e == (
                    EmuError::UnmappedAddress { addr }))
                    ||| (addr as int + 2 <= 0x10000 && addr_mapped(addr as int) && !addr_mapped(
                        addr as int + 1,
                    ) && e == (EmuError::UnmappedAddress { addr: (addr + 1) as u16 }))
                },
            },
    {
        if addr == 0xFFFF {
            return Err(EmuError::OutOfBoundsAccess { addr });
        }
        let lo = match self.read_u8(addr) {
            Ok(v) => v,
            Err(e) => {
                return Err(e);
            },
        };
        let hi = match self.read_u8(addr + 1) {
            Ok(v) => v,
            Err(e) => {
                return Err(e);
            },
        };
        Ok(lo as u16 + 256 * (hi as u16))
    }

    /// Write one byte.
    pub fn write_u8(&mut self, addr: u16, value: u8) -> (r: Result<(), EmuError>)
        requires
            old(self).wf(),
        ensures
            final(self).wf(),
            match r {
                Ok(()) => addr_mapped(addr as int) && final(self)@ == old(self)@.write(
                    addr as int,
                    value,
                ),
                Err(e) => {
                    &&& !addr_mapped(addr as int)
                    &&& final(self)@ == old(self)@
                    &&& e == (EmuError::UnmappedAddress { addr })
                },
            },
    {
        if addr < 0x2000 {
            self.ram[(addr % 0x800) as usize] = value;
            Ok(())
        } else if addr < 0x2008 {
            self.ppu[(addr - 0x2000) as usize] = value;
            Ok(())
        } else if 0x4000 <= addr && addr < 0x4018 {
            self.apu_io_registers[(addr - 0x4000) as usize] = value;
            Ok(())
        } else if 0x4020 <= addr {
            self.cartridge_map[(addr - 0x4020) as usize] = value;
            Ok(())
        } else {
            Err(EmuError::UnmappedAddress { addr })
        }
    }

    /// Write a little-endian 16-bit value, low byte first. Both target
    /// addresses are validated before either byte is written, so a rejected
    /// write changes nothing.
    pub fn write_u16(&mut self, addr: u16, value: u16) -> (r: Result<(), EmuError>)
        requires
            old(self).wf(),
        ensures
            final(self).wf(),
            match r {
                Ok(()) => {
                    &&& addr as int + 2 <= 0x10000
                    &&& addr_mapped(addr as int)
                    &&& addr_mapped(addr as int + 1)
                    &&& final(self)@ == old(self)@.write(addr as int, (value % 256) as u8).write(
                        addr as int + 1,
                        (value / 256) as u8,
                    )
                },
                Err(e) => {
                    &&& final(self)@ == old(self)@
                    &&& {
                        ||| (addr as int + 2 > 0x10000 && e == (EmuError::OutOfBoundsAccess {
                            addr,
                        }))
                        ||| (addr as int + 2 <= 0x10000 && !addr_mapped(addr as int) && e == (
                        EmuError::UnmappedAddress { addr }))
                        ||| (addr as int + 2 <= 0x10000 && addr_mapped(addr as int)
                            && !addr_mapped(addr as int + 1) && e == (EmuError::UnmappedAddress {
                            addr: (addr + 1) as u16,
                        }))
                    }
                },
            },
    {
        if addr == 0xFFFF {
            return Err(EmuError::OutOfBoundsAccess { addr });
        }
        if !Self::is_mapped(addr) {
            return Err(EmuError::UnmappedAddress { addr });
        }
        if !Self::is_mapped(addr + 1) {
            return Err(EmuError::UnmappedAddress { addr: addr + 1 });
        }
        let lo = (value % 256) as u8;
        let hi = (value / 256) as u8;
        match self.write_u8(addr, lo) {
            Ok(()) => {},
            Err(e) => {
                return Err(e);
            },
        }
        match self.write_u8(addr + 1, hi) {
            Ok(()) => {},
            Err(e) => {
                return Err(e);
            },
        }
        Ok(())
    }

    /// Bulk write, used to copy ROM banks onto the bus. The whole
    /// destination range is validated before any byte is written: a range
    /// that runs past the end of the space or touches an unmapped gap is
    /// rejected with the bus unchanged.
    pub fn write_slice(&mut self, dst: u16, data: &[u8]) -> (r: Result<(), EmuError>)
        requires
            old(self).wf(),
        ensures
            final(self).wf(),
            match r {
                Ok(()) => {
                    &&& dst as int + data@.len() <= 0x10000
                    &&& range_mapped(dst as int, data@.len() as int)
                    &&& final(self)@ == old(self)@.write_bytes(dst as int, data@)
                },
                Err(e) => {
                    &&& final(self)@ == old(self)@
                    &&& {
                        ||| (dst as int + data@.len() > 0x10000 && e == (EmuError::OutOfBoundsAccess {
                            addr: dst,
                        }))
                        ||| (dst as int + data@.len() <= 0x10000 && !range_mapped(
                            dst as int,
                            data@.len() as int,
                        ) && e == (EmuError::UnmappedAddress {
                            addr: spec_first_unmapped(dst as int, data@.len() as int) as u16,
                        }))
                    }
                },
            },
    {
        let len = data.len();
        if len > 0x10000 - dst as usize {
            return Err(EmuError::OutOfBoundsAccess { addr: dst });
        }
        if len > 0 && dst < 0x4000 && dst as usize + len > 0x2008 {
            let first: u16 = if dst >= 0x2008 {
                dst
            } else {
                0x2008
            };
            proof {
                assert(!addr_mapped(spec_first_unmapped(dst as int, len as int)));
            }
            return Err(EmuError::UnmappedAddress { addr: first });
        }
        if len > 0 && dst < 0x4020 && dst as usize + len > 0x4018 {
            let first: u16 = if dst >= 0x4018 {
                dst
            } else {
                0x4018
            };
            proof {
                assert(!addr_mapped(spec_first_unmapped(dst as int, len as int)));
            }
            return Err(EmuError::UnmappedAddress { addr: first });
        }
        let mut i: usize = 0;
        while i < len
            invariant
                self.wf(),
                len == data@.len(),
                dst as int + len <= 0x10000,
                range_mapped(dst as int, len as int),
                0 <= i <= len,
                self@ == old(self)@.write_bytes(dst as int, data@.take(i as int)),
            decreases len - i,
        {
            let addr = dst + (i as u16);
            let ghost prev = self@;
            match self.write_u8(addr, data[i]) {
                Ok(()) => {},
                Err(e) => {
                    return Err(e);
                },
            }
            proof {
                lemma_write_bytes_snoc(old(self)@, dst as int, data@.take(i as int), data@[i as int]);
                assert(data@.take(i as int).push(data@[i as int]) =~= data@.take(i as int + 1));
            }
            i = i + 1;
        }
        proof {
            assert(data@.take(len as int) =~= data@);
        }
        Ok(())
    }
}

} // verus!
