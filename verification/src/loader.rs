//! The ROM loader: one bulk copy of a parsed container into the machine,
//! performed strictly before execution begins.

use vstd::prelude::*;

use crate::error::EmuError;
use crate::file::NES_MAGIC;
use crate::file::NESFile;
use crate::memory::range_mapped;
use crate::nes::NES;
use crate::ppu::PPU_MEMORY_SIZE;

verus! {

/// Base bus address the program banks are copied to: the fixed mapping,
/// with no bank switching.
pub const PRG_BASE: u16 = 0xC000;

pub struct NESLoader;

impl NESLoader {
    /// Copy a parsed ROM into the machine: program data onto the
    /// cartridge window at the fixed base, pattern data into picture
    /// memory at offset zero. A container without the signature is
    /// rejected before anything is copied. Each bulk copy validates its
    /// whole range before writing; if the pattern copy is rejected after
    /// the program copy succeeded, the program data stays in place (the
    /// two copies are not one unit) and the machine has not started.
    pub fn load_rom(rom: &NESFile, nes: &mut NES) -> (r: Result<(), EmuError>)
        requires
            old(nes).wf(),
        ensures
            final(nes).wf(),
            final(nes).bus.cpu == old(nes).bus.cpu,
            final(nes).state == old(nes).state,
            final(nes).policy == old(nes).policy,
            final(nes).cycles_left == old(nes).cycles_left,
            final(nes).cycles_per_frame == old(nes).cycles_per_frame,
            match r {
                Ok(()) => {
                    &&& rom.header.magic_number == NES_MAGIC
                    &&& PRG_BASE + rom.data.prg_rom@.len() <= 0x10000
                    &&& rom.data.chr_rom@.len() <= PPU_MEMORY_SIZE
                    &&& final(nes).bus.memory@ == old(nes).bus.memory@.write_bytes(
                        PRG_BASE as int,
                        rom.data.prg_rom@,
                    )
                    &&& forall|a: int|
                        PRG_BASE <= a < PRG_BASE + rom.data.prg_rom@.len() ==> final(
                            nes).bus.memory@.read(a) == rom.data.prg_rom@[a - PRG_BASE]
                    &&& forall|j: int|
                        0 <= j < PPU_MEMORY_SIZE ==> final(nes).bus.ppu@[j] == (if j < rom.data.chr_rom@.len() {
                            rom.data.chr_rom@[j]
                        } else {
                            old(nes).bus.ppu@[j]
                        })
                },
                Err(e) => {
                    ||| (rom.header.magic_number != NES_MAGIC && e == EmuError::InvalidRom
                        && final(nes).bus.memory@ == old(nes).bus.memory@ && final(nes).bus.ppu@
                        == old(nes).bus.ppu@)
                    ||| (rom.header.magic_number == NES_MAGIC && PRG_BASE + rom.data.prg_rom@.len()
                        > 0x10000 && e == (EmuError::OutOfBoundsAccess { addr: PRG_BASE })
                        && final(nes).bus.memory@ == old(nes).bus.memory@ && final(nes).bus.ppu@
                        == old(nes).bus.ppu@)
                    ||| (rom.header.magic_number == NES_MAGIC && PRG_BASE + rom.data.prg_rom@.len()
                        <= 0x10000 && rom.data.chr_rom@.len() > PPU_MEMORY_SIZE && e == (
                    EmuError::OutOfBoundsAccess { addr: 0 }) && final(nes).bus.memory@ == old(
                        nes).bus.memory@.write_bytes(PRG_BASE as int, rom.data.prg_rom@) && final(
                        nes).bus.ppu@ == old(nes).bus.ppu@)
                },
            },
    {
        if !rom.is_valid() {
            return Err(EmuError::InvalidRom);
        }
        proof {
            if PRG_BASE + rom.data.prg_rom@.len() <= 0x10000 {
                assert(range_mapped(PRG_BASE as int, rom.data.prg_rom@.len() as int));
            }
        }
        match nes.bus.memory.write_slice(PRG_BASE, rom.data.prg_rom.as_slice()) {
            Ok(()) => {},
            Err(e) => {
                return Err(e);
            },
        }
        match nes.bus.ppu.write_slice(0, rom.data.chr_rom.as_slice()) {
            Ok(()) => {},
            Err(e) => {
                return Err(e);
            },
        }
        proof {
            assert forall|a: int|
                PRG_BASE <= a < PRG_BASE + rom.data.prg_rom@.len() implies nes.bus.memory@.read(a)
                == rom.data.prg_rom@[a - PRG_BASE] by {
                crate::memory::lemma_write_bytes_cart(
                    old(nes).bus.memory@,
                    PRG_BASE as int,
                    rom.data.prg_rom@,
                    a,
                );
            }
        }
        Ok(())
    }
}

} // verus!
