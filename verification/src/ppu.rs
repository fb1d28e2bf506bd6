//! The picture unit's backing memory. Picture processing itself is out of
//! scope: this is the stub store that pattern data is copied into at load
//! time, bounds-checked like every other store.

use vstd::prelude::*;

use crate::error::EmuError;

verus! {

/// Size of the picture memory window in bytes.
pub const PPU_MEMORY_SIZE: usize = 0x3FFF;

pub struct PPU {
    memory: Vec<u8>,
}

impl View for PPU {
    type V = Seq<u8>;

    closed spec fn view(&self) -> Seq<u8> {
        self.memory@
    }
}

impl PPU {
    pub open spec fn wf(&self) -> bool {
        self@.len() == PPU_MEMORY_SIZE
    }

    pub fn new() -> (r: PPU)
        ensures
            r.wf(),
            forall|j: int| 0 <= j < PPU_MEMORY_SIZE ==> r@[j] == 0,
    {
        PPU { memory: vec![0u8; PPU_MEMORY_SIZE] }
    }

    /// Read one byte of picture memory.
    pub fn read_u8(&self, addr: u16) -> (r: Result<u8, EmuError>)
        requires
            self.wf(),
        ensures
            match r {
                Ok(v) => addr < PPU_MEMORY_SIZE && v == self@[addr as int],
                Err(e) => addr >= PPU_MEMORY_SIZE && e == (EmuError::OutOfBoundsAccess { addr }),
            },
    {
        if (addr as usize) < PPU_MEMORY_SIZE {
            Ok(self.memory[addr as usize])
        } else {
            Err(EmuError::OutOfBoundsAccess { addr })
        }
    }

    /// Write one byte of picture memory.
    pub fn write_u8(&mut self, addr: u16, value: u8) -> (r: Result<(), EmuError>)
        requires
            old(self).wf(),
        ensures
            final(self).wf(),
            match r {
                Ok(()) => addr < PPU_MEMORY_SIZE && final(self)@ == old(self)@.update(
                    addr as int,
                    value,
                ),
                Err(e) => {
                    &&& addr >= PPU_MEMORY_SIZE
                    &&& final(self)@ == old(self)@
                    &&& e == (EmuError::OutOfBoundsAccess { addr })
                },
            },
    {
        if (addr as usize) < PPU_MEMORY_SIZE {
            self.memory[addr as usize] = value;
            Ok(())
        } else {
            Err(EmuError::OutOfBoundsAccess { addr })
        }
    }

    /// Bulk write, used to copy pattern banks in at load time. The whole
    /// destination range is validated before any byte is written.
    pub fn write_slice(&mut self, dst: u16, data: &[u8]) -> (r: Result<(), EmuError>)
        requires
            old(self).wf(),
        ensures
            final(self).wf(),
            match r {
                Ok(()) => {
                    &&& dst as int + data@.len() <= PPU_MEMORY_SIZE
                    &&& forall|j: int|
                        0 <= j < PPU_MEMORY_SIZE ==> final(self)@[j] == (if dst <= j < dst
                            + data@.len() {
                            data@[j - dst]
                        } else {
                            old(self)@[j]
                        })
                },
                Err(e) => {
                    &&& dst as int + data@.len() > PPU_MEMORY_SIZE
                    &&& final(self)@ == old(self)@
                    &&& e == (EmuError::OutOfBoundsAccess { addr: dst })
                },
            },
    {
        let len = data.len();
        if dst as usize > PPU_MEMORY_SIZE || len > PPU_MEMORY_SIZE - dst as usize {
            return Err(EmuError::OutOfBoundsAccess { addr: dst });
        }
        let mut i: usize = 0;
        while i < len
            invariant
                self.wf(),
                len == data@.len(),
                dst as int + len <= PPU_MEMORY_SIZE,
                0 <= i <= len,
                forall|j: int|
                    0 <= j < PPU_MEMORY_SIZE ==> self@[j] == (if dst <= j < dst + i {
                        data@[j - dst]
                    } else {
                        old(self)@[j]
                    }),
            decreases len - i,
        {
            self.memory[dst as usize + i] = data[i];
            i = i + 1;
        }
        Ok(())
    }
}

} // verus!
