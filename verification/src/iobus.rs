//! The bus assembly: the CPU register file, the address space, and the
//! picture unit's backing memory, owned together by one machine instance.

use vstd::prelude::*;

use crate::cpu::CPU;
use crate::memory::Memory;
use crate::memory::addr_mapped;
use crate::ppu::PPU;
use crate::ppu::PPU_MEMORY_SIZE;

verus! {

pub struct IOBus {
    pub cpu: CPU,
    pub memory: Memory,
    pub ppu: PPU,
}

impl IOBus {
    pub open spec fn wf(&self) -> bool {
        &&& self.memory.wf()
        &&& self.ppu.wf()
    }

    pub fn new() -> (r: IOBus)
        ensures
            r.wf(),
            forall|addr: int| addr_mapped(addr) ==> r.memory@.read(addr) == 0,
            forall|j: int| 0 <= j < PPU_MEMORY_SIZE ==> r.ppu@[j] == 0,
            r.cpu.a == 0,
            r.cpu.x == 0,
            r.cpu.y == 0,
            r.cpu.pc == 0xFFFC,
            r.cpu.sp == 0xFF,
            r.cpu.flags == 0,
    {
        IOBus { cpu: CPU::new(), memory: Memory::new(), ppu: PPU::new() }
    }
}

} // verus!
