//! A 6502-derived console core: a memory bus with address decoding and
//! mirroring, CPU register and flag state, an opcode dispatch table, and a
//! fetch-decode-execute engine with per-frame cycle budgeting.

pub mod cpu;
pub mod debugger;
pub mod error;
pub mod file;
pub mod iobus;
pub mod loader;
pub mod machine;
pub mod memory;
pub mod nes;
pub mod opcodes;
pub mod ppu;
