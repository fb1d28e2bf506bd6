//! The error taxonomy of the machine: ROM validation failures, bus decode
//! failures, and dispatch of opcodes that have no handler.

use vstd::prelude::*;

verus! {

/// Every fallible operation of the machine returns one of these kinds.
/// A bus decode failure or an unimplemented opcode aborts the current step
/// and is surfaced to the caller; it never terminates the process.
#[derive(Clone, Copy, Debug, PartialEq, Eq, Structural)]
pub enum EmuError {
    /// The ROM container is rejected at load time: bad signature or
    /// truncated data. The machine never starts.
    InvalidRom,
    /// An access landed in a hole of the address map
    /// (notably 0x2008..0x4000 and 0x4018..0x4020).
    UnmappedAddress { addr: u16 },
    /// An access would run past the end of the 64 KiB space or past the
    /// end of a backing store; nothing is clipped silently.
    OutOfBoundsAccess { addr: u16 },
    /// The dispatched opcode byte has no handler.
    UnimplementedOpcode,
}

} // verus!
