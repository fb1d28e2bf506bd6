//! CPU register and flag state: accumulator, two index registers, stack
//! pointer, program counter, and an 8-bit status register with named bits.
//!
//! Flag setters take an already-evaluated boolean condition and always both
//! set and clear their bit, so after any setter the bit reflects exactly the
//! condition last written. The status register is a single byte; push and
//! pull instructions move this same byte through the stack.

use vstd::prelude::*;

verus! {

/// Status bit: result sign.
pub const FLAG_NEGATIVE: u8 = 0x01;
/// Status bit: signed overflow (copied from bit 6 of the operand by BIT).
pub const FLAG_OVERFLOW: u8 = 0x02;
/// Status bit: reserved, unused by any handler.
pub const FLAG_RESERVED: u8 = 0x04;
/// Status bit: set by the software-interrupt instruction.
pub const FLAG_BREAK: u8 = 0x08;
/// Status bit: decimal mode (never consulted by the arithmetic here).
pub const FLAG_DECIMAL: u8 = 0x10;
/// Status bit: interrupts disabled.
pub const FLAG_INTERRUPT_DISABLE: u8 = 0x20;
/// Status bit: result was zero.
pub const FLAG_ZERO: u8 = 0x40;
/// Status bit: carry / no-borrow out of a comparison.
pub const FLAG_CARRY: u8 = 0x80;

/// True when the bit selected by `mask` is set in `flags`.
pub open spec fn flag_set(flags: u8, mask: u8) -> bool {
    flags & mask != 0
}

/// The status byte after writing `value` into the bit selected by `mask`.
pub open spec fn spec_set_flag(flags: u8, mask: u8, value: bool) -> u8 {
    if value {
        flags | mask
    } else {
        flags & !mask
    }
}

/// Writing a bit leaves that bit equal to the condition written.
pub proof fn lemma_flag_set_get(flags: u8, mask: u8, value: bool)
    requires
        mask != 0,
    ensures
        flag_set(spec_set_flag(flags, mask, value), mask) == value,
{
    assert(mask != 0 ==> (flags | mask) & mask != 0) by (bit_vector);
    assert((flags & !mask) & mask == 0) by (bit_vector);
}

/// Writing one bit leaves every disjoint bit untouched.
pub proof fn lemma_flag_set_other(flags: u8, mask: u8, other: u8, value: bool)
    requires
        mask & other == 0,
    ensures
        flag_set(spec_set_flag(flags, mask, value), other) == flag_set(flags, other),
{
    assert((flags | mask) & other == flags & other) by (bit_vector)
        requires
            mask & other == 0,
    ;
    assert((flags & !mask) & other == flags & other) by (bit_vector)
        requires
            mask & other == 0,
    ;
}

/// CPU register file. Mutated only by instruction handlers and `reset`.
pub struct CPU {
    pub a: u8,
    pub x: u8,
    pub y: u8,
    pub pc: u16,
    pub sp: u8,
    pub flags: u8,
}

/// Everything but the status byte is equal between the two register files.
pub open spec fn regs_except_flags_equal(c1: CPU, c2: CPU) -> bool {
    &&& c1.a == c2.a
    &&& c1.x == c2.x
    &&& c1.y == c2.y
    &&& c1.pc == c2.pc
    &&& c1.sp == c2.sp
}

impl CPU {
    pub fn new() -> (r: CPU)
        ensures
            r.a == 0,
            r.x == 0,
            r.y == 0,
            r.pc == 0xFFFC,
            r.sp == 0xFF,
            r.flags == 0,
    {
        CPU { a: 0, x: 0, y: 0, pc: 0xFFFC, sp: 0xFF, flags: 0 }
    }

    /// Re-initialise for a machine (re)start: the stack pointer returns to
    /// the top, every flag but InterruptDisable is cleared, and execution
    /// continues at `start_address` (read by the caller from the reset
    /// vector).
    pub fn reset(&mut self, start_address: u16)
        ensures
            final(self).sp == 0xFF,
            final(self).flags == FLAG_INTERRUPT_DISABLE,
            final(self).pc == start_address,
            final(self).a == old(self).a,
            final(self).x == old(self).x,
            final(self).y == old(self).y,
    {
        self.sp = 0xFF;
        self.flags = FLAG_INTERRUPT_DISABLE;
        self.pc = start_address;
    }

    pub fn negative(&self) -> (r: bool)
        ensures
            r == flag_set(self.flags, FLAG_NEGATIVE),
    {
        self.flags & FLAG_NEGATIVE != 0
    }

    pub fn overflow(&self) -> (r: bool)
        ensures
            r == flag_set(self.flags, FLAG_OVERFLOW),
    {
        self.flags & FLAG_OVERFLOW != 0
    }

    pub fn reserved(&self) -> (r: bool)
        ensures
            r == flag_set(self.flags, FLAG_RESERVED),
    {
        self.flags & FLAG_RESERVED != 0
    }

    pub fn break_(&self) -> (r: bool)
        ensures
            r == flag_set(self.flags, FLAG_BREAK),
    {
        self.flags & FLAG_BREAK != 0
    }

    pub fn decimal(&self) -> (r: bool)
        ensures
            r == flag_set(self.flags, FLAG_DECIMAL),
    {
        self.flags & FLAG_DECIMAL != 0
    }

    pub fn interrupt_disable(&self) -> (r: bool)
        ensures
            r == flag_set(self.flags, FLAG_INTERRUPT_DISABLE),
    {
        self.flags & FLAG_INTERRUPT_DISABLE != 0
    }

    pub fn zero(&self) -> (r: bool)
        ensures
            r == flag_set(self.flags, FLAG_ZERO),
    {
        self.flags & FLAG_ZERO != 0
    }

    pub fn carry(&self) -> (r: bool)
        ensures
            r == flag_set(self.flags, FLAG_CARRY),
    {
        self.flags & FLAG_CARRY != 0
    }

    pub fn set_negative(&mut self, value: bool)
        ensures
            final(self).flags == spec_set_flag(old(self).flags, FLAG_NEGATIVE, value),
            regs_except_flags_equal(*final(self), *old(self)),
    {
        if value {
            self.flags = self.flags | FLAG_NEGATIVE;
        } else {
            self.flags = self.flags & !FLAG_NEGATIVE;
        }
    }

    pub fn set_overflow(&mut self, value: bool)
        ensures
            final(self).flags == spec_set_flag(old(self).flags, FLAG_OVERFLOW, value),
            regs_except_flags_equal(*final(self), *old(self)),
    {
        if value {
            self.flags = self.flags | FLAG_OVERFLOW;
        } else {
            self.flags = self.flags & !FLAG_OVERFLOW;
        }
    }

    pub fn set_break(&mut self, value: bool)
        ensures
            final(self).flags == spec_set_flag(old(self).flags, FLAG_BREAK, value),
            regs_except_flags_equal(*final(self), *old(self)),
    {
        if value {
            self.flags = self.flags | FLAG_BREAK;
        } else {
            self.flags = self.flags & !FLAG_BREAK;
        }
    }

    pub fn set_decimal(&mut self, value: bool)
        ensures
            final(self).flags == spec_set_flag(old(self).flags, FLAG_DECIMAL, value),
            regs_except_flags_equal(*final(self), *old(self)),
    {
        if value {
            self.flags = self.flags | FLAG_DECIMAL;
        } else {
            self.flags = self.flags & !FLAG_DECIMAL;
        }
    }

    pub fn set_interrupt_disable(&mut self, value: bool)
        ensures
            final(self).flags == spec_set_flag(old(self).flags, FLAG_INTERRUPT_DISABLE, value),
            regs_except_flags_equal(*final(self), *old(self)),
    {
        if value {
            self.flags = self.flags | FLAG_INTERRUPT_DISABLE;
        } else {
            self.flags = self.flags & !FLAG_INTERRUPT_DISABLE;
        }
    }

    pub fn set_zero(&mut self, value: bool)
        ensures
            final(self).flags == spec_set_flag(old(self).flags, FLAG_ZERO, value),
            regs_except_flags_equal(*final(self), *old(self)),
    {
        if value {
            self.flags = self.flags | FLAG_ZERO;
        } else {
            self.flags = self.flags & !FLAG_ZERO;
        }
    }

    pub fn set_carry(&mut self, value: bool)
        ensures
            final(self).flags == spec_set_flag(old(self).flags, FLAG_CARRY, value),
            regs_except_flags_equal(*final(self), *old(self)),
    {
        if value {
            self.flags = self.flags | FLAG_CARRY;
        } else {
            self.flags = self.flags & !FLAG_CARRY;
        }
    }
}

} // verus!
