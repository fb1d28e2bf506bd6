//! The mathematical machine: CPU registers together with the bus contents,
//! and one transform per instruction. Each executable handler is proved to
//! effect exactly its transform here.
//!
//! Conventions fixed by this module:
//! - An instruction's two operand bytes combine low byte first into an
//!   absolute address.
//! - A relative branch offset is the operand byte reinterpreted as an 8-bit
//!   two's-complement value; handlers see the program counter already
//!   advanced past the instruction, so a taken branch lands that offset
//!   beyond the normal advance.
//! - The stack pointer is used directly as a 16-bit bus address, so the
//!   stack physically occupies page zero (0x0000..0x0100); it is not
//!   confined to the canonical 0x0100..0x0200 page. Stack accesses
//!   therefore always decode into work RAM and cannot fault.
//! - A push writes at the stack address and then decrements the pointer; a
//!   pull increments the pointer and then reads; both wrap within 8 bits.

use vstd::prelude::*;

use crate::cpu::CPU;
use crate::cpu::FLAG_BREAK;
use crate::cpu::FLAG_CARRY;
use crate::cpu::FLAG_DECIMAL;
use crate::cpu::FLAG_INTERRUPT_DISABLE;
use crate::cpu::FLAG_NEGATIVE;
use crate::cpu::FLAG_OVERFLOW;
use crate::cpu::FLAG_ZERO;
use crate::cpu::flag_set;
use crate::cpu::spec_set_flag;
use crate::error::EmuError;
use crate::memory::MemModel;
use crate::memory::addr_mapped;

verus! {

/// CPU registers plus bus contents: everything an instruction can touch.
#[verifier::ext_equal]
pub struct Mach {
    pub cpu: CPU,
    pub mem: MemModel,
}

impl Mach {
    pub open spec fn wf(self) -> bool {
        self.mem.wf()
    }
}

/// Low byte of a 16-bit value.
pub open spec fn lo_byte(v: u16) -> u8 {
    (v % 256) as u8
}

/// High byte of a 16-bit value.
pub open spec fn hi_byte(v: u16) -> u8 {
    (v / 256) as u8
}

/// The absolute address encoded by two operand bytes, low byte first.
pub open spec fn abs_address(b1: u8, b2: u8) -> u16 {
    (b1 + 256 * b2) as u16
}

/// 16-bit add that wraps at the end of the address space.
pub open spec fn wrap_add16(a: u16, b: u16) -> u16 {
    ((a + b) % 0x10000) as u16
}

/// The address one past `a`, wrapping at the end of the address space.
pub open spec fn wrap_inc16(a: u16) -> u16 {
    ((a + 1) % 0x10000) as u16
}

/// The address one before `a`, wrapping at the end of the address space.
pub open spec fn wrap_dec16(a: u16) -> u16 {
    ((a + 0xFFFF) % 0x10000) as u16
}

/// 8-bit add that stays inside page zero: no carry into page one.
pub open spec fn wrap_add8(a: u8, b: u8) -> u8 {
    ((a + b) % 256) as u8
}

/// 8-bit increment, wrapping.
pub open spec fn wrap_inc8(a: u8) -> u8 {
    ((a + 1) % 256) as u8
}

/// 8-bit decrement, wrapping.
pub open spec fn wrap_dec8(a: u8) -> u8 {
    ((a + 255) % 256) as u8
}

/// Where a taken branch lands: the operand reinterpreted as a signed
/// two's-complement offset, added to the (already advanced) program
/// counter, wrapping at 16 bits.
pub open spec fn branch_target(pc: u16, offset: u8) -> u16 {
    if offset < 0x80 {
        ((pc + offset) % 0x10000) as u16
    } else {
        ((pc + offset + 0x10000 - 0x100) % 0x10000) as u16
    }
}

/// The status byte after a value lands in a register: Zero tracks equality
/// with zero, Negative tracks the sign bit.
pub open spec fn flags_zn(flags: u8, value: u8) -> u8 {
    spec_set_flag(spec_set_flag(flags, FLAG_ZERO, value == 0), FLAG_NEGATIVE, value >= 0x80)
}

/// For every loaded value and every prior status byte: after a load,
/// Zero holds exactly when the value is zero, Negative exactly when its
/// sign bit is set, and every other flag keeps its old reading.
pub proof fn lemma_load_flags(flags: u8, value: u8, other: u8)
    requires
        other & (FLAG_ZERO | FLAG_NEGATIVE) == 0,
    ensures
        flag_set(flags_zn(flags, value), FLAG_ZERO) == (value == 0),
        flag_set(flags_zn(flags, value), FLAG_NEGATIVE) == (value >= 0x80),
        flag_set(flags_zn(flags, value), other) == flag_set(flags, other),
{
    assert(FLAG_NEGATIVE & FLAG_ZERO == 0) by (bit_vector);
    assert(FLAG_NEGATIVE != 0 && FLAG_ZERO != 0) by (bit_vector);
    let f1 = spec_set_flag(flags, FLAG_ZERO, value == 0);
    crate::cpu::lemma_flag_set_get(f1, FLAG_NEGATIVE, value >= 0x80);
    crate::cpu::lemma_flag_set_get(flags, FLAG_ZERO, value == 0);
    crate::cpu::lemma_flag_set_other(f1, FLAG_NEGATIVE, FLAG_ZERO, value >= 0x80);
    assert(other & (FLAG_ZERO | FLAG_NEGATIVE) == 0 ==> FLAG_ZERO & other == 0 && FLAG_NEGATIVE
        & other == 0) by (bit_vector);
    crate::cpu::lemma_flag_set_other(flags, FLAG_ZERO, other, value == 0);
    crate::cpu::lemma_flag_set_other(f1, FLAG_NEGATIVE, other, value >= 0x80);
}

/// Push one byte: write at the stack address, then decrement the pointer.
pub open spec fn spec_push(m: Mach, value: u8) -> Mach {
    Mach {
        cpu: CPU { sp: wrap_dec8(m.cpu.sp), ..m.cpu },
        mem: m.mem.write(m.cpu.sp as int, value),
    }
}

/// Pull one byte: increment the pointer, then read at the stack address.
pub open spec fn spec_pull(m: Mach) -> (Mach, u8) {
    let sp2 = wrap_inc8(m.cpu.sp);
    (Mach { cpu: CPU { sp: sp2, ..m.cpu }, mem: m.mem }, m.mem.read(sp2 as int))
}

/// A value lands in the accumulator and Zero/Negative follow it.
pub open spec fn spec_load_a(m: Mach, value: u8) -> Mach {
    Mach { cpu: CPU { a: value, flags: flags_zn(m.cpu.flags, value), ..m.cpu }, mem: m.mem }
}

/// A value lands in index X and Zero/Negative follow it.
pub open spec fn spec_load_x(m: Mach, value: u8) -> Mach {
    Mach { cpu: CPU { x: value, flags: flags_zn(m.cpu.flags, value), ..m.cpu }, mem: m.mem }
}

/// Software interrupt: push the return address high byte first, then the
/// status byte; set Break and InterruptDisable; continue at the address
/// the interrupt vector holds (little-endian at 0xFFFE).
pub open spec fn spec_brk_implied(m: Mach) -> Mach {
    let m1 = spec_push(m, hi_byte(m.cpu.pc));
    let m2 = spec_push(m1, lo_byte(m.cpu.pc));
    let m3 = spec_push(m2, m.cpu.flags);
    let flags2 = spec_set_flag(
        spec_set_flag(m.cpu.flags, FLAG_BREAK, true),
        FLAG_INTERRUPT_DISABLE,
        true,
    );
    let pc2 = (m3.mem.read(0xFFFE) + 256 * m3.mem.read(0xFFFF)) as u16;
    Mach { cpu: CPU { pc: pc2, flags: flags2, ..m3.cpu }, mem: m3.mem }
}

pub open spec fn spec_lda_immediate(m: Mach, b1: u8) -> Mach {
    spec_load_a(m, b1)
}

pub open spec fn spec_sta_absolute(m: Mach, b1: u8, b2: u8) -> Result<Mach, EmuError> {
    let addr = abs_address(b1, b2);
    if addr_mapped(addr as int) {
        Ok(Mach { cpu: m.cpu, mem: m.mem.write(addr as int, m.cpu.a) })
    } else {
        Err(EmuError::UnmappedAddress { addr })
    }
}

pub open spec fn spec_lda_absolute(m: Mach, b1: u8, b2: u8) -> Result<Mach, EmuError> {
    let addr = abs_address(b1, b2);
    if addr_mapped(addr as int) {
        Ok(spec_load_a(m, m.mem.read(addr as int)))
    } else {
        Err(EmuError::UnmappedAddress { addr })
    }
}

/// A conditional branch: when `taken`, the signed offset lands beyond the
/// already-advanced program counter; otherwise nothing changes.
pub open spec fn spec_branch(m: Mach, taken: bool, offset: u8) -> Mach {
    if taken {
        Mach { cpu: CPU { pc: branch_target(m.cpu.pc, offset), ..m.cpu }, mem: m.mem }
    } else {
        m
    }
}

pub open spec fn spec_bpl_relative(m: Mach, b1: u8) -> Mach {
    spec_branch(m, !flag_set(m.cpu.flags, FLAG_NEGATIVE), b1)
}

pub open spec fn spec_bmi_relative(m: Mach, b1: u8) -> Mach {
    spec_branch(m, flag_set(m.cpu.flags, FLAG_NEGATIVE), b1)
}

pub open spec fn spec_bne_relative(m: Mach, b1: u8) -> Mach {
    spec_branch(m, !flag_set(m.cpu.flags, FLAG_ZERO), b1)
}

pub open spec fn spec_beq_relative(m: Mach, b1: u8) -> Mach {
    spec_branch(m, flag_set(m.cpu.flags, FLAG_ZERO), b1)
}

pub open spec fn spec_sei_implied(m: Mach) -> Mach {
    Mach {
        cpu: CPU { flags: spec_set_flag(m.cpu.flags, FLAG_INTERRUPT_DISABLE, true), ..m.cpu },
        mem: m.mem,
    }
}

pub open spec fn spec_cld_implied(m: Mach) -> Mach {
    Mach {
        cpu: CPU { flags: spec_set_flag(m.cpu.flags, FLAG_DECIMAL, false), ..m.cpu },
        mem: m.mem,
    }
}

pub open spec fn spec_ldx_immediate(m: Mach, b1: u8) -> Mach {
    spec_load_x(m, b1)
}

/// Transfer X to the stack pointer. A pure register transfer: no flag is a
/// defined side effect of this instruction.
pub open spec fn spec_txs_implied(m: Mach) -> Mach {
    Mach { cpu: CPU { sp: m.cpu.x, ..m.cpu }, mem: m.mem }
}

pub open spec fn spec_txa_implied(m: Mach) -> Mach {
    spec_load_a(m, m.cpu.x)
}

pub open spec fn spec_inx_implied(m: Mach) -> Mach {
    spec_load_x(m, wrap_inc8(m.cpu.x))
}

pub open spec fn spec_dex_implied(m: Mach) -> Mach {
    spec_load_x(m, wrap_dec8(m.cpu.x))
}

pub open spec fn spec_lda_absolute_ix(m: Mach, b1: u8, b2: u8) -> Result<Mach, EmuError> {
    let addr = wrap_add16(abs_address(b1, b2), m.cpu.x as u16);
    if addr_mapped(addr as int) {
        Ok(spec_load_a(m, m.mem.read(addr as int)))
    } else {
        Err(EmuError::UnmappedAddress { addr })
    }
}

/// Compare the accumulator with memory at the indexed absolute address:
/// Carry is set exactly when A >= M (no borrow), Zero when A == M, and
/// Negative follows the sign bit of the 8-bit difference A - M.
pub open spec fn spec_cmp_absolute_ix(m: Mach, b1: u8, b2: u8) -> Result<Mach, EmuError> {
    let addr = wrap_add16(abs_address(b1, b2), m.cpu.x as u16);
    if addr_mapped(addr as int) {
        let value = m.mem.read(addr as int);
        let diff = ((m.cpu.a + 256 - value) % 256) as u8;
        let f1 = spec_set_flag(m.cpu.flags, FLAG_CARRY, m.cpu.a >= value);
        let f2 = spec_set_flag(f1, FLAG_ZERO, m.cpu.a == value);
        let f3 = spec_set_flag(f2, FLAG_NEGATIVE, diff >= 0x80);
        Ok(Mach { cpu: CPU { flags: f3, ..m.cpu }, mem: m.mem })
    } else {
        Err(EmuError::UnmappedAddress { addr })
    }
}

pub open spec fn spec_sta_absolute_ix(m: Mach, b1: u8, b2: u8) -> Result<Mach, EmuError> {
    let addr = wrap_add16(abs_address(b1, b2), m.cpu.x as u16);
    if addr_mapped(addr as int) {
        Ok(Mach { cpu: m.cpu, mem: m.mem.write(addr as int, m.cpu.a) })
    } else {
        Err(EmuError::UnmappedAddress { addr })
    }
}

/// Subroutine call: push the address of the call's last byte (the advanced
/// program counter minus one), high byte first, then continue at the
/// operand address.
pub open spec fn spec_jsr_absolute(m: Mach, b1: u8, b2: u8) -> Mach {
    let ret = wrap_dec16(m.cpu.pc);
    let m1 = spec_push(m, hi_byte(ret));
    let m2 = spec_push(m1, lo_byte(ret));
    Mach { cpu: CPU { pc: abs_address(b1, b2), ..m2.cpu }, mem: m2.mem }
}

/// OR a value into the accumulator; Zero/Negative follow the result.
pub open spec fn spec_ora_apply(m: Mach, value: u8) -> Mach {
    spec_load_a(m, m.cpu.a | value)
}

pub open spec fn spec_ora_indirect_y(m: Mach, b1: u8) -> Result<Mach, EmuError> {
    let lo = m.mem.read(b1 as int);
    let hi = m.mem.read(wrap_inc8(b1) as int);
    let addr = wrap_add16((lo + 256 * hi) as u16, m.cpu.y as u16);
    if addr_mapped(addr as int) {
        Ok(spec_ora_apply(m, m.mem.read(addr as int)))
    } else {
        Err(EmuError::UnmappedAddress { addr })
    }
}

pub open spec fn spec_ora_indirect_x(m: Mach, b1: u8) -> Result<Mach, EmuError> {
    let zp = wrap_add8(b1, m.cpu.x);
    let lo = m.mem.read(zp as int);
    let hi = m.mem.read(wrap_inc8(zp) as int);
    let addr = (lo + 256 * hi) as u16;
    if addr_mapped(addr as int) {
        Ok(spec_ora_apply(m, m.mem.read(addr as int)))
    } else {
        Err(EmuError::UnmappedAddress { addr })
    }
}

pub open spec fn spec_ora_zero_page(m: Mach, b1: u8) -> Mach {
    spec_ora_apply(m, m.mem.read(b1 as int))
}

pub open spec fn spec_ora_absolute(m: Mach, b1: u8, b2: u8) -> Result<Mach, EmuError> {
    let addr = abs_address(b1, b2);
    if addr_mapped(addr as int) {
        Ok(spec_ora_apply(m, m.mem.read(addr as int)))
    } else {
        Err(EmuError::UnmappedAddress { addr })
    }
}

pub open spec fn spec_ora_zp_x(m: Mach, b1: u8) -> Mach {
    spec_ora_apply(m, m.mem.read(wrap_add8(b1, m.cpu.x) as int))
}

pub open spec fn spec_ora_absolute_y(m: Mach, b1: u8, b2: u8) -> Result<Mach, EmuError> {
    let addr = wrap_add16(abs_address(b1, b2), m.cpu.y as u16);
    if addr_mapped(addr as int) {
        Ok(spec_ora_apply(m, m.mem.read(addr as int)))
    } else {
        Err(EmuError::UnmappedAddress { addr })
    }
}

pub open spec fn spec_ora_absolute_x(m: Mach, b1: u8, b2: u8) -> Result<Mach, EmuError> {
    let addr = wrap_add16(abs_address(b1, b2), m.cpu.x as u16);
    if addr_mapped(addr as int) {
        Ok(spec_ora_apply(m, m.mem.read(addr as int)))
    } else {
        Err(EmuError::UnmappedAddress { addr })
    }
}

/// The status byte after an arithmetic shift left of `value`: Carry takes
/// the bit shifted out, Zero and Negative follow the shifted result.
pub open spec fn flags_asl(flags: u8, value: u8) -> u8 {
    let shifted = ((2 * value) % 256) as u8;
    spec_set_flag(
        spec_set_flag(spec_set_flag(flags, FLAG_CARRY, value >= 0x80), FLAG_ZERO, shifted == 0),
        FLAG_NEGATIVE,
        shifted >= 0x80,
    )
}

/// Shift the byte at a mapped address left in place.
pub open spec fn spec_asl_at(m: Mach, addr: u16) -> Mach {
    let value = m.mem.read(addr as int);
    let shifted = ((2 * value) % 256) as u8;
    Mach {
        cpu: CPU { flags: flags_asl(m.cpu.flags, value), ..m.cpu },
        mem: m.mem.write(addr as int, shifted),
    }
}

pub open spec fn spec_asl_zero_page(m: Mach, b1: u8) -> Mach {
    spec_asl_at(m, b1 as u16)
}

pub open spec fn spec_asl_accumulator(m: Mach) -> Mach {
    let shifted = ((2 * m.cpu.a) % 256) as u8;
    Mach {
        cpu: CPU { a: shifted, flags: flags_asl(m.cpu.flags, m.cpu.a), ..m.cpu },
        mem: m.mem,
    }
}

pub open spec fn spec_asl_absolute(m: Mach, b1: u8, b2: u8) -> Result<Mach, EmuError> {
    let addr = abs_address(b1, b2);
    if addr_mapped(addr as int) {
        Ok(spec_asl_at(m, addr))
    } else {
        Err(EmuError::UnmappedAddress { addr })
    }
}

pub open spec fn spec_asl_absolute_x(m: Mach, b1: u8, b2: u8) -> Result<Mach, EmuError> {
    let addr = wrap_add16(abs_address(b1, b2), m.cpu.x as u16);
    if addr_mapped(addr as int) {
        Ok(spec_asl_at(m, addr))
    } else {
        Err(EmuError::UnmappedAddress { addr })
    }
}

pub open spec fn spec_php_implied(m: Mach) -> Mach {
    spec_push(m, m.cpu.flags)
}

pub open spec fn spec_plp_implied(m: Mach) -> Mach {
    let (m1, value) = spec_pull(m);
    Mach { cpu: CPU { flags: value, ..m1.cpu }, mem: m1.mem }
}

pub open spec fn spec_pha_implied(m: Mach) -> Mach {
    spec_push(m, m.cpu.a)
}

pub open spec fn spec_pla_implied(m: Mach) -> Mach {
    let (m1, value) = spec_pull(m);
    spec_load_a(m1, value)
}

pub open spec fn spec_clc_implied(m: Mach) -> Mach {
    Mach { cpu: CPU { flags: spec_set_flag(m.cpu.flags, FLAG_CARRY, false), ..m.cpu }, mem: m.mem }
}

pub open spec fn spec_sec_implied(m: Mach) -> Mach {
    Mach { cpu: CPU { flags: spec_set_flag(m.cpu.flags, FLAG_CARRY, true), ..m.cpu }, mem: m.mem }
}

/// BIT: Zero from the AND of accumulator and operand; Negative and
/// Overflow copied from bits 7 and 6 of the operand itself.
pub open spec fn spec_bit_apply(m: Mach, value: u8) -> Mach {
    let f1 = spec_set_flag(m.cpu.flags, FLAG_ZERO, m.cpu.a & value == 0);
    let f2 = spec_set_flag(f1, FLAG_NEGATIVE, value >= 0x80);
    let f3 = spec_set_flag(f2, FLAG_OVERFLOW, value & 0x40 != 0);
    Mach { cpu: CPU { flags: f3, ..m.cpu }, mem: m.mem }
}

pub open spec fn spec_bit_zero_page(m: Mach, b1: u8) -> Mach {
    spec_bit_apply(m, m.mem.read(b1 as int))
}

pub open spec fn spec_bit_absolute(m: Mach, b1: u8, b2: u8) -> Result<Mach, EmuError> {
    let addr = abs_address(b1, b2);
    if addr_mapped(addr as int) {
        Ok(spec_bit_apply(m, m.mem.read(addr as int)))
    } else {
        Err(EmuError::UnmappedAddress { addr })
    }
}

/// Return from interrupt: pull the status byte, then the program counter,
/// low byte first.
pub open spec fn spec_rti_implied(m: Mach) -> Mach {
    let (m1, p) = spec_pull(m);
    let (m2, pcl) = spec_pull(m1);
    let (m3, pch) = spec_pull(m2);
    Mach { cpu: CPU { flags: p, pc: (pcl + 256 * pch) as u16, ..m3.cpu }, mem: m3.mem }
}

/// Return from subroutine: pull the program counter low byte first, then
/// continue one past it.
pub open spec fn spec_rts_implied(m: Mach) -> Mach {
    let (m1, pcl) = spec_pull(m);
    let (m2, pch) = spec_pull(m1);
    Mach { cpu: CPU { pc: wrap_inc16((pcl + 256 * pch) as u16), ..m2.cpu }, mem: m2.mem }
}

/// Opcodes with a handler entry. Dispatching any other byte yields the
/// typed unimplemented-opcode error and changes nothing.
pub open spec fn spec_implemented(op: u8) -> bool {
    match op {
        0x00 | 0x01 | 0x04 | 0x05 | 0x06 | 0x08 | 0x0A | 0x0C | 0x0D | 0x0E => true,
        0x10 | 0x11 | 0x14 | 0x15 | 0x18 | 0x19 | 0x1A | 0x1C => true,
        0x20 | 0x24 | 0x28 | 0x2C => true,
        0x30 | 0x34 | 0x38 | 0x3A | 0x3C => true,
        0x40 | 0x44 | 0x48 => true,
        0x54 | 0x5A | 0x5C => true,
        0x60 | 0x64 | 0x68 => true,
        0x74 | 0x78 | 0x7A | 0x7C => true,
        0x80 | 0x82 | 0x89 | 0x8A | 0x8D => true,
        0x9A | 0x9D => true,
        0xA2 | 0xA9 | 0xAD => true,
        0xBD => true,
        0xC2 | 0xCA => true,
        0xD0 | 0xD4 | 0xD8 | 0xDA | 0xDC | 0xDD => true,
        0xE2 | 0xE8 | 0xEA => true,
        0xF0 | 0xF4 | 0xFA | 0xFC => true,
        _ => false,
    }
}

/// What dispatching one opcode does to the machine, given the (possibly
/// zero-padded) operand bytes and the already-advanced program counter.
/// Opaque: proofs about a particular opcode reveal it.
#[verifier::opaque]
pub open spec fn spec_dispatch(m: Mach, op: u8, b1: u8, b2: u8) -> Result<Mach, EmuError> {
    match op {
        0x00 => Ok(spec_brk_implied(m)),
        0x01 => spec_ora_indirect_x(m, b1),
        0x05 => Ok(spec_ora_zero_page(m, b1)),
        0x06 => Ok(spec_asl_zero_page(m, b1)),
        0x08 => Ok(spec_php_implied(m)),
        0x0A => Ok(spec_asl_accumulator(m)),
        0x0D => spec_ora_absolute(m, b1, b2),
        0x0E => spec_asl_absolute(m, b1, b2),
        0x10 => Ok(spec_bpl_relative(m, b1)),
        0x11 => spec_ora_indirect_y(m, b1),
        0x15 => Ok(spec_ora_zp_x(m, b1)),
        0x18 => Ok(spec_clc_implied(m)),
        0x19 => spec_ora_absolute_y(m, b1, b2),
        0x20 => Ok(spec_jsr_absolute(m, b1, b2)),
        0x24 => Ok(spec_bit_zero_page(m, b1)),
        0x28 => Ok(spec_plp_implied(m)),
        0x2C => spec_bit_absolute(m, b1, b2),
        0x30 => Ok(spec_bmi_relative(m, b1)),
        0x38 => Ok(spec_sec_implied(m)),
        0x40 => Ok(spec_rti_implied(m)),
        0x48 => Ok(spec_pha_implied(m)),
        0x60 => Ok(spec_rts_implied(m)),
        0x68 => Ok(spec_pla_implied(m)),
        0x78 => Ok(spec_sei_implied(m)),
        0x8A => Ok(spec_txa_implied(m)),
        0x8D => spec_sta_absolute(m, b1, b2),
        0x9A => Ok(spec_txs_implied(m)),
        0x9D => spec_sta_absolute_ix(m, b1, b2),
        0xA2 => Ok(spec_ldx_immediate(m, b1)),
        0xA9 => Ok(spec_lda_immediate(m, b1)),
        0xAD => spec_lda_absolute(m, b1, b2),
        0xBD => spec_lda_absolute_ix(m, b1, b2),
        0xCA => Ok(spec_dex_implied(m)),
        0xD0 => Ok(spec_bne_relative(m, b1)),
        0xD8 => Ok(spec_cld_implied(m)),
        0xDD => spec_cmp_absolute_ix(m, b1, b2),
        0xE8 => Ok(spec_inx_implied(m)),
        0xF0 => Ok(spec_beq_relative(m, b1)),
        0x04 | 0x0C | 0x14 | 0x1A | 0x1C | 0x34 | 0x3A | 0x3C | 0x44 | 0x54 | 0x5A | 0x5C | 0x64
            | 0x74 | 0x7A | 0x7C | 0x80 | 0x82 | 0x89 | 0xC2 | 0xD4 | 0xDA | 0xDC | 0xE2 | 0xEA
            | 0xF4 | 0xFA | 0xFC => Ok(m),
        _ => Err(EmuError::UnimplementedOpcode),
    }
}

/// Dispatching an opcode without a handler yields the typed error, for
/// every machine state and operand pair; it never changes the machine and
/// never ends the process.
pub proof fn lemma_unimplemented_opcode_rejected(m: Mach, op: u8, b1: u8, b2: u8)
    requires
        !spec_implemented(op),
    ensures
        spec_dispatch(m, op, b1, b2) == Err::<Mach, EmuError>(EmuError::UnimplementedOpcode),
{
    reveal(spec_dispatch);
}

} // verus!
