//! Instruction handlers and the dispatch, length and cycle tables.
//!
//! Each handler is one opcode/addressing-mode pairing. A handler runs with
//! the program counter already advanced past its own instruction, so a
//! branch adds its signed offset to the advanced counter and a call or
//! return overwrites it outright. Every handler is proved to effect
//! exactly its transform from `machine`, and to leave the machine
//! untouched when it reports a fault.

use vstd::prelude::*;

use crate::error::EmuError;
use crate::machine::abs_address;
use crate::machine::branch_target;
use crate::machine::spec_asl_absolute;
use crate::machine::spec_asl_absolute_x;
use crate::machine::spec_asl_accumulator;
use crate::machine::spec_asl_zero_page;
use crate::machine::spec_beq_relative;
use crate::machine::spec_bit_absolute;
use crate::machine::spec_bit_zero_page;
use crate::machine::spec_bmi_relative;
use crate::machine::spec_bne_relative;
use crate::machine::spec_bpl_relative;
use crate::machine::spec_brk_implied;
use crate::machine::spec_cld_implied;
use crate::machine::spec_clc_implied;
use crate::machine::spec_cmp_absolute_ix;
use crate::machine::spec_dex_implied;
use crate::machine::spec_dispatch;
use crate::machine::spec_inx_implied;
use crate::machine::spec_jsr_absolute;
use crate::machine::spec_lda_absolute;
use crate::machine::spec_lda_absolute_ix;
use crate::machine::spec_lda_immediate;
use crate::machine::spec_ldx_immediate;
use crate::machine::spec_ora_absolute;
use crate::machine::spec_ora_absolute_x;
use crate::machine::spec_ora_absolute_y;
use crate::machine::spec_ora_indirect_x;
use crate::machine::spec_ora_indirect_y;
use crate::machine::spec_ora_zero_page;
use crate::machine::spec_ora_zp_x;
use crate::machine::spec_pha_implied;
use crate::machine::spec_php_implied;
use crate::machine::spec_pla_implied;
use crate::machine::spec_plp_implied;
use crate::machine::spec_pull;
use crate::machine::spec_push;
use crate::machine::spec_rti_implied;
use crate::machine::spec_rts_implied;
use crate::machine::spec_sec_implied;
use crate::machine::spec_sei_implied;
use crate::machine::spec_sta_absolute;
use crate::machine::spec_sta_absolute_ix;
use crate::machine::spec_txa_implied;
use crate::machine::spec_txs_implied;
use crate::machine::wrap_add16;
use crate::machine::wrap_add8;
use crate::machine::wrap_inc8;
use crate::nes::NES;
use crate::nes::engine_unchanged;

verus! {

fn ex_abs_address(b1: u8, b2: u8) -> (r: u16)
    ensures
        r == abs_address(b1, b2),
{
    b1 as u16 + 256 * (b2 as u16)
}

fn ex_wrap_add16(a: u16, b: u16) -> (r: u16)
    ensures
        r == wrap_add16(a, b),
{
    ((a as u32 + b as u32) % 0x10000) as u16
}

fn ex_wrap_inc8(a: u8) -> (r: u8)
    ensures
        r == wrap_inc8(a),
{
    ((a as u16 + 1) % 256) as u8
}

fn ex_wrap_add8(a: u8, b: u8) -> (r: u8)
    ensures
        r == wrap_add8(a, b),
{
    ((a as u16 + b as u16) % 256) as u8
}

fn ex_branch_target(pc: u16, offset: u8) -> (r: u16)
    ensures
        r == branch_target(pc, offset),
{
    if offset < 0x80 {
        ((pc as u32 + offset as u32) % 0x10000) as u16
    } else {
        ((pc as u32 + offset as u32 + 0x10000 - 0x100) % 0x10000) as u16
    }
}

/// Push one byte: write at the raw stack address (page zero, always
/// mapped), then decrement the pointer with 8-bit wrap.
fn push_byte(nes: &mut NES, value: u8)
    requires
        old(nes).wf(),
    ensures
        final(nes).wf(),
        engine_unchanged(*old(nes), *final(nes)),
        final(nes).machine() == spec_push(old(nes).machine(), value),
{
    let sp = nes.bus.cpu.sp;
    match nes.bus.memory.write_u8(sp as u16, value) {
        Ok(()) => {},
        Err(_) => {
            proof {
                assert(false);
            }
        },
    }
    nes.bus.cpu.sp = ((sp as u16 + 255) % 256) as u8;
}

/// Pull one byte: increment the pointer with 8-bit wrap, then read at the
/// raw stack address (page zero, always mapped).
fn pull_byte(nes: &mut NES) -> (r: u8)
    requires
        old(nes).wf(),
    ensures
        final(nes).wf(),
        engine_unchanged(*old(nes), *final(nes)),
        final(nes).machine() == spec_pull(old(nes).machine()).0,
        r == spec_pull(old(nes).machine()).1,
{
    let sp2 = ((nes.bus.cpu.sp as u16 + 1) % 256) as u8;
    nes.bus.cpu.sp = sp2;
    match nes.bus.memory.read_u8(sp2 as u16) {
        Ok(v) => v,
        Err(_) => {
            proof {
                assert(false);
            }
            0
        },
    }
}

/// Software interrupt (0x00).
pub fn brk_implied(nes: &mut NES, _byte1: u8, _byte2: u8) -> (r: Result<(), EmuError>)
    requires
        old(nes).wf(),
    ensures
        final(nes).wf(),
        engine_unchanged(*old(nes), *final(nes)),
        r is Ok,
        final(nes).machine() == spec_brk_implied(old(nes).machine()),
{
    let pc = nes.bus.cpu.pc;
    push_byte(nes, (pc / 256) as u8);
    push_byte(nes, (pc % 256) as u8);
    let flags = nes.bus.cpu.flags;
    push_byte(nes, flags);
    nes.bus.cpu.set_break(true);
    nes.bus.cpu.set_interrupt_disable(true);
    let new_pc = match nes.bus.memory.read_u16(0xFFFE) {
        Ok(v) => v,
        Err(_) => {
            proof {
                assert(false);
            }
            0
        },
    };
    nes.bus.cpu.pc = new_pc;
    Ok(())
}

/// Load accumulator, immediate (0xA9).
pub fn lda_immediate(nes: &mut NES, byte1: u8, _byte2: u8) -> (r: Result<(), EmuError>)
    requires
        old(nes).wf(),
    ensures
        final(nes).wf(),
        engine_unchanged(*old(nes), *final(nes)),
        r is Ok,
        final(nes).machine() == spec_lda_immediate(old(nes).machine(), byte1),
{
    nes.bus.cpu.a = byte1;
    nes.bus.cpu.set_zero(byte1 == 0);
    nes.bus.cpu.set_negative(byte1 >= 0x80);
    Ok(())
}

/// Store accumulator, absolute (0x8D).
pub fn sta_absolute(nes: &mut NES, byte1: u8, byte2: u8) -> (r: Result<(), EmuError>)
    requires
        old(nes).wf(),
    ensures
        final(nes).wf(),
        engine_unchanged(*old(nes), *final(nes)),
        match spec_sta_absolute(old(nes).machine(), byte1, byte2) {
            Ok(m2) => r is Ok && final(nes).machine() == m2,
            Err(e) => r == Err::<(), EmuError>(e) && final(nes).machine() == old(nes).machine(),
        },
{
    let addr = ex_abs_address(byte1, byte2);
    let a = nes.bus.cpu.a;
    match nes.bus.memory.write_u8(addr, a) {
        Ok(()) => Ok(()),
        Err(e) => Err(e),
    }
}

/// Load accumulator, absolute (0xAD).
pub fn lda_absolute(nes: &mut NES, byte1: u8, byte2: u8) -> (r: Result<(), EmuError>)
    requires
        old(nes).wf(),
    ensures
        final(nes).wf(),
        engine_unchanged(*old(nes), *final(nes)),
        match spec_lda_absolute(old(nes).machine(), byte1, byte2) {
            Ok(m2) => r is Ok && final(nes).machine() == m2,
            Err(e) => r == Err::<(), EmuError>(e) && final(nes).machine() == old(nes).machine(),
        },
{
    let addr = ex_abs_address(byte1, byte2);
    let value = match nes.bus.memory.read_u8(addr) {
        Ok(v) => v,
        Err(e) => {
            return Err(e);
        },
    };
    nes.bus.cpu.a = value;
    nes.bus.cpu.set_zero(value == 0);
    nes.bus.cpu.set_negative(value >= 0x80);
    Ok(())
}

/// Branch if not negative, relative (0x10).
pub fn bpl_relative(nes: &mut NES, byte1: u8, _byte2: u8) -> (r: Result<(), EmuError>)
    requires
        old(nes).wf(),
    ensures
        final(nes).wf(),
        engine_unchanged(*old(nes), *final(nes)),
        r is Ok,
        final(nes).machine() == spec_bpl_relative(old(nes).machine(), byte1),
{
    if !nes.bus.cpu.negative() {
        nes.bus.cpu.pc = ex_branch_target(nes.bus.cpu.pc, byte1);
    }
    Ok(())
}

/// Branch if negative, relative (0x30).
pub fn bmi_relative(nes: &mut NES, byte1: u8, _byte2: u8) -> (r: Result<(), EmuError>)
    requires
        old(nes).wf(),
    ensures
        final(nes).wf(),
        engine_unchanged(*old(nes), *final(nes)),
        r is Ok,
        final(nes).machine() == spec_bmi_relative(old(nes).machine(), byte1),
{
    if nes.bus.cpu.negative() {
        nes.bus.cpu.pc = ex_branch_target(nes.bus.cpu.pc, byte1);
    }
    Ok(())
}

/// Set the interrupt-disable flag (0x78).
pub fn sei_implied(nes: &mut NES, _byte1: u8, _byte2: u8) -> (r: Result<(), EmuError>)
    requires
        old(nes).wf(),
    ensures
        final(nes).wf(),
        engine_unchanged(*old(nes), *final(nes)),
        r is Ok,
        final(nes).machine() == spec_sei_implied(old(nes).machine()),
{
    nes.bus.cpu.set_interrupt_disable(true);
    Ok(())
}

/// Clear the decimal flag (0xD8).
pub fn cld_implied(nes: &mut NES, _byte1: u8, _byte2: u8) -> (r: Result<(), EmuError>)
    requires
        old(nes).wf(),
    ensures
        final(nes).wf(),
        engine_unchanged(*old(nes), *final(nes)),
        r is Ok,
        final(nes).machine() == spec_cld_implied(old(nes).machine()),
{
    nes.bus.cpu.set_decimal(false);
    Ok(())
}

/// Load index X, immediate (0xA2).
pub fn ldx_immediate(nes: &mut NES, byte1: u8, _byte2: u8) -> (r: Result<(), EmuError>)
    requires
        old(nes).wf(),
    ensures
        final(nes).wf(),
        engine_unchanged(*old(nes), *final(nes)),
        r is Ok,
        final(nes).machine() == spec_ldx_immediate(old(nes).machine(), byte1),
{
    nes.bus.cpu.x = byte1;
    nes.bus.cpu.set_zero(byte1 == 0);
    nes.bus.cpu.set_negative(byte1 >= 0x80);
    Ok(())
}

/// Transfer X to the stack pointer (0x9A). A pure transfer: no flag
/// changes.
pub fn txs_implied(nes: &mut NES, _byte1: u8, _byte2: u8) -> (r: Result<(), EmuError>)
    requires
        old(nes).wf(),
    ensures
        final(nes).wf(),
        engine_unchanged(*old(nes), *final(nes)),
        r is Ok,
        final(nes).machine() == spec_txs_implied(old(nes).machine()),
{
    nes.bus.cpu.sp = nes.bus.cpu.x;
    Ok(())
}

/// Transfer X to the accumulator (0x8A).
pub fn txa_implied(nes: &mut NES, _byte1: u8, _byte2: u8) -> (r: Result<(), EmuError>)
    requires
        old(nes).wf(),
    ensures
        final(nes).wf(),
        engine_unchanged(*old(nes), *final(nes)),
        r is Ok,
        final(nes).machine() == spec_txa_implied(old(nes).machine()),
{
    let value = nes.bus.cpu.x;
    nes.bus.cpu.a = value;
    nes.bus.cpu.set_zero(value == 0);
    nes.bus.cpu.set_negative(value >= 0x80);
    Ok(())
}

/// Increment index X (0xE8).
pub fn inx_implied(nes: &mut NES, _byte1: u8, _byte2: u8) -> (r: Result<(), EmuError>)
    requires
        old(nes).wf(),
    ensures
        final(nes).wf(),
        engine_unchanged(*old(nes), *final(nes)),
        r is Ok,
        final(nes).machine() == spec_inx_implied(old(nes).machine()),
{
    let value = ex_wrap_inc8(nes.bus.cpu.x);
    nes.bus.cpu.x = value;
    nes.bus.cpu.set_zero(value == 0);
    nes.bus.cpu.set_negative(value >= 0x80);
    Ok(())
}

/// Decrement index X (0xCA).
pub fn dex_implied(nes: &mut NES, _byte1: u8, _byte2: u8) -> (r: Result<(), EmuError>)
    requires
        old(nes).wf(),
    ensures
        final(nes).wf(),
        engine_unchanged(*old(nes), *final(nes)),
        r is Ok,
        final(nes).machine() == spec_dex_implied(old(nes).machine()),
{
    let value = ((nes.bus.cpu.x as u16 + 255) % 256) as u8;
    nes.bus.cpu.x = value;
    nes.bus.cpu.set_zero(value == 0);
    nes.bus.cpu.set_negative(value >= 0x80);
    Ok(())
}

/// Branch if not zero, relative (0xD0).
pub fn bne_relative(nes: &mut NES, byte1: u8, _byte2: u8) -> (r: Result<(), EmuError>)
    requires
        old(nes).wf(),
    ensures
        final(nes).wf(),
        engine_unchanged(*old(nes), *final(nes)),
        r is Ok,
        final(nes).machine() == spec_bne_relative(old(nes).machine(), byte1),
{
    if !nes.bus.cpu.zero() {
        nes.bus.cpu.pc = ex_branch_target(nes.bus.cpu.pc, byte1);
    }
    Ok(())
}

/// Branch if zero, relative (0xF0).
pub fn beq_relative(nes: &mut NES, byte1: u8, _byte2: u8) -> (r: Result<(), EmuError>)
    requires
        old(nes).wf(),
    ensures
        final(nes).wf(),
        engine_unchanged(*old(nes), *final(nes)),
        r is Ok,
        final(nes).machine() == spec_beq_relative(old(nes).machine(), byte1),
{
    if nes.bus.cpu.zero() {
        nes.bus.cpu.pc = ex_branch_target(nes.bus.cpu.pc, byte1);
    }
    Ok(())
}

/// Load accumulator, absolute indexed by X (0xBD): the index is added to
/// the encoded address, wrapping at 16 bits, before the read.
pub fn lda_absolute_ix(nes: &mut NES, byte1: u8, byte2: u8) -> (r: Result<(), EmuError>)
    requires
        old(nes).wf(),
    ensures
        final(nes).wf(),
        engine_unchanged(*old(nes), *final(nes)),
        match spec_lda_absolute_ix(old(nes).machine(), byte1, byte2) {
            Ok(m2) => r is Ok && final(nes).machine() == m2,
            Err(e) => r == Err::<(), EmuError>(e) && final(nes).machine() == old(nes).machine(),
        },
{
    let addr = ex_wrap_add16(ex_abs_address(byte1, byte2), nes.bus.cpu.x as u16);
    let value = match nes.bus.memory.read_u8(addr) {
        Ok(v) => v,
        Err(e) => {
            return Err(e);
        },
    };
    nes.bus.cpu.a = value;
    nes.bus.cpu.set_zero(value == 0);
    nes.bus.cpu.set_negative(value >= 0x80);
    Ok(())
}

/// Compare accumulator with memory, absolute indexed by X (0xDD). Carry
/// is set exactly when A >= M, Zero when A == M, Negative from the sign
/// of the 8-bit difference.
pub fn cmp_absolute_ix(nes: &mut NES, byte1: u8, byte2: u8) -> (r: Result<(), EmuError>)
    requires
        old(nes).wf(),
    ensures
        final(nes).wf(),
        engine_unchanged(*old(nes), *final(nes)),
        match spec_cmp_absolute_ix(old(nes).machine(), byte1, byte2) {
            Ok(m2) => r is Ok && final(nes).machine() == m2,
            Err(e) => r == Err::<(), EmuError>(e) && final(nes).machine() == old(nes).machine(),
        },
{
    let addr = ex_wrap_add16(ex_abs_address(byte1, byte2), nes.bus.cpu.x as u16);
    let value = match nes.bus.memory.read_u8(addr) {
        Ok(v) => v,
        Err(e) => {
            return Err(e);
        },
    };
    let a = nes.bus.cpu.a;
    let diff = ((a as u16 + 256 - value as u16) % 256) as u8;
    nes.bus.cpu.set_carry(a >= value);
    nes.bus.cpu.set_zero(a == value);
    nes.bus.cpu.set_negative(diff >= 0x80);
    Ok(())
}

/// Store accumulator, absolute indexed by X (0x9D).
pub fn sta_absolute_ix(nes: &mut NES, byte1: u8, byte2: u8) -> (r: Result<(), EmuError>)
    requires
        old(nes).wf(),
    ensures
        final(nes).wf(),
        engine_unchanged(*old(nes), *final(nes)),
        match spec_sta_absolute_ix(old(nes).machine(), byte1, byte2) {
            Ok(m2) => r is Ok && final(nes).machine() == m2,
            Err(e) => r == Err::<(), EmuError>(e) && final(nes).machine() == old(nes).machine(),
        },
{
    let addr = ex_wrap_add16(ex_abs_address(byte1, byte2), nes.bus.cpu.x as u16);
    let a = nes.bus.cpu.a;
    match nes.bus.memory.write_u8(addr, a) {
        Ok(()) => Ok(()),
        Err(e) => Err(e),
    }
}

/// Call a subroutine, absolute (0x20): push the address of the call's
/// last byte, high byte first, then jump to the operand address.
pub fn jsr_absolute(nes: &mut NES, byte1: u8, byte2: u8) -> (r: Result<(), EmuError>)
    requires
        old(nes).wf(),
    ensures
        final(nes).wf(),
        engine_unchanged(*old(nes), *final(nes)),
        r is Ok,
        final(nes).machine() == spec_jsr_absolute(old(nes).machine(), byte1, byte2),
{
    let addr = ex_abs_address(byte1, byte2);
    let return_addr = ((nes.bus.cpu.pc as u32 + 0xFFFF) % 0x10000) as u16;
    push_byte(nes, (return_addr / 256) as u8);
    push_byte(nes, (return_addr % 256) as u8);
    nes.bus.cpu.pc = addr;
    Ok(())
}

/// No operation; any operand bytes are ignored.
pub fn nop_immediate(nes: &mut NES, _byte1: u8, _byte2: u8) -> (r: Result<(), EmuError>)
    requires
        old(nes).wf(),
    ensures
        final(nes).wf(),
        engine_unchanged(*old(nes), *final(nes)),
        r is Ok,
        final(nes).machine() == old(nes).machine(),
{
    Ok(())
}

/// OR memory into the accumulator, zero-page pointer indexed by Y (0x11):
/// a 16-bit pointer is read from two zero-page bytes (low then high, each
/// wrapping within page zero), Y is added to it with 16-bit wrap, and the
/// byte there is ORed into A.
pub fn ora_indirect_y(nes: &mut NES, byte1: u8, _byte2: u8) -> (r: Result<(), EmuError>)
    requires
        old(nes).wf(),
    ensures
        final(nes).wf(),
        engine_unchanged(*old(nes), *final(nes)),
        match spec_ora_indirect_y(old(nes).machine(), byte1) {
            Ok(m2) => r is Ok && final(nes).machine() == m2,
            Err(e) => r == Err::<(), EmuError>(e) && final(nes).machine() == old(nes).machine(),
        },
{
    let lo = match nes.bus.memory.read_u8(byte1 as u16) {
        Ok(v) => v,
        Err(e) => {
            return Err(e);
        },
    };
    let hi = match nes.bus.memory.read_u8(ex_wrap_inc8(byte1) as u16) {
        Ok(v) => v,
        Err(e) => {
            return Err(e);
        },
    };
    let addr = ex_wrap_add16(lo as u16 + 256 * (hi as u16), nes.bus.cpu.y as u16);
    let value = match nes.bus.memory.read_u8(addr) {
        Ok(v) => v,
        Err(e) => {
            return Err(e);
        },
    };
    let result = nes.bus.cpu.a | value;
    nes.bus.cpu.a = result;
    nes.bus.cpu.set_zero(result == 0);
    nes.bus.cpu.set_negative(result >= 0x80);
    Ok(())
}

/// OR memory into the accumulator, zero-page pointer pre-indexed by X
/// (0x01): X is added to the operand within page zero, a 16-bit pointer
/// is read there (low then high, wrapping within page zero), and the byte
/// at the pointer is ORed into A.
pub fn ora_indirect_x(nes: &mut NES, byte1: u8, _byte2: u8) -> (r: Result<(), EmuError>)
    requires
        old(nes).wf(),
    ensures
        final(nes).wf(),
        engine_unchanged(*old(nes), *final(nes)),
        match spec_ora_indirect_x(old(nes).machine(), byte1) {
            Ok(m2) => r is Ok && final(nes).machine() == m2,
            Err(e) => r == Err::<(), EmuError>(e) && final(nes).machine() == old(nes).machine(),
        },
{
    let zp_addr = ex_wrap_add8(byte1, nes.bus.cpu.x);
    let lo = match nes.bus.memory.read_u8(zp_addr as u16) {
        Ok(v) => v,
        Err(e) => {
            return Err(e);
        },
    };
    let hi = match nes.bus.memory.read_u8(ex_wrap_inc8(zp_addr) as u16) {
        Ok(v) => v,
        Err(e) => {
            return Err(e);
        },
    };
    let addr = lo as u16 + 256 * (hi as u16);
    let value = match nes.bus.memory.read_u8(addr) {
        Ok(v) => v,
        Err(e) => {
            return Err(e);
        },
    };
    let result = nes.bus.cpu.a | value;
    nes.bus.cpu.a = result;
    nes.bus.cpu.set_zero(result == 0);
    nes.bus.cpu.set_negative(result >= 0x80);
    Ok(())
}

/// OR memory into the accumulator, zero page (0x05).
pub fn ora_zero_page(nes: &mut NES, byte1: u8, _byte2: u8) -> (r: Result<(), EmuError>)
    requires
        old(nes).wf(),
    ensures
        final(nes).wf(),
        engine_unchanged(*old(nes), *final(nes)),
        r is Ok,
        final(nes).machine() == spec_ora_zero_page(old(nes).machine(), byte1),
{
    let value = match nes.bus.memory.read_u8(byte1 as u16) {
        Ok(v) => v,
        Err(_) => {
            proof {
                assert(false);
            }
            0
        },
    };
    let result = nes.bus.cpu.a | value;
    nes.bus.cpu.a = result;
    nes.bus.cpu.set_zero(result == 0);
    nes.bus.cpu.set_negative(result >= 0x80);
    Ok(())
}

/// OR memory into the accumulator, absolute (0x0D).
pub fn ora_absolute(nes: &mut NES, byte1: u8, byte2: u8) -> (r: Result<(), EmuError>)
    requires
        old(nes).wf(),
    ensures
        final(nes).wf(),
        engine_unchanged(*old(nes), *final(nes)),
        match spec_ora_absolute(old(nes).machine(), byte1, byte2) {
            Ok(m2) => r is Ok && final(nes).machine() == m2,
            Err(e) => r == Err::<(), EmuError>(e) && final(nes).machine() == old(nes).machine(),
        },
{
    let addr = ex_abs_address(byte1, byte2);
    let value = match nes.bus.memory.read_u8(addr) {
        Ok(v) => v,
        Err(e) => {
            return Err(e);
        },
    };
    let result = nes.bus.cpu.a | value;
    nes.bus.cpu.a = result;
    nes.bus.cpu.set_zero(result == 0);
    nes.bus.cpu.set_negative(result >= 0x80);
    Ok(())
}

/// OR memory into the accumulator, zero page indexed by X (0x15): the
/// index stays inside page zero, with no carry into page one.
pub fn ora_zp_x(nes: &mut NES, byte1: u8, _byte2: u8) -> (r: Result<(), EmuError>)
    requires
        old(nes).wf(),
    ensures
        final(nes).wf(),
        engine_unchanged(*old(nes), *final(nes)),
        r is Ok,
        final(nes).machine() == spec_ora_zp_x(old(nes).machine(), byte1),
{
    let addr = ex_wrap_add8(byte1, nes.bus.cpu.x);
    let value = match nes.bus.memory.read_u8(addr as u16) {
        Ok(v) => v,
        Err(_) => {
            proof {
                assert(false);
            }
            0
        },
    };
    let result = nes.bus.cpu.a | value;
    nes.bus.cpu.a = result;
    nes.bus.cpu.set_zero(result == 0);
    nes.bus.cpu.set_negative(result >= 0x80);
    Ok(())
}

/// OR memory into the accumulator, absolute indexed by Y (0x19).
pub fn ora_absolute_y(nes: &mut NES, byte1: u8, byte2: u8) -> (r: Result<(), EmuError>)
    requires
        old(nes).wf(),
    ensures
        final(nes).wf(),
        engine_unchanged(*old(nes), *final(nes)),
        match spec_ora_absolute_y(old(nes).machine(), byte1, byte2) {
            Ok(m2) => r is Ok && final(nes).machine() == m2,
            Err(e) => r == Err::<(), EmuError>(e) && final(nes).machine() == old(nes).machine(),
        },
{
    let addr = ex_wrap_add16(ex_abs_address(byte1, byte2), nes.bus.cpu.y as u16);
    let value = match nes.bus.memory.read_u8(addr) {
        Ok(v) => v,
        Err(e) => {
            return Err(e);
        },
    };
    let result = nes.bus.cpu.a | value;
    nes.bus.cpu.a = result;
    nes.bus.cpu.set_zero(result == 0);
    nes.bus.cpu.set_negative(result >= 0x80);
    Ok(())
}

/// OR memory into the accumulator, absolute indexed by X (0x1D).
pub fn ora_absolute_x(nes: &mut NES, byte1: u8, byte2: u8) -> (r: Result<(), EmuError>)
    requires
        old(nes).wf(),
    ensures
        final(nes).wf(),
        engine_unchanged(*old(nes), *final(nes)),
        match spec_ora_absolute_x(old(nes).machine(), byte1, byte2) {
            Ok(m2) => r is Ok && final(nes).machine() == m2,
            Err(e) => r == Err::<(), EmuError>(e) && final(nes).machine() == old(nes).machine(),
        },
{
    let addr = ex_wrap_add16(ex_abs_address(byte1, byte2), nes.bus.cpu.x as u16);
    let value = match nes.bus.memory.read_u8(addr) {
        Ok(v) => v,
        Err(e) => {
            return Err(e);
        },
    };
    let result = nes.bus.cpu.a | value;
    nes.bus.cpu.a = result;
    nes.bus.cpu.set_zero(result == 0);
    nes.bus.cpu.set_negative(result >= 0x80);
    Ok(())
}

/// Arithmetic shift left in place, zero page (0x06): Carry takes the bit
/// shifted out; Zero and Negative follow the shifted byte.
pub fn asl_zero_page(nes: &mut NES, byte1: u8, _byte2: u8) -> (r: Result<(), EmuError>)
    requires
        old(nes).wf(),
    ensures
        final(nes).wf(),
        engine_unchanged(*old(nes), *final(nes)),
        r is Ok,
        final(nes).machine() == spec_asl_zero_page(old(nes).machine(), byte1),
{
    let addr = byte1 as u16;
    let value = match nes.bus.memory.read_u8(addr) {
        Ok(v) => v,
        Err(_) => {
            proof {
                assert(false);
            }
            0
        },
    };
    let shifted = ((2 * value as u16) % 256) as u8;
    match nes.bus.memory.write_u8(addr, shifted) {
        Ok(()) => {},
        Err(_) => {
            proof {
                assert(false);
            }
        },
    }
    nes.bus.cpu.set_carry(value >= 0x80);
    nes.bus.cpu.set_zero(shifted == 0);
    nes.bus.cpu.set_negative(shifted >= 0x80);
    Ok(())
}

/// Arithmetic shift left of the accumulator (0x0A).
pub fn asl_accumulator(nes: &mut NES, _byte1: u8, _byte2: u8) -> (r: Result<(), EmuError>)
    requires
        old(nes).wf(),
    ensures
        final(nes).wf(),
        engine_unchanged(*old(nes), *final(nes)),
        r is Ok,
        final(nes).machine() == spec_asl_accumulator(old(nes).machine()),
{
    let value = nes.bus.cpu.a;
    let shifted = ((2 * value as u16) % 256) as u8;
    nes.bus.cpu.a = shifted;
    nes.bus.cpu.set_carry(value >= 0x80);
    nes.bus.cpu.set_zero(shifted == 0);
    nes.bus.cpu.set_negative(shifted >= 0x80);
    Ok(())
}

/// Arithmetic shift left in place, absolute (0x0E).
pub fn asl_absolute(nes: &mut NES, byte1: u8, byte2: u8) -> (r: Result<(), EmuError>)
    requires
        old(nes).wf(),
    ensures
        final(nes).wf(),
        engine_unchanged(*old(nes), *final(nes)),
        match spec_asl_absolute(old(nes).machine(), byte1, byte2) {
            Ok(m2) => r is Ok && final(nes).machine() == m2,
            Err(e) => r == Err::<(), EmuError>(e) && final(nes).machine() == old(nes).machine(),
        },
{
    let addr = ex_abs_address(byte1, byte2);
    let value = match nes.bus.memory.read_u8(addr) {
        Ok(v) => v,
        Err(e) => {
            return Err(e);
        },
    };
    let shifted = ((2 * value as u16) % 256) as u8;
    match nes.bus.memory.write_u8(addr, shifted) {
        Ok(()) => {},
        Err(_) => {
            proof {
                assert(false);
            }
        },
    }
    nes.bus.cpu.set_carry(value >= 0x80);
    nes.bus.cpu.set_zero(shifted == 0);
    nes.bus.cpu.set_negative(shifted >= 0x80);
    Ok(())
}

/// Arithmetic shift left in place, absolute indexed by X (0x1E).
pub fn asl_absolute_x(nes: &mut NES, byte1: u8, byte2: u8) -> (r: Result<(), EmuError>)
    requires
        old(nes).wf(),
    ensures
        final(nes).wf(),
        engine_unchanged(*old(nes), *final(nes)),
        match spec_asl_absolute_x(old(nes).machine(), byte1, byte2) {
            Ok(m2) => r is Ok && final(nes).machine() == m2,
            Err(e) => r == Err::<(), EmuError>(e) && final(nes).machine() == old(nes).machine(),
        },
{
    let addr = ex_wrap_add16(ex_abs_address(byte1, byte2), nes.bus.cpu.x as u16);
    let value = match nes.bus.memory.read_u8(addr) {
        Ok(v) => v,
        Err(e) => {
            return Err(e);
        },
    };
    let shifted = ((2 * value as u16) % 256) as u8;
    match nes.bus.memory.write_u8(addr, shifted) {
        Ok(()) => {},
        Err(_) => {
            proof {
                assert(false);
            }
        },
    }
    nes.bus.cpu.set_carry(value >= 0x80);
    nes.bus.cpu.set_zero(shifted == 0);
    nes.bus.cpu.set_negative(shifted >= 0x80);
    Ok(())
}

/// Push the status byte (0x08).
pub fn php_implied(nes: &mut NES, _byte1: u8, _byte2: u8) -> (r: Result<(), EmuError>)
    requires
        old(nes).wf(),
    ensures
        final(nes).wf(),
        engine_unchanged(*old(nes), *final(nes)),
        r is Ok,
        final(nes).machine() == spec_php_implied(old(nes).machine()),
{
    let flags = nes.bus.cpu.flags;
    push_byte(nes, flags);
    Ok(())
}

/// Pull the status byte (0x28).
pub fn plp_implied(nes: &mut NES, _byte1: u8, _byte2: u8) -> (r: Result<(), EmuError>)
    requires
        old(nes).wf(),
    ensures
        final(nes).wf(),
        engine_unchanged(*old(nes), *final(nes)),
        r is Ok,
        final(nes).machine() == spec_plp_implied(old(nes).machine()),
{
    let value = pull_byte(nes);
    nes.bus.cpu.flags = value;
    Ok(())
}

/// Push the accumulator (0x48).
pub fn pha_implied(nes: &mut NES, _byte1: u8, _byte2: u8) -> (r: Result<(), EmuError>)
    requires
        old(nes).wf(),
    ensures
        final(nes).wf(),
        engine_unchanged(*old(nes), *final(nes)),
        r is Ok,
        final(nes).machine() == spec_pha_implied(old(nes).machine()),
{
    let a = nes.bus.cpu.a;
    push_byte(nes, a);
    Ok(())
}

/// Pull the accumulator (0x68); Zero and Negative follow the pulled
/// value.
pub fn pla_implied(nes: &mut NES, _byte1: u8, _byte2: u8) -> (r: Result<(), EmuError>)
    requires
        old(nes).wf(),
    ensures
        final(nes).wf(),
        engine_unchanged(*old(nes), *final(nes)),
        r is Ok,
        final(nes).machine() == spec_pla_implied(old(nes).machine()),
{
    let value = pull_byte(nes);
    nes.bus.cpu.a = value;
    nes.bus.cpu.set_zero(value == 0);
    nes.bus.cpu.set_negative(value >= 0x80);
    Ok(())
}

/// Clear the carry flag (0x18).
pub fn clc_implied(nes: &mut NES, _byte1: u8, _byte2: u8) -> (r: Result<(), EmuError>)
    requires
        old(nes).wf(),
    ensures
        final(nes).wf(),
        engine_unchanged(*old(nes), *final(nes)),
        r is Ok,
        final(nes).machine() == spec_clc_implied(old(nes).machine()),
{
    nes.bus.cpu.set_carry(false);
    Ok(())
}

/// Set the carry flag (0x38).
pub fn sec_implied(nes: &mut NES, _byte1: u8, _byte2: u8) -> (r: Result<(), EmuError>)
    requires
        old(nes).wf(),
    ensures
        final(nes).wf(),
        engine_unchanged(*old(nes), *final(nes)),
        r is Ok,
        final(nes).machine() == spec_sec_implied(old(nes).machine()),
{
    nes.bus.cpu.set_carry(true);
    Ok(())
}

/// Bit test, zero page (0x24): Zero from A AND the operand; Negative and
/// Overflow copied from bits 7 and 6 of the operand itself.
pub fn bit_zero_page(nes: &mut NES, byte1: u8, _byte2: u8) -> (r: Result<(), EmuError>)
    requires
        old(nes).wf(),
    ensures
        final(nes).wf(),
        engine_unchanged(*old(nes), *final(nes)),
        r is Ok,
        final(nes).machine() == spec_bit_zero_page(old(nes).machine(), byte1),
{
    let value = match nes.bus.memory.read_u8(byte1 as u16) {
        Ok(v) => v,
        Err(_) => {
            proof {
                assert(false);
            }
            0
        },
    };
    let a = nes.bus.cpu.a;
    nes.bus.cpu.set_zero(a & value == 0);
    nes.bus.cpu.set_negative(value >= 0x80);
    nes.bus.cpu.set_overflow(value & 0x40 != 0);
    Ok(())
}

/// Bit test, absolute (0x2C).
pub fn bit_absolute(nes: &mut NES, byte1: u8, byte2: u8) -> (r: Result<(), EmuError>)
    requires
        old(nes).wf(),
    ensures
        final(nes).wf(),
        engine_unchanged(*old(nes), *final(nes)),
        match spec_bit_absolute(old(nes).machine(), byte1, byte2) {
            Ok(m2) => r is Ok && final(nes).machine() == m2,
            Err(e) => r == Err::<(), EmuError>(e) && final(nes).machine() == old(nes).machine(),
        },
{
    let addr = ex_abs_address(byte1, byte2);
    let value = match nes.bus.memory.read_u8(addr) {
        Ok(v) => v,
        Err(e) => {
            return Err(e);
        },
    };
    let a = nes.bus.cpu.a;
    nes.bus.cpu.set_zero(a & value == 0);
    nes.bus.cpu.set_negative(value >= 0x80);
    nes.bus.cpu.set_overflow(value & 0x40 != 0);
    Ok(())
}

/// Return from interrupt (0x40): pull the status byte, then the program
/// counter, low byte first.
pub fn rti_implied(nes: &mut NES, _byte1: u8, _byte2: u8) -> (r: Result<(), EmuError>)
    requires
        old(nes).wf(),
    ensures
        final(nes).wf(),
        engine_unchanged(*old(nes), *final(nes)),
        r is Ok,
        final(nes).machine() == spec_rti_implied(old(nes).machine()),
{
    let new_p = pull_byte(nes);
    nes.bus.cpu.flags = new_p;
    let pcl = pull_byte(nes);
    let pch = pull_byte(nes);
    nes.bus.cpu.pc = pcl as u16 + 256 * (pch as u16);
    Ok(())
}

/// Return from subroutine (0x60): pull the program counter low byte
/// first, then continue one past it.
pub fn rts_implied(nes: &mut NES, _byte1: u8, _byte2: u8) -> (r: Result<(), EmuError>)
    requires
        old(nes).wf(),
    ensures
        final(nes).wf(),
        engine_unchanged(*old(nes), *final(nes)),
        r is Ok,
        final(nes).machine() == spec_rts_implied(old(nes).machine()),
{
    let pcl = pull_byte(nes);
    let pch = pull_byte(nes);
    nes.bus.cpu.pc = ((pcl as u32 + 256 * (pch as u32) + 1) % 0x10000) as u16;
    Ok(())
}

/// The sentinel for opcodes without a handler: reports the typed
/// unimplemented-opcode error and changes nothing. It never ends the
/// process; the engine's policy decides whether the machine halts or
/// skips.
pub fn ins_nullfunc(nes: &mut NES, _byte1: u8, _byte2: u8) -> (r: Result<(), EmuError>)
    requires
        old(nes).wf(),
    ensures
        final(nes).wf(),
        engine_unchanged(*old(nes), *final(nes)),
        r == Err::<(), EmuError>(EmuError::UnimplementedOpcode),
        final(nes).machine() == old(nes).machine(),
{
    Err(EmuError::UnimplementedOpcode)
}

/// The dispatch table: route one opcode byte to its handler. Opcode bytes
/// without a handler go to the sentinel.
pub fn dispatch(nes: &mut NES, opcode: u8, byte1: u8, byte2: u8) -> (r: Result<(), EmuError>)
    requires
        old(nes).wf(),
    ensures
        final(nes).wf(),
        engine_unchanged(*old(nes), *final(nes)),
        match spec_dispatch(old(nes).machine(), opcode, byte1, byte2) {
            Ok(m2) => r is Ok && final(nes).machine() == m2,
            Err(e) => r == Err::<(), EmuError>(e) && final(nes).machine() == old(nes).machine(),
        },
{
    proof {
        reveal(spec_dispatch);
    }
    match opcode {
        0x00 => brk_implied(nes, byte1, byte2),
        0x01 => ora_indirect_x(nes, byte1, byte2),
        0x05 => ora_zero_page(nes, byte1, byte2),
        0x06 => asl_zero_page(nes, byte1, byte2),
        0x08 => php_implied(nes, byte1, byte2),
        0x0A => asl_accumulator(nes, byte1, byte2),
        0x0D => ora_absolute(nes, byte1, byte2),
        0x0E => asl_absolute(nes, byte1, byte2),
        0x10 => bpl_relative(nes, byte1, byte2),
        0x11 => ora_indirect_y(nes, byte1, byte2),
        0x15 => ora_zp_x(nes, byte1, byte2),
        0x18 => clc_implied(nes, byte1, byte2),
        0x19 => ora_absolute_y(nes, byte1, byte2),
        0x20 => jsr_absolute(nes, byte1, byte2),
        0x24 => bit_zero_page(nes, byte1, byte2),
        0x28 => plp_implied(nes, byte1, byte2),
        0x2C => bit_absolute(nes, byte1, byte2),
        0x30 => bmi_relative(nes, byte1, byte2),
        0x38 => sec_implied(nes, byte1, byte2),
        0x40 => rti_implied(nes, byte1, byte2),
        0x48 => pha_implied(nes, byte1, byte2),
        0x60 => rts_implied(nes, byte1, byte2),
        0x68 => pla_implied(nes, byte1, byte2),
        0x78 => sei_implied(nes, byte1, byte2),
        0x8A => txa_implied(nes, byte1, byte2),
        0x8D => sta_absolute(nes, byte1, byte2),
        0x9A => txs_implied(nes, byte1, byte2),
        0x9D => sta_absolute_ix(nes, byte1, byte2),
        0xA2 => ldx_immediate(nes, byte1, byte2),
        0xA9 => lda_immediate(nes, byte1, byte2),
        0xAD => lda_absolute(nes, byte1, byte2),
        0xBD => lda_absolute_ix(nes, byte1, byte2),
        0xCA => dex_implied(nes, byte1, byte2),
        0xD0 => bne_relative(nes, byte1, byte2),
        0xD8 => cld_implied(nes, byte1, byte2),
        0xDD => cmp_absolute_ix(nes, byte1, byte2),
        0xE8 => inx_implied(nes, byte1, byte2),
        0xF0 => beq_relative(nes, byte1, byte2),
        0x04 | 0x0C | 0x14 | 0x1A | 0x1C | 0x34 | 0x3A | 0x3C | 0x44 | 0x54 | 0x5A | 0x5C | 0x64
            | 0x74 | 0x7A | 0x7C | 0x80 | 0x82 | 0x89 | 0xC2 | 0xD4 | 0xDA | 0xDC | 0xE2 | 0xEA
            | 0xF4 | 0xFA | 0xFC => nop_immediate(nes, byte1, byte2),
        _ => ins_nullfunc(nes, byte1, byte2),
    }
}

/// The addressing mode an opcode's handler decodes its operands with.
/// Opcode bytes without a handler carry `NoMode`.
#[derive(Clone, Copy, Debug, PartialEq, Eq, Structural)]
pub enum AddrMode {
    Implied,
    Accumulator,
    Immediate,
    ZeroPage,
    ZeroPageX,
    Relative,
    IndirectX,
    IndirectY,
    Absolute,
    AbsoluteX,
    AbsoluteY,
    NoMode,
}

/// The addressing mode of each opcode, as the dispatch table routes it.
pub open spec fn spec_addr_mode(op: u8) -> AddrMode {
    match op {
        0x00 | 0x08 | 0x18 | 0x1A | 0x28 | 0x38 | 0x3A | 0x40 | 0x48 | 0x5A | 0x60 | 0x68 | 0x78
            | 0x7A | 0x8A | 0x9A | 0xCA | 0xD8 | 0xDA | 0xE8 | 0xEA | 0xFA => AddrMode::Implied,
        0x0A => AddrMode::Accumulator,
        0x80 | 0x82 | 0x89 | 0xA2 | 0xA9 | 0xC2 | 0xE2 => AddrMode::Immediate,
        0x04 | 0x05 | 0x06 | 0x24 | 0x44 | 0x64 => AddrMode::ZeroPage,
        0x14 | 0x15 | 0x34 | 0x54 | 0x74 | 0xD4 | 0xF4 => AddrMode::ZeroPageX,
        0x10 | 0x30 | 0xD0 | 0xF0 => AddrMode::Relative,
        0x01 => AddrMode::IndirectX,
        0x11 => AddrMode::IndirectY,
        0x0C | 0x0D | 0x0E | 0x20 | 0x2C | 0x8D | 0xAD => AddrMode::Absolute,
        0x1C | 0x3C | 0x5C | 0x7C | 0x9D | 0xBD | 0xDC | 0xDD | 0xFC => AddrMode::AbsoluteX,
        0x19 => AddrMode::AbsoluteY,
        _ => AddrMode::NoMode,
    }
}

/// How many operand bytes a mode consumes.
pub open spec fn spec_mode_operands(mode: AddrMode) -> u8 {
    match mode {
        AddrMode::Implied | AddrMode::Accumulator | AddrMode::NoMode => 0,
        AddrMode::Immediate | AddrMode::ZeroPage | AddrMode::ZeroPageX | AddrMode::Relative
            | AddrMode::IndirectX | AddrMode::IndirectY => 1,
        AddrMode::Absolute | AddrMode::AbsoluteX | AddrMode::AbsoluteY => 2,
    }
}

/// The length table: how many operand bytes follow each opcode byte.
/// An instruction occupies one byte more than this on the bus.
pub open spec fn spec_operand_count(op: u8) -> u8 {
    match op {
        0x01 | 0x04 | 0x05 | 0x06 | 0x10 | 0x11 | 0x14 | 0x15 | 0x24 | 0x30 | 0x34 | 0x44 | 0x54
            | 0x64 | 0x74 | 0x80 | 0x82 | 0x89 | 0xA2 | 0xA9 | 0xC2 | 0xD0 | 0xD4 | 0xE2 | 0xF0
            | 0xF4 => 1,
        0x0C | 0x0D | 0x0E | 0x19 | 0x1C | 0x20 | 0x2C | 0x3C | 0x5C | 0x7C | 0x8D | 0x9D | 0xAD
            | 0xBD | 0xDC | 0xDD | 0xFC => 2,
        _ => 0,
    }
}

/// The independently kept length table agrees with the dispatch table:
/// every opcode's operand count is exactly what its handler's addressing
/// mode consumes, and a mode is assigned exactly to the opcodes that have
/// a handler. No gap hides between the two tables.
pub proof fn lemma_tables_consistent(op: u8)
    ensures
        spec_operand_count(op) == spec_mode_operands(spec_addr_mode(op)),
        crate::machine::spec_implemented(op) <==> !(spec_addr_mode(op) is NoMode),
        spec_operand_count(op) <= 2,
{
}

/// The length table, as executable code.
pub fn get_opcode_size(opcode: u8) -> (r: u8)
    ensures
        r == spec_operand_count(opcode),
{
    match opcode {
        0x01 | 0x04 | 0x05 | 0x06 | 0x10 | 0x11 | 0x14 | 0x15 | 0x24 | 0x30 | 0x34 | 0x44 | 0x54
            | 0x64 | 0x74 | 0x80 | 0x82 | 0x89 | 0xA2 | 0xA9 | 0xC2 | 0xD0 | 0xD4 | 0xE2 | 0xF0
            | 0xF4 => 1,
        0x0C | 0x0D | 0x0E | 0x19 | 0x1C | 0x20 | 0x2C | 0x3C | 0x5C | 0x7C | 0x8D | 0x9D | 0xAD
            | 0xBD | 0xDC | 0xDD | 0xFC => 2,
        _ => 0,
    }
}

/// The three-letter assembler name of each opcode; opcode bytes without
/// a handler read "???".
pub open spec fn spec_mnemonic(op: u8) -> Seq<char> {
    match op {
        0x00 => "BRK"@,
        0x01 | 0x05 | 0x0D | 0x11 | 0x15 | 0x19 => "ORA"@,
        0x06 | 0x0A | 0x0E => "ASL"@,
        0x08 => "PHP"@,
        0x10 => "BPL"@,
        0x18 => "CLC"@,
        0x20 => "JSR"@,
        0x24 | 0x2C => "BIT"@,
        0x28 => "PLP"@,
        0x30 => "BMI"@,
        0x38 => "SEC"@,
        0x40 => "RTI"@,
        0x48 => "PHA"@,
        0x60 => "RTS"@,
        0x68 => "PLA"@,
        0x78 => "SEI"@,
        0x8A => "TXA"@,
        0x8D | 0x9D => "STA"@,
        0x9A => "TXS"@,
        0xA2 => "LDX"@,
        0xA9 | 0xAD | 0xBD => "LDA"@,
        0xCA => "DEX"@,
        0xD0 => "BNE"@,
        0xD8 => "CLD"@,
        0xDD => "CMP"@,
        0xE8 => "INX"@,
        0xF0 => "BEQ"@,
        0x04 | 0x0C | 0x14 | 0x1A | 0x1C | 0x34 | 0x3A | 0x3C | 0x44 | 0x54 | 0x5A | 0x5C | 0x64
            | 0x74 | 0x7A | 0x7C | 0x80 | 0x82 | 0x89 | 0xC2 | 0xD4 | 0xDA | 0xDC | 0xE2 | 0xEA
            | 0xF4 | 0xFA | 0xFC => "NOP"@,
        _ => "???"@,
    }
}

/// The assembler name of an opcode, for traces and disassembly.
pub fn get_mnemonic(opcode: u8) -> (r: &'static str)
    ensures
        r@ == spec_mnemonic(opcode),
{
    match opcode {
        0x00 => "BRK",
        0x01 | 0x05 | 0x0D | 0x11 | 0x15 | 0x19 => "ORA",
        0x06 | 0x0A | 0x0E => "ASL",
        0x08 => "PHP",
        0x10 => "BPL",
        0x18 => "CLC",
        0x20 => "JSR",
        0x24 | 0x2C => "BIT",
        0x28 => "PLP",
        0x30 => "BMI",
        0x38 => "SEC",
        0x40 => "RTI",
        0x48 => "PHA",
        0x60 => "RTS",
        0x68 => "PLA",
        0x78 => "SEI",
        0x8A => "TXA",
        0x8D | 0x9D => "STA",
        0x9A => "TXS",
        0xA2 => "LDX",
        0xA9 | 0xAD | 0xBD => "LDA",
        0xCA => "DEX",
        0xD0 => "BNE",
        0xD8 => "CLD",
        0xDD => "CMP",
        0xE8 => "INX",
        0xF0 => "BEQ",
        0x04 | 0x0C | 0x14 | 0x1A | 0x1C | 0x34 | 0x3A | 0x3C | 0x44 | 0x54 | 0x5A | 0x5C | 0x64
            | 0x74 | 0x7A | 0x7C | 0x80 | 0x82 | 0x89 | 0xC2 | 0xD4 | 0xDA | 0xDC | 0xE2 | 0xEA
            | 0xF4 | 0xFA | 0xFC => "NOP",
        _ => "???",
    }
}

/// Nominal cycle cost of each opcode, charged to the frame budget when
/// the instruction completes.
pub open spec fn spec_opcode_cycles(op: u8) -> u8 {
    match op {
        0x00 => 7,
        0x01 => 6,
        0x04 => 3,
        0x05 => 3,
        0x06 => 5,
        0x08 => 3,
        0x0A => 2,
        0x0C => 4,
        0x0D => 2,
        0x0E => 4,
        0x10 => 1,
        0x11 => 5,
        0x14 => 4,
        0x15 => 4,
        0x18 => 2,
        0x19 => 4,
        0x1A => 2,
        0x1C => 4,
        0x20 => 1,
        0x24 => 3,
        0x28 => 4,
        0x2C => 4,
        0x30 => 1,
        0x34 => 4,
        0x38 => 2,
        0x3A => 2,
        0x3C => 4,
        0x40 => 6,
        0x44 => 3,
        0x48 => 3,
        0x50 => 1,
        0x54 => 4,
        0x5A => 2,
        0x5C => 4,
        0x60 => 6,
        0x64 => 3,
        0x68 => 4,
        0x70 => 1,
        0x74 => 4,
        0x78 => 1,
        0x7A => 2,
        0x7C => 4,
        0x80 => 2,
        0x82 => 2,
        0x88 => 1,
        0x89 => 2,
        0x8A => 1,
        0x8D => 1,
        0x90 => 1,
        0x98 => 1,
        0x9A => 1,
        0x9D => 1,
        0xA2 => 1,
        0xA9 => 1,
        0xAD => 1,
        0xBD => 1,
        0xC2 => 2,
        0xCA => 1,
        0xD0 => 1,
        0xD4 => 4,
        0xD8 => 1,
        0xDA => 2,
        0xDC => 4,
        0xDD => 1,
        0xE2 => 2,
        0xE8 => 1,
        0xEA => 2,
        0xF0 => 0,
        0xF4 => 4,
        0xFA => 2,
        0xFC => 4,
        _ => 0,
    }
}

/// The cycle table, as executable code.
pub fn get_opcode_cycles(opcode: u8) -> (r: u8)
    ensures
        r == spec_opcode_cycles(opcode),
{
    match opcode {
        0x00 => 7,
        0x01 => 6,
        0x06 => 5,
        0x11 => 5,
        0x40 | 0x60 => 6,
        0x04 | 0x05 | 0x08 | 0x24 | 0x44 | 0x48 | 0x64 => 3,
        0x0C | 0x0E | 0x14 | 0x15 | 0x19 | 0x1C | 0x28 | 0x2C | 0x34 | 0x3C | 0x54 | 0x5C | 0x68
            | 0x74 | 0x7C | 0xD4 | 0xDC | 0xF4 | 0xFC => 4,
        0x0A | 0x0D | 0x18 | 0x1A | 0x38 | 0x3A | 0x5A | 0x7A | 0x80 | 0x82 | 0x89 | 0xC2 | 0xDA
            | 0xE2 | 0xEA | 0xFA => 2,
        0x10 | 0x20 | 0x30 | 0x50 | 0x70 | 0x78 | 0x88 | 0x8A | 0x8D | 0x90 | 0x98 | 0x9A | 0x9D
            | 0xA2 | 0xA9 | 0xAD | 0xBD | 0xCA | 0xD0 | 0xD8 | 0xDD | 0xE8 => 1,
        _ => 0,
    }
}

} // verus!

