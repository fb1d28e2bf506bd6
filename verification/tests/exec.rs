use nesse::error::EmuError;
use nesse::loader::NESLoader;
use nesse::file::NESFile;
use nesse::nes::MachineState;
use nesse::nes::NES;
use nesse::nes::OpcodePolicy;
use nesse::opcodes::get_mnemonic;
use nesse::opcodes::get_opcode_cycles;
use nesse::opcodes::get_opcode_size;

fn build_rom(program: &[u8], reset_vector: u16, irq_vector: u16) -> Vec<u8> {
    let mut prg = vec![0u8; 16384];
    prg[..program.len()].copy_from_slice(program);
    prg[0x3FFC] = (reset_vector & 0xFF) as u8;
    prg[0x3FFD] = (reset_vector >> 8) as u8;
    prg[0x3FFE] = (irq_vector & 0xFF) as u8;
    prg[0x3FFF] = (irq_vector >> 8) as u8;
    let mut bytes = vec![0x4E, 0x45, 0x53, 0x1A, 1, 1, 0, 0, 0, 0, 0, 0, 0, 0, 0, 0];
    bytes.extend_from_slice(&prg);
    bytes.extend_from_slice(&vec![0u8; 8192]);
    bytes
}

/// A machine reset to 0xC000 with `program` loaded there.
fn machine_with_program(program: &[u8]) -> NES {
    let bytes = build_rom(program, 0xC000, 0xC0F7);
    let rom = NESFile::parse(&bytes).unwrap();
    let mut nes = NES::new();
    NESLoader::load_rom(&rom, &mut nes).unwrap();
    nes.reset().unwrap();
    nes
}

#[test]
fn test_lda_immediate_sets_accumulator() {
    let mut nes = machine_with_program(&[0xA9, 0x42]);
    nes.execute().unwrap();
    assert_eq!(nes.bus.cpu.a, 0x42);
    assert!(!nes.bus.cpu.zero());
    assert!(!nes.bus.cpu.negative());
    assert_eq!(nes.bus.cpu.pc, 0xC002);
}

#[test]
fn test_lda_immediate_zero_operand_sets_zero() {
    let mut nes = machine_with_program(&[0xA9, 0x00]);
    nes.execute().unwrap();
    assert_eq!(nes.bus.cpu.a, 0x00);
    assert!(nes.bus.cpu.zero());
    assert!(!nes.bus.cpu.negative());
}

#[test]
fn test_lda_immediate_sign_bit_sets_negative() {
    let mut nes = machine_with_program(&[0xA9, 0x80]);
    nes.execute().unwrap();
    assert!(nes.bus.cpu.negative());
    assert!(!nes.bus.cpu.zero());
}

#[test]
fn test_bne_taken_advances_past_normal_advance() {
    // Branch if not equal with Zero clear and operand 5: the counter
    // lands five bytes beyond the normal two-byte advance.
    let mut nes = machine_with_program(&[0xD0, 0x05]);
    nes.bus.cpu.set_zero(false);
    nes.execute().unwrap();
    assert_eq!(nes.bus.cpu.pc, 0xC000 + 2 + 5);
}

#[test]
fn test_bne_not_taken_advances_normally() {
    let mut nes = machine_with_program(&[0xD0, 0x05]);
    nes.bus.cpu.set_zero(true);
    nes.execute().unwrap();
    assert_eq!(nes.bus.cpu.pc, 0xC002);
}

#[test]
fn test_branch_offset_is_sign_extended() {
    // 0xFB reads as -5 in two's complement.
    let mut nes = machine_with_program(&[0xF0, 0xFB]);
    nes.bus.cpu.set_zero(true);
    nes.execute().unwrap();
    assert_eq!(nes.bus.cpu.pc, 0xC002 - 5);
}

#[test]
fn test_jsr_rts_round_trip() {
    // A call followed immediately by return-from-subroutine lands the
    // counter exactly at the instruction following the call.
    let mut program = vec![0x20, 0x10, 0xC0];
    program.resize(0x10, 0xEA);
    program.push(0x60);
    let mut nes = machine_with_program(&program);
    nes.execute().unwrap();
    assert_eq!(nes.bus.cpu.pc, 0xC010);
    nes.execute().unwrap();
    assert_eq!(nes.bus.cpu.pc, 0xC003);
}

#[test]
fn test_stack_lives_in_page_zero() {
    // The stack pointer is a raw bus address: with the pointer at its
    // top, call/push data lands physically at 0x00FF and 0x00FE, not in
    // the canonical 0x0100 page.
    let mut nes = machine_with_program(&[0x20, 0x10, 0xC0]);
    assert_eq!(nes.bus.cpu.sp, 0xFF);
    nes.execute().unwrap();
    // The pushed return address is the call's last byte, 0xC002,
    // high byte first.
    assert_eq!(nes.bus.memory.read_u8(0x00FF).unwrap(), 0xC0);
    assert_eq!(nes.bus.memory.read_u8(0x00FE).unwrap(), 0x02);
    assert_eq!(nes.bus.memory.read_u8(0x01FF).unwrap(), 0);
    assert_eq!(nes.bus.cpu.sp, 0xFD);
}

#[test]
fn test_pha_pla_round_trip() {
    let mut nes = machine_with_program(&[0x48, 0xA9, 0x00, 0x68]);
    nes.bus.cpu.a = 0x7E;
    nes.execute().unwrap();
    assert_eq!(nes.bus.memory.read_u8(0x00FF).unwrap(), 0x7E);
    nes.execute().unwrap();
    assert_eq!(nes.bus.cpu.a, 0x00);
    nes.execute().unwrap();
    assert_eq!(nes.bus.cpu.a, 0x7E);
    assert_eq!(nes.bus.cpu.sp, 0xFF);
}

#[test]
fn test_php_plp_round_trip() {
    let mut nes = machine_with_program(&[0x08, 0x18, 0xD8, 0x28]);
    nes.bus.cpu.set_carry(true);
    let saved = nes.bus.cpu.flags;
    nes.execute().unwrap();
    nes.execute().unwrap();
    nes.execute().unwrap();
    assert!(!nes.bus.cpu.carry());
    nes.execute().unwrap();
    assert_eq!(nes.bus.cpu.flags, saved);
}

#[test]
fn test_sentinel_opcode_yields_typed_error() {
    // 0x02 has no handler: dispatching it yields the typed error, never
    // a process termination, and the machine is left exactly as it was.
    let mut nes = machine_with_program(&[0x02]);
    assert_eq!(nes.execute(), Err(EmuError::UnimplementedOpcode));
    assert_eq!(nes.bus.cpu.pc, 0xC000);
    assert_eq!(
        nes.state,
        MachineState::Halted { fault: EmuError::UnimplementedOpcode }
    );
}

#[test]
fn test_sentinel_opcode_skipped_under_skip_policy() {
    let mut nes = machine_with_program(&[0x02, 0xA9, 0x42]);
    nes.policy = OpcodePolicy::Skip;
    assert_eq!(nes.execute(), Ok(0));
    assert_eq!(nes.bus.cpu.pc, 0xC001);
    nes.execute().unwrap();
    assert_eq!(nes.bus.cpu.a, 0x42);
}

#[test]
fn test_run_halts_on_unimplemented_opcode() {
    let mut nes = machine_with_program(&[0xA9, 0x42, 0x02]);
    assert_eq!(nes.run(), Err(EmuError::UnimplementedOpcode));
    assert_eq!(nes.bus.cpu.a, 0x42);
    assert_eq!(
        nes.state,
        MachineState::Halted { fault: EmuError::UnimplementedOpcode }
    );
}

#[test]
fn test_asl_accumulator_flags() {
    let mut nes = machine_with_program(&[0x0A]);
    nes.bus.cpu.a = 0x80;
    nes.execute().unwrap();
    assert_eq!(nes.bus.cpu.a, 0x00);
    assert!(nes.bus.cpu.carry());
    assert!(nes.bus.cpu.zero());
    assert!(!nes.bus.cpu.negative());
}

#[test]
fn test_asl_zero_page_shifts_in_place() {
    let mut nes = machine_with_program(&[0x06, 0x10]);
    nes.bus.memory.write_u8(0x0010, 0x41).unwrap();
    nes.execute().unwrap();
    assert_eq!(nes.bus.memory.read_u8(0x0010).unwrap(), 0x82);
    assert!(!nes.bus.cpu.carry());
    assert!(!nes.bus.cpu.zero());
    assert!(nes.bus.cpu.negative());
}

#[test]
fn test_cmp_carry_set_when_accumulator_not_below_operand() {
    // Compare reads memory at the indexed absolute address; the carry
    // convention is A >= M.
    for (a, m, carry, zero, negative) in [
        (0x50u8, 0x30u8, true, false, false),
        (0x30, 0x30, true, true, false),
        (0x20, 0x30, false, false, true),
        (0x00, 0x01, false, false, true),
        (0x90, 0x10, true, false, true),
    ] {
        let mut nes = machine_with_program(&[0xDD, 0x10, 0x00]);
        nes.bus.memory.write_u8(0x0012, m).unwrap();
        nes.bus.cpu.a = a;
        nes.bus.cpu.x = 2;
        nes.execute().unwrap();
        assert_eq!(nes.bus.cpu.carry(), carry, "carry for A={a:#04X} M={m:#04X}");
        assert_eq!(nes.bus.cpu.zero(), zero, "zero for A={a:#04X} M={m:#04X}");
        assert_eq!(
            nes.bus.cpu.negative(),
            negative,
            "negative for A={a:#04X} M={m:#04X}"
        );
    }
}

#[test]
fn test_lda_absolute_indexed_adds_index_to_address() {
    let mut nes = machine_with_program(&[0xBD, 0x10, 0x00]);
    nes.bus.memory.write_u8(0x0010, 0x11).unwrap();
    nes.bus.memory.write_u8(0x0015, 0x99).unwrap();
    nes.bus.cpu.x = 5;
    nes.execute().unwrap();
    assert_eq!(nes.bus.cpu.a, 0x99);
    assert!(nes.bus.cpu.negative());
}

#[test]
fn test_sta_absolute_stores_accumulator() {
    let mut nes = machine_with_program(&[0x8D, 0x34, 0x02]);
    nes.bus.cpu.a = 0x5A;
    nes.execute().unwrap();
    assert_eq!(nes.bus.memory.read_u8(0x0234).unwrap(), 0x5A);
}

#[test]
fn test_store_to_unmapped_address_halts_without_side_effects() {
    let mut nes = machine_with_program(&[0x8D, 0x08, 0x20]);
    nes.bus.cpu.a = 0x5A;
    assert_eq!(
        nes.execute(),
        Err(EmuError::UnmappedAddress { addr: 0x2008 })
    );
    // The failed step left every register as it was, and the halted
    // state carries the fault.
    assert_eq!(nes.bus.cpu.pc, 0xC000);
    assert_eq!(
        nes.state,
        MachineState::Halted { fault: EmuError::UnmappedAddress { addr: 0x2008 } }
    );
}

#[test]
fn test_ora_zero_page() {
    let mut nes = machine_with_program(&[0x05, 0x10]);
    nes.bus.memory.write_u8(0x0010, 0x0F).unwrap();
    nes.bus.cpu.a = 0xF0;
    nes.execute().unwrap();
    assert_eq!(nes.bus.cpu.a, 0xFF);
    assert!(nes.bus.cpu.negative());
    assert!(!nes.bus.cpu.zero());
}

#[test]
fn test_ora_indirect_y_reads_sixteen_bit_pointer() {
    // The pointer at 0x10/0x11 is 0x0234; Y adds 3; the byte at 0x0237
    // is ORed into the accumulator.
    let mut nes = machine_with_program(&[0x11, 0x10]);
    nes.bus.memory.write_u8(0x0010, 0x34).unwrap();
    nes.bus.memory.write_u8(0x0011, 0x02).unwrap();
    nes.bus.memory.write_u8(0x0237, 0x21).unwrap();
    nes.bus.cpu.y = 3;
    nes.bus.cpu.a = 0x40;
    nes.execute().unwrap();
    assert_eq!(nes.bus.cpu.a, 0x61);
}

#[test]
fn test_ora_indirect_x_preindexes_in_page_zero() {
    // X is added to the operand within page zero: 0xFE + 3 wraps to
    // 0x01, and the pointer's high byte at 0x02 wraps inside the page.
    let mut nes = machine_with_program(&[0x01, 0xFE]);
    nes.bus.memory.write_u8(0x0001, 0x50).unwrap();
    nes.bus.memory.write_u8(0x0002, 0x02).unwrap();
    nes.bus.memory.write_u8(0x0250, 0x08).unwrap();
    nes.bus.cpu.x = 3;
    nes.bus.cpu.a = 0x01;
    nes.execute().unwrap();
    assert_eq!(nes.bus.cpu.a, 0x09);
}

#[test]
fn test_bit_copies_operand_bits_into_flags() {
    let mut nes = machine_with_program(&[0x24, 0x10]);
    nes.bus.memory.write_u8(0x0010, 0xC0).unwrap();
    nes.bus.cpu.a = 0x3F;
    nes.execute().unwrap();
    assert!(nes.bus.cpu.zero(), "A AND operand is zero");
    assert!(nes.bus.cpu.negative(), "bit 7 of the operand");
    assert!(nes.bus.cpu.overflow(), "bit 6 of the operand");
}

#[test]
fn test_inx_dex_wrap_and_flags() {
    let mut nes = machine_with_program(&[0xE8, 0xCA, 0xCA]);
    nes.bus.cpu.x = 0xFF;
    nes.execute().unwrap();
    assert_eq!(nes.bus.cpu.x, 0);
    assert!(nes.bus.cpu.zero());
    nes.execute().unwrap();
    assert_eq!(nes.bus.cpu.x, 0xFF);
    assert!(nes.bus.cpu.negative());
    nes.execute().unwrap();
    assert_eq!(nes.bus.cpu.x, 0xFE);
}

#[test]
fn test_txs_transfers_without_touching_flags() {
    let mut nes = machine_with_program(&[0x9A]);
    nes.bus.cpu.x = 0x00;
    let flags = nes.bus.cpu.flags;
    nes.execute().unwrap();
    assert_eq!(nes.bus.cpu.sp, 0x00);
    assert_eq!(nes.bus.cpu.flags, flags);
}

#[test]
fn test_brk_rti_round_trip() {
    // The software interrupt pushes the advanced counter and the status
    // byte, then jumps through the interrupt vector; return-from-
    // interrupt restores both.
    let mut program = vec![0x00];
    program.resize(0x10, 0xEA);
    program.push(0x40);
    let bytes = build_rom(&program, 0xC000, 0xC010);
    let rom = NESFile::parse(&bytes).unwrap();
    let mut nes = NES::new();
    NESLoader::load_rom(&rom, &mut nes).unwrap();
    nes.reset().unwrap();
    let flags_before = nes.bus.cpu.flags;
    nes.execute().unwrap();
    assert_eq!(nes.bus.cpu.pc, 0xC010);
    assert!(nes.bus.cpu.break_());
    assert!(nes.bus.cpu.interrupt_disable());
    nes.execute().unwrap();
    assert_eq!(nes.bus.cpu.pc, 0xC001);
    assert_eq!(nes.bus.cpu.flags, flags_before);
}

#[test]
fn test_get_instruction_returns_opcode_and_operands() {
    let nes = machine_with_program(&[0xAD, 0x34, 0x12]);
    assert_eq!(nes.get_instruction().unwrap(), vec![0xAD, 0x34, 0x12]);
    assert_eq!(nes.get_instruction_at(0xC001).unwrap(), vec![0x34, 0x12]);
}

#[test]
fn test_next_frame_carries_overshoot() {
    // Two-cycle no-ops against a five-cycle budget: three steps spend
    // six cycles, and the one-cycle overshoot is charged to the next
    // frame, which then runs only two steps.
    let mut nes = machine_with_program(&[0xEA; 64]);
    nes.cycles_per_frame = 5;
    nes.next_frame().unwrap();
    assert_eq!(nes.bus.cpu.pc, 0xC003);
    assert_eq!(nes.cycles_left, 1);
    nes.next_frame().unwrap();
    assert_eq!(nes.bus.cpu.pc, 0xC005);
    assert_eq!(nes.cycles_left, 0);
}

#[test]
fn test_ora_absolute_x_handler() {
    // This handler is not wired into the dispatch table; it is part of
    // the handler set and callable on its own.
    let mut nes = machine_with_program(&[]);
    nes.bus.memory.write_u8(0x0015, 0x0F).unwrap();
    nes.bus.cpu.x = 5;
    nes.bus.cpu.a = 0x30;
    nesse::opcodes::ora_absolute_x(&mut nes, 0x10, 0x00).unwrap();
    assert_eq!(nes.bus.cpu.a, 0x3F);
}

#[test]
fn test_asl_absolute_x_handler() {
    let mut nes = machine_with_program(&[]);
    nes.bus.memory.write_u8(0x0015, 0xC0).unwrap();
    nes.bus.cpu.x = 5;
    nesse::opcodes::asl_absolute_x(&mut nes, 0x10, 0x00).unwrap();
    assert_eq!(nes.bus.memory.read_u8(0x0015).unwrap(), 0x80);
    assert!(nes.bus.cpu.carry());
    assert!(nes.bus.cpu.negative());
}

#[test]
fn test_mnemonics() {
    assert_eq!(get_mnemonic(0xA9), "LDA");
    assert_eq!(get_mnemonic(0x00), "BRK");
    assert_eq!(get_mnemonic(0x20), "JSR");
    assert_eq!(get_mnemonic(0xEA), "NOP");
    assert_eq!(get_mnemonic(0x02), "???");
    assert_eq!(get_opcode_size(0xA9), 1);
    assert_eq!(get_opcode_size(0x20), 2);
    assert_eq!(get_opcode_size(0xEA), 0);
    assert_eq!(get_opcode_cycles(0x00), 7);
    assert_eq!(get_opcode_cycles(0xEA), 2);
}

#[test]
fn test_dispatch_and_length_tables_have_no_gap() {
    // Scan all 256 opcode bytes: an opcode reads as unimplemented in one
    // table exactly when it does in the others, and lengths stay within
    // the two-operand encoding.
    for op in 0u16..=255 {
        let op = op as u8;
        let size = get_opcode_size(op);
        assert!(size <= 2);
        let named = get_mnemonic(op) != "???";
        let mut nes = machine_with_program(&[]);
        let r = nesse::opcodes::dispatch(&mut nes, op, 0, 0);
        if named {
            assert!(r.is_ok(), "opcode {op:#04X} has a handler");
        } else {
            assert_eq!(
                r,
                Err(EmuError::UnimplementedOpcode),
                "opcode {op:#04X} has no handler"
            );
            assert_eq!(size, 0, "opcode {op:#04X} has no length entry");
        }
        let _ = get_opcode_cycles(op);
    }
}
