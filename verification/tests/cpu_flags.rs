use nesse::cpu::CPU;

#[test]
fn test_flag_setters_set_and_clear() {
    let mut cpu = CPU::new();
    // Every setter both sets and clears its bit: a flag always reflects
    // the condition last written.
    cpu.set_zero(true);
    assert!(cpu.zero());
    cpu.set_zero(false);
    assert!(!cpu.zero());
    cpu.set_negative(true);
    assert!(cpu.negative());
    cpu.set_negative(false);
    assert!(!cpu.negative());
    cpu.set_carry(true);
    assert!(cpu.carry());
    cpu.set_carry(false);
    assert!(!cpu.carry());
    cpu.set_overflow(true);
    assert!(cpu.overflow());
    cpu.set_overflow(false);
    assert!(!cpu.overflow());
    cpu.set_decimal(true);
    assert!(cpu.decimal());
    cpu.set_decimal(false);
    assert!(!cpu.decimal());
    cpu.set_break(true);
    assert!(cpu.break_());
    cpu.set_break(false);
    assert!(!cpu.break_());
    cpu.set_interrupt_disable(true);
    assert!(cpu.interrupt_disable());
    cpu.set_interrupt_disable(false);
    assert!(!cpu.interrupt_disable());
}

#[test]
fn test_setters_leave_other_flags_alone() {
    let mut cpu = CPU::new();
    cpu.set_carry(true);
    cpu.set_zero(true);
    cpu.set_negative(true);
    cpu.set_zero(false);
    assert!(cpu.carry());
    assert!(cpu.negative());
    assert!(!cpu.zero());
    assert!(!cpu.overflow());
    assert!(!cpu.reserved());
}

#[test]
fn test_new_cpu_state() {
    let cpu = CPU::new();
    assert_eq!(cpu.a, 0);
    assert_eq!(cpu.x, 0);
    assert_eq!(cpu.y, 0);
    assert_eq!(cpu.pc, 0xFFFC);
    assert_eq!(cpu.sp, 0xFF);
    assert_eq!(cpu.flags, 0);
}

#[test]
fn test_reset_reinitialises_registers() {
    let mut cpu = CPU::new();
    cpu.a = 0x55;
    cpu.sp = 0x10;
    cpu.set_carry(true);
    cpu.set_zero(true);
    cpu.reset(0x1234);
    assert_eq!(cpu.sp, 0xFF);
    assert_eq!(cpu.pc, 0x1234);
    assert!(cpu.interrupt_disable());
    assert!(!cpu.carry());
    assert!(!cpu.zero());
    assert!(!cpu.negative());
    // The accumulator is not part of the reset sequence.
    assert_eq!(cpu.a, 0x55);
}
