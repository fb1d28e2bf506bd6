use nesse::debugger::Debugger;
use nesse::file::NESFile;
use nesse::iobus::IOBus;
use nesse::loader::NESLoader;
use nesse::nes::MachineState;
use nesse::nes::NES;
use nesse::nes::OpcodePolicy;

#[test]
fn test_new_machine_defaults() {
    let nes = NES::new();
    assert_eq!(nes.state, MachineState::Reset);
    assert_eq!(nes.policy, OpcodePolicy::HardStop);
    assert_eq!(nes.cycles_left, 0);
    assert_eq!(nes.cycles_per_frame as u32, 1_789_773 / 60);
    assert_eq!(nes.bus.cpu.pc, 0xFFFC);
    assert_eq!(nes.bus.memory.read_u8(0x1234).unwrap(), 0);
}

#[test]
fn test_bus_assembly() {
    let bus = IOBus::new();
    assert_eq!(bus.cpu.sp, 0xFF);
    assert_eq!(bus.memory.read_u8(0).unwrap(), 0);
    assert_eq!(bus.ppu.read_u8(0).unwrap(), 0);
}

#[test]
fn test_reset_reads_vector_and_starts_machine() {
    let mut bytes = vec![0x4E, 0x45, 0x53, 0x1A, 1, 0, 0, 0, 0, 0, 0, 0, 0, 0, 0, 0];
    let mut prg = vec![0u8; 16384];
    prg[0x3FFC] = 0x34;
    prg[0x3FFD] = 0xC2;
    bytes.extend_from_slice(&prg);
    let rom = NESFile::parse(&bytes).unwrap();
    let mut nes = NES::new();
    NESLoader::load_rom(&rom, &mut nes).unwrap();
    nes.reset().unwrap();
    assert_eq!(nes.bus.cpu.pc, 0xC234);
    assert_eq!(nes.bus.cpu.sp, 0xFF);
    assert!(nes.bus.cpu.interrupt_disable());
    assert_eq!(nes.state, MachineState::Running);
}

#[test]
fn test_debugger_holds_machine() {
    let nes = NES::new();
    let dbg = Debugger::new(&nes);
    assert_eq!(dbg.nes.bus.cpu.sp, 0xFF);
}
