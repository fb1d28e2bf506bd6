//! The machine instance and its execution engine: fetch, decode, execute,
//! and the per-frame cycle budget.

use vstd::prelude::*;

use crate::cpu::CPU;
use crate::cpu::FLAG_INTERRUPT_DISABLE;
use crate::error::EmuError;
use crate::iobus::IOBus;
use crate::machine::Mach;
use crate::machine::spec_dispatch;
use crate::memory::MemModel;
use crate::memory::addr_mapped;
use crate::opcodes::dispatch;
use crate::opcodes::get_opcode_cycles;
use crate::opcodes::get_opcode_size;
use crate::opcodes::spec_opcode_cycles;
use crate::opcodes::spec_operand_count;

verus! {

/// The CPU clock rate in ticks per second.
pub const CPU_TICK_COUNT: u32 = 1_789_773;

/// One frame's nominal cycle budget: the clock rate over the 60 Hz
/// refresh rate.
pub const CYCLES_PER_FRAME_NTSC: u16 = (CPU_TICK_COUNT / 60) as u16;

/// The machine's effective state. A step that fails leaves the machine
/// `Halted`, carrying the fault that stopped it; the same fault is
/// surfaced to the caller, and the process never ends on its account.
#[derive(Clone, Copy, Debug, PartialEq, Eq, Structural)]
pub enum MachineState {
    Reset,
    Running,
    Halted { fault: EmuError },
}

/// What dispatching an opcode without a handler does to a run: stop the
/// machine with the typed error, or log-and-skip past the opcode byte.
#[derive(Clone, Copy, Debug, PartialEq, Eq, Structural)]
pub enum OpcodePolicy {
    HardStop,
    Skip,
}

pub struct NES {
    /// Cycle debt carried from the previous frame's overshoot.
    pub cycles_left: u16,
    pub cycles_per_frame: u16,
    pub bus: IOBus,
    pub state: MachineState,
    pub policy: OpcodePolicy,
}

/// The engine's own bookkeeping and the picture memory are untouched:
/// only registers and the bus may have moved.
pub open spec fn engine_unchanged(a: NES, b: NES) -> bool {
    &&& b.cycles_left == a.cycles_left
    &&& b.cycles_per_frame == a.cycles_per_frame
    &&& b.state == a.state
    &&& b.policy == a.policy
    &&& b.bus.ppu@ == a.bus.ppu@
}

/// Fetching one instruction at `addr`: the opcode byte, then as many
/// operand bytes as the length table asks for, zero-padded to two. An
/// instruction whose trailing bytes would run past the end of memory is a
/// bounds error, never zero-filled; a byte in an unmapped gap is a decode
/// error.
pub open spec fn spec_fetch(mem: MemModel, addr: u16) -> Result<(u8, u8, u8), EmuError> {
    if !addr_mapped(addr as int) {
        Err(EmuError::UnmappedAddress { addr })
    } else {
        let op = mem.read(addr as int);
        let n = spec_operand_count(op);
        if addr + 1 + n > 0x10000 {
            Err(EmuError::OutOfBoundsAccess { addr })
        } else if n >= 1 && !addr_mapped(addr as int + 1) {
            Err(EmuError::UnmappedAddress { addr: (addr + 1) as u16 })
        } else if n >= 2 && !addr_mapped(addr as int + 2) {
            Err(EmuError::UnmappedAddress { addr: (addr + 2) as u16 })
        } else {
            Ok(
                (
                    op,
                    if n >= 1 {
                        mem.read(addr as int + 1)
                    } else {
                        0
                    },
                    if n >= 2 {
                        mem.read(addr as int + 2)
                    } else {
                        0
                    },
                ),
            )
        }
    }
}

/// One step of the engine: fetch at the program counter, advance the
/// counter by one plus the instruction's operand count (wrapping at the
/// end of the space), dispatch, and report the opcode's nominal cycle
/// cost. Under the skip policy an unimplemented opcode is stepped over;
/// under the hard-stop policy (and for every bus fault) the step fails
/// with the machine unchanged.
pub open spec fn spec_step(m: Mach, policy: OpcodePolicy) -> Result<(Mach, u8), EmuError> {
    match spec_fetch(m.mem, m.cpu.pc) {
        Err(e) => Err(e),
        Ok((op, b1, b2)) => {
            let pc_next = ((m.cpu.pc + 1 + spec_operand_count(op)) % 0x10000) as u16;
            let m1 = Mach { cpu: CPU { pc: pc_next, ..m.cpu }, mem: m.mem };
            match spec_dispatch(m1, op, b1, b2) {
                Ok(m2) => Ok((m2, spec_opcode_cycles(op))),
                Err(e) => {
                    if e is UnimplementedOpcode && policy is Skip {
                        Ok((m1, spec_opcode_cycles(op)))
                    } else {
                        Err(e)
                    }
                },
            }
        },
    }
}

/// The machine after a reset: stack pointer at the top, InterruptDisable
/// alone set, and the program counter taken little-endian from the reset
/// vector.
pub open spec fn spec_reset(m: Mach) -> Mach {
    Mach {
        cpu: CPU {
            sp: 0xFF,
            flags: FLAG_INTERRUPT_DISABLE,
            pc: (m.mem.read(0xFFFC) + 256 * m.mem.read(0xFFFD)) as u16,
            ..m.cpu
        },
        mem: m.mem,
    }
}

/// `fuel` steps from `m`, stopping early at the first fault: the machine
/// reached, and the fault if one occurred.
pub open spec fn spec_run_steps(m: Mach, policy: OpcodePolicy, fuel: nat) -> (Mach, Option<
    EmuError,
>)
    decreases fuel,
{
    if fuel == 0 {
        (m, None)
    } else {
        let (mi, e) = spec_run_steps(m, policy, (fuel - 1) as nat);
        if e is Some {
            (mi, e)
        } else {
            match spec_step(mi, policy) {
                Ok((m2, _)) => (m2, None),
                Err(err) => (mi, Some(err)),
            }
        }
    }
}

/// Once a run has faulted, more fuel changes nothing.
pub proof fn lemma_run_steps_fault_stable(m: Mach, policy: OpcodePolicy, k: nat, j: nat)
    requires
        k <= j,
        spec_run_steps(m, policy, k).1 is Some,
    ensures
        spec_run_steps(m, policy, j) == spec_run_steps(m, policy, k),
    decreases j,
{
    if j > k {
        lemma_run_steps_fault_stable(m, policy, k, (j - 1) as nat);
    }
}

/// A step whose fetched opcode is the subroutine call: the engine
/// advances past the three instruction bytes and dispatches the call.
#[verifier::spinoff_prover]
pub proof fn lemma_step_jsr(m: Mach, policy: OpcodePolicy)
    requires
        m.wf(),
        addr_mapped(m.cpu.pc as int),
        m.mem.read(m.cpu.pc as int) == 0x20,
        m.cpu.pc as int + 3 <= 0x10000,
        addr_mapped(m.cpu.pc as int + 1),
        addr_mapped(m.cpu.pc as int + 2),
    ensures
        spec_step(m, policy) == Ok::<(Mach, u8), EmuError>(
            (
                crate::machine::spec_jsr_absolute(
                    Mach {
                        cpu: CPU { pc: ((m.cpu.pc + 3) % 0x10000) as u16, ..m.cpu },
                        mem: m.mem,
                    },
                    m.mem.read(m.cpu.pc as int + 1),
                    m.mem.read(m.cpu.pc as int + 2),
                ),
                1,
            ),
        ),
{
    reveal(spec_dispatch);
    assert(spec_operand_count(0x20) == 2);
}

/// A step whose fetched opcode is return-from-subroutine: the engine
/// advances past the opcode byte and dispatches the return.
#[verifier::spinoff_prover]
pub proof fn lemma_step_rts(m: Mach, policy: OpcodePolicy)
    requires
        m.wf(),
        addr_mapped(m.cpu.pc as int),
        m.mem.read(m.cpu.pc as int) == 0x60,
    ensures
        spec_step(m, policy) == Ok::<(Mach, u8), EmuError>(
            (
                crate::machine::spec_rts_implied(
                    Mach {
                        cpu: CPU { pc: ((m.cpu.pc + 1) % 0x10000) as u16, ..m.cpu },
                        mem: m.mem,
                    },
                ),
                6,
            ),
        ),
{
    reveal(spec_dispatch);
    assert(spec_operand_count(0x60) == 0);
}

/// Subroutine call/return round trip: stepping a machine whose next
/// instruction is a call to any address X pushes the return address and
/// lands at X; if the byte at X then reads as return-from-subroutine,
/// stepping once more lands the program counter exactly at the
/// instruction following the original call.
#[verifier::rlimit(100)]
#[verifier::spinoff_prover]
pub proof fn lemma_subroutine_round_trip(m: Mach, policy: OpcodePolicy, x: u16)
    requires
        m.wf(),
        addr_mapped(m.cpu.pc as int),
        m.mem.read(m.cpu.pc as int) == 0x20,
        m.cpu.pc as int + 3 <= 0x10000,
        addr_mapped(m.cpu.pc as int + 1),
        addr_mapped(m.cpu.pc as int + 2),
        crate::machine::abs_address(
            m.mem.read(m.cpu.pc as int + 1),
            m.mem.read(m.cpu.pc as int + 2),
        ) == x,
    ensures
        match spec_step(m, policy) {
            Ok((m1, c1)) => {
                &&& m1.cpu.pc == x
                &&& (addr_mapped(x as int) && m1.mem.read(x as int) == 0x60) ==> (match spec_step(
                    m1,
                    policy,
                ) {
                    Ok((m2, c2)) => m2.cpu.pc == ((m.cpu.pc + 3) % 0x10000) as u16,
                    Err(_) => false,
                })
            },
            Err(_) => false,
        },
{
    lemma_step_jsr(m, policy);
    let pc = m.cpu.pc;
    let pc_next = ((pc + 3) % 0x10000) as u16;
    let ret = crate::machine::wrap_dec16(pc_next);
    assert(ret == pc + 2) by {
        assert((pc + 3) % 0x10000 == (if pc + 3 == 0x10000 {
            0int
        } else {
            pc + 3
        }));
    }
    let m1 = spec_step(m, policy)->Ok_0.0;
    let sp0 = m.cpu.sp;
    let sp1 = crate::machine::wrap_dec8(sp0);
    assert(sp1 != sp0);
    assert(crate::machine::wrap_inc8(crate::machine::wrap_dec8(sp1)) == sp1);
    assert(m1.mem.read(sp1 as int) == crate::machine::lo_byte(ret));
    assert(m1.mem.read(sp0 as int) == crate::machine::hi_byte(ret));
    if addr_mapped(x as int) && m1.mem.read(x as int) == 0x60 {
        lemma_step_rts(m1, policy);
        let m2 = spec_step(m1, policy)->Ok_0.0;
        assert(crate::machine::lo_byte(ret) + 256 * crate::machine::hi_byte(ret) == ret);
        assert(m2.cpu.pc == crate::machine::wrap_inc16(ret));
        assert(crate::machine::wrap_inc16(ret) == pc_next) by {
            assert(ret == pc + 2 && (pc + 2 + 1) % 0x10000 == (pc + 3) % 0x10000);
        }
    }
}

/// The charge a step makes against the frame budget: the opcode's nominal
/// cycle cost, and never less than one cycle, so a frame always makes
/// progress.
pub open spec fn spec_charge(cycles: u8) -> u8 {
    if cycles == 0 {
        1
    } else {
        cycles
    }
}

/// Running steps until a cycle budget is spent: the machine reached, the
/// fault if one occurred, and the leftover budget (zero or negative; its
/// magnitude is the overshoot carried into the next frame).
pub open spec fn spec_run_budget(m: Mach, policy: OpcodePolicy, budget: int) -> (Mach, Option<
    EmuError,
>, int)
    decreases budget,
{
    if budget <= 0 {
        (m, None, budget)
    } else {
        match spec_step(m, policy) {
            Err(e) => (m, Some(e), budget),
            Ok((m2, c)) => {
                let b2 = budget - spec_charge(c);
                if b2 <= 0 {
                    (m2, None, b2)
                } else {
                    spec_run_budget(m2, policy, b2)
                }
            },
        }
    }
}

impl NES {
    pub open spec fn wf(&self) -> bool {
        self.bus.wf()
    }

    /// The machine as the instruction semantics see it.
    pub open spec fn machine(&self) -> Mach {
        Mach { cpu: self.bus.cpu, mem: self.bus.memory@ }
    }

    pub fn new() -> (r: NES)
        ensures
            r.wf(),
            r.state is Reset,
            r.policy is HardStop,
            forall|addr: int| addr_mapped(addr) ==> r.machine().mem.read(addr) == 0,
            r.cycles_left == 0,
    {
        NES {
            cycles_left: 0,
            cycles_per_frame: CYCLES_PER_FRAME_NTSC,
            bus: IOBus::new(),
            state: MachineState::Reset,
            policy: OpcodePolicy::HardStop,
        }
    }

    /// (Re)start the machine: read the little-endian start address from
    /// the reset vector at 0xFFFC and re-initialise the register file.
    /// The vector addresses always decode, so a reset cannot fail.
    pub fn reset(&mut self) -> (r: Result<(), EmuError>)
        requires
            old(self).wf(),
        ensures
            final(self).wf(),
            r is Ok,
            final(self).machine() == spec_reset(old(self).machine()),
            final(self).bus.ppu@ == old(self).bus.ppu@,
            final(self).state is Running,
            final(self).policy == old(self).policy,
            final(self).cycles_left == old(self).cycles_left,
            final(self).cycles_per_frame == old(self).cycles_per_frame,
    {
        let start_addr = match self.bus.memory.read_u16(0xFFFC) {
            Ok(v) => v,
            Err(e) => {
                return Err(e);
            },
        };
        self.bus.cpu.reset(start_addr);
        self.state = MachineState::Running;
        Ok(())
    }

    /// One fetch-decode-execute step. On success the opcode's nominal
    /// cycle cost is returned and the machine is `Running`; on a fault
    /// the step is abandoned with registers and memory exactly as they
    /// were, the machine is `Halted`, and the typed error is surfaced to
    /// the caller.
    pub fn execute(&mut self) -> (r: Result<u8, EmuError>)
        requires
            old(self).wf(),
        ensures
            final(self).wf(),
            final(self).cycles_left == old(self).cycles_left,
            final(self).cycles_per_frame == old(self).cycles_per_frame,
            final(self).policy == old(self).policy,
            final(self).bus.ppu@ == old(self).bus.ppu@,
            match spec_step(old(self).machine(), old(self).policy) {
                Ok((m2, cycles)) => {
                    &&& r == Ok::<u8, EmuError>(cycles)
                    &&& final(self).machine() == m2
                    &&& final(self).state is Running
                },
                Err(e) => {
                    &&& r == Err::<u8, EmuError>(e)
                    &&& final(self).machine() == old(self).machine()
                    &&& final(self).state == (MachineState::Halted { fault: e })
                },
            },
    {
        let pc = self.bus.cpu.pc;
        let opcode = match self.bus.memory.read_u8(pc) {
            Ok(v) => v,
            Err(e) => {
                self.state = MachineState::Halted { fault: e };
                return Err(e);
            },
        };
        let n = get_opcode_size(opcode);
        if pc as u32 + 1 + n as u32 > 0x10000 {
            self.state = MachineState::Halted { fault: EmuError::OutOfBoundsAccess { addr: pc } };
            return Err(EmuError::OutOfBoundsAccess { addr: pc });
        }
        let byte1 = if n >= 1 {
            match self.bus.memory.read_u8(pc + 1) {
                Ok(v) => v,
                Err(e) => {
                    self.state = MachineState::Halted { fault: e };
                    return Err(e);
                },
            }
        } else {
            0
        };
        let byte2 = if n >= 2 {
            match self.bus.memory.read_u8(pc + 2) {
                Ok(v) => v,
                Err(e) => {
                    self.state = MachineState::Halted { fault: e };
                    return Err(e);
                },
            }
        } else {
            0
        };
        self.bus.cpu.pc = ((pc as u32 + 1 + n as u32) % 0x10000) as u16;
        match dispatch(self, opcode, byte1, byte2) {
            Ok(()) => {
                self.state = MachineState::Running;
                Ok(get_opcode_cycles(opcode))
            },
            Err(e) => {
                if matches!(e, EmuError::UnimplementedOpcode) && matches!(
                    self.policy,
                    OpcodePolicy::Skip,
                ) {
                    self.state = MachineState::Running;
                    Ok(get_opcode_cycles(opcode))
                } else {
                    self.bus.cpu.pc = pc;
                    self.state = MachineState::Halted { fault: e };
                    Err(e)
                }
            },
        }
    }

    /// The raw bytes of the instruction at `addr`: the opcode byte
    /// followed by its operand bytes.
    pub fn get_instruction_at(&self, addr: u16) -> (r: Result<Vec<u8>, EmuError>)
        requires
            self.wf(),
        ensures
            match r {
                Ok(v) => match spec_fetch(self.bus.memory@, addr) {
                    Ok((op, b1, b2)) => {
                        &&& v@.len() == 1 + spec_operand_count(op)
                        &&& v@[0] == op
                        &&& spec_operand_count(op) >= 1 ==> v@[1] == b1
                        &&& spec_operand_count(op) >= 2 ==> v@[2] == b2
                    },
                    Err(_) => false,
                },
                Err(e) => spec_fetch(self.bus.memory@, addr) == Err::<(u8, u8, u8), EmuError>(e),
            },
    {
        let opcode = match self.bus.memory.read_u8(addr) {
            Ok(v) => v,
            Err(e) => {
                return Err(e);
            },
        };
        let n = get_opcode_size(opcode);
        if addr as u32 + 1 + n as u32 > 0x10000 {
            return Err(EmuError::OutOfBoundsAccess { addr });
        }
        let mut instruction: Vec<u8> = Vec::new();
        instruction.push(opcode);
        if n >= 1 {
            match self.bus.memory.read_u8(addr + 1) {
                Ok(v) => instruction.push(v),
                Err(e) => {
                    return Err(e);
                },
            }
        }
        if n >= 2 {
            match self.bus.memory.read_u8(addr + 2) {
                Ok(v) => instruction.push(v),
                Err(e) => {
                    return Err(e);
                },
            }
        }
        Ok(instruction)
    }

    /// The raw bytes of the instruction at the program counter.
    pub fn get_instruction(&self) -> (r: Result<Vec<u8>, EmuError>)
        requires
            self.wf(),
        ensures
            match r {
                Ok(v) => match spec_fetch(self.bus.memory@, self.bus.cpu.pc) {
                    Ok((op, b1, b2)) => {
                        &&& v@.len() == 1 + spec_operand_count(op)
                        &&& v@[0] == op
                        &&& spec_operand_count(op) >= 1 ==> v@[1] == b1
                        &&& spec_operand_count(op) >= 2 ==> v@[2] == b2
                    },
                    Err(_) => false,
                },
                Err(e) => spec_fetch(self.bus.memory@, self.bus.cpu.pc) == Err::<
                    (u8, u8, u8),
                    EmuError,
                >(e),
            },
    {
        self.get_instruction_at(self.bus.cpu.pc)
    }

    /// Start the machine and run its first hundred steps: reset from the
    /// vector, then step until done or until the first fault, which
    /// halts the machine and is surfaced to the caller.
    pub fn run(&mut self) -> (r: Result<(), EmuError>)
        requires
            old(self).wf(),
        ensures
            final(self).wf(),
            final(self).cycles_left == old(self).cycles_left,
            final(self).cycles_per_frame == old(self).cycles_per_frame,
            final(self).policy == old(self).policy,
            final(self).bus.ppu@ == old(self).bus.ppu@,
            match spec_run_steps(spec_reset(old(self).machine()), old(self).policy, 100) {
                (m2, None) => {
                    &&& r is Ok
                    &&& final(self).machine() == m2
                    &&& final(self).state is Running
                },
                (m2, Some(e)) => {
                    &&& r == Err::<(), EmuError>(e)
                    &&& final(self).machine() == m2
                    &&& final(self).state == (MachineState::Halted { fault: e })
                },
            },
    {
        match self.reset() {
            Ok(()) => {},
            Err(e) => {
                return Err(e);
            },
        }
        let ghost m0 = self.machine();
        let mut i: u16 = 0;
        while i < 100
            invariant
                self.wf(),
                0 <= i <= 100,
                spec_run_steps(m0, self.policy, i as nat) == (self.machine(), None::<EmuError>),
                self.state is Running,
                self.policy == old(self).policy,
                self.cycles_left == old(self).cycles_left,
                self.cycles_per_frame == old(self).cycles_per_frame,
                self.bus.ppu@ == old(self).bus.ppu@,
                m0 == spec_reset(old(self).machine()),
            decreases 100 - i,
        {
            match self.execute() {
                Ok(_) => {},
                Err(e) => {
                    proof {
                        lemma_run_steps_fault_stable(m0, self.policy, (i + 1) as nat, 100);
                    }
                    return Err(e);
                },
            }
            i = i + 1;
        }
        Ok(())
    }

    /// Run one frame: steps are executed until the frame's cycle budget
    /// is spent. Any deficit carried from the previous frame's overshoot
    /// is charged first, and this frame's overshoot carries into the
    /// next, so timing does not drift over a long run. A fault halts the
    /// machine mid-frame and is surfaced to the caller.
    #[verifier::rlimit(100)]
    pub fn next_frame(&mut self) -> (r: Result<(), EmuError>)
        requires
            old(self).wf(),
        ensures
            final(self).wf(),
            final(self).cycles_per_frame == old(self).cycles_per_frame,
            final(self).policy == old(self).policy,
            final(self).bus.ppu@ == old(self).bus.ppu@,
            match spec_run_budget(
                old(self).machine(),
                old(self).policy,
                old(self).cycles_per_frame - old(self).cycles_left,
            ) {
                (m2, None, leftover) => {
                    &&& r is Ok
                    &&& final(self).machine() == m2
                    &&& final(self).cycles_left == -leftover
                    &&& (old(self).cycles_per_frame > old(self).cycles_left ==> final(self).state
                        is Running)
                    &&& (old(self).cycles_per_frame <= old(self).cycles_left ==> final(self).state
                        == old(self).state)
                },
                (m2, Some(e), _) => {
                    &&& r == Err::<(), EmuError>(e)
                    &&& final(self).machine() == m2
                    &&& final(self).cycles_left == old(self).cycles_left
                    &&& final(self).state == (MachineState::Halted { fault: e })
                },
            },
    {
        let ghost m0 = self.machine();
        let ghost budget0 = old(self).cycles_per_frame - old(self).cycles_left as int;
        let mut budget: i64 = self.cycles_per_frame as i64 - self.cycles_left as i64;
        while budget > 0
            invariant
                self.wf(),
                m0 == old(self).machine(),
                budget0 == old(self).cycles_per_frame - old(self).cycles_left,
                -65535 <= budget <= 0xFFFF,
                budget > 0 ==> spec_run_budget(m0, self.policy, budget0) == spec_run_budget(
                    self.machine(),
                    self.policy,
                    budget as int,
                ),
                budget <= 0 ==> spec_run_budget(m0, self.policy, budget0) == (
                    self.machine(),
                    None::<EmuError>,
                    budget as int,
                ),
                budget0 > 0 ==> budget <= budget0,
                budget0 <= 0 ==> budget == budget0 && self.state == old(self).state,
                budget < budget0 ==> self.state is Running,
                self.policy == old(self).policy,
                self.cycles_left == old(self).cycles_left,
                self.cycles_per_frame == old(self).cycles_per_frame,
                self.bus.ppu@ == old(self).bus.ppu@,
            decreases budget + 65535,
        {
            let ghost m_entry = self.machine();
            let ghost b_entry = budget as int;
            let cycles = match self.execute() {
                Ok(c) => c,
                Err(e) => {
                    proof {
                        assert(spec_run_budget(m_entry, self.policy, b_entry) == (
                            m_entry,
                            Some(e),
                            b_entry,
                        ));
                    }
                    return Err(e);
                },
            };
            let charge: u8 = if cycles == 0 {
                1
            } else {
                cycles
            };
            budget = budget - charge as i64;
            proof {
                assert(charge == spec_charge(cycles));
                assert(spec_run_budget(m_entry, self.policy, b_entry) == (if budget as int <= 0 {
                    (self.machine(), None::<EmuError>, budget as int)
                } else {
                    spec_run_budget(self.machine(), self.policy, budget as int)
                }));
            }
        }
        self.cycles_left = (-budget) as u16;
        Ok(())
    }
}

} // verus!
