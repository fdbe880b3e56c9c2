//! The fetch-decode-execute loop.

use crate::component::cpu::{join_bytes, Cpu, CpuState, Register, Registers, TraceEvent};
use crate::cpu::operations::flag_arg;
use crate::lookups::{
    exit_codes, exit_label, instruction_len, instruction_len_spec, is_illegal_opcode,
    lemma_opcode_tables_agree, EXIT_ILLEGAL, EXIT_OK, EXIT_UNIMPLEMENTED,
    EXIT_UNKNOWN_PREFIXED, STOP_OPCODE,
};
use vstd::prelude::*;

verus! {

/// What one step of the machine did.
#[derive(Clone, Copy, Debug, PartialEq, Eq)]
pub struct Step {
    /// The opcode that was fetched.
    pub opcode: u8,
    /// What a trace shows of the instruction, taken after it was fetched and
    /// before its handler ran.
    pub trace: TraceEvent,
    /// What the handler reported: nothing, or the exit code that ends the
    /// run.
    pub exit: Option<u8>,
}

/// How a bounded run ended.
#[derive(Clone, Copy, Debug, PartialEq, Eq)]
pub enum RunStatus {
    /// A handler reported a terminal exit code.
    Exited {
        /// The exit code.
        code: u8,
        /// The fixed label of the exit code.
        label: &'static str,
        /// The opcode whose handler reported it.
        opcode: u8,
        /// The address that the opcode was fetched from.
        address: u16,
    },
    /// The budget of instructions ran out before any handler reported an
    /// exit code. The machine can be run on from where it stands.
    BudgetExhausted,
}

impl CpuState {
    /// The state after the next instruction is fetched, and its opcode. The
    /// opcode is read at the program counter. Then as many operand bytes as
    /// its length asks for are read, the program counter advanced by one,
    /// modulo 65536, before each; they replace the cached ones. The program
    /// counter then points to the last byte of the instruction.
    pub open spec fn fetch(self) -> (CpuState, u8) {
        let at = self.registers.pc;
        let opcode = self.memory[at as int];
        let operands = (instruction_len_spec(opcode) - 1) as u16;
        (
            CpuState {
                memory: self.memory,
                registers: Registers { pc: at.wrapping_add(operands), ..self.registers },
                cache: Seq::new(
                    operands as nat,
                    |i: int| self.memory[at.wrapping_add((i + 1) as u16) as int],
                ),
            },
            opcode,
        )
    }

    /// The state with the program counter advanced by one, modulo 65536.
    pub open spec fn advance(self) -> CpuState {
        self.with_registers(
            Registers { pc: self.registers.pc.wrapping_add(1), ..self.registers },
        )
    }

    /// The state after one instruction is fetched and dispatched, and what
    /// the step did. The trace is taken between the two. Where the handler
    /// reports no exit code the program counter, which the fetch and the
    /// handler left on the byte before the next instruction, is advanced to
    /// that instruction. Where it reports one, nothing more is changed.
    pub open spec fn step(self) -> (CpuState, Step) {
        let (fetched, opcode) = self.fetch();
        let (next, exit) = fetched.execute(opcode);
        (
            if exit is None {
                next.advance()
            } else {
                next
            },
            Step { opcode, trace: fetched.trace_state(opcode), exit },
        )
    }

    /// The state after instructions are run until one reports an exit code
    /// or `budget` of them have run, and how the run ended.
    pub open spec fn run(self, budget: nat) -> (CpuState, RunStatus)
        decreases budget,
    {
        if budget == 0 {
            (self, RunStatus::BudgetExhausted)
        } else {
            let (next, step) = self.step();
            match step.exit {
                Some(code) => (
                    next,
                    RunStatus::Exited {
                        code,
                        label: exit_label(code),
                        opcode: step.opcode,
                        address: step.trace.address,
                    },
                ),
                None => next.run((budget - 1) as nat),
            }
        }
    }
}

impl Cpu {
    /// Fetches the next instruction: its opcode, which is returned, and its
    /// operand bytes, which replace the cached ones.
    pub fn fetch(&mut self) -> (opcode: u8)
        ensures
            (final(self)@, opcode) == old(self)@.fetch(),
            final(self)@.cache.len() == instruction_len_spec(opcode) - 1,
            final(self)@.can_execute(opcode),
    {
        self.cache.clear();
        let at = self.registers.pc;
        let opcode = self.read(at);
        let len = instruction_len(&opcode);
        while self.cache.len() < (len - 1) as usize
            invariant
                1 <= len <= 3,
                self.memory == old(self).memory,
                self.cache@.len() <= len - 1,
                self.registers == (Registers {
                    pc: at.wrapping_add(self.cache@.len() as u16),
                    ..old(self).registers
                }),
                forall|i: int|
                    0 <= i < self.cache@.len() ==> self.cache@[i] == self.memory@[at.wrapping_add(
                        (i + 1) as u16,
                    ) as int],
            decreases len - 1 - self.cache@.len(),
        {
            self.registers.pc = self.registers.pc.wrapping_add(1);
            let operand = self.read(self.registers.pc);
            self.cache.push(operand);
        }
        assert(self@.cache =~= old(self)@.fetch().0.cache);
        opcode
    }

    /// Runs one instruction: fetches it, takes its trace and dispatches it.
    /// Unless the handler reports an exit code, the program counter is then
    /// advanced to the next instruction.
    pub fn step(&mut self) -> (step: Step)
        ensures
            (final(self)@, step) == old(self)@.step(),
            old(self).registers.wf() ==> final(self).registers.wf(),
    {
        let opcode = self.fetch();
        let trace = self.trace_state(opcode);
        let exit = self.execute(opcode);
        if exit.is_none() {
            self.registers.pc = self.registers.pc.wrapping_add(1);
        }
        Step { opcode, trace, exit }
    }

    /// Runs instructions until a handler reports an exit code, and at most
    /// `budget` of them. Where the budget runs out first, the status says so
    /// and the machine stands ready for the next instruction.
    pub fn run(&mut self, budget: u64) -> (status: RunStatus)
        ensures
            (final(self)@, status) == old(self)@.run(budget as nat),
            status matches RunStatus::Exited { code, .. } ==> code == EXIT_OK || code
                == EXIT_UNIMPLEMENTED || code == EXIT_ILLEGAL || code == EXIT_UNKNOWN_PREFIXED,
            old(self).registers.wf() ==> final(self).registers.wf(),
    {
        let mut left = budget;
        while left > 0
            invariant
                self@.run(left as nat) == old(self)@.run(budget as nat),
                old(self).registers.wf() ==> self.registers.wf(),
            decreases left,
        {
            let step = self.step();
            match step.exit {
                Some(code) => {
                    return RunStatus::Exited {
                        code,
                        label: exit_codes(code),
                        opcode: step.opcode,
                        address: step.trace.address,
                    };
                },
                None => {},
            }
            left = left - 1;
        }
        RunStatus::BudgetExhausted
    }
}

/// An illegal opcode reports exit code 4 and changes nothing, whatever the
/// registers, the memory and the cached bytes hold.
pub proof fn lemma_illegal_opcode_exits(state: CpuState, opcode: u8)
    requires
        is_illegal_opcode(opcode),
    ensures
        state.execute(opcode) == (state, Some(EXIT_ILLEGAL)),
{
}

/// The halt opcode reports exit code 0 and changes nothing, whatever the
/// state.
pub proof fn lemma_stop_opcode_exits(state: CpuState)
    ensures
        state.execute(STOP_OPCODE) == (state, Some(EXIT_OK)),
{
}

/// Whatever a handler reports to end the run is a code of the exit-code
/// vocabulary, and the handler that reports one changes nothing.
pub proof fn lemma_exit_codes(state: CpuState, opcode: u8)
    ensures
        state.execute(opcode).1 matches Some(code) ==> (code == EXIT_OK || code
            == EXIT_UNIMPLEMENTED || code == EXIT_ILLEGAL || code == EXIT_UNKNOWN_PREFIXED)
            && state.execute(opcode).0 == state,
{
}

/// Where the byte at the program counter is the no-op opcode, a step reads
/// it, advances the program counter by exactly one, leaves the rest of the
/// registers and the memory as they were, and reports no exit code.
pub proof fn lemma_nop_step(state: CpuState)
    requires
        state.wf(),
        state.memory[state.registers.pc as int] == 0x00,
    ensures
        state.step().0 == (CpuState {
            memory: state.memory,
            registers: Registers { pc: state.registers.pc.wrapping_add(1), ..state.registers },
            cache: Seq::empty(),
        }),
        state.step().1.opcode == 0x00,
        state.step().1.trace.address == state.registers.pc,
        state.step().1.exit is None,
{
    assert(state.fetch().0.cache =~= Seq::<u8>::empty());
}

/// An absolute jump stores the address before its target in the program
/// counter, and the advance that ends the step then moves the program
/// counter to the target: the next fetch reads its opcode there.
pub proof fn lemma_jump_then_fetch(state: CpuState, low: u8, high: u8)
    requires
        state.wf(),
    ensures
        state.jp(low, high).registers.pc == join_bytes(high, low).wrapping_sub(1),
        state.jp(low, high).advance().registers.pc == join_bytes(high, low),
        state.jp(low, high).advance().fetch().1 == state.memory[join_bytes(high, low) as int],
{
}

/// A step that finds the opcode of the absolute jump at the program counter
/// ends with the program counter on the target that the two bytes after the
/// opcode name, low byte first, and the step after it reads its opcode
/// there.
pub proof fn lemma_jump_step(state: CpuState)
    requires
        state.wf(),
        state.memory[state.registers.pc as int] == 0xC3,
    ensures
        ({
            let pc = state.registers.pc;
            let low = state.memory[pc.wrapping_add(1) as int];
            let high = state.memory[pc.wrapping_add(2) as int];
            &&& state.step().1.exit is None
            &&& state.step().0.registers.pc == join_bytes(high, low)
            &&& state.step().0.memory == state.memory
            &&& state.step().0.step().1.opcode == state.memory[join_bytes(high, low) as int]
            &&& state.step().0.step().1.trace.address == join_bytes(high, low)
        }),
{
    let pc = state.registers.pc;
    let fetched = state.fetch().0;
    assert(fetched.cache[0] == state.memory[pc.wrapping_add(1) as int]);
    assert(fetched.cache[1] == state.memory[pc.wrapping_add(2) as int]);
    let next = state.step().0;
    lemma_opcode_tables_agree(next.memory[next.registers.pc as int]);
}

/// On a memory that holds the no-op opcode at every address a run never
/// reaches a terminal state: it uses up its budget, whatever that is, and
/// has then advanced the program counter by one for each instruction,
/// modulo 65536.
pub proof fn lemma_nops_never_exit(state: CpuState, budget: nat)
    requires
        state.wf(),
        forall|address: int| 0 <= address < 65536 ==> state.memory[address] == 0x00,
    ensures
        state.run(budget).1 == RunStatus::BudgetExhausted,
        state.run(budget).0.memory == state.memory,
        state.run(budget).0.registers.pc == (state.registers.pc + budget) % 0x10000,
    decreases budget,
{
    if budget > 0 {
        lemma_nop_step(state);
        let next = state.step().0;
        lemma_nops_never_exit(next, (budget - 1) as nat);
    }
}

/// An instruction keeps what holds of every processor state and the
/// invariant of the register file: after a fetch, a dispatch or a whole step
/// the memory bus still has 65536 bytes and the low nibble of the flag byte
/// is still zero. A fetch caches as many operand bytes as the opcode asks
/// for, so the dispatch that follows it finds them.
pub proof fn lemma_step_keeps_invariants(state: CpuState, opcode: u8)
    requires
        state.wf(),
        state.registers.wf(),
    ensures
        state.fetch().0.wf(),
        state.fetch().0.registers.wf(),
        state.fetch().0.cache.len() == instruction_len_spec(state.fetch().1) - 1,
        state.fetch().0.can_execute(state.fetch().1),
        state.execute(opcode).0.wf(),
        state.execute(opcode).0.registers.wf(),
        state.step().0.wf(),
        state.step().0.registers.wf(),
{
    lemma_execute_keeps_invariants(state, opcode);
    lemma_execute_keeps_invariants(state.fetch().0, state.fetch().1);
}

/// A dispatch keeps the length of the memory bus and the invariant of the
/// register file.
proof fn lemma_execute_keeps_invariants(state: CpuState, opcode: u8)
    requires
        state.wf(),
        state.registers.wf(),
    ensures
        state.execute(opcode).0.wf(),
        state.execute(opcode).0.registers.wf(),
{
    let registers = state.registers;
    let a = registers.get(Register::A);
    let first = state.cache[0];
    registers.lemma_set_then_get(Register::A, 0, Register::A);
    registers.lemma_set_then_get(Register::A, a & first, Register::A);
    registers.lemma_set_then_get(Register::A, first, Register::A);
    registers.lemma_set_then_get(Register::A, !a, Register::A);
    registers.lemma_set_then_get(Register::A, a & 0xFE, Register::A);
    registers.lemma_set_then_get(Register::B, a, Register::B);
    registers.lemma_set_then_get(
        Register::A,
        state.memory[join_bytes(first, 0xFF) as int],
        Register::A,
    );
    registers.set(Register::A, 0).lemma_with_multi_flags(1, 0, 0, 0);
    registers.set(Register::A, a & first).lemma_with_multi_flags(
        flag_arg(a & first == 0),
        0,
        1,
        0,
    );
    registers.lemma_with_multi_flags(
        flag_arg(a == first),
        1,
        flag_arg(a == first && a == 0x0F),
        flag_arg(first >= a),
    );
}

} // verus!
