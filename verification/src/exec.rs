//! The execution engine: the fetch-decode-execute state machine, its
//! mathematical single-step semantics, and the run-time error taxonomy.

use vstd::prelude::*;
use vstd::string::*;

use crate::addressing::spec_fetch_data;
use crate::instruction::{AbsoluteAddress, Address, Assembler, Instruction, Number, Operand, Operation, Register};
use crate::symbol::spec_resolve;
use crate::text::{decimal_string, spec_decimal};

verus! {

broadcast use vstd::std_specs::hash::group_hash_axioms;

/// The kind of a run-time fault.
#[derive(Debug, PartialEq, Eq)]
pub enum RuntimeErrorKind {
    /// The program counter addresses a missing or non-operation cell.
    InvalidInstruction,
    /// The referenced address does not resolve.
    InvalidAddress(Address),
    /// The referenced cell holds code where data was required, or does
    /// not exist.
    InvalidData(Address),
    /// A conditional jump ran with no comparison outstanding.
    MissingComparison,
    /// The `Input` opcode is an extension point for a host-provided
    /// collaborator; this engine faults on it rather than delegating.
    Unimplemented,
}

impl Clone for RuntimeErrorKind {
    fn clone(&self) -> (res: Self)
        ensures
            res == *self,
    {
        match self {
            RuntimeErrorKind::InvalidInstruction => RuntimeErrorKind::InvalidInstruction,
            RuntimeErrorKind::InvalidAddress(a) => RuntimeErrorKind::InvalidAddress(a.clone()),
            RuntimeErrorKind::InvalidData(a) => RuntimeErrorKind::InvalidData(a.clone()),
            RuntimeErrorKind::MissingComparison => RuntimeErrorKind::MissingComparison,
            RuntimeErrorKind::Unimplemented => RuntimeErrorKind::Unimplemented,
        }
    }
}

/// A run-time fault: the program counter it happened at, and its kind.
#[derive(Debug, PartialEq, Eq)]
pub struct RuntimeError {
    pub address: AbsoluteAddress,
    pub kind: RuntimeErrorKind,
}

impl Clone for RuntimeError {
    fn clone(&self) -> (res: Self)
        ensures
            res == *self,
    {
        RuntimeError { address: self.address, kind: self.kind.clone() }
    }
}

/// How an address renders inside an error message.
pub open spec fn spec_address_text(a: Address) -> Seq<char> {
    match a {
        Address::Absolute(n) => "Absolute("@ + spec_decimal(n as nat) + ")"@,
        Address::Symbolic(s) => "Symbolic(\""@ + s@ + "\")"@,
    }
}

fn address_text(a: &Address) -> (r: String)
    ensures
        r@ == spec_address_text(*a),
{
    match a {
        Address::Absolute(n) => {
            let mut m = String::from_str("Absolute(");
            let d = decimal_string(*n);
            m.append(d.as_str());
            m.append(")");
            m
        },
        Address::Symbolic(s) => {
            let mut m = String::from_str("Symbolic(\"");
            m.append(s.as_str());
            m.append("\")");
            m
        },
    }
}

/// The human-readable message of a run-time fault kind.
pub open spec fn spec_runtime_message(k: RuntimeErrorKind) -> Seq<char> {
    match k {
        RuntimeErrorKind::InvalidInstruction => "Invalid instruction"@,
        RuntimeErrorKind::InvalidAddress(a) => "Invalid address "@ + spec_address_text(a),
        RuntimeErrorKind::InvalidData(a) => "Invalid data at address "@ + spec_address_text(a),
        RuntimeErrorKind::MissingComparison => "Missing compare instruction"@,
        RuntimeErrorKind::Unimplemented => "Unimplemented instruction"@,
    }
}

impl RuntimeError {
    /// Renders the fault as its human-readable message.
    pub fn message(&self) -> (r: String)
        ensures
            r@ == spec_runtime_message(self.kind),
    {
        match &self.kind {
            RuntimeErrorKind::InvalidInstruction => String::from_str("Invalid instruction"),
            RuntimeErrorKind::InvalidAddress(a) => {
                let mut m = String::from_str("Invalid address ");
                let t = address_text(a);
                m.append(t.as_str());
                m
            },
            RuntimeErrorKind::InvalidData(a) => {
                let mut m = String::from_str("Invalid data at address ");
                let t = address_text(a);
                m.append(t.as_str());
                m
            },
            RuntimeErrorKind::MissingComparison => String::from_str("Missing compare instruction"),
            RuntimeErrorKind::Unimplemented => String::from_str("Unimplemented instruction"),
        }
    }
}

/// One entry of the execution trace: the program counter and register
/// values before the step, and the character the step output, if any.
#[derive(Debug, PartialEq, Eq, Clone, Copy)]
pub struct Step {
    /// Program counter
    pub pc: AbsoluteAddress,
    /// Accumulator
    pub acc: Number,
    /// Index register
    pub ix: Number,
    /// Output emitted by this step
    pub out: Option<char>,
}

/// The two general registers of one run.
#[derive(Debug, PartialEq, Eq, Clone, Copy)]
pub struct Registers {
    pub accumulator: Number,
    pub index_register: Number,
}

impl Registers {
    /// The register that an operand names, as a place to read or write.
    pub fn get_register_mut(&mut self, register: &Register) -> (r: &mut Number)
        ensures
            *r == (match *register {
                Register::ACC => old(self).accumulator,
                Register::IX => old(self).index_register,
            }),
            *final(self) == (match *register {
                Register::ACC => Registers { accumulator: *final(r), ..*old(self) },
                Register::IX => Registers { index_register: *final(r), ..*old(self) },
            }),
    {
        match register {
            Register::ACC => &mut self.accumulator,
            Register::IX => &mut self.index_register,
        }
    }
}

/// The transient state of one run: program counter, registers, the
/// compare flag, and the trace collected so far. It is created by one
/// call, owned by it exclusively, and discarded or returned at the end.
#[derive(Debug, PartialEq, Eq)]
pub struct Execution {
    pub pc: AbsoluteAddress,
    pub registers: Registers,
    pub compare: Option<bool>,
    pub steps: Vec<Step>,
}

impl Execution {
    /// A fresh run state, about to execute its first instruction at
    /// `start`: registers zeroed, no comparison outstanding, empty trace.
    pub fn new(start: AbsoluteAddress) -> (r: Execution)
        ensures
            r.pc == start,
            r.registers.accumulator == 0,
            r.registers.index_register == 0,
            r.compare is None,
            r.steps@ == Seq::<Step>::empty(),
    {
        Execution {
            pc: start,
            registers: Registers { accumulator: 0, index_register: 0 },
            compare: None,
            steps: Vec::new(),
        }
    }

    /// The value an operand denotes: a literal stands for itself, an
    /// address for the data stored there.
    pub fn get_operand_value(&self, program: &Assembler, operand: &Operand) -> (r: Option<Number>)
        ensures
            r == spec_operand_value(program.mem(), program.symbols(), *operand),
    {
        match operand {
            Operand::Number(number) => Some(*number),
            Operand::Address(address) => program.get_data(address),
        }
    }
}

/// The value an operand denotes against a given memory and symbol table.
pub open spec fn spec_operand_value(
    mem: Map<usize, Instruction>,
    st: Map<Seq<char>, usize>,
    o: Operand,
) -> Option<u8> {
    match o {
        Operand::Number(n) => Some(n),
        Operand::Address(a) => spec_fetch_data(mem, st, a),
    }
}

/// The whole machine at one instant: memory, symbol table, program
/// counter, registers and compare flag. The trace is not part of it.
#[verifier::ext_equal]
pub struct MachineState {
    pub mem: Map<usize, Instruction>,
    pub st: Map<Seq<char>, usize>,
    pub pc: usize,
    pub acc: u8,
    pub ix: u8,
    pub cmp: Option<bool>,
}

/// What one step does: move to a next state (possibly emitting one
/// output character), halt normally, or fault.
pub enum StepResult {
    Next(MachineState, Option<char>),
    Halt,
    Fault(RuntimeErrorKind),
}

/// 8-bit addition, wrapping on the value width.
pub open spec fn spec_wrap_add(a: u8, b: u8) -> u8 {
    ((a + b) % 256) as u8
}

/// 8-bit subtraction, wrapping on the value width.
pub open spec fn spec_wrap_sub(a: u8, b: u8) -> u8 {
    ((a + 256 - b) % 256) as u8
}

/// Program-counter advance past one cell, wrapping on the address width.
pub open spec fn spec_next_pc(pc: usize) -> usize {
    if pc == usize::MAX {
        0
    } else {
        (pc + 1) as usize
    }
}

/// Indexed-address arithmetic: base plus index, wrapping on the address
/// width.
pub open spec fn spec_index_address(base: usize, ix: u8) -> usize {
    if base + ix > usize::MAX {
        (base + ix - usize::MAX - 1) as usize
    } else {
        (base + ix) as usize
    }
}

fn wrap_add(a: u8, b: u8) -> (r: u8)
    ensures
        r == spec_wrap_add(a, b),
{
    (((a as u16) + (b as u16)) % 256) as u8
}

fn wrap_sub(a: u8, b: u8) -> (r: u8)
    ensures
        r == spec_wrap_sub(a, b),
{
    (((a as u16) + 256 - (b as u16)) % 256) as u8
}

fn next_pc(pc: usize) -> (r: usize)
    ensures
        r == spec_next_pc(pc),
{
    if pc == usize::MAX {
        0
    } else {
        pc + 1
    }
}

fn index_address(base: usize, ix: u8) -> (r: usize)
    ensures
        r == spec_index_address(base, ix),
{
    if base > usize::MAX - (ix as usize) {
        (ix as usize) - (usize::MAX - base) - 1
    } else {
        base + (ix as usize)
    }
}

/// The single-step semantics of one decoded operation, from machine
/// state `m` whose program counter addresses that operation.
pub open spec fn spec_step_op(m: MachineState, op: Operation) -> StepResult {
    match op {
        Operation::LoadImmediate(n) => StepResult::Next(
            MachineState { acc: n, pc: spec_next_pc(m.pc), ..m },
            None,
        ),
        Operation::LoadDirect(a) => match spec_fetch_data(m.mem, m.st, a) {
            Some(v) => StepResult::Next(MachineState { acc: v, pc: spec_next_pc(m.pc), ..m }, None),
            None => StepResult::Fault(RuntimeErrorKind::InvalidData(a)),
        },
        Operation::LoadIndirect(a) => match spec_fetch_data(m.mem, m.st, a) {
            Some(v) => {
                let a2 = Address::Absolute(v as usize);
                match spec_fetch_data(m.mem, m.st, a2) {
                    Some(v2) => StepResult::Next(
                        MachineState { acc: v2, pc: spec_next_pc(m.pc), ..m },
                        None,
                    ),
                    None => StepResult::Fault(RuntimeErrorKind::InvalidData(a2)),
                }
            },
            None => StepResult::Fault(RuntimeErrorKind::InvalidData(a)),
        },
        Operation::LoadIndexed(a) => match spec_resolve(m.st, a) {
            Some(base) => {
                let a2 = Address::Absolute(spec_index_address(base, m.ix));
                match spec_fetch_data(m.mem, m.st, a2) {
                    Some(v) => StepResult::Next(
                        MachineState { acc: v, pc: spec_next_pc(m.pc), ..m },
                        None,
                    ),
                    None => StepResult::Fault(RuntimeErrorKind::InvalidData(a2)),
                }
            },
            None => StepResult::Fault(RuntimeErrorKind::InvalidAddress(a)),
        },
        Operation::LoadRegister(n) => StepResult::Next(
            MachineState { ix: n, pc: spec_next_pc(m.pc), ..m },
            None,
        ),
        Operation::Move(r) => match r {
            Register::ACC => StepResult::Next(MachineState { pc: spec_next_pc(m.pc), ..m }, None),
            Register::IX => StepResult::Next(
                MachineState { ix: m.acc, pc: spec_next_pc(m.pc), ..m },
                None,
            ),
        },
        Operation::Store(a) => match spec_resolve(m.st, a) {
            Some(t) => StepResult::Next(
                MachineState {
                    mem: m.mem.insert(t, Instruction::Data(m.acc)),
                    pc: spec_next_pc(m.pc),
                    ..m
                },
                None,
            ),
            None => StepResult::Fault(RuntimeErrorKind::InvalidAddress(a)),
        },
        Operation::AddDirect(a) => match spec_fetch_data(m.mem, m.st, a) {
            Some(v) => StepResult::Next(
                MachineState { acc: spec_wrap_add(m.acc, v), pc: spec_next_pc(m.pc), ..m },
                None,
            ),
            None => StepResult::Fault(RuntimeErrorKind::InvalidData(a)),
        },
        Operation::AddImmediate(n) => StepResult::Next(
            MachineState { acc: spec_wrap_add(m.acc, n), pc: spec_next_pc(m.pc), ..m },
            None,
        ),
        Operation::SubtractDirect(a) => match spec_fetch_data(m.mem, m.st, a) {
            Some(v) => StepResult::Next(
                MachineState { acc: spec_wrap_sub(m.acc, v), pc: spec_next_pc(m.pc), ..m },
                None,
            ),
            None => StepResult::Fault(RuntimeErrorKind::InvalidData(a)),
        },
        Operation::SubtractImmediate(n) => StepResult::Next(
            MachineState { acc: spec_wrap_sub(m.acc, n), pc: spec_next_pc(m.pc), ..m },
            None,
        ),
        Operation::Increase(r) => match r {
            Register::ACC => StepResult::Next(
                MachineState { acc: spec_wrap_add(m.acc, 1), pc: spec_next_pc(m.pc), ..m },
                None,
            ),
            Register::IX => StepResult::Next(
                MachineState { ix: spec_wrap_add(m.ix, 1), pc: spec_next_pc(m.pc), ..m },
                None,
            ),
        },
        Operation::Decrease(r) => match r {
            Register::ACC => StepResult::Next(
                MachineState { acc: spec_wrap_sub(m.acc, 1), pc: spec_next_pc(m.pc), ..m },
                None,
            ),
            Register::IX => StepResult::Next(
                MachineState { ix: spec_wrap_sub(m.ix, 1), pc: spec_next_pc(m.pc), ..m },
                None,
            ),
        },
        Operation::Jump(a) => match spec_resolve(m.st, a) {
            Some(t) => StepResult::Next(MachineState { pc: t, ..m }, None),
            None => StepResult::Fault(RuntimeErrorKind::InvalidAddress(a)),
        },
        Operation::CompareDirect(a) => match spec_fetch_data(m.mem, m.st, a) {
            Some(v) => StepResult::Next(
                MachineState { cmp: Some(m.acc == v), pc: spec_next_pc(m.pc), ..m },
                None,
            ),
            None => StepResult::Fault(RuntimeErrorKind::InvalidData(a)),
        },
        Operation::CompareImmediate(n) => StepResult::Next(
            MachineState { cmp: Some(m.acc == n), pc: spec_next_pc(m.pc), ..m },
            None,
        ),
        Operation::CompareIndirect(a) => match spec_fetch_data(m.mem, m.st, a) {
            Some(v) => {
                let a2 = Address::Absolute(v as usize);
                match spec_fetch_data(m.mem, m.st, a2) {
                    Some(v2) => StepResult::Next(
                        MachineState { cmp: Some(m.acc == v2), pc: spec_next_pc(m.pc), ..m },
                        None,
                    ),
                    None => StepResult::Fault(RuntimeErrorKind::InvalidData(a2)),
                }
            },
            None => StepResult::Fault(RuntimeErrorKind::InvalidData(a)),
        },
        Operation::JumpEqual(a) => match m.cmp {
            Some(flag) => if flag {
                match spec_resolve(m.st, a) {
                    Some(t) => StepResult::Next(MachineState { pc: t, cmp: None, ..m }, None),
                    None => StepResult::Fault(RuntimeErrorKind::InvalidAddress(a)),
                }
            } else {
                StepResult::Next(MachineState { pc: spec_next_pc(m.pc), cmp: None, ..m }, None)
            },
            None => StepResult::Fault(RuntimeErrorKind::MissingComparison),
        },
        Operation::JumpNotEqual(a) => match m.cmp {
            Some(flag) => if !flag {
                match spec_resolve(m.st, a) {
                    Some(t) => StepResult::Next(MachineState { pc: t, cmp: None, ..m }, None),
                    None => StepResult::Fault(RuntimeErrorKind::InvalidAddress(a)),
                }
            } else {
                StepResult::Next(MachineState { pc: spec_next_pc(m.pc), cmp: None, ..m }, None)
            },
            None => StepResult::Fault(RuntimeErrorKind::MissingComparison),
        },
        Operation::Input => StepResult::Fault(RuntimeErrorKind::Unimplemented),
        Operation::Output => StepResult::Next(
            MachineState { pc: spec_next_pc(m.pc), ..m },
            Some(m.acc as char),
        ),
        Operation::End => StepResult::Halt,
    }
}

/// The single-step semantics: fetch the cell at the program counter —
/// a missing or non-operation cell faults — then decode and apply.
pub open spec fn spec_step(m: MachineState) -> StepResult {
    if m.mem.contains_key(m.pc) {
        match m.mem[m.pc] {
            Instruction::Operation(op) => spec_step_op(m, op),
            Instruction::Data(_) => StepResult::Fault(RuntimeErrorKind::InvalidInstruction),
        }
    } else {
        StepResult::Fault(RuntimeErrorKind::InvalidInstruction)
    }
}

/// The trace entry a step from state `m` records: the machine registers
/// before the step, and what it output.
pub open spec fn step_record(m: MachineState, out: Option<char>) -> Step {
    Step { pc: m.pc, acc: m.acc, ix: m.ix, out }
}

/// The machine state after `n` steps from `m0`; a halted, faulted or
/// stuck machine stays where it is.
pub open spec fn steps_to(m0: MachineState, n: nat) -> MachineState
    decreases n,
{
    if n == 0 {
        m0
    } else {
        let prev = steps_to(m0, (n - 1) as nat);
        match spec_step(prev) {
            StepResult::Next(m2, _) => m2,
            _ => prev,
        }
    }
}

/// Whether the machine takes `n` ordinary steps from `m0` without
/// halting or faulting.
pub open spec fn runs_for(m0: MachineState, n: nat) -> bool
    decreases n,
{
    n == 0 || (runs_for(m0, (n - 1) as nat) && spec_step(steps_to(m0, (n - 1) as nat)) is Next)
}

/// The trace of the first `n` steps from `m0`: one record per step
/// taken, in execution order.
pub open spec fn trace_to(m0: MachineState, n: nat) -> Seq<Step>
    decreases n,
{
    if n == 0 {
        Seq::empty()
    } else {
        let prev = steps_to(m0, (n - 1) as nat);
        match spec_step(prev) {
            StepResult::Next(_, out) => trace_to(m0, (n - 1) as nat).push(step_record(prev, out)),
            _ => trace_to(m0, (n - 1) as nat),
        }
    }
}

/// The machine state that a program and a run state together denote.
pub open spec fn machine_of(program: Assembler, state: Execution) -> MachineState {
    MachineState {
        mem: program.mem(),
        st: program.symbols(),
        pc: state.pc,
        acc: state.registers.accumulator,
        ix: state.registers.index_register,
        cmp: state.compare,
    }
}

/// The machine state at the start of a run from `start`.
pub open spec fn initial_machine(program: Assembler, start: usize) -> MachineState {
    MachineState {
        mem: program.mem(),
        st: program.symbols(),
        pc: start,
        acc: 0,
        ix: 0,
        cmp: None,
    }
}

/// What one call of `Assembler::step` reports.
#[derive(Debug, PartialEq, Eq)]
pub enum StepStatus {
    /// The step ran; the run goes on.
    Running,
    /// The step reached `End`; the run is over.
    Halted,
    /// The step faulted; the run is aborted.
    Faulted(RuntimeError),
}

impl Assembler {
    /// One fetch-decode-execute step: behaves exactly as `spec_step` says
    /// of the machine state that `self` and `state` denote. An ordinary
    /// step appends one record to the trace; `End` and faults leave
    /// program and run state untouched, and a fault reports the program
    /// counter it happened at.
    pub fn step(&mut self, state: &mut Execution) -> (r: StepStatus)
        ensures
            final(self).symbol_table == old(self).symbol_table,
            match spec_step(machine_of(*old(self), *old(state))) {
                StepResult::Next(m2, out) => {
                    &&& r == StepStatus::Running
                    &&& machine_of(*final(self), *final(state)) == m2
                    &&& final(state).steps@ == old(state).steps@.push(
                        step_record(machine_of(*old(self), *old(state)), out),
                    )
                },
                StepResult::Halt => {
                    &&& r == StepStatus::Halted
                    &&& *final(self) == *old(self)
                    &&& *final(state) == *old(state)
                },
                StepResult::Fault(k) => {
                    &&& r == StepStatus::Faulted(RuntimeError { address: old(state).pc, kind: k })
                    &&& *final(self) == *old(self)
                    &&& *final(state) == *old(state)
                },
            },
    {
        let pc = state.pc;
        let op = match self.instructions.get(&pc) {
            Some(Instruction::Operation(operation)) => operation.clone(),
            _ => {
                return StepStatus::Faulted(
                    RuntimeError { address: pc, kind: RuntimeErrorKind::InvalidInstruction },
                );
            },
        };
        let acc = state.registers.accumulator;
        let ix = state.registers.index_register;
        let mut out: Option<char> = None;
        match op {
            Operation::LoadImmediate(number) => {
                state.registers.accumulator = number;
                state.pc = next_pc(pc);
            },
            Operation::LoadDirect(address) => match self.get_data(&address) {
                Some(v) => {
                    state.registers.accumulator = v;
                    state.pc = next_pc(pc);
                },
                None => {
                    return StepStatus::Faulted(
                        RuntimeError { address: pc, kind: RuntimeErrorKind::InvalidData(address) },
                    );
                },
            },
            Operation::LoadIndirect(address) => match self.get_data(&address) {
                Some(v) => {
                    let inner = Address::Absolute(v as usize);
                    match self.get_data(&inner) {
                        Some(v2) => {
                            state.registers.accumulator = v2;
                            state.pc = next_pc(pc);
                        },
                        None => {
                            return StepStatus::Faulted(
                                RuntimeError {
                                    address: pc,
                                    kind: RuntimeErrorKind::InvalidData(inner),
                                },
                            );
                        },
                    }
                },
                None => {
                    return StepStatus::Faulted(
                        RuntimeError { address: pc, kind: RuntimeErrorKind::InvalidData(address) },
                    );
                },
            },
            Operation::LoadIndexed(address) => match self.get_absolute_address(&address) {
                Some(base) => {
                    let target = Address::Absolute(index_address(base, ix));
                    match self.get_data(&target) {
                        Some(v) => {
                            state.registers.accumulator = v;
                            state.pc = next_pc(pc);
                        },
                        None => {
                            return StepStatus::Faulted(
                                RuntimeError {
                                    address: pc,
                                    kind: RuntimeErrorKind::InvalidData(target),
                                },
                            );
                        },
                    }
                },
                None => {
                    return StepStatus::Faulted(
                        RuntimeError {
                            address: pc,
                            kind: RuntimeErrorKind::InvalidAddress(address),
                        },
                    );
                },
            },
            Operation::LoadRegister(number) => {
                state.registers.index_register = number;
                state.pc = next_pc(pc);
            },
            Operation::Move(register) => {
                *state.registers.get_register_mut(&register) = acc;
                state.pc = next_pc(pc);
            },
            Operation::Store(address) => match self.get_absolute_address(&address) {
                Some(target) => {
                    self.instructions.insert(target, Instruction::Data(acc));
                    state.pc = next_pc(pc);
                },
                None => {
                    return StepStatus::Faulted(
                        RuntimeError {
                            address: pc,
                            kind: RuntimeErrorKind::InvalidAddress(address),
                        },
                    );
                },
            },
            Operation::AddDirect(address) => match self.get_data(&address) {
                Some(v) => {
                    state.registers.accumulator = wrap_add(acc, v);
                    state.pc = next_pc(pc);
                },
                None => {
                    return StepStatus::Faulted(
                        RuntimeError { address: pc, kind: RuntimeErrorKind::InvalidData(address) },
                    );
                },
            },
            Operation::AddImmediate(number) => {
                state.registers.accumulator = wrap_add(acc, number);
                state.pc = next_pc(pc);
            },
            Operation::SubtractDirect(address) => match self.get_data(&address) {
                Some(v) => {
                    state.registers.accumulator = wrap_sub(acc, v);
                    state.pc = next_pc(pc);
                },
                None => {
                    return StepStatus::Faulted(
                        RuntimeError { address: pc, kind: RuntimeErrorKind::InvalidData(address) },
                    );
                },
            },
            Operation::SubtractImmediate(number) => {
                state.registers.accumulator = wrap_sub(acc, number);
                state.pc = next_pc(pc);
            },
            Operation::Increase(register) => {
                let place = state.registers.get_register_mut(&register);
                *place = wrap_add(*place, 1);
                state.pc = next_pc(pc);
            },
            Operation::Decrease(register) => {
                let place = state.registers.get_register_mut(&register);
                *place = wrap_sub(*place, 1);
                state.pc = next_pc(pc);
            },
            Operation::Jump(address) => match self.get_absolute_address(&address) {
                Some(target) => {
                    state.pc = target;
                },
                None => {
                    return StepStatus::Faulted(
                        RuntimeError {
                            address: pc,
                            kind: RuntimeErrorKind::InvalidAddress(address),
                        },
                    );
                },
            },
            Operation::CompareDirect(address) => match self.get_data(&address) {
                Some(v) => {
                    state.compare = Some(acc == v);
                    state.pc = next_pc(pc);
                },
                None => {
                    return StepStatus::Faulted(
                        RuntimeError { address: pc, kind: RuntimeErrorKind::InvalidData(address) },
                    );
                },
            },
            Operation::CompareImmediate(number) => {
                state.compare = Some(acc == number);
                state.pc = next_pc(pc);
            },
            Operation::CompareIndirect(address) => match self.get_data(&address) {
                Some(v) => {
                    let inner = Address::Absolute(v as usize);
                    match self.get_data(&inner) {
                        Some(v2) => {
                            state.compare = Some(acc == v2);
                            state.pc = next_pc(pc);
                        },
                        None => {
                            return StepStatus::Faulted(
                                RuntimeError {
                                    address: pc,
                                    kind: RuntimeErrorKind::InvalidData(inner),
                                },
                            );
                        },
                    }
                },
                None => {
                    return StepStatus::Faulted(
                        RuntimeError { address: pc, kind: RuntimeErrorKind::InvalidData(address) },
                    );
                },
            },
            Operation::JumpEqual(address) => match state.compare {
                Some(flag) => {
                    if flag {
                        match self.get_absolute_address(&address) {
                            Some(target) => {
                                state.compare = None;
                                state.pc = target;
                            },
                            None => {
                                return StepStatus::Faulted(
                                    RuntimeError {
                                        address: pc,
                                        kind: RuntimeErrorKind::InvalidAddress(address),
                                    },
                                );
                            },
                        }
                    } else {
                        state.compare = None;
                        state.pc = next_pc(pc);
                    }
                },
                None => {
                    return StepStatus::Faulted(
                        RuntimeError { address: pc, kind: RuntimeErrorKind::MissingComparison },
                    );
                },
            },
            Operation::JumpNotEqual(address) => match state.compare {
                Some(flag) => {
                    if !flag {
                        match self.get_absolute_address(&address) {
                            Some(target) => {
                                state.compare = None;
                                state.pc = target;
                            },
                            None => {
                                return StepStatus::Faulted(
                                    RuntimeError {
                                        address: pc,
                                        kind: RuntimeErrorKind::InvalidAddress(address),
                                    },
                                );
                            },
                        }
                    } else {
                        state.compare = None;
                        state.pc = next_pc(pc);
                    }
                },
                None => {
                    return StepStatus::Faulted(
                        RuntimeError { address: pc, kind: RuntimeErrorKind::MissingComparison },
                    );
                },
            },
            Operation::Input => {
                return StepStatus::Faulted(
                    RuntimeError { address: pc, kind: RuntimeErrorKind::Unimplemented },
                );
            },
            Operation::Output => {
                out = Some(acc as char);
                state.pc = next_pc(pc);
            },
            Operation::End => {
                return StepStatus::Halted;
            },
        }
        state.steps.push(Step { pc, acc, ix, out });
        StepStatus::Running
    }
}

/// A shorter prefix of a fault-free run is fault-free.
pub proof fn lemma_runs_for_prefix(m0: MachineState, n: nat, i: nat)
    requires
        runs_for(m0, n),
        i <= n,
    ensures
        runs_for(m0, i),
    decreases n,
{
    if i < n {
        lemma_runs_for_prefix(m0, (n - 1) as nat, i);
    }
}

/// A run has at most one end: if the machine halts or faults after `n1`
/// ordinary steps and also after `n2`, then `n1 == n2`. The single-step
/// semantics is a function of the machine state, so a program, a start
/// address and a memory image determine one outcome and one trace.
pub proof fn lemma_run_outcome_unique(m0: MachineState, n1: nat, n2: nat)
    requires
        runs_for(m0, n1),
        !(spec_step(steps_to(m0, n1)) is Next),
        runs_for(m0, n2),
        !(spec_step(steps_to(m0, n2)) is Next),
    ensures
        n1 == n2,
{
    if n1 < n2 {
        lemma_runs_for_prefix(m0, n2, n1 + 1);
    } else if n2 < n1 {
        lemma_runs_for_prefix(m0, n1, n2 + 1);
    }
}

/// How a whole run ends.
#[derive(Debug, PartialEq, Eq)]
pub enum ExecutionOutcome {
    /// The run reached `End`; the trace is complete.
    Halted(Vec<Step>),
    /// The run faulted; the trace is discarded with the run state.
    Faulted(RuntimeError),
    /// The step bound ran out before the program halted or faulted; the
    /// caller decides what the partial trace means. This is the host's
    /// guard against non-terminating programs, not a fault of the
    /// program.
    Cancelled(Vec<Step>),
}

impl Assembler {
    /// Runs the program from `start` until it reaches `End`, faults, or
    /// has taken `max_steps` steps: exactly the iterated single-step
    /// semantics from the initial machine state. A `Store` executed
    /// before the end leaves memory mutated, whatever the outcome.
    pub fn execute(&mut self, start: AbsoluteAddress, max_steps: u64) -> (r: ExecutionOutcome)
        ensures
            final(self).symbol_table == old(self).symbol_table,
            ({
                let m0 = initial_machine(*old(self), start);
                &&& match r {
                    ExecutionOutcome::Halted(steps) => exists|n: nat|
                        n < max_steps as nat && #[trigger] runs_for(m0, n) && spec_step(
                            steps_to(m0, n),
                        ) is Halt && steps@ == trace_to(m0, n) && final(self).instructions@
                            == steps_to(m0, n).mem,
                    ExecutionOutcome::Faulted(e) => exists|n: nat|
                        n < max_steps as nat && #[trigger] runs_for(m0, n) && (spec_step(
                            steps_to(m0, n),
                        ) matches StepResult::Fault(k) && e == RuntimeError {
                            address: steps_to(m0, n).pc,
                            kind: k,
                        }) && final(self).instructions@ == steps_to(m0, n).mem,
                    ExecutionOutcome::Cancelled(steps) => runs_for(m0, max_steps as nat) && steps@
                        == trace_to(m0, max_steps as nat) && final(self).instructions@ == steps_to(
                        m0,
                        max_steps as nat,
                    ).mem,
                }
                &&& (exists|n: nat|
                    n < max_steps as nat && #[trigger] runs_for(m0, n) && spec_step(
                        steps_to(m0, n),
                    ) is Halt) ==> r is Halted
                &&& runs_for(m0, max_steps as nat) ==> r is Cancelled
            }),
    {
        let ghost m0 = initial_machine(*self, start);
        let mut state = Execution::new(start);
        let mut count: u64 = 0;
        while count < max_steps
            invariant
                count <= max_steps,
                self.symbol_table == old(self).symbol_table,
                m0 == initial_machine(*old(self), start),
                runs_for(m0, count as nat),
                machine_of(*self, state) == steps_to(m0, count as nat),
                state.steps@ == trace_to(m0, count as nat),
            decreases max_steps - count,
        {
            match self.step(&mut state) {
                StepStatus::Running => {
                    proof {
                        assert(runs_for(m0, count as nat + 1));
                    }
                    count = count + 1;
                },
                StepStatus::Halted => {
                    proof {
                        if runs_for(m0, max_steps as nat) {
                            lemma_runs_for_prefix(m0, max_steps as nat, count as nat + 1);
                        }
                    }
                    return ExecutionOutcome::Halted(state.steps);
                },
                StepStatus::Faulted(e) => {
                    proof {
                        if exists|n: nat|
                            n < max_steps as nat && #[trigger] runs_for(m0, n) && spec_step(
                                steps_to(m0, n),
                            ) is Halt {
                            let n = choose|n: nat|
                                n < max_steps as nat && #[trigger] runs_for(m0, n) && spec_step(
                                    steps_to(m0, n),
                                ) is Halt;
                            lemma_run_outcome_unique(m0, n, count as nat);
                        }
                        if runs_for(m0, max_steps as nat) {
                            lemma_runs_for_prefix(m0, max_steps as nat, count as nat + 1);
                        }
                    }
                    return ExecutionOutcome::Faulted(e);
                },
            }
        }
        proof {
            if exists|n: nat|
                n < max_steps as nat && #[trigger] runs_for(m0, n) && spec_step(
                    steps_to(m0, n),
                ) is Halt {
                let n = choose|n: nat|
                    n < max_steps as nat && #[trigger] runs_for(m0, n) && spec_step(
                        steps_to(m0, n),
                    ) is Halt;
                lemma_runs_for_prefix(m0, max_steps as nat, n + 1);
            }
        }
        ExecutionOutcome::Cancelled(state.steps)
    }
}

} // verus!
