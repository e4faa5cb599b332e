//! Laws of the execution engine and of the build, stated over the
//! single-step semantics and proved once and for all.

use vstd::prelude::*;

use crate::exec::{
    runs_for, spec_index_address, spec_step, steps_to, trace_to, MachineState, RuntimeErrorKind,
    Step, StepResult,
};
use crate::instruction::{Address, Assembler, Instruction, Operation};
use crate::parser::{symbols_of, symbols_of_from, Location};
use crate::symbol::spec_resolve;

verus! {

/// The output characters a trace carries, in order.
pub open spec fn outputs_of_trace(t: Seq<Step>) -> Seq<char>
    decreases t.len(),
{
    if t.len() == 0 {
        Seq::empty()
    } else {
        outputs_of_trace(t.drop_last()) + (match t.last().out {
            Some(c) => seq![c],
            None => Seq::<char>::empty(),
        })
    }
}

/// Whether the machine is about to execute an `Output` opcode.
pub open spec fn at_output(m: MachineState) -> bool {
    m.mem.contains_key(m.pc) && m.mem[m.pc] == Instruction::Operation(Operation::Output)
}

/// The accumulator values that `Output` opcodes emit during the first
/// `n` steps of a run, as characters, in execution order.
pub open spec fn run_outputs(m0: MachineState, n: nat) -> Seq<char>
    decreases n,
{
    if n == 0 {
        Seq::empty()
    } else {
        let prev = steps_to(m0, (n - 1) as nat);
        run_outputs(m0, (n - 1) as nat) + (if at_output(prev) {
            seq![(prev.acc as char)]
        } else {
            Seq::<char>::empty()
        })
    }
}

/// The output sequence of a run is exactly the accumulator values that
/// its `Output` opcodes emitted, in execution order: the trace of `n`
/// steps carries those characters and no others.
pub proof fn lemma_trace_outputs(m0: MachineState, n: nat)
    requires
        runs_for(m0, n),
    ensures
        outputs_of_trace(trace_to(m0, n)) == run_outputs(m0, n),
    decreases n,
{
    if n > 0 {
        lemma_trace_outputs(m0, (n - 1) as nat);
        let prev = steps_to(m0, (n - 1) as nat);
        match spec_step(prev) {
            StepResult::Next(_, _) => {
                let t = trace_to(m0, n);
                assert(t.drop_last() =~= trace_to(m0, (n - 1) as nat));
                assert(outputs_of_trace(t) =~= run_outputs(m0, n));
            },
            _ => {},
        }
    }
}

/// A load whose effective address holds an `Operation` cell faults with
/// `InvalidData`: the raw encoding is never read into the accumulator.
/// For a direct or an indirect load the effective address is the operand
/// address itself (the indirect load faults before dereferencing).
pub proof fn lemma_load_operation_cell_faults(m: MachineState, a: Address, t: usize)
    requires
        m.mem.contains_key(m.pc),
        spec_resolve(m.st, a) == Some(t),
        m.mem.contains_key(t),
        m.mem[t] is Operation,
    ensures
        m.mem[m.pc] == Instruction::Operation(Operation::LoadDirect(a)) ==> spec_step(m)
            == StepResult::Fault(RuntimeErrorKind::InvalidData(a)),
        m.mem[m.pc] == Instruction::Operation(Operation::LoadIndirect(a)) ==> spec_step(m)
            == StepResult::Fault(RuntimeErrorKind::InvalidData(a)),
{
}

/// An indexed load whose computed address holds an `Operation` cell
/// faults with `InvalidData`, naming the computed address.
pub proof fn lemma_load_indexed_operation_cell_faults(m: MachineState, a: Address, base: usize)
    requires
        m.mem.contains_key(m.pc),
        m.mem[m.pc] == Instruction::Operation(Operation::LoadIndexed(a)),
        spec_resolve(m.st, a) == Some(base),
        m.mem.contains_key(spec_index_address(base, m.ix)),
        m.mem[spec_index_address(base, m.ix)] is Operation,
    ensures
        spec_step(m) == StepResult::Fault(
            RuntimeErrorKind::InvalidData(Address::Absolute(spec_index_address(base, m.ix))),
        ),
{
}

/// A conditional jump executed with no outstanding comparison faults
/// with `MissingComparison`, whichever direction it tests.
pub proof fn lemma_conditional_jump_requires_comparison(m: MachineState, a: Address)
    requires
        m.mem.contains_key(m.pc),
        m.mem[m.pc] == Instruction::Operation(Operation::JumpEqual(a)) || m.mem[m.pc]
            == Instruction::Operation(Operation::JumpNotEqual(a)),
        m.cmp is None,
    ensures
        spec_step(m) == StepResult::Fault(RuntimeErrorKind::MissingComparison),
{
}

proof fn lemma_symbols_of_from_source(
    records: Seq<Location>,
    base: Map<Seq<char>, usize>,
    label: Seq<char>,
)
    requires
        symbols_of_from(records, base).contains_key(label),
        !base.contains_key(label),
    ensures
        exists|i: int|
            0 <= i < records.len() && records[i].label@ == label && records[i].address
                == symbols_of_from(records, base)[label],
    decreases records.len(),
{
    if records.len() > 0 {
        let last = records.last();
        if last.label@ == label && last.label@.len() > 0 {
            assert(records[records.len() - 1].label@ == label && records[records.len() - 1].address
                == symbols_of_from(records, base)[label]);
        } else {
            lemma_symbols_of_from_source(records.drop_last(), base, label);
            let i = choose|i: int|
                0 <= i < records.drop_last().len() && records.drop_last()[i].label@ == label
                    && records.drop_last()[i].address == symbols_of_from(
                    records.drop_last(),
                    base,
                )[label];
            assert(records[i].label@ == label && records[i].address == symbols_of_from(
                records,
                base,
            )[label]);
        }
    }
}

/// Round trip through the build: every label the symbol-table pass
/// recorded resolves back to exactly the absolute address it was
/// recorded at, and that address comes from a record carrying the label.
pub proof fn lemma_symbol_round_trip(program: Assembler, records: Seq<Location>, label: String)
    requires
        program.symbols() == symbols_of(records),
        symbols_of(records).contains_key(label@),
    ensures
        spec_resolve(program.symbols(), Address::Symbolic(label)) == Some(
            symbols_of(records)[label@],
        ),
        exists|i: int|
            0 <= i < records.len() && records[i].label@ == label@ && records[i].address
                == symbols_of(records)[label@],
{
    lemma_symbols_of_from_source(records, Map::empty(), label@);
}

/// An indirect load follows the chain of data cells: with the operand
/// resolving to a `Data` cell holding `b`, and the cell at `b` holding
/// `Data(v)`, the accumulator is loaded with `v`.
pub proof fn lemma_load_indirect_chain(m: MachineState, t: usize, b: u8, v: u8)
    requires
        m.mem.contains_key(m.pc),
        m.mem[m.pc] matches Instruction::Operation(Operation::LoadIndirect(a)) && spec_resolve(
            m.st,
            a,
        ) == Some(t),
        m.mem.contains_key(t),
        m.mem[t] == Instruction::Data(b),
        m.mem.contains_key(b as usize),
        m.mem[b as usize] == Instruction::Data(v),
    ensures
        spec_step(m) matches StepResult::Next(m2, out) && m2.acc == v && out is None,
{
}

/// An indexed load reads at the resolved base address plus the index
/// register: with that cell holding `Data(v)`, the accumulator is loaded
/// with `v`.
pub proof fn lemma_load_indexed_offset(m: MachineState, base: usize, v: u8)
    requires
        m.mem.contains_key(m.pc),
        m.mem[m.pc] matches Instruction::Operation(Operation::LoadIndexed(a)) && spec_resolve(
            m.st,
            a,
        ) == Some(base),
        base + m.ix <= usize::MAX,
        m.mem.contains_key((base + m.ix) as usize),
        m.mem[(base + m.ix) as usize] == Instruction::Data(v),
    ensures
        spec_step(m) matches StepResult::Next(m2, out) && m2.acc == v && out is None,
{
    assert(spec_index_address(base, m.ix) == (base + m.ix) as usize);
}

proof fn lemma_stuck_runs_zero(m0: MachineState, n: nat)
    requires
        !(spec_step(m0) is Next),
        runs_for(m0, n),
    ensures
        n == 0,
    decreases n,
{
    if n > 0 {
        lemma_stuck_runs_zero(m0, (n - 1) as nat);
    }
}

/// A run whose start address holds no cell faults immediately with
/// `InvalidInstruction` at that address, before producing any output:
/// no step runs, and the trace is empty.
pub proof fn lemma_missing_start_faults(m0: MachineState, n: nat)
    requires
        !m0.mem.contains_key(m0.pc),
        runs_for(m0, n),
    ensures
        n == 0,
        spec_step(steps_to(m0, n)) == StepResult::Fault(RuntimeErrorKind::InvalidInstruction),
        trace_to(m0, n) == Seq::<Step>::empty(),
{
    lemma_stuck_runs_zero(m0, n);
}

/// Arithmetic wraps on the 8-bit value width: an immediate addition
/// leaves in the accumulator exactly the sum reduced modulo 256. Being a
/// function of the machine state alone, the result is the same on every
/// run of the same program.
pub proof fn lemma_arithmetic_wraps(m: MachineState, n: u8)
    requires
        m.mem.contains_key(m.pc),
        m.mem[m.pc] == Instruction::Operation(Operation::AddImmediate(n)),
    ensures
        spec_step(m) matches StepResult::Next(m2, out) && m2.acc == ((m.acc + n) % 256) as u8
            && out is None,
{
}

} // verus!
