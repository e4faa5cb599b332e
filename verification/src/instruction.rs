//! The instruction model: addresses, registers, opcodes and memory cells.

use vstd::prelude::*;
use std::collections::HashMap;

use crate::symbol::SymbolTable;

verus! {

/// The storable value type: registers and data cells hold one fixed-width
/// unsigned integer. All arithmetic on it wraps on this 8-bit width.
pub type Number = u8;

/// A direct numeric index into the unified code/data memory space.
pub type AbsoluteAddress = usize;

/// A memory operand: either a direct numeric index into the flat memory
/// space, or a label that the symbol table resolves to one.
#[derive(Debug, PartialEq, Eq)]
pub enum Address {
    Absolute(AbsoluteAddress),
    Symbolic(String),
}

impl Clone for Address {
    fn clone(&self) -> (res: Self)
        ensures
            res == *self,
    {
        match self {
            Address::Absolute(a) => Address::Absolute(*a),
            Address::Symbolic(s) => Address::Symbolic(s.clone()),
        }
    }
}

/// The two general registers: the accumulator and the index register.
#[derive(Debug, Clone, Copy, PartialEq, Eq, Structural)]
pub enum Register {
    ACC,
    IX,
}

/// An operand as it appears during decoding: a numeric literal or an
/// address-denoted value.
#[derive(Debug, PartialEq, Eq)]
pub enum Operand {
    Number(Number),
    Address(Address),
}

/// The closed set of opcodes; each variant carries exactly the operand
/// shape that the opcode requires.
#[derive(Debug, PartialEq, Eq)]
pub enum Operation {
    LoadImmediate(Number),
    LoadDirect(Address),
    LoadIndirect(Address),
    LoadIndexed(Address),
    LoadRegister(Number),
    Move(Register),
    Store(Address),
    AddDirect(Address),
    AddImmediate(Number),
    SubtractDirect(Address),
    SubtractImmediate(Number),
    Increase(Register),
    Decrease(Register),
    Jump(Address),
    CompareDirect(Address),
    CompareImmediate(Number),
    CompareIndirect(Address),
    JumpEqual(Address),
    JumpNotEqual(Address),
    Input,
    Output,
    End,
}

impl Clone for Operation {
    fn clone(&self) -> (res: Self)
        ensures
            res == *self,
    {
        match self {
            Operation::LoadImmediate(n) => Operation::LoadImmediate(*n),
            Operation::LoadDirect(a) => Operation::LoadDirect(a.clone()),
            Operation::LoadIndirect(a) => Operation::LoadIndirect(a.clone()),
            Operation::LoadIndexed(a) => Operation::LoadIndexed(a.clone()),
            Operation::LoadRegister(n) => Operation::LoadRegister(*n),
            Operation::Move(r) => Operation::Move(*r),
            Operation::Store(a) => Operation::Store(a.clone()),
            Operation::AddDirect(a) => Operation::AddDirect(a.clone()),
            Operation::AddImmediate(n) => Operation::AddImmediate(*n),
            Operation::SubtractDirect(a) => Operation::SubtractDirect(a.clone()),
            Operation::SubtractImmediate(n) => Operation::SubtractImmediate(*n),
            Operation::Increase(r) => Operation::Increase(*r),
            Operation::Decrease(r) => Operation::Decrease(*r),
            Operation::Jump(a) => Operation::Jump(a.clone()),
            Operation::CompareDirect(a) => Operation::CompareDirect(a.clone()),
            Operation::CompareImmediate(n) => Operation::CompareImmediate(*n),
            Operation::CompareIndirect(a) => Operation::CompareIndirect(a.clone()),
            Operation::JumpEqual(a) => Operation::JumpEqual(a.clone()),
            Operation::JumpNotEqual(a) => Operation::JumpNotEqual(a.clone()),
            Operation::Input => Operation::Input,
            Operation::Output => Operation::Output,
            Operation::End => Operation::End,
        }
    }
}

/// One memory cell: either decoded code or raw data. Code and data share
/// the address space, and a `Store` during execution may overwrite either
/// kind with a `Data` cell.
#[derive(Debug, PartialEq, Eq)]
pub enum Instruction {
    Operation(Operation),
    Data(Number),
}

impl Clone for Instruction {
    fn clone(&self) -> (res: Self)
        ensures
            res == *self,
    {
        match self {
            Instruction::Operation(op) => Instruction::Operation(op.clone()),
            Instruction::Data(n) => Instruction::Data(*n),
        }
    }
}

/// An assembled program: the address-to-cell memory map and the symbol
/// table. Both are built once by `from_records`; during execution only
/// `Store` mutates the memory map.
#[derive(Debug, PartialEq, Eq)]
pub struct Assembler {
    pub instructions: HashMap<AbsoluteAddress, Instruction>,
    pub symbol_table: SymbolTable,
}

impl Assembler {
    /// The memory map, as a mathematical map from absolute address to cell.
    pub open spec fn mem(&self) -> Map<usize, Instruction> {
        self.instructions@
    }

    /// The symbol table, as a mathematical map from label to address.
    pub open spec fn symbols(&self) -> Map<Seq<char>, usize> {
        self.symbol_table@
    }
}

} // verus!
