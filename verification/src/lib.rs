//! An assembler and execution engine for a small teaching instruction set:
//! two general registers, one flat address space shared by code and data,
//! immediate, direct, indirect and indexed addressing, and
//! comparison-and-branch control flow.

pub mod addressing;
pub mod exec;
pub mod instruction;
pub mod laws;
pub mod parser;
pub mod symbol;
pub mod text;

pub use exec::{Execution, Registers, RuntimeError, RuntimeErrorKind, Step};
pub use instruction::{AbsoluteAddress, Address, Assembler, Instruction, Number, Operand, Operation, Register};
pub use parser::{AssemblyError, Location};
pub use symbol::SymbolTable;

