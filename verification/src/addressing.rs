//! The operand resolver: pure reads that turn an `Address` into an
//! absolute address, and fetch the data value stored there.

use vstd::prelude::*;

use crate::instruction::{AbsoluteAddress, Address, Assembler, Instruction, Number};
use crate::symbol::spec_resolve;

verus! {

broadcast use vstd::std_specs::hash::group_hash_axioms;

/// What fetching data at `a` yields: the address must resolve, the cell
/// there must exist, and it must be a `Data` cell; anything else yields
/// nothing.
pub open spec fn spec_fetch_data(
    mem: Map<usize, Instruction>,
    st: Map<Seq<char>, usize>,
    a: Address,
) -> Option<u8> {
    match spec_resolve(st, a) {
        Some(addr) => if mem.contains_key(addr) {
            match mem[addr] {
                Instruction::Data(n) => Some(n),
                Instruction::Operation(_) => None,
            }
        } else {
            None
        },
        None => None,
    }
}

impl Assembler {
    /// Resolves an address to an absolute one; `None` when a label is
    /// unbound.
    pub fn get_absolute_address(&self, address: &Address) -> (r: Option<AbsoluteAddress>)
        ensures
            r == spec_resolve(self.symbols(), *address),
    {
        match address {
            Address::Absolute(absolute_address) => Some(*absolute_address),
            Address::Symbolic(symbolic_address) => self.symbol_table.get(
                symbolic_address.as_str(),
            ),
        }
    }

    /// Resolves an address and fetches the `Data` value stored there;
    /// `None` when the address is unresolved, out of range, or holds an
    /// `Operation` cell.
    pub fn get_data(&self, address: &Address) -> (r: Option<Number>)
        ensures
            r == spec_fetch_data(self.mem(), self.symbols(), *address),
    {
        let absolute_address = match self.get_absolute_address(address) {
            Some(a) => a,
            None => {
                return None;
            },
        };
        match self.instructions.get(&absolute_address) {
            Some(Instruction::Data(data)) => Some(*data),
            _ => None,
        }
    }
}

} // verus!
