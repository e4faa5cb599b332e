//! The symbol table: label to absolute-address bindings, and the
//! resolution of symbolic addresses against it.

use vstd::prelude::*;
use vstd::string::*;

use crate::instruction::{AbsoluteAddress, Address, Assembler};
use crate::parser::{symbols_of_from, Location};
use crate::text::str_eq;

verus! {

/// Label-to-address bindings. Inserting a label that is already bound
/// rebinds it: the last write wins.
#[derive(Debug, PartialEq, Eq)]
pub struct SymbolTable {
    entries: Vec<(String, usize)>,
}

/// The map described by a sequence of bindings, later entries shadowing
/// earlier ones.
closed spec fn map_of(entries: Seq<(String, usize)>) -> Map<Seq<char>, usize>
    decreases entries.len(),
{
    if entries.len() == 0 {
        Map::empty()
    } else {
        map_of(entries.drop_last()).insert(entries.last().0@, entries.last().1)
    }
}

impl View for SymbolTable {
    type V = Map<Seq<char>, usize>;

    closed spec fn view(&self) -> Map<Seq<char>, usize> {
        map_of(self.entries@)
    }
}

proof fn lemma_map_of_found(entries: Seq<(String, usize)>, i: int, k: Seq<char>)
    requires
        0 <= i < entries.len(),
        entries[i].0@ == k,
        forall|j: int| i < j < entries.len() ==> entries[j].0@ != k,
    ensures
        map_of(entries).contains_key(k),
        map_of(entries)[k] == entries[i].1,
    decreases entries.len(),
{
    if i == entries.len() - 1 {
    } else {
        lemma_map_of_found(entries.drop_last(), i, k);
    }
}

proof fn lemma_map_of_absent(entries: Seq<(String, usize)>, k: Seq<char>)
    requires
        forall|j: int| 0 <= j < entries.len() ==> entries[j].0@ != k,
    ensures
        !map_of(entries).contains_key(k),
    decreases entries.len(),
{
    if entries.len() > 0 {
        lemma_map_of_absent(entries.drop_last(), k);
    }
}

impl SymbolTable {
    /// An empty table.
    pub fn new() -> (r: Self)
        ensures
            r@ == Map::<Seq<char>, usize>::empty(),
    {
        SymbolTable { entries: Vec::new() }
    }

    /// Binds `label` to `address`, shadowing any earlier binding.
    pub fn insert(&mut self, label: String, address: usize)
        ensures
            final(self)@ == old(self)@.insert(label@, address),
    {
        self.entries.push((label, address));
        proof {
            assert(self.entries@.drop_last() =~= old(self).entries@);
        }
    }

    /// Looks a label up; `None` when it is unbound.
    pub fn get(&self, label: &str) -> (r: Option<usize>)
        ensures
            r == (if self@.contains_key(label@) {
                Some(self@[label@])
            } else {
                None::<usize>
            }),
    {
        let n = self.entries.len();
        let mut i: usize = n;
        while i > 0
            invariant
                i <= n,
                n == self.entries.len(),
                forall|j: int| i <= j < self.entries@.len() ==> self.entries@[j].0@ != label@,
            decreases i,
        {
            i = i - 1;
            let e = &self.entries[i];
            if str_eq(e.0.as_str(), label) {
                proof {
                    lemma_map_of_found(self.entries@, i as int, label@);
                }
                return Some(e.1);
            }
        }
        proof {
            lemma_map_of_absent(self.entries@, label@);
        }
        None
    }
}

impl Assembler {
    /// Records every label binding in one pass over the finalized record
    /// stream: for each record that carries a label, binds that label to
    /// the record's address. A record with an empty label field attaches
    /// no label; a duplicate label rebinds, so the last record wins.
    pub fn generate_symbol_table(&mut self, records: &Vec<Location>)
        ensures
            final(self).symbol_table@ == symbols_of_from(records@, old(self).symbol_table@),
            final(self).instructions == old(self).instructions,
    {
        let n = records.len();
        let mut i: usize = 0;
        while i < n
            invariant
                0 <= i <= n,
                n == records@.len(),
                self.symbol_table@ == symbols_of_from(
                    records@.take(i as int),
                    old(self).symbol_table@,
                ),
                self.instructions == old(self).instructions,
            decreases n - i,
        {
            let rec = &records[i];
            if !rec.label.as_str().is_empty() {
                self.symbol_table.insert(rec.label.clone(), rec.address);
            }
            proof {
                let t = records@.take(i + 1);
                assert(t.drop_last() =~= records@.take(i as int));
                assert(t.last() == records@[i as int]);
            }
            i = i + 1;
        }
        proof {
            assert(records@.take(n as int) =~= records@);
        }
    }
}

/// What an `Address` resolves to against a symbol table: an absolute
/// address stands for itself, a symbolic one for its binding, and an
/// unbound label resolves to nothing.
pub open spec fn spec_resolve(st: Map<Seq<char>, usize>, a: Address) -> Option<usize> {
    match a {
        Address::Absolute(n) => Some(n),
        Address::Symbolic(s) => if st.contains_key(s@) {
            Some(st[s@])
        } else {
            None
        },
    }
}

/// The label of a symbolic address; the empty sequence for an absolute one.
pub open spec fn spec_label(a: Address) -> Seq<char> {
    match a {
        Address::Symbolic(s) => s@,
        Address::Absolute(_) => Seq::empty(),
    }
}

/// The message reported when a label is unbound.
pub open spec fn unknown_symbol_message(label: Seq<char>) -> Seq<char> {
    "Unknown symbolic address `"@ + label + "`"@
}

impl Address {
    /// Resolves this address to an absolute one, or reports the unbound
    /// label.
    pub fn to_numeric(&self, symbol_table: SymbolTable) -> (r: Result<AbsoluteAddress, String>)
        ensures
            match spec_resolve(symbol_table@, *self) {
                Some(a) => r == Ok::<usize, String>(a),
                None => r matches Err(m) && m@ == unknown_symbol_message(spec_label(*self)),
            },
    {
        match self {
            Address::Absolute(address) => Ok(*address),
            Address::Symbolic(symbol) => match symbol_table.get(symbol.as_str()) {
                Some(address) => Ok(address),
                None => {
                    let mut m = String::from_str("Unknown symbolic address `");
                    m.append(symbol.as_str());
                    m.append("`");
                    Err(m)
                },
            },
        }
    }
}

} // verus!
