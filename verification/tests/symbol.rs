use caie_assembler::parser::Location;
use caie_assembler::{Address, Assembler, Instruction, Operation, SymbolTable};

#[test]
fn symbol_table() {
    let a = Assembler::from_records(vec![
        Location::new(1, "", "LDD", "2"),
        Location::new(2, "label", "", "7"),
    ])
    .unwrap();
    match a.instructions.get(&1) {
        Some(Instruction::Operation(Operation::LoadDirect(address))) => {
            assert_eq!(address.to_numeric(a.symbol_table), Ok(2));
        }
        _ => panic!(),
    };
}

#[test]
fn symbol_round_trip() {
    // Every label the build records resolves back to the address it was
    // recorded at.
    let a = Assembler::from_records(vec![
        Location::new(10, "first", "LDM", "#1"),
        Location::new(11, "second", "END", ""),
    ])
    .unwrap();
    assert_eq!(
        a.get_absolute_address(&Address::Symbolic(String::from("first"))),
        Some(10)
    );
    assert_eq!(
        a.get_absolute_address(&Address::Symbolic(String::from("second"))),
        Some(11)
    );
    assert_eq!(
        Address::Symbolic(String::from("first")).to_numeric(a.symbol_table),
        Ok(10)
    );
}

#[test]
fn unknown_symbol_message() {
    let table = SymbolTable::new();
    assert_eq!(
        Address::Symbolic(String::from("missing")).to_numeric(table),
        Err(String::from("Unknown symbolic address `missing`"))
    );
}

#[test]
fn absolute_address_resolves_to_itself() {
    let table = SymbolTable::new();
    assert_eq!(Address::Absolute(42).to_numeric(table), Ok(42));
}

#[test]
fn duplicate_label_last_record_wins() {
    let a = Assembler::from_records(vec![
        Location::new(1, "x", "LDM", "#1"),
        Location::new(2, "x", "END", ""),
    ])
    .unwrap();
    assert_eq!(a.symbol_table.get("x"), Some(2));
}

#[test]
fn empty_label_binds_nothing() {
    let a = Assembler::from_records(vec![Location::new(1, "", "LDM", "#1")]).unwrap();
    assert_eq!(a.symbol_table.get(""), None);
}

#[test]
fn symbol_insert_shadows() {
    let mut table = SymbolTable::new();
    table.insert(String::from("x"), 3);
    table.insert(String::from("y"), 4);
    table.insert(String::from("x"), 5);
    assert_eq!(table.get("x"), Some(5));
    assert_eq!(table.get("y"), Some(4));
    assert_eq!(table.get("z"), None);
}
