use caie_assembler::parser::{parse_number, AssemblyError, Location, NumberBase};
use caie_assembler::{Address, Assembler, Instruction, Operand, Operation, Register};

#[test]
fn parse_ldm() {
    let a = Assembler::from_records(vec![Location::new(0, "L", "LDM", "&FF")]).unwrap();
    assert_eq!(
        a.instructions.get(&0),
        Some(&Instruction::Operation(Operation::LoadImmediate(255)))
    );
    assert_eq!(a.symbol_table.get("L"), Some(0));
}

#[test]
fn parse_ldr() {
    let err = Instruction::from("LDR", "B2").unwrap_err();
    assert_eq!(
        err,
        AssemblyError::InvalidNumberLiteral(NumberBase::Binary, String::from("2"))
    );
    assert_eq!(err.message(), String::from("Invalid binary number `2`"));
}

#[test]
fn parse_unknown() {
    let err = Instruction::from("UNKNOWN", "").unwrap_err();
    assert_eq!(err, AssemblyError::UnknownOpcode(String::from("UNKNOWN")));
    assert_eq!(err.message(), String::from("Unknown opcode `UNKNOWN`"));
}

#[test]
fn number_literal_forms() {
    assert_eq!(parse_number("#42"), Ok(42));
    assert_eq!(parse_number("#0"), Ok(0));
    assert_eq!(parse_number("B101"), Ok(5));
    assert_eq!(parse_number("&FF"), Ok(255));
    assert_eq!(parse_number("&7f"), Ok(127));
    assert_eq!(parse_number("#255"), Ok(255));
}

#[test]
fn number_literal_errors() {
    assert_eq!(
        parse_number("#F").unwrap_err().message(),
        String::from("Invalid denary number `F`")
    );
    assert_eq!(
        parse_number("#256").unwrap_err().message(),
        String::from("Invalid denary number `256`")
    );
    assert_eq!(
        parse_number("&G").unwrap_err().message(),
        String::from("Invalid hexadecimal number `G`")
    );
    assert_eq!(
        parse_number("B").unwrap_err().message(),
        String::from("Invalid binary number ``")
    );
    assert_eq!(
        parse_number("z9").unwrap_err().message(),
        String::from("Invalid number `z9`")
    );
    assert_eq!(
        parse_number("").unwrap_err().message(),
        String::from("Invalid number ``")
    );
}

#[test]
fn address_forms() {
    assert_eq!(Address::parse("365"), Address::Absolute(365));
    assert_eq!(Address::parse("loop"), Address::Symbolic(String::from("loop")));
    // An out-of-range numeral is not an absolute address, so it reads as a label.
    assert_eq!(
        Address::parse("99999999999999999999999999"),
        Address::Symbolic(String::from("99999999999999999999999999"))
    );
}

#[test]
fn operand_forms() {
    assert_eq!(Operand::parse("#7"), Operand::Number(7));
    assert_eq!(Operand::parse("12"), Operand::Address(Address::Absolute(12)));
    assert_eq!(
        Operand::parse("total"),
        Operand::Address(Address::Symbolic(String::from("total")))
    );
}

#[test]
fn register_names() {
    assert_eq!(Register::parse("ACC"), Ok(Register::ACC));
    assert_eq!(Register::parse("IX"), Ok(Register::IX));
    let err = Register::parse("XY").unwrap_err();
    assert_eq!(err, AssemblyError::InvalidRegister(String::from("XY")));
    assert_eq!(err.message(), String::from("Invalid register `XY`"));
}

#[test]
fn operand_arity() {
    assert_eq!(Operation::parse("LDD", ""), Err(AssemblyError::TooFewOperands));
    assert_eq!(
        AssemblyError::TooFewOperands.message(),
        String::from("Too few operands")
    );
    assert_eq!(Operation::parse("END", "5"), Err(AssemblyError::TooManyOperands));
    assert_eq!(
        AssemblyError::TooManyOperands.message(),
        String::from("Too many operands")
    );
    assert_eq!(Operation::parse("OUT", ""), Ok(Operation::Output));
}

#[test]
fn operand_split_by_kind() {
    assert_eq!(Operation::parse("ADD", "#5"), Ok(Operation::AddImmediate(5)));
    assert_eq!(
        Operation::parse("ADD", "20"),
        Ok(Operation::AddDirect(Address::Absolute(20)))
    );
    assert_eq!(Operation::parse("SUB", "#1"), Ok(Operation::SubtractImmediate(1)));
    assert_eq!(
        Operation::parse("CMP", "total"),
        Ok(Operation::CompareDirect(Address::Symbolic(String::from("total"))))
    );
    assert_eq!(Operation::parse("CMP", "#3"), Ok(Operation::CompareImmediate(3)));
    assert_eq!(
        Operation::parse("JPN", "8"),
        Ok(Operation::JumpNotEqual(Address::Absolute(8)))
    );
    assert_eq!(Operation::parse("MOV", "IX"), Ok(Operation::Move(Register::IX)));
    assert_eq!(Operation::parse("IN", ""), Ok(Operation::Input));
}

#[test]
fn data_cells() {
    assert_eq!(Instruction::from("", "7"), Ok(Instruction::Data(7)));
    assert_eq!(Instruction::from("", "#7"), Ok(Instruction::Data(7)));
    assert_eq!(Instruction::from("", "&10"), Ok(Instruction::Data(16)));
    // A bare value past the 8-bit width is no data cell.
    assert_eq!(
        Instruction::from("", "365").unwrap_err().message(),
        String::from("Invalid number `365`")
    );
}

#[test]
fn build_stops_at_first_invalid_record() {
    let err = Assembler::from_records(vec![
        Location::new(0, "", "LDM", "#1"),
        Location::new(1, "", "NOP", ""),
        Location::new(2, "", "LDR", "B9"),
    ])
    .unwrap_err();
    assert_eq!(err, AssemblyError::UnknownOpcode(String::from("NOP")));
}

#[test]
fn build_last_record_wins_per_address() {
    let a = Assembler::from_records(vec![
        Location::new(4, "", "LDM", "#1"),
        Location::new(4, "", "", "9"),
    ])
    .unwrap();
    assert_eq!(a.instructions.get(&4), Some(&Instruction::Data(9)));
}
