//! Building a program from instruction records: operand and opcode
//! parsing, the build-time error taxonomy, and `from_records`.

use vstd::prelude::*;
use vstd::string::*;
use std::collections::HashMap;

use crate::instruction::{AbsoluteAddress, Address, Assembler, Instruction, Number, Operand, Operation, Register};
use crate::symbol::SymbolTable;
use crate::text::str_eq;

verus! {

broadcast use vstd::std_specs::hash::group_hash_axioms;

/// The lexical form a numeric literal was written in: `#` decimal,
/// `B` binary, `&` hexadecimal, or no recognised prefix at all.
#[derive(Debug, Clone, Copy, PartialEq, Eq, Structural)]
pub enum NumberBase {
    Denary,
    Binary,
    Hexadecimal,
    Unprefixed,
}

/// A build-time error. Each aborts the whole build: there is no
/// partially-valid program.
#[derive(Debug, PartialEq, Eq)]
pub enum AssemblyError {
    /// The opcode field names no known opcode.
    UnknownOpcode(String),
    /// A numeric literal is malformed or does not fit the value width.
    InvalidNumberLiteral(NumberBase, String),
    /// A register operand names neither `ACC` nor `IX`.
    InvalidRegister(String),
    /// An opcode that needs an operand got none.
    TooFewOperands,
    /// An opcode that takes no operand got one.
    TooManyOperands,
}

/// The mathematical shape of an `AssemblyError`, with labels and literals
/// as character sequences.
pub enum AssemblyErrorView {
    UnknownOpcode(Seq<char>),
    InvalidNumberLiteral(NumberBase, Seq<char>),
    InvalidRegister(Seq<char>),
    TooFewOperands,
    TooManyOperands,
}

impl View for AssemblyError {
    type V = AssemblyErrorView;

    open spec fn view(&self) -> AssemblyErrorView {
        match self {
            AssemblyError::UnknownOpcode(s) => AssemblyErrorView::UnknownOpcode(s@),
            AssemblyError::InvalidNumberLiteral(b, s) => AssemblyErrorView::InvalidNumberLiteral(
                *b,
                s@,
            ),
            AssemblyError::InvalidRegister(s) => AssemblyErrorView::InvalidRegister(s@),
            AssemblyError::TooFewOperands => AssemblyErrorView::TooFewOperands,
            AssemblyError::TooManyOperands => AssemblyErrorView::TooManyOperands,
        }
    }
}

/// The human-readable message of a build-time error.
pub open spec fn spec_assembly_message(e: AssemblyErrorView) -> Seq<char> {
    match e {
        AssemblyErrorView::UnknownOpcode(s) => "Unknown opcode `"@ + s + "`"@,
        AssemblyErrorView::InvalidNumberLiteral(b, s) => match b {
            NumberBase::Denary => "Invalid denary number `"@ + s + "`"@,
            NumberBase::Binary => "Invalid binary number `"@ + s + "`"@,
            NumberBase::Hexadecimal => "Invalid hexadecimal number `"@ + s + "`"@,
            NumberBase::Unprefixed => "Invalid number `"@ + s + "`"@,
        },
        AssemblyErrorView::InvalidRegister(s) => "Invalid register `"@ + s + "`"@,
        AssemblyErrorView::TooFewOperands => "Too few operands"@,
        AssemblyErrorView::TooManyOperands => "Too many operands"@,
    }
}

impl AssemblyError {
    /// Renders the error as its human-readable message.
    pub fn message(&self) -> (r: String)
        ensures
            r@ == spec_assembly_message(self@),
    {
        match self {
            AssemblyError::UnknownOpcode(s) => {
                let mut m = String::from_str("Unknown opcode `");
                m.append(s.as_str());
                m.append("`");
                m
            },
            AssemblyError::InvalidNumberLiteral(b, s) => {
                let mut m = match b {
                    NumberBase::Denary => String::from_str("Invalid denary number `"),
                    NumberBase::Binary => String::from_str("Invalid binary number `"),
                    NumberBase::Hexadecimal => String::from_str("Invalid hexadecimal number `"),
                    NumberBase::Unprefixed => String::from_str("Invalid number `"),
                };
                m.append(s.as_str());
                m.append("`");
                m
            },
            AssemblyError::InvalidRegister(s) => {
                let mut m = String::from_str("Invalid register `");
                m.append(s.as_str());
                m.append("`");
                m
            },
            AssemblyError::TooFewOperands => String::from_str("Too few operands"),
            AssemblyError::TooManyOperands => String::from_str("Too many operands"),
        }
    }
}

/// The value of `c` as a digit in the given radix, if it is one.
/// Letter digits are accepted in either case.
pub open spec fn spec_digit_val(c: char, radix: nat) -> Option<nat> {
    let v = (c as u32) as int;
    if 48 <= v && v <= 57 && v - 48 < radix {
        Some((v - 48) as nat)
    } else if radix == 16 && 97 <= v && v <= 102 {
        Some((v - 87) as nat)
    } else if radix == 16 && 65 <= v && v <= 70 {
        Some((v - 55) as nat)
    } else {
        None
    }
}

/// The value of a digit string in the given radix; `None` when any
/// character is no digit of that radix. The empty string has value zero;
/// the parsers below reject it separately.
pub open spec fn spec_radix_val(s: Seq<char>, radix: nat) -> Option<nat>
    decreases s.len(),
{
    if s.len() == 0 {
        Some(0)
    } else {
        match (spec_radix_val(s.drop_last(), radix), spec_digit_val(s.last(), radix)) {
            (Some(v), Some(d)) => Some(v * radix + d),
            _ => None,
        }
    }
}

/// What parsing a digit string into the 8-bit value width yields: the
/// string must be non-empty, all digits, and its value must fit.
pub open spec fn spec_parse_u8_radix(s: Seq<char>, radix: nat) -> Option<u8> {
    if s.len() == 0 {
        None
    } else {
        match spec_radix_val(s, radix) {
            Some(v) => if v <= 255 {
                Some(v as u8)
            } else {
                None
            },
            None => None,
        }
    }
}

/// What parsing a bare decimal string into an absolute address yields.
pub open spec fn spec_usize_decimal(s: Seq<char>) -> Option<usize> {
    if s.len() == 0 {
        None
    } else {
        match spec_radix_val(s, 10) {
            Some(v) => if v <= usize::MAX {
                Some(v as usize)
            } else {
                None
            },
            None => None,
        }
    }
}

/// What parsing a prefixed numeric literal yields: `#` decimal,
/// `B` binary, `&` hexadecimal; anything else is rejected.
pub open spec fn spec_parse_number(s: Seq<char>) -> Result<u8, AssemblyErrorView> {
    if s.len() == 0 {
        Err(AssemblyErrorView::InvalidNumberLiteral(NumberBase::Unprefixed, s))
    } else if s[0] == '#' {
        match spec_parse_u8_radix(s.skip(1), 10) {
            Some(n) => Ok(n),
            None => Err(AssemblyErrorView::InvalidNumberLiteral(NumberBase::Denary, s.skip(1))),
        }
    } else if s[0] == 'B' {
        match spec_parse_u8_radix(s.skip(1), 2) {
            Some(n) => Ok(n),
            None => Err(AssemblyErrorView::InvalidNumberLiteral(NumberBase::Binary, s.skip(1))),
        }
    } else if s[0] == '&' {
        match spec_parse_u8_radix(s.skip(1), 16) {
            Some(n) => Ok(n),
            None => Err(
                AssemblyErrorView::InvalidNumberLiteral(NumberBase::Hexadecimal, s.skip(1)),
            ),
        }
    } else {
        Err(AssemblyErrorView::InvalidNumberLiteral(NumberBase::Unprefixed, s))
    }
}

fn digit_val(c: char, radix: u32) -> (r: Option<u32>)
    ensures
        match spec_digit_val(c, radix as nat) {
            Some(d) => r == Some(d as u32),
            None => r is None,
        },
{
    let v = c as u32;
    if 48 <= v && v <= 57 && v - 48 < radix {
        Some(v - 48)
    } else if radix == 16 && 97 <= v && v <= 102 {
        Some(v - 87)
    } else if radix == 16 && 65 <= v && v <= 70 {
        Some(v - 55)
    } else {
        None
    }
}

proof fn lemma_radix_val_invalid(s: Seq<char>, radix: nat, i: int)
    requires
        0 <= i < s.len(),
        spec_digit_val(s[i], radix) is None,
    ensures
        spec_radix_val(s, radix) is None,
    decreases s.len(),
{
    if i == s.len() - 1 {
    } else {
        assert(s.drop_last()[i] == s[i]);
        lemma_radix_val_invalid(s.drop_last(), radix, i);
    }
}

proof fn lemma_radix_val_lower_bound(s: Seq<char>, radix: nat, i: int, v: nat)
    requires
        1 <= radix,
        0 <= i <= s.len(),
        spec_radix_val(s.take(i), radix) == Some(v),
    ensures
        match spec_radix_val(s, radix) {
            Some(w) => w >= v,
            None => true,
        },
    decreases s.len() - i,
{
    if i == s.len() {
        assert(s.take(i) =~= s);
    } else {
        let t = s.take(i + 1);
        assert(t.drop_last() =~= s.take(i));
        assert(t.last() == s[i]);
        match spec_digit_val(s[i], radix) {
            None => {
                lemma_radix_val_invalid(s, radix, i);
            },
            Some(d) => {
                assert(v * radix >= v * 1) by (nonlinear_arith)
                    requires
                        radix >= 1,
                        v >= 0,
                ;
                lemma_radix_val_lower_bound(s, radix, i + 1, v * radix + d);
            },
        }
    }
}

/// Parses a non-empty all-digit string in the given radix into the 8-bit
/// value width.
fn parse_digits_u8(s: &str, radix: u32) -> (r: Option<u8>)
    requires
        radix == 2 || radix == 10 || radix == 16,
    ensures
        r == spec_parse_u8_radix(s@, radix as nat),
{
    let len = s.unicode_len();
    if len == 0 {
        return None;
    }
    let mut acc: u32 = 0;
    let mut i: usize = 0;
    while i < len
        invariant
            radix == 2 || radix == 10 || radix == 16,
            0 <= i <= len,
            len == s@.len(),
            acc <= 255,
            spec_radix_val(s@.take(i as int), radix as nat) == Some(acc as nat),
        decreases len - i,
    {
        let c = s.get_char(i);
        proof {
            let t = s@.take(i + 1);
            assert(t.drop_last() =~= s@.take(i as int));
            assert(t.last() == s@[i as int]);
        }
        match digit_val(c, radix) {
            None => {
                proof {
                    lemma_radix_val_invalid(s@, radix as nat, i as int);
                }
                return None;
            },
            Some(d) => {
                acc = acc * radix + d;
                if acc > 255 {
                    proof {
                        lemma_radix_val_lower_bound(s@, radix as nat, i + 1, acc as nat);
                    }
                    return None;
                }
            },
        }
        i = i + 1;
    }
    proof {
        assert(s@.take(len as int) =~= s@);
    }
    Some(acc as u8)
}

/// Parses a non-empty all-digit decimal string into an absolute address.
fn parse_usize_decimal(s: &str) -> (r: Option<usize>)
    ensures
        r == spec_usize_decimal(s@),
{
    let len = s.unicode_len();
    if len == 0 {
        return None;
    }
    let mut acc: u128 = 0;
    let mut i: usize = 0;
    while i < len
        invariant
            0 <= i <= len,
            len == s@.len(),
            acc <= usize::MAX as u128,
            spec_radix_val(s@.take(i as int), 10) == Some(acc as nat),
        decreases len - i,
    {
        let c = s.get_char(i);
        proof {
            let t = s@.take(i + 1);
            assert(t.drop_last() =~= s@.take(i as int));
            assert(t.last() == s@[i as int]);
        }
        match digit_val(c, 10) {
            None => {
                proof {
                    lemma_radix_val_invalid(s@, 10, i as int);
                }
                return None;
            },
            Some(d) => {
                acc = acc * 10 + (d as u128);
                if acc > usize::MAX as u128 {
                    proof {
                        lemma_radix_val_lower_bound(s@, 10, i + 1, acc as nat);
                    }
                    return None;
                }
            },
        }
        i = i + 1;
    }
    proof {
        assert(s@.take(len as int) =~= s@);
    }
    Some(acc as usize)
}

/// Parses a prefixed numeric literal: `#` decimal, `B` binary,
/// `&` hexadecimal.
pub fn parse_number(s: &str) -> (r: Result<Number, AssemblyError>)
    ensures
        match spec_parse_number(s@) {
            Ok(n) => r == Ok::<u8, AssemblyError>(n),
            Err(se) => r matches Err(e) && e@ == se,
        },
{
    let len = s.unicode_len();
    if len == 0 {
        return Err(AssemblyError::InvalidNumberLiteral(
            NumberBase::Unprefixed,
            String::from_str(s),
        ));
    }
    let prefix = s.get_char(0);
    let digits = s.substring_char(1, len);
    proof {
        assert(digits@ =~= s@.skip(1));
    }
    if prefix == '#' {
        match parse_digits_u8(digits, 10) {
            Some(n) => Ok(n),
            None => Err(AssemblyError::InvalidNumberLiteral(
                NumberBase::Denary,
                String::from_str(digits),
            )),
        }
    } else if prefix == 'B' {
        match parse_digits_u8(digits, 2) {
            Some(n) => Ok(n),
            None => Err(AssemblyError::InvalidNumberLiteral(
                NumberBase::Binary,
                String::from_str(digits),
            )),
        }
    } else if prefix == '&' {
        match parse_digits_u8(digits, 16) {
            Some(n) => Ok(n),
            None => Err(AssemblyError::InvalidNumberLiteral(
                NumberBase::Hexadecimal,
                String::from_str(digits),
            )),
        }
    } else {
        Err(AssemblyError::InvalidNumberLiteral(NumberBase::Unprefixed, String::from_str(s)))
    }
}

/// How an operand string reads as an address: a bare decimal integer is
/// an absolute address, anything else a label reference.
pub open spec fn parsed_address(s: Seq<char>, a: Address) -> bool {
    match spec_usize_decimal(s) {
        Some(v) => a == Address::Absolute(v),
        None => a matches Address::Symbolic(t) && t@ == s,
    }
}

impl Address {
    /// Reads an operand string as an address.
    pub fn parse(s: &str) -> (r: Address)
        ensures
            parsed_address(s@, r),
    {
        match parse_usize_decimal(s) {
            Some(address) => Address::Absolute(address),
            None => Address::Symbolic(String::from_str(s)),
        }
    }
}

/// How an operand string reads as a literal-or-address operand: a
/// prefixed numeric literal is a number, anything else an address.
pub open spec fn parsed_operand(s: Seq<char>, o: Operand) -> bool {
    match spec_parse_number(s) {
        Ok(n) => o == Operand::Number(n),
        Err(_) => o matches Operand::Address(a) && parsed_address(s, a),
    }
}

impl Operand {
    /// Reads an operand string as a numeric literal or an address.
    pub fn parse(s: &str) -> (r: Operand)
        ensures
            parsed_operand(s@, r),
    {
        match parse_number(s) {
            Ok(number) => Operand::Number(number),
            Err(_) => Operand::Address(Address::parse(s)),
        }
    }
}

/// What parsing a register name yields.
pub open spec fn spec_parse_register(s: Seq<char>) -> Result<Register, AssemblyErrorView> {
    if s == "ACC"@ {
        Ok(Register::ACC)
    } else if s == "IX"@ {
        Ok(Register::IX)
    } else {
        Err(AssemblyErrorView::InvalidRegister(s))
    }
}

impl Register {
    /// Reads an operand string as a register name.
    pub fn parse(s: &str) -> (r: Result<Register, AssemblyError>)
        ensures
            match spec_parse_register(s@) {
                Ok(rg) => r == Ok::<Register, AssemblyError>(rg),
                Err(se) => r matches Err(e) && e@ == se,
            },
    {
        if str_eq(s, "ACC") {
            Ok(Register::ACC)
        } else if str_eq(s, "IX") {
            Ok(Register::IX)
        } else {
            Err(AssemblyError::InvalidRegister(String::from_str(s)))
        }
    }
}

/// The error, if any, in a mandatory numeric-literal operand.
pub open spec fn number_operand_err(s: Seq<char>) -> Option<AssemblyErrorView> {
    if s.len() == 0 {
        Some(AssemblyErrorView::TooFewOperands)
    } else {
        match spec_parse_number(s) {
            Ok(_) => None,
            Err(e) => Some(e),
        }
    }
}

/// The error, if any, in a mandatory register operand.
pub open spec fn register_operand_err(s: Seq<char>) -> Option<AssemblyErrorView> {
    if s.len() == 0 {
        Some(AssemblyErrorView::TooFewOperands)
    } else {
        match spec_parse_register(s) {
            Ok(_) => None,
            Err(e) => Some(e),
        }
    }
}

/// The error, if any, in a mandatory address or literal-or-address
/// operand; any non-empty string reads as one.
pub open spec fn address_operand_err(s: Seq<char>) -> Option<AssemblyErrorView> {
    if s.len() == 0 {
        Some(AssemblyErrorView::TooFewOperands)
    } else {
        None
    }
}

/// The error, if any, for an opcode that takes no operand.
pub open spec fn no_operand_err(s: Seq<char>) -> Option<AssemblyErrorView> {
    if s.len() > 0 {
        Some(AssemblyErrorView::TooManyOperands)
    } else {
        None
    }
}

/// The error, if any, in an opcode/operand pair: an unknown opcode, a
/// missing or surplus operand, or a malformed operand.
pub open spec fn spec_parse_operation_err(opcode: Seq<char>, operand: Seq<char>) -> Option<
    AssemblyErrorView,
> {
    if opcode == "LDM"@ {
        number_operand_err(operand)
    } else if opcode == "LDD"@ {
        address_operand_err(operand)
    } else if opcode == "LDI"@ {
        address_operand_err(operand)
    } else if opcode == "LDX"@ {
        address_operand_err(operand)
    } else if opcode == "LDR"@ {
        number_operand_err(operand)
    } else if opcode == "MOV"@ {
        register_operand_err(operand)
    } else if opcode == "STO"@ {
        address_operand_err(operand)
    } else if opcode == "ADD"@ {
        address_operand_err(operand)
    } else if opcode == "SUB"@ {
        address_operand_err(operand)
    } else if opcode == "INC"@ {
        register_operand_err(operand)
    } else if opcode == "DEC"@ {
        register_operand_err(operand)
    } else if opcode == "JMP"@ {
        address_operand_err(operand)
    } else if opcode == "CMP"@ {
        address_operand_err(operand)
    } else if opcode == "CMI"@ {
        address_operand_err(operand)
    } else if opcode == "JPE"@ {
        address_operand_err(operand)
    } else if opcode == "JPN"@ {
        address_operand_err(operand)
    } else if opcode == "IN"@ {
        no_operand_err(operand)
    } else if opcode == "OUT"@ {
        no_operand_err(operand)
    } else if opcode == "END"@ {
        no_operand_err(operand)
    } else {
        Some(AssemblyErrorView::UnknownOpcode(opcode))
    }
}

/// How a successfully parsed opcode/operand pair and the resulting
/// operation relate.
pub open spec fn operation_parse_ok(opcode: Seq<char>, operand: Seq<char>, op: Operation) -> bool {
    if opcode == "LDM"@ {
        spec_parse_number(operand) matches Ok(n) && op == Operation::LoadImmediate(n)
    } else if opcode == "LDD"@ {
        op matches Operation::LoadDirect(a) && parsed_address(operand, a)
    } else if opcode == "LDI"@ {
        op matches Operation::LoadIndirect(a) && parsed_address(operand, a)
    } else if opcode == "LDX"@ {
        op matches Operation::LoadIndexed(a) && parsed_address(operand, a)
    } else if opcode == "LDR"@ {
        spec_parse_number(operand) matches Ok(n) && op == Operation::LoadRegister(n)
    } else if opcode == "MOV"@ {
        spec_parse_register(operand) matches Ok(rg) && op == Operation::Move(rg)
    } else if opcode == "STO"@ {
        op matches Operation::Store(a) && parsed_address(operand, a)
    } else if opcode == "ADD"@ {
        match spec_parse_number(operand) {
            Ok(n) => op == Operation::AddImmediate(n),
            Err(_) => op matches Operation::AddDirect(a) && parsed_address(operand, a),
        }
    } else if opcode == "SUB"@ {
        match spec_parse_number(operand) {
            Ok(n) => op == Operation::SubtractImmediate(n),
            Err(_) => op matches Operation::SubtractDirect(a) && parsed_address(operand, a),
        }
    } else if opcode == "INC"@ {
        spec_parse_register(operand) matches Ok(rg) && op == Operation::Increase(rg)
    } else if opcode == "DEC"@ {
        spec_parse_register(operand) matches Ok(rg) && op == Operation::Decrease(rg)
    } else if opcode == "JMP"@ {
        op matches Operation::Jump(a) && parsed_address(operand, a)
    } else if opcode == "CMP"@ {
        match spec_parse_number(operand) {
            Ok(n) => op == Operation::CompareImmediate(n),
            Err(_) => op matches Operation::CompareDirect(a) && parsed_address(operand, a),
        }
    } else if opcode == "CMI"@ {
        op matches Operation::CompareIndirect(a) && parsed_address(operand, a)
    } else if opcode == "JPE"@ {
        op matches Operation::JumpEqual(a) && parsed_address(operand, a)
    } else if opcode == "JPN"@ {
        op matches Operation::JumpNotEqual(a) && parsed_address(operand, a)
    } else if opcode == "IN"@ {
        op == Operation::Input
    } else if opcode == "OUT"@ {
        op == Operation::Output
    } else if opcode == "END"@ {
        op == Operation::End
    } else {
        false
    }
}

fn require_operand(operand: &str) -> (r: Result<(), AssemblyError>)
    ensures
        r is Ok <==> operand@.len() > 0,
        operand@.len() == 0 ==> r == Err::<(), AssemblyError>(AssemblyError::TooFewOperands),
{
    if operand.unicode_len() == 0 {
        Err(AssemblyError::TooFewOperands)
    } else {
        Ok(())
    }
}

fn number_operand(operand: &str) -> (r: Result<u8, AssemblyError>)
    ensures
        match number_operand_err(operand@) {
            None => r matches Ok(n) && spec_parse_number(operand@) == Ok::<
                u8,
                AssemblyErrorView,
            >(n),
            Some(se) => r matches Err(e) && e@ == se,
        },
{
    match require_operand(operand) {
        Ok(_) => parse_number(operand),
        Err(e) => Err(e),
    }
}

fn register_operand(operand: &str) -> (r: Result<Register, AssemblyError>)
    ensures
        match register_operand_err(operand@) {
            None => r matches Ok(rg) && spec_parse_register(operand@) == Ok::<
                Register,
                AssemblyErrorView,
            >(rg),
            Some(se) => r matches Err(e) && e@ == se,
        },
{
    match require_operand(operand) {
        Ok(_) => Register::parse(operand),
        Err(e) => Err(e),
    }
}

fn address_operand(operand: &str) -> (r: Result<Address, AssemblyError>)
    ensures
        match address_operand_err(operand@) {
            None => r matches Ok(a) && parsed_address(operand@, a),
            Some(se) => r matches Err(e) && e@ == se,
        },
{
    match require_operand(operand) {
        Ok(_) => Ok(Address::parse(operand)),
        Err(e) => Err(e),
    }
}

fn value_operand(operand: &str) -> (r: Result<Operand, AssemblyError>)
    ensures
        match address_operand_err(operand@) {
            None => r matches Ok(o) && parsed_operand(operand@, o),
            Some(se) => r matches Err(e) && e@ == se,
        },
{
    match require_operand(operand) {
        Ok(_) => Ok(Operand::parse(operand)),
        Err(e) => Err(e),
    }
}

fn no_operand(operand: &str, op: Operation) -> (r: Result<Operation, AssemblyError>)
    ensures
        match no_operand_err(operand@) {
            None => r == Ok::<Operation, AssemblyError>(op),
            Some(se) => r matches Err(e) && e@ == se,
        },
{
    if operand.unicode_len() > 0 {
        Err(AssemblyError::TooManyOperands)
    } else {
        Ok(op)
    }
}

impl Operation {
    /// Decodes an opcode name and its operand string into an operation.
    pub fn parse(opcode: &str, operand: &str) -> (r: Result<Operation, AssemblyError>)
        ensures
            match r {
                Ok(op) => spec_parse_operation_err(opcode@, operand@) is None
                    && operation_parse_ok(opcode@, operand@, op),
                Err(e) => spec_parse_operation_err(opcode@, operand@) matches Some(se) && e@
                    == se,
            },
    {
        if str_eq(opcode, "LDM") {
            match number_operand(operand) {
                Ok(n) => Ok(Operation::LoadImmediate(n)),
                Err(e) => Err(e),
            }
        } else if str_eq(opcode, "LDD") {
            match address_operand(operand) {
                Ok(a) => Ok(Operation::LoadDirect(a)),
                Err(e) => Err(e),
            }
        } else if str_eq(opcode, "LDI") {
            match address_operand(operand) {
                Ok(a) => Ok(Operation::LoadIndirect(a)),
                Err(e) => Err(e),
            }
        } else if str_eq(opcode, "LDX") {
            match address_operand(operand) {
                Ok(a) => Ok(Operation::LoadIndexed(a)),
                Err(e) => Err(e),
            }
        } else if str_eq(opcode, "LDR") {
            match number_operand(operand) {
                Ok(n) => Ok(Operation::LoadRegister(n)),
                Err(e) => Err(e),
            }
        } else if str_eq(opcode, "MOV") {
            match register_operand(operand) {
                Ok(rg) => Ok(Operation::Move(rg)),
                Err(e) => Err(e),
            }
        } else if str_eq(opcode, "STO") {
            match address_operand(operand) {
                Ok(a) => Ok(Operation::Store(a)),
                Err(e) => Err(e),
            }
        } else if str_eq(opcode, "ADD") {
            match value_operand(operand) {
                Ok(Operand::Number(n)) => Ok(Operation::AddImmediate(n)),
                Ok(Operand::Address(a)) => Ok(Operation::AddDirect(a)),
                Err(e) => Err(e),
            }
        } else if str_eq(opcode, "SUB") {
            match value_operand(operand) {
                Ok(Operand::Number(n)) => Ok(Operation::SubtractImmediate(n)),
                Ok(Operand::Address(a)) => Ok(Operation::SubtractDirect(a)),
                Err(e) => Err(e),
            }
        } else if str_eq(opcode, "INC") {
            match register_operand(operand) {
                Ok(rg) => Ok(Operation::Increase(rg)),
                Err(e) => Err(e),
            }
        } else if str_eq(opcode, "DEC") {
            match register_operand(operand) {
                Ok(rg) => Ok(Operation::Decrease(rg)),
                Err(e) => Err(e),
            }
        } else if str_eq(opcode, "JMP") {
            match address_operand(operand) {
                Ok(a) => Ok(Operation::Jump(a)),
                Err(e) => Err(e),
            }
        } else if str_eq(opcode, "CMP") {
            match value_operand(operand) {
                Ok(Operand::Number(n)) => Ok(Operation::CompareImmediate(n)),
                Ok(Operand::Address(a)) => Ok(Operation::CompareDirect(a)),
                Err(e) => Err(e),
            }
        } else if str_eq(opcode, "CMI") {
            match address_operand(operand) {
                Ok(a) => Ok(Operation::CompareIndirect(a)),
                Err(e) => Err(e),
            }
        } else if str_eq(opcode, "JPE") {
            match address_operand(operand) {
                Ok(a) => Ok(Operation::JumpEqual(a)),
                Err(e) => Err(e),
            }
        } else if str_eq(opcode, "JPN") {
            match address_operand(operand) {
                Ok(a) => Ok(Operation::JumpNotEqual(a)),
                Err(e) => Err(e),
            }
        } else if str_eq(opcode, "IN") {
            no_operand(operand, Operation::Input)
        } else if str_eq(opcode, "OUT") {
            no_operand(operand, Operation::Output)
        } else if str_eq(opcode, "END") {
            no_operand(operand, Operation::End)
        } else {
            Err(AssemblyError::UnknownOpcode(String::from_str(opcode)))
        }
    }
}

/// The error, if any, in one instruction record: an empty opcode field
/// makes the record a raw data cell, whose operand must read as a bare
/// decimal value or a prefixed numeric literal.
pub open spec fn cell_parse_err(opcode: Seq<char>, operand: Seq<char>) -> Option<
    AssemblyErrorView,
> {
    if opcode.len() == 0 {
        match spec_u8_decimal(operand) {
            Some(_) => None,
            None => match spec_parse_number(operand) {
                Ok(_) => None,
                Err(e) => Some(e),
            },
        }
    } else {
        spec_parse_operation_err(opcode, operand)
    }
}

/// What parsing a bare decimal string into the 8-bit value width yields.
pub open spec fn spec_u8_decimal(s: Seq<char>) -> Option<u8> {
    spec_parse_u8_radix(s, 10)
}

/// How a successfully parsed record and the resulting memory cell relate.
pub open spec fn cell_parse_ok(opcode: Seq<char>, operand: Seq<char>, c: Instruction) -> bool {
    if opcode.len() == 0 {
        match spec_u8_decimal(operand) {
            Some(n) => c == Instruction::Data(n),
            None => spec_parse_number(operand) matches Ok(n) && c == Instruction::Data(n),
        }
    } else {
        c matches Instruction::Operation(op) && operation_parse_ok(opcode, operand, op)
    }
}

/// One instruction record as the loader hands it over: an absolute
/// address, an optional label (the empty string means none), an opcode
/// name (the empty string makes the record a raw data cell), and an
/// operand string.
#[derive(Debug, PartialEq, Eq)]
pub struct Location {
    pub address: AbsoluteAddress,
    pub label: String,
    pub opcode: String,
    pub operand: String,
}

impl Location {
    /// Builds a record from borrowed field values.
    pub fn new(address: AbsoluteAddress, label: &str, opcode: &str, operand: &str) -> (r: Location)
        ensures
            r.address == address,
            r.label@ == label@,
            r.opcode@ == opcode@,
            r.operand@ == operand@,
    {
        Location {
            address,
            label: String::from_str(label),
            opcode: String::from_str(opcode),
            operand: String::from_str(operand),
        }
    }
}

/// The label bindings a record sequence adds to a base table: one binding
/// per labelled record, later records shadowing earlier ones.
pub open spec fn symbols_of_from(
    records: Seq<Location>,
    base: Map<Seq<char>, usize>,
) -> Map<Seq<char>, usize>
    decreases records.len(),
{
    if records.len() == 0 {
        base
    } else {
        let prior = symbols_of_from(records.drop_last(), base);
        let last = records.last();
        if last.label@.len() == 0 {
            prior
        } else {
            prior.insert(last.label@, last.address)
        }
    }
}

/// The symbol table a record sequence builds.
pub open spec fn symbols_of(records: Seq<Location>) -> Map<Seq<char>, usize> {
    symbols_of_from(records, Map::empty())
}

/// The last record assembled at a given address, if any: with duplicate
/// addresses the last write wins.
pub open spec fn latest_record_at(records: Seq<Location>, addr: usize) -> Option<Location>
    decreases records.len(),
{
    if records.len() == 0 {
        None
    } else if records.last().address == addr {
        Some(records.last())
    } else {
        latest_record_at(records.drop_last(), addr)
    }
}

/// Every record up to (excluding) index `n` decodes without error.
pub open spec fn records_valid_to(records: Seq<Location>, n: int) -> bool {
    forall|i: int|
        0 <= i < n ==> #[trigger] cell_parse_err(records[i].opcode@, records[i].operand@) is None
}

/// The memory map `m` holds exactly the cells the records describe: one
/// cell per recorded address, decoded from the last record at it.
pub open spec fn cells_built(records: Seq<Location>, m: Map<usize, Instruction>) -> bool {
    forall|addr: usize|
        match #[trigger] latest_record_at(records, addr) {
            Some(rec) => m.contains_key(addr) && cell_parse_ok(rec.opcode@, rec.operand@, m[addr]),
            None => !m.contains_key(addr),
        }
}

impl Assembler {
    /// Builds a program from an ordered sequence of instruction records:
    /// decodes every record into a memory cell, then builds the symbol
    /// table in one pass. The first invalid record aborts the whole
    /// build.
    pub fn from_records(records: Vec<Location>) -> (r: Result<Assembler, AssemblyError>)
        ensures
            match r {
                Ok(prog) => records_valid_to(records@, records@.len() as int) && cells_built(
                    records@,
                    prog.mem(),
                ) && prog.symbols() == symbols_of(records@),
                Err(e) => exists|k: int|
                    0 <= k < records@.len() && records_valid_to(records@, k) && ((
                    #[trigger] cell_parse_err(records@[k].opcode@, records@[k].operand@))
                        matches Some(se) && e@ == se),
            },
    {
        let mut instructions: HashMap<usize, Instruction> = HashMap::new();
        let n = records.len();
        let mut i: usize = 0;
        while i < n
            invariant
                0 <= i <= n,
                n == records@.len(),
                records_valid_to(records@, i as int),
                cells_built(records@.take(i as int), instructions@),
            decreases n - i,
        {
            let rec = &records[i];
            let cell = match Instruction::from(rec.opcode.as_str(), rec.operand.as_str()) {
                Ok(c) => c,
                Err(e) => {
                    return Err(e);
                },
            };
            instructions.insert(rec.address, cell);
            proof {
                let t = records@.take(i + 1);
                assert(t.drop_last() =~= records@.take(i as int));
                assert(t.last() == records@[i as int]);
                assert forall|addr: usize|
                    match #[trigger] latest_record_at(t, addr) {
                        Some(r2) => instructions@.contains_key(addr) && cell_parse_ok(
                            r2.opcode@,
                            r2.operand@,
                            instructions@[addr],
                        ),
                        None => !instructions@.contains_key(addr),
                    } by {
                    if addr != records@[i as int].address {
                        assert(latest_record_at(t, addr) == latest_record_at(
                            records@.take(i as int),
                            addr,
                        ));
                    }
                }
            }
            i = i + 1;
        }
        proof {
            assert(records@.take(n as int) =~= records@);
        }
        let mut prog = Assembler { instructions, symbol_table: SymbolTable::new() };
        prog.generate_symbol_table(&records);
        Ok(prog)
    }
}

impl Instruction {
    /// Decodes one record's opcode and operand fields into a memory cell:
    /// an empty opcode field yields a raw data cell.
    pub fn from(opcode: &str, operand: &str) -> (r: Result<Instruction, AssemblyError>)
        ensures
            match r {
                Ok(c) => cell_parse_err(opcode@, operand@) is None && cell_parse_ok(
                    opcode@,
                    operand@,
                    c,
                ),
                Err(e) => cell_parse_err(opcode@, operand@) matches Some(se) && e@ == se,
            },
    {
        if opcode.unicode_len() == 0 {
            match parse_digits_u8(operand, 10) {
                Some(n) => Ok(Instruction::Data(n)),
                None => match parse_number(operand) {
                    Ok(n) => Ok(Instruction::Data(n)),
                    Err(e) => Err(e),
                },
            }
        } else {
            match Operation::parse(opcode, operand) {
                Ok(op) => Ok(Instruction::Operation(op)),
                Err(e) => Err(e),
            }
        }
    }
}

} // verus!
