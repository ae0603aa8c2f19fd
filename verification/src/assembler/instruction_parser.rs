//! An instruction as the assembler holds it, and its encoding.

use vstd::prelude::*;
use crate::assembler::{ParseError, Token};
use crate::assembler::opcode_parser::{opcode, opcode_syntax};
use crate::assembler::operand_parser::{integer_operand, integer_operand_syntax};
use crate::assembler::register_parser::{register, register_syntax};
use crate::assembler::scan::{after_run, skip_optional_space, CharClass};
use crate::instructions::Opcode;

verus! {

/// An instruction of the assembly language: an operation and up to three
/// operands.
#[derive(Debug, PartialEq)]
pub struct AssemblerInstruction {
    pub label: Option<String>,
    pub opcode: Token,
    pub operand1: Option<Token>,
    pub operand2: Option<Token>,
    pub operand3: Option<Token>,
}

/// Why an instruction has no encoding.
#[derive(Debug, Clone, Copy, PartialEq, Eq, Structural)]
pub enum EncodeError {
    /// The operation slot holds a register or an integer.
    OpcodeExpected,
    /// An operand slot holds an operation.
    OperandExpected,
}

/// The two bytes of an integer operand: the low 16 bits of the value, high
/// byte first. The bits above them are dropped.
pub open spec fn immediate_bytes(value: i32) -> Seq<u8> {
    let low = value as int % 0x1_0000;
    seq![(low / 256) as u8, (low % 256) as u8]
}

/// The bytes of one operand; an operation is no operand.
pub open spec fn operand_bytes(token: Token) -> Option<Seq<u8>> {
    match token {
        Token::Register { reg_num } => Some(seq![reg_num]),
        Token::IntegerOperand { value } => Some(immediate_bytes(value)),
        Token::Op { .. } => None,
    }
}

/// The bytes of one operand slot; an empty slot has none.
pub open spec fn slot_bytes(slot: Option<Token>) -> Option<Seq<u8>> {
    match slot {
        Some(token) => operand_bytes(token),
        None => Some(Seq::empty()),
    }
}

impl AssemblerInstruction {
    /// The encoding of the instruction: the byte of its operation, then the
    /// bytes of its operands in their order.
    pub open spec fn encoding(&self) -> Result<Seq<u8>, EncodeError> {
        match self.opcode {
            Token::Op { code } => match (
                slot_bytes(self.operand1),
                slot_bytes(self.operand2),
                slot_bytes(self.operand3),
            ) {
                (Some(first), Some(second), Some(third)) => Ok(
                    seq![code.encode()] + first + second + third,
                ),
                _ => Err(EncodeError::OperandExpected),
            },
            _ => Err(EncodeError::OpcodeExpected),
        }
    }

    /// Whether the operands are those that the operation's layout asks for:
    /// a register and an integer for `LOAD`, none for `HLT` and `IGL`, three
    /// registers for every other operation.
    pub open spec fn well_formed(&self) -> bool {
        match self.opcode {
            Token::Op { code } => if code == Opcode::LOAD {
                &&& self.operand1 matches Some(Token::Register { .. })
                &&& self.operand2 matches Some(Token::IntegerOperand { .. })
                &&& self.operand3.is_none()
            } else if code.takes_three_registers() {
                &&& self.operand1 matches Some(Token::Register { .. })
                &&& self.operand2 matches Some(Token::Register { .. })
                &&& self.operand3 matches Some(Token::Register { .. })
            } else {
                &&& self.operand1.is_none()
                &&& self.operand2.is_none()
                &&& self.operand3.is_none()
            },
            _ => false,
        }
    }

    /// Encodes the instruction, or says which slot holds the wrong kind of
    /// token. The operation slot is looked at first.
    pub fn to_bytes(&self) -> (bytes: Result<Vec<u8>, EncodeError>)
        ensures
            match bytes {
                Ok(encoded) => self.encoding() == Ok::<Seq<u8>, EncodeError>(encoded@),
                Err(error) => self.encoding() == Err::<Seq<u8>, EncodeError>(error),
            },
    {
        let mut results: Vec<u8> = Vec::new();
        match &self.opcode {
            Token::Op { code } => {
                results.push(code.to_byte());
            },
            _ => {
                return Err(EncodeError::OpcodeExpected);
            },
        }
        if let Some(token) = &self.operand1 {
            if let Err(error) = Self::extract_operand(token, &mut results) {
                return Err(error);
            }
        }
        if let Some(token) = &self.operand2 {
            if let Err(error) = Self::extract_operand(token, &mut results) {
                return Err(error);
            }
        }
        if let Some(token) = &self.operand3 {
            if let Err(error) = Self::extract_operand(token, &mut results) {
                return Err(error);
            }
        }
        Ok(results)
    }

    /// Appends the bytes of one operand to `results`, which stays as it is
    /// where the token is no operand.
    fn extract_operand(token: &Token, results: &mut Vec<u8>) -> (done: Result<(), EncodeError>)
        ensures
            match operand_bytes(*token) {
                Some(bytes) => done.is_ok() && final(results)@ == old(results)@ + bytes,
                None => done == Err::<(), EncodeError>(EncodeError::OperandExpected)
                    && final(results)@ == old(results)@,
            },
    {
        match token {
            Token::Register { reg_num } => {
                results.push(*reg_num);
                assert(results@ =~= old(results)@ + seq![*reg_num]);
            },
            Token::IntegerOperand { value } => {
                let converted = #[verifier::truncate] (*value as u16);
                let high = (converted >> 8) as u8;
                let low = #[verifier::truncate] (converted as u8);
                assert((*value as u16) as int == (*value as int) % 0x1_0000) by (bit_vector);
                assert((converted >> 8) == converted / 256 && (converted >> 8) < 256
                    && (converted as u8) == converted % 256) by (bit_vector);
                results.push(high);
                results.push(low);
                assert(results@ =~= old(results)@ + immediate_bytes(*value));
            },
            _ => {
                return Err(EncodeError::OperandExpected);
            },
        }
        Ok(())
    }
}

/// What reading an instruction off the front of a text gives: what follows
/// it, and the instruction.
pub type Parsed = Result<(Seq<char>, AssemblerInstruction), ParseError>;

/// The first form of an instruction: an operation, a register and an integer.
pub open spec fn instruction_one_syntax(text: Seq<char>) -> Parsed {
    match opcode_syntax(text) {
        Ok((after_opcode, o)) => match register_syntax(after_opcode) {
            Ok((after_register, r)) => match integer_operand_syntax(after_register) {
                Ok((rest, i)) => Ok(
                    (
                        rest,
                        AssemblerInstruction {
                            label: None,
                            opcode: o,
                            operand1: Some(r),
                            operand2: Some(i),
                            operand3: None,
                        },
                    ),
                ),
                Err(error) => Err(error),
            },
            Err(error) => Err(error),
        },
        Err(error) => Err(error),
    }
}

/// The second form of an instruction: an operation alone, and the white
/// space behind it.
pub open spec fn instruction_two_syntax(text: Seq<char>) -> Parsed {
    match opcode_syntax(text) {
        Ok((after_opcode, o)) => Ok(
            (
                after_run(after_opcode, CharClass::Space),
                AssemblerInstruction {
                    label: None,
                    opcode: o,
                    operand1: None,
                    operand2: None,
                    operand3: None,
                },
            ),
        ),
        Err(error) => Err(error),
    }
}

/// The third form of an instruction: an operation and three registers.
pub open spec fn instruction_three_syntax(text: Seq<char>) -> Parsed {
    match opcode_syntax(text) {
        Ok((after_opcode, o)) => match register_syntax(after_opcode) {
            Ok((after_first, r)) => match register_syntax(after_first) {
                Ok((after_second, i)) => match register_syntax(after_second) {
                    Ok((rest, j)) => Ok(
                        (
                            rest,
                            AssemblerInstruction {
                                label: None,
                                opcode: o,
                                operand1: Some(r),
                                operand2: Some(i),
                                operand3: Some(j),
                            },
                        ),
                    ),
                    Err(error) => Err(error),
                },
                Err(error) => Err(error),
            },
            Err(error) => Err(error),
        },
        Err(error) => Err(error),
    }
}

/// An instruction in the first of the three forms that the text has, tried
/// in their order. A number that is too large ends the reading at once.
pub open spec fn instruction_syntax(text: Seq<char>) -> Parsed {
    match instruction_one_syntax(text) {
        Ok(found) => Ok(found),
        Err(error) => if error.is_final() {
            Err(error)
        } else {
            match instruction_two_syntax(text) {
                Ok(found) => Ok(found),
                Err(error) => if error.is_final() {
                    Err(error)
                } else {
                    instruction_three_syntax(text)
                },
            }
        },
    }
}

/// Whether what a reader handed back is what the syntax says.
pub open spec fn reads_as<'a>(
    found: Result<(&'a str, AssemblerInstruction), ParseError>,
    syntax: Parsed,
) -> bool {
    match found {
        Ok((rest, instruction)) => syntax == Ok::<(Seq<char>, AssemblerInstruction), ParseError>(
            (rest@, instruction),
        ),
        Err(error) => syntax == Err::<(Seq<char>, AssemblerInstruction), ParseError>(error),
    }
}

/// Reads an instruction of the first form off the front of a text.
pub fn instruction_one<'a>(input: &'a str) -> (found: Result<
    (&'a str, AssemblerInstruction),
    ParseError,
>)
    ensures
        reads_as(found, instruction_one_syntax(input@)),
{
    let (input, o) = match opcode(input) {
        Ok(found) => found,
        Err(error) => {
            return Err(error);
        },
    };
    let (input, r) = match register(input) {
        Ok(found) => found,
        Err(error) => {
            return Err(error);
        },
    };
    let (input, i) = match integer_operand(input) {
        Ok(found) => found,
        Err(error) => {
            return Err(error);
        },
    };
    Ok(
        (
            input,
            AssemblerInstruction {
                label: None,
                opcode: o,
                operand1: Some(r),
                operand2: Some(i),
                operand3: None,
            },
        ),
    )
}

/// Reads an instruction of the second form off the front of a text.
pub fn instruction_two<'a>(input: &'a str) -> (found: Result<
    (&'a str, AssemblerInstruction),
    ParseError,
>)
    ensures
        reads_as(found, instruction_two_syntax(input@)),
{
    let (input, o) = match opcode(input) {
        Ok(found) => found,
        Err(error) => {
            return Err(error);
        },
    };
    let input = skip_optional_space(input);
    Ok(
        (
            input,
            AssemblerInstruction {
                label: None,
                opcode: o,
                operand1: None,
                operand2: None,
                operand3: None,
            },
        ),
    )
}

/// Reads an instruction of the third form off the front of a text.
pub fn instruction_three<'a>(input: &'a str) -> (found: Result<
    (&'a str, AssemblerInstruction),
    ParseError,
>)
    ensures
        reads_as(found, instruction_three_syntax(input@)),
{
    let (input, o) = match opcode(input) {
        Ok(found) => found,
        Err(error) => {
            return Err(error);
        },
    };
    let (input, r) = match register(input) {
        Ok(found) => found,
        Err(error) => {
            return Err(error);
        },
    };
    let (input, i) = match register(input) {
        Ok(found) => found,
        Err(error) => {
            return Err(error);
        },
    };
    let (input, j) = match register(input) {
        Ok(found) => found,
        Err(error) => {
            return Err(error);
        },
    };
    Ok(
        (
            input,
            AssemblerInstruction {
                label: None,
                opcode: o,
                operand1: Some(r),
                operand2: Some(i),
                operand3: Some(j),
            },
        ),
    )
}

/// Reads an instruction off the front of a text, in the first of the three
/// forms that fits.
pub fn instruction<'a>(input: &'a str) -> (found: Result<
    (&'a str, AssemblerInstruction),
    ParseError,
>)
    ensures
        reads_as(found, instruction_syntax(input@)),
{
    match instruction_one(input) {
        Ok(found) => {
            return Ok(found);
        },
        Err(error) => {
            if error.ends_reading() {
                return Err(error);
            }
        },
    }
    match instruction_two(input) {
        Ok(found) => {
            return Ok(found);
        },
        Err(error) => {
            if error.ends_reading() {
                return Err(error);
            }
        },
    }
    instruction_three(input)
}

} // verus!
