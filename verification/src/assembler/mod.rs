//! The assembler: the tokens of the assembly language, the parsers that read
//! them from text, and the encoder that writes an instruction as bytes.

use vstd::prelude::*;
use crate::instructions::Opcode;

pub mod instruction_parser;
pub mod number;
pub mod opcode_parser;
pub mod operand_parser;
pub mod program_parser;
pub mod register_parser;
pub mod scan;

verus! {

/// One word of an instruction.
#[derive(Debug, Clone, Copy, PartialEq, Eq, Structural)]
pub enum Token {
    /// An operation.
    Op { code: Opcode },
    /// A register, by its index.
    Register { reg_num: u8 },
    /// An integer written in the program text.
    IntegerOperand { value: i32 },
}

/// Why a text is no instruction, or no part of one.
#[derive(Debug, Clone, Copy, PartialEq, Eq, Structural)]
pub enum ParseError {
    /// The text does not start with a letter, where an operation is read.
    LetterExpected,
    /// The `$` that marks a register is missing.
    RegisterExpected,
    /// The `#` that marks an integer is missing.
    IntegerExpected,
    /// No digit follows the mark of a register or an integer.
    DigitExpected,
    /// The number of a register is above 255.
    RegisterTooLarge,
    /// An integer is above 2147483647.
    IntegerTooLarge,
    /// Something follows the instruction on its line.
    TrailingText,
}

impl ParseError {
    /// Whether the error ends the reading of an instruction for good. The
    /// others only tell a reader that tries several forms to go on to the
    /// next one.
    pub open spec fn is_final(self) -> bool {
        self == ParseError::RegisterTooLarge || self == ParseError::IntegerTooLarge
    }

    /// Whether the error ends the reading of an instruction for good.
    pub fn ends_reading(self) -> (ends: bool)
        ensures
            ends == self.is_final(),
    {
        match self {
            ParseError::RegisterTooLarge | ParseError::IntegerTooLarge => true,
            _ => false,
        }
    }
}

impl Token {
    pub fn opcode(code: Opcode) -> (token: Token)
        ensures
            token == (Token::Op { code }),
    {
        Token::Op { code }
    }

    pub fn operand(value: i32) -> (token: Token)
        ensures
            token == (Token::IntegerOperand { value }),
    {
        Token::IntegerOperand { value }
    }

    pub fn register(reg_num: u8) -> (token: Token)
        ensures
            token == (Token::Register { reg_num }),
    {
        Token::Register { reg_num }
    }
}

} // verus!
