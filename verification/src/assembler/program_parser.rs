//! A line of program text: one instruction, in the form that its operation
//! asks for, and nothing behind it.

use vstd::prelude::*;
use vstd::pervasive::unreached;
use crate::assembler::{ParseError, Token};
use crate::assembler::instruction_parser::{
    instruction_one, instruction_one_syntax, instruction_three, instruction_three_syntax,
    instruction_two, instruction_two_syntax, AssemblerInstruction, Parsed,
};
use crate::assembler::opcode_parser::{mnemonic, mnemonic_syntax};
use crate::instructions::Opcode;

verus! {

/// The instruction at the front of a text, in the form that goes with the
/// operation it starts with: a register and an integer behind `load`, three
/// registers behind every other operation with operands, nothing behind
/// `hlt` or a word that names no operation.
pub open spec fn formed_instruction_syntax(text: Seq<char>) -> Parsed {
    match mnemonic_syntax(text) {
        Ok((_, code)) => if code == Opcode::LOAD {
            instruction_one_syntax(text)
        } else if code.takes_three_registers() {
            instruction_three_syntax(text)
        } else {
            instruction_two_syntax(text)
        },
        Err(error) => Err(error),
    }
}

/// The instruction that a line holds: the one at its front, where nothing
/// follows it.
pub open spec fn program_syntax(text: Seq<char>) -> Result<AssemblerInstruction, ParseError> {
    match formed_instruction_syntax(text) {
        Ok((rest, instruction)) => if rest.len() == 0 {
            Ok(instruction)
        } else {
            Err(ParseError::TrailingText)
        },
        Err(error) => Err(error),
    }
}

/// Reads a line as one instruction.
pub fn program(input: &str) -> (found: Result<AssemblerInstruction, ParseError>)
    ensures
        found == program_syntax(input@),
{
    let code = match mnemonic(input) {
        Ok((_, code)) => code,
        Err(error) => {
            return Err(error);
        },
    };
    let formed = match code {
        Opcode::LOAD => instruction_one(input),
        Opcode::HLT | Opcode::IGL => instruction_two(input),
        _ => instruction_three(input),
    };
    match formed {
        Ok((rest, instruction)) => {
            if rest.unicode_len() == 0 {
                Ok(instruction)
            } else {
                Err(ParseError::TrailingText)
            }
        },
        Err(error) => Err(error),
    }
}

/// The bytes that a line of program text is assembled to: the encoding of the
/// instruction that it holds.
pub open spec fn assembly(text: Seq<char>) -> Result<Seq<u8>, ParseError> {
    match program_syntax(text) {
        Ok(instruction) => Ok(instruction.encoding().unwrap()),
        Err(error) => Err(error),
    }
}

/// Assembles a line of program text. An instruction that was read from a
/// line always has an encoding, so the only errors are those of reading.
pub fn assemble(input: &str) -> (bytes: Result<Vec<u8>, ParseError>)
    ensures
        match bytes {
            Ok(encoded) => assembly(input@) == Ok::<Seq<u8>, ParseError>(encoded@),
            Err(error) => assembly(input@) == Err::<Seq<u8>, ParseError>(error),
        },
{
    match program(input) {
        Ok(instruction) => {
            proof {
                lemma_program_is_well_formed(input@);
            }
            match instruction.to_bytes() {
                Ok(encoded) => Ok(encoded),
                Err(_) => unreached(),
            }
        },
        Err(error) => Err(error),
    }
}

/// Every instruction that a line is read as has the operands that its
/// operation asks for, and so has an encoding of the length that the engine
/// takes it to have.
pub proof fn lemma_program_is_well_formed(text: Seq<char>)
    requires
        program_syntax(text).is_ok(),
    ensures
        program_syntax(text).unwrap().well_formed(),
        program_syntax(text).unwrap().encoding().is_ok(),
        program_syntax(text).unwrap().opcode matches Token::Op { code }
            && program_syntax(text).unwrap().encoding().unwrap().len() == code.encoded_len(),
{
}

} // verus!
