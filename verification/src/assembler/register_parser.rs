//! Registers in the program text: `$` and the number of the register.

use vstd::prelude::*;
use crate::assembler::{ParseError, Token};
use crate::assembler::number::{marked_digits, number_up_to, read_marked_digits, read_number};

verus! {

/// A register at the front of a text: a number marked with `$`, at most 255.
pub open spec fn register_syntax(text: Seq<char>) -> Result<(Seq<char>, Token), ParseError> {
    match marked_digits(text, '$', ParseError::RegisterExpected) {
        Ok((rest, digits)) => match number_up_to(digits, 255) {
            Some(n) => Ok((rest, Token::Register { reg_num: n as u8 })),
            None => Err(ParseError::RegisterTooLarge),
        },
        Err(error) => Err(error),
    }
}

/// Reads a register off the front of a text, and hands back what follows it.
pub fn register<'a>(input: &'a str) -> (found: Result<(&'a str, Token), ParseError>)
    ensures
        match found {
            Ok((rest, token)) => register_syntax(input@) == Ok::<(Seq<char>, Token), ParseError>(
                (rest@, token),
            ),
            Err(error) => register_syntax(input@) == Err::<(Seq<char>, Token), ParseError>(error),
        },
{
    match read_marked_digits(input, '$', ParseError::RegisterExpected) {
        Ok((rest, digits)) => match read_number(digits, 255) {
            Some(n) => Ok((rest, Token::register(n as u8))),
            None => Err(ParseError::RegisterTooLarge),
        },
        Err(error) => Err(error),
    }
}

} // verus!
