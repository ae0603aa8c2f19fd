//! Integers in the program text: `#` and the digits of the number.

use vstd::prelude::*;
use crate::assembler::{ParseError, Token};
use crate::assembler::number::{marked_digits, number_up_to, read_marked_digits, read_number};

verus! {

/// An integer at the front of a text: a number marked with `#`, at most
/// 2147483647.
pub open spec fn integer_operand_syntax(text: Seq<char>) -> Result<
    (Seq<char>, Token),
    ParseError,
> {
    match marked_digits(text, '#', ParseError::IntegerExpected) {
        Ok((rest, digits)) => match number_up_to(digits, 0x7fff_ffff) {
            Some(n) => Ok((rest, Token::IntegerOperand { value: n as i32 })),
            None => Err(ParseError::IntegerTooLarge),
        },
        Err(error) => Err(error),
    }
}

/// Reads an integer off the front of a text, and hands back what follows it.
pub fn integer_operand<'a>(input: &'a str) -> (found: Result<(&'a str, Token), ParseError>)
    ensures
        match found {
            Ok((rest, token)) => integer_operand_syntax(input@) == Ok::<
                (Seq<char>, Token),
                ParseError,
            >((rest@, token)),
            Err(error) => integer_operand_syntax(input@) == Err::<(Seq<char>, Token), ParseError>(
                error,
            ),
        },
{
    match read_marked_digits(input, '#', ParseError::IntegerExpected) {
        Ok((rest, digits)) => match read_number(digits, 0x7fff_ffff) {
            Some(n) => Ok((rest, Token::operand(n as i32))),
            None => Err(ParseError::IntegerTooLarge),
        },
        Err(error) => Err(error),
    }
}

} // verus!
