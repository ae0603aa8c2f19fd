//! Operations in the program text: a word of letters.

use vstd::prelude::*;
use crate::assembler::{ParseError, Token};
use crate::assembler::scan::{after_run, letters, run, run_len, CharClass};
use crate::instructions::Opcode;

verus! {

/// The operation at the front of a text: its letters, read as the name of an
/// operation. A word that names none is read as `IGL`.
pub open spec fn mnemonic_syntax(text: Seq<char>) -> Result<(Seq<char>, Opcode), ParseError> {
    if run_len(text, CharClass::Letter) == 0 {
        Err(ParseError::LetterExpected)
    } else {
        Ok((after_run(text, CharClass::Letter), Opcode::named(run(text, CharClass::Letter))))
    }
}

/// The operation at the front of a text, as a token.
pub open spec fn opcode_syntax(text: Seq<char>) -> Result<(Seq<char>, Token), ParseError> {
    match mnemonic_syntax(text) {
        Ok((rest, code)) => Ok((rest, Token::Op { code })),
        Err(error) => Err(error),
    }
}

/// Reads the name of an operation off the front of a text, and hands back
/// what follows it.
pub fn mnemonic<'a>(input: &'a str) -> (found: Result<(&'a str, Opcode), ParseError>)
    ensures
        match found {
            Ok((rest, code)) => mnemonic_syntax(input@) == Ok::<(Seq<char>, Opcode), ParseError>(
                (rest@, code),
            ),
            Err(error) => mnemonic_syntax(input@) == Err::<(Seq<char>, Opcode), ParseError>(error),
        },
{
    match letters(input) {
        Some((rest, word)) => Ok((rest, Opcode::from(word))),
        None => Err(ParseError::LetterExpected),
    }
}

/// Reads an operation off the front of a text, and hands back what follows
/// it.
pub fn opcode<'a>(input: &'a str) -> (found: Result<(&'a str, Token), ParseError>)
    ensures
        match found {
            Ok((rest, token)) => opcode_syntax(input@) == Ok::<(Seq<char>, Token), ParseError>(
                (rest@, token),
            ),
            Err(error) => opcode_syntax(input@) == Err::<(Seq<char>, Token), ParseError>(error),
        },
{
    match mnemonic(input) {
        Ok((rest, code)) => Ok((rest, Token::opcode(code))),
        Err(error) => Err(error),
    }
}

} // verus!
