//! Numbers in the program text: a mark, then decimal digits, with white space
//! allowed before each and behind the last.

use vstd::prelude::*;
use crate::assembler::ParseError;
use crate::assembler::scan::{after_run, digits, is_digit, run, run_len, skip_space, CharClass};

verus! {

/// The number that a decimal digit stands for.
pub open spec fn digit_value(c: char) -> nat {
    (c as int - '0' as int) as nat
}

/// The number that a row of decimal digits stands for; leading zeros count
/// for nothing.
pub open spec fn decimal_value(digits: Seq<char>) -> nat
    decreases digits.len(),
{
    if digits.len() == 0 {
        0
    } else {
        decimal_value(digits.drop_last()) * 10 + digit_value(digits.last())
    }
}

/// Whether a text is made of decimal digits only.
pub open spec fn all_digits(text: Seq<char>) -> bool {
    forall|i: int| 0 <= i < text.len() ==> is_digit(#[trigger] text[i])
}

/// The number that a text stands for, where it is a row of one or more
/// decimal digits and the number is at most `limit`.
pub open spec fn number_up_to(text: Seq<char>, limit: nat) -> Option<nat> {
    if text.len() > 0 && all_digits(text) && decimal_value(text) <= limit {
        Some(decimal_value(text))
    } else {
        None
    }
}

/// A row of digits stands for at least as much as any row that it starts
/// with.
pub proof fn lemma_decimal_value_grows(digits: Seq<char>, n: nat)
    requires
        n <= digits.len(),
    ensures
        decimal_value(digits.take(n as int)) <= decimal_value(digits),
    decreases digits.len() - n,
{
    if n < digits.len() {
        let longer = digits.take(n + 1 as int);
        assert(longer.drop_last() =~= digits.take(n as int));
        lemma_decimal_value_grows(digits, n + 1);
    } else {
        assert(digits.take(n as int) =~= digits);
    }
}

/// Reads a row of decimal digits as a number, or finds that the text is
/// empty, holds something else, or stands for more than `limit`.
pub fn read_number(text: &str, limit: u32) -> (value: Option<u32>)
    ensures
        match value {
            Some(n) => number_up_to(text@, limit as nat) == Some(n as nat),
            None => number_up_to(text@, limit as nat).is_none(),
        },
{
    let len = text.unicode_len();
    if len == 0 {
        return None;
    }
    let mut total: u32 = 0;
    let mut i: usize = 0;
    while i < len
        invariant
            len == text@.len(),
            i <= len,
            all_digits(text@.take(i as int)),
            total == decimal_value(text@.take(i as int)),
            total <= limit,
        decreases len - i,
    {
        let c = text.get_char(i);
        if c < '0' || c > '9' {
            return None;
        }
        let digit = c as u32 - '0' as u32;
        proof {
            let longer = text@.take(i + 1 as int);
            assert(longer.drop_last() =~= text@.take(i as int));
            assert(longer.last() == c);
            assert(digit == digit_value(c));
        }
        let grown = total as u64 * 10 + digit as u64;
        if grown > limit as u64 {
            proof {
                lemma_decimal_value_grows(text@, (i + 1) as nat);
            }
            return None;
        }
        total = grown as u32;
        i += 1;
    }
    assert(text@.take(len as int) =~= text@);
    Some(total)
}

/// A marked number at the front of a text: white space, the mark, white
/// space, one or more digits, white space. The result is what follows, and
/// the digits. Where the mark is missing the error is `unmarked`.
pub open spec fn marked_digits(text: Seq<char>, mark: char, unmarked: ParseError) -> Result<
    (Seq<char>, Seq<char>),
    ParseError,
> {
    let marked = after_run(text, CharClass::Space);
    if marked.len() == 0 || marked[0] != mark {
        Err(unmarked)
    } else {
        let number = after_run(marked.skip(1), CharClass::Space);
        if run_len(number, CharClass::Digit) == 0 {
            Err(ParseError::DigitExpected)
        } else {
            Ok(
                (
                    after_run(after_run(number, CharClass::Digit), CharClass::Space),
                    run(number, CharClass::Digit),
                ),
            )
        }
    }
}

/// Reads a marked number off the front of a text.
pub fn read_marked_digits<'a>(input: &'a str, mark: char, unmarked: ParseError) -> (found: Result<
    (&'a str, &'a str),
    ParseError,
>)
    ensures
        match found {
            Ok((rest, number)) => marked_digits(input@, mark, unmarked) == Ok::<
                (Seq<char>, Seq<char>),
                ParseError,
            >((rest@, number@)),
            Err(error) => marked_digits(input@, mark, unmarked) == Err::<
                (Seq<char>, Seq<char>),
                ParseError,
            >(error),
        },
{
    let marked = skip_space(input);
    let len = marked.unicode_len();
    if len == 0 || marked.get_char(0) != mark {
        return Err(unmarked);
    }
    let number = skip_space(marked.substring_char(1, len));
    match digits(number) {
        Some((rest, row)) => Ok((skip_space(rest), row)),
        None => Err(ParseError::DigitExpected),
    }
}

} // verus!
