//! Reading runs of characters off the front of a text: letters, digits and
//! white space. The scanning itself is `nom`'s; what this module proves is
//! how long the run is that it hands back.

use vstd::prelude::*;
use nom::types::CompleteStr;

verus! {

/// Whether `char::is_alphabetic` holds of `c`: whether Unicode counts the
/// character as a letter.
pub uninterp spec fn is_alphabetic(c: char) -> bool;

/// Whether `c` is one of the ten decimal digits.
pub open spec fn is_digit(c: char) -> bool {
    '0' <= c <= '9'
}

/// Whether `c` is a blank, a tab, a carriage return or a line feed.
pub open spec fn is_space(c: char) -> bool {
    c == ' ' || c == '\t' || c == '\r' || c == '\n'
}

/// The kinds of characters that the assembly language tells apart.
pub enum CharClass {
    Letter,
    Digit,
    Space,
}

impl CharClass {
    /// Whether `c` is of this kind.
    pub open spec fn holds(self, c: char) -> bool {
        match self {
            CharClass::Letter => is_alphabetic(c),
            CharClass::Digit => is_digit(c),
            CharClass::Space => is_space(c),
        }
    }
}

/// The number of characters at the front of `text` that are of kind `class`.
pub open spec fn run_len(text: Seq<char>, class: CharClass) -> nat
    decreases text.len(),
{
    if text.len() > 0 && class.holds(text[0]) {
        1 + run_len(text.drop_first(), class)
    } else {
        0
    }
}

/// The run of `class` at the front of `text`.
pub open spec fn run(text: Seq<char>, class: CharClass) -> Seq<char> {
    text.take(run_len(text, class) as int)
}

/// What follows the run of `class` at the front of `text`.
pub open spec fn after_run(text: Seq<char>, class: CharClass) -> Seq<char> {
    text.skip(run_len(text, class) as int)
}

/// The run at the front of a text is its longest prefix of the kind: `n`
/// characters of the kind, followed by the end of the text or by a character
/// of another kind, are the run.
pub proof fn lemma_run_is_longest_prefix(text: Seq<char>, class: CharClass, n: nat)
    requires
        n <= text.len(),
        forall|i: int| 0 <= i < n ==> class.holds(#[trigger] text[i]),
        n < text.len() ==> !class.holds(text[n as int]),
    ensures
        run_len(text, class) == n,
    decreases n,
{
    if n > 0 {
        let tail = text.drop_first();
        assert forall|i: int| 0 <= i < n - 1 implies class.holds(#[trigger] tail[i]) by {
            assert(tail[i] == text[i + 1]);
        }
        if n < text.len() {
            assert(tail[n - 1] == text[n as int]);
        }
        lemma_run_is_longest_prefix(tail, class, (n - 1) as nat);
    }
}

/// Whether `head` and `rest` are the two parts of `text` of which the first
/// is the run of `class` at its front.
pub open spec fn cut_at_run(text: Seq<char>, class: CharClass, head: Seq<char>, rest: Seq<char>) -> bool {
    head == run(text, class) && rest == after_run(text, class)
}

/// Two parts that make up a text, the first all of one kind and the second
/// not starting with that kind, are the run at its front and what follows.
pub proof fn lemma_cut_at_run(text: Seq<char>, class: CharClass, head: Seq<char>, rest: Seq<char>)
    requires
        head + rest == text,
        forall|i: int| 0 <= i < head.len() ==> class.holds(#[trigger] head[i]),
        rest.len() > 0 ==> !class.holds(rest[0]),
    ensures
        cut_at_run(text, class, head, rest),
{
    let n = head.len();
    assert forall|i: int| 0 <= i < n implies class.holds(#[trigger] text[i]) by {
        assert(text[i] == head[i]);
    }
    if n < text.len() {
        assert(text[n as int] == rest[0]);
    }
    lemma_run_is_longest_prefix(text, class, n);
    assert(head =~= text.take(n as int));
    assert(rest =~= text.skip(n as int));
}

/// `nom::alpha1` on a complete text: splits off the letters at its front.
/// With at least one letter there it hands back what follows them and the
/// letters, which together are the text; the letters are all letters, and
/// what follows does not start with one. Without a letter at the front it
/// fails.
#[verifier::external_body]
pub(crate) fn alpha1<'a>(input: &'a str) -> (found: Option<(&'a str, &'a str)>)
    ensures
        match found {
            Some((rest, word)) => {
                &&& word@ + rest@ == input@
                &&& word@.len() > 0
                &&& forall|i: int| 0 <= i < word@.len() ==> is_alphabetic(#[trigger] word@[i])
                &&& rest@.len() > 0 ==> !is_alphabetic(rest@[0])
            },
            None => input@.len() == 0 || !is_alphabetic(input@[0]),
        },
{
    match nom::alpha1(CompleteStr(input)) {
        Ok((rest, word)) => Some((rest.0, word.0)),
        Err(_) => None,
    }
}

/// `nom::digit` on a complete text: splits off the decimal digits at its
/// front, as `alpha1` does with letters.
#[verifier::external_body]
pub(crate) fn digit<'a>(input: &'a str) -> (found: Option<(&'a str, &'a str)>)
    ensures
        match found {
            Some((rest, digits)) => {
                &&& digits@ + rest@ == input@
                &&& digits@.len() > 0
                &&& forall|i: int| 0 <= i < digits@.len() ==> is_digit(#[trigger] digits@[i])
                &&& rest@.len() > 0 ==> !is_digit(rest@[0])
            },
            None => input@.len() == 0 || !is_digit(input@[0]),
        },
{
    match nom::digit(CompleteStr(input)) {
        Ok((rest, digits)) => Some((rest.0, digits.0)),
        Err(_) => None,
    }
}

/// `nom::multispace` on a complete text: splits off the white space at its
/// front, as `alpha1` does with letters.
#[verifier::external_body]
pub(crate) fn multispace<'a>(input: &'a str) -> (found: Option<(&'a str, &'a str)>)
    ensures
        match found {
            Some((rest, blank)) => {
                &&& blank@ + rest@ == input@
                &&& blank@.len() > 0
                &&& forall|i: int| 0 <= i < blank@.len() ==> is_space(#[trigger] blank@[i])
                &&& rest@.len() > 0 ==> !is_space(rest@[0])
            },
            None => input@.len() == 0 || !is_space(input@[0]),
        },
{
    match nom::multispace(CompleteStr(input)) {
        Ok((rest, blank)) => Some((rest.0, blank.0)),
        Err(_) => None,
    }
}

/// `nom::sp` on a complete text: drops the white space at its front, of which
/// there may be none. What it hands back is the end of the text, behind white
/// space only, and does not start with white space.
#[verifier::external_body]
pub(crate) fn sp<'a>(input: &'a str) -> (rest: &'a str)
    ensures
        rest@.len() <= input@.len(),
        rest@ == input@.skip(input@.len() - rest@.len()),
        forall|i: int| 0 <= i < input@.len() - rest@.len() ==> is_space(#[trigger] input@[i]),
        rest@.len() > 0 ==> !is_space(rest@[0]),
{
    match nom::sp(CompleteStr(input)) {
        Ok((rest, _)) => rest.0,
        Err(_) => input,
    }
}

/// The letters at the front of `input` and what follows them, or `None`
/// where it does not start with a letter.
pub fn letters<'a>(input: &'a str) -> (found: Option<(&'a str, &'a str)>)
    ensures
        match found {
            Some((rest, word)) => word@.len() > 0 && cut_at_run(
                input@,
                CharClass::Letter,
                word@,
                rest@,
            ),
            None => run_len(input@, CharClass::Letter) == 0,
        },
{
    let found = alpha1(input);
    proof {
        match found {
            Some((rest, word)) => {
                lemma_cut_at_run(input@, CharClass::Letter, word@, rest@);
            },
            None => {},
        }
    }
    found
}

/// The decimal digits at the front of `input` and what follows them, or
/// `None` where it does not start with a digit.
pub fn digits<'a>(input: &'a str) -> (found: Option<(&'a str, &'a str)>)
    ensures
        match found {
            Some((rest, number)) => number@.len() > 0 && cut_at_run(
                input@,
                CharClass::Digit,
                number@,
                rest@,
            ),
            None => run_len(input@, CharClass::Digit) == 0,
        },
{
    let found = digit(input);
    proof {
        match found {
            Some((rest, number)) => {
                lemma_cut_at_run(input@, CharClass::Digit, number@, rest@);
            },
            None => {},
        }
    }
    found
}

/// What follows the white space at the front of `input`.
pub fn skip_space<'a>(input: &'a str) -> (rest: &'a str)
    ensures
        rest@ == after_run(input@, CharClass::Space),
{
    let rest = sp(input);
    proof {
        let n = input@.len() - rest@.len();
        assert(input@.take(n) + rest@ =~= input@);
        lemma_cut_at_run(input@, CharClass::Space, input@.take(n), rest@);
    }
    rest
}

/// What follows the white space at the front of `input`, found by the scanner
/// that wants at least one such character and kept where it finds none.
pub fn skip_optional_space<'a>(input: &'a str) -> (rest: &'a str)
    ensures
        rest@ == after_run(input@, CharClass::Space),
{
    match multispace(input) {
        Some((rest, blank)) => {
            proof {
                lemma_cut_at_run(input@, CharClass::Space, blank@, rest@);
            }
            rest
        },
        None => {
            assert(input@.skip(0) =~= input@);
            input
        },
    }
}

} // verus!
