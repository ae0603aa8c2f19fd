//! Raw program bytes as text: two hexadecimal digits for each byte, and one
//! blank between a byte and the next.

use vstd::prelude::*;

verus! {

/// The number that a hexadecimal digit stands for, in either case.
pub open spec fn hex_digit_value(c: char) -> Option<nat> {
    if '0' <= c <= '9' {
        Some((c as int - '0' as int) as nat)
    } else if 'a' <= c <= 'f' {
        Some((c as int - 'a' as int + 10) as nat)
    } else if 'A' <= c <= 'F' {
        Some((c as int - 'A' as int + 10) as nat)
    } else {
        None
    }
}

/// Whether a text is a row of bytes: in every group of three characters two
/// hexadecimal digits and a blank, and two digits at the end.
pub open spec fn is_hex_line(text: Seq<char>) -> bool {
    &&& text.len() % 3 == 2
    &&& forall|k: int|
        0 <= k < text.len() ==> if k % 3 == 2 {
            #[trigger] text[k] == ' '
        } else {
            hex_digit_value(text[k]).is_some()
        }
}

/// The byte that the `i`-th pair of digits of a text stands for, the first
/// digit counting sixteen times.
pub open spec fn hex_byte(text: Seq<char>, i: int) -> u8 {
    (16 * hex_digit_value(text[3 * i]).unwrap() + hex_digit_value(text[3 * i + 1]).unwrap()) as u8
}

/// The bytes that a text stands for, where it is a row of bytes.
pub open spec fn hex_bytes(text: Seq<char>) -> Option<Seq<u8>> {
    if is_hex_line(text) {
        Some(Seq::new(((text.len() + 1) / 3) as nat, |i: int| hex_byte(text, i)))
    } else {
        None
    }
}

/// The number that a character stands for as a hexadecimal digit.
fn hex_digit(c: u8) -> (value: Option<u8>)
    requires
        c <= 0x7f,
    ensures
        match value {
            Some(n) => hex_digit_value(c as char) == Some(n as nat) && n < 16,
            None => hex_digit_value(c as char).is_none(),
        },
{
    if c >= 0x30 && c <= 0x39 {
        Some(c - 0x30)
    } else if c >= 0x61 && c <= 0x66 {
        Some(c - 0x61 + 10)
    } else if c >= 0x41 && c <= 0x46 {
        Some(c - 0x41 + 10)
    } else {
        None
    }
}

/// Reads a text as a row of bytes, or finds that it is none.
pub fn parse_hex(text: &str) -> (bytes: Option<Vec<u8>>)
    ensures
        match bytes {
            Some(row) => hex_bytes(text@) == Some(row@),
            None => hex_bytes(text@).is_none(),
        },
{
    if !text.is_ascii() {
        proof {
            let k = choose|k: int| 0 <= k < text@.len() && !('\0' <= #[trigger] text@[k] <= '\u{7f}');
            assert(text@[k] != ' ' && hex_digit_value(text@[k]).is_none());
        }
        return None;
    }
    let len = text.unicode_len();
    if len % 3 != 2 {
        return None;
    }
    let count = (len + 1) / 3;
    let mut row: Vec<u8> = Vec::new();
    let mut i: usize = 0;
    while i < count
        invariant
            text.is_ascii(),
            len == text@.len(),
            len % 3 == 2,
            count == (len + 1) / 3,
            i <= count,
            row@.len() == i,
            forall|j: int| 0 <= j < i ==> row@[j] == hex_byte(text@, j),
            forall|k: int|
                0 <= k < 3 * i && k < len ==> if k % 3 == 2 {
                    #[trigger] text@[k] == ' '
                } else {
                    hex_digit_value(text@[k]).is_some()
                },
        decreases count - i,
    {
        let first = text.get_ascii(3 * i);
        let second = text.get_ascii(3 * i + 1);
        assert(first as char == text@[3 * i]);
        assert(second as char == text@[3 * i + 1]);
        let high = match hex_digit(first) {
            Some(value) => value,
            None => {
                return None;
            },
        };
        let low = match hex_digit(second) {
            Some(value) => value,
            None => {
                return None;
            },
        };
        if 3 * i + 2 < len {
            let gap = text.get_ascii(3 * i + 2);
            assert(gap as char == text@[3 * i + 2]);
            if gap != 0x20 {
                return None;
            }
        }
        row.push(16 * high + low);
        i += 1;
    }
    assert(row@ =~= hex_bytes(text@).unwrap());
    Some(row)
}

} // verus!
