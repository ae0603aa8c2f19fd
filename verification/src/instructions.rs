//! The operation codes of the machine and their one-byte encoding.

use vstd::prelude::*;
use vstd::std_specs::convert::FromSpecImpl;
use crate::text::same_text;

verus! {

/// One operation of the machine.
///
/// `IGL` stands for every byte that names no operation.
#[derive(Debug, Clone, Copy, PartialEq, Eq, Structural)]
pub enum Opcode {
    LOAD,
    ADD,
    SUB,
    MUL,
    DIV,
    JMP,
    JMPF,
    JMPB,
    EQ,
    NEQ,
    LT,
    GT,
    LTQ,
    GTQ,
    JEQ,
    JNEQ,
    HLT,
    IGL,
}

/// The byte that every `IGL` is written as. It is the first byte that names no
/// operation.
pub const IGL_BYTE: u8 = 17;

impl Opcode {
    /// The operation that a byte names: the table of the instruction set.
    pub open spec fn decode(v: u8) -> Opcode {
        if v == 0 {
            Opcode::LOAD
        } else if v == 1 {
            Opcode::ADD
        } else if v == 2 {
            Opcode::SUB
        } else if v == 3 {
            Opcode::MUL
        } else if v == 4 {
            Opcode::DIV
        } else if v == 5 {
            Opcode::JMP
        } else if v == 6 {
            Opcode::HLT
        } else if v == 7 {
            Opcode::JMPF
        } else if v == 8 {
            Opcode::JMPB
        } else if v == 9 {
            Opcode::EQ
        } else if v == 10 {
            Opcode::NEQ
        } else if v == 11 {
            Opcode::LT
        } else if v == 12 {
            Opcode::LTQ
        } else if v == 13 {
            Opcode::GT
        } else if v == 14 {
            Opcode::GTQ
        } else if v == 15 {
            Opcode::JEQ
        } else if v == 16 {
            Opcode::JNEQ
        } else {
            Opcode::IGL
        }
    }

    /// The byte that names an operation: the same table read the other way.
    pub open spec fn encode(self) -> u8 {
        match self {
            Opcode::LOAD => 0,
            Opcode::ADD => 1,
            Opcode::SUB => 2,
            Opcode::MUL => 3,
            Opcode::DIV => 4,
            Opcode::JMP => 5,
            Opcode::HLT => 6,
            Opcode::JMPF => 7,
            Opcode::JMPB => 8,
            Opcode::EQ => 9,
            Opcode::NEQ => 10,
            Opcode::LT => 11,
            Opcode::LTQ => 12,
            Opcode::GT => 13,
            Opcode::GTQ => 14,
            Opcode::JEQ => 15,
            Opcode::JNEQ => 16,
            Opcode::IGL => IGL_BYTE,
        }
    }

    /// The operation that a word of the assembly language names: the name of
    /// the operation in lower case. Any other word names `IGL`.
    pub open spec fn named(word: Seq<char>) -> Opcode {
        if word == "load"@ {
            Opcode::LOAD
        } else if word == "add"@ {
            Opcode::ADD
        } else if word == "sub"@ {
            Opcode::SUB
        } else if word == "mul"@ {
            Opcode::MUL
        } else if word == "div"@ {
            Opcode::DIV
        } else if word == "jmp"@ {
            Opcode::JMP
        } else if word == "jmpf"@ {
            Opcode::JMPF
        } else if word == "jmpb"@ {
            Opcode::JMPB
        } else if word == "eq"@ {
            Opcode::EQ
        } else if word == "neq"@ {
            Opcode::NEQ
        } else if word == "lt"@ {
            Opcode::LT
        } else if word == "gt"@ {
            Opcode::GT
        } else if word == "ltq"@ {
            Opcode::LTQ
        } else if word == "gtq"@ {
            Opcode::GTQ
        } else if word == "jeq"@ {
            Opcode::JEQ
        } else if word == "jneq"@ {
            Opcode::JNEQ
        } else if word == "hlt"@ {
            Opcode::HLT
        } else {
            Opcode::IGL
        }
    }

    /// Whether the operation is followed by three register bytes.
    pub open spec fn takes_three_registers(self) -> bool {
        self != Opcode::LOAD && self != Opcode::HLT && self != Opcode::IGL
    }

    /// The number of bytes that one instruction with this operation occupies.
    pub open spec fn encoded_len(self) -> nat {
        if self == Opcode::HLT || self == Opcode::IGL {
            1
        } else {
            4
        }
    }

    /// The byte that names this operation.
    pub fn to_byte(self) -> (v: u8)
        ensures
            v == self.encode(),
    {
        match self {
            Opcode::LOAD => 0,
            Opcode::ADD => 1,
            Opcode::SUB => 2,
            Opcode::MUL => 3,
            Opcode::DIV => 4,
            Opcode::JMP => 5,
            Opcode::HLT => 6,
            Opcode::JMPF => 7,
            Opcode::JMPB => 8,
            Opcode::EQ => 9,
            Opcode::NEQ => 10,
            Opcode::LT => 11,
            Opcode::LTQ => 12,
            Opcode::GT => 13,
            Opcode::GTQ => 14,
            Opcode::JEQ => 15,
            Opcode::JNEQ => 16,
            Opcode::IGL => IGL_BYTE,
        }
    }
}

impl From<u8> for Opcode {
    /// The operation that a byte names; `IGL` for a byte above 16.
    fn from(v: u8) -> (op: Opcode)
        ensures
            op == Opcode::decode(v),
    {
        match v {
            0 => Opcode::LOAD,
            1 => Opcode::ADD,
            2 => Opcode::SUB,
            3 => Opcode::MUL,
            4 => Opcode::DIV,
            5 => Opcode::JMP,
            6 => Opcode::HLT,
            7 => Opcode::JMPF,
            8 => Opcode::JMPB,
            9 => Opcode::EQ,
            10 => Opcode::NEQ,
            11 => Opcode::LT,
            12 => Opcode::LTQ,
            13 => Opcode::GT,
            14 => Opcode::GTQ,
            15 => Opcode::JEQ,
            16 => Opcode::JNEQ,
            _ => Opcode::IGL,
        }
    }
}

impl<'a> From<&'a str> for Opcode {
    /// The operation that a word of the assembly language names; `IGL` for a
    /// word that names none.
    fn from(word: &'a str) -> (op: Opcode)
        ensures
            op == Opcode::named(word@),
    {
        if same_text(word, "load") {
            Opcode::LOAD
        } else if same_text(word, "add") {
            Opcode::ADD
        } else if same_text(word, "sub") {
            Opcode::SUB
        } else if same_text(word, "mul") {
            Opcode::MUL
        } else if same_text(word, "div") {
            Opcode::DIV
        } else if same_text(word, "jmp") {
            Opcode::JMP
        } else if same_text(word, "jmpf") {
            Opcode::JMPF
        } else if same_text(word, "jmpb") {
            Opcode::JMPB
        } else if same_text(word, "eq") {
            Opcode::EQ
        } else if same_text(word, "neq") {
            Opcode::NEQ
        } else if same_text(word, "lt") {
            Opcode::LT
        } else if same_text(word, "gt") {
            Opcode::GT
        } else if same_text(word, "ltq") {
            Opcode::LTQ
        } else if same_text(word, "gtq") {
            Opcode::GTQ
        } else if same_text(word, "jeq") {
            Opcode::JEQ
        } else if same_text(word, "jneq") {
            Opcode::JNEQ
        } else if same_text(word, "hlt") {
            Opcode::HLT
        } else {
            Opcode::IGL
        }
    }
}

impl<'a> FromSpecImpl<&'a str> for Opcode {
    open spec fn obeys_from_spec() -> bool {
        true
    }

    open spec fn from_spec(word: &'a str) -> Opcode {
        Opcode::named(word@)
    }
}

impl FromSpecImpl<u8> for Opcode {
    open spec fn obeys_from_spec() -> bool {
        true
    }

    open spec fn from_spec(v: u8) -> Opcode {
        Opcode::decode(v)
    }
}

/// Decoding undoes encoding: every operation is read back from its own byte.
pub proof fn lemma_decode_encode(op: Opcode)
    ensures
        Opcode::decode(op.encode()) == op,
{
}

/// Encoding undoes decoding on the bytes that name an operation, and every
/// other byte is read as `IGL`.
pub proof fn lemma_encode_decode(v: u8)
    ensures
        v <= 16 ==> Opcode::decode(v).encode() == v && Opcode::decode(v) != Opcode::IGL,
        v > 16 ==> Opcode::decode(v) == Opcode::IGL,
{
}

/// A decoded operation, as the machine holds it between fetch and execution.
#[derive(Debug, PartialEq, Eq, Structural)]
pub struct Instruction {
    pub opcode: Opcode,
}

impl Instruction {
    pub fn new(opcode: Opcode) -> (instruction: Instruction)
        ensures
            instruction.opcode == opcode,
    {
        Instruction { opcode }
    }
}

} // verus!
