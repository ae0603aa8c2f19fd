//! What the encoder writes, the engine reads back: the laws that tie the two
//! ends of the byte format together.

use vstd::prelude::*;
use crate::assembler::Token;
use crate::assembler::instruction_parser::{AssemblerInstruction, EncodeError};
use crate::instructions::Opcode;
use crate::vm::{Machine, REGISTER_COUNT};

verus! {

/// Whether the program holds `bytes` from the counter on.
pub open spec fn at_counter(m: Machine, bytes: Seq<u8>) -> bool {
    &&& m.pc + bytes.len() <= m.program.len()
    &&& m.program.subrange(m.pc as int, (m.pc + bytes.len()) as int) == bytes
}

/// A well-formed instruction has an encoding, which starts with the byte of
/// its operation and is as long as the engine takes an instruction with that
/// operation to be: one byte for `HLT`, four for every operation with
/// operands.
pub proof fn lemma_encoding_has_layout_length(instruction: AssemblerInstruction, code: Opcode)
    requires
        instruction.well_formed(),
        instruction.opcode == (Token::Op { code }),
    ensures
        instruction.encoding().is_ok(),
        instruction.encoding().unwrap().len() == code.encoded_len(),
        instruction.encoding().unwrap()[0] == code.encode(),
        Opcode::decode(instruction.encoding().unwrap()[0]) == code,
{
}

/// An instruction that is not well formed but has only operands in its
/// operand slots is still encoded, slot by slot; one with an operation in an
/// operand slot, or none in its operation slot, has no encoding.
pub proof fn lemma_encoding_fails_exactly(instruction: AssemblerInstruction)
    ensures
        instruction.encoding() == Err::<Seq<u8>, EncodeError>(EncodeError::OpcodeExpected) <==> !(
        instruction.opcode is Op),
        instruction.encoding() == Err::<Seq<u8>, EncodeError>(EncodeError::OperandExpected) <==> (
        instruction.opcode is Op) && ((instruction.operand1 matches Some(Token::Op { .. }))
            || (instruction.operand2 matches Some(Token::Op { .. }))
            || (instruction.operand3 matches Some(Token::Op { .. }))),
{
}

/// The engine finds in an encoded instruction what the assembler put there:
/// with the encoding of a well-formed instruction at the counter, the machine
/// is not at its end, fetches the same operation, finds the whole instruction
/// in the program, and reads each register operand from the byte at its place.
pub proof fn lemma_engine_reads_encoding(
    m: Machine,
    instruction: AssemblerInstruction,
    code: Opcode,
)
    requires
        instruction.well_formed(),
        instruction.opcode == (Token::Op { code }),
        at_counter(m, instruction.encoding().unwrap()),
    ensures
        !m.at_end(),
        m.opcode() == code,
        m.pc + code.encoded_len() <= m.program.len(),
        instruction.operand1 matches Some(Token::Register { reg_num }) ==> m.byte(1) == reg_num,
        code.takes_three_registers() ==> (instruction.operand2 matches Some(
            Token::Register { reg_num },
        ) && m.byte(2) == reg_num),
        code.takes_three_registers() ==> (instruction.operand3 matches Some(
            Token::Register { reg_num },
        ) && m.byte(3) == reg_num),
        code == Opcode::LOAD ==> (instruction.operand2 matches Some(
            Token::IntegerOperand { value },
        ) && m.immediate() == value as int % 0x1_0000),
{
    let bytes = instruction.encoding().unwrap();
    lemma_encoding_has_layout_length(instruction, code);
    assert forall|k: int| 0 <= k < bytes.len() implies m.byte(k) == bytes[k] by {
        assert(m.program.subrange(m.pc as int, (m.pc + bytes.len()) as int)[k] == m.program[m.pc + k]);
    }
    assert(m.byte(0) == bytes[0]);
    if code == Opcode::LOAD || code.takes_three_registers() {
        assert(m.byte(1) == bytes[1]);
        assert(m.byte(2) == bytes[2]);
        assert(m.byte(3) == bytes[3]);
    }
}

/// The engine consumes what the encoder wrote, no more and no less: with the
/// encoding of a well-formed instruction at the counter, a step that raises
/// no fault and takes no jump leaves the counter on the byte behind the
/// encoding.
pub proof fn lemma_engine_consumes_encoding(
    m: Machine,
    instruction: AssemblerInstruction,
    code: Opcode,
)
    requires
        instruction.well_formed(),
        instruction.opcode == (Token::Op { code }),
        at_counter(m, instruction.encoding().unwrap()),
        m.fault_at_counter().is_none(),
        m.jump_target().is_none(),
    ensures
        m.step().pc == m.pc + instruction.encoding().unwrap().len(),
{
    lemma_engine_reads_encoding(m, instruction, code);
    lemma_encoding_has_layout_length(instruction, code);
}

/// A `LOAD` goes through the byte format and comes out in the register: with
/// the encoding of `LOAD` of `value` into register `reg_num` at the counter,
/// one step leaves the low 16 bits of `value` in that register, the value
/// itself where it lies in `0 .. 2^16`, moves the counter behind the four
/// bytes and lets the machine go on.
pub proof fn lemma_load_round_trip(m: Machine, reg_num: u8, value: i32)
    requires
        m.registers.len() == REGISTER_COUNT,
        reg_num < REGISTER_COUNT,
        at_counter(m, load_instruction(reg_num, value).encoding().unwrap()),
    ensures
        load_instruction(reg_num, value).encoding().is_ok(),
        m.step().registers[reg_num as int] == value as int % 0x1_0000,
        0 <= value < 0x1_0000 ==> m.step().registers[reg_num as int] == value,
        m.step().pc == m.pc + 4,
        m.step().stop.is_none(),
        !m.stops(),
{
    lemma_engine_reads_encoding(m, load_instruction(reg_num, value), Opcode::LOAD);
}

/// The instruction `LOAD` of `value` into register `reg_num`.
pub open spec fn load_instruction(reg_num: u8, value: i32) -> AssemblerInstruction {
    AssemblerInstruction {
        label: None,
        opcode: Token::Op { code: Opcode::LOAD },
        operand1: Some(Token::Register { reg_num }),
        operand2: Some(Token::IntegerOperand { value }),
        operand3: None,
    }
}

} // verus!
