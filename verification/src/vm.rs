//! The execution engine: a register file, a program counter and the rule that
//! takes the machine from one instruction to the next.

use vstd::prelude::*;
use vstd::arithmetic::div_mod::{
    lemma_basic_div, lemma_div_nonincreasing, lemma_div_pos_is_pos, lemma_mod_pos_bound,
    lemma_small_mod,
};
use crate::instructions::Opcode;

verus! {

/// The number of registers.
pub const REGISTER_COUNT: usize = 32;

/// The number of steps after which `run` gives up on a program that goes on.
pub const STEP_LIMIT: u64 = 0xffff_ffff_ffff_ffff;

/// Why an instruction could not be carried out.
#[derive(Debug, Clone, Copy, PartialEq, Eq, Structural)]
pub enum Fault {
    /// The byte at the counter names no operation.
    IllegalOpcode,
    /// The program ends before the last byte of the instruction.
    TruncatedInstruction,
    /// An operand names a register that the machine does not have.
    RegisterOutOfRange,
    /// The divisor of a `DIV` is zero.
    DivisionByZero,
    /// A jump leads below address zero.
    CounterUnderflow,
    /// A jump leads above the largest address of the host.
    CounterOverflow,
}

/// Why a step tells its caller to stop.
#[derive(Debug, Clone, Copy, PartialEq, Eq, Structural)]
pub enum Stop {
    /// The step carried out a `HLT`.
    Halt,
    /// The counter stood at or behind the end of the program.
    EndOfProgram,
    /// The instruction at the counter could not be carried out.
    Fault(Fault),
}

/// The machine as a mathematical value.
pub struct Machine {
    pub registers: Seq<i32>,
    pub pc: nat,
    pub program: Seq<u8>,
    pub remainder: u32,
    pub equal: bool,
    pub stop: Option<Stop>,
}

/// The value in `-2^31 .. 2^31` that differs from `x` by a multiple of `2^32`:
/// what a register holds after arithmetic that wraps around.
pub open spec fn wrap32(x: int) -> i32 {
    let low = x % 0x1_0000_0000;
    if low >= 0x8000_0000 {
        (low - 0x1_0000_0000) as i32
    } else {
        low as i32
    }
}

/// The distance of `x` from zero.
pub open spec fn magnitude(x: int) -> int {
    if x < 0 {
        -x
    } else {
        x
    }
}

/// The quotient of `a` by `b`, rounded toward zero. Meant for `b != 0`.
pub open spec fn quotient_toward_zero(a: int, b: int) -> int {
    if (a < 0) == (b < 0) {
        magnitude(a) / magnitude(b)
    } else {
        -(magnitude(a) / magnitude(b))
    }
}

/// What is left of `a` after `quotient_toward_zero(a, b)` times `b` is taken
/// away; it has the sign of `a`. Meant for `b != 0`.
pub open spec fn remainder_toward_zero(a: int, b: int) -> int {
    if a < 0 {
        -(magnitude(a) % magnitude(b))
    } else {
        magnitude(a) % magnitude(b)
    }
}

/// The 32 bits of a signed value, read as an unsigned number.
pub open spec fn unsigned_bits(x: i32) -> u32 {
    if x < 0 {
        (x + 0x1_0000_0000) as u32
    } else {
        x as u32
    }
}

impl Machine {
    /// Whether the counter stands at or behind the end of the program.
    pub open spec fn at_end(self) -> bool {
        self.pc >= self.program.len()
    }

    /// The operation that the byte at the counter names.
    pub open spec fn opcode(self) -> Opcode {
        Opcode::decode(self.program[self.pc as int])
    }

    /// The `k`-th byte of the instruction at the counter; byte 0 is the opcode.
    pub open spec fn byte(self, k: int) -> u8 {
        self.program[self.pc + k]
    }

    /// The value of the register that the `k`-th byte of the instruction names.
    pub open spec fn reg(self, k: int) -> i32 {
        self.registers[self.byte(k) as int]
    }

    /// The immediate of a `LOAD`: bytes 2 and 3, high byte first.
    pub open spec fn immediate(self) -> int {
        self.byte(2) * 256 + self.byte(3)
    }

    /// Whether the `k`-th byte of an instruction with operation `op` is read
    /// as a register index.
    pub open spec fn names_register(op: Opcode, k: int) -> bool {
        match op {
            Opcode::HLT | Opcode::IGL => false,
            Opcode::ADD | Opcode::SUB | Opcode::MUL | Opcode::DIV => 1 <= k <= 3,
            Opcode::EQ | Opcode::NEQ | Opcode::LT | Opcode::GT | Opcode::LTQ | Opcode::GTQ => 1
                <= k <= 2,
            Opcode::LOAD | Opcode::JMP | Opcode::JMPF | Opcode::JMPB | Opcode::JEQ
            | Opcode::JNEQ => k == 1,
        }
    }

    /// Whether the `k`-th byte of the instruction at the counter, where it is
    /// read as a register index, names a register of the machine.
    pub open spec fn register_exists(self, k: int) -> bool {
        Self::names_register(self.opcode(), k) ==> self.byte(k) < REGISTER_COUNT
    }

    /// Where the instruction at the counter sends the counter, if it is a jump
    /// that is taken. `JMP` and the conditional jumps go to the address in
    /// their register; `JMPF` and `JMPB` count from behind their first operand
    /// byte.
    pub open spec fn jump_target(self) -> Option<int> {
        match self.opcode() {
            Opcode::JMP => Some(self.reg(1) as int),
            Opcode::JMPF => Some(self.pc + 2 + self.reg(1)),
            Opcode::JMPB => Some(self.pc + 2 - self.reg(1)),
            Opcode::JEQ => if self.equal {
                Some(self.reg(1) as int)
            } else {
                None
            },
            Opcode::JNEQ => if !self.equal {
                Some(self.reg(1) as int)
            } else {
                None
            },
            _ => None,
        }
    }

    /// The fault that the instruction at the counter raises, if any. Meant for
    /// a machine that is not at its end.
    pub open spec fn fault_at_counter(self) -> Option<Fault> {
        let op = self.opcode();
        if op == Opcode::IGL {
            Some(Fault::IllegalOpcode)
        } else if op == Opcode::HLT {
            None
        } else if self.pc + 4 > self.program.len() {
            Some(Fault::TruncatedInstruction)
        } else if !(self.register_exists(1) && self.register_exists(2) && self.register_exists(3)) {
            Some(Fault::RegisterOutOfRange)
        } else if op == Opcode::DIV && self.reg(2) == 0 {
            Some(Fault::DivisionByZero)
        } else {
            match self.jump_target() {
                Some(target) => if target < 0 {
                    Some(Fault::CounterUnderflow)
                } else if target > usize::MAX {
                    Some(Fault::CounterOverflow)
                } else {
                    None
                },
                None => None,
            }
        }
    }

    /// The registers after the instruction at the counter, where it raises no
    /// fault.
    pub open spec fn registers_after(self) -> Seq<i32> {
        let a = self.reg(1) as int;
        let b = self.reg(2) as int;
        let target = self.byte(3) as int;
        match self.opcode() {
            Opcode::LOAD => self.registers.update(self.byte(1) as int, self.immediate() as i32),
            Opcode::ADD => self.registers.update(target, wrap32(a + b)),
            Opcode::SUB => self.registers.update(target, wrap32(a - b)),
            Opcode::MUL => self.registers.update(target, wrap32(a * b)),
            Opcode::DIV => self.registers.update(target, wrap32(quotient_toward_zero(a, b))),
            _ => self.registers,
        }
    }

    /// The remainder after the instruction at the counter, where it raises no
    /// fault: only `DIV` writes it.
    pub open spec fn remainder_after(self) -> u32 {
        if self.opcode() == Opcode::DIV {
            unsigned_bits(remainder_toward_zero(self.reg(1) as int, self.reg(2) as int) as i32)
        } else {
            self.remainder
        }
    }

    /// The flag after the instruction at the counter, where it raises no
    /// fault: only the six comparisons write it.
    pub open spec fn equal_after(self) -> bool {
        let a = self.reg(1);
        let b = self.reg(2);
        match self.opcode() {
            Opcode::EQ => a == b,
            Opcode::NEQ => a != b,
            Opcode::LT => a < b,
            Opcode::GT => a > b,
            Opcode::LTQ => a <= b,
            Opcode::GTQ => a >= b,
            _ => self.equal,
        }
    }

    /// The counter after the instruction at the counter, where it raises no
    /// fault: the target of a jump that is taken, else the address behind the
    /// instruction.
    pub open spec fn pc_after(self) -> nat {
        match self.jump_target() {
            Some(target) => target as nat,
            None => self.pc + self.opcode().encoded_len(),
        }
    }

    /// Why the step from this machine tells its caller to stop, if it does:
    /// at the end of the program, on `HLT` and on every fault.
    pub open spec fn stop_at_counter(self) -> Option<Stop> {
        if self.at_end() {
            Some(Stop::EndOfProgram)
        } else if self.opcode() == Opcode::HLT {
            Some(Stop::Halt)
        } else {
            match self.fault_at_counter() {
                Some(fault) => Some(Stop::Fault(fault)),
                None => None,
            }
        }
    }

    /// The machine after one step.
    ///
    /// At its end the machine stays where it is. An unmapped opcode byte is
    /// consumed and reported. Any other fault is reported with the machine
    /// otherwise untouched, the counter still on the instruction that raised
    /// it. Every step records why it tells its caller to stop, or that it
    /// does not, in place of what the step before recorded.
    pub open spec fn step(self) -> Machine {
        if self.at_end() {
            Machine { stop: Some(Stop::EndOfProgram), ..self }
        } else {
            match self.fault_at_counter() {
                Some(Fault::IllegalOpcode) => Machine {
                    pc: self.pc + 1,
                    stop: Some(Stop::Fault(Fault::IllegalOpcode)),
                    ..self
                },
                Some(fault) => Machine { stop: Some(Stop::Fault(fault)), ..self },
                None => Machine {
                    registers: self.registers_after(),
                    pc: self.pc_after(),
                    program: self.program,
                    remainder: self.remainder_after(),
                    equal: self.equal_after(),
                    stop: self.stop_at_counter(),
                },
            }
        }
    }

    /// Whether the step from this machine tells its caller to stop.
    pub open spec fn stops(self) -> bool {
        self.stop_at_counter().is_some()
    }

    /// The machine after it has run until a step told it to stop, that step
    /// included, or for `limit` steps if none of them did.
    pub open spec fn run_for(self, limit: nat) -> Machine
        decreases limit,
    {
        if limit == 0 {
            self
        } else if self.stops() {
            self.step()
        } else {
            self.step().run_for((limit - 1) as nat)
        }
    }

    /// The machine after `n` steps.
    pub open spec fn after(self, n: nat) -> Machine
        decreases n,
    {
        if n == 0 {
            self
        } else {
            self.step().after((n - 1) as nat)
        }
    }

    /// Whether one of the first `limit` steps from this machine tells its
    /// caller to stop.
    pub open spec fn stops_within(self, limit: nat) -> bool
        decreases limit,
    {
        limit > 0 && (self.stops() || self.step().stops_within((limit - 1) as nat))
    }
}

/// An instruction with three register bytes that raises no fault and is no
/// jump that is taken moves the counter forward by four, whichever of its
/// register bytes it reads, and lets the machine go on.
pub proof fn lemma_three_register_step_advances_by_four(m: Machine)
    requires
        !m.at_end(),
        m.opcode().takes_three_registers(),
        m.fault_at_counter().is_none(),
        m.jump_target().is_none(),
    ensures
        m.step().pc == m.pc + 4,
        !m.stops(),
{
}

/// A `LOAD` that raises no fault moves the counter forward by four and puts
/// its immediate, a value below `2^16`, into the register that it names.
pub proof fn lemma_load_step(m: Machine)
    requires
        !m.at_end(),
        m.opcode() == Opcode::LOAD,
        m.fault_at_counter().is_none(),
        m.registers.len() == REGISTER_COUNT,
    ensures
        m.step().pc == m.pc + 4,
        m.step().registers[m.byte(1) as int] == m.byte(2) * 256 + m.byte(3),
        !m.stops(),
{
}

/// A jump that is taken and raises no fault puts the counter on its target,
/// wherever the instruction stood.
pub proof fn lemma_taken_jump_lands_on_target(m: Machine)
    requires
        !m.at_end(),
        m.fault_at_counter().is_none(),
        m.jump_target().is_some(),
    ensures
        m.step().pc == m.jump_target().unwrap(),
        m.step().registers == m.registers,
        !m.stops(),
{
}

/// No step changes the program or the number of registers. Every step
/// records whether and why it tells its caller to stop. A step at the end of
/// the program, and one that reports a fault other than an unmapped opcode,
/// changes nothing but that record.
pub proof fn lemma_step_keeps_shape(m: Machine)
    requires
        m.registers.len() == REGISTER_COUNT,
    ensures
        m.step().program == m.program,
        m.step().registers.len() == m.registers.len(),
        m.step().stop == m.stop_at_counter(),
        m.step().stop.is_some() <==> m.stops(),
        m.step().stop.is_some() && m.step().stop != Some(Stop::Halt) && m.step().stop != Some(
            Stop::Fault(Fault::IllegalOpcode),
        ) ==> m.step() == (Machine { stop: m.step().stop, ..m }),
{
}

/// A run ends with the first step that tells it to stop: where the step
/// after `n` others is the first to say so, and the limit allows for it, the
/// run takes those `n + 1` steps and no more.
pub proof fn lemma_run_ends_with_first_stop(m: Machine, limit: nat, n: nat)
    requires
        n < limit,
        m.after(n).stops(),
        forall|k: nat| k < n ==> !(#[trigger] m.after(k)).stops(),
    ensures
        m.stops_within(limit),
        m.run_for(limit) == m.after(n + 1),
    decreases n,
{
    if n > 0 {
        assert(!m.after(0).stops());
        let next = m.step();
        assert forall|k: nat| k < n - 1 implies !(#[trigger] next.after(k)).stops() by {
            assert(next.after(k) == m.after(k + 1));
        }
        assert(next.after((n - 1) as nat) == m.after(n));
        lemma_run_ends_with_first_stop(next, (limit - 1) as nat, (n - 1) as nat);
        assert(m.after(n + 1) == next.after(n));
    } else {
        assert(m.after(0) == m);
        assert(m.after(1) == m.step().after(0));
    }
}

/// A run in which no step tells it to stop takes as many steps as its limit
/// allows.
pub proof fn lemma_run_reaches_limit(m: Machine, limit: nat)
    requires
        forall|k: nat| k < limit ==> !(#[trigger] m.after(k)).stops(),
    ensures
        !m.stops_within(limit),
        m.run_for(limit) == m.after(limit),
    decreases limit,
{
    if limit > 0 {
        assert(!m.after(0).stops());
        let next = m.step();
        assert forall|k: nat| k < limit - 1 implies !(#[trigger] next.after(k)).stops() by {
            assert(next.after(k) == m.after(k + 1));
        }
        lemma_run_reaches_limit(next, (limit - 1) as nat);
    }
}

/// The machine itself.
#[derive(Debug)]
pub struct VM {
    /// The register file.
    pub registers: [i32; 32],
    /// The address of the next byte to fetch.
    pub pc: usize,
    /// The bytes of the program.
    pub program: Vec<u8>,
    /// What the last division left over.
    pub remainder: u32,
    /// The result of the last comparison.
    pub equal: bool,
    /// Why the last step told its caller to stop, if it did.
    pub stop: Option<Stop>,
}

impl View for VM {
    type V = Machine;

    open spec fn view(&self) -> Machine {
        Machine {
            registers: self.registers@,
            pc: self.pc as nat,
            program: self.program@,
            remainder: self.remainder,
            equal: self.equal,
            stop: self.stop,
        }
    }
}

impl VM {
    /// A machine with every register zero and no program.
    pub fn new() -> (vm: VM)
        ensures
            vm@.registers =~= Seq::new(REGISTER_COUNT as nat, |i: int| 0i32),
            vm@.pc == 0,
            vm@.program =~= Seq::<u8>::empty(),
            vm@.remainder == 0,
            !vm@.equal,
            vm@.stop.is_none(),
    {
        VM {
            registers: [0;32],
            pc: 0,
            program: Vec::new(),
            remainder: 0,
            equal: false,
            stop: None,
        }
    }

    /// Appends one byte to the program; nothing else changes.
    pub fn add_byte(&mut self, byte: u8)
        ensures
            final(self)@ == (Machine { program: old(self)@.program.push(byte), ..old(self)@ }),
    {
        self.program.push(byte);
    }

    /// Takes one step after another until one of them tells the caller to
    /// stop, and says whether one did: a program that is still going after
    /// `STEP_LIMIT` steps is left where it is then.
    pub fn run(&mut self) -> (stopped: bool)
        ensures
            final(self)@ == old(self)@.run_for(STEP_LIMIT as nat),
            stopped == old(self)@.stops_within(STEP_LIMIT as nat),
    {
        let mut left: u64 = STEP_LIMIT;
        let mut is_done = false;
        while !is_done && left > 0
            invariant
                is_done ==> old(self)@.stops_within(STEP_LIMIT as nat) && self@ == old(self)@.run_for(
                    STEP_LIMIT as nat,
                ),
                !is_done ==> old(self)@.stops_within(STEP_LIMIT as nat) == self@.stops_within(
                    left as nat,
                ) && old(self)@.run_for(STEP_LIMIT as nat) == self@.run_for(left as nat),
            decreases left,
        {
            is_done = self.execute_instruction();
            left = left - 1;
        }
        is_done
    }

    /// Takes one step, and says whether it tells the caller to stop.
    pub fn run_once(&mut self) -> (halted: bool)
        ensures
            final(self)@ == old(self)@.step(),
            halted == old(self)@.stops(),
            halted == final(self)@.stop.is_some(),
    {
        self.execute_instruction()
    }

    fn decode_opcode(&mut self) -> (opcode: Opcode)
        requires
            !old(self)@.at_end(),
        ensures
            opcode == old(self)@.opcode(),
            final(self)@ == (Machine { pc: old(self)@.pc + 1, ..old(self)@ }),
    {
        assert(self.program@.len() == self.program.len());
        let opcode = Opcode::from(self.program[self.pc]);
        self.pc += 1;
        opcode
    }

    fn next_8_bits(&mut self) -> (byte: u8)
        requires
            !old(self)@.at_end(),
        ensures
            byte == old(self)@.byte(0),
            final(self)@ == (Machine { pc: old(self)@.pc + 1, ..old(self)@ }),
    {
        assert(self.program@.len() == self.program.len());
        let result = self.program[self.pc];
        self.pc += 1;
        result
    }

    fn next_16_bits(&mut self) -> (value: u16)
        requires
            old(self)@.pc + 1 < old(self)@.program.len(),
        ensures
            value == old(self)@.byte(0) * 256 + old(self)@.byte(1),
            final(self)@ == (Machine { pc: old(self)@.pc + 2, ..old(self)@ }),
    {
        assert(self.program@.len() == self.program.len());
        let high = self.program[self.pc] as u16;
        let low = self.program[self.pc + 1] as u16;
        self.pc += 2;
        high * 256 + low
    }

    /// Puts the counter back on the instruction that starts at `start` and
    /// records why it was not carried out.
    fn raise(&mut self, start: usize, fault: Fault) -> (halted: bool)
        ensures
            halted,
            final(self)@ == (Machine {
                pc: start as nat,
                stop: Some(Stop::Fault(fault)),
                ..old(self)@
            }),
    {
        self.pc = start;
        self.stop = Some(Stop::Fault(fault));
        true
    }

    fn execute_instruction(&mut self) -> (halted: bool)
        ensures
            final(self)@ == old(self)@.step(),
            halted == old(self)@.stops(),
    {
        if self.pc >= self.program.len() {
            self.stop = Some(Stop::EndOfProgram);
            return true;
        }
        self.stop = None;
        let start = self.pc;
        let opcode = self.decode_opcode();
        match opcode {
            Opcode::HLT => {
                self.stop = Some(Stop::Halt);
                return true;
            },
            Opcode::IGL => {
                self.stop = Some(Stop::Fault(Fault::IllegalOpcode));
                return true;
            },
            _ => {},
        }
        if self.program.len() - self.pc < 3 {
            return self.raise(start, Fault::TruncatedInstruction);
        }
        match opcode {
            Opcode::LOAD => {
                let register = self.next_8_bits() as usize;
                let number = self.next_16_bits();
                if register >= REGISTER_COUNT {
                    return self.raise(start, Fault::RegisterOutOfRange);
                }
                self.registers[register] = number as i32;
                assert(self@.registers =~= old(self)@.registers_after());
            },
            Opcode::ADD | Opcode::SUB | Opcode::MUL | Opcode::DIV => {
                let first = self.next_8_bits() as usize;
                let second = self.next_8_bits() as usize;
                let target = self.next_8_bits() as usize;
                if first >= REGISTER_COUNT || second >= REGISTER_COUNT || target
                    >= REGISTER_COUNT {
                    return self.raise(start, Fault::RegisterOutOfRange);
                }
                let left = self.registers[first];
                let right = self.registers[second];
                let value = match opcode {
                    Opcode::ADD => wrapping_sum(left, right),
                    Opcode::SUB => wrapping_difference(left, right),
                    Opcode::MUL => wrapping_product(left, right),
                    _ => {
                        if right == 0 {
                            return self.raise(start, Fault::DivisionByZero);
                        }
                        self.remainder = remainder_bits(left, right);
                        wrapping_quotient(left, right)
                    },
                };
                self.registers[target] = value;
                assert(self@.registers =~= old(self)@.registers_after());
            },
            Opcode::JMP | Opcode::JMPF | Opcode::JMPB | Opcode::JEQ | Opcode::JNEQ => {
                let register = self.next_8_bits() as usize;
                self.next_8_bits();
                self.next_8_bits();
                if register >= REGISTER_COUNT {
                    return self.raise(start, Fault::RegisterOutOfRange);
                }
                let value = self.registers[register];
                let taken = match opcode {
                    Opcode::JEQ => self.equal,
                    Opcode::JNEQ => !self.equal,
                    _ => true,
                };
                if taken {
                    let target = match opcode {
                        Opcode::JMPF => displaced(start + 2, value as i64),
                        Opcode::JMPB => displaced(start + 2, -(value as i64)),
                        _ => displaced(0, value as i64),
                    };
                    match target {
                        Ok(address) => {
                            self.pc = address;
                        },
                        Err(fault) => {
                            return self.raise(start, fault);
                        },
                    }
                }
            },
            Opcode::EQ | Opcode::NEQ | Opcode::LT | Opcode::GT | Opcode::LTQ | Opcode::GTQ => {
                let first = self.next_8_bits() as usize;
                let second = self.next_8_bits() as usize;
                self.next_8_bits();
                if first >= REGISTER_COUNT || second >= REGISTER_COUNT {
                    return self.raise(start, Fault::RegisterOutOfRange);
                }
                let left = self.registers[first];
                let right = self.registers[second];
                self.equal = match opcode {
                    Opcode::EQ => left == right,
                    Opcode::NEQ => left != right,
                    Opcode::LT => left < right,
                    Opcode::GT => left > right,
                    Opcode::LTQ => left <= right,
                    _ => left >= right,
                };
            },
            Opcode::HLT | Opcode::IGL => {},
        }
        false
    }
}

/// The sum of two register values, wrapped around.
fn wrapping_sum(left: i32, right: i32) -> (value: i32)
    ensures
        value == wrap32(left + right),
{
    left.wrapping_add(right)
}

/// The difference of two register values, wrapped around.
fn wrapping_difference(left: i32, right: i32) -> (value: i32)
    ensures
        value == wrap32(left - right),
{
    left.wrapping_sub(right)
}

/// The product of two register values, wrapped around.
fn wrapping_product(left: i32, right: i32) -> (value: i32)
    ensures
        value == wrap32(left * right),
{
    left.wrapping_mul(right)
}

/// The quotient of two register values, rounded toward zero and wrapped
/// around: the one quotient that does not fit, `i32::MIN / -1`, comes out as
/// `i32::MIN`.
fn wrapping_quotient(left: i32, right: i32) -> (value: i32)
    requires
        right != 0,
    ensures
        value == wrap32(quotient_toward_zero(left as int, right as int)),
{
    proof {
        let a = magnitude(left as int);
        let b = magnitude(right as int);
        lemma_div_pos_is_pos(a, b);
        lemma_div_nonincreasing(a, b);
        if a == 0 {
            lemma_basic_div(a, b);
        }
    }
    match left.checked_div(right) {
        Some(quotient) => quotient,
        None => i32::MIN,
    }
}

/// The bits of the remainder of a division that rounds toward zero.
fn remainder_bits(left: i32, right: i32) -> (bits: u32)
    requires
        right != 0,
    ensures
        bits == unsigned_bits(remainder_toward_zero(left as int, right as int) as i32),
{
    proof {
        let a = magnitude(left as int);
        let b = magnitude(right as int);
        lemma_mod_pos_bound(a, b);
        if a == 0 {
            lemma_small_mod(0, b as nat);
        }
    }
    let remainder = match left.checked_rem(right) {
        Some(remainder) => remainder,
        None => 0,
    };
    if remainder < 0 {
        (remainder as i64 + 0x1_0000_0000) as u32
    } else {
        remainder as u32
    }
}

/// The address `offset` bytes from `base`, or the fault of a jump that leaves
/// the range of addresses.
fn displaced(base: usize, offset: i64) -> (target: Result<usize, Fault>)
    requires
        -0x8000_0000 <= offset <= 0x8000_0000,
    ensures
        base + offset < 0 ==> target == Err::<usize, Fault>(Fault::CounterUnderflow),
        base + offset > usize::MAX ==> target == Err::<usize, Fault>(Fault::CounterOverflow),
        0 <= base + offset <= usize::MAX ==> target == Ok::<usize, Fault>(
            (base + offset) as usize,
        ),
{
    if offset >= 0 {
        match base.checked_add(offset as usize) {
            Some(address) => Ok(address),
            None => Err(Fault::CounterOverflow),
        }
    } else {
        let back = (-offset) as usize;
        if back <= base {
            Ok(base - back)
        } else {
            Err(Fault::CounterUnderflow)
        }
    }
}

} // verus!
