//! The decisions of an interactive session: what a line of input asks for,
//! and what it does to the machine. Reading the lines and printing the
//! answers is left to the host.

use vstd::prelude::*;
use crate::assembler::ParseError;
use crate::assembler::program_parser::{assemble, assembly};
use crate::repl::hex::{hex_bytes, parse_hex};
use crate::text::same_text;
use crate::vm::{Machine, REGISTER_COUNT, VM};

pub mod hex;

verus! {

/// What `str::trim` makes of a text: the text without the white space at its
/// two ends.
pub uninterp spec fn trimmed(line: Seq<char>) -> Seq<char>;

/// `str::trim`: the result is named, not described.
#[verifier::external_body]
fn trim<'a>(line: &'a str) -> (text: &'a str)
    ensures
        text@ == trimmed(line@),
{
    line.trim()
}

/// What a line of input asks for.
#[derive(Debug, Clone, Copy, PartialEq, Eq, Structural)]
pub enum Command {
    /// To see the lines entered so far.
    History,
    /// To see the registers.
    Registers,
    /// To end the session.
    Quit,
    /// To append the line's bytes to the program and run it.
    Program,
}

/// The two ways in which a line can hold program bytes.
#[derive(Debug, Clone, Copy, PartialEq, Eq, Structural)]
pub enum Mode {
    /// One instruction in mnemonic text.
    Assembly,
    /// The bytes themselves, in hexadecimal digits.
    Hex,
}

/// Why a line was turned down.
#[derive(Debug, Clone, Copy, PartialEq, Eq, Structural)]
pub enum Rejection {
    /// The line is no instruction.
    Parse(ParseError),
    /// The line is no row of bytes.
    Hex,
}

/// What the host is to do after a line.
#[derive(Debug, Clone, Copy, PartialEq, Eq, Structural)]
pub enum Reply {
    /// Show the lines entered so far.
    History,
    /// Show the registers.
    Registers,
    /// End the session.
    Quit,
    /// The line's bytes were appended to the program, and the machine took
    /// one step, which told the caller to stop or did not.
    Stepped { halted: bool },
    /// The line was turned down, and the machine is as it was.
    Rejected { reason: Rejection },
}

/// A session as a mathematical value.
pub struct Session {
    pub vm: Machine,
    pub history: Seq<Seq<char>>,
}

/// What a line, without the white space at its ends, asks for.
pub open spec fn command_of(text: Seq<char>) -> Command {
    if text == "history"@ {
        Command::History
    } else if text == "registers"@ {
        Command::Registers
    } else if text == "quit"@ || text == "q"@ {
        Command::Quit
    } else {
        Command::Program
    }
}

/// The program bytes that a line holds, read in the given way.
pub open spec fn bytes_of(text: Seq<char>, mode: Mode) -> Result<Seq<u8>, Rejection> {
    match mode {
        Mode::Assembly => match assembly(text) {
            Ok(bytes) => Ok(bytes),
            Err(error) => Err(Rejection::Parse(error)),
        },
        Mode::Hex => match hex_bytes(text) {
            Some(bytes) => Ok(bytes),
            None => Err(Rejection::Hex),
        },
    }
}

/// The machine with `bytes` appended to its program.
pub open spec fn loaded(vm: Machine, bytes: Seq<u8>) -> Machine {
    Machine { program: vm.program + bytes, ..vm }
}

impl Session {
    /// The session after a line: the line is in the history, whatever it
    /// asked for. Only a line that holds program bytes touches the machine:
    /// the bytes are appended and one step is taken. A line that is turned
    /// down leaves the machine as it was.
    pub open spec fn after(self, text: Seq<char>, mode: Mode) -> Session {
        Session {
            vm: if command_of(text) == Command::Program {
                match bytes_of(text, mode) {
                    Ok(bytes) => loaded(self.vm, bytes).step(),
                    Err(_) => self.vm,
                }
            } else {
                self.vm
            },
            history: self.history.push(text),
        }
    }

    /// The reply to a line.
    pub open spec fn reply(self, text: Seq<char>, mode: Mode) -> Reply {
        match command_of(text) {
            Command::History => Reply::History,
            Command::Registers => Reply::Registers,
            Command::Quit => Reply::Quit,
            Command::Program => match bytes_of(text, mode) {
                Ok(bytes) => Reply::Stepped { halted: loaded(self.vm, bytes).stops() },
                Err(reason) => Reply::Rejected { reason },
            },
        }
    }
}

/// An interactive session: a machine and the lines entered so far.
#[derive(Debug)]
pub struct REPL {
    vm: VM,
    commands_buffer: Vec<String>,
}

impl View for REPL {
    type V = Session;

    closed spec fn view(&self) -> Session {
        Session { vm: self.vm@, history: self.commands_buffer@.map_values(|line: String| line@) }
    }
}

impl REPL {
    /// A session with a fresh machine and no history.
    pub fn new() -> (repl: REPL)
        ensures
            repl@.vm.registers =~= Seq::new(REGISTER_COUNT as nat, |i: int| 0i32),
            repl@.vm.pc == 0,
            repl@.vm.program =~= Seq::<u8>::empty(),
            repl@.vm.remainder == 0,
            !repl@.vm.equal,
            repl@.vm.stop.is_none(),
            repl@.history =~= Seq::<Seq<char>>::empty(),
    {
        REPL { vm: VM::new(), commands_buffer: Vec::new() }
    }

    /// The machine of the session.
    pub fn vm(&self) -> (vm: &VM)
        ensures
            vm@ == self@.vm,
    {
        &self.vm
    }

    /// The lines entered so far, oldest first.
    pub fn history(&self) -> (lines: &Vec<String>)
        ensures
            lines@.map_values(|line: String| line@) == self@.history,
    {
        &self.commands_buffer
    }

    /// What a line, without the white space at its ends, asks for.
    pub fn classify(text: &str) -> (command: Command)
        ensures
            command == command_of(text@),
    {
        if same_text(text, "history") {
            Command::History
        } else if same_text(text, "registers") {
            Command::Registers
        } else if same_text(text, "quit") || same_text(text, "q") {
            Command::Quit
        } else {
            Command::Program
        }
    }

    /// The program bytes that a line holds, read in the given way.
    pub fn decode_line(text: &str, mode: Mode) -> (bytes: Result<Vec<u8>, Rejection>)
        ensures
            match bytes {
                Ok(row) => bytes_of(text@, mode) == Ok::<Seq<u8>, Rejection>(row@),
                Err(reason) => bytes_of(text@, mode) == Err::<Seq<u8>, Rejection>(reason),
            },
    {
        match mode {
            Mode::Assembly => match assemble(text) {
                Ok(row) => Ok(row),
                Err(error) => Err(Rejection::Parse(error)),
            },
            Mode::Hex => match parse_hex(text) {
                Some(row) => Ok(row),
                None => Err(Rejection::Hex),
            },
        }
    }

    /// Takes a line of mnemonic text as it was read, drops the white space at
    /// its ends and handles what is left.
    pub fn submit(&mut self, line: &str) -> (reply: Reply)
        ensures
            final(self)@ == old(self)@.after(trimmed(line@), Mode::Assembly),
            reply == old(self)@.reply(trimmed(line@), Mode::Assembly),
    {
        let text = trim(line);
        self.handle(text, Mode::Assembly)
    }

    /// Takes a line of hexadecimal bytes as it was read, drops the white
    /// space at its ends and handles what is left.
    pub fn submit_hex(&mut self, line: &str) -> (reply: Reply)
        ensures
            final(self)@ == old(self)@.after(trimmed(line@), Mode::Hex),
            reply == old(self)@.reply(trimmed(line@), Mode::Hex),
    {
        let text = trim(line);
        self.handle(text, Mode::Hex)
    }

    /// Handles a line that has no white space at its ends: records it, and
    /// either tells the host what to show, or appends the bytes that the line
    /// holds to the program and lets the machine take one step.
    pub fn handle(&mut self, text: &str, mode: Mode) -> (reply: Reply)
        ensures
            final(self)@ == old(self)@.after(text@, mode),
            reply == old(self)@.reply(text@, mode),
    {
        self.commands_buffer.push(text.to_owned());
        assert(self@.history =~= old(self)@.history.push(text@));
        match Self::classify(text) {
            Command::History => Reply::History,
            Command::Registers => Reply::Registers,
            Command::Quit => Reply::Quit,
            Command::Program => match Self::decode_line(text, mode) {
                Ok(bytes) => {
                    let halted = self.load_and_step(&bytes);
                    Reply::Stepped { halted }
                },
                Err(reason) => Reply::Rejected { reason },
            },
        }
    }

    /// Appends bytes to the program and lets the machine take one step.
    fn load_and_step(&mut self, bytes: &Vec<u8>) -> (halted: bool)
        ensures
            final(self)@.vm == loaded(old(self)@.vm, bytes@).step(),
            final(self)@.history == old(self)@.history,
            halted == loaded(old(self)@.vm, bytes@).stops(),
    {
        let mut i: usize = 0;
        while i < bytes.len()
            invariant
                i <= bytes.len(),
                self.commands_buffer == old(self).commands_buffer,
                self.vm@ == loaded(old(self).vm@, bytes@.take(i as int)),
            decreases bytes.len() - i,
        {
            self.vm.add_byte(bytes[i]);
            assert(bytes@.take(i + 1 as int) =~= bytes@.take(i as int).push(bytes[i as int]));
            assert(self.vm@.program =~= old(self).vm@.program + bytes@.take(i + 1 as int));
            i += 1;
        }
        assert(bytes@.take(i as int) =~= bytes@);
        self.vm.run_once()
    }
}

} // verus!
