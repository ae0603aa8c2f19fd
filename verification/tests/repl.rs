use virian::assembler::ParseError;
use virian::repl::hex::parse_hex;
use virian::repl::{Command, Mode, Rejection, Reply, REPL};
use virian::vm::{Fault, Stop};

#[test]
fn a_new_session_has_a_fresh_machine_and_no_history() {
    let repl = REPL::new();
    assert!(repl.history().is_empty());
    assert_eq!(repl.vm().registers, [0; 32]);
    assert_eq!(repl.vm().pc, 0);
    assert!(repl.vm().program.is_empty());
    assert_eq!(repl.vm().stop, None);
}

#[test]
fn lines_are_classified_by_their_whole_text() {
    assert_eq!(REPL::classify("history"), Command::History);
    assert_eq!(REPL::classify("registers"), Command::Registers);
    assert_eq!(REPL::classify("quit"), Command::Quit);
    assert_eq!(REPL::classify("q"), Command::Quit);
    assert_eq!(REPL::classify("hlt"), Command::Program);
    assert_eq!(REPL::classify("History"), Command::Program);
    assert_eq!(REPL::classify(" quit"), Command::Program);
    assert_eq!(REPL::classify(""), Command::Program);
}

#[test]
fn submit_drops_the_white_space_at_the_ends_of_the_line() {
    let mut repl = REPL::new();
    assert_eq!(repl.submit("  history \n"), Reply::History);
    assert_eq!(repl.submit("registers\r\n"), Reply::Registers);
    assert_eq!(repl.submit("\tq\n"), Reply::Quit);
    assert_eq!(repl.submit("quit"), Reply::Quit);
    assert_eq!(repl.history(), &vec!["history", "registers", "q", "quit"]);
    assert!(repl.vm().program.is_empty());
}

#[test]
fn submit_hex_drops_the_white_space_at_the_ends_of_the_line() {
    let mut repl = REPL::new();
    assert_eq!(repl.submit_hex("  00 00 01 F4 \n"), Reply::Stepped { halted: false });
    assert_eq!(repl.submit_hex(" registers\n"), Reply::Registers);
    assert_eq!(repl.history(), &vec!["00 00 01 F4", "registers"]);
    assert_eq!(repl.vm().registers[0], 500);
}

#[test]
fn handle_takes_the_line_as_it_is() {
    let mut repl = REPL::new();
    assert_eq!(
        repl.handle(" quit", Mode::Assembly),
        Reply::Rejected { reason: Rejection::Parse(ParseError::LetterExpected) }
    );
    assert_eq!(repl.handle("06 ", Mode::Hex), Reply::Rejected { reason: Rejection::Hex });
    assert_eq!(repl.history(), &vec![" quit", "06 "]);
    assert!(repl.vm().program.is_empty());
}

#[test]
fn a_line_is_decoded_in_either_way() {
    assert_eq!(REPL::decode_line("load $1 #258", Mode::Assembly), Ok(vec![0, 1, 1, 2]));
    assert_eq!(REPL::decode_line("00 01 01 02", Mode::Hex), Ok(vec![0, 1, 1, 2]));
    assert_eq!(
        REPL::decode_line("00 01 01 02", Mode::Assembly),
        Err(Rejection::Parse(ParseError::LetterExpected))
    );
    assert_eq!(REPL::decode_line("load $1 #258", Mode::Hex), Err(Rejection::Hex));
}

#[test]
fn program_text_is_assembled_appended_and_stepped() {
    let mut repl = REPL::new();
    assert_eq!(repl.submit("load $0 #100\n"), Reply::Stepped { halted: false });
    assert_eq!(repl.vm().program, vec![0, 0, 0, 100]);
    assert_eq!(repl.vm().registers[0], 100);
    assert_eq!(repl.vm().pc, 4);
    assert_eq!(repl.submit("load $1 #7\n"), Reply::Stepped { halted: false });
    assert_eq!(repl.submit("sub $0 $1 $2\n"), Reply::Stepped { halted: false });
    assert_eq!(repl.vm().registers[2], 93);
    assert_eq!(repl.submit("hlt\n"), Reply::Stepped { halted: true });
    assert_eq!(repl.vm().pc, 13);
    assert_eq!(repl.vm().stop, Some(Stop::Halt));
    assert_eq!(repl.history().len(), 4);
}

#[test]
fn hexadecimal_bytes_are_appended_and_one_step_is_taken() {
    let mut repl = REPL::new();
    assert_eq!(
        repl.submit_hex("00 00 00 07 00 01 00 03"),
        Reply::Stepped { halted: false }
    );
    assert_eq!(repl.vm().program, vec![0, 0, 0, 7, 0, 1, 0, 3]);
    assert_eq!(repl.vm().pc, 4);
    assert_eq!(repl.vm().registers[0], 7);
    assert_eq!(repl.vm().registers[1], 0);
    assert_eq!(repl.submit_hex("03 00 01 02"), Reply::Stepped { halted: false });
    assert_eq!(repl.vm().registers[1], 3);
    assert_eq!(repl.vm().pc, 8);
    assert_eq!(repl.submit_hex("06"), Reply::Stepped { halted: false });
    assert_eq!(repl.vm().registers[2], 21);
    assert_eq!(repl.submit_hex("c8"), Reply::Stepped { halted: true });
    assert_eq!(repl.vm().stop, Some(Stop::Halt));
    assert_eq!(repl.vm().pc, 13);
}

#[test]
fn a_line_that_is_turned_down_leaves_the_machine_as_it_was() {
    let mut repl = REPL::new();
    repl.submit("load $0 #100");
    for (line, error) in [
        ("", ParseError::LetterExpected),
        ("load $0", ParseError::IntegerExpected),
        ("load #1", ParseError::RegisterExpected),
        ("load $0 #", ParseError::DigitExpected),
        ("load $256 #1", ParseError::RegisterTooLarge),
        ("load $0 #2147483648", ParseError::IntegerTooLarge),
        ("hlt hlt", ParseError::TrailingText),
    ] {
        assert_eq!(
            repl.submit(line),
            Reply::Rejected { reason: Rejection::Parse(error) },
            "{:?}",
            line
        );
        assert_eq!(repl.vm().program, vec![0, 0, 0, 100]);
        assert_eq!(repl.vm().pc, 4);
        assert_eq!(repl.vm().registers[0], 100);
        assert_eq!(repl.vm().stop, None);
    }
    assert_eq!(repl.submit_hex("0x06"), Reply::Rejected { reason: Rejection::Hex });
    assert_eq!(repl.vm().program, vec![0, 0, 0, 100]);
    assert_eq!(repl.history().len(), 9);
}

#[test]
fn a_fault_is_reported_by_the_step_and_kept_in_the_machine() {
    let mut repl = REPL::new();
    assert_eq!(repl.submit("div $0 $1 $2"), Reply::Stepped { halted: true });
    assert_eq!(repl.vm().stop, Some(Stop::Fault(Fault::DivisionByZero)));
    assert_eq!(repl.vm().pc, 0);
    let mut repl = REPL::new();
    assert_eq!(repl.submit("frobnicate"), Reply::Stepped { halted: true });
    assert_eq!(repl.vm().stop, Some(Stop::Fault(Fault::IllegalOpcode)));
    assert_eq!(repl.vm().program, vec![17]);
    assert_eq!(repl.vm().pc, 1);
}

#[test]
fn hexadecimal_rows_are_read_pair_by_pair() {
    assert_eq!(parse_hex("00"), Some(vec![0]));
    assert_eq!(parse_hex("ff"), Some(vec![255]));
    assert_eq!(parse_hex("Ff"), Some(vec![255]));
    assert_eq!(parse_hex("0a 1B c3"), Some(vec![10, 27, 195]));
    assert_eq!(parse_hex("01 02 03 E8"), Some(vec![1, 2, 3, 232]));
    assert_eq!(parse_hex("10"), Some(vec![16]));
}

#[test]
fn what_is_no_row_of_hexadecimal_pairs_is_turned_down() {
    for text in [
        "", "0", "000", "0 0", "00 ", " 00", "00  01", "00 0", "0g", "g0", "00,01", "00\t01",
        "0x", "+1", "-1", "٠٠", "00 é1", "ａ0",
    ] {
        assert_eq!(parse_hex(text), None, "{:?}", text);
    }
}
