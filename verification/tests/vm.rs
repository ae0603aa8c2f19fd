use virian::vm::{Fault, Stop, REGISTER_COUNT, STEP_LIMIT, VM};

#[test]
fn test_create_vm() {
    let test_vm = VM::new();
    assert_eq!(test_vm.registers[0], 0)
}

#[test]
fn test_opcode_hlt() {
    let mut test_vm = VM::new();
    let test_bytes = vec![6, 0, 0, 0];
    test_vm.program = test_bytes;
    test_vm.run();
    assert_eq!(test_vm.pc, 1);
}

#[test]
fn test_opcode_igl() {
    let mut test_vm = VM::new();
    let test_bytes = vec![200, 0, 0, 0];
    test_vm.program = test_bytes;
    test_vm.run();
    assert_eq!(test_vm.pc, 1);
}

#[test]
fn test_load_opcode() {
    let mut test_vm = VM::new();
    test_vm.program = vec![0, 0, 1, 244];
    test_vm.run();
    assert_eq!(test_vm.registers[0], 500);
}

#[test]
fn test_jmp_opcode() {
    let mut test_vm = VM::new();
    test_vm.registers[0] = 1;
    test_vm.program = vec![5, 0, 0, 0];
    test_vm.run_once();
    assert_eq!(test_vm.pc, 1);
}

#[test]
fn test_jmpf_opcode() {
    let mut test_vm = VM::new();
    test_vm.registers[0] = 2;
    test_vm.program = vec![7, 0, 0, 0, 6, 0, 0, 0];
    test_vm.run_once();
    assert_eq!(test_vm.pc, 4);
}

#[test]
fn test_jmpb_opcode() {
    let mut test_vm = VM::new();
    test_vm.pc = 8;
    test_vm.registers[0] = 4;
    test_vm.program = vec![0, 0, 0, 4, 0, 1, 0, 2, 8, 0, 0, 0];
    test_vm.run_once();
    assert_eq!(test_vm.pc, 6);
}

#[test]
fn test_eq_opcode() {
    let mut test_vm = VM::new();
    test_vm.registers[0] = 10;
    test_vm.registers[1] = 10;
    test_vm.program = vec![9, 0, 1, 0, 9, 0, 1, 0];
    test_vm.run_once();
    assert_eq!(test_vm.equal, true);
    test_vm.registers[1] = 20;
    test_vm.run_once();
    assert_eq!(test_vm.equal, false);
}

#[test]
fn test_jeq_opcode() {
    let mut test_vm = VM::new();
    test_vm.registers[0] = 7;
    test_vm.equal = true;
    test_vm.program = vec![15, 0, 0, 0, 17, 0, 0, 0, 17, 0, 0, 0];
    test_vm.run_once();
    assert_eq!(test_vm.pc, 7);
}

fn machine(program: Vec<u8>) -> VM {
    let mut vm = VM::new();
    vm.program = program;
    vm
}

#[test]
fn a_new_machine_is_all_zero() {
    let vm = VM::new();
    assert_eq!(vm.registers, [0; 32]);
    assert_eq!(vm.registers.len(), REGISTER_COUNT);
    assert_eq!(vm.pc, 0);
    assert!(vm.program.is_empty());
    assert_eq!(vm.remainder, 0);
    assert!(!vm.equal);
    assert_eq!(vm.stop, None);
}

#[test]
fn add_byte_appends_and_touches_nothing_else() {
    let mut vm = VM::new();
    vm.registers[3] = 9;
    vm.pc = 2;
    vm.add_byte(6);
    vm.add_byte(200);
    assert_eq!(vm.program, vec![6, 200]);
    assert_eq!(vm.registers[3], 9);
    assert_eq!(vm.pc, 2);
}

#[test]
fn a_step_at_the_end_of_the_program_halts_and_changes_nothing() {
    let mut vm = VM::new();
    assert!(vm.run_once());
    assert_eq!(vm.pc, 0);
    assert_eq!(vm.stop, Some(Stop::EndOfProgram));
    let mut vm = machine(vec![6]);
    vm.pc = 5;
    vm.registers[7] = 7;
    vm.stop = Some(Stop::Fault(Fault::DivisionByZero));
    assert!(vm.run_once());
    assert_eq!(vm.pc, 5);
    assert_eq!(vm.registers[7], 7);
    assert_eq!(vm.stop, Some(Stop::EndOfProgram));
}

#[test]
fn hlt_alone_leaves_the_counter_at_one_and_halts() {
    let mut vm = machine(vec![6]);
    assert!(vm.run_once());
    assert_eq!(vm.pc, 1);
    assert_eq!(vm.stop, Some(Stop::Halt));
}

#[test]
fn an_unmapped_opcode_halts_with_its_fault_and_is_consumed() {
    let mut vm = machine(vec![200, 0, 0, 0]);
    assert!(vm.run_once());
    assert_eq!(vm.pc, 1);
    assert_eq!(vm.stop, Some(Stop::Fault(Fault::IllegalOpcode)));
    let mut vm = machine(vec![17]);
    assert!(vm.run_once());
    assert_eq!(vm.pc, 1);
    assert_eq!(vm.stop, Some(Stop::Fault(Fault::IllegalOpcode)));
}

#[test]
fn load_stores_the_immediate_and_advances_by_four() {
    let mut vm = machine(vec![0, 0, 1, 244]);
    assert!(!vm.run_once());
    assert_eq!(vm.registers[0], 500);
    assert_eq!(vm.pc, 4);
    let mut vm = machine(vec![0, 31, 255, 255]);
    assert!(!vm.run_once());
    assert_eq!(vm.registers[31], 65535);
    assert_eq!(vm.pc, 4);
}

#[test]
fn every_three_register_operation_that_is_no_taken_jump_advances_by_four() {
    for opcode in [1u8, 2, 3, 4, 9, 10, 11, 12, 13, 14, 15, 16] {
        let mut vm = machine(vec![6, opcode, 0, 1, 2, 6]);
        vm.pc = 1;
        vm.registers[0] = 12;
        vm.registers[1] = 5;
        // the flag is set so that the conditional jump of this round is not taken
        vm.equal = opcode == 16;
        assert!(!vm.run_once(), "opcode {}", opcode);
        assert_eq!(vm.pc, 5, "opcode {}", opcode);
        assert_eq!(vm.stop, None);
    }
}

#[test]
fn arithmetic_writes_the_third_register() {
    let mut vm = machine(vec![1, 0, 1, 2, 2, 0, 1, 3, 3, 0, 1, 4, 4, 0, 1, 5]);
    vm.registers[0] = 17;
    vm.registers[1] = 5;
    for _ in 0..4 {
        assert!(!vm.run_once());
    }
    assert_eq!(vm.registers[2], 22);
    assert_eq!(vm.registers[3], 12);
    assert_eq!(vm.registers[4], 85);
    assert_eq!(vm.registers[5], 3);
    assert_eq!(vm.remainder, 2);
    assert_eq!(vm.pc, 16);
}

#[test]
fn arithmetic_wraps_around() {
    let mut vm = machine(vec![1, 0, 1, 2, 2, 3, 1, 4, 3, 0, 0, 5]);
    vm.registers[0] = i32::MAX;
    vm.registers[1] = 1;
    vm.registers[3] = i32::MIN;
    vm.run_once();
    vm.run_once();
    vm.run_once();
    assert_eq!(vm.registers[2], i32::MIN);
    assert_eq!(vm.registers[4], i32::MAX);
    assert_eq!(vm.registers[5], 1);
}

#[test]
fn division_rounds_toward_zero() {
    let mut vm = machine(vec![4, 0, 1, 2]);
    vm.registers[0] = -7;
    vm.registers[1] = 2;
    assert!(!vm.run_once());
    assert_eq!(vm.registers[2], -3);
    assert_eq!(vm.remainder, 0xffff_ffff);
    let mut vm = machine(vec![4, 0, 1, 2]);
    vm.registers[0] = 7;
    vm.registers[1] = -2;
    assert!(!vm.run_once());
    assert_eq!(vm.registers[2], -3);
    assert_eq!(vm.remainder, 1);
    let mut vm = machine(vec![4, 0, 1, 2]);
    vm.registers[0] = -7;
    vm.registers[1] = -2;
    assert!(!vm.run_once());
    assert_eq!(vm.registers[2], 3);
    assert_eq!(vm.remainder, 0xffff_ffff);
}

#[test]
fn the_one_quotient_that_does_not_fit_wraps_around() {
    let mut vm = machine(vec![4, 0, 1, 2]);
    vm.registers[0] = i32::MIN;
    vm.registers[1] = -1;
    vm.remainder = 77;
    assert!(!vm.run_once());
    assert_eq!(vm.registers[2], i32::MIN);
    assert_eq!(vm.remainder, 0);
    assert_eq!(vm.stop, None);
}

#[test]
fn the_remainder_stays_until_the_next_division() {
    let mut vm = machine(vec![4, 0, 1, 2, 1, 0, 1, 2, 4, 1, 0, 2]);
    vm.registers[0] = 9;
    vm.registers[1] = 4;
    vm.run_once();
    assert_eq!(vm.remainder, 1);
    vm.run_once();
    assert_eq!(vm.remainder, 1);
    vm.run_once();
    assert_eq!(vm.remainder, 4);
}

#[test]
fn division_by_zero_is_a_fault_that_leaves_the_machine_untouched() {
    let mut vm = machine(vec![6, 4, 0, 1, 2]);
    vm.pc = 1;
    vm.registers[0] = 9;
    vm.registers[2] = 5;
    vm.remainder = 3;
    assert!(vm.run_once());
    assert_eq!(vm.stop, Some(Stop::Fault(Fault::DivisionByZero)));
    assert_eq!(vm.pc, 1);
    assert_eq!(vm.registers[2], 5);
    assert_eq!(vm.remainder, 3);
}

#[test]
fn a_register_index_above_31_is_a_fault() {
    for program in [
        vec![0u8, 32, 0, 1],
        vec![1, 32, 0, 0],
        vec![1, 0, 32, 0],
        vec![1, 0, 0, 32],
        vec![4, 0, 0, 255],
        vec![5, 32, 0, 0],
        vec![7, 200, 0, 0],
        vec![8, 32, 0, 0],
        vec![9, 32, 0, 0],
        vec![9, 0, 32, 0],
        vec![15, 32, 0, 0],
        vec![16, 32, 0, 0],
    ] {
        let mut vm = machine(program.clone());
        vm.registers[0] = 1;
        assert!(vm.run_once(), "{:?}", program);
        assert_eq!(vm.stop, Some(Stop::Fault(Fault::RegisterOutOfRange)), "{:?}", program);
        assert_eq!(vm.pc, 0);
        assert_eq!(vm.registers[0], 1);
    }
}

#[test]
fn bytes_that_are_not_read_as_registers_may_hold_anything() {
    let mut vm = machine(vec![9, 0, 1, 255]);
    assert!(!vm.run_once());
    assert!(vm.equal);
    assert_eq!(vm.pc, 4);
    let mut vm = machine(vec![5, 0, 99, 200]);
    vm.registers[0] = 3;
    assert!(!vm.run_once());
    assert_eq!(vm.pc, 3);
}

#[test]
fn an_instruction_cut_short_is_a_fault() {
    for program in [vec![0u8], vec![0, 0, 1], vec![1, 0, 1], vec![5, 0], vec![9, 0, 1]] {
        let mut vm = machine(program.clone());
        assert!(vm.run_once(), "{:?}", program);
        assert_eq!(vm.stop, Some(Stop::Fault(Fault::TruncatedInstruction)), "{:?}", program);
        assert_eq!(vm.pc, 0);
    }
}

#[test]
fn a_faulting_instruction_can_be_completed_and_run_again() {
    let mut vm = machine(vec![0, 4, 0]);
    assert!(vm.run_once());
    assert_eq!(vm.stop, Some(Stop::Fault(Fault::TruncatedInstruction)));
    vm.add_byte(9);
    assert!(!vm.run_once());
    assert_eq!(vm.stop, None);
    assert_eq!(vm.registers[4], 9);
    assert_eq!(vm.pc, 4);
}

#[test]
fn jmp_is_absolute() {
    let mut vm = machine(vec![6, 6, 6, 6, 5, 1, 0, 0]);
    vm.pc = 4;
    vm.registers[1] = 2;
    assert!(!vm.run_once());
    assert_eq!(vm.pc, 2);
    let mut vm = machine(vec![5, 1, 0, 0]);
    vm.registers[1] = 1000;
    assert!(!vm.run_once());
    assert_eq!(vm.pc, 1000);
    assert!(vm.run_once());
    assert_eq!(vm.pc, 1000);
}

#[test]
fn jmpf_and_jmpb_count_from_behind_the_first_operand() {
    let mut vm = machine(vec![6, 6, 7, 0, 0, 0]);
    vm.pc = 2;
    vm.registers[0] = 10;
    assert!(!vm.run_once());
    assert_eq!(vm.pc, 14);
    let mut vm = machine(vec![6, 6, 8, 0, 0, 0]);
    vm.pc = 2;
    vm.registers[0] = 4;
    assert!(!vm.run_once());
    assert_eq!(vm.pc, 0);
    let mut vm = machine(vec![6, 6, 7, 0, 0, 0]);
    vm.pc = 2;
    vm.registers[0] = -3;
    assert!(!vm.run_once());
    assert_eq!(vm.pc, 1);
    let mut vm = machine(vec![6, 6, 8, 0, 0, 0]);
    vm.pc = 2;
    vm.registers[0] = -3;
    assert!(!vm.run_once());
    assert_eq!(vm.pc, 7);
}

#[test]
fn a_jump_below_zero_is_a_fault() {
    let mut vm = machine(vec![8, 0, 0, 0]);
    vm.registers[0] = 3;
    assert!(vm.run_once());
    assert_eq!(vm.stop, Some(Stop::Fault(Fault::CounterUnderflow)));
    assert_eq!(vm.pc, 0);
    let mut vm = machine(vec![5, 0, 0, 0]);
    vm.registers[0] = -1;
    assert!(vm.run_once());
    assert_eq!(vm.stop, Some(Stop::Fault(Fault::CounterUnderflow)));
    let mut vm = machine(vec![7, 0, 0, 0]);
    vm.registers[0] = -3;
    assert!(vm.run_once());
    assert_eq!(vm.stop, Some(Stop::Fault(Fault::CounterUnderflow)));
    let mut vm = machine(vec![15, 0, 0, 0]);
    vm.registers[0] = i32::MIN;
    vm.equal = true;
    assert!(vm.run_once());
    assert_eq!(vm.stop, Some(Stop::Fault(Fault::CounterUnderflow)));
    let mut vm = machine(vec![8, 0, 0, 0]);
    vm.registers[0] = 2;
    assert!(!vm.run_once());
    assert_eq!(vm.pc, 0);
}

#[test]
fn a_jump_that_is_not_taken_ignores_its_target() {
    let mut vm = machine(vec![15, 0, 0, 0]);
    vm.registers[0] = -1;
    vm.equal = false;
    assert!(!vm.run_once());
    assert_eq!(vm.pc, 4);
    assert_eq!(vm.stop, None);
}

#[test]
fn comparisons_are_signed_and_set_the_flag() {
    let cases: [(u8, i32, i32, bool); 14] = [
        (9, 3, 3, true),
        (9, 3, 4, false),
        (10, 3, 4, true),
        (10, 3, 3, false),
        (11, -1, 1, true),
        (11, 1, -1, false),
        (11, 2, 2, false),
        (12, 2, 2, true),
        (12, 3, 2, false),
        (13, 1, -1, true),
        (13, -1, 1, false),
        (14, 2, 2, true),
        (14, -5, 2, false),
        (14, 5, 2, true),
    ];
    for (opcode, left, right, expected) in cases {
        let mut vm = machine(vec![opcode, 0, 1, 0]);
        vm.registers[0] = left;
        vm.registers[1] = right;
        vm.equal = !expected;
        assert!(!vm.run_once());
        assert_eq!(vm.equal, expected, "{} {} {}", opcode, left, right);
    }
}

#[test]
fn the_flag_stays_until_the_next_comparison() {
    let mut vm = machine(vec![9, 0, 0, 0, 1, 0, 0, 1, 0, 2, 0, 1]);
    vm.run_once();
    assert!(vm.equal);
    vm.run_once();
    assert!(vm.equal);
    vm.run_once();
    assert!(vm.equal);
}

#[test]
fn jeq_and_jneq_follow_the_flag() {
    let mut vm = machine(vec![15, 0, 0, 0]);
    vm.registers[0] = 7;
    vm.equal = true;
    assert!(!vm.run_once());
    assert_eq!(vm.pc, 7);
    let mut vm = machine(vec![15, 0, 0, 0]);
    vm.registers[0] = 7;
    assert!(!vm.run_once());
    assert_eq!(vm.pc, 4);
    let mut vm = machine(vec![16, 0, 0, 0]);
    vm.registers[0] = 7;
    assert!(!vm.run_once());
    assert_eq!(vm.pc, 7);
    let mut vm = machine(vec![16, 0, 0, 0]);
    vm.registers[0] = 7;
    vm.equal = true;
    assert!(!vm.run_once());
    assert_eq!(vm.pc, 4);
}

#[test]
fn run_goes_on_until_a_step_says_stop() {
    // r0 = 3, r1 = 1, r2 = 0; loop: r0 = r0 - r1; if r0 != r2 go back to the loop
    let mut vm = machine(vec![
        0, 0, 0, 3, 0, 1, 0, 1, 0, 3, 0, 12, 2, 0, 1, 0, 10, 0, 2, 0, 15, 3, 0, 0, 6,
    ]);
    assert!(vm.run());
    assert_eq!(vm.registers[0], 0);
    assert_eq!(vm.pc, 25);
    assert_eq!(vm.stop, Some(Stop::Halt));
    assert!(vm.run());
    assert_eq!(vm.pc, 25);
    assert_eq!(vm.stop, Some(Stop::EndOfProgram));
}

#[test]
fn run_stops_on_a_fault_and_on_the_end_of_the_program() {
    let mut vm = machine(vec![0, 0, 0, 3, 4, 0, 1, 2, 6]);
    assert!(vm.run());
    assert_eq!(vm.stop, Some(Stop::Fault(Fault::DivisionByZero)));
    assert_eq!(vm.pc, 4);
    assert_eq!(vm.registers[0], 3);
    let mut vm = machine(vec![0, 0, 0, 3]);
    assert!(vm.run());
    assert_eq!(vm.pc, 4);
    assert_eq!(vm.stop, Some(Stop::EndOfProgram));
}

#[test]
fn the_step_limit_is_the_largest_count() {
    assert_eq!(STEP_LIMIT, u64::MAX);
}

#[test]
fn a_step_never_changes_the_program() {
    let program = vec![0, 0, 0, 3, 1, 0, 0, 1, 4, 0, 2, 3, 200];
    let mut vm = machine(program.clone());
    vm.run();
    assert_eq!(vm.program, program);
}
