use bytecode_vm::opcode::{Opcode, OpcodeArgs};
use bytecode_vm::vm::{Failure, Instruction, Status, VM};

fn machine(program: &[u8]) -> VM {
    let mut vm = VM::new();
    vm.load(program.to_vec());
    vm
}

#[test]
fn test_create_vm() {
    let test_vm = VM::new();
    assert_eq!(test_vm.registers[0], 0);
}

#[test]
fn test_empty_program() {
    let mut test_vm = VM::new();
    test_vm.program = vec![];
    test_vm.run();
    assert_eq!(test_vm.last_error(), Some(Failure::EndOfProgram));
}

#[test]
fn test_opcode_stop() {
    let mut test_vm = VM::new();
    test_vm.program = vec![u8::from(Opcode::STOP), 0, 0, 0];
    test_vm.run();
    assert_eq!(test_vm.pc, 1);
    assert_eq!(test_vm.halted(), true);
    test_vm.run();
    // Ensure that program can not advance further if halted
    assert_eq!(test_vm.pc, 1);
}

#[test]
fn test_opcode_load() {
    let mut test_vm = VM::new();
    test_vm.program = vec![u8::from(Opcode::EXT2), u8::from(Opcode::LOADI), 0, 1, 244];
    test_vm.run();
    assert_eq!(test_vm.registers[0], 500);
    assert_eq!(test_vm.eof(), true);
    assert_eq!(test_vm.last_error(), Some(Failure::EndOfProgram));
}

#[test]
fn test_eof() {
    let mut test_vm = VM::new();
    test_vm.program = vec![];
    assert_eq!(test_vm.eof(), true);
    test_vm.program = vec![0];
    assert_eq!(test_vm.eof(), false);
    test_vm.program = vec![0, 0, 0, 0, 0, 0];
    for v in 0..10 {
        test_vm.pc = v;
        assert_eq!(test_vm.eof(), v > 5);
    }
}

#[test]
fn test_eof_with_offset() {
    let mut test_vm = VM::new();
    test_vm.program = vec![0, 0, 0, 0, 0, 0];
    test_vm.pc = 2;
    assert_eq!(test_vm.eof_with_offset(0), false);
    assert_eq!(test_vm.eof_with_offset(3), false);
    assert_eq!(test_vm.eof_with_offset(4), true);
    assert_eq!(test_vm.eof_with_offset(8), true);
    test_vm.pc = 10;
    assert_eq!(test_vm.eof_with_offset(0), true);
    assert_eq!(test_vm.eof_with_offset(-5), false);
    assert_eq!(test_vm.eof_with_offset(-10), false);
}

#[test]
fn test_op_nop() {
    let mut test_vm = VM::new();
    test_vm.program = vec![u8::from(Opcode::NOP), u8::from(Opcode::NOP), u8::from(Opcode::NOP)];
    test_vm.run();
    assert_eq!(test_vm.pc, 3);
    // Ensure the VM's state is the same as a newly-initialized VM that ran out of program
    let mut comp_vm = VM::new();
    comp_vm.program = test_vm.program.clone();
    comp_vm.pc = test_vm.pc;
    comp_vm.status = Status::Failed(Failure::EndOfProgram);
    assert_eq!(test_vm, comp_vm);
}

#[test]
fn new_machine_is_fresh() {
    let vm = VM::new();
    assert_eq!(vm.registers, [0; 32]);
    assert_eq!(vm.pc, 0);
    assert_eq!(vm.program, Vec::<u8>::new());
    assert_eq!(vm.status, Status::Running);
    assert_eq!(vm.halted(), false);
    assert_eq!(vm.last_error(), None);
    assert_eq!(vm.eof(), true);
}

#[test]
fn load_starts_over() {
    let mut vm = machine(&[u8::from(Opcode::EXT2), u8::from(Opcode::LOADI), 4, 0, 9, 200]);
    assert_eq!(vm.run(), Status::Failed(Failure::UnsupportedOpcode { opcode: Opcode::INVALID }));
    assert_eq!(vm.registers[4], 9);
    assert_eq!(vm.pc, 6);
    vm.load(vec![u8::from(Opcode::STOP)]);
    assert_eq!(vm.registers, [0; 32]);
    assert_eq!(vm.pc, 0);
    assert_eq!(vm.program, vec![91]);
    assert_eq!(vm.status, Status::Running);
    assert_eq!(vm.run(), Status::Halted);
}

#[test]
fn eof_with_offset_at_the_limits() {
    let mut vm = machine(&[0, 0, 0]);
    vm.pc = 1;
    assert_eq!(vm.eof_with_offset(1), false);
    assert_eq!(vm.eof_with_offset(2), true);
    assert_eq!(vm.eof_with_offset(-1), false);
    assert_eq!(vm.eof_with_offset(isize::MAX), true);
    vm.pc = usize::MAX;
    assert_eq!(vm.eof_with_offset(isize::MAX), true);
    assert_eq!(vm.eof_with_offset(isize::MIN), true);
    assert_eq!(vm.eof_with_offset(1), true);
    vm.pc = isize::MAX as usize + 1;
    assert_eq!(vm.eof_with_offset(isize::MIN), false);
    vm.pc = isize::MAX as usize + 4;
    assert_eq!(vm.eof_with_offset(isize::MIN), true);
    assert_eq!(vm.eof_with_offset(-(isize::MAX)), true);
    vm.pc = isize::MAX as usize;
    assert_eq!(vm.eof_with_offset(-(isize::MAX)), false);
}

#[test]
fn extension_load_in_one_step() {
    let mut vm = machine(&[u8::from(Opcode::EXT2), u8::from(Opcode::LOADI), 0x00, 0x01, 0xF4]);
    assert_eq!(vm.run_once(), true);
    assert_eq!(vm.registers[0], 500);
    for index in 1..32 {
        assert_eq!(vm.registers[index], 0);
    }
    assert_eq!(vm.pc, 5);
    assert_eq!(vm.pc, vm.program.len());
    assert_eq!(vm.status, Status::Running);
}

#[test]
fn load_sign_extends() {
    let mut vm = machine(&[
        u8::from(Opcode::EXT2),
        u8::from(Opcode::LOADI),
        31,
        0xFF,
        0xFE,
        u8::from(Opcode::EXT2),
        u8::from(Opcode::LOADI),
        1,
        0x80,
        0x00,
        u8::from(Opcode::EXT2),
        u8::from(Opcode::LOADI),
        2,
        0x7F,
        0xFF,
    ]);
    assert_eq!(vm.run(), Status::Failed(Failure::EndOfProgram));
    assert_eq!(vm.registers[31], -2);
    assert_eq!(vm.registers[1], -32768);
    assert_eq!(vm.registers[2], 32767);
    assert_eq!(vm.registers[0], 0);
    assert_eq!(vm.pc, 15);
}

#[test]
fn load_overwrites_a_register() {
    let load = |index: u8, high: u8, low: u8| {
        vec![u8::from(Opcode::EXT2), u8::from(Opcode::LOADI), index, high, low]
    };
    let mut program = load(3, 0, 1);
    program.extend(load(3, 0, 2));
    let mut vm = machine(&program);
    assert_eq!(vm.run_once(), true);
    assert_eq!(vm.registers[3], 1);
    assert_eq!(vm.run_once(), true);
    assert_eq!(vm.registers[3], 2);
}

#[test]
fn register_index_out_of_range() {
    for index in [32u8, 33, 255] {
        let mut vm = machine(&[u8::from(Opcode::EXT2), u8::from(Opcode::LOADI), index, 0, 1, 0]);
        assert_eq!(vm.run_once(), false);
        assert_eq!(vm.status, Status::Failed(Failure::RegisterIndexOutOfRange { index }));
        assert_eq!(vm.last_error(), Some(Failure::RegisterIndexOutOfRange { index }));
        assert_eq!(vm.registers, [0; 32]);
        assert_eq!(vm.pc, 5);
    }
}

#[test]
fn load_without_extension_is_a_mismatch() {
    let mut vm = machine(&[u8::from(Opcode::LOADI), 0, 5, 0]);
    assert_eq!(vm.run_once(), false);
    assert_eq!(
        vm.status,
        Status::Failed(Failure::ArgumentShapeMismatch { opcode: Opcode::LOADI })
    );
    assert_eq!(vm.registers, [0; 32]);
    assert_eq!(vm.pc, 3);
}

#[test]
fn halt_is_idempotent() {
    let mut vm = machine(&[
        u8::from(Opcode::EXT2),
        u8::from(Opcode::LOADI),
        5,
        0,
        7,
        u8::from(Opcode::STOP),
        u8::from(Opcode::EXT2),
        u8::from(Opcode::LOADI),
        5,
        0,
        8,
    ]);
    assert_eq!(vm.run(), Status::Halted);
    assert_eq!(vm.pc, 6);
    assert_eq!(vm.registers[5], 7);
    let registers = vm.registers;
    assert_eq!(vm.run(), Status::Halted);
    assert_eq!(vm.run_once(), false);
    assert_eq!(vm.execute_instruction(), false);
    assert_eq!(vm.pc, 6);
    assert_eq!(vm.registers, registers);
    assert_eq!(vm.status, Status::Halted);
    assert_eq!(vm.halted(), true);
    assert_eq!(vm.last_error(), None);
}

#[test]
fn halt_leaves_cursor_behind_it() {
    let mut vm = machine(&[u8::from(Opcode::STOP), 0, 0, 0]);
    assert_eq!(vm.run(), Status::Halted);
    assert_eq!(vm.pc, 1);
    assert_eq!(vm.status, Status::Halted);
    let before = vm.registers;
    vm.run();
    assert_eq!(vm.pc, 1);
    assert_eq!(vm.registers, before);
}

#[test]
fn unknown_opcode_is_contained() {
    for byte in [255u8, 200, 92] {
        let mut vm = machine(&[byte, 0, 0, 0]);
        assert_eq!(
            vm.run(),
            Status::Failed(Failure::UnsupportedOpcode { opcode: Opcode::INVALID })
        );
        assert_eq!(vm.pc, 1);
        assert_eq!(vm.registers, [0; 32]);
        assert_eq!(vm.halted(), false);
        // A failed machine stays as it is.
        assert_eq!(vm.run_once(), false);
        vm.run();
        assert_eq!(vm.pc, 1);
        assert_eq!(
            vm.last_error(),
            Some(Failure::UnsupportedOpcode { opcode: Opcode::INVALID })
        );
    }
}

#[test]
fn opcode_without_handler_is_unsupported() {
    let mut vm = machine(&[u8::from(Opcode::LOADNIL), 3, u8::from(Opcode::STOP)]);
    assert_eq!(vm.run(), Status::Failed(Failure::UnsupportedOpcode { opcode: Opcode::LOADNIL }));
    assert_eq!(vm.pc, 2);
    let mut vm = machine(&[u8::from(Opcode::EXT1), u8::from(Opcode::EXT2), 0]);
    assert_eq!(vm.run(), Status::Failed(Failure::UnsupportedOpcode { opcode: Opcode::EXT2 }));
    assert_eq!(vm.pc, 2);
    let mut vm = machine(&[u8::from(Opcode::EXT1)]);
    assert_eq!(vm.run(), Status::Failed(Failure::EndOfProgram));
    assert_eq!(vm.pc, 1);
}

#[test]
fn empty_program_fails_at_once() {
    let mut vm = machine(&[]);
    assert_eq!(vm.run(), Status::Failed(Failure::EndOfProgram));
    assert_eq!(vm.pc, 0);
    assert_eq!(vm.eof(), true);
    assert_eq!(vm.halted(), false);
    assert_eq!(vm.last_error(), Some(Failure::EndOfProgram));
    assert_eq!(vm.registers, [0; 32]);
    // And stays so.
    assert_eq!(vm.run(), Status::Failed(Failure::EndOfProgram));
    assert_eq!(vm.pc, 0);
}

#[test]
fn program_that_runs_out_fails() {
    let mut vm = machine(&[u8::from(Opcode::NOP)]);
    assert_eq!(vm.run(), Status::Failed(Failure::EndOfProgram));
    assert_eq!(vm.pc, 1);
    assert_eq!(vm.registers, [0; 32]);
    // A cursor beyond the program is left where it is.
    let mut vm = machine(&[u8::from(Opcode::NOP)]);
    vm.pc = 9;
    assert_eq!(vm.run(), Status::Failed(Failure::EndOfProgram));
    assert_eq!(vm.pc, 9);
}

#[test]
fn run_never_ends_running() {
    for first in 0..=255u8 {
        for second in [0u8, 3, 88, 89, 90, 91, 255] {
            for len in 0..6usize {
                let bytes = [first, second, 0, 1, 2];
                let mut vm = machine(&bytes[..len.min(5)]);
                let status = vm.run();
                assert_ne!(status, Status::Running);
                assert_eq!(status, vm.status);
                assert!(vm.pc <= vm.program.len());
                if status == Status::Failed(Failure::EndOfProgram) {
                    assert!(vm.pc == vm.program.len());
                }
            }
        }
    }
}

#[test]
fn step_on_empty_program_fails() {
    let mut vm = machine(&[]);
    assert_eq!(vm.run_once(), false);
    assert_eq!(vm.status, Status::Failed(Failure::EndOfProgram));
    assert_eq!(vm.last_error(), Some(Failure::EndOfProgram));
    assert_eq!(vm.pc, 0);
    assert_eq!(vm.run(), Status::Failed(Failure::EndOfProgram));
}

#[test]
fn truncated_instruction_fails_the_machine() {
    let mut vm = machine(&[u8::from(Opcode::NOP), u8::from(Opcode::JMPIF), 7, 7]);
    assert_eq!(
        vm.run(),
        Status::Failed(Failure::TruncatedInstruction { opcode: Opcode::JMPIF, argc: 2 })
    );
    assert_eq!(vm.pc, 3);
    assert!(vm.pc <= vm.program.len());
    assert_eq!(vm.registers, [0; 32]);
}

#[test]
fn widened_move_runs() {
    let mut vm = machine(&[u8::from(Opcode::EXT1), u8::from(Opcode::MOVE), 0, 0, 0]);
    assert_eq!(vm.run_once(), true);
    assert_eq!(vm.pc, 5);
    assert_eq!(vm.status, Status::Running);
    assert_eq!(vm.registers, [0; 32]);
}

#[test]
fn load_with_another_extension_is_a_mismatch() {
    for (ext, len, behind) in [(Opcode::EXT1, 5, 5), (Opcode::EXT3, 6, 6)] {
        let bytes = [u8::from(ext), u8::from(Opcode::LOADI), 0, 0, 0, 7];
        let mut vm = machine(&bytes[..len]);
        assert_eq!(
            vm.run(),
            Status::Failed(Failure::ArgumentShapeMismatch { opcode: Opcode::LOADI })
        );
        assert_eq!(vm.pc, behind);
        assert_eq!(vm.registers, [0; 32]);
    }
}

#[test]
fn move_has_no_effect_yet() {
    let mut vm = machine(&[
        u8::from(Opcode::EXT2),
        u8::from(Opcode::LOADI),
        1,
        0,
        9,
        u8::from(Opcode::MOVE),
        2,
        1,
    ]);
    assert_eq!(vm.run(), Status::Failed(Failure::EndOfProgram));
    assert_eq!(vm.pc, 8);
    assert_eq!(vm.registers[1], 9);
    assert_eq!(vm.registers[2], 0);
}

#[test]
fn dispatch_takes_a_decoded_instruction() {
    let mut vm = machine(&[]);
    let load = Instruction { opcode: Opcode::LOADI, args: OpcodeArgs::U8I16(6, -3) };
    assert_eq!(vm.dispatch(&load), true);
    assert_eq!(vm.registers[6], -3);
    assert_eq!(vm.pc, 0);
    let nop = Instruction { opcode: Opcode::NOP, args: OpcodeArgs::NoArgs };
    assert_eq!(vm.dispatch(&nop), true);
    let stop = Instruction { opcode: Opcode::STOP, args: OpcodeArgs::NoArgs };
    assert_eq!(vm.dispatch(&stop), false);
    assert_eq!(vm.status, Status::Halted);
    // Nothing runs on a halted machine.
    let again = Instruction { opcode: Opcode::LOADI, args: OpcodeArgs::U8I16(6, 4) };
    assert_eq!(vm.dispatch(&again), false);
    assert_eq!(vm.registers[6], -3);
    assert_eq!(vm.status, Status::Halted);
}

#[test]
fn dispatch_rejects_other_argument_forms() {
    for args in [
        OpcodeArgs::NoArgs,
        OpcodeArgs::U8(1),
        OpcodeArgs::U8U8(1, 2),
        OpcodeArgs::U8I8(1, 2),
        OpcodeArgs::U8U16(1, 2),
        OpcodeArgs::U16U8(1, 2),
        OpcodeArgs::U16I8(1, 2),
        OpcodeArgs::U16U16(1, 2),
        OpcodeArgs::U16I16(1, 2),
        OpcodeArgs::U8U8U8(1, 2, 3),
        OpcodeArgs::U16U8U8(1, 2, 3),
    ] {
        let mut vm = machine(&[]);
        assert_eq!(vm.dispatch(&Instruction { opcode: Opcode::LOADI, args }), false);
        assert_eq!(
            vm.status,
            Status::Failed(Failure::ArgumentShapeMismatch { opcode: Opcode::LOADI })
        );
        assert_eq!(vm.registers, [0; 32]);
    }
}

#[test]
fn cursor_only_moves_forward() {
    let program = [
        u8::from(Opcode::NOP),
        u8::from(Opcode::EXT2),
        u8::from(Opcode::LOADI),
        0,
        0,
        1,
        u8::from(Opcode::MOVE),
        0,
        0,
        u8::from(Opcode::STOP),
        u8::from(Opcode::NOP),
    ];
    let mut vm = machine(&program);
    let mut cursors = vec![vm.pc];
    while vm.run_once() {
        cursors.push(vm.pc);
    }
    cursors.push(vm.pc);
    assert_eq!(cursors, vec![0, 1, 6, 9, 10]);
    assert_eq!(vm.status, Status::Halted);
}

#[test]
fn same_program_same_result() {
    let program = [
        u8::from(Opcode::EXT2),
        u8::from(Opcode::LOADI),
        9,
        0x12,
        0x34,
        u8::from(Opcode::STOP),
    ];
    let mut a = machine(&program);
    let mut b = machine(&program);
    assert_eq!(a.run(), b.run());
    assert_eq!(a, b);
    assert_eq!(a.registers[9], 0x1234);
}

#[test]
fn step_hands_back_what_it_ran() {
    let mut vm = machine(&[
        u8::from(Opcode::EXT2),
        u8::from(Opcode::LOADI),
        40,
        0,
        1,
        u8::from(Opcode::STOP),
    ]);
    // The instruction comes back also where running it fails.
    assert_eq!(
        vm.step(),
        Some(Instruction { opcode: Opcode::LOADI, args: OpcodeArgs::U8I16(40, 1) })
    );
    assert_eq!(vm.status, Status::Failed(Failure::RegisterIndexOutOfRange { index: 40 }));
    assert_eq!(vm.step(), None);
    assert_eq!(vm.pc, 5);

    let mut vm = machine(&[u8::from(Opcode::STOP), u8::from(Opcode::JMP)]);
    assert_eq!(vm.step(), Some(Instruction { opcode: Opcode::STOP, args: OpcodeArgs::NoArgs }));
    assert_eq!(vm.status, Status::Halted);
    assert_eq!(vm.step(), None);
    assert_eq!(vm.pc, 1);

    let mut vm = machine(&[u8::from(Opcode::JMP), 1]);
    assert_eq!(vm.step(), None);
    assert_eq!(
        vm.status,
        Status::Failed(Failure::TruncatedInstruction { opcode: Opcode::JMP, argc: 1 })
    );
}
