use riscv_emulator::emulator::Emulator;
use riscv_emulator::emulator::Instruction;
use riscv_emulator::emulator::PseudoInstruction;
use riscv_emulator::emulator::Rv32iInstructionError;
use riscv_emulator::emulator::Vm;
use riscv_emulator::emulator::VmState;
use riscv_emulator::instruction_signatures::DestinationImmediate;
use riscv_emulator::instruction_signatures::DestinationSource1Immediate;
use riscv_emulator::instruction_signatures::DestinationSource1Source2;
use riscv_emulator::instruction_signatures::Source1Source2Immediate;
use riscv_emulator::rv32i::Rv32iInstruction;

#[test]
fn test_a_whole_function_for_correct_program_counter_and_return_value() {
    // This Rust code
    //
    // fn sum_2_number(number_1: u32, number_2: u32) -> u32 {
    //     let variable_1 = number_1 + number_2;
    //     let variable_2 = if number_1 < 10 { 15 } else { 25 };
    //     variable_1 + variable_2
    // }
    //
    // translates into this RISC-V assembly
    //
    //  <sum_2_number>:
    //      46a9     li a3,10
    //      463d     li a2,15
    //      00d56363 bltu a0,a3,<sum_2_number+0xa>
    //      4665     li a2,25
    //      952e     add a0,a0,a1
    //      9532     add a0,a0,a2
    //      8082     ret

    // this is the program
    let instructions = vec![
        Instruction::PseudoInstruction(
            0x1000,
            PseudoInstruction::Li(DestinationImmediate { rd: 13, imm: 10 }),
        ),
        Instruction::PseudoInstruction(
            0x1004,
            PseudoInstruction::Li(DestinationImmediate { rd: 12, imm: 15 }),
        ),
        Instruction::Rv32iInstruction(
            0x1008,
            Rv32iInstruction::Bltu(Source1Source2Immediate {
                rs1: 10,
                rs2: 11,
                imm: 0x10,
            }),
        ),
        Instruction::PseudoInstruction(
            0x100c,
            PseudoInstruction::Li(DestinationImmediate { rd: 12, imm: 25 }),
        ),
        Instruction::Rv32iInstruction(
            0x1010,
            Rv32iInstruction::Add(DestinationSource1Source2 {
                rd: 10,
                rs1: 10,
                rs2: 11,
            }),
        ),
        Instruction::Rv32iInstruction(
            0x1014,
            Rv32iInstruction::Add(DestinationSource1Source2 {
                rd: 10,
                rs1: 10,
                rs2: 12,
            }),
        ),
        Instruction::PseudoInstruction(0x1000, PseudoInstruction::Ret),
    ];

    // this is our new fresh registers
    let mut initial_registers = [0; 32];

    // function input values
    initial_registers[10] = 50;
    initial_registers[11] = 55;

    let vm_state = VmState {
        registers: initial_registers,
        pc: 0x1000,
        sp: 0,
    };

    let mut vm = Vm { vm_state };

    let _ = vm.execute_instructions(instructions);

    let expected_vm_registers_state = [
        0, 0, 0, 0, 0, 0, 0, 0, 0, 0, 130, 55, 25, 10, 0, 0, 0, 0, 0, 0, 0, 0, 0, 0, 0, 0, 0, 0,
        0, 0, 0, 0,
    ];

    let return_value = vm.vm_state.registers[10];
    assert_eq!(return_value, 130);

    // assert register state
    assert_eq!(vm.vm_state.registers, expected_vm_registers_state);

    // assert program counter
    assert_eq!(vm.vm_state.pc, 4140);
}

#[test]
fn should_initiate_vm_with_correct_default_values() {
    let vm_state = VmState::default();

    println!("{:?}", vm_state);
}

#[test]
fn lui_should_work_correctly() {
    let mut emulator = Emulator::new();

    // 20 bits
    // 0000 0000 0000 0000 0001
    let register_index = 1;

    // 32 bits
    // 0000 0000 0000 0000 0001 0000 0000 0000
    emulator.lui(register_index, 1);

    assert_eq!(emulator.get_register_value(register_index), 4096);

    // so effectively it becomes
    // in 16 bits
    // 0001 0000 0000 0000
    assert_eq!(
        emulator.get_register_value(register_index),
        0b0001_0000_0000_0000
    );
}

#[test]
fn default_vm_state_has_reset_values() {
    let vm_state = VmState::default();
    assert_eq!(vm_state.pc, 1000);
    assert_eq!(vm_state.sp, 0);
    assert_eq!(vm_state.registers, [0i32; 32]);
}

#[test]
fn add_wraps_around_at_i32_max() {
    // ADD of i32::MAX and 1 yields i32::MIN: modulo 2^32, no trap
    let mut registers = [0i32; 32];
    registers[1] = i32::MAX;
    registers[2] = 1;
    let mut vm_state = VmState {
        registers,
        pc: 0x1000,
        sp: 0,
    };
    let instruction = Instruction::Rv32iInstruction(
        0x1000,
        Rv32iInstruction::Add(DestinationSource1Source2 { rd: 3, rs1: 1, rs2: 2 }),
    );
    let result = instruction.execute_instruction(&mut vm_state);
    assert!(result.is_ok());
    assert_eq!(vm_state.registers[3], i32::MIN);
    assert_eq!(vm_state.pc, 0x1004);
}

#[test]
fn writes_to_register_zero_are_suppressed() {
    let mut registers = [0i32; 32];
    registers[1] = 7;
    registers[2] = 9;
    let mut vm_state = VmState {
        registers,
        pc: 0x1000,
        sp: 0,
    };

    // ADD targeting x0 leaves the whole register file untouched
    let add_to_zero = Instruction::Rv32iInstruction(
        0x1000,
        Rv32iInstruction::Add(DestinationSource1Source2 { rd: 0, rs1: 1, rs2: 2 }),
    );
    assert!(add_to_zero.execute_instruction(&mut vm_state).is_ok());
    assert_eq!(vm_state.registers, registers);
    assert_eq!(vm_state.registers[0], 0);

    // LI targeting x0 as well
    let li_to_zero = Instruction::PseudoInstruction(
        0x1004,
        PseudoInstruction::Li(DestinationImmediate { rd: 0, imm: -42 }),
    );
    assert!(li_to_zero.execute_instruction(&mut vm_state).is_ok());
    assert_eq!(vm_state.registers, registers);
    assert_eq!(vm_state.registers[0], 0);
}

#[test]
fn bltu_compares_register_values_not_indices() {
    // the index order and the value order disagree: x5 holds 9, x6 holds 3
    let mut registers = [0i32; 32];
    registers[5] = 9;
    registers[6] = 3;
    let mut vm_state = VmState {
        registers,
        pc: 0x1000,
        sp: 0,
    };
    // rs1 index 5 is below rs2 index 6, but the value 9 is not below 3:
    // dereferenced through the register file, the branch is not taken
    let branch = Instruction::Rv32iInstruction(
        0x1000,
        Rv32iInstruction::Bltu(Source1Source2Immediate { rs1: 5, rs2: 6, imm: 0x10 }),
    );
    assert!(branch.execute_instruction(&mut vm_state).is_ok());
    assert_eq!(vm_state.pc, 0x1004);

    // rs1 index 6 is above rs2 index 5, but the value 3 is below 9:
    // the branch is taken, and the PC moves by the offset plus the width
    let branch_taken = Instruction::Rv32iInstruction(
        0x1004,
        Rv32iInstruction::Bltu(Source1Source2Immediate { rs1: 6, rs2: 5, imm: 0x10 }),
    );
    assert!(branch_taken.execute_instruction(&mut vm_state).is_ok());
    assert_eq!(vm_state.pc, 0x1004 + 0x10 + 4);
}

#[test]
fn bltu_compares_unsigned_values() {
    // -1 reinterpreted as unsigned is the largest 32-bit value
    let mut registers = [0i32; 32];
    registers[1] = -1;
    registers[2] = 1;
    let mut vm_state = VmState {
        registers,
        pc: 0x1000,
        sp: 0,
    };
    let branch = Instruction::Rv32iInstruction(
        0x1000,
        Rv32iInstruction::Bltu(Source1Source2Immediate { rs1: 1, rs2: 2, imm: 0x10 }),
    );
    // 0xffffffff < 1 is false unsigned: not taken
    assert!(branch.execute_instruction(&mut vm_state).is_ok());
    assert_eq!(vm_state.pc, 0x1004);
}

#[test]
fn unimplemented_instruction_reports_and_leaves_state_untouched() {
    let mut registers = [0i32; 32];
    registers[1] = 3;
    registers[2] = 5;
    let mut vm_state = VmState {
        registers,
        pc: 0x1000,
        sp: 0,
    };
    let sub = Instruction::Rv32iInstruction(
        0x1000,
        Rv32iInstruction::Sub(DestinationSource1Source2 { rd: 3, rs1: 1, rs2: 2 }),
    );
    let result = sub.execute_instruction(&mut vm_state);
    assert!(matches!(
        result,
        Err(Rv32iInstructionError::InstructionNotImplemented(_))
    ));
    // no partial effect: registers and PC exactly as before
    assert_eq!(vm_state.registers, registers);
    assert_eq!(vm_state.pc, 0x1000);
    assert_eq!(vm_state.sp, 0);
}

#[test]
fn jal_and_jalr_report_not_implemented_without_mutation() {
    let mut vm_state = VmState {
        registers: [0i32; 32],
        pc: 0x1000,
        sp: 0,
    };
    let jal_result = Rv32iInstruction::rv32i_instruction_jal(
        &DestinationImmediate { rd: 1, imm: 0x10 },
        &mut vm_state,
    );
    assert!(matches!(
        jal_result,
        Err(Rv32iInstructionError::InstructionNotImplemented(_))
    ));
    assert_eq!(vm_state.pc, 0x1000);
    assert_eq!(vm_state.registers, [0i32; 32]);

    let jalr_result = Rv32iInstruction::rv32i_instruction_jalr(
        &DestinationSource1Immediate { rd: 1, rs1: 2, imm: 0 },
        &mut vm_state,
    );
    assert!(matches!(
        jalr_result,
        Err(Rv32iInstructionError::InstructionNotImplemented(_))
    ));
    assert_eq!(vm_state.pc, 0x1000);
    assert_eq!(vm_state.registers, [0i32; 32]);
}

#[test]
fn emulator_add_addi_sub_operate_on_register_values() {
    let mut emulator = Emulator::new();

    // x1 <- 0 + 5
    emulator.addi(1, 0, 5);
    assert_eq!(emulator.get_register_value(1), 5);

    // x2 <- x1 + x1
    emulator.add(2, 1, 1);
    assert_eq!(emulator.get_register_value(2), 10);

    // x3 <- x1 - x2 wraps below zero
    emulator.sub(3, 1, 2);
    assert_eq!(emulator.get_register_value(3), -5);

    // writes to x0 are suppressed
    emulator.add(0, 1, 2);
    assert_eq!(emulator.get_register_value(0), 0);
    emulator.addi(0, 1, 1);
    assert_eq!(emulator.get_register_value(0), 0);
    emulator.lui(0, 1);
    assert_eq!(emulator.get_register_value(0), 0);
}

#[test]
fn emulator_addi_wraps_at_i32_max() {
    let mut emulator = Emulator::new();
    emulator.addi(1, 0, i32::MAX);
    emulator.addi(2, 1, 1);
    assert_eq!(emulator.get_register_value(2), i32::MIN);
}

#[test]
fn emulator_auipc_adds_shifted_immediate_to_pc() {
    let mut emulator = Emulator::new();
    // pc starts at 0x1000; auipc x1, 1 gives 0x1000 + 0x1000
    emulator.auipc(1, 1);
    assert_eq!(emulator.get_register_value(1), 0x2000);
    // auipc x2, 0 reads back the reset program counter
    emulator.auipc(2, 0);
    assert_eq!(emulator.get_register_value(2), 0x1000);
}

#[test]
fn lui_places_immediate_in_upper_bits() {
    let mut emulator = Emulator::new();
    // 0xfffff << 12 is 0xfffff000, -4096 as a signed register value
    emulator.lui(1, 0xfffff);
    assert_eq!(emulator.get_register_value(1), -4096);
    emulator.lui(2, 0x12345);
    assert_eq!(emulator.get_register_value(2), 0x12345000u32 as i32);
}

#[test]
fn execute_instructions_skips_unimplemented_and_continues() {
    let mut registers = [0i32; 32];
    registers[1] = 3;
    registers[2] = 4;
    let vm_state = VmState {
        registers,
        pc: 0x1000,
        sp: 0,
    };
    let mut vm = Vm { vm_state };
    let instructions = vec![
        // unimplemented: skipped, no state change, no PC advance
        Instruction::Rv32iInstruction(
            0x1000,
            Rv32iInstruction::Xor(DestinationSource1Source2 { rd: 3, rs1: 1, rs2: 2 }),
        ),
        // implemented: runs against the untouched state
        Instruction::Rv32iInstruction(
            0x1000,
            Rv32iInstruction::Add(DestinationSource1Source2 { rd: 3, rs1: 1, rs2: 2 }),
        ),
    ];
    let result = vm.execute_instructions(instructions);
    assert!(result.is_ok());
    assert_eq!(vm.vm_state.registers[3], 7);
    assert_eq!(vm.vm_state.pc, 0x1004);
}
