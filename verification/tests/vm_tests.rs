use regvm::instruction::{
    AddReg8Const8, CmpReg8Const8, CmpReg8Reg8, DerefAddressReg16Reg8, Exit, Instruction,
    JumpIfNotEqual, MovReg8Const8, PopReg8, ReadStdinStack, SubReg8Const8, WriteStdoutConst8,
    XorMemReg8Const8, XorReg8Const8, XorReg8Reg8,
};
use regvm::registers::{Register, RegisterIndex};
use regvm::vm::{Address16, AddressReg16, VmError, VM, VM_BOUNDARY};

fn reg(vm: &VM, index: u8) -> u8 {
    vm.registers.registers[index as usize].value
}

fn image_of(code: &[Instruction]) -> Vec<u8> {
    let mut bytes: Vec<u8> = Vec::new();
    for instruction in code {
        bytes.extend(instruction.encode());
    }
    assert!(bytes.len() <= VM_BOUNDARY);
    bytes.resize(VM_BOUNDARY, 0);
    bytes
}

#[test]
fn sub_wraps_modulo_256() {
    let mut vm = VM::new(Vec::new());
    let sub = SubReg8Const8 {
        register: RegisterIndex(Register::R0),
        value: 1,
    };
    assert_eq!(sub.execute(&mut vm), Ok(()));
    assert_eq!(reg(&vm, Register::R0), 255);
}

#[test]
fn add_wraps_modulo_256() {
    let mut vm = VM::new(Vec::new());
    let mov = MovReg8Const8 {
        to: RegisterIndex(Register::R0),
        value: 200,
    };
    assert_eq!(mov.execute(&mut vm), Ok(()));
    let add = AddReg8Const8 {
        register: RegisterIndex(Register::R0),
        value: 100,
    };
    assert_eq!(add.execute(&mut vm), Ok(()));
    assert_eq!(reg(&vm, Register::R0), 44);
}

#[test]
fn cmp_equal_makes_branch_a_no_op() {
    let mut vm = VM::new(Vec::new());
    MovReg8Const8 {
        to: RegisterIndex(Register::R0),
        value: 5,
    }
    .execute(&mut vm)
    .unwrap();
    MovReg8Const8 {
        to: RegisterIndex(Register::PC),
        value: 7,
    }
    .execute(&mut vm)
    .unwrap();
    CmpReg8Const8 {
        register: RegisterIndex(Register::R0),
        comparand: 5,
    }
    .execute(&mut vm)
    .unwrap();
    assert!(vm.flags.equal);
    JumpIfNotEqual { address: 3 }.execute(&mut vm).unwrap();
    assert_eq!(reg(&vm, Register::PC), 7);
}

#[test]
fn cmp_not_equal_makes_branch_jump() {
    let mut vm = VM::new(Vec::new());
    MovReg8Const8 {
        to: RegisterIndex(Register::R0),
        value: 4,
    }
    .execute(&mut vm)
    .unwrap();
    MovReg8Const8 {
        to: RegisterIndex(Register::PC),
        value: 7,
    }
    .execute(&mut vm)
    .unwrap();
    CmpReg8Const8 {
        register: RegisterIndex(Register::R0),
        comparand: 5,
    }
    .execute(&mut vm)
    .unwrap();
    assert!(!vm.flags.equal);
    JumpIfNotEqual { address: 3 }.execute(&mut vm).unwrap();
    assert_eq!(reg(&vm, Register::PC), 3);
}

#[test]
fn cmp_reg_reg_sets_equal_flag() {
    let mut vm = VM::new(Vec::new());
    MovReg8Const8 {
        to: RegisterIndex(Register::R1),
        value: 9,
    }
    .execute(&mut vm)
    .unwrap();
    MovReg8Const8 {
        to: RegisterIndex(Register::R2),
        value: 9,
    }
    .execute(&mut vm)
    .unwrap();
    CmpReg8Reg8 {
        comparand1: RegisterIndex(Register::R1),
        comparand2: RegisterIndex(Register::R2),
    }
    .execute(&mut vm)
    .unwrap();
    assert!(vm.flags.equal);
    MovReg8Const8 {
        to: RegisterIndex(Register::R2),
        value: 8,
    }
    .execute(&mut vm)
    .unwrap();
    CmpReg8Reg8 {
        comparand1: RegisterIndex(Register::R1),
        comparand2: RegisterIndex(Register::R2),
    }
    .execute(&mut vm)
    .unwrap();
    assert!(!vm.flags.equal);
}

#[test]
fn stack_pops_return_input_in_arrival_order() {
    let mut vm = VM::new(vec![10, 20, 30]);
    ReadStdinStack { count: 3 }.execute(&mut vm).unwrap();
    assert_eq!(reg(&vm, Register::SP), 3);
    // The push reverses: the stack region holds 30, 20, 10 bottom-up.
    assert_eq!(vm.memory[0x300], 30);
    assert_eq!(vm.memory[0x301], 20);
    assert_eq!(vm.memory[0x302], 10);
    PopReg8 {
        register: RegisterIndex(Register::R0),
    }
    .execute(&mut vm)
    .unwrap();
    PopReg8 {
        register: RegisterIndex(Register::R1),
    }
    .execute(&mut vm)
    .unwrap();
    PopReg8 {
        register: RegisterIndex(Register::R2),
    }
    .execute(&mut vm)
    .unwrap();
    assert_eq!(reg(&vm, Register::R0), 10);
    assert_eq!(reg(&vm, Register::R1), 20);
    assert_eq!(reg(&vm, Register::R2), 30);
    assert_eq!(reg(&vm, Register::SP), 0);
    let fourth = PopReg8 {
        register: RegisterIndex(Register::R3),
    }
    .execute(&mut vm);
    assert_eq!(fourth, Err(VmError::StackUnderflow));
}

#[test]
fn read_appends_at_the_stack_pointer() {
    let mut vm = VM::new(vec![9]);
    vm.registers.registers[Register::SP as usize].value = 2;
    ReadStdinStack { count: 1 }.execute(&mut vm).unwrap();
    assert_eq!(vm.memory[0x302], 9);
    assert_eq!(reg(&vm, Register::SP), 3);
}

#[test]
fn read_with_exhausted_input_is_fatal() {
    let mut vm = VM::new(vec![1]);
    let result = ReadStdinStack { count: 2 }.execute(&mut vm);
    assert_eq!(result, Err(VmError::InputExhausted));
}

#[test]
fn read_past_stack_capacity_is_fatal() {
    let mut vm = VM::new(vec![0; 200]);
    vm.registers.registers[Register::SP as usize].value = 200;
    let result = ReadStdinStack { count: 100 }.execute(&mut vm);
    assert_eq!(result, Err(VmError::StackOverflow));
}

#[test]
fn register_index_out_of_file_is_fatal() {
    let mut vm = VM::new(Vec::new());
    let result = MovReg8Const8 {
        to: RegisterIndex(16),
        value: 1,
    }
    .execute(&mut vm);
    assert_eq!(result, Err(VmError::InvalidRegister));
}

#[test]
fn deref_reads_absolute_addresses() {
    let mut vm = VM::new(Vec::new());
    vm.memory[0x100] = 0x5A;
    MovReg8Const8 {
        to: RegisterIndex(Register::R1),
        value: 0x01,
    }
    .execute(&mut vm)
    .unwrap();
    MovReg8Const8 {
        to: RegisterIndex(Register::R2),
        value: 0x00,
    }
    .execute(&mut vm)
    .unwrap();
    DerefAddressReg16Reg8 {
        source: AddressReg16 {
            high: RegisterIndex(Register::R1),
            low: RegisterIndex(Register::R2),
        },
        destination: RegisterIndex(Register::R3),
    }
    .execute(&mut vm)
    .unwrap();
    assert_eq!(reg(&vm, Register::R3), 0x5A);
}

#[test]
fn deref_outside_the_address_space_is_fatal() {
    let mut vm = VM::new(Vec::new());
    MovReg8Const8 {
        to: RegisterIndex(Register::R1),
        value: 0x04,
    }
    .execute(&mut vm)
    .unwrap();
    let result = DerefAddressReg16Reg8 {
        source: AddressReg16 {
            high: RegisterIndex(Register::R1),
            low: RegisterIndex(Register::R2),
        },
        destination: RegisterIndex(Register::R3),
    }
    .execute(&mut vm);
    assert_eq!(result, Err(VmError::AddressOutOfRange));
}

#[test]
fn xor_mem_uses_the_register_as_absolute_offset() {
    let mut vm = VM::new(Vec::new());
    MovReg8Const8 {
        to: RegisterIndex(Register::R1),
        value: 0x14,
    }
    .execute(&mut vm)
    .unwrap();
    XorMemReg8Const8 {
        register: RegisterIndex(Register::R1),
        value: 0x41,
    }
    .execute(&mut vm)
    .unwrap();
    assert_eq!(vm.memory[0x14], 0x41);
}

#[test]
fn xor_register_operations() {
    let mut vm = VM::new(Vec::new());
    MovReg8Const8 {
        to: RegisterIndex(Register::R0),
        value: 0xFF,
    }
    .execute(&mut vm)
    .unwrap();
    XorReg8Const8 {
        register: RegisterIndex(Register::R0),
        value: 0x0F,
    }
    .execute(&mut vm)
    .unwrap();
    assert_eq!(reg(&vm, Register::R0), 0xF0);
    MovReg8Const8 {
        to: RegisterIndex(Register::R1),
        value: 0x81,
    }
    .execute(&mut vm)
    .unwrap();
    XorReg8Reg8 {
        destination: RegisterIndex(Register::R0),
        source: RegisterIndex(Register::R1),
    }
    .execute(&mut vm)
    .unwrap();
    assert_eq!(reg(&vm, Register::R0), 0x71);
}

#[test]
fn write_stdout_collects_output_bytes() {
    let mut vm = VM::new(Vec::new());
    WriteStdoutConst8 { byte: b'Y' }.execute(&mut vm).unwrap();
    WriteStdoutConst8 { byte: b'\n' }.execute(&mut vm).unwrap();
    assert_eq!(vm.output, vec![b'Y', b'\n']);
}

#[test]
fn scenario_countdown_loop() {
    // Mov at 0, Sub at 3, Cmp at 6, JumpIfNotEqual at 9, Exit at 11:
    // three subtract iterations run before the comparison succeeds.
    let code = [
        Instruction::MovReg8Const8(MovReg8Const8 {
            to: RegisterIndex(Register::R0),
            value: 3,
        }),
        Instruction::SubReg8Const8(SubReg8Const8 {
            register: RegisterIndex(Register::R0),
            value: 1,
        }),
        Instruction::CmpReg8Const8(CmpReg8Const8 {
            register: RegisterIndex(Register::R0),
            comparand: 0,
        }),
        Instruction::JumpIfNotEqual(JumpIfNotEqual { address: 3 }),
        Instruction::Exit(Exit),
    ];
    let image = image_of(&code);
    let mut vm = VM::new(Vec::new());
    let result = vm.run(&image, 1000);
    assert_eq!(result, Ok(true));
    assert!(vm.stop);
    assert_eq!(reg(&vm, Register::R0), 0);
    assert!(vm.flags.equal);
}

#[test]
fn run_advances_pc_by_instruction_length() {
    let code = [
        Instruction::MovReg8Const8(MovReg8Const8 {
            to: RegisterIndex(Register::R0),
            value: 3,
        }),
        Instruction::Exit(Exit),
    ];
    let image = image_of(&code);
    let mut vm = VM::new(Vec::new());
    assert_eq!(vm.run(&image, 10), Ok(true));
    // Three bytes for the move, one for the exit.
    assert_eq!(reg(&vm, Register::PC), 4);
}

#[test]
fn run_reports_unknown_opcode() {
    let mut image = vec![0u8; VM_BOUNDARY];
    image[0] = 14;
    let mut vm = VM::new(Vec::new());
    assert_eq!(vm.run(&image, 10), Err(VmError::UnknownOpcode(14)));
}

#[test]
fn run_stops_when_the_step_budget_is_spent() {
    // equal starts false, so the jump to offset 0 loops forever.
    let code = [
        Instruction::CmpReg8Const8(CmpReg8Const8 {
            register: RegisterIndex(Register::R0),
            comparand: 1,
        }),
        Instruction::JumpIfNotEqual(JumpIfNotEqual { address: 0 }),
    ];
    let image = image_of(&code);
    let mut vm = VM::new(Vec::new());
    assert_eq!(vm.run(&image, 10), Ok(false));
    assert!(!vm.stop);
}

#[test]
fn run_halts_on_zero_padding() {
    // The padded tail of the instruction region decodes as Exit.
    let image = vec![0u8; VM_BOUNDARY];
    let mut vm = VM::new(Vec::new());
    assert_eq!(vm.run(&image, 10), Ok(true));
    assert_eq!(reg(&vm, Register::PC), 1);
}

#[test]
fn run_reports_fatal_pop_on_empty_stack() {
    let code = [Instruction::PopReg8(PopReg8 {
        register: RegisterIndex(Register::R0),
    })];
    let image = image_of(&code);
    let mut vm = VM::new(Vec::new());
    assert_eq!(vm.run(&image, 10), Err(VmError::StackUnderflow));
}

#[test]
fn eval_vm_concatenates_register_bytes() {
    let mut vm = VM::new(Vec::new());
    MovReg8Const8 {
        to: RegisterIndex(Register::R1),
        value: 0x01,
    }
    .execute(&mut vm)
    .unwrap();
    MovReg8Const8 {
        to: RegisterIndex(Register::R2),
        value: 0x02,
    }
    .execute(&mut vm)
    .unwrap();
    let address = AddressReg16 {
        high: RegisterIndex(Register::R1),
        low: RegisterIndex(Register::R2),
    };
    assert_eq!(address.eval_vm(&vm), 0x0102);
}

#[test]
fn address16_splits_and_rejoins() {
    let address = Address16::from_word(0x0102);
    assert_eq!(address.high, 0x01);
    assert_eq!(address.low, 0x02);
    assert_eq!(address.to_word(), 0x0102);
    let memory_base = Address16::from_word(0x0100);
    assert_eq!(memory_base.high, 0x01);
    assert_eq!(memory_base.low, 0x00);
}

#[test]
fn step_applies_a_decoded_instruction() {
    let mut vm = VM::new(Vec::new());
    let instruction = Instruction::MovReg8Const8(MovReg8Const8 {
        to: RegisterIndex(Register::R5),
        value: 0x2A,
    });
    assert_eq!(vm.step(&instruction), Ok(()));
    assert_eq!(reg(&vm, Register::R5), 0x2A);
    let bad = Instruction::PopReg8(PopReg8 {
        register: RegisterIndex(Register::R0),
    });
    assert_eq!(vm.step(&bad), Err(VmError::StackUnderflow));
}

#[test]
fn run_reports_decode_exhaustion_at_region_end() {
    // Jump to the last byte of the instruction region, where a move
    // opcode stands without room for its operands.
    let code = [
        Instruction::CmpReg8Const8(CmpReg8Const8 {
            register: RegisterIndex(Register::R0),
            comparand: 1,
        }),
        Instruction::JumpIfNotEqual(JumpIfNotEqual { address: 0xFF }),
    ];
    let mut image = image_of(&code);
    image[0xFF] = 1;
    let mut vm = VM::new(Vec::new());
    assert_eq!(vm.run(&image, 10), Err(VmError::UnexpectedEnd));
}

#[test]
fn exit_sets_the_stop_condition() {
    let mut vm = VM::new(Vec::new());
    assert!(!vm.stop);
    Exit.execute(&mut vm).unwrap();
    assert!(vm.stop);
}
