// End-to-end runs of a self-decrypting comparison program: a plain prelude
// xors the rest of the instruction region back into shape, which then pops
// the input bytes and compares each against a value reconstructed from the
// data-memory region.

use regvm::instruction::{
    AddReg8Const8, CmpReg8Const8, CmpReg8Reg8, DerefAddressReg16Reg8, Exit, Instruction,
    JumpIfNotEqual, MovReg8Const8, PopReg8, ReadStdinStack, SubReg8Const8, WriteStdoutConst8,
    XorMemReg8Const8, XorReg8Const8, XorReg8Reg8,
};
use regvm::registers::{Register, RegisterIndex};
use regvm::vm::{Address16, AddressReg16, INSTRUCTIONS_BOUNDARY, MEMORY_BOUNDARY, VM, VM_BOUNDARY};

const SECRET_LEN: usize = 40;

fn secret() -> Vec<u8> {
    (0..SECRET_LEN as u8).map(|i| i.wrapping_mul(13).wrapping_add(7)).collect()
}

fn xor_stream() -> Vec<u8> {
    (0..SECRET_LEN as u8).map(|i| i.wrapping_mul(7).wrapping_add(3)).collect()
}

fn challenge_image() -> Vec<u8> {
    let secret = secret();
    let xor_stream = xor_stream();
    let memory_base = Address16::from_word(INSTRUCTIONS_BOUNDARY as u16);
    let xor_instructions: Vec<Instruction> = vec![
        Instruction::ReadStdinStack(ReadStdinStack {
            count: SECRET_LEN as u8,
        }),
        Instruction::MovReg8Const8(MovReg8Const8 {
            to: RegisterIndex(Register::R0),
            value: SECRET_LEN as u8,
        }),
        Instruction::MovReg8Const8(MovReg8Const8 {
            to: RegisterIndex(Register::R1),
            value: memory_base.high,
        }),
        Instruction::MovReg8Const8(MovReg8Const8 {
            to: RegisterIndex(Register::R2),
            value: memory_base.low,
        }),
        Instruction::PopReg8(PopReg8 {
            register: RegisterIndex(Register::R3),
        }),
        Instruction::DerefAddressReg16Reg8(DerefAddressReg16Reg8 {
            source: AddressReg16 {
                high: RegisterIndex(Register::R1),
                low: RegisterIndex(Register::R2),
            },
            destination: RegisterIndex(Register::R4),
        }),
        Instruction::XorReg8Const8(XorReg8Const8 {
            register: RegisterIndex(Register::R4),
            value: 0x41,
        }),
        Instruction::AddReg8Const8(AddReg8Const8 {
            register: RegisterIndex(Register::R2),
            value: 1,
        }),
        Instruction::DerefAddressReg16Reg8(DerefAddressReg16Reg8 {
            source: AddressReg16 {
                high: RegisterIndex(Register::R1),
                low: RegisterIndex(Register::R2),
            },
            destination: RegisterIndex(Register::R5),
        }),
        Instruction::XorReg8Const8(XorReg8Const8 {
            register: RegisterIndex(Register::R5),
            value: 0x41,
        }),
        Instruction::AddReg8Const8(AddReg8Const8 {
            register: RegisterIndex(Register::R2),
            value: 1,
        }),
        Instruction::XorReg8Reg8(XorReg8Reg8 {
            destination: RegisterIndex(Register::R3),
            source: RegisterIndex(Register::R4),
        }),
        Instruction::CmpReg8Reg8(CmpReg8Reg8 {
            comparand1: RegisterIndex(Register::R3),
            comparand2: RegisterIndex(Register::R5),
        }),
        Instruction::JumpIfNotEqual(JumpIfNotEqual { address: 0x4E }),
        Instruction::SubReg8Const8(SubReg8Const8 {
            register: RegisterIndex(Register::R0),
            value: 1,
        }),
        Instruction::CmpReg8Const8(CmpReg8Const8 {
            register: RegisterIndex(Register::R0),
            comparand: 0,
        }),
        Instruction::JumpIfNotEqual(JumpIfNotEqual { address: 0x1F }),
        Instruction::WriteStdoutConst8(WriteStdoutConst8 { byte: b'Y' }),
        Instruction::WriteStdoutConst8(WriteStdoutConst8 { byte: b'e' }),
        Instruction::WriteStdoutConst8(WriteStdoutConst8 { byte: b'p' }),
        Instruction::WriteStdoutConst8(WriteStdoutConst8 { byte: b'\n' }),
        Instruction::Exit(Exit),
        Instruction::WriteStdoutConst8(WriteStdoutConst8 { byte: b'N' }),
        Instruction::WriteStdoutConst8(WriteStdoutConst8 { byte: b'o' }),
        Instruction::WriteStdoutConst8(WriteStdoutConst8 { byte: b'p' }),
        Instruction::WriteStdoutConst8(WriteStdoutConst8 { byte: b'e' }),
        Instruction::WriteStdoutConst8(WriteStdoutConst8 { byte: b'\n' }),
        Instruction::Exit(Exit),
    ];
    let plain_instructions: Vec<Instruction> = vec![
        Instruction::MovReg8Const8(MovReg8Const8 {
            to: RegisterIndex(Register::R0),
            value: xor_instructions
                .iter()
                .fold(0u8, |accumulator, item| accumulator.wrapping_add(item.len())),
        }),
        Instruction::MovReg8Const8(MovReg8Const8 {
            to: RegisterIndex(Register::R1),
            value: 0x14,
        }),
        Instruction::XorMemReg8Const8(XorMemReg8Const8 {
            register: RegisterIndex(Register::R1),
            value: 0x41,
        }),
        Instruction::SubReg8Const8(SubReg8Const8 {
            register: RegisterIndex(Register::R0),
            value: 1,
        }),
        Instruction::AddReg8Const8(AddReg8Const8 {
            register: RegisterIndex(Register::R1),
            value: 1,
        }),
        Instruction::CmpReg8Const8(CmpReg8Const8 {
            register: RegisterIndex(Register::R0),
            comparand: 0,
        }),
        Instruction::JumpIfNotEqual(JumpIfNotEqual { address: 6 }),
    ];
    let plain_bytes = plain_instructions
        .iter()
        .flat_map(|item| item.encode())
        .collect::<Vec<_>>();
    assert_eq!(plain_bytes.len(), 0x14);
    let obfuscated = xor_instructions
        .iter()
        .flat_map(|item| item.encode())
        .map(|byte| byte ^ 0x41)
        .collect::<Vec<_>>();
    let mut instructions = [plain_bytes, obfuscated].concat();
    assert!(instructions.len() < INSTRUCTIONS_BOUNDARY);
    instructions.resize(INSTRUCTIONS_BOUNDARY, 0);
    let mut memory = vec![0u8; MEMORY_BOUNDARY - INSTRUCTIONS_BOUNDARY];
    let pairs = secret
        .iter()
        .zip(xor_stream.iter())
        .flat_map(|(&s, &x)| [(s ^ x) ^ 0x41, x ^ 0x41])
        .collect::<Vec<_>>();
    memory[0..SECRET_LEN * 2].copy_from_slice(&pairs);
    let mut image = [instructions, memory].concat();
    image.resize(VM_BOUNDARY, 0);
    image
}

#[test]
fn challenge_accepts_the_secret() {
    let image = challenge_image();
    let mut vm = VM::new(secret());
    assert_eq!(vm.run(&image, 100_000), Ok(true));
    assert_eq!(vm.output, b"Yep\n".to_vec());
}

#[test]
fn challenge_rejects_a_wrong_byte() {
    let image = challenge_image();
    let mut input = secret();
    input[5] ^= 1;
    let mut vm = VM::new(input);
    assert_eq!(vm.run(&image, 100_000), Ok(true));
    assert_eq!(vm.output, b"Nope\n".to_vec());
}
