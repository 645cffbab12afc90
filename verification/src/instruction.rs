use vstd::prelude::*;

use crate::registers::{Register, RegisterIndex, REGISTER_COUNT};
use crate::vm::{
    spec_exec, AddressReg16, VmError, MEMORY_BOUNDARY, STACK_CAPACITY, VM, VM_BOUNDARY,
};

verus! {

/// The closed set of opcodes. Each opcode's wire representation is its
/// position in this declaration order, starting at zero; see
/// [`opcode_byte`].
#[derive(Clone, Copy, PartialEq, Eq, Structural, Debug)]
pub enum Opcode {
    Exit,
    MovReg8Const8,
    XorMemReg8Const8,
    CmpReg8Const8,
    JumpIfNotEqual,
    SubReg8Const8,
    AddReg8Const8,
    ReadStdinStack,
    PopReg8,
    DerefAddressReg16Reg8,
    XorReg8Reg8,
    WriteStdoutConst8,
    CmpReg8Reg8,
    XorReg8Const8,
}

/// The byte that stands for `op` on the wire.
pub open spec fn opcode_byte(op: Opcode) -> u8 {
    match op {
        Opcode::Exit => 0,
        Opcode::MovReg8Const8 => 1,
        Opcode::XorMemReg8Const8 => 2,
        Opcode::CmpReg8Const8 => 3,
        Opcode::JumpIfNotEqual => 4,
        Opcode::SubReg8Const8 => 5,
        Opcode::AddReg8Const8 => 6,
        Opcode::ReadStdinStack => 7,
        Opcode::PopReg8 => 8,
        Opcode::DerefAddressReg16Reg8 => 9,
        Opcode::XorReg8Reg8 => 10,
        Opcode::WriteStdoutConst8 => 11,
        Opcode::CmpReg8Reg8 => 12,
        Opcode::XorReg8Const8 => 13,
    }
}

/// The opcode a byte stands for, if any.
pub open spec fn spec_opcode_of_byte(value: u8) -> Option<Opcode> {
    if value == 0 {
        Some(Opcode::Exit)
    } else if value == 1 {
        Some(Opcode::MovReg8Const8)
    } else if value == 2 {
        Some(Opcode::XorMemReg8Const8)
    } else if value == 3 {
        Some(Opcode::CmpReg8Const8)
    } else if value == 4 {
        Some(Opcode::JumpIfNotEqual)
    } else if value == 5 {
        Some(Opcode::SubReg8Const8)
    } else if value == 6 {
        Some(Opcode::AddReg8Const8)
    } else if value == 7 {
        Some(Opcode::ReadStdinStack)
    } else if value == 8 {
        Some(Opcode::PopReg8)
    } else if value == 9 {
        Some(Opcode::DerefAddressReg16Reg8)
    } else if value == 10 {
        Some(Opcode::XorReg8Reg8)
    } else if value == 11 {
        Some(Opcode::WriteStdoutConst8)
    } else if value == 12 {
        Some(Opcode::CmpReg8Reg8)
    } else if value == 13 {
        Some(Opcode::XorReg8Const8)
    } else {
        None
    }
}

impl Opcode {
    /// The wire byte of this opcode.
    pub fn value(&self) -> (r: u8)
        ensures
            r == opcode_byte(*self),
    {
        match self {
            Opcode::Exit => 0,
            Opcode::MovReg8Const8 => 1,
            Opcode::XorMemReg8Const8 => 2,
            Opcode::CmpReg8Const8 => 3,
            Opcode::JumpIfNotEqual => 4,
            Opcode::SubReg8Const8 => 5,
            Opcode::AddReg8Const8 => 6,
            Opcode::ReadStdinStack => 7,
            Opcode::PopReg8 => 8,
            Opcode::DerefAddressReg16Reg8 => 9,
            Opcode::XorReg8Reg8 => 10,
            Opcode::WriteStdoutConst8 => 11,
            Opcode::CmpReg8Reg8 => 12,
            Opcode::XorReg8Const8 => 13,
        }
    }

    /// The opcode a wire byte stands for, or `None` for an unknown byte.
    pub fn from_byte(value: u8) -> (r: Option<Opcode>)
        ensures
            r == spec_opcode_of_byte(value),
    {
        match value {
            0 => Some(Opcode::Exit),
            1 => Some(Opcode::MovReg8Const8),
            2 => Some(Opcode::XorMemReg8Const8),
            3 => Some(Opcode::CmpReg8Const8),
            4 => Some(Opcode::JumpIfNotEqual),
            5 => Some(Opcode::SubReg8Const8),
            6 => Some(Opcode::AddReg8Const8),
            7 => Some(Opcode::ReadStdinStack),
            8 => Some(Opcode::PopReg8),
            9 => Some(Opcode::DerefAddressReg16Reg8),
            10 => Some(Opcode::XorReg8Reg8),
            11 => Some(Opcode::WriteStdoutConst8),
            12 => Some(Opcode::CmpReg8Reg8),
            13 => Some(Opcode::XorReg8Const8),
            _ => None,
        }
    }
}

/// `reg <- value`.
#[derive(Clone, Copy, PartialEq, Eq, Structural, Debug)]
pub struct MovReg8Const8 {
    pub to: RegisterIndex,
    pub value: u8,
}

/// `Memory[value of reg, as an absolute offset] ^= value`.
#[derive(Clone, Copy, PartialEq, Eq, Structural, Debug)]
pub struct XorMemReg8Const8 {
    pub register: RegisterIndex,
    pub value: u8,
}

/// `equal <- (reg == comparand)`.
#[derive(Clone, Copy, PartialEq, Eq, Structural, Debug)]
pub struct CmpReg8Const8 {
    pub register: RegisterIndex,
    pub comparand: u8,
}

/// Sets the stop condition; the execution loop terminates after it.
#[derive(Clone, Copy, PartialEq, Eq, Structural, Debug)]
pub struct Exit;

/// If the equal flag is clear, `PC <- address`; otherwise a no-op.
#[derive(Clone, Copy, PartialEq, Eq, Structural, Debug)]
pub struct JumpIfNotEqual {
    pub address: u8,
}

/// `reg <- reg - value`, wrapping modulo 256.
#[derive(Clone, Copy, PartialEq, Eq, Structural, Debug)]
pub struct SubReg8Const8 {
    pub register: RegisterIndex,
    pub value: u8,
}

/// `reg <- reg + value`, wrapping modulo 256.
#[derive(Clone, Copy, PartialEq, Eq, Structural, Debug)]
pub struct AddReg8Const8 {
    pub register: RegisterIndex,
    pub value: u8,
}

/// Reads `count` bytes from the input channel, reverses their order, and
/// pushes them onto the stack region at the current stack pointer;
/// advances the stack pointer by `count`.
#[derive(Clone, Copy, PartialEq, Eq, Structural, Debug)]
pub struct ReadStdinStack {
    pub count: u8,
}

/// `SP <- SP - 1; reg <- Stack[SP]`; fatal on an empty stack.
#[derive(Clone, Copy, PartialEq, Eq, Structural, Debug)]
pub struct PopReg8 {
    pub register: RegisterIndex,
}

/// `dest <- AddressSpace[address formed from the two named registers]`,
/// the address being an absolute offset into the whole address space.
#[derive(Clone, Copy, PartialEq, Eq, Structural, Debug)]
pub struct DerefAddressReg16Reg8 {
    pub source: AddressReg16,
    pub destination: RegisterIndex,
}

/// `dest <- dest ^ src`.
#[derive(Clone, Copy, PartialEq, Eq, Structural, Debug)]
pub struct XorReg8Reg8 {
    pub destination: RegisterIndex,
    pub source: RegisterIndex,
}

/// Writes one literal byte to the output channel.
#[derive(Clone, Copy, PartialEq, Eq, Structural, Debug)]
pub struct WriteStdoutConst8 {
    pub byte: u8,
}

/// `equal <- (regA == regB)`.
#[derive(Clone, Copy, PartialEq, Eq, Structural, Debug)]
pub struct CmpReg8Reg8 {
    pub comparand1: RegisterIndex,
    pub comparand2: RegisterIndex,
}

/// `reg <- reg ^ value`.
#[derive(Clone, Copy, PartialEq, Eq, Structural, Debug)]
pub struct XorReg8Const8 {
    pub register: RegisterIndex,
    pub value: u8,
}

/// One decoded instruction: a closed sum over the fourteen variants, each
/// carrying only the operand fields its opcode requires.
#[derive(Clone, Copy, PartialEq, Eq, Structural, Debug)]
pub enum Instruction {
    Exit(Exit),
    MovReg8Const8(MovReg8Const8),
    XorMemReg8Const8(XorMemReg8Const8),
    CmpReg8Const8(CmpReg8Const8),
    JumpIfNotEqual(JumpIfNotEqual),
    SubReg8Const8(SubReg8Const8),
    AddReg8Const8(AddReg8Const8),
    ReadStdinStack(ReadStdinStack),
    PopReg8(PopReg8),
    DerefAddressReg16Reg8(DerefAddressReg16Reg8),
    XorReg8Reg8(XorReg8Reg8),
    WriteStdoutConst8(WriteStdoutConst8),
    CmpReg8Reg8(CmpReg8Reg8),
    XorReg8Const8(XorReg8Const8),
}

/// The opcode of an instruction value.
pub open spec fn spec_opcode(i: Instruction) -> Opcode {
    match i {
        Instruction::Exit(_) => Opcode::Exit,
        Instruction::MovReg8Const8(_) => Opcode::MovReg8Const8,
        Instruction::XorMemReg8Const8(_) => Opcode::XorMemReg8Const8,
        Instruction::CmpReg8Const8(_) => Opcode::CmpReg8Const8,
        Instruction::JumpIfNotEqual(_) => Opcode::JumpIfNotEqual,
        Instruction::SubReg8Const8(_) => Opcode::SubReg8Const8,
        Instruction::AddReg8Const8(_) => Opcode::AddReg8Const8,
        Instruction::ReadStdinStack(_) => Opcode::ReadStdinStack,
        Instruction::PopReg8(_) => Opcode::PopReg8,
        Instruction::DerefAddressReg16Reg8(_) => Opcode::DerefAddressReg16Reg8,
        Instruction::XorReg8Reg8(_) => Opcode::XorReg8Reg8,
        Instruction::WriteStdoutConst8(_) => Opcode::WriteStdoutConst8,
        Instruction::CmpReg8Reg8(_) => Opcode::CmpReg8Reg8,
        Instruction::XorReg8Const8(_) => Opcode::XorReg8Const8,
    }
}

/// The exact bytes an instruction stands for on the wire: its opcode byte
/// followed by its operand bytes, in decode order.
pub open spec fn spec_encode(i: Instruction) -> Seq<u8> {
    match i {
        Instruction::Exit(_) => seq![0u8],
        Instruction::MovReg8Const8(m) => seq![1u8, m.to.0, m.value],
        Instruction::XorMemReg8Const8(x) => seq![2u8, x.register.0, x.value],
        Instruction::CmpReg8Const8(c) => seq![3u8, c.register.0, c.comparand],
        Instruction::JumpIfNotEqual(j) => seq![4u8, j.address],
        Instruction::SubReg8Const8(s) => seq![5u8, s.register.0, s.value],
        Instruction::AddReg8Const8(a) => seq![6u8, a.register.0, a.value],
        Instruction::ReadStdinStack(r) => seq![7u8, r.count],
        Instruction::PopReg8(p) => seq![8u8, p.register.0],
        Instruction::DerefAddressReg16Reg8(d) => seq![
            9u8,
            d.source.high.0,
            d.source.low.0,
            d.destination.0,
        ],
        Instruction::XorReg8Reg8(x) => seq![10u8, x.destination.0, x.source.0],
        Instruction::WriteStdoutConst8(w) => seq![11u8, w.byte],
        Instruction::CmpReg8Reg8(c) => seq![12u8, c.comparand1.0, c.comparand2.0],
        Instruction::XorReg8Const8(x) => seq![13u8, x.register.0, x.value],
    }
}

/// The total encoded length of an instruction: one opcode byte plus its
/// operand bytes.
pub open spec fn spec_len(i: Instruction) -> int {
    spec_encode(i).len() as int
}

/// The instruction whose encoding starts at `pos` in `s`, or the fatal
/// condition met there: an unknown opcode byte, or too few bytes left for
/// the opcode's operands.
pub open spec fn spec_decode(s: Seq<u8>, pos: int) -> Result<Instruction, VmError> {
    if pos < 0 || pos >= s.len() {
        Err(VmError::UnexpectedEnd)
    } else {
        let op = s[pos];
        if op == 0 {
            Ok(Instruction::Exit(Exit))
        } else if op == 1 {
            if pos + 3 <= s.len() {
                Ok(
                    Instruction::MovReg8Const8(
                        MovReg8Const8 { to: RegisterIndex(s[pos + 1]), value: s[pos + 2] },
                    ),
                )
            } else {
                Err(VmError::UnexpectedEnd)
            }
        } else if op == 2 {
            if pos + 3 <= s.len() {
                Ok(
                    Instruction::XorMemReg8Const8(
                        XorMemReg8Const8 { register: RegisterIndex(s[pos + 1]), value: s[pos + 2] },
                    ),
                )
            } else {
                Err(VmError::UnexpectedEnd)
            }
        } else if op == 3 {
            if pos + 3 <= s.len() {
                Ok(
                    Instruction::CmpReg8Const8(
                        CmpReg8Const8 {
                            register: RegisterIndex(s[pos + 1]),
                            comparand: s[pos + 2],
                        },
                    ),
                )
            } else {
                Err(VmError::UnexpectedEnd)
            }
        } else if op == 4 {
            if pos + 2 <= s.len() {
                Ok(Instruction::JumpIfNotEqual(JumpIfNotEqual { address: s[pos + 1] }))
            } else {
                Err(VmError::UnexpectedEnd)
            }
        } else if op == 5 {
            if pos + 3 <= s.len() {
                Ok(
                    Instruction::SubReg8Const8(
                        SubReg8Const8 { register: RegisterIndex(s[pos + 1]), value: s[pos + 2] },
                    ),
                )
            } else {
                Err(VmError::UnexpectedEnd)
            }
        } else if op == 6 {
            if pos + 3 <= s.len() {
                Ok(
                    Instruction::AddReg8Const8(
                        AddReg8Const8 { register: RegisterIndex(s[pos + 1]), value: s[pos + 2] },
                    ),
                )
            } else {
                Err(VmError::UnexpectedEnd)
            }
        } else if op == 7 {
            if pos + 2 <= s.len() {
                Ok(Instruction::ReadStdinStack(ReadStdinStack { count: s[pos + 1] }))
            } else {
                Err(VmError::UnexpectedEnd)
            }
        } else if op == 8 {
            if pos + 2 <= s.len() {
                Ok(Instruction::PopReg8(PopReg8 { register: RegisterIndex(s[pos + 1]) }))
            } else {
                Err(VmError::UnexpectedEnd)
            }
        } else if op == 9 {
            if pos + 4 <= s.len() {
                Ok(
                    Instruction::DerefAddressReg16Reg8(
                        DerefAddressReg16Reg8 {
                            source: AddressReg16 {
                                high: RegisterIndex(s[pos + 1]),
                                low: RegisterIndex(s[pos + 2]),
                            },
                            destination: RegisterIndex(s[pos + 3]),
                        },
                    ),
                )
            } else {
                Err(VmError::UnexpectedEnd)
            }
        } else if op == 10 {
            if pos + 3 <= s.len() {
                Ok(
                    Instruction::XorReg8Reg8(
                        XorReg8Reg8 {
                            destination: RegisterIndex(s[pos + 1]),
                            source: RegisterIndex(s[pos + 2]),
                        },
                    ),
                )
            } else {
                Err(VmError::UnexpectedEnd)
            }
        } else if op == 11 {
            if pos + 2 <= s.len() {
                Ok(Instruction::WriteStdoutConst8(WriteStdoutConst8 { byte: s[pos + 1] }))
            } else {
                Err(VmError::UnexpectedEnd)
            }
        } else if op == 12 {
            if pos + 3 <= s.len() {
                Ok(
                    Instruction::CmpReg8Reg8(
                        CmpReg8Reg8 {
                            comparand1: RegisterIndex(s[pos + 1]),
                            comparand2: RegisterIndex(s[pos + 2]),
                        },
                    ),
                )
            } else {
                Err(VmError::UnexpectedEnd)
            }
        } else if op == 13 {
            if pos + 3 <= s.len() {
                Ok(
                    Instruction::XorReg8Const8(
                        XorReg8Const8 { register: RegisterIndex(s[pos + 1]), value: s[pos + 2] },
                    ),
                )
            } else {
                Err(VmError::UnexpectedEnd)
            }
        } else {
            Err(VmError::UnknownOpcode(op))
        }
    }
}

/// Round-trip, one direction: decoding an instruction's own encoding,
/// wherever it stands within a byte sequence, yields that instruction
/// back.
pub proof fn lemma_decode_encode(i: Instruction, s: Seq<u8>, pos: int)
    requires
        0 <= pos,
        pos + spec_len(i) <= s.len(),
        s.subrange(pos, pos + spec_len(i)) == spec_encode(i),
    ensures
        spec_decode(s, pos) == Ok::<Instruction, VmError>(i),
{
    let enc = spec_encode(i);
    assert(s[pos] == enc[0]) by {
        assert(s.subrange(pos, pos + spec_len(i))[0] == s[pos]);
    }
    assert(spec_len(i) >= 2 ==> s[pos + 1] == enc[1]) by {
        if spec_len(i) >= 2 {
            assert(s.subrange(pos, pos + spec_len(i))[1] == s[pos + 1]);
        }
    }
    assert(spec_len(i) >= 3 ==> s[pos + 2] == enc[2]) by {
        if spec_len(i) >= 3 {
            assert(s.subrange(pos, pos + spec_len(i))[2] == s[pos + 2]);
        }
    }
    assert(spec_len(i) >= 4 ==> s[pos + 3] == enc[3]) by {
        if spec_len(i) >= 4 {
            assert(s.subrange(pos, pos + spec_len(i))[3] == s[pos + 3]);
        }
    }
}

/// Round-trip, the other direction: an instruction decoded out of a byte
/// sequence occupies exactly the bytes its own encoding emits, so
/// re-encoding reproduces the consumed bytes.
pub proof fn lemma_encode_decode(s: Seq<u8>, pos: int, i: Instruction)
    requires
        spec_decode(s, pos) == Ok::<Instruction, VmError>(i),
    ensures
        0 <= pos,
        pos + spec_len(i) <= s.len(),
        spec_encode(i) == s.subrange(pos, pos + spec_len(i)),
{
    assert(spec_encode(i) =~= s.subrange(pos, pos + spec_len(i)));
}

/// Decoding an encoding from its own start reproduces the instruction.
pub proof fn lemma_round_trip(i: Instruction)
    ensures
        spec_decode(spec_encode(i), 0) == Ok::<Instruction, VmError>(i),
{
    assert(spec_encode(i).subrange(0, spec_len(i)) =~= spec_encode(i));
    lemma_decode_encode(i, spec_encode(i), 0);
}

impl MovReg8Const8 {
    /// This variant's opcode.
    pub fn opcode(&self) -> (r: Opcode)
        ensures
            r == Opcode::MovReg8Const8,
    {
        Opcode::MovReg8Const8
    }

    /// Decode the operand bytes, which begin at `pos`.
    pub fn decode(bytes: &[u8], pos: usize) -> (r: Result<MovReg8Const8, VmError>)
        ensures
            pos + 2 <= bytes@.len() ==> r == Ok::<MovReg8Const8, VmError>(
                MovReg8Const8 { to: RegisterIndex(bytes@[pos as int]), value: bytes@[pos as int + 1] },
            ),
            pos + 2 > bytes@.len() ==> r == Err::<MovReg8Const8, VmError>(VmError::UnexpectedEnd),
    {
        if pos < bytes.len() && bytes.len() - pos >= 2 {
            Ok(MovReg8Const8 { to: RegisterIndex(bytes[pos]), value: bytes[pos + 1] })
        } else {
            Err(VmError::UnexpectedEnd)
        }
    }

    /// Write the register, or report the fatal condition.
    pub fn execute(&self, vm: &mut VM) -> (r: Result<(), VmError>)
        requires
            old(vm).wf(),
        ensures
            final(vm).wf(),
            (match spec_exec(Instruction::MovReg8Const8(*self), old(vm)@) {
                Ok(w) => r == Ok::<(), VmError>(()) && final(vm)@ == w,
                Err(e) => r == Err::<(), VmError>(e) && final(vm)@ == old(vm)@,
            }),
    {
        if self.to.0 as usize >= REGISTER_COUNT {
            return Err(VmError::InvalidRegister);
        }
        vm.registers.write(self.to, self.value);
        proof {
            assert(vm@ =~= spec_exec(Instruction::MovReg8Const8(*self), old(vm)@)->Ok_0);
        }
        Ok(())
    }

    /// Total encoded length in bytes.
    pub fn len(&self) -> (r: u8)
        ensures
            r as int == spec_len(Instruction::MovReg8Const8(*self)),
    {
        3
    }

    /// The exact bytes decode would have consumed.
    pub fn encode(&self) -> (r: Vec<u8>)
        ensures
            r@ == spec_encode(Instruction::MovReg8Const8(*self)),
    {
        let mut bytes: Vec<u8> = Vec::new();
        bytes.push(self.opcode().value());
        bytes.push(self.to.0);
        bytes.push(self.value);
        proof {
            assert(bytes@ =~= spec_encode(Instruction::MovReg8Const8(*self)));
        }
        bytes
    }
}

impl XorMemReg8Const8 {
    /// This variant's opcode.
    pub fn opcode(&self) -> (r: Opcode)
        ensures
            r == Opcode::XorMemReg8Const8,
    {
        Opcode::XorMemReg8Const8
    }

    /// Decode the operand bytes, which begin at `pos`.
    pub fn decode(bytes: &[u8], pos: usize) -> (r: Result<XorMemReg8Const8, VmError>)
        ensures
            pos + 2 <= bytes@.len() ==> r == Ok::<XorMemReg8Const8, VmError>(
                XorMemReg8Const8 {
                    register: RegisterIndex(bytes@[pos as int]),
                    value: bytes@[pos as int + 1],
                },
            ),
            pos + 2 > bytes@.len() ==> r == Err::<XorMemReg8Const8, VmError>(VmError::UnexpectedEnd),
    {
        if pos < bytes.len() && bytes.len() - pos >= 2 {
            Ok(XorMemReg8Const8 { register: RegisterIndex(bytes[pos]), value: bytes[pos + 1] })
        } else {
            Err(VmError::UnexpectedEnd)
        }
    }

    /// Xor the addressed byte, the register's value being an absolute
    /// offset into the whole address space.
    pub fn execute(&self, vm: &mut VM) -> (r: Result<(), VmError>)
        requires
            old(vm).wf(),
        ensures
            final(vm).wf(),
            (match spec_exec(Instruction::XorMemReg8Const8(*self), old(vm)@) {
                Ok(w) => r == Ok::<(), VmError>(()) && final(vm)@ == w,
                Err(e) => r == Err::<(), VmError>(e) && final(vm)@ == old(vm)@,
            }),
    {
        if self.register.0 as usize >= REGISTER_COUNT {
            return Err(VmError::InvalidRegister);
        }
        let address = vm.registers.read(self.register) as usize;
        let byte = vm.memory[address];
        vm.memory.set(address, byte ^ self.value);
        proof {
            assert(vm@ =~= spec_exec(Instruction::XorMemReg8Const8(*self), old(vm)@)->Ok_0);
        }
        Ok(())
    }

    /// Total encoded length in bytes.
    pub fn len(&self) -> (r: u8)
        ensures
            r as int == spec_len(Instruction::XorMemReg8Const8(*self)),
    {
        3
    }

    /// The exact bytes decode would have consumed.
    pub fn encode(&self) -> (r: Vec<u8>)
        ensures
            r@ == spec_encode(Instruction::XorMemReg8Const8(*self)),
    {
        let mut bytes: Vec<u8> = Vec::new();
        bytes.push(self.opcode().value());
        bytes.push(self.register.0);
        bytes.push(self.value);
        proof {
            assert(bytes@ =~= spec_encode(Instruction::XorMemReg8Const8(*self)));
        }
        bytes
    }
}

impl CmpReg8Const8 {
    /// This variant's opcode.
    pub fn opcode(&self) -> (r: Opcode)
        ensures
            r == Opcode::CmpReg8Const8,
    {
        Opcode::CmpReg8Const8
    }

    /// Decode the operand bytes, which begin at `pos`.
    pub fn decode(bytes: &[u8], pos: usize) -> (r: Result<CmpReg8Const8, VmError>)
        ensures
            pos + 2 <= bytes@.len() ==> r == Ok::<CmpReg8Const8, VmError>(
                CmpReg8Const8 {
                    register: RegisterIndex(bytes@[pos as int]),
                    comparand: bytes@[pos as int + 1],
                },
            ),
            pos + 2 > bytes@.len() ==> r == Err::<CmpReg8Const8, VmError>(VmError::UnexpectedEnd),
    {
        if pos < bytes.len() && bytes.len() - pos >= 2 {
            Ok(CmpReg8Const8 { register: RegisterIndex(bytes[pos]), comparand: bytes[pos + 1] })
        } else {
            Err(VmError::UnexpectedEnd)
        }
    }

    /// Set the equal flag from the comparison.
    pub fn execute(&self, vm: &mut VM) -> (r: Result<(), VmError>)
        requires
            old(vm).wf(),
        ensures
            final(vm).wf(),
            (match spec_exec(Instruction::CmpReg8Const8(*self), old(vm)@) {
                Ok(w) => r == Ok::<(), VmError>(()) && final(vm)@ == w,
                Err(e) => r == Err::<(), VmError>(e) && final(vm)@ == old(vm)@,
            }),
    {
        if self.register.0 as usize >= REGISTER_COUNT {
            return Err(VmError::InvalidRegister);
        }
        let value = vm.registers.read(self.register);
        vm.flags.set_equal(value == self.comparand);
        proof {
            assert(vm@ =~= spec_exec(Instruction::CmpReg8Const8(*self), old(vm)@)->Ok_0);
        }
        Ok(())
    }

    /// Total encoded length in bytes.
    pub fn len(&self) -> (r: u8)
        ensures
            r as int == spec_len(Instruction::CmpReg8Const8(*self)),
    {
        3
    }

    /// The exact bytes decode would have consumed.
    pub fn encode(&self) -> (r: Vec<u8>)
        ensures
            r@ == spec_encode(Instruction::CmpReg8Const8(*self)),
    {
        let mut bytes: Vec<u8> = Vec::new();
        bytes.push(self.opcode().value());
        bytes.push(self.register.0);
        bytes.push(self.comparand);
        proof {
            assert(bytes@ =~= spec_encode(Instruction::CmpReg8Const8(*self)));
        }
        bytes
    }
}

impl Exit {
    /// This variant's opcode.
    pub fn opcode(&self) -> (r: Opcode)
        ensures
            r == Opcode::Exit,
    {
        Opcode::Exit
    }

    /// This variant has no operand bytes; decoding always succeeds.
    pub fn decode(_bytes: &[u8], _pos: usize) -> (r: Result<Exit, VmError>)
        ensures
            r == Ok::<Exit, VmError>(Exit),
    {
        Ok(Exit)
    }

    /// Set the stop condition.
    pub fn execute(&self, vm: &mut VM) -> (r: Result<(), VmError>)
        requires
            old(vm).wf(),
        ensures
            final(vm).wf(),
            (match spec_exec(Instruction::Exit(*self), old(vm)@) {
                Ok(w) => r == Ok::<(), VmError>(()) && final(vm)@ == w,
                Err(e) => r == Err::<(), VmError>(e) && final(vm)@ == old(vm)@,
            }),
    {
        vm.stop = true;
        proof {
            assert(vm@ =~= spec_exec(Instruction::Exit(*self), old(vm)@)->Ok_0);
        }
        Ok(())
    }

    /// Total encoded length in bytes.
    pub fn len(&self) -> (r: u8)
        ensures
            r as int == spec_len(Instruction::Exit(*self)),
    {
        1
    }

    /// The exact bytes decode would have consumed.
    pub fn encode(&self) -> (r: Vec<u8>)
        ensures
            r@ == spec_encode(Instruction::Exit(*self)),
    {
        let mut bytes: Vec<u8> = Vec::new();
        bytes.push(self.opcode().value());
        proof {
            assert(bytes@ =~= spec_encode(Instruction::Exit(*self)));
        }
        bytes
    }
}

impl JumpIfNotEqual {
    /// This variant's opcode.
    pub fn opcode(&self) -> (r: Opcode)
        ensures
            r == Opcode::JumpIfNotEqual,
    {
        Opcode::JumpIfNotEqual
    }

    /// Decode the operand byte at `pos`.
    pub fn decode(bytes: &[u8], pos: usize) -> (r: Result<JumpIfNotEqual, VmError>)
        ensures
            pos + 1 <= bytes@.len() ==> r == Ok::<JumpIfNotEqual, VmError>(
                JumpIfNotEqual { address: bytes@[pos as int] },
            ),
            pos + 1 > bytes@.len() ==> r == Err::<JumpIfNotEqual, VmError>(VmError::UnexpectedEnd),
    {
        if pos < bytes.len() {
            Ok(JumpIfNotEqual { address: bytes[pos] })
        } else {
            Err(VmError::UnexpectedEnd)
        }
    }

    /// Overwrite the program counter when the equal flag is clear.
    pub fn execute(&self, vm: &mut VM) -> (r: Result<(), VmError>)
        requires
            old(vm).wf(),
        ensures
            final(vm).wf(),
            (match spec_exec(Instruction::JumpIfNotEqual(*self), old(vm)@) {
                Ok(w) => r == Ok::<(), VmError>(()) && final(vm)@ == w,
                Err(e) => r == Err::<(), VmError>(e) && final(vm)@ == old(vm)@,
            }),
    {
        if !vm.flags.get_equal() {
            vm.registers.write(RegisterIndex(Register::PC), self.address);
        }
        proof {
            assert(vm@ =~= spec_exec(Instruction::JumpIfNotEqual(*self), old(vm)@)->Ok_0);
        }
        Ok(())
    }

    /// Total encoded length in bytes.
    pub fn len(&self) -> (r: u8)
        ensures
            r as int == spec_len(Instruction::JumpIfNotEqual(*self)),
    {
        2
    }

    /// The exact bytes decode would have consumed.
    pub fn encode(&self) -> (r: Vec<u8>)
        ensures
            r@ == spec_encode(Instruction::JumpIfNotEqual(*self)),
    {
        let mut bytes: Vec<u8> = Vec::new();
        bytes.push(self.opcode().value());
        bytes.push(self.address);
        proof {
            assert(bytes@ =~= spec_encode(Instruction::JumpIfNotEqual(*self)));
        }
        bytes
    }
}

impl SubReg8Const8 {
    /// This variant's opcode.
    pub fn opcode(&self) -> (r: Opcode)
        ensures
            r == Opcode::SubReg8Const8,
    {
        Opcode::SubReg8Const8
    }

    /// Decode the operand bytes, which begin at `pos`.
    pub fn decode(bytes: &[u8], pos: usize) -> (r: Result<SubReg8Const8, VmError>)
        ensures
            pos + 2 <= bytes@.len() ==> r == Ok::<SubReg8Const8, VmError>(
                SubReg8Const8 {
                    register: RegisterIndex(bytes@[pos as int]),
                    value: bytes@[pos as int + 1],
                },
            ),
            pos + 2 > bytes@.len() ==> r == Err::<SubReg8Const8, VmError>(VmError::UnexpectedEnd),
    {
        if pos < bytes.len() && bytes.len() - pos >= 2 {
            Ok(SubReg8Const8 { register: RegisterIndex(bytes[pos]), value: bytes[pos + 1] })
        } else {
            Err(VmError::UnexpectedEnd)
        }
    }

    /// Subtract, wrapping modulo 256.
    pub fn execute(&self, vm: &mut VM) -> (r: Result<(), VmError>)
        requires
            old(vm).wf(),
        ensures
            final(vm).wf(),
            (match spec_exec(Instruction::SubReg8Const8(*self), old(vm)@) {
                Ok(w) => r == Ok::<(), VmError>(()) && final(vm)@ == w,
                Err(e) => r == Err::<(), VmError>(e) && final(vm)@ == old(vm)@,
            }),
    {
        if self.register.0 as usize >= REGISTER_COUNT {
            return Err(VmError::InvalidRegister);
        }
        let old_value = vm.registers.read(self.register);
        let new_value = (((old_value as u16 + 256) - self.value as u16) % 256) as u8;
        vm.registers.write(self.register, new_value);
        proof {
            assert(vm@ =~= spec_exec(Instruction::SubReg8Const8(*self), old(vm)@)->Ok_0);
        }
        Ok(())
    }

    /// Total encoded length in bytes.
    pub fn len(&self) -> (r: u8)
        ensures
            r as int == spec_len(Instruction::SubReg8Const8(*self)),
    {
        3
    }

    /// The exact bytes decode would have consumed.
    pub fn encode(&self) -> (r: Vec<u8>)
        ensures
            r@ == spec_encode(Instruction::SubReg8Const8(*self)),
    {
        let mut bytes: Vec<u8> = Vec::new();
        bytes.push(self.opcode().value());
        bytes.push(self.register.0);
        bytes.push(self.value);
        proof {
            assert(bytes@ =~= spec_encode(Instruction::SubReg8Const8(*self)));
        }
        bytes
    }
}

impl AddReg8Const8 {
    /// This variant's opcode.
    pub fn opcode(&self) -> (r: Opcode)
        ensures
            r == Opcode::AddReg8Const8,
    {
        Opcode::AddReg8Const8
    }

    /// Decode the operand bytes, which begin at `pos`.
    pub fn decode(bytes: &[u8], pos: usize) -> (r: Result<AddReg8Const8, VmError>)
        ensures
            pos + 2 <= bytes@.len() ==> r == Ok::<AddReg8Const8, VmError>(
                AddReg8Const8 {
                    register: RegisterIndex(bytes@[pos as int]),
                    value: bytes@[pos as int + 1],
                },
            ),
            pos + 2 > bytes@.len() ==> r == Err::<AddReg8Const8, VmError>(VmError::UnexpectedEnd),
    {
        if pos < bytes.len() && bytes.len() - pos >= 2 {
            Ok(AddReg8Const8 { register: RegisterIndex(bytes[pos]), value: bytes[pos + 1] })
        } else {
            Err(VmError::UnexpectedEnd)
        }
    }

    /// Add, wrapping modulo 256.
    pub fn execute(&self, vm: &mut VM) -> (r: Result<(), VmError>)
        requires
            old(vm).wf(),
        ensures
            final(vm).wf(),
            (match spec_exec(Instruction::AddReg8Const8(*self), old(vm)@) {
                Ok(w) => r == Ok::<(), VmError>(()) && final(vm)@ == w,
                Err(e) => r == Err::<(), VmError>(e) && final(vm)@ == old(vm)@,
            }),
    {
        if self.register.0 as usize >= REGISTER_COUNT {
            return Err(VmError::InvalidRegister);
        }
        let old_value = vm.registers.read(self.register);
        let new_value = ((old_value as u16 + self.value as u16) % 256) as u8;
        vm.registers.write(self.register, new_value);
        proof {
            assert(vm@ =~= spec_exec(Instruction::AddReg8Const8(*self), old(vm)@)->Ok_0);
        }
        Ok(())
    }

    /// Total encoded length in bytes.
    pub fn len(&self) -> (r: u8)
        ensures
            r as int == spec_len(Instruction::AddReg8Const8(*self)),
    {
        3
    }

    /// The exact bytes decode would have consumed.
    pub fn encode(&self) -> (r: Vec<u8>)
        ensures
            r@ == spec_encode(Instruction::AddReg8Const8(*self)),
    {
        let mut bytes: Vec<u8> = Vec::new();
        bytes.push(self.opcode().value());
        bytes.push(self.register.0);
        bytes.push(self.value);
        proof {
            assert(bytes@ =~= spec_encode(Instruction::AddReg8Const8(*self)));
        }
        bytes
    }
}

impl ReadStdinStack {
    /// This variant's opcode.
    pub fn opcode(&self) -> (r: Opcode)
        ensures
            r == Opcode::ReadStdinStack,
    {
        Opcode::ReadStdinStack
    }

    /// Decode the operand byte at `pos`.
    pub fn decode(bytes: &[u8], pos: usize) -> (r: Result<ReadStdinStack, VmError>)
        ensures
            pos + 1 <= bytes@.len() ==> r == Ok::<ReadStdinStack, VmError>(
                ReadStdinStack { count: bytes@[pos as int] },
            ),
            pos + 1 > bytes@.len() ==> r == Err::<ReadStdinStack, VmError>(VmError::UnexpectedEnd),
    {
        if pos < bytes.len() {
            Ok(ReadStdinStack { count: bytes[pos] })
        } else {
            Err(VmError::UnexpectedEnd)
        }
    }

    /// Take `count` bytes from the input channel, reverse them, push them
    /// onto the stack region at the stack pointer, and advance the stack
    /// pointer; or report the fatal condition.
    pub fn execute(&self, vm: &mut VM) -> (r: Result<(), VmError>)
        requires
            old(vm).wf(),
        ensures
            final(vm).wf(),
            (match spec_exec(Instruction::ReadStdinStack(*self), old(vm)@) {
                Ok(w) => r == Ok::<(), VmError>(()) && final(vm)@ == w,
                Err(e) => r == Err::<(), VmError>(e) && final(vm)@ == old(vm)@,
            }),
    {
        let count = self.count as usize;
        if vm.input.len() - vm.input_pos < count {
            return Err(VmError::InputExhausted);
        }
        let sp = vm.registers.read(RegisterIndex(Register::SP)) as usize;
        if sp + count > STACK_CAPACITY {
            return Err(VmError::StackOverflow);
        }
        let base = vm.input_pos;
        let end = base + count;
        let mut k: usize = 0;
        while k < count
            invariant
                k <= count,
                count == self.count as int,
                base == vm.input_pos,
                end == base + count,
                sp == old(vm)@.regs[9] as int,
                sp + count <= STACK_CAPACITY,
                vm.wf(),
                vm.input_pos + count <= vm.input@.len(),
                vm.input == old(vm).input,
                vm.input_pos == old(vm).input_pos,
                vm.registers == old(vm).registers,
                vm.flags == old(vm).flags,
                vm.stop == old(vm).stop,
                vm.output == old(vm).output,
                forall|j: int|
                    0 <= j < MEMORY_BOUNDARY + sp ==> vm.memory@[j] == old(vm).memory@[j],
                forall|j: int|
                    MEMORY_BOUNDARY + sp <= j < MEMORY_BOUNDARY + sp + k
                        ==> #[trigger] vm.memory@[j] == old(vm).input@[base + count - 1 - (j
                        - MEMORY_BOUNDARY - sp)],
                forall|j: int|
                    MEMORY_BOUNDARY + sp + k <= j < VM_BOUNDARY ==> vm.memory@[j] == old(
                        vm,
                    ).memory@[j],
            decreases count - k,
        {
            let byte = vm.input[end - 1 - k];
            vm.memory.set(MEMORY_BOUNDARY + sp + k, byte);
            k = k + 1;
        }
        vm.input_pos = vm.input_pos + count;
        let new_sp = ((sp + count) % 256) as u8;
        vm.registers.write(RegisterIndex(Register::SP), new_sp);
        proof {
            let w = spec_exec(Instruction::ReadStdinStack(*self), old(vm)@)->Ok_0;
            assert(vm@.memory =~= w.memory);
            assert(vm@.regs =~= w.regs);
            assert(vm@.input =~= w.input);
            assert(vm@ =~= w);
        }
        Ok(())
    }

    /// Total encoded length in bytes.
    pub fn len(&self) -> (r: u8)
        ensures
            r as int == spec_len(Instruction::ReadStdinStack(*self)),
    {
        2
    }

    /// The exact bytes decode would have consumed.
    pub fn encode(&self) -> (r: Vec<u8>)
        ensures
            r@ == spec_encode(Instruction::ReadStdinStack(*self)),
    {
        let mut bytes: Vec<u8> = Vec::new();
        bytes.push(self.opcode().value());
        bytes.push(self.count);
        proof {
            assert(bytes@ =~= spec_encode(Instruction::ReadStdinStack(*self)));
        }
        bytes
    }
}

impl PopReg8 {
    /// This variant's opcode.
    pub fn opcode(&self) -> (r: Opcode)
        ensures
            r == Opcode::PopReg8,
    {
        Opcode::PopReg8
    }

    /// Decode the operand byte at `pos`.
    pub fn decode(bytes: &[u8], pos: usize) -> (r: Result<PopReg8, VmError>)
        ensures
            pos + 1 <= bytes@.len() ==> r == Ok::<PopReg8, VmError>(
                PopReg8 { register: RegisterIndex(bytes@[pos as int]) },
            ),
            pos + 1 > bytes@.len() ==> r == Err::<PopReg8, VmError>(VmError::UnexpectedEnd),
    {
        if pos < bytes.len() {
            Ok(PopReg8 { register: RegisterIndex(bytes[pos]) })
        } else {
            Err(VmError::UnexpectedEnd)
        }
    }

    /// Pop the byte under the stack pointer into the register, or report
    /// the fatal condition.
    pub fn execute(&self, vm: &mut VM) -> (r: Result<(), VmError>)
        requires
            old(vm).wf(),
        ensures
            final(vm).wf(),
            (match spec_exec(Instruction::PopReg8(*self), old(vm)@) {
                Ok(w) => r == Ok::<(), VmError>(()) && final(vm)@ == w,
                Err(e) => r == Err::<(), VmError>(e) && final(vm)@ == old(vm)@,
            }),
    {
        let sp = vm.registers.read(RegisterIndex(Register::SP));
        if sp == 0 {
            return Err(VmError::StackUnderflow);
        }
        if self.register.0 as usize >= REGISTER_COUNT {
            return Err(VmError::InvalidRegister);
        }
        let new_sp = sp - 1;
        vm.registers.write(RegisterIndex(Register::SP), new_sp);
        let value = vm.memory[MEMORY_BOUNDARY + new_sp as usize];
        vm.registers.write(self.register, value);
        proof {
            assert(vm@ =~= spec_exec(Instruction::PopReg8(*self), old(vm)@)->Ok_0);
        }
        Ok(())
    }

    /// Total encoded length in bytes.
    pub fn len(&self) -> (r: u8)
        ensures
            r as int == spec_len(Instruction::PopReg8(*self)),
    {
        2
    }

    /// The exact bytes decode would have consumed.
    pub fn encode(&self) -> (r: Vec<u8>)
        ensures
            r@ == spec_encode(Instruction::PopReg8(*self)),
    {
        let mut bytes: Vec<u8> = Vec::new();
        bytes.push(self.opcode().value());
        bytes.push(self.register.0);
        proof {
            assert(bytes@ =~= spec_encode(Instruction::PopReg8(*self)));
        }
        bytes
    }
}

impl DerefAddressReg16Reg8 {
    /// This variant's opcode.
    pub fn opcode(&self) -> (r: Opcode)
        ensures
            r == Opcode::DerefAddressReg16Reg8,
    {
        Opcode::DerefAddressReg16Reg8
    }

    /// Decode the operand bytes, which begin at `pos`.
    pub fn decode(bytes: &[u8], pos: usize) -> (r: Result<DerefAddressReg16Reg8, VmError>)
        ensures
            pos + 3 <= bytes@.len() ==> r == Ok::<DerefAddressReg16Reg8, VmError>(
                DerefAddressReg16Reg8 {
                    source: AddressReg16 {
                        high: RegisterIndex(bytes@[pos as int]),
                        low: RegisterIndex(bytes@[pos as int + 1]),
                    },
                    destination: RegisterIndex(bytes@[pos as int + 2]),
                },
            ),
            pos + 3 > bytes@.len() ==> r == Err::<DerefAddressReg16Reg8, VmError>(
                VmError::UnexpectedEnd,
            ),
    {
        if pos < bytes.len() && bytes.len() - pos >= 3 {
            Ok(
                DerefAddressReg16Reg8 {
                    source: AddressReg16 {
                        high: RegisterIndex(bytes[pos]),
                        low: RegisterIndex(bytes[pos + 1]),
                    },
                    destination: RegisterIndex(bytes[pos + 2]),
                },
            )
        } else {
            Err(VmError::UnexpectedEnd)
        }
    }

    /// Read the byte at the composite address, evaluated as an absolute
    /// offset into the whole address space, into the destination register.
    pub fn execute(&self, vm: &mut VM) -> (r: Result<(), VmError>)
        requires
            old(vm).wf(),
        ensures
            final(vm).wf(),
            (match spec_exec(Instruction::DerefAddressReg16Reg8(*self), old(vm)@) {
                Ok(w) => r == Ok::<(), VmError>(()) && final(vm)@ == w,
                Err(e) => r == Err::<(), VmError>(e) && final(vm)@ == old(vm)@,
            }),
    {
        if self.source.high.0 as usize >= REGISTER_COUNT || self.source.low.0 as usize
            >= REGISTER_COUNT {
            return Err(VmError::InvalidRegister);
        }
        let address = self.source.eval_vm(vm) as usize;
        if address >= VM_BOUNDARY {
            return Err(VmError::AddressOutOfRange);
        }
        if self.destination.0 as usize >= REGISTER_COUNT {
            return Err(VmError::InvalidRegister);
        }
        let value = vm.memory[address];
        vm.registers.write(self.destination, value);
        proof {
            assert(vm@ =~= spec_exec(Instruction::DerefAddressReg16Reg8(*self), old(vm)@)->Ok_0);
        }
        Ok(())
    }

    /// Total encoded length in bytes.
    pub fn len(&self) -> (r: u8)
        ensures
            r as int == spec_len(Instruction::DerefAddressReg16Reg8(*self)),
    {
        4
    }

    /// The exact bytes decode would have consumed.
    pub fn encode(&self) -> (r: Vec<u8>)
        ensures
            r@ == spec_encode(Instruction::DerefAddressReg16Reg8(*self)),
    {
        let mut bytes: Vec<u8> = Vec::new();
        bytes.push(self.opcode().value());
        bytes.push(self.source.high.0);
        bytes.push(self.source.low.0);
        bytes.push(self.destination.0);
        proof {
            assert(bytes@ =~= spec_encode(Instruction::DerefAddressReg16Reg8(*self)));
        }
        bytes
    }
}

impl XorReg8Reg8 {
    /// This variant's opcode.
    pub fn opcode(&self) -> (r: Opcode)
        ensures
            r == Opcode::XorReg8Reg8,
    {
        Opcode::XorReg8Reg8
    }

    /// Decode the operand bytes, which begin at `pos`.
    pub fn decode(bytes: &[u8], pos: usize) -> (r: Result<XorReg8Reg8, VmError>)
        ensures
            pos + 2 <= bytes@.len() ==> r == Ok::<XorReg8Reg8, VmError>(
                XorReg8Reg8 {
                    destination: RegisterIndex(bytes@[pos as int]),
                    source: RegisterIndex(bytes@[pos as int + 1]),
                },
            ),
            pos + 2 > bytes@.len() ==> r == Err::<XorReg8Reg8, VmError>(VmError::UnexpectedEnd),
    {
        if pos < bytes.len() && bytes.len() - pos >= 2 {
            Ok(
                XorReg8Reg8 {
                    destination: RegisterIndex(bytes[pos]),
                    source: RegisterIndex(bytes[pos + 1]),
                },
            )
        } else {
            Err(VmError::UnexpectedEnd)
        }
    }

    /// Xor the source register into the destination register.
    pub fn execute(&self, vm: &mut VM) -> (r: Result<(), VmError>)
        requires
            old(vm).wf(),
        ensures
            final(vm).wf(),
            (match spec_exec(Instruction::XorReg8Reg8(*self), old(vm)@) {
                Ok(w) => r == Ok::<(), VmError>(()) && final(vm)@ == w,
                Err(e) => r == Err::<(), VmError>(e) && final(vm)@ == old(vm)@,
            }),
    {
        if self.source.0 as usize >= REGISTER_COUNT || self.destination.0 as usize
            >= REGISTER_COUNT {
            return Err(VmError::InvalidRegister);
        }
        let source = vm.registers.read(self.source);
        let destination = vm.registers.read(self.destination);
        vm.registers.write(self.destination, destination ^ source);
        proof {
            assert(vm@ =~= spec_exec(Instruction::XorReg8Reg8(*self), old(vm)@)->Ok_0);
        }
        Ok(())
    }

    /// Total encoded length in bytes.
    pub fn len(&self) -> (r: u8)
        ensures
            r as int == spec_len(Instruction::XorReg8Reg8(*self)),
    {
        3
    }

    /// The exact bytes decode would have consumed.
    pub fn encode(&self) -> (r: Vec<u8>)
        ensures
            r@ == spec_encode(Instruction::XorReg8Reg8(*self)),
    {
        let mut bytes: Vec<u8> = Vec::new();
        bytes.push(self.opcode().value());
        bytes.push(self.destination.0);
        bytes.push(self.source.0);
        proof {
            assert(bytes@ =~= spec_encode(Instruction::XorReg8Reg8(*self)));
        }
        bytes
    }
}

impl WriteStdoutConst8 {
    /// This variant's opcode.
    pub fn opcode(&self) -> (r: Opcode)
        ensures
            r == Opcode::WriteStdoutConst8,
    {
        Opcode::WriteStdoutConst8
    }

    /// Decode the operand byte at `pos`.
    pub fn decode(bytes: &[u8], pos: usize) -> (r: Result<WriteStdoutConst8, VmError>)
        ensures
            pos + 1 <= bytes@.len() ==> r == Ok::<WriteStdoutConst8, VmError>(
                WriteStdoutConst8 { byte: bytes@[pos as int] },
            ),
            pos + 1 > bytes@.len() ==> r == Err::<WriteStdoutConst8, VmError>(
                VmError::UnexpectedEnd,
            ),
    {
        if pos < bytes.len() {
            Ok(WriteStdoutConst8 { byte: bytes[pos] })
        } else {
            Err(VmError::UnexpectedEnd)
        }
    }

    /// Append the literal byte to the output channel.
    pub fn execute(&self, vm: &mut VM) -> (r: Result<(), VmError>)
        requires
            old(vm).wf(),
        ensures
            final(vm).wf(),
            (match spec_exec(Instruction::WriteStdoutConst8(*self), old(vm)@) {
                Ok(w) => r == Ok::<(), VmError>(()) && final(vm)@ == w,
                Err(e) => r == Err::<(), VmError>(e) && final(vm)@ == old(vm)@,
            }),
    {
        vm.output.push(self.byte);
        proof {
            assert(vm@ =~= spec_exec(Instruction::WriteStdoutConst8(*self), old(vm)@)->Ok_0);
        }
        Ok(())
    }

    /// Total encoded length in bytes.
    pub fn len(&self) -> (r: u8)
        ensures
            r as int == spec_len(Instruction::WriteStdoutConst8(*self)),
    {
        2
    }

    /// The exact bytes decode would have consumed.
    pub fn encode(&self) -> (r: Vec<u8>)
        ensures
            r@ == spec_encode(Instruction::WriteStdoutConst8(*self)),
    {
        let mut bytes: Vec<u8> = Vec::new();
        bytes.push(self.opcode().value());
        bytes.push(self.byte);
        proof {
            assert(bytes@ =~= spec_encode(Instruction::WriteStdoutConst8(*self)));
        }
        bytes
    }
}

impl CmpReg8Reg8 {
    /// This variant's opcode.
    pub fn opcode(&self) -> (r: Opcode)
        ensures
            r == Opcode::CmpReg8Reg8,
    {
        Opcode::CmpReg8Reg8
    }

    /// Decode the operand bytes, which begin at `pos`.
    pub fn decode(bytes: &[u8], pos: usize) -> (r: Result<CmpReg8Reg8, VmError>)
        ensures
            pos + 2 <= bytes@.len() ==> r == Ok::<CmpReg8Reg8, VmError>(
                CmpReg8Reg8 {
                    comparand1: RegisterIndex(bytes@[pos as int]),
                    comparand2: RegisterIndex(bytes@[pos as int + 1]),
                },
            ),
            pos + 2 > bytes@.len() ==> r == Err::<CmpReg8Reg8, VmError>(VmError::UnexpectedEnd),
    {
        if pos < bytes.len() && bytes.len() - pos >= 2 {
            Ok(
                CmpReg8Reg8 {
                    comparand1: RegisterIndex(bytes[pos]),
                    comparand2: RegisterIndex(bytes[pos + 1]),
                },
            )
        } else {
            Err(VmError::UnexpectedEnd)
        }
    }

    /// Set the equal flag from the comparison of the two registers.
    pub fn execute(&self, vm: &mut VM) -> (r: Result<(), VmError>)
        requires
            old(vm).wf(),
        ensures
            final(vm).wf(),
            (match spec_exec(Instruction::CmpReg8Reg8(*self), old(vm)@) {
                Ok(w) => r == Ok::<(), VmError>(()) && final(vm)@ == w,
                Err(e) => r == Err::<(), VmError>(e) && final(vm)@ == old(vm)@,
            }),
    {
        if self.comparand1.0 as usize >= REGISTER_COUNT || self.comparand2.0 as usize
            >= REGISTER_COUNT {
            return Err(VmError::InvalidRegister);
        }
        let value1 = vm.registers.read(self.comparand1);
        let value2 = vm.registers.read(self.comparand2);
        vm.flags.set_equal(value1 == value2);
        proof {
            assert(vm@ =~= spec_exec(Instruction::CmpReg8Reg8(*self), old(vm)@)->Ok_0);
        }
        Ok(())
    }

    /// Total encoded length in bytes.
    pub fn len(&self) -> (r: u8)
        ensures
            r as int == spec_len(Instruction::CmpReg8Reg8(*self)),
    {
        3
    }

    /// The exact bytes decode would have consumed.
    pub fn encode(&self) -> (r: Vec<u8>)
        ensures
            r@ == spec_encode(Instruction::CmpReg8Reg8(*self)),
    {
        let mut bytes: Vec<u8> = Vec::new();
        bytes.push(self.opcode().value());
        bytes.push(self.comparand1.0);
        bytes.push(self.comparand2.0);
        proof {
            assert(bytes@ =~= spec_encode(Instruction::CmpReg8Reg8(*self)));
        }
        bytes
    }
}

impl XorReg8Const8 {
    /// This variant's opcode.
    pub fn opcode(&self) -> (r: Opcode)
        ensures
            r == Opcode::XorReg8Const8,
    {
        Opcode::XorReg8Const8
    }

    /// Decode the operand bytes, which begin at `pos`.
    pub fn decode(bytes: &[u8], pos: usize) -> (r: Result<XorReg8Const8, VmError>)
        ensures
            pos + 2 <= bytes@.len() ==> r == Ok::<XorReg8Const8, VmError>(
                XorReg8Const8 {
                    register: RegisterIndex(bytes@[pos as int]),
                    value: bytes@[pos as int + 1],
                },
            ),
            pos + 2 > bytes@.len() ==> r == Err::<XorReg8Const8, VmError>(VmError::UnexpectedEnd),
    {
        if pos < bytes.len() && bytes.len() - pos >= 2 {
            Ok(XorReg8Const8 { register: RegisterIndex(bytes[pos]), value: bytes[pos + 1] })
        } else {
            Err(VmError::UnexpectedEnd)
        }
    }

    /// Xor the literal into the register.
    pub fn execute(&self, vm: &mut VM) -> (r: Result<(), VmError>)
        requires
            old(vm).wf(),
        ensures
            final(vm).wf(),
            (match spec_exec(Instruction::XorReg8Const8(*self), old(vm)@) {
                Ok(w) => r == Ok::<(), VmError>(()) && final(vm)@ == w,
                Err(e) => r == Err::<(), VmError>(e) && final(vm)@ == old(vm)@,
            }),
    {
        if self.register.0 as usize >= REGISTER_COUNT {
            return Err(VmError::InvalidRegister);
        }
        let old_value = vm.registers.read(self.register);
        vm.registers.write(self.register, old_value ^ self.value);
        proof {
            assert(vm@ =~= spec_exec(Instruction::XorReg8Const8(*self), old(vm)@)->Ok_0);
        }
        Ok(())
    }

    /// Total encoded length in bytes.
    pub fn len(&self) -> (r: u8)
        ensures
            r as int == spec_len(Instruction::XorReg8Const8(*self)),
    {
        3
    }

    /// The exact bytes decode would have consumed.
    pub fn encode(&self) -> (r: Vec<u8>)
        ensures
            r@ == spec_encode(Instruction::XorReg8Const8(*self)),
    {
        let mut bytes: Vec<u8> = Vec::new();
        bytes.push(self.opcode().value());
        bytes.push(self.register.0);
        bytes.push(self.value);
        proof {
            assert(bytes@ =~= spec_encode(Instruction::XorReg8Const8(*self)));
        }
        bytes
    }
}

impl Instruction {
    /// Decode one full instruction whose opcode byte stands at `pos`:
    /// exactly the mapping [`spec_decode`] gives.
    pub fn parse(bytes: &[u8], pos: usize) -> (r: Result<Instruction, VmError>)
        ensures
            r == spec_decode(bytes@, pos as int),
    {
        if pos >= bytes.len() {
            return Err(VmError::UnexpectedEnd);
        }
        let op = bytes[pos];
        match Opcode::from_byte(op) {
            None => Err(VmError::UnknownOpcode(op)),
            Some(opcode) => match opcode {
                Opcode::Exit => match Exit::decode(bytes, pos + 1) {
                    Ok(d) => Ok(Instruction::Exit(d)),
                    Err(e) => Err(e),
                },
                Opcode::MovReg8Const8 => match MovReg8Const8::decode(bytes, pos + 1) {
                    Ok(d) => Ok(Instruction::MovReg8Const8(d)),
                    Err(e) => Err(e),
                },
                Opcode::XorMemReg8Const8 => match XorMemReg8Const8::decode(bytes, pos + 1) {
                    Ok(d) => Ok(Instruction::XorMemReg8Const8(d)),
                    Err(e) => Err(e),
                },
                Opcode::CmpReg8Const8 => match CmpReg8Const8::decode(bytes, pos + 1) {
                    Ok(d) => Ok(Instruction::CmpReg8Const8(d)),
                    Err(e) => Err(e),
                },
                Opcode::JumpIfNotEqual => match JumpIfNotEqual::decode(bytes, pos + 1) {
                    Ok(d) => Ok(Instruction::JumpIfNotEqual(d)),
                    Err(e) => Err(e),
                },
                Opcode::SubReg8Const8 => match SubReg8Const8::decode(bytes, pos + 1) {
                    Ok(d) => Ok(Instruction::SubReg8Const8(d)),
                    Err(e) => Err(e),
                },
                Opcode::AddReg8Const8 => match AddReg8Const8::decode(bytes, pos + 1) {
                    Ok(d) => Ok(Instruction::AddReg8Const8(d)),
                    Err(e) => Err(e),
                },
                Opcode::ReadStdinStack => match ReadStdinStack::decode(bytes, pos + 1) {
                    Ok(d) => Ok(Instruction::ReadStdinStack(d)),
                    Err(e) => Err(e),
                },
                Opcode::PopReg8 => match PopReg8::decode(bytes, pos + 1) {
                    Ok(d) => Ok(Instruction::PopReg8(d)),
                    Err(e) => Err(e),
                },
                Opcode::DerefAddressReg16Reg8 => match DerefAddressReg16Reg8::decode(
                    bytes,
                    pos + 1,
                ) {
                    Ok(d) => Ok(Instruction::DerefAddressReg16Reg8(d)),
                    Err(e) => Err(e),
                },
                Opcode::XorReg8Reg8 => match XorReg8Reg8::decode(bytes, pos + 1) {
                    Ok(d) => Ok(Instruction::XorReg8Reg8(d)),
                    Err(e) => Err(e),
                },
                Opcode::WriteStdoutConst8 => match WriteStdoutConst8::decode(bytes, pos + 1) {
                    Ok(d) => Ok(Instruction::WriteStdoutConst8(d)),
                    Err(e) => Err(e),
                },
                Opcode::CmpReg8Reg8 => match CmpReg8Reg8::decode(bytes, pos + 1) {
                    Ok(d) => Ok(Instruction::CmpReg8Reg8(d)),
                    Err(e) => Err(e),
                },
                Opcode::XorReg8Const8 => match XorReg8Const8::decode(bytes, pos + 1) {
                    Ok(d) => Ok(Instruction::XorReg8Const8(d)),
                    Err(e) => Err(e),
                },
            },
        }
    }

    /// The opcode of this instruction.
    pub fn opcode(&self) -> (r: Opcode)
        ensures
            r == spec_opcode(*self),
    {
        match self {
            Instruction::Exit(x) => x.opcode(),
            Instruction::MovReg8Const8(x) => x.opcode(),
            Instruction::XorMemReg8Const8(x) => x.opcode(),
            Instruction::CmpReg8Const8(x) => x.opcode(),
            Instruction::JumpIfNotEqual(x) => x.opcode(),
            Instruction::SubReg8Const8(x) => x.opcode(),
            Instruction::AddReg8Const8(x) => x.opcode(),
            Instruction::ReadStdinStack(x) => x.opcode(),
            Instruction::PopReg8(x) => x.opcode(),
            Instruction::DerefAddressReg16Reg8(x) => x.opcode(),
            Instruction::XorReg8Reg8(x) => x.opcode(),
            Instruction::WriteStdoutConst8(x) => x.opcode(),
            Instruction::CmpReg8Reg8(x) => x.opcode(),
            Instruction::XorReg8Const8(x) => x.opcode(),
        }
    }

    /// Apply this instruction to the machine state, or report the fatal
    /// condition it runs into, leaving the state as it was.
    pub fn execute(&self, vm: &mut VM) -> (r: Result<(), VmError>)
        requires
            old(vm).wf(),
        ensures
            final(vm).wf(),
            (match spec_exec(*self, old(vm)@) {
                Ok(w) => r == Ok::<(), VmError>(()) && final(vm)@ == w,
                Err(e) => r == Err::<(), VmError>(e) && final(vm)@ == old(vm)@,
            }),
    {
        match self {
            Instruction::Exit(x) => x.execute(vm),
            Instruction::MovReg8Const8(x) => x.execute(vm),
            Instruction::XorMemReg8Const8(x) => x.execute(vm),
            Instruction::CmpReg8Const8(x) => x.execute(vm),
            Instruction::JumpIfNotEqual(x) => x.execute(vm),
            Instruction::SubReg8Const8(x) => x.execute(vm),
            Instruction::AddReg8Const8(x) => x.execute(vm),
            Instruction::ReadStdinStack(x) => x.execute(vm),
            Instruction::PopReg8(x) => x.execute(vm),
            Instruction::DerefAddressReg16Reg8(x) => x.execute(vm),
            Instruction::XorReg8Reg8(x) => x.execute(vm),
            Instruction::WriteStdoutConst8(x) => x.execute(vm),
            Instruction::CmpReg8Reg8(x) => x.execute(vm),
            Instruction::XorReg8Const8(x) => x.execute(vm),
        }
    }

    /// Total encoded length in bytes: one opcode byte plus the operands.
    pub fn len(&self) -> (r: u8)
        ensures
            r as int == spec_len(*self),
    {
        match self {
            Instruction::Exit(x) => x.len(),
            Instruction::MovReg8Const8(x) => x.len(),
            Instruction::XorMemReg8Const8(x) => x.len(),
            Instruction::CmpReg8Const8(x) => x.len(),
            Instruction::JumpIfNotEqual(x) => x.len(),
            Instruction::SubReg8Const8(x) => x.len(),
            Instruction::AddReg8Const8(x) => x.len(),
            Instruction::ReadStdinStack(x) => x.len(),
            Instruction::PopReg8(x) => x.len(),
            Instruction::DerefAddressReg16Reg8(x) => x.len(),
            Instruction::XorReg8Reg8(x) => x.len(),
            Instruction::WriteStdoutConst8(x) => x.len(),
            Instruction::CmpReg8Reg8(x) => x.len(),
            Instruction::XorReg8Const8(x) => x.len(),
        }
    }

    /// The exact bytes decode would have consumed.
    pub fn encode(&self) -> (r: Vec<u8>)
        ensures
            r@ == spec_encode(*self),
    {
        match self {
            Instruction::Exit(x) => x.encode(),
            Instruction::MovReg8Const8(x) => x.encode(),
            Instruction::XorMemReg8Const8(x) => x.encode(),
            Instruction::CmpReg8Const8(x) => x.encode(),
            Instruction::JumpIfNotEqual(x) => x.encode(),
            Instruction::SubReg8Const8(x) => x.encode(),
            Instruction::AddReg8Const8(x) => x.encode(),
            Instruction::ReadStdinStack(x) => x.encode(),
            Instruction::PopReg8(x) => x.encode(),
            Instruction::DerefAddressReg16Reg8(x) => x.encode(),
            Instruction::XorReg8Reg8(x) => x.encode(),
            Instruction::WriteStdoutConst8(x) => x.encode(),
            Instruction::CmpReg8Reg8(x) => x.encode(),
            Instruction::XorReg8Const8(x) => x.encode(),
        }
    }
}

} // verus!
