use vstd::prelude::*;

use crate::instruction::{
    spec_decode, spec_len, AddReg8Const8, CmpReg8Const8, Instruction, JumpIfNotEqual, PopReg8,
    ReadStdinStack, SubReg8Const8,
};
use crate::registers::{Register, RegisterIndex, RegisterSet, REGISTER_COUNT};
use vstd::slice::slice_subrange;

verus! {

/// End of the instruction region: bytes `[0, 0x100)` of the address space.
pub const INSTRUCTIONS_BOUNDARY: usize = 0x100;

/// End of the data-memory region: bytes `[0x100, 0x300)` of the address space.
pub const MEMORY_BOUNDARY: usize = 0x300;

/// End of the stack region: bytes `[0x300, 0x400)` of the address space.
pub const STACK_BOUNDARY: usize = 0x400;

/// Total size of the address space.
pub const VM_BOUNDARY: usize = 0x400;

/// Number of bytes in the stack region.
pub const STACK_CAPACITY: usize = 0x100;

/// A condition that is fatal to a running program. The machine offers no
/// recovery: the execution loop stops at the first of these it meets.
#[derive(Clone, Copy, PartialEq, Eq, Structural, Debug)]
pub enum VmError {
    /// A byte at a decode position does not map to a known opcode.
    UnknownOpcode(u8),
    /// The decode cursor ran out of bytes before an instruction's operands
    /// were complete.
    UnexpectedEnd,
    /// A stack push would exceed the stack region's capacity.
    StackOverflow,
    /// A stack pop was attempted while the stack was empty.
    StackUnderflow,
    /// The byte-input source was exhausted before delivering the
    /// requested count.
    InputExhausted,
    /// An instruction named a register slot outside the register file.
    InvalidRegister,
    /// A composite 16-bit address fell outside the address space.
    AddressOutOfRange,
}

/// The machine's flag storage: a single observable "equal" bit, set by the
/// comparison instructions and read by the conditional jump.
#[derive(Clone, Copy, PartialEq, Eq, Structural, Debug)]
pub struct Flags {
    pub equal: bool,
}

impl Flags {
    /// Flags with the equal bit cleared.
    pub fn new() -> (r: Flags)
        ensures
            r.equal == false,
    {
        Flags { equal: false }
    }

    /// Current value of the equal bit.
    pub fn get_equal(&self) -> (r: bool)
        ensures
            r == self.equal,
    {
        self.equal
    }

    /// Overwrite the equal bit.
    pub fn set_equal(&mut self, value: bool)
        ensures
            final(self).equal == value,
    {
        self.equal = value;
    }
}

/// A 16-bit address held as two literal bytes: `high` forms bits 8-15 and
/// `low` forms bits 0-7.
#[derive(Clone, Copy, PartialEq, Eq, Structural, Debug)]
pub struct Address16 {
    pub high: u8,
    pub low: u8,
}

impl Address16 {
    /// The 16-bit value the two bytes form.
    pub fn to_word(&self) -> (r: u16)
        ensures
            r == self.high * 256 + self.low,
    {
        (self.high as u16) * 256 + (self.low as u16)
    }

    /// Split a 16-bit value into its high and low bytes.
    pub fn from_word(value: u16) -> (r: Address16)
        ensures
            r.high == value / 256,
            r.low == value % 256,
            r.high * 256 + r.low == value,
    {
        Address16 { high: (value / 256) as u8, low: (value % 256) as u8 }
    }
}

/// A 16-bit address given as two register indices: the named registers'
/// current byte values are concatenated at the moment of evaluation, the
/// high register forming bits 8-15 and the low register bits 0-7.
#[derive(Clone, Copy, PartialEq, Eq, Structural, Debug)]
pub struct AddressReg16 {
    pub high: RegisterIndex,
    pub low: RegisterIndex,
}

impl AddressReg16 {
    /// Evaluate the address against the machine's current register values.
    /// The result is an absolute offset into the whole address space, not
    /// an offset relative to any region.
    pub fn eval_vm(&self, vm: &VM) -> (r: u16)
        requires
            vm.wf(),
            self.high.0 < REGISTER_COUNT,
            self.low.0 < REGISTER_COUNT,
        ensures
            r == vm@.regs[self.high.0 as int] * 256 + vm@.regs[self.low.0 as int],
    {
        (vm.registers.read(self.high) as u16) * 256 + (vm.registers.read(self.low) as u16)
    }
}

/// The machine: a 1024-byte address space, the register file, the flag
/// storage, the stop condition, and the two byte channels. The input
/// channel is a buffer supplied up front together with a cursor of how
/// much of it has been consumed; the output channel collects every byte
/// written by the program.
pub struct VM {
    pub memory: Vec<u8>,
    pub registers: RegisterSet,
    pub flags: Flags,
    pub stop: bool,
    pub input: Vec<u8>,
    pub input_pos: usize,
    pub output: Vec<u8>,
}

/// The mathematical view of a machine state. `input` holds only the bytes
/// not yet consumed from the input channel.
#[verifier::ext_equal]
pub struct VmView {
    pub memory: Seq<u8>,
    pub regs: Seq<u8>,
    pub equal: bool,
    pub stop: bool,
    pub input: Seq<u8>,
    pub output: Seq<u8>,
}

impl VmView {
    /// The dimensions every reachable machine state has.
    pub open spec fn wf(&self) -> bool {
        &&& self.memory.len() == VM_BOUNDARY
        &&& self.regs.len() == REGISTER_COUNT
    }
}

impl View for VM {
    type V = VmView;

    open spec fn view(&self) -> VmView {
        VmView {
            memory: self.memory@,
            regs: self.registers@,
            equal: self.flags.equal,
            stop: self.stop,
            input: self.input@.skip(self.input_pos as int),
            output: self.output@,
        }
    }
}

impl VM {
    /// The machine's representation invariant.
    pub open spec fn wf(&self) -> bool {
        &&& self.memory@.len() == VM_BOUNDARY
        &&& self.registers.wf()
        &&& self.input_pos <= self.input@.len()
    }

    /// A machine with zeroed address space, registers and flags, the given
    /// bytes queued on the input channel, and nothing written yet.
    pub fn new(input: Vec<u8>) -> (r: VM)
        ensures
            r.wf(),
            r@.wf(),
            r@.memory == Seq::new(VM_BOUNDARY as nat, |i: int| 0u8),
            forall|i: int| 0 <= i < REGISTER_COUNT ==> r@.regs[i] == 0u8,
            r@.equal == false,
            r@.stop == false,
            r@.input == input@,
            r@.output == Seq::<u8>::empty(),
    {
        let mut memory: Vec<u8> = Vec::new();
        let mut i: usize = 0;
        while i < VM_BOUNDARY
            invariant
                i <= VM_BOUNDARY,
                memory@.len() == i,
                forall|j: int| 0 <= j < i ==> memory@[j] == 0u8,
            decreases VM_BOUNDARY - i,
        {
            memory.push(0u8);
            i = i + 1;
        }
        let vm = VM {
            memory,
            registers: RegisterSet::new(),
            flags: Flags::new(),
            stop: false,
            input,
            input_pos: 0,
            output: Vec::new(),
        };
        proof {
            assert(vm@.memory =~= Seq::new(VM_BOUNDARY as nat, |i: int| 0u8));
            assert(vm@.input =~= vm.input@);
        }
        vm
    }
}

/// The effect of one instruction on a machine state, or the fatal
/// condition it runs into. This is the definition every executable
/// `execute` method is proved against.
pub open spec fn spec_exec(i: Instruction, v: VmView) -> Result<VmView, VmError> {
    match i {
        Instruction::Exit(_) => Ok(VmView { stop: true, ..v }),
        Instruction::MovReg8Const8(m) => {
            if m.to.0 >= REGISTER_COUNT {
                Err(VmError::InvalidRegister)
            } else {
                Ok(VmView { regs: v.regs.update(m.to.0 as int, m.value), ..v })
            }
        },
        Instruction::XorMemReg8Const8(x) => {
            if x.register.0 >= REGISTER_COUNT {
                Err(VmError::InvalidRegister)
            } else {
                let address = v.regs[x.register.0 as int] as int;
                Ok(VmView { memory: v.memory.update(address, v.memory[address] ^ x.value), ..v })
            }
        },
        Instruction::CmpReg8Const8(c) => {
            if c.register.0 >= REGISTER_COUNT {
                Err(VmError::InvalidRegister)
            } else {
                Ok(VmView { equal: v.regs[c.register.0 as int] == c.comparand, ..v })
            }
        },
        Instruction::JumpIfNotEqual(j) => {
            if v.equal {
                Ok(v)
            } else {
                Ok(VmView { regs: v.regs.update(8, j.address), ..v })
            }
        },
        Instruction::SubReg8Const8(s) => {
            if s.register.0 >= REGISTER_COUNT {
                Err(VmError::InvalidRegister)
            } else {
                let old_val = v.regs[s.register.0 as int] as int;
                Ok(
                    VmView {
                        regs: v.regs.update(
                            s.register.0 as int,
                            (((old_val + 256) - s.value) % 256) as u8,
                        ),
                        ..v
                    },
                )
            }
        },
        Instruction::AddReg8Const8(a) => {
            if a.register.0 >= REGISTER_COUNT {
                Err(VmError::InvalidRegister)
            } else {
                let old_val = v.regs[a.register.0 as int] as int;
                Ok(
                    VmView {
                        regs: v.regs.update(a.register.0 as int, ((old_val + a.value) % 256) as u8),
                        ..v
                    },
                )
            }
        },
        Instruction::ReadStdinStack(r) => {
            let count = r.count as int;
            let sp = v.regs[9] as int;
            if v.input.len() < count {
                Err(VmError::InputExhausted)
            } else if sp + count > STACK_CAPACITY {
                Err(VmError::StackOverflow)
            } else {
                Ok(
                    VmView {
                        memory: v.memory.subrange(0, MEMORY_BOUNDARY + sp) + v.input.take(
                            count,
                        ).reverse() + v.memory.subrange(
                            MEMORY_BOUNDARY + sp + count,
                            STACK_BOUNDARY as int,
                        ),
                        regs: v.regs.update(9, (((sp + count) % 256) as u8)),
                        input: v.input.skip(count),
                        ..v
                    },
                )
            }
        },
        Instruction::PopReg8(p) => {
            let sp = v.regs[9] as int;
            if sp == 0 {
                Err(VmError::StackUnderflow)
            } else if p.register.0 >= REGISTER_COUNT {
                Err(VmError::InvalidRegister)
            } else {
                Ok(
                    VmView {
                        regs: v.regs.update(9, (sp - 1) as u8).update(
                            p.register.0 as int,
                            v.memory[MEMORY_BOUNDARY + (sp - 1)],
                        ),
                        ..v
                    },
                )
            }
        },
        Instruction::DerefAddressReg16Reg8(d) => {
            if d.source.high.0 >= REGISTER_COUNT || d.source.low.0 >= REGISTER_COUNT {
                Err(VmError::InvalidRegister)
            } else {
                let address = v.regs[d.source.high.0 as int] * 256 + v.regs[d.source.low.0 as int];
                if address >= VM_BOUNDARY {
                    Err(VmError::AddressOutOfRange)
                } else if d.destination.0 >= REGISTER_COUNT {
                    Err(VmError::InvalidRegister)
                } else {
                    Ok(
                        VmView {
                            regs: v.regs.update(d.destination.0 as int, v.memory[address as int]),
                            ..v
                        },
                    )
                }
            }
        },
        Instruction::XorReg8Reg8(x) => {
            if x.source.0 >= REGISTER_COUNT || x.destination.0 >= REGISTER_COUNT {
                Err(VmError::InvalidRegister)
            } else {
                let result = v.regs[x.destination.0 as int] ^ v.regs[x.source.0 as int];
                Ok(VmView { regs: v.regs.update(x.destination.0 as int, result), ..v })
            }
        },
        Instruction::WriteStdoutConst8(w) => Ok(VmView { output: v.output.push(w.byte), ..v }),
        Instruction::CmpReg8Reg8(c) => {
            if c.comparand1.0 >= REGISTER_COUNT || c.comparand2.0 >= REGISTER_COUNT {
                Err(VmError::InvalidRegister)
            } else {
                Ok(
                    VmView {
                        equal: v.regs[c.comparand1.0 as int] == v.regs[c.comparand2.0 as int],
                        ..v
                    },
                )
            }
        },
        Instruction::XorReg8Const8(x) => {
            if x.register.0 >= REGISTER_COUNT {
                Err(VmError::InvalidRegister)
            } else {
                let result = v.regs[x.register.0 as int] ^ x.value;
                Ok(VmView { regs: v.regs.update(x.register.0 as int, result), ..v })
            }
        },
    }
}

/// One full step of the execution loop: fetch the instruction at the
/// program counter's offset within the instruction region, advance the
/// program counter by the decoded length (wrapping, since the counter is
/// an 8-bit register), then execute.
pub open spec fn spec_step(v: VmView) -> Result<VmView, VmError> {
    let pc = v.regs[8] as int;
    match spec_decode(v.memory.subrange(0, INSTRUCTIONS_BOUNDARY as int), pc) {
        Err(e) => Err(e),
        Ok(i) => spec_exec(
            i,
            VmView { regs: v.regs.update(8, (((pc + spec_len(i)) % 256) as u8)), ..v },
        ),
    }
}

/// `v` is reached from `v0` by exactly `n` successful steps, none of them
/// taken from an already-halted state.
pub open spec fn reaches(v0: VmView, v: VmView, n: nat) -> bool
    decreases n,
{
    if n == 0 {
        v == v0
    } else {
        exists|u: VmView|
            reaches(v0, u, (n - 1) as nat) && !u.stop && #[trigger] spec_step(u) == Ok::<
                VmView,
                VmError,
            >(v)
    }
}

/// The state a machine is in right after the loader has copied a program
/// image over its address space.
pub open spec fn load_image(v: VmView, image: Seq<u8>) -> VmView {
    VmView { memory: image, ..v }
}

/// Whether executing `i` from a state with the given flags writes the
/// program counter directly: a taken conditional jump, or an instruction
/// whose destination register is the program counter itself.
pub open spec fn writes_pc(i: Instruction, v: VmView) -> bool {
    match i {
        Instruction::Exit(_) => false,
        Instruction::MovReg8Const8(m) => m.to.0 == 8,
        Instruction::XorMemReg8Const8(_) => false,
        Instruction::CmpReg8Const8(_) => false,
        Instruction::JumpIfNotEqual(_) => !v.equal,
        Instruction::SubReg8Const8(s) => s.register.0 == 8,
        Instruction::AddReg8Const8(a) => a.register.0 == 8,
        Instruction::ReadStdinStack(_) => false,
        Instruction::PopReg8(p) => p.register.0 == 8,
        Instruction::DerefAddressReg16Reg8(d) => d.destination.0 == 8,
        Instruction::XorReg8Reg8(x) => x.destination.0 == 8,
        Instruction::WriteStdoutConst8(_) => false,
        Instruction::CmpReg8Reg8(_) => false,
        Instruction::XorReg8Const8(x) => x.register.0 == 8,
    }
}

/// Length consistency at the loop: a successful full step advances the
/// program counter by exactly the decoded instruction's encoded length,
/// wrapping modulo 256, whenever the instruction does not itself write
/// the program counter.
pub proof fn lemma_step_advances_pc(v: VmView, i: Instruction, w: VmView)
    requires
        v.wf(),
        spec_decode(v.memory.subrange(0, INSTRUCTIONS_BOUNDARY as int), v.regs[8] as int) == Ok::<
            Instruction,
            VmError,
        >(i),
        spec_step(v) == Ok::<VmView, VmError>(w),
        !writes_pc(i, v),
    ensures
        w.regs[8] == ((v.regs[8] + spec_len(i)) % 256) as u8,
{
}

/// Comparison and branch interplay: comparing a register with a literal
/// sets the equal flag exactly when the two agree; a following
/// conditional jump is a no-op when the flag is set, and overwrites the
/// program counter with its literal target when it is clear.
pub proof fn lemma_cmp_then_branch(v: VmView, register: RegisterIndex, comparand: u8, target: u8)
    requires
        register.0 < REGISTER_COUNT,
    ensures
        (spec_exec(Instruction::CmpReg8Const8(CmpReg8Const8 { register, comparand }), v) == Ok::<
            VmView,
            VmError,
        >(VmView { equal: v.regs[register.0 as int] == comparand, ..v })),
        (v.regs[register.0 as int] == comparand ==> spec_exec(
            Instruction::JumpIfNotEqual(JumpIfNotEqual { address: target }),
            VmView { equal: true, ..v },
        ) == Ok::<VmView, VmError>(VmView { equal: true, ..v })),
        (v.regs[register.0 as int] != comparand ==> spec_exec(
            Instruction::JumpIfNotEqual(JumpIfNotEqual { address: target }),
            VmView { equal: false, ..v },
        ) == Ok::<VmView, VmError>(
            VmView { equal: false, regs: v.regs.update(8, target), ..v },
        )),
{
}

/// Wrapping arithmetic: on any register of the file, add and subtract
/// act modulo 256 and never fault; a register holding 0 comes to 255
/// under a subtraction of 1, not to a fatal condition.
pub proof fn lemma_arith_wraps(v: VmView, register: RegisterIndex, value: u8)
    requires
        register.0 < REGISTER_COUNT,
    ensures
        (spec_exec(Instruction::AddReg8Const8(AddReg8Const8 { register, value }), v) == Ok::<
            VmView,
            VmError,
        >(
            VmView {
                regs: v.regs.update(
                    register.0 as int,
                    ((v.regs[register.0 as int] + value) % 256) as u8,
                ),
                ..v
            },
        )),
        (spec_exec(Instruction::SubReg8Const8(SubReg8Const8 { register, value }), v) == Ok::<
            VmView,
            VmError,
        >(
            VmView {
                regs: v.regs.update(
                    register.0 as int,
                    ((v.regs[register.0 as int] + 256 - value) % 256) as u8,
                ),
                ..v
            },
        )),
{
}

/// The state after `j` consecutive pops into `register`, starting from
/// `v`, or the fatal condition the first failing pop meets.
pub open spec fn spec_pops(v: VmView, register: RegisterIndex, j: nat) -> Result<VmView, VmError>
    decreases j,
{
    if j == 0 {
        Ok(v)
    } else {
        match spec_pops(v, register, (j - 1) as nat) {
            Ok(u) => spec_exec(Instruction::PopReg8(PopReg8 { register }), u),
            Err(e) => Err(e),
        }
    }
}

/// Stack discipline: a read of `count` input bytes pushes them in
/// reversed order, so consecutive pops return them in arrival order.
/// After the `j`-th pop the register holds the `j`-th byte the input
/// channel delivered, the stack pointer has come down by `j`, and the
/// address space is untouched. When the read started on an empty stack,
/// one more pop after the last is fatal.
pub proof fn lemma_stack_discipline(v: VmView, count: u8, register: RegisterIndex, j: nat)
    requires
        v.wf(),
        register.0 < REGISTER_COUNT,
        register.0 != 9,
        v.regs[9] + count < 256,
        spec_exec(Instruction::ReadStdinStack(ReadStdinStack { count }), v) is Ok,
        1 <= j <= count,
    ensures
        ({
            let v1 = spec_exec(Instruction::ReadStdinStack(ReadStdinStack { count }), v)->Ok_0;
            let w = spec_pops(v1, register, j);
            &&& w is Ok
            &&& w->Ok_0.memory == v1.memory
            &&& w->Ok_0.regs.len() == v.regs.len()
            &&& w->Ok_0.regs[9] == v.regs[9] + count - j
            &&& w->Ok_0.regs[register.0 as int] == v.input[j - 1]
            &&& (j == count && v.regs[9] == 0 ==> spec_exec(
                Instruction::PopReg8(PopReg8 { register }),
                w->Ok_0,
            ) == Err::<VmView, VmError>(VmError::StackUnderflow))
        }),
    decreases j,
{
    let sp = v.regs[9] as int;
    let v1 = spec_exec(Instruction::ReadStdinStack(ReadStdinStack { count }), v)->Ok_0;
    assert(v1.regs[9] == sp + count);
    assert(v1.memory.len() == VM_BOUNDARY);
    assert forall|k: int| 0 <= k < count implies #[trigger] v1.memory[MEMORY_BOUNDARY + sp + k]
        == v.input[count - 1 - k] by {
        assert(v1.memory[MEMORY_BOUNDARY + sp + k] == v.input.take(count as int).reverse()[k]);
    }
    if j == 1 {
        let u = v1;
        assert(u.regs[9] == sp + count >= 1);
        let w = spec_exec(Instruction::PopReg8(PopReg8 { register }), u);
        assert(w is Ok);
        assert(w->Ok_0.regs[register.0 as int] == u.memory[MEMORY_BOUNDARY + (sp + count - 1)]);
        assert(u.memory[MEMORY_BOUNDARY + sp + (count - 1)] == v.input[0]);
    } else {
        lemma_stack_discipline(v, count, register, (j - 1) as nat);
        let u = spec_pops(v1, register, (j - 1) as nat)->Ok_0;
        assert(u.regs[9] == sp + count - (j - 1) >= 1);
        let w = spec_exec(Instruction::PopReg8(PopReg8 { register }), u);
        assert(w is Ok);
        assert(w->Ok_0.regs[register.0 as int] == u.memory[MEMORY_BOUNDARY + (sp + count - j)]);
        assert(u.memory[MEMORY_BOUNDARY + sp + (count - j)] == v.input[j - 1]);
    }
}

impl VM {
    /// Apply one already-decoded instruction to the machine state.
    pub fn step(&mut self, instruction: &Instruction) -> (r: Result<(), VmError>)
        requires
            old(self).wf(),
        ensures
            final(self).wf(),
            (match spec_exec(*instruction, old(self)@) {
                Ok(w) => r == Ok::<(), VmError>(()) && final(self)@ == w,
                Err(e) => r == Err::<(), VmError>(e) && final(self)@ == old(self)@,
            }),
    {
        instruction.execute(self)
    }

    /// Load a full 1024-byte image over the address space, then drive the
    /// fetch-decode-execute loop from the current program counter until
    /// the stop condition is set, a fatal condition is met, or `max_steps`
    /// instructions have run.
    ///
    /// `Ok(true)` means the machine halted through its stop condition, in
    /// some number of steps within the budget; `Ok(false)` means the
    /// budget ran out first. `Err` reports a fatal condition met in a
    /// state reachable from the loaded image.
    pub fn run(&mut self, stream: &Vec<u8>, max_steps: usize) -> (r: Result<bool, VmError>)
        requires
            old(self).wf(),
            stream@.len() == VM_BOUNDARY,
        ensures
            final(self).wf(),
            (match r {
                Ok(halted) => exists|n: nat|
                    n <= max_steps && #[trigger] reaches(
                        load_image(old(self)@, stream@),
                        final(self)@,
                        n,
                    ) && halted == final(self)@.stop && (!halted ==> n == max_steps),
                Err(e) => exists|n: nat, u: VmView|
                    #[trigger] reaches(load_image(old(self)@, stream@), u, n) && !u.stop
                        && spec_step(u) == Err::<VmView, VmError>(e),
            }),
    {
        let mut memory: Vec<u8> = Vec::new();
        let mut i: usize = 0;
        while i < VM_BOUNDARY
            invariant
                i <= VM_BOUNDARY,
                memory@.len() == i,
                stream@.len() == VM_BOUNDARY,
                forall|j: int| 0 <= j < i ==> memory@[j] == stream@[j],
            decreases VM_BOUNDARY - i,
        {
            memory.push(stream[i]);
            i = i + 1;
        }
        proof {
            assert(memory@ =~= stream@);
        }
        self.memory = memory;
        let ghost init: VmView = self@;
        proof {
            assert(init =~= load_image(old(self)@, stream@));
        }
        let mut steps: usize = 0;
        let ghost mut n: nat = 0;
        while !self.stop && steps < max_steps
            invariant
                self.wf(),
                steps <= max_steps,
                n == steps,
                reaches(init, self@, n),
                init == load_image(old(self)@, stream@),
            decreases max_steps - steps,
        {
            let ghost u: VmView = self@;
            let pc = self.registers.read(RegisterIndex(Register::PC));
            let region = slice_subrange(self.memory.as_slice(), 0, INSTRUCTIONS_BOUNDARY);
            let instruction = match Instruction::parse(region, pc as usize) {
                Ok(instruction) => instruction,
                Err(e) => {
                    proof {
                        assert(spec_step(u) == Err::<VmView, VmError>(e));
                        assert(reaches(init, u, n) && !u.stop);
                    }
                    return Err(e);
                },
            };
            let count = instruction.len();
            let new_pc = (((pc as u16) + (count as u16)) % 256) as u8;
            self.registers.write(RegisterIndex(Register::PC), new_pc);
            proof {
                assert(self@ =~= VmView {
                    regs: u.regs.update(8, (((u.regs[8] as int) + spec_len(instruction)) % 256) as u8),
                    ..u
                });
            }
            match self.step(&instruction) {
                Ok(_) => {},
                Err(e) => {
                    proof {
                        assert(spec_step(u) == Err::<VmView, VmError>(e));
                        assert(reaches(init, u, n) && !u.stop);
                    }
                    return Err(e);
                },
            }
            proof {
                assert(spec_step(u) == Ok::<VmView, VmError>(self@));
                n = n + 1;
                assert(reaches(init, self@, n));
            }
            steps = steps + 1;
        }
        Ok(self.stop)
    }
}

} // verus!
