use vstd::prelude::*;

verus! {

/// One 8-bit cell of the register file.
#[derive(Clone, Copy, PartialEq, Eq, Structural, Debug)]
pub struct Register {
    pub value: u8,
}

/// An 8-bit index into the register file. The file has
/// [`REGISTER_COUNT`] slots; an index at or above that bound is a fatal
/// condition when an instruction tries to use it.
#[derive(Clone, Copy, PartialEq, Eq, Structural, Debug)]
pub struct RegisterIndex(pub u8);

/// Number of slots in the register file.
pub const REGISTER_COUNT: usize = 16;

impl Register {
    /// General-purpose register indices.
    pub const R0: u8 = 0;

    pub const R1: u8 = 1;

    pub const R2: u8 = 2;

    pub const R3: u8 = 3;

    pub const R4: u8 = 4;

    pub const R5: u8 = 5;

    pub const R6: u8 = 6;

    pub const R7: u8 = 7;

    /// The program counter: read and written like any register, and also
    /// used as the fetch cursor by the execution loop.
    pub const PC: u8 = 8;

    /// The stack pointer: the next free offset within the stack region.
    pub const SP: u8 = 9;
}

/// The register file: sixteen independent 8-bit cells.
pub struct RegisterSet {
    pub registers: Vec<Register>,
}

impl View for RegisterSet {
    type V = Seq<u8>;

    open spec fn view(&self) -> Seq<u8> {
        self.registers@.map_values(|r: Register| r.value)
    }
}

impl RegisterSet {
    /// The backing vector holds exactly one cell per register slot.
    pub open spec fn wf(&self) -> bool {
        self.registers@.len() == REGISTER_COUNT
    }

    /// A register file with every cell zeroed.
    pub fn new() -> (r: RegisterSet)
        ensures
            r.wf(),
            r@.len() == REGISTER_COUNT,
            forall|i: int| 0 <= i < REGISTER_COUNT ==> r@[i] == 0u8,
    {
        let mut registers: Vec<Register> = Vec::new();
        let mut i: usize = 0;
        while i < REGISTER_COUNT
            invariant
                i <= REGISTER_COUNT,
                registers@.len() == i,
                forall|j: int| 0 <= j < i ==> registers@[j].value == 0u8,
            decreases REGISTER_COUNT - i,
        {
            registers.push(Register { value: 0 });
            i = i + 1;
        }
        RegisterSet { registers }
    }

    /// Read the cell selected by `index`.
    pub fn read(&self, index: RegisterIndex) -> (r: u8)
        requires
            self.wf(),
            index.0 < REGISTER_COUNT,
        ensures
            r == self@[index.0 as int],
    {
        self.registers[index.0 as usize].value
    }

    /// Overwrite the cell selected by `index`.
    pub fn write(&mut self, index: RegisterIndex, value: u8)
        requires
            old(self).wf(),
            index.0 < REGISTER_COUNT,
        ensures
            final(self).wf(),
            final(self)@ == old(self)@.update(index.0 as int, value),
    {
        self.registers.set(index.0 as usize, Register { value });
        proof {
            assert(self@ =~= old(self)@.update(index.0 as int, value));
        }
    }
}

} // verus!
