use vstd::prelude::*;
use crate::instruction::Instruction;

verus! {

/// The position of an instruction within a program.
#[derive(Debug, Default, Clone, Copy, PartialEq, Eq, Structural)]
pub struct InstructionAddress(pub usize);

impl InstructionAddress {
    /// Moves to the next position and returns the one left.
    pub fn increment(&mut self) -> (current: usize)
        requires
            old(self).0 < usize::MAX,
        ensures
            current == old(self).0,
            final(self).0 == old(self).0 + 1,
    {
        let current = self.0;
        self.0 = self.0 + 1;
        current
    }
}

/// An instruction with the address it was fetched from.
pub type AddressedInstruction = (InstructionAddress, Instruction);

/// A flat list of instructions with a cursor on the instruction that is
/// fetched next.
pub struct Program {
    instructions: Vec<Instruction>,
    ip: InstructionAddress,
}

impl Program {
    pub closed spec fn spec_instructions(&self) -> Seq<Instruction> {
        self.instructions@
    }

    pub closed spec fn spec_ip(&self) -> InstructionAddress {
        self.ip
    }

    /// An empty program with its cursor at address `0`.
    pub fn new() -> (r: Self)
        ensures
            r.spec_instructions() == Seq::<Instruction>::empty(),
            r.spec_ip() == InstructionAddress(0),
    {
        Program { instructions: Vec::new(), ip: InstructionAddress(0) }
    }

    /// Appends an instruction.
    pub fn add(&mut self, inst: Instruction)
        ensures
            final(self).spec_instructions() == old(self).spec_instructions().push(inst),
            final(self).spec_ip() == old(self).spec_ip(),
    {
        self.instructions.push(inst);
    }

    /// Whether the cursor stands on an instruction.
    pub fn has_next(&self) -> (r: bool)
        ensures
            r == (self.spec_ip().0 < self.spec_instructions().len()),
    {
        self.ip.0 < self.instructions.len()
    }

    /// The instruction under the cursor with its address; the cursor moves
    /// on by one. The cursor must stand on an instruction.
    pub fn step(&mut self) -> (r: AddressedInstruction)
        requires
            old(self).spec_ip().0 < old(self).spec_instructions().len(),
        ensures
            r.0 == old(self).spec_ip(),
            r.1 == old(self).spec_instructions()[old(self).spec_ip().0 as int],
            final(self).spec_ip().0 == old(self).spec_ip().0 + 1,
            final(self).spec_instructions() == old(self).spec_instructions(),
    {
        let addr = self.ip;
        let held: usize = self.instructions.len();
        let at: usize = self.ip.increment();
        (addr, self.instructions[at])
    }

    /// Puts the cursor on `ip`.
    pub fn set_ip(&mut self, ip: InstructionAddress)
        ensures
            final(self).spec_ip() == ip,
            final(self).spec_instructions() == old(self).spec_instructions(),
    {
        self.ip = ip;
    }
}

impl Default for Program {
    fn default() -> (r: Self)
        ensures
            r.spec_instructions() == Seq::<Instruction>::empty(),
            r.spec_ip() == InstructionAddress(0),
    {
        Self::new()
    }
}

} // verus!
