use vstd::prelude::*;
use crate::fault::Fault;
use crate::instruction::Instruction;
use crate::local::LocalSlots;
use crate::memory::Pointer;
use crate::module_registry::ModuleName;
use crate::util::index::FunctionIndex;
use crate::util::text::{joined, push_char, same_text};
use vstd::string::StringExecFns;

verus! {

/// The position of the next instruction within a function.
#[derive(Debug, Default, Clone, Copy, PartialEq, Eq, Structural)]
pub struct InstructionPointer(pub usize);

impl InstructionPointer {
    /// The position of a function's first instruction.
    pub fn new() -> (r: Self)
        ensures
            r.0 == 0,
    {
        InstructionPointer(0)
    }

    /// Moves to the next position and returns the one left.
    pub fn increment(&mut self) -> (current: usize)
        requires
            old(self).0 < usize::MAX,
        ensures
            current == old(self).0,
            final(self).0 == old(self).0 + 1,
    {
        let current = self.0;
        self.0 = self.0 + 1;
        current
    }
}

/// A function: its index in the function table, its instructions, and the
/// layout of its locals.
pub struct Function {
    index: FunctionIndex,
    instructions: Vec<Instruction>,
    local_slots: LocalSlots,
}

/// The addresses of the heap-pointer slots of a frame, one by one.
pub struct HeapReferences<'a> {
    ptr: Pointer,
    offsets: &'a [u32],
    idx: usize,
}

impl<'a> HeapReferences<'a> {
    /// The base of the frame's locals.
    pub closed spec fn spec_base(&self) -> Pointer {
        self.ptr
    }

    /// The offsets of all the heap-pointer slots.
    pub closed spec fn spec_offsets(&self) -> Seq<u32> {
        self.offsets@
    }

    /// How many addresses were handed out already.
    pub closed spec fn spec_position(&self) -> nat {
        self.idx as nat
    }

    #[verifier::type_invariant]
    /// No more addresses were handed out than there are offsets. That is
    /// so of every value of this type.
    #[verifier::type_invariant]
    pub open spec fn wf(&self) -> bool {
        self.spec_position() <= self.spec_offsets().len()
    }

    pub fn new(ptr: Pointer, offsets: &'a [u32]) -> (r: Self)
        ensures
            r.wf(),
            r.spec_base() == ptr,
            r.spec_offsets() == offsets@,
            r.spec_position() == 0,
    {
        HeapReferences { ptr, offsets, idx: 0 }
    }

    /// The address of the next heap-pointer slot, or `None` after the last.
    pub fn next(&mut self) -> (r: Option<Pointer>)
        requires
            forall|i: int|
                0 <= i < old(self).spec_offsets().len() ==> old(self).spec_base()@ + old(self).spec_offsets()[i] <= u64::MAX,
        ensures
            final(self).wf(),
            final(self).spec_base() == old(self).spec_base(),
            final(self).spec_offsets() == old(self).spec_offsets(),
            old(self).spec_position() < old(self).spec_offsets().len() ==> final(self).spec_position() == old(self).spec_position() + 1 && r.is_some() && r.unwrap()@ == old(self).spec_base()@ + old(self).spec_offsets()[old(self).spec_position() as int],
            old(self).spec_position() >= old(self).spec_offsets().len() ==> final(self).spec_position() == old(self).spec_position() && r.is_none(),
    {
        proof {
            use_type_invariant(&*self);
        }
        if self.idx < self.offsets.len() {
            let offset: u32 = self.offsets[self.idx];
            self.idx = self.idx + 1;
            Some(self.ptr.offset(offset))
        } else {
            None
        }
    }
}

impl Function {
    pub closed spec fn spec_index(&self) -> FunctionIndex {
        self.index
    }

    pub closed spec fn spec_instructions(&self) -> Seq<Instruction> {
        self.instructions@
    }

    pub closed spec fn spec_local_slots(&self) -> LocalSlots {
        self.local_slots
    }

    /// A function without instructions.
    pub fn new(index: FunctionIndex, local_slots: LocalSlots) -> (r: Self)
        ensures
            r.spec_index() == index,
            r.spec_instructions() == Seq::<Instruction>::empty(),
            r.spec_local_slots() == local_slots,
    {
        Function { index, instructions: Vec::new(), local_slots }
    }

    pub fn index(&self) -> (r: FunctionIndex)
        ensures
            r == self.spec_index(),
    {
        self.index
    }

    pub fn from_instructions(
        index: FunctionIndex,
        local_slots: LocalSlots,
        instructions: Vec<Instruction>,
    ) -> (r: Self)
        ensures
            r.spec_index() == index,
            r.spec_instructions() == instructions@,
            r.spec_local_slots() == local_slots,
    {
        Function { index, instructions, local_slots }
    }

    /// The number of instructions.
    pub fn len(&self) -> (n: usize)
        ensures
            n == self.spec_instructions().len(),
    {
        self.instructions.len()
    }

    /// The instruction at `ip`, which then moves on by one. `ip` must be
    /// within the function.
    pub fn next_instruction(&self, ip: &mut InstructionPointer) -> (inst: Instruction)
        requires
            old(ip).0 < self.spec_instructions().len(),
        ensures
            inst == self.spec_instructions()[old(ip).0 as int],
            final(ip).0 == old(ip).0 + 1,
    {
        let n: usize = self.instructions.len();
        self.instructions[ip.increment()]
    }

    /// The instruction at position `at`, or `None` beyond the last
    /// instruction.
    pub fn instruction_at(&self, at: usize) -> (inst: Option<Instruction>)
        ensures
            inst == (if at < self.spec_instructions().len() {
                Some(self.spec_instructions()[at as int])
            } else {
                None
            }),
    {
        if at < self.instructions.len() {
            Some(self.instructions[at])
        } else {
            None
        }
    }

    pub fn local_slots(&self) -> (r: &LocalSlots)
        ensures
            *r == self.spec_local_slots(),
    {
        &self.local_slots
    }

    /// The addresses of the heap-pointer slots of a frame whose locals
    /// start at `ptr`.
    pub fn heap_references(&self, ptr: Pointer) -> (r: HeapReferences<'_>)
        ensures
            r.wf(),
            r.spec_base() == ptr,
            r.spec_offsets() == self.spec_local_slots().spec_heap_offsets(),
            r.spec_position() == 0,
    {
        HeapReferences::new(ptr, self.local_slots.heap_offsets())
    }
}

/// The texts of the first `n` instructions, each followed by a line feed.
pub open spec fn listing_of(instructions: Seq<Instruction>, n: int) -> Seq<char>
    decreases n,
{
    if n <= 0 {
        Seq::<char>::empty()
    } else {
        listing_of(instructions, n - 1) + instructions[n - 1].spec_text() + seq!['\n']
    }
}

impl Function {
    /// The function's instructions as text, one on each line. Every
    /// instruction must have a known opcode.
    pub fn listing(&self) -> (r: String)
        requires
            forall|i: int|
                0 <= i < self.spec_instructions().len() ==> (#[trigger] self.spec_instructions()[i]).spec_op().is_some(),
        ensures
            r@ == listing_of(self.spec_instructions(), self.spec_instructions().len() as int),
    {
        let mut r = String::new();
        let mut i: usize = 0;
        while i < self.instructions.len()
            invariant
                i <= self.instructions@.len(),
                forall|j: int|
                    0 <= j < self.spec_instructions().len() ==> (#[trigger] self.spec_instructions()[j]).spec_op().is_some(),
                r@ == listing_of(self.spec_instructions(), i as int),
            decreases self.instructions@.len() - i,
        {
            let line = self.instructions[i].text();
            r.append(line.as_str());
            push_char(&mut r, '\n');
            i = i + 1;
            assert(r@ =~= listing_of(self.spec_instructions(), i as int));
        }
        r
    }
}

/// The fully-qualified name of `symbol` in `module`: the two joined by `::`.
pub open spec fn qualified(module: Seq<char>, symbol: Seq<char>) -> Seq<char> {
    module + seq![':', ':'] + symbol
}

/// The fully-qualified name of a function. Its view is the name's characters.
#[derive(Debug, PartialEq, Eq, Hash)]
pub struct FunctionId {
    fq_name: String,
}

impl View for FunctionId {
    type V = Seq<char>;

    closed spec fn view(&self) -> Seq<char> {
        self.fq_name@
    }
}

impl FunctionId {
    pub fn new(module_name: &ModuleName, function_name: &str) -> (id: Self)
        ensures
            id@ == qualified(module_name@, function_name@),
    {
        proof {
            reveal_strlit("::");
            assert("::"@ =~= seq![':', ':']);
        }
        FunctionId { fq_name: joined(module_name.name(), "::", function_name) }
    }

    /// The name as text.
    pub fn as_str(&self) -> (r: &str)
        ensures
            r@ == self@,
    {
        self.fq_name.as_str()
    }
}

/// The functions of a program, in order of insertion. A function is found
/// by its index or by its name; no two functions share a name.
pub struct FunctionTable {
    functions: Vec<Function>,
    names: Vec<FunctionId>,
}

impl FunctionTable {
    /// The number of functions.
    pub closed spec fn spec_len(&self) -> nat {
        self.functions@.len()
    }

    /// The function at `idx`.
    pub closed spec fn spec_get(&self, idx: nat) -> Function {
        self.functions@[idx as int]
    }

    /// The name of the function at `idx`.
    pub closed spec fn spec_name(&self, idx: nat) -> Seq<char> {
        self.names@[idx as int]@
    }

    /// Whether the table holds one name for each function.
    pub closed spec fn names_match(&self) -> bool {
        self.names@.len() == self.functions@.len()
    }

    /// Whether a function of that name is in the table.
    pub open spec fn spec_contains(&self, name: Seq<char>) -> bool {
        exists|i: nat| i < self.spec_len() && #[trigger] self.spec_name(i) == name
    }

    /// Names are distinct, every function knows its own index, and every
    /// index fits a 24-bit immediate. Every table is so.
    #[verifier::type_invariant]
    pub open spec fn wf(&self) -> bool {
        &&& self.names_match()
        &&& self.spec_len() <= 0x1000000
        &&& forall|i: nat| i < self.spec_len() ==> (#[trigger] self.spec_get(i)).spec_index()@ == i
        &&& forall|i: nat, j: nat|
            i < self.spec_len() && j < self.spec_len() && i != j ==> #[trigger] self.spec_name(i)
                != #[trigger] self.spec_name(j)
    }

    pub fn new() -> (r: Self)
        ensures
            r.wf(),
            r.spec_len() == 0,
    {
        FunctionTable { functions: Vec::new(), names: Vec::new() }
    }

    /// The number of functions.
    pub fn len(&self) -> (n: usize)
        ensures
            n == self.spec_len(),
    {
        self.functions.len()
    }

    /// The index of the function named `fq_name`, or `None` where the table
    /// holds none of that name.
    pub fn find(&self, fq_name: &str) -> (r: Option<FunctionIndex>)
        ensures
            r is Some <==> self.spec_contains(fq_name@),
            r matches Some(idx) ==> idx@ < self.spec_len() && self.spec_name(idx@) == fq_name@,
    {
        proof {
            use_type_invariant(self);
        }
        let mut i: usize = 0;
        while i < self.names.len()
            invariant
                i <= self.names@.len(),
                self.names@.len() == self.spec_len(),
                self.names@.len() <= 0x1000000,
                forall|j: nat| j < i ==> #[trigger] self.spec_name(j) != fq_name@,
            decreases self.names@.len() - i,
        {
            if same_text(self.names[i].as_str(), fq_name) {
                assert(self.spec_name(i as nat) == fq_name@);
                return Some(FunctionIndex::from_usize(i));
            }
            i = i + 1;
        }
        None
    }

    /// Appends a function under a name not yet in the table, and returns
    /// its index. The functions already there keep their indices.
    pub fn insert(&mut self, id: FunctionId, instructions: Vec<Instruction>, locals: LocalSlots) -> (idx:
        FunctionIndex)
        requires
            old(self).spec_len() < 0x1000000,
            !old(self).spec_contains(id@),
        ensures
            final(self).wf(),
            idx@ == old(self).spec_len(),
            final(self).spec_len() == old(self).spec_len() + 1,
            final(self).spec_name(idx@) == id@,
            final(self).spec_get(idx@).spec_index() == idx,
            final(self).spec_get(idx@).spec_instructions() == instructions@,
            final(self).spec_get(idx@).spec_local_slots() == locals,
            forall|i: nat|
                i < old(self).spec_len() ==> final(self).spec_get(i) == old(self).spec_get(i) && final(self).spec_name(i) == old(self).spec_name(i),
    {
        proof {
            use_type_invariant(&*self);
        }
        let mut taken = FunctionTable::new();
        core::mem::swap(self, &mut taken);
        let FunctionTable { mut functions, mut names } = taken;
        let idx: usize = functions.len();
        let function_index = FunctionIndex::from_usize(idx);
        let func = Function::from_instructions(function_index, locals, instructions);
        functions.push(func);
        names.push(id);
        proof {
            let grown = FunctionTable { functions, names };
            let n = old(self).spec_len();
            assert forall|i: nat, j: nat|
                i < grown.spec_len() && j < grown.spec_len() && i != j implies #[trigger] grown.spec_name(i)
                != #[trigger] grown.spec_name(j) by {
                if i < n {
                    assert(grown.spec_name(i) == old(self).spec_name(i));
                }
                if j < n {
                    assert(grown.spec_name(j) == old(self).spec_name(j));
                }
            }
            assert forall|i: nat| i < grown.spec_len() implies (#[trigger] grown.spec_get(i)).spec_index()@
                == i by {
                if i < n {
                    assert(grown.spec_get(i) == old(self).spec_get(i));
                }
            }
            assert(grown.wf());
        }
        *self = FunctionTable { functions, names };
        function_index
    }

    /// Appends a function and returns its index, or rejects it and leaves
    /// the table as it was: as a duplicate where its name is in the table
    /// already, and else as out of range where the table is full.
    pub fn try_insert(&mut self, id: FunctionId, instructions: Vec<Instruction>, locals: LocalSlots) -> (r:
        Result<FunctionIndex, Fault>)
        ensures
            final(self).wf(),
            old(self).spec_contains(id@) ==> r == Err::<FunctionIndex, Fault>(Fault::DuplicateRegistration)
                && *final(self) == *old(self),
            !old(self).spec_contains(id@) && old(self).spec_len() >= 0x1000000 ==> r == Err::<
                FunctionIndex,
                Fault,
            >(Fault::IndexOutOfRange) && *final(self) == *old(self),
            !old(self).spec_contains(id@) && old(self).spec_len() < 0x1000000 ==> {
                &&& r.is_ok()
                &&& r.unwrap()@ == old(self).spec_len()
                &&& final(self).spec_len() == old(self).spec_len() + 1
                &&& final(self).spec_name(old(self).spec_len()) == id@
                &&& final(self).spec_get(old(self).spec_len()).spec_instructions() == instructions@
                &&& final(self).spec_get(old(self).spec_len()).spec_local_slots() == locals
                &&& forall|i: nat|
                    i < old(self).spec_len() ==> final(self).spec_get(i) == old(self).spec_get(i) && final(self).spec_name(i) == old(self).spec_name(i)
            },
    {
        proof {
            use_type_invariant(&*self);
        }
        if self.find(id.as_str()).is_some() {
            Err(Fault::DuplicateRegistration)
        } else if self.functions.len() >= 0x1000000 {
            Err(Fault::IndexOutOfRange)
        } else {
            Ok(self.insert(id, instructions, locals))
        }
    }

    /// The index of the function named `fq_name`, which must be in the
    /// table.
    pub fn address_of(&self, fq_name: &str) -> (idx: FunctionIndex)
        requires
            self.spec_contains(fq_name@),
        ensures
            idx@ < self.spec_len(),
            self.spec_name(idx@) == fq_name@,
    {
        self.find(fq_name).unwrap()
    }

    /// The function at `index`, which must be in the table.
    pub fn get(&self, index: FunctionIndex) -> (r: &Function)
        requires
            index@ < self.spec_len(),
        ensures
            *r == self.spec_get(index@),
            r.spec_index() == index,
    {
        proof {
            use_type_invariant(self);
            assert(self.spec_get(index@).spec_index()@ == index@);
            self.spec_get(index@).spec_index().lemma_view_injective(index);
        }
        &self.functions[index.as_usize()]
    }
}

impl Default for FunctionTable {
    fn default() -> (r: Self)
        ensures
            r.wf(),
            r.spec_len() == 0,
    {
        Self::new()
    }
}

} // verus!
