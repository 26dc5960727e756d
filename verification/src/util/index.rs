use vstd::prelude::*;
use vstd::std_specs::convert::FromSpecImpl;

verus! {

/// One more than the largest value a 24-bit immediate can carry.
pub const INDEX_LIMIT: u32 = 0x1000000;

/// A 24-bit unsigned index, as carried in the immediate of an instruction.
/// Its view is the number it holds, always below `INDEX_LIMIT`.
#[derive(Debug, PartialEq, Eq, Clone, Copy, Structural)]
pub struct InstructionIndex(u32);

impl View for InstructionIndex {
    type V = nat;

    closed spec fn view(&self) -> nat {
        self.0 as nat
    }
}

impl InstructionIndex {
    #[verifier::type_invariant]
    closed spec fn in_range(self) -> bool {
        self.0 < 0x1000000
    }

    /// Keeps the low 24 bits of `idx`.
    pub fn new(idx: u32) -> (r: Self)
        ensures
            r@ == idx % 0x1000000,
            r == Self::spec_new(idx),
    {
        InstructionIndex(idx % 0x1000000)
    }

    /// The low 24 bits of `value`, which must fit in 32 bits.
    pub fn from_usize(value: usize) -> (r: Self)
        requires
            value <= u32::MAX,
        ensures
            r@ == value % 0x1000000,
    {
        InstructionIndex((value % 0x1000000) as u32)
    }

    pub fn value(&self) -> (r: u32)
        ensures
            r == self@,
            r < 0x1000000,
    {
        proof {
            use_type_invariant(self);
        }
        self.0
    }

    pub fn as_usize(&self) -> (r: usize)
        ensures
            r == self@,
            r < 0x1000000,
    {
        proof {
            use_type_invariant(self);
        }
        self.0 as usize
    }

    /// Two indices are equal exactly when they hold the same number.
    pub proof fn lemma_view_injective(self, other: Self)
        ensures
            (self@ == other@) <==> (self == other),
    {
    }
}

impl From<u32> for InstructionIndex {
    fn from(value: u32) -> (r: Self) {
        InstructionIndex::new(value)
    }
}

impl FromSpecImpl<u32> for InstructionIndex {
    open spec fn obeys_from_spec() -> bool {
        true
    }

    open spec fn from_spec(value: u32) -> Self {
        InstructionIndex::spec_new(value)
    }
}

impl InstructionIndex {
    /// The index that `new` builds.
    pub closed spec fn spec_new(idx: u32) -> Self {
        InstructionIndex((idx % 0x1000000) as u32)
    }

    pub proof fn lemma_spec_new(idx: u32)
        ensures
            Self::spec_new(idx)@ == idx % 0x1000000,
    {
    }
}

/// Index of a record definition in the type table.
#[derive(Debug, PartialEq, Eq, Clone, Copy, Structural)]
pub struct TypeIndex(InstructionIndex);

impl View for TypeIndex {
    type V = nat;

    closed spec fn view(&self) -> nat {
        self.0@
    }
}

impl TypeIndex {
    /// Keeps the low 24 bits of `idx`.
    pub fn new(idx: u32) -> (r: Self)
        ensures
            r@ == idx % 0x1000000,
            r == Self::spec_new(idx),
    {
        TypeIndex(InstructionIndex::new(idx))
    }

    /// The low 24 bits of `value`, which must fit in 32 bits.
    pub fn from_usize(value: usize) -> (r: Self)
        requires
            value <= u32::MAX,
        ensures
            r@ == value % 0x1000000,
    {
        TypeIndex(InstructionIndex::from_usize(value))
    }

    /// The value that `new` builds.
    pub closed spec fn spec_new(idx: u32) -> Self {
        TypeIndex(InstructionIndex::spec_new(idx))
    }

    pub proof fn lemma_spec_new(idx: u32)
        ensures
            Self::spec_new(idx)@ == idx % 0x1000000,
    {
    }

    pub fn instruction_index(&self) -> (r: InstructionIndex)
        ensures
            r@ == self@,
            r == self.spec_instruction_index(),
    {
        self.0
    }

    pub fn value(&self) -> (r: u32)
        ensures
            r == self@,
            r < 0x1000000,
    {
        self.0.value()
    }

    pub fn as_usize(&self) -> (r: usize)
        ensures
            r == self@,
            r < 0x1000000,
    {
        self.0.as_usize()
    }

    /// The four bytes of the index, most significant first.
    pub fn be_bytes(&self) -> (r: [u8; 4])
        ensures
            r@ == seq![
                0u8,
                (self@ / 0x10000) as u8,
                (self@ / 0x100 % 0x100) as u8,
                (self@ % 0x100) as u8,
            ],
    {
        let v: u32 = self.0.value();
        [0u8, (v / 0x10000) as u8, (v / 0x100 % 0x100) as u8, (v % 0x100) as u8]
    }

    /// Two indices are equal exactly when they hold the same number.
    pub proof fn lemma_view_injective(self, other: Self)
        ensures
            (self@ == other@) <==> (self == other),
    {
        self.0.lemma_view_injective(other.0);
    }
}

impl From<u32> for TypeIndex {
    fn from(value: u32) -> (r: Self) {
        TypeIndex::new(value)
    }
}

impl FromSpecImpl<u32> for TypeIndex {
    open spec fn obeys_from_spec() -> bool {
        true
    }

    open spec fn from_spec(value: u32) -> Self {
        TypeIndex::spec_new(value)
    }
}

impl From<TypeIndex> for InstructionIndex {
    fn from(value: TypeIndex) -> (r: Self) {
        value.instruction_index()
    }
}

impl FromSpecImpl<TypeIndex> for InstructionIndex {
    open spec fn obeys_from_spec() -> bool {
        true
    }

    open spec fn from_spec(value: TypeIndex) -> Self {
        value.spec_instruction_index()
    }
}

impl TypeIndex {
    /// The 24-bit index inside.
    pub closed spec fn spec_instruction_index(self) -> InstructionIndex {
        self.0
    }
}

/// Index of a local slot within a function's frame.
#[derive(Debug, PartialEq, Eq, Clone, Copy, Structural)]
pub struct LocalIndex(InstructionIndex);

impl View for LocalIndex {
    type V = nat;

    closed spec fn view(&self) -> nat {
        self.0@
    }
}

impl LocalIndex {
    /// Keeps the low 24 bits of `idx`.
    pub fn new(idx: u32) -> (r: Self)
        ensures
            r@ == idx % 0x1000000,
            r == Self::spec_new(idx),
    {
        LocalIndex(InstructionIndex::new(idx))
    }

    /// The low 24 bits of `value`, which must fit in 32 bits.
    pub fn from_usize(value: usize) -> (r: Self)
        requires
            value <= u32::MAX,
        ensures
            r@ == value % 0x1000000,
    {
        LocalIndex(InstructionIndex::from_usize(value))
    }

    /// The value that `new` builds.
    pub closed spec fn spec_new(idx: u32) -> Self {
        LocalIndex(InstructionIndex::spec_new(idx))
    }

    pub proof fn lemma_spec_new(idx: u32)
        ensures
            Self::spec_new(idx)@ == idx % 0x1000000,
    {
    }

    pub fn instruction_index(&self) -> (r: InstructionIndex)
        ensures
            r@ == self@,
            r == self.spec_instruction_index(),
    {
        self.0
    }

    pub fn value(&self) -> (r: u32)
        ensures
            r == self@,
            r < 0x1000000,
    {
        self.0.value()
    }

    pub fn as_usize(&self) -> (r: usize)
        ensures
            r == self@,
            r < 0x1000000,
    {
        self.0.as_usize()
    }

    /// The four bytes of the index, most significant first.
    pub fn be_bytes(&self) -> (r: [u8; 4])
        ensures
            r@ == seq![
                0u8,
                (self@ / 0x10000) as u8,
                (self@ / 0x100 % 0x100) as u8,
                (self@ % 0x100) as u8,
            ],
    {
        let v: u32 = self.0.value();
        [0u8, (v / 0x10000) as u8, (v / 0x100 % 0x100) as u8, (v % 0x100) as u8]
    }

    /// Two indices are equal exactly when they hold the same number.
    pub proof fn lemma_view_injective(self, other: Self)
        ensures
            (self@ == other@) <==> (self == other),
    {
        self.0.lemma_view_injective(other.0);
    }
}

impl From<u32> for LocalIndex {
    fn from(value: u32) -> (r: Self) {
        LocalIndex::new(value)
    }
}

impl FromSpecImpl<u32> for LocalIndex {
    open spec fn obeys_from_spec() -> bool {
        true
    }

    open spec fn from_spec(value: u32) -> Self {
        LocalIndex::spec_new(value)
    }
}

impl From<LocalIndex> for InstructionIndex {
    fn from(value: LocalIndex) -> (r: Self) {
        value.instruction_index()
    }
}

impl FromSpecImpl<LocalIndex> for InstructionIndex {
    open spec fn obeys_from_spec() -> bool {
        true
    }

    open spec fn from_spec(value: LocalIndex) -> Self {
        value.spec_instruction_index()
    }
}

impl LocalIndex {
    /// The 24-bit index inside.
    pub closed spec fn spec_instruction_index(self) -> InstructionIndex {
        self.0
    }
}

/// Index of a function in the function table.
#[derive(Debug, PartialEq, Eq, Clone, Copy, Structural)]
pub struct FunctionIndex(InstructionIndex);

impl View for FunctionIndex {
    type V = nat;

    closed spec fn view(&self) -> nat {
        self.0@
    }
}

impl FunctionIndex {
    /// Keeps the low 24 bits of `idx`.
    pub fn new(idx: u32) -> (r: Self)
        ensures
            r@ == idx % 0x1000000,
            r == Self::spec_new(idx),
    {
        FunctionIndex(InstructionIndex::new(idx))
    }

    /// The low 24 bits of `value`, which must fit in 32 bits.
    pub fn from_usize(value: usize) -> (r: Self)
        requires
            value <= u32::MAX,
        ensures
            r@ == value % 0x1000000,
    {
        FunctionIndex(InstructionIndex::from_usize(value))
    }

    /// The value that `new` builds.
    pub closed spec fn spec_new(idx: u32) -> Self {
        FunctionIndex(InstructionIndex::spec_new(idx))
    }

    pub proof fn lemma_spec_new(idx: u32)
        ensures
            Self::spec_new(idx)@ == idx % 0x1000000,
    {
    }

    pub fn instruction_index(&self) -> (r: InstructionIndex)
        ensures
            r@ == self@,
            r == self.spec_instruction_index(),
    {
        self.0
    }

    pub fn value(&self) -> (r: u32)
        ensures
            r == self@,
            r < 0x1000000,
    {
        self.0.value()
    }

    pub fn as_usize(&self) -> (r: usize)
        ensures
            r == self@,
            r < 0x1000000,
    {
        self.0.as_usize()
    }

    /// The four bytes of the index, most significant first.
    pub fn be_bytes(&self) -> (r: [u8; 4])
        ensures
            r@ == seq![
                0u8,
                (self@ / 0x10000) as u8,
                (self@ / 0x100 % 0x100) as u8,
                (self@ % 0x100) as u8,
            ],
    {
        let v: u32 = self.0.value();
        [0u8, (v / 0x10000) as u8, (v / 0x100 % 0x100) as u8, (v % 0x100) as u8]
    }

    /// Two indices are equal exactly when they hold the same number.
    pub proof fn lemma_view_injective(self, other: Self)
        ensures
            (self@ == other@) <==> (self == other),
    {
        self.0.lemma_view_injective(other.0);
    }
}

impl From<u32> for FunctionIndex {
    fn from(value: u32) -> (r: Self) {
        FunctionIndex::new(value)
    }
}

impl FromSpecImpl<u32> for FunctionIndex {
    open spec fn obeys_from_spec() -> bool {
        true
    }

    open spec fn from_spec(value: u32) -> Self {
        FunctionIndex::spec_new(value)
    }
}

impl From<FunctionIndex> for InstructionIndex {
    fn from(value: FunctionIndex) -> (r: Self) {
        value.instruction_index()
    }
}

impl FromSpecImpl<FunctionIndex> for InstructionIndex {
    open spec fn obeys_from_spec() -> bool {
        true
    }

    open spec fn from_spec(value: FunctionIndex) -> Self {
        value.spec_instruction_index()
    }
}

impl FunctionIndex {
    /// The 24-bit index inside.
    pub closed spec fn spec_instruction_index(self) -> InstructionIndex {
        self.0
    }
}

/// Index of a value in the constant pool.
#[derive(Debug, PartialEq, Eq, Clone, Copy, Structural)]
pub struct ConstantIndex(InstructionIndex);

impl View for ConstantIndex {
    type V = nat;

    closed spec fn view(&self) -> nat {
        self.0@
    }
}

impl ConstantIndex {
    /// Keeps the low 24 bits of `idx`.
    pub fn new(idx: u32) -> (r: Self)
        ensures
            r@ == idx % 0x1000000,
            r == Self::spec_new(idx),
    {
        ConstantIndex(InstructionIndex::new(idx))
    }

    /// The low 24 bits of `value`, which must fit in 32 bits.
    pub fn from_usize(value: usize) -> (r: Self)
        requires
            value <= u32::MAX,
        ensures
            r@ == value % 0x1000000,
    {
        ConstantIndex(InstructionIndex::from_usize(value))
    }

    /// The value that `new` builds.
    pub closed spec fn spec_new(idx: u32) -> Self {
        ConstantIndex(InstructionIndex::spec_new(idx))
    }

    pub proof fn lemma_spec_new(idx: u32)
        ensures
            Self::spec_new(idx)@ == idx % 0x1000000,
    {
    }

    pub fn instruction_index(&self) -> (r: InstructionIndex)
        ensures
            r@ == self@,
            r == self.spec_instruction_index(),
    {
        self.0
    }

    pub fn value(&self) -> (r: u32)
        ensures
            r == self@,
            r < 0x1000000,
    {
        self.0.value()
    }

    pub fn as_usize(&self) -> (r: usize)
        ensures
            r == self@,
            r < 0x1000000,
    {
        self.0.as_usize()
    }

    /// The four bytes of the index, most significant first.
    pub fn be_bytes(&self) -> (r: [u8; 4])
        ensures
            r@ == seq![
                0u8,
                (self@ / 0x10000) as u8,
                (self@ / 0x100 % 0x100) as u8,
                (self@ % 0x100) as u8,
            ],
    {
        let v: u32 = self.0.value();
        [0u8, (v / 0x10000) as u8, (v / 0x100 % 0x100) as u8, (v % 0x100) as u8]
    }

    /// Two indices are equal exactly when they hold the same number.
    pub proof fn lemma_view_injective(self, other: Self)
        ensures
            (self@ == other@) <==> (self == other),
    {
        self.0.lemma_view_injective(other.0);
    }
}

impl From<u32> for ConstantIndex {
    fn from(value: u32) -> (r: Self) {
        ConstantIndex::new(value)
    }
}

impl FromSpecImpl<u32> for ConstantIndex {
    open spec fn obeys_from_spec() -> bool {
        true
    }

    open spec fn from_spec(value: u32) -> Self {
        ConstantIndex::spec_new(value)
    }
}

impl From<ConstantIndex> for InstructionIndex {
    fn from(value: ConstantIndex) -> (r: Self) {
        value.instruction_index()
    }
}

impl FromSpecImpl<ConstantIndex> for InstructionIndex {
    open spec fn obeys_from_spec() -> bool {
        true
    }

    open spec fn from_spec(value: ConstantIndex) -> Self {
        value.spec_instruction_index()
    }
}

impl ConstantIndex {
    /// The 24-bit index inside.
    pub closed spec fn spec_instruction_index(self) -> InstructionIndex {
        self.0
    }
}

impl From<InstructionIndex> for usize {
    fn from(value: InstructionIndex) -> (r: Self) {
        value.as_usize()
    }
}

impl FromSpecImpl<InstructionIndex> for usize {
    open spec fn obeys_from_spec() -> bool {
        true
    }

    open spec fn from_spec(value: InstructionIndex) -> Self {
        value@ as usize
    }
}

impl From<TypeIndex> for usize {
    fn from(value: TypeIndex) -> (r: Self) {
        value.as_usize()
    }
}

impl FromSpecImpl<TypeIndex> for usize {
    open spec fn obeys_from_spec() -> bool {
        true
    }

    open spec fn from_spec(value: TypeIndex) -> Self {
        value@ as usize
    }
}

impl From<LocalIndex> for usize {
    fn from(value: LocalIndex) -> (r: Self) {
        value.as_usize()
    }
}

impl FromSpecImpl<LocalIndex> for usize {
    open spec fn obeys_from_spec() -> bool {
        true
    }

    open spec fn from_spec(value: LocalIndex) -> Self {
        value@ as usize
    }
}

impl From<FunctionIndex> for usize {
    fn from(value: FunctionIndex) -> (r: Self) {
        value.as_usize()
    }
}

impl FromSpecImpl<FunctionIndex> for usize {
    open spec fn obeys_from_spec() -> bool {
        true
    }

    open spec fn from_spec(value: FunctionIndex) -> Self {
        value@ as usize
    }
}

impl From<ConstantIndex> for usize {
    fn from(value: ConstantIndex) -> (r: Self) {
        value.as_usize()
    }
}

impl FromSpecImpl<ConstantIndex> for usize {
    open spec fn obeys_from_spec() -> bool {
        true
    }

    open spec fn from_spec(value: ConstantIndex) -> Self {
        value@ as usize
    }
}

} // verus!
