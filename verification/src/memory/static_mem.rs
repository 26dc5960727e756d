use vstd::prelude::*;
use crate::data_type::TypeTable;
use crate::memory::common::{
    mem_read, mem_write, mem_zero, store_report, GrowableContiguousMemory, Memory, Pointer,
    StorageResult,
};
use crate::value::{Value, ValueType};

verus! {

/// The memory that backs the locals of every call frame. Its view is the
/// bytes it holds.
pub struct StaticMemory {
    memory: GrowableContiguousMemory,
}

impl View for StaticMemory {
    type V = Seq<u8>;

    closed spec fn view(&self) -> Seq<u8> {
        self.memory@
    }
}

impl Default for StaticMemory {
    fn default() -> (r: Self)
        ensures
            r@ == Seq::<u8>::empty(),
    {
        StaticMemory { memory: GrowableContiguousMemory::new() }
    }
}

impl StaticMemory {
    pub fn new() -> (r: Self)
        ensures
            r@ == Seq::<u8>::empty(),
    {
        StaticMemory { memory: GrowableContiguousMemory::new() }
    }

    /// Writes the bytes of `value` at `ptr`, and reports as
    /// `GrowableContiguousMemory::store_value` does.
    pub fn store_value(&mut self, ptr: Pointer, value: Value) -> (r: StorageResult)
        requires
            value.spec_is_storable(),
            ptr@ + value.spec_size() <= usize::MAX,
        ensures
            final(self)@ == mem_write(old(self)@, ptr@ as int, value.spec_bytes()),
            r == store_report(old(self)@, ptr, value),
    {
        self.memory.store_value(ptr, value)
    }

    /// The value of the scalar type `value_type` that the bytes at `ptr`
    /// spell.
    pub fn read_value(&self, type_table: &TypeTable, ptr: Pointer, value_type: &ValueType) -> (r: Value)
        requires
            value_type.spec_is_primitive(),
        ensures
            r == value_type.spec_create_value(mem_read(self@, ptr@ as int, value_type.spec_width())),
            r.spec_value_type_matches(*value_type),
    {
        self.memory.read_value(type_table, ptr, value_type)
    }

    /// The `len` bytes from `ptr` on.
    pub fn read_bytes(&self, ptr: Pointer, len: usize) -> (r: Vec<u8>)
        ensures
            r@ == mem_read(self@, ptr@ as int, len as nat),
    {
        self.memory.read_bytes(ptr, len)
    }

    /// Clears the bytes from `from` up to `to`.
    pub fn zero(&mut self, from: Pointer, to: Pointer)
        ensures
            final(self)@ == mem_zero(old(self)@, from@ as int, to@ as int),
    {
        self.memory.zero(from, to);
    }
}

impl Memory for StaticMemory {
    open spec fn bytes(&self) -> Seq<u8> {
        self@
    }

    fn store_value(&mut self, ptr: Pointer, value: Value) -> (r: StorageResult) {
        StaticMemory::store_value(self, ptr, value)
    }

    fn read_value(&self, type_table: &TypeTable, ptr: Pointer, value_type: &ValueType) -> (r: Value) {
        StaticMemory::read_value(self, type_table, ptr, value_type)
    }

    fn zero(&mut self, from: Pointer, to: Pointer) {
        StaticMemory::zero(self, from, to)
    }
}

} // verus!
