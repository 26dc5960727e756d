use vstd::prelude::*;
use crate::data_type::{TypeDefinition, TypeTable};
use crate::memory::dynamic_mem::{refcount_at, type_index_at, HeapView, HEADER_SIZE};
use crate::util::index::TypeIndex;
use crate::util::endian::{be_bytes, be_value, decode, encode, lemma_be_value_bound, lemma_radix_values};
use crate::value::{Value, ValueType};

verus! {

/// A byte address in one of the machine's memories. Address `0` in the heap
/// stands for "no allocation". The view is the address.
#[derive(Debug, Default, Clone, Copy, PartialEq, Eq, PartialOrd, Ord, Structural)]
pub struct Pointer(pub u64);

impl View for Pointer {
    type V = nat;

    open spec fn view(&self) -> nat {
        self.0 as nat
    }
}

impl Pointer {
    pub fn new(ptr: u64) -> (r: Self)
        ensures
            r == Pointer(ptr),
    {
        Pointer(ptr)
    }

    /// The pointer that eight bytes spell, most significant first.
    pub fn from_be_bytes(bytes: &[u8]) -> (r: Self)
        requires
            bytes@.len() == 8,
        ensures
            r@ == be_value(bytes@),
    {
        proof {
            lemma_radix_values();
            lemma_be_value_bound(bytes@);
        }
        Pointer(decode(bytes))
    }

    /// The address as a number.
    pub fn address(&self) -> (r: u64)
        ensures
            r == self@,
    {
        self.0
    }

    /// Every address fits in 64 bits, and equal addresses are equal pointers.
    pub proof fn lemma_view(self, other: Self)
        ensures
            self@ <= u64::MAX,
            (self@ == other@) <==> (self == other),
    {
    }

    /// The pointer `off` bytes further on.
    pub fn offset(&self, off: u32) -> (r: Self)
        requires
            self@ + off <= u64::MAX,
        ensures
            r@ == self@ + off,
    {
        Pointer(self.0 + off as u64)
    }

    /// The pointer `off` bytes further on, or `None` where that address
    /// does not fit in 64 bits.
    pub fn checked_offset(&self, off: u64) -> (r: Option<Self>)
        ensures
            self@ + off <= u64::MAX ==> r.is_some() && r.unwrap()@ == self@ + off,
            self@ + off > u64::MAX ==> r.is_none(),
    {
        if off <= u64::MAX - self.0 {
            Some(Pointer(self.0 + off))
        } else {
            None
        }
    }

    /// The addresses of the `off` bytes from this pointer on.
    pub fn offset_range(&self, off: u64) -> (r: core::ops::Range<u64>)
        requires
            self@ + off <= u64::MAX,
        ensures
            r.start == self@,
            r.end == self@ + off,
    {
        self.0..self.0 + off
    }

    /// Moves the pointer `by` bytes further on.
    pub fn incr(&mut self, by: u32)
        requires
            old(self)@ + by <= u64::MAX,
        ensures
            final(self)@ == old(self)@ + by,
    {
        self.0 = self.0 + by as u64;
    }

    /// The addresses from this pointer up to `end`.
    pub fn range(&self, end: Self) -> (r: core::ops::Range<u64>)
        ensures
            r.start == self@,
            r.end == end@,
    {
        self.0..end.0
    }

    /// The eight bytes of the address, most significant first.
    pub fn be_bytes(&self) -> (r: Vec<u8>)
        ensures
            r@ == be_bytes(self@, 8),
    {
        encode(self.0, 8)
    }

    /// Whether the pointer can name an allocation: whether it is not null.
    pub fn is_valid_allocation(&self) -> (r: bool)
        ensures
            r == (self@ > 0),
    {
        self.0 > 0
    }
}

/// What storing a value reports: the address just past the bytes written
/// and, where a heap pointer was stored, the pointer that the same bytes held
/// before together with the one stored.
#[derive(Debug, Clone, Copy)]
pub struct StorageResult {
    pub end: Pointer,
    pub allocations: Option<(Pointer, Pointer)>,
}

impl StorageResult {
    pub fn end(&self) -> (r: Pointer)
        ensures
            r == self.end,
    {
        self.end
    }

    pub fn allocations(&self) -> (r: Option<(Pointer, Pointer)>)
        ensures
            r == self.allocations,
    {
        self.allocations
    }
}

/// The byte at `addr` of a memory whose bytes are `mem`: bytes that were
/// never written are zero.
pub open spec fn mem_byte(mem: Seq<u8>, addr: int) -> u8 {
    if 0 <= addr < mem.len() {
        mem[addr]
    } else {
        0
    }
}

/// The `len` bytes from `addr` on.
pub open spec fn mem_read(mem: Seq<u8>, addr: int, len: nat) -> Seq<u8> {
    Seq::new(len, |i: int| mem_byte(mem, addr + i))
}

/// The memory after `bytes` were written from `addr` on. The memory grows
/// to hold them, with zeros between its former end and `addr`.
pub open spec fn mem_write(mem: Seq<u8>, addr: int, bytes: Seq<u8>) -> Seq<u8> {
    Seq::new(
        if mem.len() >= addr + bytes.len() {
            mem.len()
        } else {
            (addr + bytes.len()) as nat
        },
        |i: int|
            if addr <= i < addr + bytes.len() {
                bytes[i - addr]
            } else {
                mem_byte(mem, i)
            },
    )
}

/// The memory after the bytes from `from` up to `to` were cleared.
pub open spec fn mem_zero(mem: Seq<u8>, from: int, to: int) -> Seq<u8> {
    Seq::new(
        mem.len(),
        |i: int|
            if from <= i < to {
                0u8
            } else {
                mem[i]
            },
    )
}

/// What storing `value` at `ptr` reports of a memory whose bytes were `mem`.
pub open spec fn store_report(mem: Seq<u8>, ptr: Pointer, value: Value) -> StorageResult {
    StorageResult {
        end: Pointer((ptr@ + value.spec_size()) as u64),
        allocations: match value {
            Value::HeapData(new) => Some((Pointer(be_value(mem_read(mem, ptr@ as int, 8)) as u64), new)),
            _ => None,
        },
    }
}

/// Reading back what was written gives what was written, and bytes outside
/// the written range are as before.
pub proof fn lemma_write_read(mem: Seq<u8>, addr: int, bytes: Seq<u8>)
    requires
        0 <= addr,
    ensures
        mem_read(mem_write(mem, addr, bytes), addr, bytes.len()) == bytes,
        forall|a: int|
            !(addr <= a < addr + bytes.len()) ==> mem_byte(mem_write(mem, addr, bytes), a) == mem_byte(mem, a),
{
    assert(mem_read(mem_write(mem, addr, bytes), addr, bytes.len()) =~= bytes);
}

/// Byte-addressable storage of values. Values are written in big-endian
/// form, and bytes that were never written read as zero.
pub trait Memory: Default {
    /// The bytes that the memory holds.
    spec fn bytes(&self) -> Seq<u8>;

    /// Writes the bytes of `value` at `ptr`. Reports the address after them
    /// and, for a heap pointer, the pointer that the eight bytes at `ptr`
    /// spelled before, with the one written.
    fn store_value(&mut self, ptr: Pointer, value: Value) -> (r: StorageResult)
        requires
            value.spec_is_storable(),
            ptr@ + value.spec_size() <= usize::MAX,
        ensures
            final(self).bytes() == mem_write(old(self).bytes(), ptr@ as int, value.spec_bytes()),
            r == store_report(old(self).bytes(), ptr, value),
    ;

    /// The value of the scalar type `value_type` that the bytes at `ptr`
    /// spell.
    fn read_value(&self, type_table: &TypeTable, ptr: Pointer, value_type: &ValueType) -> (r: Value)
        requires
            value_type.spec_is_primitive(),
        ensures
            r == value_type.spec_create_value(mem_read(self.bytes(), ptr@ as int, value_type.spec_width())),
    ;

    /// Clears the bytes from `from` up to `to`.
    fn zero(&mut self, from: Pointer, to: Pointer)
        ensures
            final(self).bytes() == mem_zero(old(self).bytes(), from@ as int, to@ as int),
    ;
}

/// A memory that hands out reference-counted allocations.
pub trait DynamicMemory: Memory {
    /// The state of the heap, whose bytes are the memory's bytes.
    spec fn heap(&self) -> HeapView;

    /// Allocates `n` elements of the type at `type_index` and returns the
    /// address of the allocation's header, which counts one reference.
    fn allocate_n(&mut self, type_table: &TypeTable, type_index: TypeIndex, n: u32) -> (ptr: Pointer)
        requires
            type_index@ < type_table.spec_len(),
            HEADER_SIZE + n * type_table.spec_size(type_index@) <= u32::MAX,
            old(self).heap().can_allocate((HEADER_SIZE + n * type_table.spec_size(type_index@)) as nat),
        ensures
            ptr@ == old(self).heap().allocation_address(
                (HEADER_SIZE + n * type_table.spec_size(type_index@)) as nat,
            ),
            final(self).heap() == old(self).heap().allocate(
                type_index@,
                n as nat,
                (HEADER_SIZE + n * type_table.spec_size(type_index@)) as nat,
            ),
            final(self).heap().wf(),
            refcount_at(final(self).heap().mem, ptr@) == 1,
    ;

    /// Allocates one element of the type at `type_index`.
    fn allocate(&mut self, type_table: &TypeTable, type_index: TypeIndex) -> (ptr: Pointer)
        requires
            type_index@ < type_table.spec_len(),
            HEADER_SIZE + type_table.spec_size(type_index@) <= u32::MAX,
            old(self).heap().can_allocate((HEADER_SIZE + type_table.spec_size(type_index@)) as nat),
        ensures
            ptr@ == old(self).heap().allocation_address(
                (HEADER_SIZE + type_table.spec_size(type_index@)) as nat,
            ),
            final(self).heap() == old(self).heap().allocate(
                type_index@,
                1,
                (HEADER_SIZE + type_table.spec_size(type_index@)) as nat,
            ),
            final(self).heap().wf(),
            refcount_at(final(self).heap().mem, ptr@) == 1,
    {
        assert(1 * type_table.spec_size(type_index@) == type_table.spec_size(type_index@));
        self.allocate_n(type_table, type_index, 1)
    }

    /// The definition of the type whose index the header at `ptr` holds.
    /// That index must be in the table.
    fn type_of<'a>(&self, type_table: &'a TypeTable, ptr: Pointer) -> (r: &'a TypeDefinition)
        requires
            type_index_at(self.heap().mem, ptr@) < type_table.spec_len(),
        ensures
            *r == type_table.spec_get(type_index_at(self.heap().mem, ptr@)),
    ;

    /// Counts one reference more to the allocation at `ptr`.
    fn add_reference(&mut self, idx: Pointer)
        requires
            old(self).heap().can_add(idx@),
        ensures
            final(self).heap() == old(self).heap().add_reference(idx@),
            final(self).heap().wf(),
    ;

    /// Counts one reference less to the allocation at `idx`, and frees the
    /// allocation where that was its last.
    fn remove_reference(&mut self, idx: Pointer)
        requires
            old(self).heap().can_remove(idx@),
        ensures
            final(self).heap() == old(self).heap().remove_reference(idx@),
            final(self).heap().wf(),
    ;

    /// Counts the references of a slot that held `prev` and now holds
    /// `new`.
    fn replace_reference(&mut self, prev: Pointer, new: Pointer)
        requires
            old(self).heap().can_replace(prev@, new@),
        ensures
            final(self).heap() == old(self).heap().replace_reference(prev@, new@),
            final(self).heap().wf(),
    ;

    /// Whether the header at `idx` counts a reference.
    fn is_allocation_valid(&self, idx: Pointer) -> (r: bool)
        ensures
            r == (refcount_at(self.heap().mem, idx@) > 0),
    ;
}

/// Byte-addressable storage that grows as it is written. Its view is the
/// bytes it holds; every byte beyond them reads as zero.
pub struct GrowableContiguousMemory {
    storage: Vec<u8>,
}

impl View for GrowableContiguousMemory {
    type V = Seq<u8>;

    closed spec fn view(&self) -> Seq<u8> {
        self.storage@
    }
}

impl Default for GrowableContiguousMemory {
    fn default() -> (r: Self)
        ensures
            r@ == Seq::<u8>::empty(),
    {
        GrowableContiguousMemory { storage: Vec::new() }
    }
}

impl GrowableContiguousMemory {
    /// An empty memory.
    pub fn new() -> (r: Self)
        ensures
            r@ == Seq::<u8>::empty(),
    {
        GrowableContiguousMemory { storage: Vec::new() }
    }

    /// The number of bytes held.
    pub fn len(&self) -> (n: usize)
        ensures
            n == self@.len(),
    {
        self.storage.len()
    }

    /// Grows the memory with zeros until it holds at least `size` bytes.
    pub fn ensure_capacity(&mut self, size: usize)
        ensures
            final(self)@ == mem_write(old(self)@, size as int, Seq::<u8>::empty()),
            final(self)@.len() >= size,
    {
        while self.storage.len() < size
            invariant
                self@.len() >= old(self)@.len(),
                self@.len() <= size || self@.len() == old(self)@.len(),
                forall|i: int| 0 <= i < self@.len() ==> self@[i] == mem_byte(old(self)@, i),
            decreases size - self.storage.len(),
        {
            self.storage.push(0);
        }
        assert(self@ =~= mem_write(old(self)@, size as int, Seq::<u8>::empty()));
    }

    /// The bytes of the given range of addresses, which the memory must
    /// hold.
    pub fn slice(&self, range: core::ops::Range<usize>) -> (r: &[u8])
        requires
            range.start <= range.end <= self@.len(),
        ensures
            r@ == self@.subrange(range.start as int, range.end as int),
    {
        vstd::slice::slice_subrange(self.storage.as_slice(), range.start, range.end)
    }

    /// The bytes of the given range of addresses, which the memory must
    /// hold, for writing: what is written to them is written to the memory.
    pub fn slice_mut(&mut self, range: core::ops::Range<usize>) -> (r: &mut [u8])
        requires
            range.start <= range.end <= old(self)@.len(),
        ensures
            r@ == old(self)@.subrange(range.start as int, range.end as int),
            final(self)@ == old(self)@.subrange(0, range.start as int) + final(r)@ + old(self)@.subrange(
                range.end as int,
                old(self)@.len() as int,
            ),
    {
        let all = self.storage.as_mut_slice();
        let (_, rest) = all.split_at_mut(range.start);
        let (middle, _) = rest.split_at_mut(range.end - range.start);
        middle
    }

    /// The `len` bytes from `ptr` on; bytes never written read as zero.
    pub fn read_bytes(&self, ptr: Pointer, len: usize) -> (r: Vec<u8>)
        ensures
            r@ == mem_read(self@, ptr@ as int, len as nat),
    {
        let mut r: Vec<u8> = Vec::new();
        let mut i: usize = 0;
        let held: usize = self.storage.len();
        while i < len
            invariant
                i <= len,
                held == self@.len(),
                r@ == mem_read(self@, ptr@ as int, i as nat),
            decreases len - i,
        {
            let byte: u8 = if (i as u64) < u64::MAX - ptr.0 && ptr.0 + (i as u64) < held as u64 {
                self.storage[(ptr.0 + i as u64) as usize]
            } else {
                0
            };
            r.push(byte);
            assert(r@ =~= mem_read(self@, ptr@ as int, (i + 1) as nat));
            i = i + 1;
        }
        r
    }

    /// Writes `bytes` from `ptr` on, growing the memory to hold them.
    pub fn write_bytes(&mut self, ptr: Pointer, bytes: &[u8])
        requires
            ptr@ + bytes@.len() <= usize::MAX,
        ensures
            final(self)@ == mem_write(old(self)@, ptr@ as int, bytes@),
    {
        let start: usize = ptr.0 as usize;
        let n: usize = bytes.len();
        self.ensure_capacity(start + n);
        let ghost grown = self@;
        let mut i: usize = 0;
        while i < n
            invariant
                i <= n,
                n == bytes@.len(),
                start == ptr@,
                start + n <= usize::MAX,
                self@.len() == grown.len(),
                grown.len() >= start + n,
                forall|j: int| 0 <= j < self@.len() ==> self@[j] == (if start <= j < start + i {
                    bytes@[j - start]
                } else {
                    grown[j]
                }),
            decreases n - i,
        {
            self.storage.set(start + i, bytes[i]);
            i = i + 1;
        }
        assert(self@ =~= mem_write(old(self)@, ptr@ as int, bytes@));
    }

    /// Writes the bytes of `value` at `ptr`. Reports the address after them
    /// and, for a heap pointer, the pointer that the eight bytes at `ptr`
    /// spelled before, with the one written.
    pub fn store_value(&mut self, ptr: Pointer, value: Value) -> (r: StorageResult)
        requires
            value.spec_is_storable(),
            ptr@ + value.spec_size() <= usize::MAX,
        ensures
            final(self)@ == mem_write(old(self)@, ptr@ as int, value.spec_bytes()),
            r == store_report(old(self)@, ptr, value),
    {
        let size: u32 = value.size();
        let end = ptr.offset(size);
        let allocations = match value {
            Value::HeapData(new) => {
                let before = self.read_bytes(ptr, 8);
                Some((Pointer::from_be_bytes(before.as_slice()), new))
            },
            _ => None,
        };
        let bytes = value.be_bytes();
        self.write_bytes(ptr, bytes.as_slice());
        StorageResult { end, allocations }
    }

    /// The value of the scalar type `value_type` that the bytes at `ptr`
    /// spell.
    pub fn read_value(&self, type_table: &TypeTable, ptr: Pointer, value_type: &ValueType) -> (r: Value)
        requires
            value_type.spec_is_primitive(),
        ensures
            r == value_type.spec_create_value(mem_read(self@, ptr@ as int, value_type.spec_width())),
            r.spec_value_type_matches(*value_type),
    {
        let bytes = self.read_bytes(ptr, value_type.width() as usize);
        value_type.create_value(bytes.as_slice())
    }

    /// Clears the bytes from `from` up to `to`.
    pub fn zero(&mut self, from: Pointer, to: Pointer)
        ensures
            final(self)@ == mem_zero(old(self)@, from@ as int, to@ as int),
    {
        let held: usize = self.storage.len();
        let mut i: usize = if from.0 < held as u64 {
            from.0 as usize
        } else {
            held
        };
        let stop: usize = if to.0 < held as u64 {
            to.0 as usize
        } else {
            held
        };
        let ghost first = i;
        while i < stop
            invariant
                first <= i,
                i <= stop || i == first,
                stop <= held,
                held == self@.len(),
                self@.len() == old(self)@.len(),
                first == (if from@ < held { from@ as int } else { held as int }),
                stop == (if to@ < held { to@ as int } else { held as int }),
                forall|j: int| 0 <= j < self@.len() ==> self@[j] == (if first <= j < i {
                    0u8
                } else {
                    old(self)@[j]
                }),
            decreases stop - i,
        {
            self.storage.set(i, 0);
            i = i + 1;
        }
        assert(self@ =~= mem_zero(old(self)@, from@ as int, to@ as int));
    }
}

impl Memory for GrowableContiguousMemory {
    open spec fn bytes(&self) -> Seq<u8> {
        self@
    }

    fn store_value(&mut self, ptr: Pointer, value: Value) -> (r: StorageResult) {
        GrowableContiguousMemory::store_value(self, ptr, value)
    }

    fn read_value(&self, type_table: &TypeTable, ptr: Pointer, value_type: &ValueType) -> (r: Value) {
        GrowableContiguousMemory::read_value(self, type_table, ptr, value_type)
    }

    fn zero(&mut self, from: Pointer, to: Pointer) {
        GrowableContiguousMemory::zero(self, from, to)
    }
}

} // verus!
