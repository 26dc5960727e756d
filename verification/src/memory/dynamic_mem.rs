use vstd::prelude::*;
use crate::data_type::{TypeDefinition, TypeTable};
use crate::memory::common::{
    mem_byte, mem_read, mem_write, mem_zero, store_report, DynamicMemory, GrowableContiguousMemory,
    Memory, Pointer, StorageResult,
};
use crate::util::endian::{
    be_bytes, be_value, decode, encode, lemma_be_bytes_len, lemma_be_value_bound,
    lemma_bytes_of_value, lemma_radix_values, lemma_value_of_bytes, radix,
};
use crate::util::index::TypeIndex;
use crate::value::{Value, ValueType};

verus! {

/// The number of bytes of an allocation's header.
pub const HEADER_SIZE: u32 = 16;

/// The lowest address that the heap hands out. The bytes below it are
/// never allocated, so that address `0` can stand for "no allocation".
pub const HEAP_BASE: u64 = 16;

/// The largest number of references that a header counts.
pub const MAX_REFERENCES: u32 = 0x7FFFFFFF;

/// A count of references to one allocation.
#[derive(Debug, Clone, Copy, PartialEq, Eq, Structural)]
pub struct References(pub u32);

impl References {
    /// The count of an allocation just made: one reference.
    pub fn new() -> (r: Self)
        ensures
            r.0 == 1,
    {
        References(1)
    }

    /// The four bytes of the count, most significant first.
    pub fn be_bytes(&self) -> (r: Vec<u8>)
        ensures
            r@ == be_bytes(self.0 as nat, 4),
    {
        encode(self.0 as u64, 4)
    }

    /// Counts one reference more. The count must be below `MAX_REFERENCES`.
    pub fn increment(&mut self)
        requires
            old(self).0 < MAX_REFERENCES,
        ensures
            final(self).0 == old(self).0 + 1,
    {
        self.0 = self.0 + 1;
    }

    /// Counts one reference less. There must be a reference to take.
    pub fn decrement(&mut self)
        requires
            old(self).0 > 0,
        ensures
            final(self).0 == old(self).0 - 1,
    {
        self.0 = self.0 - 1;
    }

    pub fn reference_count(&self) -> (r: u32)
        ensures
            r == self.0,
    {
        self.0
    }

    /// Whether anything refers to the allocation.
    pub fn is_live(&self) -> (r: bool)
        ensures
            r == (self.0 > 0),
    {
        self.0 > 0
    }
}

/// The sixteen bytes of a header: the reference count, the type index, the
/// number of elements and the size of the whole allocation in bytes, each
/// on four bytes, most significant first.
pub open spec fn header_bytes(references: nat, type_index: nat, num: nat, size: nat) -> Seq<u8> {
    be_bytes(references, 4) + be_bytes(type_index, 4) + be_bytes(num, 4) + be_bytes(size, 4)
}

/// The reference count in the header at `ptr`.
pub open spec fn refcount_at(mem: Seq<u8>, ptr: nat) -> nat {
    be_value(mem_read(mem, ptr as int, 4))
}

/// The type index in the header at `ptr`: the low 24 bits of its field.
pub open spec fn type_index_at(mem: Seq<u8>, ptr: nat) -> nat {
    be_value(mem_read(mem, ptr + 4 as int, 4)) % 0x1000000
}

/// The number of elements in the header at `ptr`.
pub open spec fn num_at(mem: Seq<u8>, ptr: nat) -> nat {
    be_value(mem_read(mem, ptr + 8 as int, 4))
}

/// The size in bytes, header included, in the header at `ptr`.
pub open spec fn size_at(mem: Seq<u8>, ptr: nat) -> nat {
    be_value(mem_read(mem, ptr + 12 as int, 4))
}

/// The header of a heap allocation.
#[derive(Debug, Clone, Copy)]
pub struct HeapAllocation {
    pub references: References,
    pub type_index: TypeIndex,
    pub num: u32,
    pub size: u32,
}

impl HeapAllocation {
    /// The header of a new allocation: one reference.
    pub fn new(type_index: TypeIndex, num: u32, size: u32) -> (r: Self)
        ensures
            r.references.0 == 1,
            r.type_index == type_index,
            r.num == num,
            r.size == size,
    {
        HeapAllocation { type_index, references: References::new(), num, size }
    }

    /// The number of bytes of a header.
    pub fn size() -> (r: u32)
        ensures
            r == HEADER_SIZE,
    {
        HEADER_SIZE
    }

    /// The header that sixteen bytes spell.
    pub fn from_memory(memory: &[u8]) -> (r: Self)
        requires
            memory@.len() == 16,
        ensures
            r.references.0 == refcount_at(memory@, 0),
            r.type_index@ == type_index_at(memory@, 0),
            r.num == num_at(memory@, 0),
            r.size == size_at(memory@, 0),
    {
        proof {
            lemma_radix_values();
            assert(mem_read(memory@, 0, 4) =~= memory@.subrange(0, 4));
            assert(mem_read(memory@, 4, 4) =~= memory@.subrange(4, 8));
            assert(mem_read(memory@, 8, 4) =~= memory@.subrange(8, 12));
            assert(mem_read(memory@, 12, 4) =~= memory@.subrange(12, 16));
            lemma_be_value_bound(memory@.subrange(0, 4));
            lemma_be_value_bound(memory@.subrange(4, 8));
            lemma_be_value_bound(memory@.subrange(8, 12));
            lemma_be_value_bound(memory@.subrange(12, 16));
        }
        let references = References(decode(vstd::slice::slice_subrange(memory, 0, 4)) as u32);
        let type_index = TypeIndex::new(decode(vstd::slice::slice_subrange(memory, 4, 8)) as u32);
        let num = decode(vstd::slice::slice_subrange(memory, 8, 12)) as u32;
        let size = decode(vstd::slice::slice_subrange(memory, 12, 16)) as u32;
        HeapAllocation { type_index, references, num, size }
    }

    pub fn has_live_references(&self) -> (r: bool)
        ensures
            r == (self.references.0 > 0),
    {
        self.references.is_live()
    }

    /// The sixteen bytes of the header.
    pub fn be_bytes(&self) -> (r: Vec<u8>)
        ensures
            r@ == header_bytes(
                self.references.0 as nat,
                self.type_index@,
                self.num as nat,
                self.size as nat,
            ),
            r@.len() == 16,
    {
        proof {
            lemma_be_bytes_len(self.references.0 as nat, 4);
            lemma_be_bytes_len(self.type_index@, 4);
            lemma_be_bytes_len(self.num as nat, 4);
            lemma_be_bytes_len(self.size as nat, 4);
        }
        let mut bytes = self.references.be_bytes();
        let mut part = encode(self.type_index.value() as u64, 4);
        bytes.append(&mut part);
        let mut part = encode(self.num as u64, 4);
        bytes.append(&mut part);
        let mut part = encode(self.size as u64, 4);
        bytes.append(&mut part);
        bytes
    }
}

/// A free block of the heap: where it starts and how many bytes it has.
#[derive(Debug, Clone, Copy)]
pub struct IndexedAllocation {
    pub ptr: Pointer,
    pub size: u32,
}

/// The index of the first block from `from` on that has at least `size`
/// bytes, or the length of the list where there is none.
pub open spec fn first_fit(list: Seq<IndexedAllocation>, size: nat, from: int) -> int
    decreases list.len() - from,
{
    if from >= list.len() {
        list.len() as int
    } else if from >= 0 && list[from].size >= size {
        from
    } else {
        first_fit(list, size, from + 1)
    }
}

/// Whether the blocks are in order of size, smallest first.
pub open spec fn sorted_by_size(list: Seq<IndexedAllocation>) -> bool {
    forall|i: int, j: int| 0 <= i <= j < list.len() ==> list[i].size <= list[j].size
}

/// The list with `block` put before the first block that is at least as
/// large.
pub open spec fn with_block(list: Seq<IndexedAllocation>, block: IndexedAllocation) -> Seq<
    IndexedAllocation,
> {
    list.insert(first_fit(list, block.size as nat, 0), block)
}

/// The state of a heap: its bytes, the address from which fresh memory is
/// taken, and the free blocks in order of size.
pub struct HeapView {
    pub mem: Seq<u8>,
    pub free_ptr: nat,
    pub free_list: Seq<IndexedAllocation>,
}

impl HeapView {
    /// The heap's bounds hold: fresh memory starts at or above `HEAP_BASE`
    /// and within what the machine addresses, every free block lies between
    /// `HEAP_BASE` and the fresh memory, and the free list is sorted.
    pub open spec fn wf(self) -> bool {
        bounds_hold(self.free_ptr, self.free_list)
    }

    /// Whether `ptr` can be the header of an allocation: it lies at or above
    /// `HEAP_BASE`, and the size in its header covers the header and ends
    /// within the memory handed out.
    pub open spec fn is_block(self, ptr: nat) -> bool {
        &&& HEAP_BASE <= ptr
        &&& HEADER_SIZE <= size_at(self.mem, ptr)
        &&& ptr + size_at(self.mem, ptr) <= self.free_ptr
    }

    /// Whether a request for `size` bytes can be served: a free block fits,
    /// or the fresh memory behind `free_ptr` can still be addressed.
    pub open spec fn can_allocate(self, size: nat) -> bool {
        first_fit(self.free_list, size, 0) == self.free_list.len() ==> self.free_ptr + size <= usize::MAX
    }

    /// Where an allocation of `size` bytes is made: at the smallest free
    /// block that fits, or at `free_ptr` where none does.
    pub open spec fn allocation_address(self, size: nat) -> nat {
        let k = first_fit(self.free_list, size, 0);
        if k < self.free_list.len() {
            self.free_list[k].ptr@
        } else {
            self.free_ptr
        }
    }

    /// The heap after an allocation of `size` bytes for `num` elements of
    /// type `type_index`. The smallest free block that fits leaves the free
    /// list, and what it has beyond `size` bytes goes back as a block of its
    /// own; where no block fits the allocation is taken at `free_ptr`, which
    /// moves on by `size`. The header, with one reference, is written at the
    /// allocation's address.
    pub open spec fn allocate(self, type_index: nat, num: nat, size: nat) -> HeapView {
        let k = first_fit(self.free_list, size, 0);
        let ptr = self.allocation_address(size);
        let mem = mem_write(self.mem, ptr as int, header_bytes(1, type_index, num, size));
        if k < self.free_list.len() {
            let block = self.free_list[k];
            let rest = self.free_list.remove(k);
            let residual = block.size - size;
            HeapView {
                mem,
                free_ptr: self.free_ptr,
                free_list: if residual > 0 {
                    with_block(
                        rest,
                        IndexedAllocation { ptr: Pointer((ptr + size) as u64), size: residual as u32 },
                    )
                } else {
                    rest
                },
            }
        } else {
            HeapView { mem, free_ptr: (self.free_ptr + size) as nat, free_list: self.free_list }
        }
    }

    /// The heap after one reference more to the allocation at `ptr`.
    pub open spec fn add_reference(self, ptr: nat) -> HeapView {
        HeapView {
            mem: mem_write(self.mem, ptr as int, be_bytes(refcount_at(self.mem, ptr) + 1, 4)),
            ..self
        }
    }

    /// The heap after one reference less to the allocation at `ptr`. Where
    /// that was the last one, the allocation's bytes are cleared, header
    /// included, and the block joins the free list.
    pub open spec fn remove_reference(self, ptr: nat) -> HeapView {
        let count = refcount_at(self.mem, ptr);
        if count > 1 {
            HeapView { mem: mem_write(self.mem, ptr as int, be_bytes((count - 1) as nat, 4)), ..self }
        } else {
            let size = size_at(self.mem, ptr);
            HeapView {
                mem: mem_zero(self.mem, ptr as int, ptr + size as int),
                free_ptr: self.free_ptr,
                free_list: with_block(
                    self.free_list,
                    IndexedAllocation { ptr: Pointer(ptr as u64), size: size as u32 },
                ),
            }
        }
    }

    /// Whether a reference to `ptr` can be counted.
    pub open spec fn can_add(self, ptr: nat) -> bool {
        self.is_block(ptr) && refcount_at(self.mem, ptr) < MAX_REFERENCES
    }

    /// Whether a reference to `ptr` can be taken away.
    pub open spec fn can_remove(self, ptr: nat) -> bool {
        self.is_block(ptr) && refcount_at(self.mem, ptr) > 0
    }

    /// The heap after a slot that held `prev` was overwritten with `new`:
    /// one reference more to `new`, then one less to `prev`, each only where
    /// the pointer is not null.
    pub open spec fn replace_reference(self, prev: nat, new: nat) -> HeapView {
        let added = if new != 0 {
            self.add_reference(new)
        } else {
            self
        };
        if prev != 0 {
            added.remove_reference(prev)
        } else {
            added
        }
    }

    /// Whether the references of `replace_reference` can be counted: a
    /// reference to `new` can be added and one to `prev` can be taken, as
    /// far as each is not null, and the two headers are the same or apart.
    pub open spec fn can_replace(self, prev: nat, new: nat) -> bool {
        &&& new != 0 ==> self.can_add(new)
        &&& prev != 0 ==> self.can_remove(prev)
        &&& prev != 0 && new != 0 && prev != new ==> new + 4 <= prev || prev + 16 <= new
    }
}

/// Up to the first fit every block is too small, and the first fit is not.
pub proof fn lemma_first_fit(list: Seq<IndexedAllocation>, size: nat, from: int)
    requires
        0 <= from <= list.len(),
    ensures
        from <= first_fit(list, size, from) <= list.len(),
        forall|j: int| from <= j < first_fit(list, size, from) ==> list[j].size < size,
        first_fit(list, size, from) < list.len() ==> list[first_fit(list, size, from)].size >= size,
    decreases list.len() - from,
{
    if from < list.len() && list[from].size < size {
        lemma_first_fit(list, size, from + 1);
    }
}

/// In a sorted list the first fit is the smallest block that fits.
pub proof fn lemma_first_fit_smallest(list: Seq<IndexedAllocation>, size: nat)
    requires
        sorted_by_size(list),
    ensures
        forall|j: int|
            0 <= j < list.len() && (#[trigger] list[j]).size >= size ==> first_fit(list, size, 0) < list.len()
                && list[first_fit(list, size, 0)].size <= list[j].size,
{
    lemma_first_fit(list, size, 0);
}

/// A block put in by `with_block` leaves the list sorted, and every block
/// of the new list is the new one or one of the old list.
pub proof fn lemma_with_block(list: Seq<IndexedAllocation>, block: IndexedAllocation)
    requires
        sorted_by_size(list),
    ensures
        sorted_by_size(with_block(list, block)),
        with_block(list, block).len() == list.len() + 1,
        forall|k: int|
            0 <= k < list.len() + 1 ==> (#[trigger] with_block(list, block)[k]) == block || exists|j: int|
                0 <= j < list.len() && list[j] == with_block(list, block)[k],
{
    let at = first_fit(list, block.size as nat, 0);
    lemma_first_fit(list, block.size as nat, 0);
    let after = with_block(list, block);
    assert forall|k: int| 0 <= k < list.len() + 1 implies (#[trigger] after[k]) == block || exists|j: int|
        0 <= j < list.len() && list[j] == after[k] by {
        if k < at {
            assert(list[k] == after[k]);
        } else if k > at {
            assert(list[k - 1] == after[k]);
        }
    }
    assert forall|i: int, j: int| 0 <= i <= j < after.len() implies after[i].size <= after[j].size by {
        if i < at && j > at {
            assert(after[i] == list[i] && after[j] == list[j - 1]);
        } else if i > at {
            assert(after[i] == list[i - 1] && after[j] == list[j - 1]);
        } else if j < at {
            assert(after[i] == list[i] && after[j] == list[j]);
        } else if i == at && j > at {
            assert(after[j] == list[j - 1]);
            assert(list[at].size <= list[j - 1].size);
        } else if j == at && i < at {
            assert(after[i] == list[i]);
        }
    }
}

/// Reading a part of what was written gives that part.
pub proof fn lemma_read_written(mem: Seq<u8>, addr: int, bytes: Seq<u8>, from: int, len: nat)
    requires
        0 <= addr,
        0 <= from,
        from + len <= bytes.len(),
    ensures
        mem_read(mem_write(mem, addr, bytes), addr + from, len) == bytes.subrange(from, from + len),
{
    assert(mem_read(mem_write(mem, addr, bytes), addr + from, len) =~= bytes.subrange(from, from + len));
}

/// Reading outside of what was written gives what was there before.
pub proof fn lemma_read_unwritten(mem: Seq<u8>, addr: int, bytes: Seq<u8>, at: int, len: nat)
    requires
        0 <= addr,
        at + len <= addr || addr + bytes.len() <= at,
    ensures
        mem_read(mem_write(mem, addr, bytes), at, len) == mem_read(mem, at, len),
{
    assert(mem_read(mem_write(mem, addr, bytes), at, len) =~= mem_read(mem, at, len));
}

/// A header written at `ptr` is the header read at `ptr`.
pub proof fn lemma_header_written(mem: Seq<u8>, ptr: nat, references: nat, type_index: nat, num: nat, size: nat)
    requires
        references <= u32::MAX,
        type_index < 0x1000000,
        num <= u32::MAX,
        size <= u32::MAX,
    ensures
        header_bytes(references, type_index, num, size).len() == 16,
        refcount_at(mem_write(mem, ptr as int, header_bytes(references, type_index, num, size)), ptr)
            == references,
        type_index_at(mem_write(mem, ptr as int, header_bytes(references, type_index, num, size)), ptr)
            == type_index,
        num_at(mem_write(mem, ptr as int, header_bytes(references, type_index, num, size)), ptr) == num,
        size_at(mem_write(mem, ptr as int, header_bytes(references, type_index, num, size)), ptr) == size,
{
    let bytes = header_bytes(references, type_index, num, size);
    lemma_radix_values();
    lemma_be_bytes_len(references, 4);
    lemma_be_bytes_len(type_index, 4);
    lemma_be_bytes_len(num, 4);
    lemma_be_bytes_len(size, 4);
    lemma_read_written(mem, ptr as int, bytes, 0, 4);
    lemma_read_written(mem, ptr as int, bytes, 4, 4);
    lemma_read_written(mem, ptr as int, bytes, 8, 4);
    lemma_read_written(mem, ptr as int, bytes, 12, 4);
    assert(bytes.subrange(0, 4) =~= be_bytes(references, 4));
    assert(bytes.subrange(4, 8) =~= be_bytes(type_index, 4));
    assert(bytes.subrange(8, 12) =~= be_bytes(num, 4));
    assert(bytes.subrange(12, 16) =~= be_bytes(size, 4));
    lemma_value_of_bytes(references, 4);
    lemma_value_of_bytes(type_index, 4);
    lemma_value_of_bytes(num, 4);
    lemma_value_of_bytes(size, 4);
}

/// A reference count written at `ptr` is the count read at `ptr`, and the
/// rest of the header is as before.
pub proof fn lemma_refcount_written(mem: Seq<u8>, ptr: nat, references: nat)
    requires
        references <= u32::MAX,
    ensures
        refcount_at(mem_write(mem, ptr as int, be_bytes(references, 4)), ptr) == references,
        type_index_at(mem_write(mem, ptr as int, be_bytes(references, 4)), ptr) == type_index_at(mem, ptr),
        num_at(mem_write(mem, ptr as int, be_bytes(references, 4)), ptr) == num_at(mem, ptr),
        size_at(mem_write(mem, ptr as int, be_bytes(references, 4)), ptr) == size_at(mem, ptr),
{
    let bytes = be_bytes(references, 4);
    lemma_radix_values();
    lemma_be_bytes_len(references, 4);
    lemma_read_written(mem, ptr as int, bytes, 0, 4);
    assert(bytes.subrange(0, 4) =~= bytes);
    lemma_value_of_bytes(references, 4);
    lemma_read_unwritten(mem, ptr as int, bytes, ptr + 4 as int, 4);
    lemma_read_unwritten(mem, ptr as int, bytes, ptr + 8 as int, 4);
    lemma_read_unwritten(mem, ptr as int, bytes, ptr + 12 as int, 4);
}

/// Whether fresh memory from `free_ptr` on and the free blocks of `list`
/// keep the heap's bounds: fresh memory starts at or above `HEAP_BASE` and
/// within what the machine addresses, every free block lies between
/// `HEAP_BASE` and the fresh memory, and the list is sorted by size.
pub open spec fn bounds_hold(free_ptr: nat, list: Seq<IndexedAllocation>) -> bool {
    &&& HEAP_BASE <= free_ptr <= usize::MAX
    &&& forall|k: int|
        0 <= k < list.len() ==> HEAP_BASE <= (#[trigger] list[k]).ptr@ && list[k].ptr@ + list[k].size
            <= free_ptr
    &&& sorted_by_size(list)
}

/// A list without one of its blocks keeps the heap's bounds.
pub proof fn lemma_without_block(free_ptr: nat, list: Seq<IndexedAllocation>, k: int)
    requires
        bounds_hold(free_ptr, list),
        0 <= k < list.len(),
    ensures
        bounds_hold(free_ptr, list.remove(k)),
{
    let rest = list.remove(k);
    assert forall|i: int, j: int| 0 <= i <= j < rest.len() implies rest[i].size <= rest[j].size by {
        assert(rest[i] == list[if i < k { i } else { i + 1 }]);
        assert(rest[j] == list[if j < k { j } else { j + 1 }]);
    }
    assert forall|i: int| 0 <= i < rest.len() implies HEAP_BASE <= (#[trigger] rest[i]).ptr@ && rest[i].ptr@
        + rest[i].size <= free_ptr by {
        assert(rest[i] == list[if i < k { i } else { i + 1 }]);
    }
}

/// A list with one more block within the bounds keeps the heap's bounds.
pub proof fn lemma_with_block_bounds(free_ptr: nat, list: Seq<IndexedAllocation>, block: IndexedAllocation)
    requires
        bounds_hold(free_ptr, list),
        HEAP_BASE <= block.ptr@,
        block.ptr@ + block.size <= free_ptr,
    ensures
        bounds_hold(free_ptr, with_block(list, block)),
{
    lemma_with_block(list, block);
    let after = with_block(list, block);
    assert forall|i: int| 0 <= i < after.len() implies HEAP_BASE <= (#[trigger] after[i]).ptr@ && after[i].ptr@
        + after[i].size <= free_ptr by {
        if after[i] != block {
            let j = choose|j: int| 0 <= j < list.len() && list[j] == after[i];
            assert(HEAP_BASE <= list[j].ptr@);
        }
    }
}

/// The memory of a heap that is not in use: the fresh memory from
/// `free_ptr` on, and the free blocks in order of size.
pub struct FreeSpace {
    free_ptr: Pointer,
    free_list: Vec<IndexedAllocation>,
}

impl FreeSpace {
    /// The address from which fresh memory is taken.
    pub closed spec fn spec_free_ptr(&self) -> nat {
        self.free_ptr@
    }

    /// The free blocks, smallest first.
    pub closed spec fn spec_free_list(&self) -> Seq<IndexedAllocation> {
        self.free_list@
    }

    /// The heap's bounds hold. They do of every free space.
    #[verifier::type_invariant]
    pub open spec fn wf(&self) -> bool {
        bounds_hold(self.spec_free_ptr(), self.spec_free_list())
    }

    /// No free block, and fresh memory from `HEAP_BASE` on.
    pub fn new() -> (r: Self)
        ensures
            r.spec_free_ptr() == HEAP_BASE,
            r.spec_free_list() == Seq::<IndexedAllocation>::empty(),
    {
        FreeSpace { free_ptr: Pointer::new(HEAP_BASE), free_list: Vec::new() }
    }

    /// The address from which fresh memory is taken.
    pub fn free_ptr(&self) -> (r: Pointer)
        ensures
            r@ == self.spec_free_ptr(),
            self.wf(),
    {
        proof {
            use_type_invariant(self);
        }
        self.free_ptr
    }

    /// The number of free blocks.
    pub fn len(&self) -> (n: usize)
        ensures
            n == self.spec_free_list().len(),
    {
        self.free_list.len()
    }

    /// The free block at `index`.
    pub fn block(&self, index: usize) -> (block: IndexedAllocation)
        requires
            index < self.spec_free_list().len(),
        ensures
            block == self.spec_free_list()[index as int],
    {
        self.free_list[index]
    }

    /// The index of the smallest free block of at least `size` bytes, or
    /// the number of free blocks where none is that large.
    pub fn fit_index(&self, size: u32) -> (k: usize)
        ensures
            k == first_fit(self.spec_free_list(), size as nat, 0),
            k <= self.spec_free_list().len(),
    {
        let mut i: usize = 0;
        while i < self.free_list.len() && self.free_list[i].size < size
            invariant
                i <= self.free_list@.len(),
                first_fit(self.free_list@, size as nat, 0) == first_fit(self.free_list@, size as nat, i as int),
            decreases self.free_list@.len() - i,
        {
            i = i + 1;
        }
        i
    }

    /// Takes the smallest free block of at least `size` bytes out of the
    /// free list, if there is one.
    pub fn take_fit(&mut self, size: u32) -> (r: Option<IndexedAllocation>)
        ensures
            final(self).spec_free_ptr() == old(self).spec_free_ptr(),
            first_fit(old(self).spec_free_list(), size as nat, 0) < old(self).spec_free_list().len() ==> r
                == Some(old(self).spec_free_list()[first_fit(old(self).spec_free_list(), size as nat, 0)])
                && final(self).spec_free_list() == old(self).spec_free_list().remove(
                first_fit(old(self).spec_free_list(), size as nat, 0),
            ),
            first_fit(old(self).spec_free_list(), size as nat, 0) >= old(self).spec_free_list().len() ==> r.is_none()
                && final(self).spec_free_list() == old(self).spec_free_list(),
    {
        proof {
            use_type_invariant(&*self);
        }
        let k = self.fit_index(size);
        if k < self.free_list.len() {
            let mut taken = FreeSpace::new();
            core::mem::swap(self, &mut taken);
            let FreeSpace { free_ptr, mut free_list } = taken;
            proof {
                lemma_without_block(free_ptr@, free_list@, k as int);
            }
            let block = free_list.remove(k);
            *self = FreeSpace { free_ptr, free_list };
            Some(block)
        } else {
            None
        }
    }

    /// Puts `block`, which lies between `HEAP_BASE` and the fresh memory,
    /// into the free list, before the first block that is at least as
    /// large.
    pub fn insert_block(&mut self, block: IndexedAllocation)
        requires
            HEAP_BASE <= block.ptr@,
            block.ptr@ + block.size <= old(self).spec_free_ptr(),
        ensures
            final(self).spec_free_ptr() == old(self).spec_free_ptr(),
            final(self).spec_free_list() == with_block(old(self).spec_free_list(), block),
    {
        proof {
            use_type_invariant(&*self);
        }
        let k = self.fit_index(block.size);
        let mut taken = FreeSpace::new();
        core::mem::swap(self, &mut taken);
        let FreeSpace { free_ptr, mut free_list } = taken;
        proof {
            lemma_with_block_bounds(free_ptr@, free_list@, block);
        }
        free_list.insert(k, block);
        *self = FreeSpace { free_ptr, free_list };
    }

    /// Hands out the fresh memory at `free_ptr`, and moves `free_ptr` on by
    /// `sz` bytes, which must stay within what the machine addresses.
    pub fn bump(&mut self, sz: u32) -> (ptr: Pointer)
        requires
            old(self).spec_free_ptr() + sz <= usize::MAX,
        ensures
            ptr@ == old(self).spec_free_ptr(),
            final(self).spec_free_ptr() == old(self).spec_free_ptr() + sz,
            final(self).spec_free_list() == old(self).spec_free_list(),
    {
        proof {
            use_type_invariant(&*self);
        }
        let mut taken = FreeSpace::new();
        core::mem::swap(self, &mut taken);
        let FreeSpace { free_ptr, free_list } = taken;
        *self = FreeSpace { free_ptr: free_ptr.offset(sz), free_list };
        free_ptr
    }
}

/// The reference-counted heap. Its view is a `HeapView`, whose bounds hold
/// of every heap.
pub struct ContextHeap {
    memory: GrowableContiguousMemory,
    space: FreeSpace,
}

impl View for ContextHeap {
    type V = HeapView;

    closed spec fn view(&self) -> HeapView {
        HeapView {
            mem: self.memory@,
            free_ptr: self.space.spec_free_ptr(),
            free_list: self.space.spec_free_list(),
        }
    }
}

impl ContextHeap {
    /// An empty heap: no bytes, no free block, fresh memory from
    /// `HEAP_BASE` on.
    pub fn new() -> (r: Self)
        ensures
            r@.wf(),
            r@ == (HeapView {
                mem: Seq::<u8>::empty(),
                free_ptr: HEAP_BASE as nat,
                free_list: Seq::<IndexedAllocation>::empty(),
            }),
    {
        ContextHeap { memory: GrowableContiguousMemory::new(), space: FreeSpace::new() }
    }

    /// Tells that the heap's bounds hold, as they do of every heap.
    pub(crate) fn bounds(&self)
        ensures
            self@.wf(),
    {
        let at = self.space.free_ptr();
    }

    /// The number of free blocks.
    pub fn free_list_len(&self) -> (n: usize)
        ensures
            n == self@.free_list.len(),
    {
        self.space.len()
    }

    /// The free block at `index` of the free list.
    pub fn free_block(&self, index: usize) -> (block: IndexedAllocation)
        requires
            index < self@.free_list.len(),
        ensures
            block == self@.free_list[index as int],
    {
        self.space.block(index)
    }

    /// The address from which fresh memory is taken.
    pub fn free_ptr(&self) -> (r: Pointer)
        ensures
            r@ == self@.free_ptr,
            self@.wf(),
    {
        self.space.free_ptr()
    }

    /// The header at `ptr`.
    pub fn get_alloc(&self, ptr: Pointer) -> (r: HeapAllocation)
        ensures
            r.references.0 == refcount_at(self@.mem, ptr@),
            r.type_index@ == type_index_at(self@.mem, ptr@),
            r.num == num_at(self@.mem, ptr@),
            r.size == size_at(self@.mem, ptr@),
    {
        let bytes = self.memory.read_bytes(ptr, 16);
        proof {
            let mem = self@.mem;
            assert(mem_read(bytes@, 0, 4) =~= mem_read(mem, ptr@ as int, 4));
            assert(mem_read(bytes@, 4, 4) =~= mem_read(mem, ptr@ + 4 as int, 4));
            assert(mem_read(bytes@, 8, 4) =~= mem_read(mem, ptr@ + 8 as int, 4));
            assert(mem_read(bytes@, 12, 4) =~= mem_read(mem, ptr@ + 12 as int, 4));
        }
        HeapAllocation::from_memory(bytes.as_slice())
    }

    /// Writes the header `alloc` at `ptr`.
    fn memset(&mut self, ptr: Pointer, alloc: HeapAllocation)
        requires
            ptr@ + 16 <= usize::MAX,
        ensures
            final(self)@ == (HeapView {
                mem: mem_write(
                    old(self)@.mem,
                    ptr@ as int,
                    header_bytes(
                        alloc.references.0 as nat,
                        alloc.type_index@,
                        alloc.num as nat,
                        alloc.size as nat,
                    ),
                ),
                ..old(self)@
            }),
    {
        let bytes = alloc.be_bytes();
        self.memory.write_bytes(ptr, bytes.as_slice());
    }

    /// Takes the smallest free block of at least `req_size` bytes out of
    /// the free list, if there is one.
    fn try_free_list(&mut self, req_size: u32) -> (r: Option<IndexedAllocation>)
        ensures
            final(self)@.mem == old(self)@.mem,
            final(self)@.free_ptr == old(self)@.free_ptr,
            first_fit(old(self)@.free_list, req_size as nat, 0) < old(self)@.free_list.len() ==> r == Some(
                old(self)@.free_list[first_fit(old(self)@.free_list, req_size as nat, 0)],
            ) && final(self)@.free_list == old(self)@.free_list.remove(
                first_fit(old(self)@.free_list, req_size as nat, 0),
            ),
            first_fit(old(self)@.free_list, req_size as nat, 0) >= old(self)@.free_list.len() ==> r.is_none()
                && final(self)@.free_list == old(self)@.free_list,
    {
        self.space.take_fit(req_size)
    }

    /// Hands out the fresh memory at `free_ptr` and moves `free_ptr` on by
    /// `sz` bytes.
    fn bump(&mut self, sz: u32) -> (ptr: Pointer)
        requires
            old(self)@.free_ptr + sz <= usize::MAX,
        ensures
            ptr@ == old(self)@.free_ptr,
            final(self)@ == (HeapView { free_ptr: (old(self)@.free_ptr + sz) as nat, ..old(self)@ }),
    {
        self.space.bump(sz)
    }

    /// Clears the bytes of the allocation at `ptr`, whose header was
    /// `alloc`, and puts the block into the free list.
    fn deallocate(&mut self, ptr: Pointer, alloc: HeapAllocation)
        requires
            HEAP_BASE <= ptr@,
            ptr@ + alloc.size <= old(self)@.free_ptr,
        ensures
            final(self)@ == (HeapView {
                mem: mem_zero(old(self)@.mem, ptr@ as int, ptr@ + alloc.size),
                free_ptr: old(self)@.free_ptr,
                free_list: with_block(old(self)@.free_list, IndexedAllocation { ptr, size: alloc.size }),
            }),
    {
        let at = self.space.free_ptr();
        self.memory.zero(ptr, ptr.offset(alloc.size));
        self.space.insert_block(IndexedAllocation { ptr, size: alloc.size });
    }

    /// Writes the bytes of `value` at `ptr`, and reports as
    /// `GrowableContiguousMemory::store_value` does. The free list and the
    /// reference counts are not touched.
    pub fn store_value(&mut self, ptr: Pointer, value: Value) -> (r: StorageResult)
        requires
            value.spec_is_storable(),
            ptr@ + value.spec_size() <= usize::MAX,
        ensures
            final(self)@ == (HeapView {
                mem: mem_write(old(self)@.mem, ptr@ as int, value.spec_bytes()),
                ..old(self)@
            }),
            r == store_report(old(self)@.mem, ptr, value),
    {
        self.memory.store_value(ptr, value)
    }

    /// The value of the scalar type `value_type` that the bytes at `ptr`
    /// spell.
    pub fn read_value(&self, type_table: &TypeTable, ptr: Pointer, value_type: &ValueType) -> (r: Value)
        requires
            value_type.spec_is_primitive(),
        ensures
            r == value_type.spec_create_value(mem_read(self@.mem, ptr@ as int, value_type.spec_width())),
            r.spec_value_type_matches(*value_type),
    {
        self.memory.read_value(type_table, ptr, value_type)
    }

    /// The `len` bytes from `ptr` on.
    pub fn read_bytes(&self, ptr: Pointer, len: usize) -> (r: Vec<u8>)
        ensures
            r@ == mem_read(self@.mem, ptr@ as int, len as nat),
    {
        self.memory.read_bytes(ptr, len)
    }

    /// Clears the bytes from `from` up to `to`.
    pub fn zero(&mut self, from: Pointer, to: Pointer)
        ensures
            final(self)@ == (HeapView {
                mem: mem_zero(old(self)@.mem, from@ as int, to@ as int),
                ..old(self)@
            }),
    {
        self.memory.zero(from, to);
    }

    /// The size in bytes of an allocation of `n` elements of the type at
    /// `type_index`, header included, or `None` where it does not fit in
    /// 32 bits.
    pub fn allocation_size(type_table: &TypeTable, type_index: TypeIndex, n: u32) -> (r: Option<u32>)
        requires
            type_index@ < type_table.spec_len(),
        ensures
            r == (if HEADER_SIZE + n * type_table.spec_size(type_index@) <= u32::MAX {
                Some((HEADER_SIZE + n * type_table.spec_size(type_index@)) as u32)
            } else {
                None
            }),
    {
        let each: u32 = type_table.size(type_index);
        assert(n as u64 * each as u64 <= 0xFFFFFFFF * 0xFFFFFFFF) by (nonlinear_arith)
            requires
                n <= 0xFFFFFFFF,
                each <= 0xFFFFFFFF,
        ;
        let total: u64 = HEADER_SIZE as u64 + n as u64 * each as u64;
        if total <= u32::MAX as u64 {
            Some(total as u32)
        } else {
            None
        }
    }

    /// Whether an allocation of `size` bytes can be served.
    pub fn can_allocate(&self, size: u32) -> (r: bool)
        ensures
            r == self@.can_allocate(size as nat),
    {
        let k = self.space.fit_index(size);
        let at = self.space.free_ptr();
        k < self.space.len() || size as u64 <= u64::MAX - at.0 && at.0 + size as u64 <= usize::MAX as u64
    }

    /// Allocates `n` elements of the type at `type_index` and returns the
    /// address of the allocation's header, which counts one reference.
    pub fn allocate_n(&mut self, type_table: &TypeTable, type_index: TypeIndex, n: u32) -> (ptr: Pointer)
        requires
            type_index@ < type_table.spec_len(),
            HEADER_SIZE + n * type_table.spec_size(type_index@) <= u32::MAX,
            old(self)@.can_allocate((HEADER_SIZE + n * type_table.spec_size(type_index@)) as nat),
        ensures
            ptr@ == old(self)@.allocation_address((HEADER_SIZE + n * type_table.spec_size(type_index@)) as nat),
            final(self)@ == old(self)@.allocate(
                type_index@,
                n as nat,
                (HEADER_SIZE + n * type_table.spec_size(type_index@)) as nat,
            ),
            final(self)@.wf(),
            final(self)@.is_block(ptr@),
            ptr@ != 0,
            refcount_at(final(self)@.mem, ptr@) == 1,
            type_index_at(final(self)@.mem, ptr@) == type_index@,
            num_at(final(self)@.mem, ptr@) == n,
            size_at(final(self)@.mem, ptr@) == HEADER_SIZE + n * type_table.spec_size(type_index@),
    {
        let sz: u32 = Self::allocation_size(type_table, type_index, n).unwrap();
        let alloc = HeapAllocation::new(type_index, n, sz);
        self.bounds();
        proof {
            lemma_first_fit(self@.free_list, sz as nat, 0);
        }
        let raw: u32 = type_index.value();
        let ghost before = self@;
        let found = self.try_free_list(sz);
        match found {
            Some(free) => {
                let ghost k = first_fit(before.free_list, sz as nat, 0);
                assert(free == before.free_list[k]);
                let residual: u32 = free.size - sz;
                if residual > 0 {
                    let tail = IndexedAllocation { ptr: free.ptr.offset(sz), size: residual };
                    self.space.insert_block(tail);
                }
                self.memset(free.ptr, alloc);
                proof {
                    lemma_header_written(before.mem, free.ptr@, 1, type_index@, n as nat, sz as nat);
                    assert(self@.free_list == before.allocate(type_index@, n as nat, sz as nat).free_list);
                }
                self.bounds();
                free.ptr
            },
            None => {
                let at = self.space.free_ptr();
                self.memset(at, alloc);
                proof {
                    lemma_header_written(before.mem, at@, 1, type_index@, n as nat, sz as nat);
                }
                let ptr = self.bump(sz);
                self.bounds();
                ptr
            },
        }
    }

    /// Allocates one element of the type at `type_index`.
    pub fn allocate(&mut self, type_table: &TypeTable, type_index: TypeIndex) -> (ptr: Pointer)
        requires
            type_index@ < type_table.spec_len(),
            HEADER_SIZE + type_table.spec_size(type_index@) <= u32::MAX,
            old(self)@.can_allocate((HEADER_SIZE + type_table.spec_size(type_index@)) as nat),
        ensures
            ptr@ == old(self)@.allocation_address((HEADER_SIZE + type_table.spec_size(type_index@)) as nat),
            final(self)@ == old(self)@.allocate(
                type_index@,
                1,
                (HEADER_SIZE + type_table.spec_size(type_index@)) as nat,
            ),
            final(self)@.wf(),
            final(self)@.is_block(ptr@),
            ptr@ != 0,
            refcount_at(final(self)@.mem, ptr@) == 1,
    {
        assert(1 * type_table.spec_size(type_index@) == type_table.spec_size(type_index@));
        self.allocate_n(type_table, type_index, 1)
    }

    /// The definition of the type whose index the header at `ptr` holds.
    /// That index must be in the table.
    pub fn type_of<'a>(&self, type_table: &'a TypeTable, ptr: Pointer) -> (r: &'a TypeDefinition)
        requires
            type_index_at(self@.mem, ptr@) < type_table.spec_len(),
        ensures
            *r == type_table.spec_get(type_index_at(self@.mem, ptr@)),
    {
        let alloc = self.get_alloc(ptr);
        type_table.get(alloc.type_index)
    }

    /// Whether `ptr` can be the header of an allocation of this heap.
    pub fn is_block(&self, ptr: Pointer) -> (r: bool)
        ensures
            r == self@.is_block(ptr@),
    {
        let alloc = self.get_alloc(ptr);
        let at = self.space.free_ptr();
        ptr.0 >= HEAP_BASE && alloc.size >= HEADER_SIZE && alloc.size as u64 <= u64::MAX - ptr.0 && ptr.0
            + alloc.size as u64 <= at.0
    }

    /// Whether the header at `ptr` counts a reference.
    pub fn is_allocation_valid(&self, ptr: Pointer) -> (r: bool)
        ensures
            r == (refcount_at(self@.mem, ptr@) > 0),
    {
        let bytes = self.memory.read_bytes(ptr, 4);
        decode(bytes.as_slice()) > 0
    }

    /// The number of references that the header at `ptr` counts.
    pub fn reference_count(&self, ptr: Pointer) -> (r: u32)
        ensures
            r == refcount_at(self@.mem, ptr@),
    {
        self.get_alloc(ptr).references.reference_count()
    }

    /// Whether a reference to `ptr` can be counted.
    pub fn can_add(&self, ptr: Pointer) -> (r: bool)
        ensures
            r == self@.can_add(ptr@),
    {
        self.is_block(ptr) && self.reference_count(ptr) < MAX_REFERENCES
    }

    /// Whether a reference to `ptr` can be taken away.
    pub fn can_remove(&self, ptr: Pointer) -> (r: bool)
        ensures
            r == self@.can_remove(ptr@),
    {
        self.is_block(ptr) && self.reference_count(ptr) > 0
    }

    /// Counts one reference more to the allocation at `ptr`, whose count
    /// must be below `MAX_REFERENCES`.
    pub fn add_reference(&mut self, ptr: Pointer)
        requires
            old(self)@.can_add(ptr@),
        ensures
            final(self)@ == old(self)@.add_reference(ptr@),
            final(self)@.wf(),
            final(self)@.is_block(ptr@),
            refcount_at(final(self)@.mem, ptr@) == refcount_at(old(self)@.mem, ptr@) + 1,
    {
        self.bounds();
        let mut alloc = self.get_alloc(ptr);
        alloc.references.increment();
        let bytes = alloc.references.be_bytes();
        proof {
            lemma_refcount_written(self@.mem, ptr@, alloc.references.0 as nat);
            lemma_be_bytes_len(alloc.references.0 as nat, 4);
        }
        self.memory.write_bytes(ptr, bytes.as_slice());
    }

    /// Counts one reference less to the allocation at `ptr`, which must
    /// count one at least. The allocation is freed exactly when that was
    /// its last reference.
    pub fn remove_reference(&mut self, ptr: Pointer)
        requires
            old(self)@.can_remove(ptr@),
        ensures
            final(self)@ == old(self)@.remove_reference(ptr@),
            final(self)@.wf(),
            refcount_at(final(self)@.mem, ptr@) == refcount_at(old(self)@.mem, ptr@) - 1,
    {
        self.bounds();
        let mut alloc = self.get_alloc(ptr);
        alloc.references.decrement();
        if alloc.has_live_references() {
            let bytes = alloc.references.be_bytes();
            proof {
                lemma_refcount_written(self@.mem, ptr@, alloc.references.0 as nat);
                lemma_be_bytes_len(alloc.references.0 as nat, 4);
            }
            self.memory.write_bytes(ptr, bytes.as_slice());
        } else {
            let ghost before = self@;
            self.deallocate(ptr, alloc);
            proof {
                lemma_zeroed_reads_zero(before.mem, ptr@ as int, ptr@ + alloc.size, ptr@ as int, 4);
            }
            self.bounds();
        }
    }

    /// Counts the references of a slot that held `prev` and now holds
    /// `new`: one more to `new`, then one less to `prev`, each only where
    /// the pointer is not null.
    pub fn replace_reference(&mut self, prev: Pointer, new: Pointer)
        requires
            old(self)@.can_replace(prev@, new@),
        ensures
            final(self)@ == old(self)@.replace_reference(prev@, new@),
            final(self)@.wf(),
    {
        self.bounds();
        let ghost before = self@;
        if new.is_valid_allocation() {
            self.add_reference(new);
            proof {
                let count = (refcount_at(before.mem, new@) + 1) as nat;
                lemma_refcount_written(before.mem, new@, count);
                lemma_be_bytes_len(count, 4);
                if prev@ != 0 && prev@ != new@ {
                    let bytes = be_bytes(count, 4);
                    lemma_read_unwritten(before.mem, new@ as int, bytes, prev@ as int, 4);
                    lemma_read_unwritten(before.mem, new@ as int, bytes, prev@ + 12 as int, 4);
                }
            }
        }
        if prev.is_valid_allocation() {
            self.remove_reference(prev);
        }
    }

    /// Whether the references of `replace_reference` can be counted.
    pub fn can_replace(&self, prev: Pointer, new: Pointer) -> (r: bool)
        ensures
            r == self@.can_replace(prev@, new@),
    {
        if new.is_valid_allocation() {
            if !(self.is_block(new) && self.reference_count(new) < MAX_REFERENCES) {
                return false;
            }
        }
        if prev.is_valid_allocation() {
            if !(self.is_block(prev) && self.reference_count(prev) > 0) {
                return false;
            }
            if new.is_valid_allocation() && prev.0 != new.0 {
                let below = new.0 <= u64::MAX - 4 && new.0 + 4 <= prev.0;
                let above = prev.0 <= u64::MAX - 16 && prev.0 + 16 <= new.0;
                return below || above;
            }
        }
        true
    }
}

/// Bytes read from a cleared range are zero, and so is the number they
/// spell.
pub proof fn lemma_zeroed_reads_zero(mem: Seq<u8>, from: int, to: int, at: int, len: nat)
    requires
        from <= at,
        at + len <= to,
    ensures
        be_value(mem_read(mem_zero(mem, from, to), at, len)) == 0,
    decreases len,
{
    let bytes = mem_read(mem_zero(mem, from, to), at, len);
    if len > 0 {
        lemma_zeroed_reads_zero(mem, from, to, at, (len - 1) as nat);
        assert(bytes.drop_last() =~= mem_read(mem_zero(mem, from, to), at, (len - 1) as nat));
        assert(bytes.last() == 0);
    }
}

/// Whether `block` is on the free list.
pub open spec fn is_free(list: Seq<IndexedAllocation>, block: IndexedAllocation) -> bool {
    exists|k: int| 0 <= k < list.len() && list[k] == block
}

/// A block put on the free list is on it, and so is every block that was.
pub proof fn lemma_with_block_is_free(
    list: Seq<IndexedAllocation>,
    block: IndexedAllocation,
    other: IndexedAllocation,
)
    ensures
        is_free(with_block(list, block), block),
        is_free(list, other) ==> is_free(with_block(list, block), other),
{
    let at = first_fit(list, block.size as nat, 0);
    lemma_first_fit(list, block.size as nat, 0);
    let after = with_block(list, block);
    assert(after[at] == block);
    if is_free(list, other) {
        let k = choose|k: int| 0 <= k < list.len() && list[k] == other;
        if k < at {
            assert(after[k] == other);
        } else {
            assert(after[k + 1] == other);
        }
    }
}

/// An allocation counts one reference: the header written at the
/// allocation's address holds the count `1`, the type index, the number of
/// elements and the size, and the heap's bounds hold afterwards.
pub proof fn lemma_allocation_counts_one(heap: HeapView, type_index: nat, num: nat, size: nat)
    requires
        heap.wf(),
        type_index < 0x1000000,
        num <= u32::MAX,
        HEADER_SIZE <= size <= u32::MAX,
        heap.can_allocate(size),
    ensures
        refcount_at(heap.allocate(type_index, num, size).mem, heap.allocation_address(size)) == 1,
        type_index_at(heap.allocate(type_index, num, size).mem, heap.allocation_address(size)) == type_index,
        num_at(heap.allocate(type_index, num, size).mem, heap.allocation_address(size)) == num,
        size_at(heap.allocate(type_index, num, size).mem, heap.allocation_address(size)) == size,
        heap.allocate(type_index, num, size).is_block(heap.allocation_address(size)),
        heap.allocate(type_index, num, size).wf(),
        heap.allocation_address(size) != 0,
{
    lemma_first_fit(heap.free_list, size, 0);
    lemma_header_written(heap.mem, heap.allocation_address(size), 1, type_index, num, size);
    let k = first_fit(heap.free_list, size, 0);
    if k < heap.free_list.len() {
        let block = heap.free_list[k];
        lemma_without_block(heap.free_ptr, heap.free_list, k);
        if block.size > size {
            lemma_with_block_bounds(
                heap.free_ptr,
                heap.free_list.remove(k),
                IndexedAllocation {
                    ptr: Pointer((block.ptr@ + size) as u64),
                    size: (block.size - size) as u32,
                },
            );
        }
    }
}

/// A reference to a live allocation that is added and then removed leaves
/// the heap as it was.
pub proof fn lemma_add_then_remove(heap: HeapView, ptr: nat)
    requires
        heap.can_add(ptr),
        refcount_at(heap.mem, ptr) > 0,
    ensures
        heap.add_reference(ptr).can_remove(ptr),
        refcount_at(heap.add_reference(ptr).mem, ptr) == refcount_at(heap.mem, ptr) + 1,
        heap.add_reference(ptr).remove_reference(ptr) == heap,
{
    let count = refcount_at(heap.mem, ptr);
    let added = heap.add_reference(ptr);
    lemma_refcount_written(heap.mem, ptr, count + 1);
    lemma_be_bytes_len(count + 1, 4);
    lemma_be_bytes_len(count, 4);
    let removed = added.remove_reference(ptr);
    lemma_header_in_memory(heap.mem, ptr);
    lemma_bytes_of_value(mem_read(heap.mem, ptr as int, 4));
    assert forall|i: int| 0 <= i < heap.mem.len() implies removed.mem[i] == heap.mem[i] by {
        if ptr <= i < ptr + 4 {
            assert(mem_read(heap.mem, ptr as int, 4)[i - ptr] == heap.mem[i]);
        }
    }
    assert(removed.mem =~= heap.mem);
}

/// Removing a reference counts one less, and frees the allocation exactly
/// when the count reaches zero: then the block is on the free list and all
/// its bytes are zero; otherwise the free list is as before and the block
/// stays a block.
pub proof fn lemma_freed_exactly_at_zero(heap: HeapView, ptr: nat)
    requires
        heap.wf(),
        heap.can_remove(ptr),
    ensures
        heap.remove_reference(ptr).wf(),
        refcount_at(heap.remove_reference(ptr).mem, ptr) == refcount_at(heap.mem, ptr) - 1,
        refcount_at(heap.mem, ptr) == 1 ==> is_free(
            heap.remove_reference(ptr).free_list,
            IndexedAllocation { ptr: Pointer(ptr as u64), size: size_at(heap.mem, ptr) as u32 },
        ) && forall|a: int|
            ptr <= a < ptr + size_at(heap.mem, ptr) ==> mem_byte(heap.remove_reference(ptr).mem, a) == 0,
        refcount_at(heap.mem, ptr) > 1 ==> heap.remove_reference(ptr).free_list == heap.free_list
            && heap.remove_reference(ptr).is_block(ptr),
{
    let count = refcount_at(heap.mem, ptr);
    let size = size_at(heap.mem, ptr);
    let after = heap.remove_reference(ptr);
    lemma_radix_values();
    lemma_be_value_bound(mem_read(heap.mem, ptr as int, 4));
    lemma_be_value_bound(mem_read(heap.mem, ptr + 12 as int, 4));
    if count > 1 {
        lemma_refcount_written(heap.mem, ptr, (count - 1) as nat);
    } else {
        let block = IndexedAllocation { ptr: Pointer(ptr as u64), size: size as u32 };
        lemma_with_block(heap.free_list, block);
        lemma_with_block_is_free(heap.free_list, block, block);
        let list = with_block(heap.free_list, block);
        assert forall|i: int| 0 <= i < list.len() implies HEAP_BASE <= (#[trigger] list[i]).ptr@ && list[i].ptr@
            + list[i].size <= heap.free_ptr by {
            if list[i] != block {
                let j = choose|j: int| 0 <= j < heap.free_list.len() && heap.free_list[j] == list[i];
                assert(HEAP_BASE <= heap.free_list[j].ptr@);
            }
        }
        lemma_zeroed_reads_zero(heap.mem, ptr as int, ptr + size as int, ptr as int, 4);
    }
}

/// The header of a block lies within the bytes that the memory holds.
pub proof fn lemma_header_in_memory(mem: Seq<u8>, ptr: nat)
    requires
        HEADER_SIZE <= size_at(mem, ptr),
    ensures
        ptr + 12 < mem.len(),
{
    if ptr + 12 >= mem.len() {
        lemma_all_zero(mem_read(mem, ptr + 12 as int, 4));
    }
}

/// Bytes that are all zero spell zero.
pub proof fn lemma_all_zero(bytes: Seq<u8>)
    requires
        forall|i: int| 0 <= i < bytes.len() ==> bytes[i] == 0,
    ensures
        be_value(bytes) == 0,
    decreases bytes.len(),
{
    if bytes.len() > 0 {
        lemma_all_zero(bytes.drop_last());
    }
}

impl Default for ContextHeap {
    fn default() -> (r: Self)
        ensures
            r@.wf(),
            r@.mem == Seq::<u8>::empty(),
    {
        Self::new()
    }
}

impl Memory for ContextHeap {
    open spec fn bytes(&self) -> Seq<u8> {
        self@.mem
    }

    fn store_value(&mut self, ptr: Pointer, value: Value) -> (r: StorageResult) {
        ContextHeap::store_value(self, ptr, value)
    }

    fn read_value(&self, type_table: &TypeTable, ptr: Pointer, value_type: &ValueType) -> (r: Value) {
        ContextHeap::read_value(self, type_table, ptr, value_type)
    }

    fn zero(&mut self, from: Pointer, to: Pointer) {
        ContextHeap::zero(self, from, to)
    }
}

impl DynamicMemory for ContextHeap {
    open spec fn heap(&self) -> HeapView {
        self@
    }

    fn allocate_n(&mut self, type_table: &TypeTable, type_index: TypeIndex, n: u32) -> (ptr: Pointer) {
        ContextHeap::allocate_n(self, type_table, type_index, n)
    }

    fn type_of<'a>(&self, type_table: &'a TypeTable, ptr: Pointer) -> (r: &'a TypeDefinition) {
        ContextHeap::type_of(self, type_table, ptr)
    }

    fn add_reference(&mut self, idx: Pointer) {
        ContextHeap::add_reference(self, idx)
    }

    fn remove_reference(&mut self, idx: Pointer) {
        ContextHeap::remove_reference(self, idx)
    }

    fn replace_reference(&mut self, prev: Pointer, new: Pointer) {
        ContextHeap::replace_reference(self, prev, new)
    }

    fn is_allocation_valid(&self, idx: Pointer) -> (r: bool) {
        ContextHeap::is_allocation_valid(self, idx)
    }
}

} // verus!
