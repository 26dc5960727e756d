use vstd::prelude::*;
use crate::data_type::{lemma_flattened_layout, FieldView, TypeTable};
use crate::fault::Fault;
use crate::memory::Pointer;
use crate::util::index::LocalIndex;
use crate::value::ValueType;

verus! {

/// The sum of the byte sizes of the first `n` types.
pub open spec fn layout_size(types: Seq<ValueType>, type_table: &TypeTable, n: int) -> nat
    decreases n,
{
    if n <= 0 {
        0
    } else {
        layout_size(types, type_table, n - 1) + types[n - 1].spec_size(type_table)
    }
}

/// The offsets from the start of the locals of those of the first `n`
/// fields of a record at offset `base` that hold heap pointers.
pub open spec fn embedded_heap_offsets(fields: Seq<FieldView>, base: u32, n: int) -> Seq<u32>
    decreases n,
{
    if n <= 0 {
        Seq::<u32>::empty()
    } else if fields[n - 1].value_type is HeapData {
        embedded_heap_offsets(fields, base, n - 1).push((base + fields[n - 1].offset) as u32)
    } else {
        embedded_heap_offsets(fields, base, n - 1)
    }
}

/// The offsets of the heap pointers that a slot of the given type at the
/// given offset holds: the slot itself where it is a heap pointer, and the
/// flattened fields that are heap pointers where it is an embedded record.
pub open spec fn slot_heap_offsets(value_type: ValueType, offset: u32, type_table: &TypeTable) -> Seq<u32> {
    match value_type {
        ValueType::HeapData(_) => seq![offset],
        ValueType::LocalData(idx) => embedded_heap_offsets(
            type_table.spec_get(idx@).spec_flattened(),
            offset,
            type_table.spec_get(idx@).spec_flattened().len() as int,
        ),
        _ => Seq::<u32>::empty(),
    }
}

/// The offsets of the heap pointers that the first `n` slots hold, in
/// slot order.
pub open spec fn heap_slot_offsets(types: Seq<ValueType>, offsets: Seq<u32>, type_table: &TypeTable, n: int) -> Seq<
    u32,
>
    decreases n,
{
    if n <= 0 {
        Seq::<u32>::empty()
    } else {
        heap_slot_offsets(types, offsets, type_table, n - 1) + slot_heap_offsets(
            types[n - 1],
            offsets[n - 1],
            type_table,
        )
    }
}

/// The layout of a function's locals: for each slot its type and its byte
/// offset from the base of the frame's locals, and the offsets at which the
/// locals hold heap pointers, in slots of their own or within embedded
/// records.
pub struct LocalSlots {
    types: Vec<ValueType>,
    heap_offsets: Vec<u32>,
    offsets: Vec<u32>,
    end: u32,
}

impl LocalSlots {
    /// The type of each slot.
    pub closed spec fn spec_types(&self) -> Seq<ValueType> {
        self.types@
    }

    /// The offset of each slot.
    pub closed spec fn spec_offsets(&self) -> Seq<u32> {
        self.offsets@
    }

    /// The offsets at which the locals hold heap pointers, in slot order.
    pub closed spec fn spec_heap_offsets(&self) -> Seq<u32> {
        self.heap_offsets@
    }

    /// The number of bytes that the slots take together.
    pub closed spec fn spec_total_size(&self) -> nat {
        self.end as nat
    }

    /// There is one offset for each slot, at most as many slots as a 24-bit
    /// immediate can name, and every heap pointer lies within the locals.
    /// Every layout is so.
    #[verifier::type_invariant]
    pub open spec fn coherent(&self) -> bool {
        &&& self.spec_offsets().len() == self.spec_types().len()
        &&& self.spec_types().len() <= 0x1000000
        &&& forall|k: int|
            0 <= k < self.spec_heap_offsets().len() ==> (#[trigger] self.spec_heap_offsets()[k]) + 8
                <= self.spec_total_size()
    }

    /// The layout is packed: each slot starts where the one before ends,
    /// sizes taken from `type_table`, and the heap offsets are those of the
    /// heap pointers that the slots hold.
    pub open spec fn wf(&self, type_table: &TypeTable) -> bool {
        let types = self.spec_types();
        let offsets = self.spec_offsets();
        &&& offsets.len() == types.len()
        &&& types.len() <= 0x1000000
        &&& self.spec_total_size() <= u32::MAX
        &&& forall|i: int| 0 <= i < types.len() ==> (#[trigger] types[i]).known_in(type_table)
        &&& forall|i: int| 0 <= i < types.len() ==> (#[trigger] offsets[i]) == layout_size(types, type_table, i)
        &&& self.spec_total_size() == layout_size(types, type_table, types.len() as int)
        &&& self.spec_heap_offsets() == heap_slot_offsets(types, offsets, type_table, types.len() as int)
    }

    pub fn new() -> (r: Self)
        ensures
            r.spec_types() == Seq::<ValueType>::empty(),
            r.spec_offsets() == Seq::<u32>::empty(),
            r.spec_heap_offsets() == Seq::<u32>::empty(),
            r.spec_total_size() == 0,
            r.coherent(),
            forall|type_table: &TypeTable| r.wf(type_table),
    {
        LocalSlots { types: Vec::new(), heap_offsets: Vec::new(), offsets: Vec::new(), end: 0 }
    }

    /// The number of slots.
    pub fn len(&self) -> (n: usize)
        ensures
            n == self.spec_types().len(),
    {
        self.types.len()
    }

    /// Appends a slot of the given type, at the offset that was the total
    /// size. A layout that was packed by `type_table` stays so.
    pub fn add_slot(&mut self, type_table: &TypeTable, value_type: ValueType)
        requires
            value_type.known_in(type_table),
            old(self).spec_types().len() < 0x1000000,
            old(self).spec_total_size() + value_type.spec_size(type_table) <= u32::MAX,
        ensures
            final(self).coherent(),
            old(self).wf(type_table) ==> final(self).wf(type_table),
            final(self).spec_types() == old(self).spec_types().push(value_type),
            final(self).spec_offsets() == old(self).spec_offsets().push(old(self).spec_total_size() as u32),
            final(self).spec_heap_offsets() == old(self).spec_heap_offsets() + slot_heap_offsets(
                value_type,
                old(self).spec_total_size() as u32,
                type_table,
            ),
            final(self).spec_total_size() == old(self).spec_total_size() + value_type.spec_size(type_table),
    {
        proof {
            use_type_invariant(&*self);
            use_type_invariant(type_table);
        }
        let mut taken = LocalSlots::new();
        core::mem::swap(self, &mut taken);
        let LocalSlots { mut types, mut heap_offsets, mut offsets, end } = taken;
        let ghost types0 = types@;
        let ghost offsets0 = offsets@;
        let ghost heap0 = heap_offsets@;
        let base: u32 = end;
        let size: u32 = value_type.size(type_table);
        types.push(value_type);
        offsets.push(base);
        match value_type {
            ValueType::HeapData(_) => {
                heap_offsets.push(base);
                assert(heap_offsets@ =~= heap0 + slot_heap_offsets(value_type, base, type_table));
            },
            ValueType::LocalData(type_index) => {
                let definition = type_table.get(type_index);
                let n: u32 = definition.num_fields();
                let ghost fields = definition.spec_flattened();
                proof {
                    lemma_flattened_layout(definition);
                }
                let mut i: u32 = 0;
                while i < n
                    invariant
                        i <= n,
                        n == fields.len(),
                        fields == definition.spec_flattened(),
                        base + definition.spec_total_size() <= u32::MAX,
                        forall|k: int|
                            0 <= k < fields.len() ==> (#[trigger] fields[k]).offset
                                + fields[k].value_type.spec_width() <= definition.spec_total_size(),
                        heap_offsets@ == heap0 + embedded_heap_offsets(fields, base, i as int),
                    decreases n - i,
                {
                    let entry = definition.get(i);
                    if let ValueType::HeapData(_) = entry.0.value_type() {
                        heap_offsets.push(base + entry.1);
                    }
                    i = i + 1;
                    assert(heap_offsets@ =~= heap0 + embedded_heap_offsets(fields, base, i as int));
                }
                proof {
                    lemma_embedded_heap_offsets_bounded(
                        fields,
                        base,
                        definition.spec_total_size(),
                        fields.len() as int,
                    );
                }
            },
            _ => {
                assert(heap_offsets@ =~= heap0 + slot_heap_offsets(value_type, base, type_table));
            },
        }
        proof {
            let grown = LocalSlots { types, heap_offsets, offsets, end: (base + size) as u32 };
            let added = slot_heap_offsets(value_type, base, type_table);
            assert forall|k: int| 0 <= k < heap_offsets@.len() implies (#[trigger] heap_offsets@[k]) + 8 <= base
                + size by {
                if k < heap0.len() {
                    assert(heap_offsets@[k] == old(self).spec_heap_offsets()[k]);
                } else {
                    assert(heap_offsets@[k] == added[k - heap0.len()]);
                }
            }
            assert(grown.coherent());
            if old(self).wf(type_table) {
                let n = types0.len() as int;
                assert forall|i: int| 0 <= i <= n implies layout_size(types@, type_table, i) == layout_size(
                    types0,
                    type_table,
                    i,
                ) by {
                    lemma_layout_size_prefix(types0, types@, type_table, i);
                }
                lemma_heap_slot_offsets_prefix(types0, offsets0, types@, offsets@, type_table, n);
                assert forall|i: int| 0 <= i < types@.len() implies (#[trigger] offsets@[i]) == layout_size(
                    types@,
                    type_table,
                    i,
                ) by {
                    if i < n {
                        assert(offsets@[i] == offsets0[i]);
                    }
                }
                assert forall|i: int| 0 <= i < types@.len() implies (#[trigger] types@[i]).known_in(
                    type_table,
                ) by {
                    if i < n {
                        assert(types@[i] == types0[i]);
                    }
                }
                assert(grown.wf(type_table));
            }
        }
        *self = LocalSlots { types, heap_offsets, offsets, end: base + size };
    }

    /// The fault for which a slot of the given type cannot be added, if it
    /// cannot: the type is not in the table, there are as many slots as a
    /// 24-bit immediate can name, or the total size would leave 32 bits.
    pub open spec fn slot_fault(&self, type_table: &TypeTable, value_type: ValueType) -> Option<Fault> {
        if !value_type.known_in(type_table) || self.spec_types().len() >= 0x1000000 {
            Some(Fault::IndexOutOfRange)
        } else if self.spec_total_size() + value_type.spec_size(type_table) > u32::MAX {
            Some(Fault::ArithmeticOverflow)
        } else {
            None
        }
    }

    /// Appends a slot as `add_slot` does, or rejects it and leaves the
    /// layout as it was.
    pub fn try_add_slot(&mut self, type_table: &TypeTable, value_type: ValueType) -> (r: Result<(), Fault>)
        ensures
            final(self).coherent(),
            old(self).wf(type_table) ==> final(self).wf(type_table),
            match old(self).slot_fault(type_table, value_type) {
                Some(fault) => r == Err::<(), Fault>(fault) && *final(self) == *old(self),
                None => {
                    &&& r.is_ok()
                    &&& final(self).spec_types() == old(self).spec_types().push(value_type)
                    &&& final(self).spec_offsets() == old(self).spec_offsets().push(
                        old(self).spec_total_size() as u32,
                    )
                    &&& final(self).spec_heap_offsets() == old(self).spec_heap_offsets() + slot_heap_offsets(
                        value_type,
                        old(self).spec_total_size() as u32,
                        type_table,
                    )
                    &&& final(self).spec_total_size() == old(self).spec_total_size() + value_type.spec_size(
                        type_table,
                    )
                },
            },
    {
        proof {
            use_type_invariant(&*self);
        }
        if let ValueType::LocalData(idx) = value_type {
            if idx.as_usize() >= type_table.len() {
                return Err(Fault::IndexOutOfRange);
            }
        }
        if self.types.len() >= 0x1000000 {
            return Err(Fault::IndexOutOfRange);
        }
        if value_type.size(type_table) > u32::MAX - self.end {
            return Err(Fault::ArithmeticOverflow);
        }
        self.add_slot(type_table, value_type);
        Ok(())
    }

    /// The number of bytes that the slots take together.
    pub fn total_size(&self, type_table: &TypeTable) -> (r: u32)
        ensures
            r == self.spec_total_size(),
    {
        self.end
    }

    /// The address just past locals that start at `ptr`.
    pub fn allocate(&self, type_table: &TypeTable, ptr: Pointer) -> (r: Pointer)
        requires
            ptr@ + self.spec_total_size() <= u64::MAX,
        ensures
            r@ == ptr@ + self.spec_total_size(),
    {
        ptr.offset(self.total_size(type_table))
    }

    /// The type of slot `slot_index` and its address in locals that start
    /// at `ptr`.
    pub fn slot_info(&self, slot_index: LocalIndex, ptr: Pointer) -> (r: (ValueType, Pointer))
        requires
            slot_index@ < self.spec_types().len(),
            ptr@ + self.spec_offsets()[slot_index@ as int] <= u64::MAX,
        ensures
            r.0 == self.spec_types()[slot_index@ as int],
            r.1@ == ptr@ + self.spec_offsets()[slot_index@ as int],
    {
        proof {
            use_type_invariant(self);
        }
        let idx: usize = slot_index.as_usize();
        let bytes: u32 = self.offsets[idx];
        (self.types[idx], ptr.offset(bytes))
    }

    /// The offset of slot `slot_index`.
    pub fn offset_of(&self, slot_index: LocalIndex) -> (r: u32)
        requires
            slot_index@ < self.spec_types().len(),
        ensures
            r == self.spec_offsets()[slot_index@ as int],
            slot_index@ < self.spec_offsets().len(),
    {
        proof {
            use_type_invariant(self);
        }
        self.offsets[slot_index.as_usize()]
    }

    /// The type of slot `slot_index`.
    pub fn type_of(&self, slot_index: LocalIndex) -> (r: ValueType)
        requires
            slot_index@ < self.spec_types().len(),
        ensures
            r == self.spec_types()[slot_index@ as int],
    {
        self.types[slot_index.as_usize()]
    }

    /// The offsets at which the locals hold heap pointers.
    pub fn heap_offsets(&self) -> (r: &[u32])
        ensures
            r@ == self.spec_heap_offsets(),
            self.coherent(),
    {
        proof {
            use_type_invariant(self);
        }
        self.heap_offsets.as_slice()
    }
}

/// The sizes summed over a prefix do not depend on what follows it.
pub proof fn lemma_layout_size_prefix(
    short: Seq<ValueType>,
    long: Seq<ValueType>,
    type_table: &TypeTable,
    n: int,
)
    requires
        n <= short.len() <= long.len(),
        forall|i: int| 0 <= i < short.len() ==> short[i] == long[i],
    ensures
        layout_size(long, type_table, n) == layout_size(short, type_table, n),
    decreases n,
{
    if n > 0 {
        lemma_layout_size_prefix(short, long, type_table, n - 1);
    }
}

/// The heap offsets of a prefix do not depend on what follows it.
pub proof fn lemma_heap_slot_offsets_prefix(
    short_types: Seq<ValueType>,
    short_offsets: Seq<u32>,
    long_types: Seq<ValueType>,
    long_offsets: Seq<u32>,
    type_table: &TypeTable,
    n: int,
)
    requires
        n <= short_types.len() <= long_types.len(),
        short_offsets.len() == short_types.len(),
        long_offsets.len() == long_types.len(),
        forall|i: int| 0 <= i < short_types.len() ==> short_types[i] == long_types[i],
        forall|i: int| 0 <= i < short_types.len() ==> short_offsets[i] == long_offsets[i],
    ensures
        heap_slot_offsets(long_types, long_offsets, type_table, n) == heap_slot_offsets(
            short_types,
            short_offsets,
            type_table,
            n,
        ),
    decreases n,
{
    if n > 0 {
        lemma_heap_slot_offsets_prefix(short_types, short_offsets, long_types, long_offsets, type_table, n - 1);
    }
}

/// The heap pointers of an embedded record lie within the record.
pub proof fn lemma_embedded_heap_offsets_bounded(fields: Seq<FieldView>, base: u32, size: nat, n: int)
    requires
        0 <= n <= fields.len(),
        base + size <= u32::MAX,
        forall|k: int|
            0 <= k < fields.len() ==> (#[trigger] fields[k]).offset + fields[k].value_type.spec_width() <= size,
    ensures
        forall|k: int|
            0 <= k < embedded_heap_offsets(fields, base, n).len() ==> base <= (#[trigger] embedded_heap_offsets(
                fields,
                base,
                n,
            )[k]) && embedded_heap_offsets(fields, base, n)[k] + 8 <= base + size,
    decreases n,
{
    if n > 0 {
        lemma_embedded_heap_offsets_bounded(fields, base, size, n - 1);
        let before = embedded_heap_offsets(fields, base, n - 1);
        let now = embedded_heap_offsets(fields, base, n);
        assert forall|k: int| 0 <= k < now.len() implies base <= (#[trigger] now[k]) && now[k] + 8 <= base
            + size by {
            if k < before.len() {
                assert(now[k] == before[k]);
            } else {
                assert(fields[n - 1].value_type is HeapData);
                assert(fields[n - 1].offset + fields[n - 1].value_type.spec_width() <= size);
            }
        }
    }
}

/// Whether `later` holds every type of `earlier` at the same index.
pub open spec fn extends(later: &TypeTable, earlier: &TypeTable) -> bool {
    &&& earlier.spec_len() <= later.spec_len()
    &&& forall|i: nat| i < earlier.spec_len() ==> #[trigger] later.spec_get(i) == earlier.spec_get(i)
}

/// The sizes of types and the heap pointers they hold are the same in a
/// table to which types were added.
pub proof fn lemma_layout_in_later_table(
    types: Seq<ValueType>,
    offsets: Seq<u32>,
    earlier: &TypeTable,
    later: &TypeTable,
    n: int,
)
    requires
        0 <= n <= types.len(),
        offsets.len() == types.len(),
        extends(later, earlier),
        forall|i: int| 0 <= i < types.len() ==> (#[trigger] types[i]).known_in(earlier),
    ensures
        layout_size(types, later, n) == layout_size(types, earlier, n),
        heap_slot_offsets(types, offsets, later, n) == heap_slot_offsets(types, offsets, earlier, n),
    decreases n,
{
    if n > 0 {
        lemma_layout_in_later_table(types, offsets, earlier, later, n - 1);
        assert(types[n - 1].known_in(earlier));
        match types[n - 1] {
            ValueType::LocalData(idx) => {
                assert(later.spec_get(idx@) == earlier.spec_get(idx@));
            },
            _ => {},
        }
    }
}

impl LocalSlots {
    /// A layout that is well-formed in a table is well-formed in every
    /// table to which types were added since.
    pub proof fn lemma_wf_in_later_table(&self, earlier: &TypeTable, later: &TypeTable)
        requires
            self.wf(earlier),
            extends(later, earlier),
        ensures
            self.wf(later),
    {
        let types = self.spec_types();
        let offsets = self.spec_offsets();
        lemma_layout_in_later_table(types, offsets, earlier, later, types.len() as int);
        assert forall|i: int| 0 <= i < types.len() implies (#[trigger] offsets[i]) == layout_size(
            types,
            later,
            i,
        ) by {
            lemma_layout_in_later_table(types, offsets, earlier, later, i);
        }
        assert forall|i: int| 0 <= i < types.len() implies (#[trigger] types[i]).known_in(later) by {
            assert(types[i].known_in(earlier));
        }
    }
}

impl Default for LocalSlots {
    fn default() -> (r: Self)
        ensures
            r.spec_types() == Seq::<ValueType>::empty(),
            r.spec_total_size() == 0,
    {
        Self::new()
    }
}

} // verus!
