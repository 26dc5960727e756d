use vstd::prelude::*;
use crate::execution_context::{
    lemma_frames_wf_popped, local_slot, record_type, release_all, ContextView, Effect,
};
use crate::fault::Fault;
use crate::instruction::{Instruction, Opcode};
use crate::memory::common::{mem_byte, Pointer};
use crate::memory::common::mem_read;
use crate::memory::dynamic_mem::{
    is_free, lemma_freed_exactly_at_zero, lemma_read_unwritten, lemma_with_block_is_free, refcount_at,
    size_at, HeapView, IndexedAllocation, HEADER_SIZE,
};
use crate::util::endian::{be_bytes, lemma_be_bytes_len};
use crate::value::{Value, ValueType};
use crate::vm::GlobalContext;

verus! {

/// Taking references one after the other keeps the heap's bounds.
pub proof fn lemma_release_all_wf(heap: HeapView, pointers: Seq<nat>, from: int)
    requires
        heap.wf(),
        0 <= from,
    ensures
        release_all(heap, pointers, from).0.wf(),
    decreases pointers.len() - from,
{
    if from < pointers.len() {
        if pointers[from] == 0 {
            lemma_release_all_wf(heap, pointers, from + 1);
        } else if heap.can_remove(pointers[from]) {
            lemma_freed_exactly_at_zero(heap, pointers[from]);
            lemma_release_all_wf(heap.remove_reference(pointers[from]), pointers, from + 1);
        }
    }
}

/// A block that is free stays free while references are taken.
pub proof fn lemma_release_all_keeps_free(
    heap: HeapView,
    pointers: Seq<nat>,
    from: int,
    block: IndexedAllocation,
)
    requires
        0 <= from,
        is_free(heap.free_list, block),
    ensures
        is_free(release_all(heap, pointers, from).0.free_list, block),
    decreases pointers.len() - from,
{
    if from < pointers.len() {
        if pointers[from] == 0 {
            lemma_release_all_keeps_free(heap, pointers, from + 1, block);
        } else if heap.can_remove(pointers[from]) {
            let ptr = pointers[from];
            let next = heap.remove_reference(ptr);
            if refcount_at(heap.mem, ptr) <= 1 {
                lemma_with_block_is_free(
                    heap.free_list,
                    IndexedAllocation { ptr: Pointer(ptr as u64), size: size_at(heap.mem, ptr) as u32 },
                    block,
                );
            }
            lemma_release_all_keeps_free(next, pointers, from + 1, block);
        }
    }
}

/// The heap after one reference was taken from each of the pointers from
/// index `from` up to index `to` that is not null, as far as none of them
/// faults.
pub open spec fn released_up_to(heap: HeapView, pointers: Seq<nat>, from: int, to: int) -> HeapView
    decreases to - from,
{
    if from >= to || from < 0 || from >= pointers.len() {
        heap
    } else if pointers[from] == 0 || !heap.can_remove(pointers[from]) {
        released_up_to(heap, pointers, from + 1, to)
    } else {
        released_up_to(heap.remove_reference(pointers[from]), pointers, from + 1, to)
    }
}

/// Where no reference faults, taking all references is taking those up to
/// index `to` and then the others.
pub proof fn lemma_release_all_split(heap: HeapView, pointers: Seq<nat>, from: int, to: int)
    requires
        0 <= from <= to <= pointers.len(),
        release_all(heap, pointers, from).1 is None,
    ensures
        release_all(heap, pointers, from) == release_all(
            released_up_to(heap, pointers, from, to),
            pointers,
            to,
        ),
    decreases to - from,
{
    if from < to {
        if pointers[from] == 0 {
            lemma_release_all_split(heap, pointers, from + 1, to);
        } else {
            lemma_release_all_split(heap.remove_reference(pointers[from]), pointers, from + 1, to);
        }
    }
}

/// Taking a reference from one allocation leaves the header of another
/// as it was, where the other's header lies apart from the first
/// allocation's bytes.
pub proof fn lemma_remove_elsewhere(heap: HeapView, ptr: nat, other: nat)
    requires
        heap.can_remove(ptr),
        other + HEADER_SIZE <= ptr || ptr + size_at(heap.mem, ptr) <= other,
    ensures
        refcount_at(heap.remove_reference(ptr).mem, other) == refcount_at(heap.mem, other),
        size_at(heap.remove_reference(ptr).mem, other) == size_at(heap.mem, other),
        heap.remove_reference(ptr).is_block(other) == heap.is_block(other),
{
    let count = refcount_at(heap.mem, ptr);
    let after = heap.remove_reference(ptr);
    if count > 1 {
        let bytes = be_bytes((count - 1) as nat, 4);
        lemma_be_bytes_len((count - 1) as nat, 4);
        lemma_read_unwritten(heap.mem, ptr as int, bytes, other as int, 4);
        lemma_read_unwritten(heap.mem, ptr as int, bytes, other + 12 as int, 4);
    } else {
        let size = size_at(heap.mem, ptr);
        assert(mem_read(after.mem, other as int, 4) =~= mem_read(heap.mem, other as int, 4));
        assert(mem_read(after.mem, other + 12 as int, 4) =~= mem_read(heap.mem, other + 12 as int, 4));
    }
}

/// The locals of the frames lie one after the other: no frame's locals end
/// before they begin, and a frame's locals begin at or after the end of the
/// locals of every frame below it.
pub proof fn lemma_frames_in_order(state: ContextView, globals: &GlobalContext, low: int, high: int)
    requires
        state.wf(globals),
        0 <= low <= high < state.frames.len(),
    ensures
        state.frames[low].locals_begin@ <= state.frames[low].locals_end@,
        low < high ==> state.frames[low].locals_end@ <= state.frames[high].locals_begin@,
    decreases high - low,
{
    if low < high {
        lemma_frames_in_order(state, globals, low, high - 1);
        assert(state.frames[high].locals_begin == state.frames[high - 1].locals_end);
    }
}

/// After a return the caller runs again with the stacks as they were, the
/// caller's locals end where those of the returned frame began, every byte
/// of the returned frame's locals is zero, and every other byte of the
/// static memory is as it was.
pub proof fn lemma_return_restores_caller(state: ContextView, globals: &GlobalContext)
    requires
        state.wf(globals),
        state.frames.len() > 0,
        state.ret(globals).result is Ok,
    ensures
        state.frames.len() >= 2,
        state.ret(globals).result == Ok::<Effect, Fault>(Effect::Continue),
        state.ret(globals).state.wf(globals),
        state.ret(globals).state.frames == state.frames.drop_last(),
        state.ret(globals).state.frames.last().locals_end == state.frames.last().locals_begin,
        state.ret(globals).state.data == state.data,
        state.ret(globals).state.extensions == state.extensions,
        forall|a: int|
            state.frames.last().locals_begin@ <= a < state.frames.last().locals_end@ ==> mem_byte(
                state.ret(globals).state.locals,
                a,
            ) == 0,
        forall|a: int|
            !(state.frames.last().locals_begin@ <= a < state.frames.last().locals_end@) ==> mem_byte(
                state.ret(globals).state.locals,
                a,
            ) == mem_byte(state.locals, a),
{
    let pointers = state.owned_pointers(globals);
    lemma_release_all_wf(state.heap, pointers, 0);
    lemma_frames_wf_popped(state, state.ret(globals).state, globals);
    assert(state.frames[state.frames.len() - 1].locals_begin == state.frames[state.frames.len()
        - 2].locals_end);
}

/// An allocation that the returning frame owns alone is free after the
/// return: where a heap-pointer slot of the frame holds a pointer to an
/// allocation that counts one reference when its turn to be released
/// comes, that allocation's block is on the free list afterwards.
pub proof fn lemma_return_frees_owned(state: ContextView, globals: &GlobalContext, k: int)
    requires
        state.wf(globals),
        state.frames.len() > 0,
        state.ret(globals).result is Ok,
        0 <= k < state.owned_pointers(globals).len(),
        state.owned_pointers(globals)[k] != 0,
        refcount_at(
            released_up_to(state.heap, state.owned_pointers(globals), 0, k).mem,
            state.owned_pointers(globals)[k],
        ) == 1,
    ensures
        is_free(
            state.ret(globals).state.heap.free_list,
            IndexedAllocation {
                ptr: Pointer(state.owned_pointers(globals)[k] as u64),
                size: size_at(
                    released_up_to(state.heap, state.owned_pointers(globals), 0, k).mem,
                    state.owned_pointers(globals)[k],
                ) as u32,
            },
        ),
{
    let pointers = state.owned_pointers(globals);
    let ptr = pointers[k];
    let before = released_up_to(state.heap, pointers, 0, k);
    let block = IndexedAllocation { ptr: Pointer(ptr as u64), size: size_at(before.mem, ptr) as u32 };
    assert(release_all(state.heap, pointers, 0).1 is None);
    lemma_release_all_split(state.heap, pointers, 0, k);
    assert(before.can_remove(ptr));
    lemma_with_block_is_free(before.free_list, block, block);
    lemma_release_all_keeps_free(before.remove_reference(ptr), pointers, k + 1, block);
}

/// The same of the frame's first heap-pointer slot that is not null: where
/// it points to an allocation that counts one reference at the return, that
/// allocation's block is on the free list afterwards.
pub proof fn lemma_return_frees_first_owned(state: ContextView, globals: &GlobalContext, k: int)
    requires
        state.wf(globals),
        state.frames.len() > 0,
        state.ret(globals).result is Ok,
        0 <= k < state.owned_pointers(globals).len(),
        state.owned_pointers(globals)[k] != 0,
        forall|j: int| 0 <= j < k ==> state.owned_pointers(globals)[j] == 0,
        refcount_at(state.heap.mem, state.owned_pointers(globals)[k]) == 1,
    ensures
        is_free(
            state.ret(globals).state.heap.free_list,
            IndexedAllocation {
                ptr: Pointer(state.owned_pointers(globals)[k] as u64),
                size: size_at(state.heap.mem, state.owned_pointers(globals)[k]) as u32,
            },
        ),
{
    lemma_released_up_to_nulls(state.heap, state.owned_pointers(globals), 0, k);
    lemma_return_frees_owned(state, globals, k);
}

/// Null pointers are passed over when references are taken.
pub proof fn lemma_released_up_to_nulls(heap: HeapView, pointers: Seq<nat>, from: int, to: int)
    requires
        0 <= from <= to <= pointers.len(),
        forall|j: int| from <= j < to ==> pointers[j] == 0,
    ensures
        released_up_to(heap, pointers, from, to) == heap,
    decreases to - from,
{
    if from < to {
        lemma_released_up_to_nulls(heap, pointers, from + 1, to);
    }
}

/// By how many frames an operation changes the depth of the call stack.
pub open spec fn depth_change(op: Opcode) -> int {
    match op {
        Opcode::Call => 1,
        Opcode::Return => -1,
        _ => 0,
    }
}

/// The number of flattened fields of the record type that slot `idx` of
/// the running frame embeds; `0` where it embeds none.
pub open spec fn record_fields(state: ContextView, globals: &GlobalContext, idx: nat) -> int {
    match local_slot(state.current(globals), state.frames.last(), idx) {
        Ok((value_type, _)) => match record_type(globals.type_table, value_type) {
            Ok(definition) => definition.spec_flattened().len() as int,
            Err(_) => 0,
        },
        Err(_) => 0,
    }
}

/// The number of flattened fields of the record type to which slot `idx`
/// of the running frame is declared to point; `0` where it points to none.
pub open spec fn element_fields(state: ContextView, globals: &GlobalContext, idx: nat) -> int {
    match local_slot(state.current(globals), state.frames.last(), idx) {
        Ok((ValueType::HeapData(element), _)) => globals.type_table.spec_get(
            element@,
        ).spec_flattened().len() as int,
        _ => 0,
    }
}

/// The net push count of an instruction: how many values it pushes on the
/// operand stack, less how many it pops. Arithmetic pops two operands and
/// pushes one result; the result of two floats is the host's to push.
pub open spec fn net_push(state: ContextView, globals: &GlobalContext, op: Opcode, inst: Instruction) -> int {
    let idx = inst.spec_abc() as nat;
    match op {
        Opcode::Halt => 0,
        Opcode::Add | Opcode::Sub | Opcode::Mul | Opcode::Div => if state.data.len() >= 2 && state.data[state.data.len()
            - 2].same_tag(state.data[state.data.len() - 1]) && state.data[state.data.len()
            - 2].spec_is_float() {
            -2
        } else {
            -1
        },
        Opcode::Print => -1,
        Opcode::Call => 0,
        Opcode::Return => 0,
        Opcode::LocalStore => -1,
        Opcode::LocalRead => 1,
        Opcode::DataTypeCreate => -record_fields(state, globals, idx),
        Opcode::DataTypeSetField => -1,
        Opcode::DataTypeReadField => 1,
        Opcode::HeapAlloc => 1 - element_fields(state, globals, idx),
        Opcode::HeapStore => -1,
        Opcode::HeapRead => 0,
        Opcode::Extend => 0,
        _ => 1,
    }
}

/// Storing a value leaves the stacks alone.
pub proof fn lemma_store_keeps_stacks(state: ContextView, ptr: Pointer, value: Value)
    ensures
        state.store_local(ptr, value).state.data == state.data,
        state.store_local(ptr, value).state.frames == state.frames,
        state.store_local(ptr, value).state.extensions == state.extensions,
        state.store_heap(ptr, value).state.data == state.data,
        state.store_heap(ptr, value).state.frames == state.frames,
        state.store_heap(ptr, value).state.extensions == state.extensions,
{
}

/// Storing `n` popped values takes `n` values from the operand stack and
/// leaves the other stacks alone.
pub proof fn lemma_store_popped_depth(state: ContextView, ptr: Pointer, n: nat, on_heap: bool)
    ensures
        state.store_popped(ptr, n, on_heap).result is Ok ==> state.store_popped(
            ptr,
            n,
            on_heap,
        ).state.data.len() == state.data.len() - n,
        state.store_popped(ptr, n, on_heap).state.frames == state.frames,
        state.store_popped(ptr, n, on_heap).state.extensions == state.extensions,
    decreases n,
{
    if n > 0 && state.data.len() > 0 {
        let value = state.data.last();
        let popped = state.drop(1);
        lemma_store_keeps_stacks(popped, ptr, value);
        let stored = if on_heap {
            popped.store_heap(ptr, value)
        } else {
            popped.store_local(ptr, value)
        };
        if let Ok(end) = stored.result {
            lemma_store_popped_depth(stored.state, end, (n - 1) as nat, on_heap);
        }
    }
}

/// `local_store` pops one value.
pub proof fn lemma_local_store_depth(state: ContextView, globals: &GlobalContext, idx: nat)
    requires
        state.local_store(globals, idx).result is Ok,
    ensures
        state.local_store(globals, idx).state.frames == state.frames,
        state.local_store(globals, idx).state.data.len() == state.data.len() - 1,
{
    let slot = local_slot(state.current(globals), state.frames.last(), idx);
    lemma_store_keeps_stacks(state.drop(1), slot->Ok_0.1, state.data.last());
}

/// `data_type_create` pops one value for each field.
pub proof fn lemma_data_type_create_depth(state: ContextView, globals: &GlobalContext, idx: nat)
    requires
        state.data_type_create(globals, idx).result is Ok,
    ensures
        state.data_type_create(globals, idx).state.frames == state.frames,
        state.data_type_create(globals, idx).state.data.len() == state.data.len() - record_fields(
            state,
            globals,
            idx,
        ),
{
    let slot = local_slot(state.current(globals), state.frames.last(), idx);
    let definition = record_type(globals.type_table, slot->Ok_0.0)->Ok_0;
    lemma_store_popped_depth(state, slot->Ok_0.1, definition.spec_flattened().len(), false);
}

/// `data_type_set_field` pops one value.
pub proof fn lemma_data_type_set_field_depth(state: ContextView, globals: &GlobalContext, idx: nat)
    requires
        state.data_type_set_field(globals, idx).result is Ok,
    ensures
        state.data_type_set_field(globals, idx).state.frames == state.frames,
        state.data_type_set_field(globals, idx).state.data.len() == state.data.len() - 1,
{
    let slot = local_slot(state.current(globals), state.frames.last(), idx);
    let definition = record_type(globals.type_table, slot->Ok_0.0)->Ok_0;
    let field = crate::execution_context::field_slot(
        definition,
        slot->Ok_0.1@,
        state.extensions.last().spec_abc() as nat,
    );
    let popped = ContextView { extensions: state.extensions.drop_last(), ..state.drop(1) };
    lemma_store_keeps_stacks(popped, field->Ok_0.1, state.data.last());
}

/// The operations that touch nothing but the stacks and read-only tables
/// change the depths as `depth_change` and `net_push` say.
pub proof fn lemma_plain_depths(state: ContextView, globals: &GlobalContext, op: Opcode, inst: Instruction)
    requires
        state.frames.len() > 0,
        state.execute(globals, op, inst).result is Ok,
        op != Opcode::LocalStore,
        op != Opcode::DataTypeCreate,
        op != Opcode::DataTypeSetField,
        op != Opcode::HeapAlloc,
        op != Opcode::HeapStore,
    ensures
        state.execute(globals, op, inst).state.frames.len() == state.frames.len() + depth_change(op),
        state.execute(globals, op, inst).state.data.len() == state.data.len() + net_push(
            state,
            globals,
            op,
            inst,
        ),
{
}

/// An executed instruction changes the depth of the call stack by its
/// `depth_change` and the depth of the operand stack by its `net_push`.
pub proof fn lemma_execute_depths(state: ContextView, globals: &GlobalContext, op: Opcode, inst: Instruction)
    requires
        state.frames.len() > 0,
        state.execute(globals, op, inst).result is Ok,
    ensures
        state.execute(globals, op, inst).state.frames.len() == state.frames.len() + depth_change(op),
        state.execute(globals, op, inst).state.data.len() == state.data.len() + net_push(
            state,
            globals,
            op,
            inst,
        ),
{
    let idx = inst.spec_abc() as nat;
    match op {
        Opcode::LocalStore => {
            lemma_local_store_depth(state, globals, idx);
        },
        Opcode::DataTypeCreate => {
            lemma_data_type_create_depth(state, globals, idx);
        },
        Opcode::DataTypeSetField => {
            lemma_data_type_set_field_depth(state, globals, idx);
        },
        Opcode::HeapAlloc => {
            lemma_heap_alloc_depth(state, globals, idx);
        },
        Opcode::HeapStore => {
            lemma_heap_store_depth(state, globals, idx);
        },
        _ => {
            lemma_plain_depths(state, globals, op, inst);
        },
    }
}

/// `heap_alloc` pops one value for each field and pushes the pointer.
pub proof fn lemma_heap_alloc_depth(state: ContextView, globals: &GlobalContext, idx: nat)
    requires
        state.frames.len() > 0,
        state.heap_alloc(globals, idx).result is Ok,
    ensures
        state.heap_alloc(globals, idx).state.frames == state.frames,
        state.heap_alloc(globals, idx).state.data.len() == state.data.len() + 1 - element_fields(
            state,
            globals,
            idx,
        ),
{
    let slot = local_slot(state.current(globals), state.frames.last(), idx);
    match slot->Ok_0.0 {
        ValueType::HeapData(element) => {
            let size = crate::memory::dynamic_mem::HEADER_SIZE + globals.type_table.spec_size(element@);
            let ptr = Pointer(state.heap.allocation_address(size as nat) as u64);
            let allocated = ContextView { heap: state.heap.allocate(element@, 1, size as nat), ..state };
            lemma_store_keeps_stacks(allocated, slot->Ok_0.1, Value::HeapData(ptr));
            let stored = allocated.store_local(slot->Ok_0.1, Value::HeapData(ptr)).state;
            lemma_store_popped_depth(
                stored,
                Pointer((ptr@ + crate::memory::dynamic_mem::HEADER_SIZE) as u64),
                globals.type_table.spec_get(element@).spec_flattened().len(),
                true,
            );
        },
        _ => {},
    }
}

/// `heap_store` pops the value and the pointer and pushes the value again.
pub proof fn lemma_heap_store_depth(state: ContextView, globals: &GlobalContext, field: nat)
    requires
        state.heap_store(globals, field).result is Ok,
    ensures
        state.heap_store(globals, field).state.frames == state.frames,
        state.heap_store(globals, field).state.data.len() == state.data.len() - 1,
{
    let value = state.data[state.data.len() - 1];
    match state.data[state.data.len() - 2] {
        Value::HeapData(ptr) => {
            let definition = crate::execution_context::allocation_type(globals.type_table, state.heap, ptr@)->Ok_0;
            let slot = crate::execution_context::field_slot(
                definition,
                (ptr@ + crate::memory::dynamic_mem::HEADER_SIZE) as nat,
                field,
            );
            lemma_store_keeps_stacks(state.drop(2), slot->Ok_0.1, value);
        },
        _ => {},
    }
}

/// The state after `n` steps, whatever they ask of the host, or the first
/// fault on the way.
pub open spec fn after_steps(state: ContextView, globals: &GlobalContext, n: nat) -> Result<ContextView, Fault>
    decreases n,
{
    if n == 0 {
        Ok(state)
    } else {
        match state.step(globals).result {
            Err(fault) => Err(fault),
            Ok(_) => after_steps(state.step(globals).state, globals, (n - 1) as nat),
        }
    }
}

/// The operation that the next step executes.
pub open spec fn next_op(state: ContextView, globals: &GlobalContext) -> Opcode {
    state.fetch(globals)->Ok_0.spec_op()->Some_0
}

/// The calls less the returns among the next `n` steps.
pub open spec fn net_calls(state: ContextView, globals: &GlobalContext, n: nat) -> int
    decreases n,
{
    if n == 0 {
        0
    } else {
        match state.step(globals).result {
            Err(_) => 0,
            Ok(_) => depth_change(next_op(state, globals)) + net_calls(
                state.step(globals).state,
                globals,
                (n - 1) as nat,
            ),
        }
    }
}

/// The sum of the net push counts of the next `n` steps.
pub open spec fn net_pushes(state: ContextView, globals: &GlobalContext, n: nat) -> int
    decreases n,
{
    if n == 0 {
        0
    } else {
        match state.step(globals).result {
            Err(_) => 0,
            Ok(_) => net_push(
                state.advance(),
                globals,
                next_op(state, globals),
                state.fetch(globals)->Ok_0,
            ) + net_pushes(state.step(globals).state, globals, (n - 1) as nat),
        }
    }
}

/// One step changes the depth of the call stack by the `depth_change` of
/// its operation and the depth of the operand stack by its `net_push`.
pub proof fn lemma_step_depths(state: ContextView, globals: &GlobalContext)
    requires
        state.step(globals).result is Ok,
    ensures
        state.step(globals).state.frames.len() == state.frames.len() + depth_change(
            next_op(state, globals),
        ),
        state.step(globals).state.data.len() == state.data.len() + net_push(
            state.advance(),
            globals,
            next_op(state, globals),
            state.fetch(globals)->Ok_0,
        ),
{
    reveal(ContextView::step);
    let inst = state.fetch(globals)->Ok_0;
    let op = inst.spec_op()->Some_0;
    lemma_execute_depths(state.advance(), globals, op, inst);
}

/// Call and return are symmetric: after any `n` steps the call stack is as
/// deep as it was plus the calls less the returns among them, and so as
/// deep as it was where calls and returns balance; the operand stack is as
/// deep as it was plus the net push count of the instructions executed.
pub proof fn lemma_call_return_symmetry(state: ContextView, globals: &GlobalContext, n: nat)
    requires
        after_steps(state, globals, n) is Ok,
    ensures
        after_steps(state, globals, n)->Ok_0.frames.len() == state.frames.len() + net_calls(
            state,
            globals,
            n,
        ),
        net_calls(state, globals, n) == 0 ==> after_steps(state, globals, n)->Ok_0.frames.len()
            == state.frames.len(),
        after_steps(state, globals, n)->Ok_0.data.len() == state.data.len() + net_pushes(
            state,
            globals,
            n,
        ),
    decreases n,
{
    if n > 0 {
        lemma_step_depths(state, globals);
        lemma_call_return_symmetry(state.step(globals).state, globals, (n - 1) as nat);
    }
}

} // verus!
