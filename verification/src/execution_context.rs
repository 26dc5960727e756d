use vstd::prelude::*;
use crate::data_type::{FieldView, TypeDefinition, TypeTable};
use crate::fault::Fault;
use crate::function::{Function, InstructionPointer};
use crate::instruction::{Instruction, Opcode};
use crate::memory::common::{mem_read, mem_write, mem_zero, store_report, Pointer, StorageResult};
use crate::memory::dynamic_mem::{
    refcount_at, size_at, type_index_at, ContextHeap, HeapView, HEADER_SIZE, MAX_REFERENCES,
};
use crate::memory::StaticMemory;
use crate::util::endian::be_value;
use crate::util::index::{FunctionIndex, LocalIndex};
use crate::util::stack::Stack;
use crate::value::{Value, ValueType};
use crate::vm::GlobalContext;

verus! {

/// One activation of a function: where it executes, and which bytes of the
/// static memory are its locals.
#[derive(Debug, Clone, Copy)]
pub struct Frame {
    pub ip: InstructionPointer,
    pub locals_begin: Pointer,
    pub locals_end: Pointer,
    pub function: FunctionIndex,
}

/// What one executed instruction asks of the host, beside the change of the
/// machine's state.
#[derive(Debug, Clone, Copy, PartialEq, Eq, Structural)]
pub enum Effect {
    /// Nothing: execution goes on.
    Continue,
    /// The program has halted.
    Halt,
    /// The value is to be written to the output.
    Print(Value),
    /// The operation is to be done on the two floats, left operand first,
    /// and its result pushed before execution goes on.
    FloatArithmetic(Opcode, Value, Value),
}

/// The state of an execution: operand stack, extension stack, call stack,
/// static memory and heap. Stacks have their top at the end.
pub struct ContextView {
    pub data: Seq<Value>,
    pub extensions: Seq<Instruction>,
    pub frames: Seq<Frame>,
    pub locals: Seq<u8>,
    pub heap: HeapView,
}

/// What an operation leaves behind: the state of the machine, and the
/// operation's result or the fault that ended it. After a fault the state is
/// the one in which the fault was met.
pub struct Outcome<T> {
    pub state: ContextView,
    pub result: Result<T, Fault>,
}

/// The outcome of an operation that succeeded.
pub open spec fn done<T>(state: ContextView, value: T) -> Outcome<T> {
    Outcome { state, result: Ok(value) }
}

/// The outcome of an operation that met a fault.
pub open spec fn failed<T>(state: ContextView, fault: Fault) -> Outcome<T> {
    Outcome { state, result: Err(fault) }
}

/// The outcome with `effect` in place of what a successful operation gave.
pub open spec fn finish<T>(outcome: Outcome<T>, effect: Effect) -> Outcome<Effect> {
    Outcome {
        state: outcome.state,
        result: match outcome.result {
            Ok(_) => Ok(effect),
            Err(fault) => Err(fault),
        },
    }
}

/// The fault of a reference count that cannot be changed as
/// `HeapView::replace_reference` would.
pub open spec fn replace_fault(heap: HeapView, prev: nat, new: nat) -> Fault {
    if new != 0 && !heap.is_block(new) {
        Fault::IndexOutOfRange
    } else if new != 0 && refcount_at(heap.mem, new) >= MAX_REFERENCES {
        Fault::ReferenceOverflow
    } else if prev != 0 && !heap.is_block(prev) {
        Fault::IndexOutOfRange
    } else if prev != 0 && refcount_at(heap.mem, prev) == 0 {
        Fault::ReferenceUnderflow
    } else {
        Fault::IndexOutOfRange
    }
}

/// The heap after the references of a store were counted: where a pointer
/// was stored, the pointer overwritten loses a reference and the one stored
/// gains one. Where they cannot be counted the heap stays as it is.
pub open spec fn count_store(heap: HeapView, report: StorageResult) -> Result<HeapView, Fault> {
    match report.allocations {
        None => Ok(heap),
        Some((prev, new)) => if heap.can_replace(prev@, new@) {
            Ok(heap.replace_reference(prev@, new@))
        } else {
            Err(replace_fault(heap, prev@, new@))
        },
    }
}

/// The fault of a value that cannot be written at `ptr`, if it cannot.
pub open spec fn store_fault(ptr: Pointer, value: Value) -> Option<Fault> {
    if !value.spec_is_storable() {
        Some(Fault::TypeMismatch)
    } else if ptr@ + value.spec_size() > usize::MAX {
        Some(Fault::IndexOutOfRange)
    } else {
        None
    }
}

/// The pointers that the eight bytes at each of the first `n` offsets from
/// `base` spell.
pub open spec fn held_pointers(mem: Seq<u8>, base: nat, offsets: Seq<u32>, n: int) -> Seq<nat>
    decreases n,
{
    if n <= 0 {
        Seq::<nat>::empty()
    } else {
        held_pointers(mem, base, offsets, n - 1).push(be_value(mem_read(mem, base + offsets[n - 1], 8)))
    }
}

/// There is one pointer for each offset, and the pointers at the first
/// offsets do not depend on how many more are read.
pub proof fn lemma_held_pointers(mem: Seq<u8>, base: nat, offsets: Seq<u32>, n: int, m: int)
    requires
        0 <= n <= m,
    ensures
        held_pointers(mem, base, offsets, n).len() == n,
        held_pointers(mem, base, offsets, m).len() == m,
        forall|k: int|
            0 <= k < n ==> held_pointers(mem, base, offsets, m)[k] == #[trigger] held_pointers(
                mem,
                base,
                offsets,
                n,
            )[k],
        forall|k: int|
            0 <= k < m ==> #[trigger] held_pointers(mem, base, offsets, m)[k] == be_value(
                mem_read(mem, base + offsets[k], 8),
            ),
    decreases m,
{
    if m > 0 {
        if n < m {
            lemma_held_pointers(mem, base, offsets, n, m - 1);
        } else {
            lemma_held_pointers(mem, base, offsets, n - 1, m - 1);
        }
    }
}

/// The fault of a reference that cannot be taken from `ptr`.
pub open spec fn release_fault(heap: HeapView, ptr: nat) -> Fault {
    if !heap.is_block(ptr) {
        Fault::IndexOutOfRange
    } else {
        Fault::ReferenceUnderflow
    }
}

/// The heap after one reference was taken from each of the pointers from
/// index `from` on that is not null, in order, up to the first from which
/// none can be taken; with the fault of that one, if there is one.
pub open spec fn release_all(heap: HeapView, pointers: Seq<nat>, from: int) -> (HeapView, Option<Fault>)
    decreases pointers.len() - from,
{
    if from < 0 || from >= pointers.len() {
        (heap, None)
    } else if pointers[from] == 0 {
        release_all(heap, pointers, from + 1)
    } else if !heap.can_remove(pointers[from]) {
        (heap, Some(release_fault(heap, pointers[from])))
    } else {
        release_all(heap.remove_reference(pointers[from]), pointers, from + 1)
    }
}

impl ContextView {
    /// The state in which nothing has run yet: empty stacks and memories.
    pub open spec fn initial() -> ContextView {
        ContextView {
            data: Seq::empty(),
            extensions: Seq::empty(),
            frames: Seq::empty(),
            locals: Seq::empty(),
            heap: HeapView {
                mem: Seq::empty(),
                free_ptr: crate::memory::dynamic_mem::HEAP_BASE as nat,
                free_list: Seq::empty(),
            },
        }
    }

    /// The frames fit the functions of `globals` and the heap's bounds
    /// hold.
    pub open spec fn wf(self, globals: &GlobalContext) -> bool {
        self.heap.wf() && self.frames_wf(globals)
    }

    /// Every frame runs a function of the table and spans that function's
    /// locals, and each frame's locals start where those of the frame below
    /// end.
    pub open spec fn frames_wf(self, globals: &GlobalContext) -> bool {
        &&& forall|i: int|
            0 <= i < self.frames.len() ==> {
                &&& (#[trigger] self.frames[i]).function@ < globals.function_table.spec_len()
                &&& self.frames[i].locals_end@ == self.frames[i].locals_begin@ + globals.function_table.spec_get(
                    self.frames[i].function@,
                ).spec_local_slots().spec_total_size()
            }
        &&& forall|i: int|
            0 < i < self.frames.len() ==> (#[trigger] self.frames[i]).locals_begin == self.frames[i
                - 1].locals_end
    }

    /// The state with `value` pushed on the operand stack.
    pub open spec fn push(self, value: Value) -> ContextView {
        ContextView { data: self.data.push(value), ..self }
    }

    /// The state with `n` values popped from the operand stack.
    pub open spec fn drop(self, n: int) -> ContextView {
        ContextView { data: self.data.subrange(0, self.data.len() - n), ..self }
    }

    /// The state with the top word popped from the extension stack.
    pub open spec fn drop_extension(self) -> ContextView {
        ContextView { extensions: self.extensions.drop_last(), ..self }
    }

    /// `value` is written at `ptr` of the static memory and its references
    /// are counted; the result is the address after the value.
    pub open spec fn store_local(self, ptr: Pointer, value: Value) -> Outcome<Pointer> {
        match store_fault(ptr, value) {
            Some(fault) => failed(self, fault),
            None => {
                let report = store_report(self.locals, ptr, value);
                let written = ContextView {
                    locals: mem_write(self.locals, ptr@ as int, value.spec_bytes()),
                    ..self
                };
                match count_store(self.heap, report) {
                    Err(fault) => failed(written, fault),
                    Ok(heap) => done(ContextView { heap, ..written }, report.end),
                }
            },
        }
    }

    /// `value` is written at `ptr` of the heap and its references are
    /// counted; the result is the address after the value.
    pub open spec fn store_heap(self, ptr: Pointer, value: Value) -> Outcome<Pointer> {
        match store_fault(ptr, value) {
            Some(fault) => failed(self, fault),
            None => {
                let report = store_report(self.heap.mem, ptr, value);
                let written = HeapView {
                    mem: mem_write(self.heap.mem, ptr@ as int, value.spec_bytes()),
                    ..self.heap
                };
                match count_store(written, report) {
                    Err(fault) => failed(ContextView { heap: written, ..self }, fault),
                    Ok(heap) => done(ContextView { heap, ..self }, report.end),
                }
            },
        }
    }

    /// `n` values are popped one by one and written one after the other
    /// from `ptr` on, the value popped first at `ptr`, into the heap where
    /// `on_heap` holds and into the static memory otherwise.
    pub open spec fn store_popped(self, ptr: Pointer, n: nat, on_heap: bool) -> Outcome<()>
        decreases n,
    {
        if n == 0 {
            done(self, ())
        } else if self.data.len() == 0 {
            failed(self, Fault::StackUnderflow)
        } else {
            let value = self.data.last();
            let popped = self.drop(1);
            let stored = if on_heap {
                popped.store_heap(ptr, value)
            } else {
                popped.store_local(ptr, value)
            };
            match stored.result {
                Err(fault) => failed(stored.state, fault),
                Ok(end) => stored.state.store_popped(end, (n - 1) as nat, on_heap),
            }
        }
    }

    /// The frame on top of the call stack with its instruction pointer
    /// moved on by one.
    pub open spec fn advance(self) -> ContextView {
        let frame = self.frames.last();
        ContextView {
            frames: self.frames.drop_last().push(
                Frame { ip: InstructionPointer((frame.ip.0 + 1) as usize), ..frame },
            ),
            ..self
        }
    }
}

/// Frames that fit keep fitting when the frame on top is popped.
pub proof fn lemma_frames_wf_popped(before: ContextView, after: ContextView, globals: &GlobalContext)
    requires
        before.frames_wf(globals),
        before.frames.len() > 0,
        after.frames == before.frames.drop_last(),
    ensures
        after.frames_wf(globals),
{
    assert forall|i: int| 0 <= i < after.frames.len() implies {
        &&& (#[trigger] after.frames[i]).function@ < globals.function_table.spec_len()
        &&& after.frames[i].locals_end@ == after.frames[i].locals_begin@ + globals.function_table.spec_get(
            after.frames[i].function@,
        ).spec_local_slots().spec_total_size()
    } by {
        assert(after.frames[i] == before.frames[i]);
    }
    assert forall|i: int| 0 < i < after.frames.len() implies (#[trigger] after.frames[i]).locals_begin
        == after.frames[i - 1].locals_end by {
        assert(after.frames[i] == before.frames[i]);
        assert(after.frames[i - 1] == before.frames[i - 1]);
    }
}

/// Frames that fit keep fitting when a frame is pushed that runs a function
/// of the table, spans that function's locals, and starts where the frame
/// below ends.
pub proof fn lemma_frames_wf_pushed(
    before: ContextView,
    after: ContextView,
    globals: &GlobalContext,
    frame: Frame,
)
    requires
        before.frames_wf(globals),
        after.frames == before.frames.push(frame),
        frame.function@ < globals.function_table.spec_len(),
        frame.locals_end@ == frame.locals_begin@ + globals.function_table.spec_get(
            frame.function@,
        ).spec_local_slots().spec_total_size(),
        before.frames.len() > 0 ==> frame.locals_begin == before.frames.last().locals_end,
    ensures
        after.frames_wf(globals),
{
    assert forall|i: int| 0 <= i < after.frames.len() implies {
        &&& (#[trigger] after.frames[i]).function@ < globals.function_table.spec_len()
        &&& after.frames[i].locals_end@ == after.frames[i].locals_begin@ + globals.function_table.spec_get(
            after.frames[i].function@,
        ).spec_local_slots().spec_total_size()
    } by {
        if i < before.frames.len() {
            assert(after.frames[i] == before.frames[i]);
        }
    }
    assert forall|i: int| 0 < i < after.frames.len() implies (#[trigger] after.frames[i]).locals_begin
        == after.frames[i - 1].locals_end by {
        assert(after.frames[i - 1] == before.frames[i - 1]);
        if i < before.frames.len() {
            assert(after.frames[i] == before.frames[i]);
        }
    }
}

/// Frames that fit keep fitting when the instruction pointer moves on.
pub proof fn lemma_frames_wf_advanced(state: ContextView, globals: &GlobalContext)
    requires
        state.frames_wf(globals),
        state.frames.len() > 0,
    ensures
        state.advance().frames_wf(globals),
{
    let popped = ContextView { frames: state.frames.drop_last(), ..state };
    lemma_frames_wf_popped(state, popped, globals);
    let last = state.frames.last();
    lemma_frames_wf_pushed(
        popped,
        state.advance(),
        globals,
        Frame { ip: InstructionPointer((last.ip.0 + 1) as usize), ..last },
    );
}

/// The type and the address of slot `idx` of the frame, or the fault of an
/// index beyond the slots or an address beyond 64 bits.
pub open spec fn local_slot(function: Function, frame: Frame, idx: nat) -> Result<(ValueType, Pointer), Fault> {
    let slots = function.spec_local_slots();
    if idx >= slots.spec_types().len() || idx >= slots.spec_offsets().len() {
        Err(Fault::IndexOutOfRange)
    } else if frame.locals_begin@ + slots.spec_offsets()[idx as int] > u64::MAX {
        Err(Fault::IndexOutOfRange)
    } else {
        Ok(
            (
                slots.spec_types()[idx as int],
                Pointer((frame.locals_begin@ + slots.spec_offsets()[idx as int]) as u64),
            ),
        )
    }
}

/// The definition of the record type that `value_type` embeds, or the
/// fault of a type that embeds none or of one that the table does not hold.
pub open spec fn record_type(type_table: &TypeTable, value_type: ValueType) -> Result<TypeDefinition, Fault> {
    match value_type {
        ValueType::LocalData(idx) => if idx@ < type_table.spec_len() {
            Ok(type_table.spec_get(idx@))
        } else {
            Err(Fault::IndexOutOfRange)
        },
        _ => Err(Fault::TypeMismatch),
    }
}

/// The type and the address of flattened field `idx` of a record of type
/// `definition` that starts at `base`, or the fault of an index beyond the
/// fields or an address beyond 64 bits.
pub open spec fn field_slot(definition: TypeDefinition, base: nat, idx: nat) -> Result<
    (ValueType, Pointer),
    Fault,
> {
    let flat = definition.spec_flattened();
    if idx >= flat.len() {
        Err(Fault::IndexOutOfRange)
    } else if base + flat[idx as int].offset > u64::MAX {
        Err(Fault::IndexOutOfRange)
    } else {
        Ok((flat[idx as int].value_type, Pointer((base + flat[idx as int].offset) as u64)))
    }
}

/// The definition of the type of the live allocation at `ptr`, or the
/// fault of a pointer that names no live allocation or of a header whose
/// type the table does not hold.
pub open spec fn allocation_type(type_table: &TypeTable, heap: HeapView, ptr: nat) -> Result<
    TypeDefinition,
    Fault,
> {
    if !heap.can_remove(ptr) {
        Err(Fault::IndexOutOfRange)
    } else if type_index_at(heap.mem, ptr) >= type_table.spec_len() {
        Err(Fault::IndexOutOfRange)
    } else {
        Ok(type_table.spec_get(type_index_at(heap.mem, ptr)))
    }
}

/// The result of the arithmetic operation `op` on `lhs` and `rhs`.
pub open spec fn apply(op: Opcode, lhs: Value, rhs: Value) -> Result<Value, Fault> {
    match op {
        Opcode::Add => lhs.spec_add(rhs),
        Opcode::Sub => lhs.spec_sub(rhs),
        Opcode::Mul => lhs.spec_mul(rhs),
        _ => lhs.spec_div(rhs),
    }
}

impl ContextView {
    /// The function that the frame on top of the call stack runs.
    pub open spec fn current(self, globals: &GlobalContext) -> Function {
        globals.function_table.spec_get(self.frames.last().function@)
    }

    /// The instruction that is executed next, or the fault of an empty call
    /// stack, of a frame whose function the table does not hold, or of an
    /// instruction pointer beyond the function's end.
    pub open spec fn fetch(self, globals: &GlobalContext) -> Result<Instruction, Fault> {
        if self.frames.len() == 0 {
            Err(Fault::StackUnderflow)
        } else if self.frames.last().function@ >= globals.function_table.spec_len() {
            Err(Fault::IndexOutOfRange)
        } else if self.frames.last().ip.0 >= self.current(globals).spec_instructions().len() {
            Err(Fault::IndexOutOfRange)
        } else {
            Ok(self.current(globals).spec_instructions()[self.frames.last().ip.0 as int])
        }
    }

    /// Arithmetic: the right operand is popped, then the left one, and
    /// their result is pushed. Two floats are handed to the host. Where the
    /// operation faults the operands stay on the stack.
    pub open spec fn arith(self, op: Opcode) -> Outcome<Effect> {
        if self.data.len() < 2 {
            failed(self, Fault::StackUnderflow)
        } else {
            let rhs = self.data[self.data.len() - 1];
            let lhs = self.data[self.data.len() - 2];
            if lhs.same_tag(rhs) && lhs.spec_is_float() {
                done(self.drop(2), Effect::FloatArithmetic(op, lhs, rhs))
            } else {
                match apply(op, lhs, rhs) {
                    Err(fault) => failed(self, fault),
                    Ok(value) => done(self.drop(2).push(value), Effect::Continue),
                }
            }
        }
    }

    /// `print`: the top value is popped and handed to the host.
    pub open spec fn print(self) -> Outcome<Effect> {
        if self.data.len() == 0 {
            failed(self, Fault::StackUnderflow)
        } else {
            done(self.drop(1), Effect::Print(self.data.last()))
        }
    }

    /// `call`: a frame for function `idx` is pushed, its locals starting
    /// where those of the caller end.
    pub open spec fn call(self, globals: &GlobalContext, idx: nat) -> Outcome<Effect> {
        if idx >= globals.function_table.spec_len() {
            failed(self, Fault::IndexOutOfRange)
        } else {
            let callee = globals.function_table.spec_get(idx);
            let begin = self.frames.last().locals_end;
            let size = callee.spec_local_slots().spec_total_size();
            if begin@ + size > u64::MAX {
                failed(self, Fault::IndexOutOfRange)
            } else {
                done(
                    ContextView {
                        frames: self.frames.push(
                            Frame {
                                ip: InstructionPointer(0),
                                locals_begin: begin,
                                locals_end: Pointer((begin@ + size) as u64),
                                function: callee.spec_index(),
                            },
                        ),
                        ..self
                    },
                    Effect::Continue,
                )
            }
        }
    }

    /// The pointers that the heap-pointer slots of the running frame hold.
    pub open spec fn owned_pointers(self, globals: &GlobalContext) -> Seq<nat> {
        let offsets = self.current(globals).spec_local_slots().spec_heap_offsets();
        held_pointers(self.locals, self.frames.last().locals_begin@, offsets, offsets.len() as int)
    }

    /// `ret`: the pointers in the frame's heap-pointer slots are read, the
    /// frame's locals are cleared, each of those pointers that is not null
    /// loses a reference, and the frame is popped. There must be a frame
    /// below to return to, and the frame's locals must lie within 64 bits.
    pub open spec fn ret(self, globals: &GlobalContext) -> Outcome<Effect> {
        let frame = self.frames.last();
        if frame.locals_begin@ + self.current(globals).spec_local_slots().spec_total_size() > u64::MAX {
            failed(self, Fault::IndexOutOfRange)
        } else {
            let released = release_all(self.heap, self.owned_pointers(globals), 0);
            let torn = ContextView {
                locals: mem_zero(self.locals, frame.locals_begin@ as int, frame.locals_end@ as int),
                heap: released.0,
                ..self
            };
            match released.1 {
                Some(fault) => failed(torn, fault),
                None => if self.frames.len() < 2 {
                    failed(torn, Fault::StackUnderflow)
                } else {
                    done(ContextView { frames: self.frames.drop_last(), ..torn }, Effect::Continue)
                },
            }
        }
    }

    /// `local_store`: the top value is popped and written to slot `idx`.
    pub open spec fn local_store(self, globals: &GlobalContext, idx: nat) -> Outcome<Effect> {
        match local_slot(self.current(globals), self.frames.last(), idx) {
            Err(fault) => failed(self, fault),
            Ok((_, ptr)) => if self.data.len() == 0 {
                failed(self, Fault::StackUnderflow)
            } else {
                finish(self.drop(1).store_local(ptr, self.data.last()), Effect::Continue)
            },
        }
    }

    /// `local_read`: the value that the bytes of slot `idx` spell as the
    /// slot's type is pushed. The type must be a scalar.
    pub open spec fn local_read(self, globals: &GlobalContext, idx: nat) -> Outcome<Effect> {
        match local_slot(self.current(globals), self.frames.last(), idx) {
            Err(fault) => failed(self, fault),
            Ok((value_type, ptr)) => if !value_type.spec_is_primitive() {
                failed(self, Fault::TypeMismatch)
            } else {
                done(
                    self.push(
                        value_type.spec_create_value(mem_read(self.locals, ptr@ as int, value_type.spec_width())),
                    ),
                    Effect::Continue,
                )
            },
        }
    }

    /// `data_type_create`: as many values as the record type of slot `idx`
    /// has flattened fields are popped and written one after the other from
    /// the slot's address on.
    pub open spec fn data_type_create(self, globals: &GlobalContext, idx: nat) -> Outcome<Effect> {
        match local_slot(self.current(globals), self.frames.last(), idx) {
            Err(fault) => failed(self, fault),
            Ok((value_type, ptr)) => match record_type(globals.type_table, value_type) {
                Err(fault) => failed(self, fault),
                Ok(definition) => finish(
                    self.store_popped(ptr, definition.spec_flattened().len(), false),
                    Effect::Continue,
                ),
            },
        }
    }

    /// `data_type_read_field`: the extension word on top names a flattened
    /// field of the record in slot `idx`; the word is popped and the field's
    /// value is pushed.
    pub open spec fn data_type_read_field(self, globals: &GlobalContext, idx: nat) -> Outcome<Effect> {
        match local_slot(self.current(globals), self.frames.last(), idx) {
            Err(fault) => failed(self, fault),
            Ok((value_type, ptr)) => match record_type(globals.type_table, value_type) {
                Err(fault) => failed(self, fault),
                Ok(definition) => if self.extensions.len() == 0 {
                    failed(self, Fault::StackUnderflow)
                } else {
                    match field_slot(definition, ptr@, self.extensions.last().spec_abc() as nat) {
                        Err(fault) => failed(self, fault),
                        Ok((field_type, field_ptr)) => if !field_type.spec_is_primitive() {
                            failed(self, Fault::TypeMismatch)
                        } else {
                            done(
                                self.drop_extension().push(
                                    field_type.spec_create_value(
                                        mem_read(self.locals, field_ptr@ as int, field_type.spec_width()),
                                    ),
                                ),
                                Effect::Continue,
                            )
                        },
                    }
                },
            },
        }
    }

    /// `data_type_set_field`: the extension word on top names a flattened
    /// field of the record in slot `idx`; the word and the top value are
    /// popped and the value is written to the field.
    pub open spec fn data_type_set_field(self, globals: &GlobalContext, idx: nat) -> Outcome<Effect> {
        match local_slot(self.current(globals), self.frames.last(), idx) {
            Err(fault) => failed(self, fault),
            Ok((value_type, ptr)) => match record_type(globals.type_table, value_type) {
                Err(fault) => failed(self, fault),
                Ok(definition) => if self.extensions.len() == 0 || self.data.len() == 0 {
                    failed(self, Fault::StackUnderflow)
                } else {
                    match field_slot(definition, ptr@, self.extensions.last().spec_abc() as nat) {
                        Err(fault) => failed(self, fault),
                        Ok((_, field_ptr)) => finish(
                            self.drop_extension().drop(1).store_local(field_ptr, self.data.last()),
                            Effect::Continue,
                        ),
                    }
                },
            },
        }
    }

    /// `heap_alloc`: slot `idx` is declared to point to records of a type;
    /// one record of that type is allocated, the pointer is written to the
    /// slot, as many values as the type has flattened fields are popped and
    /// written one after the other from the start of the allocation's
    /// payload on, and the pointer is pushed.
    pub open spec fn heap_alloc(self, globals: &GlobalContext, idx: nat) -> Outcome<Effect> {
        match local_slot(self.current(globals), self.frames.last(), idx) {
            Err(fault) => failed(self, fault),
            Ok((value_type, slot_ptr)) => match value_type {
                ValueType::HeapData(element) => {
                    let size = HEADER_SIZE + globals.type_table.spec_size(element@);
                    if element@ >= globals.type_table.spec_len() || size > u32::MAX || !self.heap.can_allocate(
                        size as nat,
                    ) {
                        failed(self, Fault::IndexOutOfRange)
                    } else {
                        let ptr = Pointer(self.heap.allocation_address(size as nat) as u64);
                        let allocated = ContextView {
                            heap: self.heap.allocate(element@, 1, size as nat),
                            ..self
                        };
                        let stored = allocated.store_local(slot_ptr, Value::HeapData(ptr));
                        match stored.result {
                            Err(fault) => failed(stored.state, fault),
                            Ok(_) => {
                                let filled = stored.state.store_popped(
                                    Pointer((ptr@ + HEADER_SIZE) as u64),
                                    globals.type_table.spec_get(element@).spec_flattened().len(),
                                    true,
                                );
                                match filled.result {
                                    Err(fault) => failed(filled.state, fault),
                                    Ok(_) => done(filled.state.push(Value::HeapData(ptr)), Effect::Continue),
                                }
                            },
                        }
                    }
                },
                _ => failed(self, Fault::TypeMismatch),
            },
        }
    }

    /// `heap_store`: a value is popped, then a pointer to a live
    /// allocation; the value is written to flattened field `field` of the
    /// allocation's payload and pushed again.
    pub open spec fn heap_store(self, globals: &GlobalContext, field: nat) -> Outcome<Effect> {
        if self.data.len() < 2 {
            failed(self, Fault::StackUnderflow)
        } else {
            let value = self.data[self.data.len() - 1];
            match self.data[self.data.len() - 2] {
                Value::HeapData(ptr) => match allocation_type(globals.type_table, self.heap, ptr@) {
                    Err(fault) => failed(self, fault),
                    Ok(definition) => match field_slot(definition, (ptr@ + HEADER_SIZE) as nat, field) {
                        Err(fault) => failed(self, fault),
                        Ok((_, field_ptr)) => {
                            let stored = self.drop(2).store_heap(field_ptr, value);
                            match stored.result {
                                Err(fault) => failed(stored.state, fault),
                                Ok(_) => done(stored.state.push(value), Effect::Continue),
                            }
                        },
                    },
                },
                _ => failed(self, Fault::NotAPointer),
            }
        }
    }

    /// `heap_read`: a pointer to a live allocation is popped, and the
    /// value of flattened field `field` of its payload is pushed.
    pub open spec fn heap_read(self, globals: &GlobalContext, field: nat) -> Outcome<Effect> {
        if self.data.len() == 0 {
            failed(self, Fault::StackUnderflow)
        } else {
            match self.data.last() {
                Value::HeapData(ptr) => match allocation_type(globals.type_table, self.heap, ptr@) {
                    Err(fault) => failed(self, fault),
                    Ok(definition) => match field_slot(definition, (ptr@ + HEADER_SIZE) as nat, field) {
                        Err(fault) => failed(self, fault),
                        Ok((field_type, field_ptr)) => if !field_type.spec_is_primitive() {
                            failed(self, Fault::TypeMismatch)
                        } else {
                            done(
                                self.drop(1).push(
                                    field_type.spec_create_value(
                                        mem_read(self.heap.mem, field_ptr@ as int, field_type.spec_width()),
                                    ),
                                ),
                                Effect::Continue,
                            )
                        },
                    },
                },
                _ => failed(self, Fault::NotAPointer),
            }
        }
    }

    /// `const`: the constant at `idx` is pushed.
    pub open spec fn constant(self, globals: &GlobalContext, idx: nat) -> Outcome<Effect> {
        if idx >= globals.constant_pool@.len() {
            failed(self, Fault::IndexOutOfRange)
        } else {
            done(self.push(globals.constant_pool@[idx as int]), Effect::Continue)
        }
    }

    /// What the operation `op` of the instruction `inst` does to a state
    /// whose instruction pointer has moved past `inst`.
    pub open spec fn execute(self, globals: &GlobalContext, op: Opcode, inst: Instruction) -> Outcome<Effect> {
        let idx = inst.spec_abc() as nat;
        match op {
            Opcode::Halt => done(self, Effect::Halt),
            Opcode::Add => self.arith(op),
            Opcode::Sub => self.arith(op),
            Opcode::Mul => self.arith(op),
            Opcode::Div => self.arith(op),
            Opcode::Print => self.print(),
            Opcode::Call => self.call(globals, idx),
            Opcode::Return => self.ret(globals),
            Opcode::LocalStore => self.local_store(globals, idx),
            Opcode::LocalRead => self.local_read(globals, idx),
            Opcode::DataTypeCreate => self.data_type_create(globals, idx),
            Opcode::DataTypeSetField => self.data_type_set_field(globals, idx),
            Opcode::DataTypeReadField => self.data_type_read_field(globals, idx),
            Opcode::HeapAlloc => self.heap_alloc(globals, idx),
            Opcode::HeapStore => self.heap_store(globals, idx),
            Opcode::HeapRead => self.heap_read(globals, idx),
            Opcode::Extend => done(
                ContextView { extensions: self.extensions.push(inst), ..self },
                Effect::Continue,
            ),
            Opcode::ImmI16 => done(self.push(Value::I16(inst.spec_i16() as i16)), Effect::Continue),
            Opcode::ImmI8 => done(self.push(Value::I8(inst.spec_i8() as i8)), Effect::Continue),
            Opcode::ImmU16 => done(self.push(Value::U16(inst.spec_ab())), Effect::Continue),
            Opcode::ImmU8 => done(self.push(Value::U8(inst.spec_a())), Effect::Continue),
            Opcode::ImmChar => done(
                self.push(Value::Char((inst.spec_a() % 0x80) as char)),
                Effect::Continue,
            ),
            Opcode::ImmBool => done(self.push(Value::Bool(inst.spec_a() != 0)), Effect::Continue),
            Opcode::Const => self.constant(globals, idx),
        }
    }

    /// One step of the machine: the instruction at the instruction pointer
    /// is fetched, the pointer moves past it, and the instruction is
    /// executed. Where no instruction can be fetched or its opcode is
    /// unknown, the state stays as it is.
    #[verifier::opaque]
    pub open spec fn step(self, globals: &GlobalContext) -> Outcome<Effect> {
        match self.fetch(globals) {
            Err(fault) => failed(self, fault),
            Ok(inst) => match inst.spec_op() {
                None => failed(self, Fault::UnknownOpcode),
                Some(op) => self.advance().execute(globals, op, inst),
            },
        }
    }

    /// The root frame for `entrypoint` is pushed, its locals starting at
    /// address `0`: the way to start a context in which no frame runs yet.
    pub open spec fn start(self, globals: &GlobalContext, entrypoint: nat) -> Outcome<()> {
        if entrypoint >= globals.function_table.spec_len() {
            failed(self, Fault::IndexOutOfRange)
        } else {
            let function = globals.function_table.spec_get(entrypoint);
            done(
                ContextView {
                    frames: self.frames.push(
                        Frame {
                            ip: InstructionPointer(0),
                            locals_begin: Pointer(0),
                            locals_end: Pointer(function.spec_local_slots().spec_total_size() as u64),
                            function: function.spec_index(),
                        },
                    ),
                    ..self
                },
                (),
            )
        }
    }
}

impl Frame {
    /// A frame at the first instruction of `function`, whose locals start
    /// at `locals`.
    pub fn new(type_table: &TypeTable, locals: Pointer, function: &Function) -> (frame: Frame)
        requires
            locals@ + function.spec_local_slots().spec_total_size() <= u64::MAX,
        ensures
            frame == (Frame {
                ip: InstructionPointer(0),
                locals_begin: locals,
                locals_end: Pointer((locals@ + function.spec_local_slots().spec_total_size()) as u64),
                function: function.spec_index(),
            }),
    {
        Frame {
            ip: InstructionPointer::new(),
            locals_begin: locals,
            locals_end: function.local_slots().allocate(type_table, locals),
            function: function.index(),
        }
    }

    /// The type and the address of slot `idx`, or the fault of an index
    /// beyond the slots of `function`.
    pub fn local_info(&self, function: &Function, idx: LocalIndex) -> (r: Result<(ValueType, Pointer), Fault>)
        ensures
            r == local_slot(*function, *self, idx@),
    {
        let slots = function.local_slots();
        if idx.as_usize() >= slots.len() {
            return Err(Fault::IndexOutOfRange);
        }
        let offset: u32 = slots.offset_of(idx);
        match self.locals_begin.checked_offset(offset as u64) {
            Some(ptr) => Ok((slots.type_of(idx), ptr)),
            None => Err(Fault::IndexOutOfRange),
        }
    }

    /// Tears the frame down: reads the pointers in its heap-pointer slots,
    /// clears its locals, and takes one reference from each of those
    /// pointers that is not null.
    pub fn deallocate(&mut self, function: &Function, locals: &mut StaticMemory, heap: &mut ContextHeap) -> (r:
        Result<(), Fault>)
        requires
            forall|k: int|
                0 <= k < function.spec_local_slots().spec_heap_offsets().len() ==> old(self).locals_begin@
                    + #[trigger] function.spec_local_slots().spec_heap_offsets()[k] <= u64::MAX,
        ensures
            *final(self) == *old(self),
            final(heap)@.wf(),
            final(locals)@ == mem_zero(
                old(locals)@,
                old(self).locals_begin@ as int,
                old(self).locals_end@ as int,
            ),
            release_all(
                old(heap)@,
                held_pointers(
                    old(locals)@,
                    old(self).locals_begin@,
                    function.spec_local_slots().spec_heap_offsets(),
                    function.spec_local_slots().spec_heap_offsets().len() as int,
                ),
                0,
            ) == (
                final(heap)@,
                match r {
                    Ok(()) => None::<Fault>,
                    Err(fault) => Some(fault),
                },
            ),
    {
        let offsets = function.local_slots().heap_offsets();
        let n: usize = offsets.len();
        let ghost wanted = held_pointers(locals@, self.locals_begin@, offsets@, n as int);
        let mut pointers: Vec<Pointer> = Vec::new();
        let mut i: usize = 0;
        while i < n
            invariant
                i <= n,
                n == offsets@.len(),
                offsets@ == function.spec_local_slots().spec_heap_offsets(),
                forall|k: int| 0 <= k < n ==> self.locals_begin@ + #[trigger] offsets@[k] <= u64::MAX,
                pointers@.len() == i,
                locals@ == old(locals)@,
                *self == *old(self),
                heap@ == old(heap)@,
                forall|k: int|
                    0 <= k < i ==> (#[trigger] pointers@[k])@ == be_value(
                        mem_read(locals@, self.locals_begin@ + offsets@[k], 8),
                    ),
            decreases n - i,
        {
            let bytes = locals.read_bytes(self.locals_begin.offset(offsets[i]), 8);
            pointers.push(Pointer::from_be_bytes(bytes.as_slice()));
            i = i + 1;
            proof {
                lemma_held_pointers(locals@, self.locals_begin@, offsets@, i as int, i as int);
            }
        }
        proof {
            lemma_held_pointers(locals@, self.locals_begin@, offsets@, n as int, n as int);
        }
        locals.zero(self.locals_begin, self.locals_end);
        heap.bounds();
        let ghost heap0 = heap@;
        let mut j: usize = 0;
        while j < n
            invariant
                j <= n,
                n == pointers@.len(),
                n == wanted.len(),
                heap@.wf(),
                forall|k: int| 0 <= k < n ==> (#[trigger] pointers@[k])@ == wanted[k],
                release_all(heap0, wanted, 0) == release_all(heap@, wanted, j as int),
                heap0 == old(heap)@,
                *self == *old(self),
                wanted == held_pointers(
                    old(locals)@,
                    old(self).locals_begin@,
                    function.spec_local_slots().spec_heap_offsets(),
                    function.spec_local_slots().spec_heap_offsets().len() as int,
                ),
                locals@ == mem_zero(old(locals)@, old(self).locals_begin@ as int, old(self).locals_end@ as int),
            decreases n - j,
        {
            let ptr = pointers[j];
            if ptr.is_valid_allocation() {
                if !heap.is_block(ptr) {
                    return Err(Fault::IndexOutOfRange);
                }
                if heap.reference_count(ptr) == 0 {
                    return Err(Fault::ReferenceUnderflow);
                }
                heap.remove_reference(ptr);
            }
            j = j + 1;
        }
        Ok(())
    }
}

/// The stack of frames, the running one on top. Its view is the frames,
/// the root frame first.
pub struct Callstack {
    frames: Stack<Frame>,
}

impl View for Callstack {
    type V = Seq<Frame>;

    closed spec fn view(&self) -> Seq<Frame> {
        self.frames@
    }
}

impl Callstack {
    pub fn new() -> (r: Self)
        ensures
            r@ == Seq::<Frame>::empty(),
    {
        Callstack { frames: Stack::new() }
    }

    /// The number of frames.
    pub fn len(&self) -> (n: usize)
        ensures
            n == self@.len(),
    {
        self.frames.len()
    }

    /// The running frame. There must be one.
    pub fn peek(&self) -> (frame: &Frame)
        requires
            self@.len() > 0,
        ensures
            *frame == self@.last(),
    {
        self.frames.peek()
    }

    /// Pushes the root frame, for `entrypoint`, with locals from address
    /// `0` on.
    pub fn initialize(&mut self, type_table: &TypeTable, entrypoint: &Function) -> (frame: &mut Frame)
        ensures
            *frame == (Frame {
                ip: InstructionPointer(0),
                locals_begin: Pointer(0),
                locals_end: Pointer(entrypoint.spec_local_slots().spec_total_size() as u64),
                function: entrypoint.spec_index(),
            }),
            final(self)@ == old(self)@.push(*final(frame)),
    {
        let size: u32 = entrypoint.local_slots().total_size(type_table);
        self.frames.push(Frame::new(type_table, Pointer::new(0), entrypoint));
        let frame = self.frames.peek_mut();
        assert(old(self)@.push(*frame).drop_last() =~= old(self)@);
        frame
    }

    /// Pushes a frame for `func`, whose locals start where those of the
    /// running frame end. There must be a running frame.
    pub fn push(&mut self, type_table: &TypeTable, func: &Function) -> (frame: &mut Frame)
        requires
            old(self)@.len() > 0,
            old(self)@.last().locals_end@ + func.spec_local_slots().spec_total_size() <= u64::MAX,
        ensures
            *frame == (Frame {
                ip: InstructionPointer(0),
                locals_begin: old(self)@.last().locals_end,
                locals_end: Pointer(
                    (old(self)@.last().locals_end@ + func.spec_local_slots().spec_total_size()) as u64,
                ),
                function: func.spec_index(),
            }),
            final(self)@ == old(self)@.push(*final(frame)),
    {
        let begin = self.frames.peek().locals_end;
        self.frames.push(Frame::new(type_table, begin, func));
        let frame = self.frames.peek_mut();
        assert(old(self)@.push(*frame).drop_last() =~= old(self)@);
        frame
    }

    /// Pops the running frame and gives the one below, which runs next.
    /// There must be one below.
    pub fn pop(&mut self) -> (frame: &mut Frame)
        requires
            old(self)@.len() >= 2,
        ensures
            *frame == old(self)@[old(self)@.len() - 2],
            final(self)@ == old(self)@.drop_last().drop_last().push(*final(frame)),
    {
        self.frames.pop();
        self.frames.peek_mut()
    }

    /// Moves the running frame's instruction pointer on by one.
    pub fn advance(&mut self)
        requires
            old(self)@.len() > 0,
            old(self)@.last().ip.0 < usize::MAX,
        ensures
            final(self)@ == old(self)@.drop_last().push(
                Frame {
                    ip: InstructionPointer((old(self)@.last().ip.0 + 1) as usize),
                    ..old(self)@.last()
                },
            ),
    {
        let frame = self.frames.peek_mut();
        frame.ip.increment();
    }
}

/// How a run ended.
#[derive(Debug, Clone, Copy, PartialEq, Eq, Structural)]
pub enum RunStatus {
    /// A `halt` was executed.
    Halted,
    /// The given number of steps was executed without a `halt`.
    OutOfFuel,
    /// The operation is to be done on the two floats, left operand first,
    /// and its result pushed before the run is resumed.
    FloatArithmetic(Opcode, Value, Value),
}

/// What a run leaves behind: the state of the machine, the values printed
/// in order, and how the run ended or the fault that ended it.
pub struct RunOutcome {
    pub state: ContextView,
    pub printed: Seq<Value>,
    pub result: Result<RunStatus, Fault>,
}

/// The outcome of a run with `printed` put before what it printed.
pub open spec fn after_printing(printed: Seq<Value>, outcome: RunOutcome) -> RunOutcome {
    RunOutcome { printed: printed + outcome.printed, ..outcome }
}

impl ContextView {
    /// The run of at most `fuel` steps from this state. It ends at the
    /// first `halt`, at the first arithmetic on floats, or at the first
    /// fault.
    pub open spec fn resume(self, globals: &GlobalContext, fuel: nat) -> RunOutcome
        decreases fuel,
    {
        if fuel == 0 {
            RunOutcome { state: self, printed: Seq::empty(), result: Ok(RunStatus::OutOfFuel) }
        } else {
            let stepped = self.step(globals);
            match stepped.result {
                Err(fault) => RunOutcome { state: stepped.state, printed: Seq::empty(), result: Err(fault) },
                Ok(effect) => match effect {
                    Effect::Halt => RunOutcome {
                        state: stepped.state,
                        printed: Seq::empty(),
                        result: Ok(RunStatus::Halted),
                    },
                    Effect::FloatArithmetic(op, lhs, rhs) => RunOutcome {
                        state: stepped.state,
                        printed: Seq::empty(),
                        result: Ok(RunStatus::FloatArithmetic(op, lhs, rhs)),
                    },
                    Effect::Print(value) => after_printing(
                        seq![value],
                        stepped.state.resume(globals, (fuel - 1) as nat),
                    ),
                    Effect::Continue => stepped.state.resume(globals, (fuel - 1) as nat),
                },
            }
        }
    }

    /// The run of at most `fuel` steps of the function `entrypoint` from
    /// its first instruction.
    pub open spec fn run(self, globals: &GlobalContext, entrypoint: nat, fuel: nat) -> RunOutcome {
        let started = self.start(globals, entrypoint);
        match started.result {
            Err(fault) => RunOutcome { state: started.state, printed: Seq::empty(), result: Err(fault) },
            Ok(_) => started.state.resume(globals, fuel),
        }
    }
}

/// The state of one execution: operand stack, extension stack, call stack,
/// static memory and heap. Its view is a `ContextView`.
pub struct ExecutionContext {
    data: Stack<Value>,
    callstack: Callstack,
    extensions: Stack<Instruction>,
    locals: StaticMemory,
    heap: ContextHeap,
}

impl View for ExecutionContext {
    type V = ContextView;

    closed spec fn view(&self) -> ContextView {
        ContextView {
            data: self.data@,
            extensions: self.extensions@,
            frames: self.callstack@,
            locals: self.locals@,
            heap: self.heap@,
        }
    }
}

impl ExecutionContext {
    /// A context in which nothing has run yet.
    pub fn new() -> (r: Self)
        ensures
            r@ == ContextView::initial(),
            r@.heap.wf(),
    {
        ExecutionContext {
            data: Stack::new(),
            callstack: Callstack::new(),
            extensions: Stack::new(),
            locals: StaticMemory::new(),
            heap: ContextHeap::new(),
        }
    }

    /// The number of values on the operand stack.
    pub fn data_len(&self) -> (n: usize)
        ensures
            n == self@.data.len(),
    {
        self.data.len()
    }

    /// The number of frames on the call stack.
    pub fn depth(&self) -> (n: usize)
        ensures
            n == self@.frames.len(),
    {
        self.callstack.len()
    }

    /// The number of words on the extension stack.
    pub fn extensions_len(&self) -> (n: usize)
        ensures
            n == self@.extensions.len(),
    {
        self.extensions.len()
    }

    /// The running frame. There must be one.
    pub fn frame(&self) -> (frame: Frame)
        requires
            self@.frames.len() > 0,
        ensures
            frame == self@.frames.last(),
    {
        *self.callstack.peek()
    }

    /// The heap.
    pub fn heap(&self) -> (heap: &ContextHeap)
        ensures
            heap@ == self@.heap,
    {
        &self.heap
    }

    /// The static memory.
    pub fn locals(&self) -> (locals: &StaticMemory)
        ensures
            locals@ == self@.locals,
    {
        &self.locals
    }

    /// The value on top of the operand stack. There must be one.
    pub fn top(&self) -> (value: Value)
        requires
            self@.data.len() > 0,
        ensures
            value == self@.data.last(),
    {
        *self.data.peek()
    }

    /// Pushes `value` on the operand stack: the way for the host to hand
    /// in the result of arithmetic on floats.
    pub fn push_value(&mut self, value: Value)
        ensures
            final(self)@ == old(self)@.push(value),
    {
        self.data.push(value);
    }

    /// The fault of a reference count that cannot be changed.
    fn replace_fault(&self, prev: Pointer, new: Pointer) -> (fault: Fault)
        ensures
            fault == replace_fault(self@.heap, prev@, new@),
    {
        if new.is_valid_allocation() && !self.heap.is_block(new) {
            Fault::IndexOutOfRange
        } else if new.is_valid_allocation() && self.heap.reference_count(new) >= MAX_REFERENCES {
            Fault::ReferenceOverflow
        } else if prev.is_valid_allocation() && !self.heap.is_block(prev) {
            Fault::IndexOutOfRange
        } else if prev.is_valid_allocation() && self.heap.reference_count(prev) == 0 {
            Fault::ReferenceUnderflow
        } else {
            Fault::IndexOutOfRange
        }
    }

    /// Counts the references of a store that reported `report`.
    fn count_store(&mut self, report: StorageResult) -> (r: Result<(), Fault>)
        ensures
            final(self)@.data == old(self)@.data,
            final(self)@.extensions == old(self)@.extensions,
            final(self)@.frames == old(self)@.frames,
            final(self)@.locals == old(self)@.locals,
            match r {
                Ok(()) => count_store(old(self)@.heap, report) == Ok::<HeapView, Fault>(final(self)@.heap),
                Err(fault) => count_store(old(self)@.heap, report) == Err::<HeapView, Fault>(fault)
                    && final(self)@.heap == old(self)@.heap,
            },
    {
        match report.allocations() {
            None => Ok(()),
            Some((prev, new)) => {
                if self.heap.can_replace(prev, new) {
                    self.heap.replace_reference(prev, new);
                    Ok(())
                } else {
                    Err(self.replace_fault(prev, new))
                }
            },
        }
    }

    /// The fault of a value that cannot be written at `ptr`, if it cannot.
    fn store_fault(ptr: Pointer, value: &Value) -> (r: Option<Fault>)
        ensures
            r == store_fault(ptr, *value),
    {
        if !value.is_storable() {
            Some(Fault::TypeMismatch)
        } else if ptr.0 > usize::MAX as u64 || value.size() as u64 > usize::MAX as u64 - ptr.0 {
            Some(Fault::IndexOutOfRange)
        } else {
            None
        }
    }

    /// Writes `value` at `ptr` of the static memory and counts its
    /// references. Gives the address after the value.
    fn store_local(&mut self, ptr: Pointer, value: Value) -> (r: Result<Pointer, Fault>)
        ensures
            final(self)@.frames == old(self)@.frames,
            old(self)@.store_local(ptr, value) == (Outcome { state: final(self)@, result: r }),
    {
        match Self::store_fault(ptr, &value) {
            Some(fault) => Err(fault),
            None => {
                let report = self.locals.store_value(ptr, value);
                match self.count_store(report) {
                    Ok(()) => Ok(report.end()),
                    Err(fault) => Err(fault),
                }
            },
        }
    }

    /// Writes `value` at `ptr` of the heap and counts its references. Gives
    /// the address after the value.
    fn store_heap(&mut self, ptr: Pointer, value: Value) -> (r: Result<Pointer, Fault>)
        ensures
            final(self)@.frames == old(self)@.frames,
            old(self)@.store_heap(ptr, value) == (Outcome { state: final(self)@, result: r }),
    {
        match Self::store_fault(ptr, &value) {
            Some(fault) => Err(fault),
            None => {
                let report = self.heap.store_value(ptr, value);
                match self.count_store(report) {
                    Ok(()) => Ok(report.end()),
                    Err(fault) => Err(fault),
                }
            },
        }
    }

    /// Pops `n` values one by one and writes them one after the other from
    /// `ptr` on.
    fn store_popped(&mut self, ptr: Pointer, n: u32, on_heap: bool) -> (r: Result<(), Fault>)
        ensures
            final(self)@.frames == old(self)@.frames,
            old(self)@.store_popped(ptr, n as nat, on_heap) == (Outcome { state: final(self)@, result: r }),
    {
        let mut at = ptr;
        let mut i: u32 = 0;
        while i < n
            invariant
                i <= n,
                self@.frames == old(self)@.frames,
                old(self)@.store_popped(ptr, n as nat, on_heap) == self@.store_popped(
                    at,
                    (n - i) as nat,
                    on_heap,
                ),
            decreases n - i,
        {
            if self.data.len() == 0 {
                return Err(Fault::StackUnderflow);
            }
            let ghost before = self@;
            let value = self.data.pop();
            assert(self@ =~= before.drop(1));
            let stored = if on_heap {
                self.store_heap(at, value)
            } else {
                self.store_local(at, value)
            };
            match stored {
                Ok(end) => {
                    at = end;
                },
                Err(fault) => {
                    return Err(fault);
                },
            }
            i = i + 1;
        }
        Ok(())
    }
}

/// The definition of the record type that `value_type` embeds.
fn find_record_type<'a>(type_table: &'a TypeTable, value_type: ValueType) -> (r: Result<&'a TypeDefinition, Fault>)
    ensures
        match r {
            Ok(definition) => record_type(type_table, value_type) == Ok::<TypeDefinition, Fault>(*definition),
            Err(fault) => record_type(type_table, value_type) == Err::<TypeDefinition, Fault>(fault),
        },
{
    match value_type {
        ValueType::LocalData(idx) => if idx.as_usize() < type_table.len() {
            Ok(type_table.get(idx))
        } else {
            Err(Fault::IndexOutOfRange)
        },
        _ => Err(Fault::TypeMismatch),
    }
}

/// The type and the address of flattened field `idx` of a record of type
/// `definition` that starts at `base`.
fn find_field_slot(definition: &TypeDefinition, base: Pointer, idx: u32) -> (r: Result<(ValueType, Pointer), Fault>)
    ensures
        r == field_slot(*definition, base@, idx as nat),
{
    if idx >= definition.num_fields() {
        return Err(Fault::IndexOutOfRange);
    }
    let entry = definition.get(idx);
    match base.checked_offset(entry.1 as u64) {
        Some(ptr) => Ok((entry.0.value_type(), ptr)),
        None => Err(Fault::IndexOutOfRange),
    }
}

/// The definition of the type of the live allocation at `ptr`.
fn find_allocation_type<'a>(type_table: &'a TypeTable, heap: &ContextHeap, ptr: Pointer) -> (r: Result<
    &'a TypeDefinition,
    Fault,
>)
    ensures
        match r {
            Ok(definition) => allocation_type(type_table, heap@, ptr@) == Ok::<TypeDefinition, Fault>(
                *definition,
            ),
            Err(fault) => allocation_type(type_table, heap@, ptr@) == Err::<TypeDefinition, Fault>(fault),
        },
{
    if !heap.is_block(ptr) || heap.reference_count(ptr) == 0 {
        return Err(Fault::IndexOutOfRange);
    }
    let header = heap.get_alloc(ptr);
    if header.type_index.as_usize() >= type_table.len() {
        return Err(Fault::IndexOutOfRange);
    }
    Ok(type_table.get(header.type_index))
}

impl ExecutionContext {
    /// Whether `frame` is the running frame and `func` its function.
    pub open spec fn running(self, globals: &GlobalContext, frame: Frame, func: &Function) -> bool {
        &&& self@.frames.len() > 0
        &&& frame == self@.frames.last()
        &&& frame.function@ < globals.function_table.spec_len()
        &&& *func == self@.current(globals)
    }

    fn op_arith(&mut self, op: Opcode) -> (r: Result<Effect, Fault>)
        requires
            op == Opcode::Add || op == Opcode::Sub || op == Opcode::Mul || op == Opcode::Div,
        ensures
            final(self)@.frames == old(self)@.frames,
            final(self)@.heap == old(self)@.heap,
            old(self)@.arith(op) == (Outcome { state: final(self)@, result: r }),
    {
        if self.data.len() < 2 {
            return Err(Fault::StackUnderflow);
        }
        let rhs = *self.data.get(0);
        let lhs = *self.data.get(1);
        if lhs.has_same_tag(&rhs) && lhs.is_float() {
            self.data.pop();
            self.data.pop();
            assert(self@.data =~= old(self)@.data.subrange(0, old(self)@.data.len() - 2));
            return Ok(Effect::FloatArithmetic(op, lhs, rhs));
        }
        let outcome = match op {
            Opcode::Add => lhs.add(rhs),
            Opcode::Sub => lhs.sub(rhs),
            Opcode::Mul => lhs.mul(rhs),
            _ => lhs.div(rhs),
        };
        match outcome {
            Err(fault) => Err(fault),
            Ok(value) => {
                self.data.pop();
                self.data.pop();
                assert(self@.data =~= old(self)@.data.subrange(0, old(self)@.data.len() - 2));
                self.data.push(value);
                Ok(Effect::Continue)
            },
        }
    }

    fn op_print(&mut self) -> (r: Result<Effect, Fault>)
        ensures
            final(self)@.frames == old(self)@.frames,
            final(self)@.heap == old(self)@.heap,
            old(self)@.print() == (Outcome { state: final(self)@, result: r }),
    {
        if self.data.len() == 0 {
            return Err(Fault::StackUnderflow);
        }
        let value = self.data.pop();
        assert(self@ =~= old(self)@.drop(1));
        Ok(Effect::Print(value))
    }

    fn op_call(&mut self, globals: &GlobalContext, inst: Instruction) -> (r: Result<Effect, Fault>)
        requires
            old(self)@.frames.len() > 0,
        ensures
            old(self)@.frames_wf(globals) ==> final(self)@.frames_wf(globals),
            old(self)@.call(globals, inst.spec_abc() as nat) == (Outcome { state: final(self)@, result: r }),
    {
        let idx = inst.function_index();
        if idx.as_usize() >= globals.function_table().len() {
            return Err(Fault::IndexOutOfRange);
        }
        let callee = globals.function_table().get(idx);
        let begin = self.callstack.peek().locals_end;
        let size: u32 = callee.local_slots().total_size(globals.type_table());
        if size as u64 > u64::MAX - begin.0 {
            return Err(Fault::IndexOutOfRange);
        }
        self.callstack.push(globals.type_table(), callee);
        proof {
            if old(self)@.frames_wf(globals) {
                lemma_frames_wf_pushed(old(self)@, self@, globals, self@.frames.last());
            }
        }
        Ok(Effect::Continue)
    }

    fn op_return(&mut self, globals: &GlobalContext, frame: Frame, func: &Function) -> (r: Result<
        Effect,
        Fault,
    >)
        requires
            old(self).running(globals, frame, func),
        ensures
            old(self)@.frames_wf(globals) ==> final(self)@.frames_wf(globals),
            old(self)@.ret(globals) == (Outcome { state: final(self)@, result: r }),
    {
        let mut frame = frame;
        let size: u32 = func.local_slots().total_size(globals.type_table());
        let offsets = func.local_slots().heap_offsets();
        if size as u64 > u64::MAX - frame.locals_begin.0 {
            return Err(Fault::IndexOutOfRange);
        }
        match frame.deallocate(func, &mut self.locals, &mut self.heap) {
            Err(fault) => Err(fault),
            Ok(()) => {
                if self.callstack.len() < 2 {
                    return Err(Fault::StackUnderflow);
                }
                self.callstack.pop();
                proof {
                    assert(self@.frames =~= old(self)@.frames.drop_last());
                    if old(self)@.frames_wf(globals) {
                        lemma_frames_wf_popped(old(self)@, self@, globals);
                    }
                }
                Ok(Effect::Continue)
            },
        }
    }

    fn op_local_store(&mut self, globals: &GlobalContext, frame: Frame, func: &Function, inst: Instruction) -> (r:
        Result<Effect, Fault>)
        requires
            old(self).running(globals, frame, func),
        ensures
            old(self)@.frames_wf(globals) ==> final(self)@.frames_wf(globals),
            old(self)@.local_store(globals, inst.spec_abc() as nat) == (Outcome { state: final(self)@, result: r }),
    {
        match frame.local_info(func, inst.local_index()) {
            Err(fault) => Err(fault),
            Ok((_, ptr)) => {
                if self.data.len() == 0 {
                    return Err(Fault::StackUnderflow);
                }
                let value = self.data.pop();
                assert(self@ =~= old(self)@.drop(1));
                match self.store_local(ptr, value) {
                    Err(fault) => Err(fault),
                    Ok(_) => Ok(Effect::Continue),
                }
            },
        }
    }

    fn op_local_read(&mut self, globals: &GlobalContext, frame: Frame, func: &Function, inst: Instruction) -> (r:
        Result<Effect, Fault>)
        requires
            old(self).running(globals, frame, func),
        ensures
            old(self)@.frames_wf(globals) ==> final(self)@.frames_wf(globals),
            old(self)@.local_read(globals, inst.spec_abc() as nat) == (Outcome { state: final(self)@, result: r }),
    {
        match frame.local_info(func, inst.local_index()) {
            Err(fault) => Err(fault),
            Ok((value_type, ptr)) => {
                if !value_type.is_primitive() {
                    return Err(Fault::TypeMismatch);
                }
                let value = self.locals.read_value(globals.type_table(), ptr, &value_type);
                self.data.push(value);
                Ok(Effect::Continue)
            },
        }
    }

    fn op_data_type_create(
        &mut self,
        globals: &GlobalContext,
        frame: Frame,
        func: &Function,
        inst: Instruction,
    ) -> (r: Result<Effect, Fault>)
        requires
            old(self).running(globals, frame, func),
        ensures
            old(self)@.frames_wf(globals) ==> final(self)@.frames_wf(globals),
            old(self)@.data_type_create(globals, inst.spec_abc() as nat) == (Outcome { state: final(self)@, result: r }),
    {
        match frame.local_info(func, inst.local_index()) {
            Err(fault) => Err(fault),
            Ok((value_type, ptr)) => match find_record_type(globals.type_table(), value_type) {
                Err(fault) => Err(fault),
                Ok(definition) => match self.store_popped(ptr, definition.num_fields(), false) {
                    Err(fault) => Err(fault),
                    Ok(()) => Ok(Effect::Continue),
                },
            },
        }
    }

    fn op_data_type_read_field(
        &mut self,
        globals: &GlobalContext,
        frame: Frame,
        func: &Function,
        inst: Instruction,
    ) -> (r: Result<Effect, Fault>)
        requires
            old(self).running(globals, frame, func),
        ensures
            old(self)@.frames_wf(globals) ==> final(self)@.frames_wf(globals),
            old(self)@.data_type_read_field(globals, inst.spec_abc() as nat) == (Outcome { state: final(self)@, result: r }),
    {
        match frame.local_info(func, inst.local_index()) {
            Err(fault) => Err(fault),
            Ok((value_type, ptr)) => match find_record_type(globals.type_table(), value_type) {
                Err(fault) => Err(fault),
                Ok(definition) => {
                    if self.extensions.len() == 0 {
                        return Err(Fault::StackUnderflow);
                    }
                    let field: u32 = self.extensions.peek().abc();
                    match find_field_slot(definition, ptr, field) {
                        Err(fault) => Err(fault),
                        Ok((field_type, field_ptr)) => {
                            if !field_type.is_primitive() {
                                return Err(Fault::TypeMismatch);
                            }
                            self.extensions.pop();
                            let value = self.locals.read_value(globals.type_table(), field_ptr, &field_type);
                            self.data.push(value);
                            Ok(Effect::Continue)
                        },
                    }
                },
            },
        }
    }

    fn op_data_type_set_field(
        &mut self,
        globals: &GlobalContext,
        frame: Frame,
        func: &Function,
        inst: Instruction,
    ) -> (r: Result<Effect, Fault>)
        requires
            old(self).running(globals, frame, func),
        ensures
            old(self)@.frames_wf(globals) ==> final(self)@.frames_wf(globals),
            old(self)@.data_type_set_field(globals, inst.spec_abc() as nat) == (Outcome { state: final(self)@, result: r }),
    {
        match frame.local_info(func, inst.local_index()) {
            Err(fault) => Err(fault),
            Ok((value_type, ptr)) => match find_record_type(globals.type_table(), value_type) {
                Err(fault) => Err(fault),
                Ok(definition) => {
                    if self.extensions.len() == 0 || self.data.len() == 0 {
                        return Err(Fault::StackUnderflow);
                    }
                    let field: u32 = self.extensions.peek().abc();
                    match find_field_slot(definition, ptr, field) {
                        Err(fault) => Err(fault),
                        Ok((_, field_ptr)) => {
                            self.extensions.pop();
                            let value = self.data.pop();
                            assert(self@ =~= (ContextView {
                                extensions: old(self)@.extensions.drop_last(),
                                ..old(self)@.drop(1)
                            }));
                            match self.store_local(field_ptr, value) {
                                Err(fault) => Err(fault),
                                Ok(_) => Ok(Effect::Continue),
                            }
                        },
                    }
                },
            },
        }
    }

    fn op_heap_alloc(&mut self, globals: &GlobalContext, frame: Frame, func: &Function, inst: Instruction) -> (r:
        Result<Effect, Fault>)
        requires
            old(self).running(globals, frame, func),
        ensures
            old(self)@.frames_wf(globals) ==> final(self)@.frames_wf(globals),
            old(self)@.heap_alloc(globals, inst.spec_abc() as nat) == (Outcome { state: final(self)@, result: r }),
    {
        let type_table = globals.type_table();
        match frame.local_info(func, inst.local_index()) {
            Err(fault) => Err(fault),
            Ok((value_type, slot_ptr)) => match value_type {
                ValueType::HeapData(element) => {
                    if element.as_usize() >= type_table.len() {
                        return Err(Fault::IndexOutOfRange);
                    }
                    assert(1 * type_table.spec_size(element@) == type_table.spec_size(element@));
                    let size: u32 = match ContextHeap::allocation_size(type_table, element, 1) {
                        Some(size) => size,
                        None => {
                            return Err(Fault::IndexOutOfRange);
                        },
                    };
                    if !self.heap.can_allocate(size) {
                        return Err(Fault::IndexOutOfRange);
                    }
                    let ptr = self.heap.allocate(type_table, element);
                    let payload = ptr.offset(HEADER_SIZE);
                    let pointer = Value::HeapData(ptr);
                    match self.store_local(slot_ptr, pointer) {
                        Err(fault) => Err(fault),
                        Ok(_) => {
                            let fields: u32 = type_table.get(element).num_fields();
                            match self.store_popped(payload, fields, true) {
                                Err(fault) => Err(fault),
                                Ok(()) => {
                                    self.data.push(pointer);
                                    Ok(Effect::Continue)
                                },
                            }
                        },
                    }
                },
                _ => Err(Fault::TypeMismatch),
            },
        }
    }

    fn op_heap_store(&mut self, globals: &GlobalContext, inst: Instruction) -> (r: Result<Effect, Fault>)
        ensures
            old(self)@.frames_wf(globals) ==> final(self)@.frames_wf(globals),
            old(self)@.heap_store(globals, inst.spec_abc() as nat) == (Outcome { state: final(self)@, result: r }),
    {
        self.heap.bounds();
        if self.data.len() < 2 {
            return Err(Fault::StackUnderflow);
        }
        let value = *self.data.get(0);
        match *self.data.get(1) {
            Value::HeapData(ptr) => match find_allocation_type(globals.type_table(), &self.heap, ptr) {
                Err(fault) => Err(fault),
                Ok(definition) => match find_field_slot(definition, ptr.offset(HEADER_SIZE), inst.abc()) {
                    Err(fault) => Err(fault),
                    Ok((_, field_ptr)) => {
                        self.data.pop();
                        self.data.pop();
                        assert(self@.data =~= old(self)@.data.subrange(0, old(self)@.data.len() - 2));
                        assert(self@ =~= old(self)@.drop(2));
                        match self.store_heap(field_ptr, value) {
                            Err(fault) => Err(fault),
                            Ok(_) => {
                                self.data.push(value);
                                Ok(Effect::Continue)
                            },
                        }
                    },
                },
            },
            _ => Err(Fault::NotAPointer),
        }
    }

    fn op_heap_read(&mut self, globals: &GlobalContext, inst: Instruction) -> (r: Result<Effect, Fault>)
        ensures
            old(self)@.frames_wf(globals) ==> final(self)@.frames_wf(globals),
            old(self)@.heap_read(globals, inst.spec_abc() as nat) == (Outcome { state: final(self)@, result: r }),
    {
        self.heap.bounds();
        if self.data.len() == 0 {
            return Err(Fault::StackUnderflow);
        }
        match *self.data.peek() {
            Value::HeapData(ptr) => match find_allocation_type(globals.type_table(), &self.heap, ptr) {
                Err(fault) => Err(fault),
                Ok(definition) => match find_field_slot(definition, ptr.offset(HEADER_SIZE), inst.abc()) {
                    Err(fault) => Err(fault),
                    Ok((field_type, field_ptr)) => {
                        if !field_type.is_primitive() {
                            return Err(Fault::TypeMismatch);
                        }
                        let value = self.heap.read_value(globals.type_table(), field_ptr, &field_type);
                        self.data.pop();
                        self.data.push(value);
                        assert(self@ =~= old(self)@.drop(1).push(value));
                        Ok(Effect::Continue)
                    },
                },
            },
            _ => Err(Fault::NotAPointer),
        }
    }

    fn op_const(&mut self, globals: &GlobalContext, inst: Instruction) -> (r: Result<Effect, Fault>)
        ensures
            final(self)@.frames == old(self)@.frames,
            final(self)@.heap == old(self)@.heap,
            old(self)@.constant(globals, inst.spec_abc() as nat) == (Outcome { state: final(self)@, result: r }),
    {
        let idx = inst.instruction_index();
        if idx.as_usize() >= globals.constant_pool().len() {
            return Err(Fault::IndexOutOfRange);
        }
        self.data.push(globals.constant_pool().get(idx));
        Ok(Effect::Continue)
    }

    /// Does what the operation `op` of `inst` asks for, the instruction
    /// pointer having moved past `inst`.
    fn execute(
        &mut self,
        globals: &GlobalContext,
        frame: Frame,
        func: &Function,
        op: Opcode,
        inst: Instruction,
    ) -> (r: Result<Effect, Fault>)
        requires
            old(self).running(globals, frame, func),
        ensures
            old(self)@.frames_wf(globals) ==> final(self)@.frames_wf(globals),
            old(self)@.execute(globals, op, inst) == (Outcome { state: final(self)@, result: r }),
    {
        match op {
            Opcode::Halt => Ok(Effect::Halt),
            Opcode::Add => self.op_arith(op),
            Opcode::Sub => self.op_arith(op),
            Opcode::Mul => self.op_arith(op),
            Opcode::Div => self.op_arith(op),
            Opcode::Print => self.op_print(),
            Opcode::Call => self.op_call(globals, inst),
            Opcode::Return => self.op_return(globals, frame, func),
            Opcode::LocalStore => self.op_local_store(globals, frame, func, inst),
            Opcode::LocalRead => self.op_local_read(globals, frame, func, inst),
            Opcode::DataTypeCreate => self.op_data_type_create(globals, frame, func, inst),
            Opcode::DataTypeSetField => self.op_data_type_set_field(globals, frame, func, inst),
            Opcode::DataTypeReadField => self.op_data_type_read_field(globals, frame, func, inst),
            Opcode::HeapAlloc => self.op_heap_alloc(globals, frame, func, inst),
            Opcode::HeapStore => self.op_heap_store(globals, inst),
            Opcode::HeapRead => self.op_heap_read(globals, inst),
            Opcode::Extend => {
                self.extensions.push(inst);
                Ok(Effect::Continue)
            },
            Opcode::ImmI16 => {
                self.data.push(Value::I16(inst.i16()));
                Ok(Effect::Continue)
            },
            Opcode::ImmI8 => {
                self.data.push(Value::I8(inst.i8()));
                Ok(Effect::Continue)
            },
            Opcode::ImmU16 => {
                self.data.push(Value::U16(inst.u16()));
                Ok(Effect::Continue)
            },
            Opcode::ImmU8 => {
                self.data.push(Value::U8(inst.u8()));
                Ok(Effect::Continue)
            },
            Opcode::ImmChar => {
                self.data.push(Value::Char(inst.char()));
                Ok(Effect::Continue)
            },
            Opcode::ImmBool => {
                self.data.push(Value::Bool(inst.bool()));
                Ok(Effect::Continue)
            },
            Opcode::Const => self.op_const(globals, inst),
        }
    }

    /// Pushes the root frame, for the function `entrypoint`.
    pub fn start(&mut self, globals: &GlobalContext, entrypoint: FunctionIndex) -> (r: Result<(), Fault>)
        ensures
            final(self)@.heap.wf(),
            old(self)@.frames.len() == 0 ==> final(self)@.wf(globals),
            old(self)@.start(globals, entrypoint@) == (Outcome { state: final(self)@, result: r }),
    {
        self.heap.bounds();
        if entrypoint.as_usize() >= globals.function_table().len() {
            return Err(Fault::IndexOutOfRange);
        }
        let function = globals.function_table().get(entrypoint);
        let size: u32 = function.local_slots().total_size(globals.type_table());
        self.callstack.initialize(globals.type_table(), function);
        Ok(())
    }

    /// Executes one instruction. Gives what the instruction asks of the
    /// host, or the fault that ends the execution and leaves the context in
    /// the state in which the fault was met.
    pub fn step(&mut self, globals: &GlobalContext) -> (r: Result<Effect, Fault>)
        ensures
            final(self)@.heap.wf(),
            old(self)@.wf(globals) ==> final(self)@.wf(globals),
            old(self)@.step(globals) == (Outcome { state: final(self)@, result: r }),
    {
        reveal(ContextView::step);
        self.heap.bounds();
        if self.callstack.len() == 0 {
            return Err(Fault::StackUnderflow);
        }
        let frame = *self.callstack.peek();
        if frame.function.as_usize() >= globals.function_table().len() {
            return Err(Fault::IndexOutOfRange);
        }
        let func = globals.function_table().get(frame.function);
        let inst = match func.instruction_at(frame.ip.0) {
            Some(inst) => inst,
            None => {
                return Err(Fault::IndexOutOfRange);
            },
        };
        let op = match inst.try_op() {
            Some(op) => op,
            None => {
                return Err(Fault::UnknownOpcode);
            },
        };
        let held: usize = func.len();
        self.callstack.advance();
        let frame = *self.callstack.peek();
        proof {
            assert(self@ =~= old(self)@.advance());
            if old(self)@.frames_wf(globals) {
                lemma_frames_wf_advanced(old(self)@, globals);
            }
        }
        let r = self.execute(globals, frame, func, op, inst);
        self.heap.bounds();
        r
    }

    /// Executes instructions until a `halt`, arithmetic on floats, a fault,
    /// or the end of `fuel` steps. The values printed are appended to
    /// `output` in order.
    pub fn resume(&mut self, globals: &GlobalContext, fuel: u64, output: &mut Vec<Value>) -> (r: Result<
        RunStatus,
        Fault,
    >)
        ensures
            final(self)@.heap.wf(),
            old(self)@.wf(globals) ==> final(self)@.wf(globals),
            old(self)@.resume(globals, fuel as nat).state == final(self)@,
            old(self)@.resume(globals, fuel as nat).result == r,
            final(output)@ == old(output)@ + old(self)@.resume(globals, fuel as nat).printed,
    {
        self.heap.bounds();
        let mut left: u64 = fuel;
        let ghost mut printed: Seq<Value> = Seq::empty();
        proof {
            assert(output@ =~= old(output)@ + printed);
            assert(printed + Seq::<Value>::empty() =~= printed);
        }
        loop
            invariant
                self@.heap.wf(),
                old(self)@.wf(globals) ==> self@.wf(globals),
                output@ == old(output)@ + printed,
                old(self)@.resume(globals, fuel as nat) == after_printing(
                    printed,
                    self@.resume(globals, left as nat),
                ),
            decreases left,
        {
            if left == 0 {
                proof {
                    assert(printed + Seq::<Value>::empty() =~= printed);
                }
                return Ok(RunStatus::OutOfFuel);
            }
            let ghost before = self@;
            match self.step(globals) {
                Err(fault) => {
                    return Err(fault);
                },
                Ok(effect) => {
                    match effect {
                        Effect::Halt => {
                            proof {
                                assert(printed + Seq::<Value>::empty() =~= printed);
                            }
                            return Ok(RunStatus::Halted);
                        },
                        Effect::FloatArithmetic(op, lhs, rhs) => {
                            proof {
                                assert(printed + Seq::<Value>::empty() =~= printed);
                            }
                            return Ok(RunStatus::FloatArithmetic(op, lhs, rhs));
                        },
                        Effect::Print(value) => {
                            output.push(value);
                            proof {
                                let rest = self@.resume(globals, (left - 1) as nat);
                                assert(printed + (seq![value] + rest.printed) =~= printed.push(value)
                                    + rest.printed);
                                printed = printed.push(value);
                                assert(output@ =~= old(output)@ + printed);
                            }
                        },
                        Effect::Continue => {},
                    }
                },
            }
            left = left - 1;
        }
    }

    /// Runs the function `entrypoint` from its first instruction, as
    /// `resume` does.
    pub fn run(
        &mut self,
        globals: &GlobalContext,
        entrypoint_index: FunctionIndex,
        fuel: u64,
        output: &mut Vec<Value>,
    ) -> (r: Result<RunStatus, Fault>)
        ensures
            final(self)@.heap.wf(),
            old(self)@.frames.len() == 0 ==> final(self)@.wf(globals),
            old(self)@.run(globals, entrypoint_index@, fuel as nat).state == final(self)@,
            old(self)@.run(globals, entrypoint_index@, fuel as nat).result == r,
            final(output)@ == old(output)@ + old(self)@.run(globals, entrypoint_index@, fuel as nat).printed,
    {
        match self.start(globals, entrypoint_index) {
            Err(fault) => Err(fault),
            Ok(()) => self.resume(globals, fuel, output),
        }
    }
}

impl Default for ExecutionContext {
    fn default() -> (r: Self)
        ensures
            r@ == ContextView::initial(),
    {
        Self::new()
    }
}

} // verus!
