use sahara::constant_pool::ConstantPool;
use sahara::execution_context::Frame;
use sahara::memory::dynamic_mem::{ContextHeap, HeapAllocation};
use sahara::memory::{GrowableContiguousMemory, Pointer, StaticMemory};
use sahara::util::endian::{decode, encode};
use sahara::util::stack::Stack;
use sahara::util::text::{decimal_text, signed_decimal_text};
use sahara::{
    Fault, Field, Function, FunctionIndex, InstructionIndex, LocalIndex, LocalSlots, ModuleRegistry,
    TypeDefinition, TypeId, TypeTable, Value, ValueType,
};

#[test]
fn adding_a_constant_twice_gives_one_entry_and_one_index() {
    let mut pool = ConstantPool::new();
    let first = pool.add(Value::U64(7));
    let again = pool.add(Value::U64(7));
    assert_eq!(first, again);
    assert_eq!(pool.len(), 1);
    let other = pool.add(Value::I64(7));
    assert_eq!(other.value(), 1);
    assert_eq!(pool.add(Value::U64(7)).value(), 0);
    assert_eq!(pool.len(), 2);
    assert_eq!(pool.get(InstructionIndex::new(1)), Value::I64(7));
    assert_eq!(pool.find(&Value::U8(7)), None);
}

#[test]
fn float_constants_are_held_once_by_bit_pattern() {
    let mut pool = ConstantPool::new();
    let nan = pool.add(Value::F64(f64::NAN.to_bits()));
    assert_eq!(pool.add(Value::F64(f64::NAN.to_bits())), nan);
    let zero = pool.add(Value::F64(0.0f64.to_bits()));
    let negative_zero = pool.add(Value::F64((-0.0f64).to_bits()));
    assert_ne!(zero, negative_zero);
    assert_eq!(pool.len(), 3);
    assert_eq!(pool.try_add(Value::F32(1.0f32.to_bits())).map(|i| i.value()), Ok(3));
}

#[test]
fn values_are_big_endian_in_their_width() {
    assert_eq!(Value::Bool(true).be_bytes(), vec![1]);
    assert_eq!(Value::Bool(false).be_bytes(), vec![0]);
    assert_eq!(Value::Char('A').be_bytes(), vec![0x41]);
    assert_eq!(Value::Char('\u{e9}').be_bytes(), vec![0xE9]);
    assert_eq!(Value::U8(0xAB).be_bytes(), vec![0xAB]);
    assert_eq!(Value::U16(0x1234).be_bytes(), vec![0x12, 0x34]);
    assert_eq!(Value::U32(0x01020304).be_bytes(), vec![1, 2, 3, 4]);
    assert_eq!(
        Value::U64(0x0102030405060708).be_bytes(),
        vec![1, 2, 3, 4, 5, 6, 7, 8]
    );
    assert_eq!(Value::I8(-1).be_bytes(), vec![0xFF]);
    assert_eq!(Value::I16(-2).be_bytes(), vec![0xFF, 0xFE]);
    assert_eq!(Value::I32(i32::MIN).be_bytes(), vec![0x80, 0, 0, 0]);
    assert_eq!(Value::I64(-1).be_bytes(), vec![0xFF; 8]);
    assert_eq!(
        Value::F32(1.0f32.to_bits()).be_bytes(),
        1.0f32.to_be_bytes().to_vec()
    );
    assert_eq!(
        Value::F64((-2.5f64).to_bits()).be_bytes(),
        (-2.5f64).to_be_bytes().to_vec()
    );
    assert_eq!(
        Value::HeapData(Pointer::new(0x10)).be_bytes(),
        vec![0, 0, 0, 0, 0, 0, 0, 0x10]
    );
    assert_eq!(Pointer::new(258).be_bytes(), vec![0, 0, 0, 0, 0, 0, 1, 2]);
    assert!(!Value::Char('\u{100}').is_storable());
    let mut slot = [0u8; 4];
    Value::I32(-3).into_slice(&mut slot);
    assert_eq!(slot, [0xFF, 0xFF, 0xFF, 0xFD]);
}

#[test]
fn bytes_read_back_as_the_value_written() {
    let values = [
        (Value::Bool(true), ValueType::Bool),
        (Value::Char('q'), ValueType::Char),
        (Value::U8(200), ValueType::U8),
        (Value::U16(65535), ValueType::U16),
        (Value::U32(4_000_000_000), ValueType::U32),
        (Value::U64(u64::MAX), ValueType::U64),
        (Value::I8(-128), ValueType::I8),
        (Value::I16(-32768), ValueType::I16),
        (Value::I32(-123456), ValueType::I32),
        (Value::I64(i64::MIN), ValueType::I64),
        (Value::F32(3.5f32.to_bits()), ValueType::F32),
        (Value::F64(f64::INFINITY.to_bits()), ValueType::F64),
    ];
    let table = TypeTable::new();
    for (value, value_type) in values {
        assert_eq!(value.size(), value_type.size(&table));
        assert_eq!(value.size(), value_type.width());
        assert!(value_type.is_primitive());
        assert_eq!(value_type.create_value(&value.be_bytes()), value);
    }
    assert_eq!(ValueType::Bool.create_value(&[7]), Value::Bool(true));
    assert_eq!(ValueType::Char.create_value(&[0xE9]), Value::Char('\u{e9}'));
    assert_eq!(ValueType::HeapData(sahara::TypeIndex::new(0)).size(&table), 8);
    assert!(!ValueType::HeapData(sahara::TypeIndex::new(0)).is_primitive());
    assert_eq!(
        ValueType::LocalData(sahara::TypeIndex::new(4)).type_index().value(),
        4
    );
    assert_eq!(ValueType::LocalData(sahara::TypeIndex::new(4)).name(), "LocalData");
}

#[test]
fn arithmetic_on_values() {
    assert_eq!(Value::U8(2).add(Value::U8(3)), Ok(Value::U8(5)));
    assert_eq!(Value::I64(-2).mul(Value::I64(3)), Ok(Value::I64(-6)));
    assert_eq!(Value::I32(7).div(Value::I32(-2)), Ok(Value::I32(-3)));
    assert_eq!(Value::I32(-7).div(Value::I32(-2)), Ok(Value::I32(3)));
    assert_eq!(Value::U64(7).sub(Value::U64(7)), Ok(Value::U64(0)));
    assert_eq!(
        Value::U64(u64::MAX).mul(Value::U64(u64::MAX)),
        Err(Fault::ArithmeticOverflow)
    );
    assert_eq!(
        Value::I64(i64::MIN).div(Value::I64(-1)),
        Err(Fault::ArithmeticOverflow)
    );
    assert_eq!(Value::U16(1).div(Value::U16(0)), Err(Fault::DivisionByZero));
    assert_eq!(Value::U16(1).add(Value::U8(1)), Err(Fault::TypeMismatch));
    assert_eq!(Value::Char('a').add(Value::Char('b')), Err(Fault::TypeMismatch));
    assert_eq!(
        Value::HeapData(Pointer::new(1)).sub(Value::HeapData(Pointer::new(1))),
        Err(Fault::TypeMismatch)
    );
    assert_eq!(Value::F64(0).add(Value::F64(0)), Err(Fault::FloatArithmetic));
    assert_eq!(Value::F64(0).add(Value::F32(0)), Err(Fault::TypeMismatch));
    assert_eq!(Fault::DivisionByZero.message(), "division by zero");
}

#[test]
fn values_have_their_text() {
    assert_eq!(Value::U64(12).text().unwrap(), "U64(12)");
    assert_eq!(Value::U8(0).text().unwrap(), "U8(0)");
    assert_eq!(Value::I16(-300).text().unwrap(), "I16(-300)");
    assert_eq!(Value::I64(i64::MIN).text().unwrap(), "I64(-9223372036854775808)");
    assert_eq!(Value::Bool(false).text().unwrap(), "Bool(false)");
    assert_eq!(Value::Char('x').text().unwrap(), "Char(x)");
    assert_eq!(Value::HeapData(Pointer::new(48)).text().unwrap(), "HeapData(48)");
    assert_eq!(Value::F32(0).text(), None);
    assert_eq!(decimal_text(u64::MAX), "18446744073709551615");
    assert_eq!(signed_decimal_text(-10), "-10");
}

#[test]
fn encode_and_decode_are_inverse() {
    assert_eq!(encode(0x0A0B0C, 3), vec![0x0A, 0x0B, 0x0C]);
    assert_eq!(encode(0x0A0B0C, 2), vec![0x0B, 0x0C]);
    assert_eq!(encode(5, 0), Vec::<u8>::new());
    assert_eq!(decode(&[0x0A, 0x0B, 0x0C]), 0x0A0B0C);
    assert_eq!(decode(&[]), 0);
    assert_eq!(decode(&[0xFF; 8]), u64::MAX);
}

#[test]
fn memory_grows_and_reads_zero_beyond_its_end() {
    let table = TypeTable::new();
    let mut memory = GrowableContiguousMemory::new();
    assert_eq!(memory.len(), 0);
    assert_eq!(memory.read_bytes(Pointer::new(100), 3), vec![0, 0, 0]);
    assert_eq!(
        memory.read_value(&table, Pointer::new(5), &ValueType::U32),
        Value::U32(0)
    );
    let report = memory.store_value(Pointer::new(4), Value::U16(0xBEEF));
    assert_eq!(report.end(), Pointer::new(6));
    assert_eq!(report.allocations(), None);
    assert_eq!(memory.len(), 6);
    assert_eq!(memory.slice(0..6), &[0, 0, 0, 0, 0xBE, 0xEF]);
    assert_eq!(
        memory.read_value(&table, Pointer::new(4), &ValueType::U16),
        Value::U16(0xBEEF)
    );
    assert_eq!(
        memory.read_value(&table, Pointer::new(5), &ValueType::U16),
        Value::U16(0xEF00)
    );
    memory.ensure_capacity(3);
    assert_eq!(memory.len(), 6);
    memory.ensure_capacity(10);
    assert_eq!(memory.len(), 10);
    memory.zero(Pointer::new(5), Pointer::new(400));
    assert_eq!(memory.slice(0..10), &[0, 0, 0, 0, 0xBE, 0, 0, 0, 0, 0]);
    assert_eq!(memory.len(), 10);
    Value::U16(0x0102).into_slice(memory.slice_mut(7..9));
    assert_eq!(memory.slice(0..10), &[0, 0, 0, 0, 0xBE, 0, 0, 1, 2, 0]);
    memory.zero(Pointer::new(9), Pointer::new(2));
    assert_eq!(memory.read_bytes(Pointer::new(4), 1), vec![0xBE]);
}

#[test]
fn storing_a_pointer_reports_the_pointer_overwritten() {
    let mut memory = StaticMemory::new();
    let first = memory.store_value(Pointer::new(8), Value::HeapData(Pointer::new(64)));
    assert_eq!(first.end(), Pointer::new(16));
    assert_eq!(first.allocations(), Some((Pointer::new(0), Pointer::new(64))));
    let second = memory.store_value(Pointer::new(8), Value::HeapData(Pointer::new(96)));
    assert_eq!(second.allocations(), Some((Pointer::new(64), Pointer::new(96))));
    let plain = memory.store_value(Pointer::new(8), Value::U64(1));
    assert_eq!(plain.allocations(), None);
}

#[test]
fn pointer_arithmetic() {
    let mut p = Pointer::new(10);
    assert_eq!(p.offset(5), Pointer::new(15));
    assert_eq!(p.offset_range(4), 10..14);
    assert_eq!(p.range(Pointer::new(12)), 10..12);
    assert_eq!(p.checked_offset(u64::MAX), None);
    assert_eq!(p.checked_offset(1), Some(Pointer::new(11)));
    p.incr(6);
    assert_eq!(p.address(), 16);
    assert!(p.is_valid_allocation());
    assert!(!Pointer::new(0).is_valid_allocation());
    assert_eq!(Pointer::from_be_bytes(&[0, 0, 0, 0, 0, 0, 1, 0]), Pointer::new(256));
    assert_eq!(Pointer::default(), Pointer::new(0));
}

#[test]
fn header_round_trip() {
    let header = HeapAllocation::new(sahara::TypeIndex::new(0x010203), 7, 72);
    let bytes = header.be_bytes();
    assert_eq!(bytes, vec![0, 0, 0, 1, 0, 1, 2, 3, 0, 0, 0, 7, 0, 0, 0, 72]);
    let back = HeapAllocation::from_memory(&bytes);
    assert_eq!(back.references.reference_count(), 1);
    assert_eq!(back.type_index.value(), 0x010203);
    assert_eq!(back.num, 7);
    assert_eq!(back.size, 72);
    assert!(back.has_live_references());
    assert_eq!(HeapAllocation::size(), 16);
}

#[test]
fn stack_is_last_in_first_out() {
    let mut stack: Stack<u32> = Stack::new();
    assert!(stack.is_empty());
    stack.push(1);
    stack.push(2);
    stack.push(3);
    assert_eq!(*stack.peek(), 3);
    assert_eq!(*stack.get(2), 1);
    *stack.peek_mut() = 9;
    assert_eq!(stack.pop(), 9);
    assert_eq!(stack.pop(), 2);
    assert_eq!(stack.len(), 1);
}

fn module_type(name: &str) -> TypeDefinition {
    let mut registry = ModuleRegistry::new();
    let module = registry.register("test".to_string());
    TypeDefinition::new(TypeId::new(&module, name))
}

#[test]
fn local_slots_are_packed_and_heap_slots_listed() {
    let mut table = TypeTable::new();
    let mut pair = module_type("Pair");
    pair.add_field(&table, Field::new("a".to_string(), ValueType::U16));
    pair.add_field(&table, Field::new("b".to_string(), ValueType::U8));
    let pair = table.insert(pair);
    let mut slots = LocalSlots::new();
    slots.add_slot(&table, ValueType::U64);
    slots.add_slot(&table, ValueType::HeapData(pair));
    slots.add_slot(&table, ValueType::LocalData(pair));
    slots.add_slot(&table, ValueType::Bool);
    slots.add_slot(&table, ValueType::HeapData(pair));
    assert_eq!(slots.len(), 5);
    assert_eq!(slots.total_size(&table), 28);
    assert_eq!(slots.heap_offsets(), &[8, 20]);
    assert_eq!(slots.allocate(&table, Pointer::new(100)), Pointer::new(128));
    assert_eq!(
        slots.slot_info(LocalIndex::new(2), Pointer::new(100)),
        (ValueType::LocalData(pair), Pointer::new(116))
    );
    assert_eq!(slots.offset_of(LocalIndex::new(3)), 19);
    assert_eq!(slots.type_of(LocalIndex::new(0)), ValueType::U64);
}

#[test]
fn teardown_frees_what_the_frame_owned_alone() {
    let mut table = TypeTable::new();
    let mut cell = module_type("Cell");
    cell.add_field(&table, Field::new("v".to_string(), ValueType::U64));
    let cell = table.insert(cell);
    let mut slots = LocalSlots::new();
    slots.add_slot(&table, ValueType::U8);
    slots.add_slot(&table, ValueType::HeapData(cell));
    slots.add_slot(&table, ValueType::HeapData(cell));
    let function = Function::new(FunctionIndex::new(0), slots);
    let mut frame = Frame::new(&table, Pointer::new(40), &function);
    assert_eq!(frame.locals_end, Pointer::new(57));
    assert_eq!(
        frame.local_info(&function, LocalIndex::new(1)),
        Ok((ValueType::HeapData(cell), Pointer::new(41)))
    );
    assert_eq!(
        frame.local_info(&function, LocalIndex::new(3)),
        Err(Fault::IndexOutOfRange)
    );

    let mut heap = ContextHeap::new();
    let owned = heap.allocate(&table, cell);
    let shared = heap.allocate(&table, cell);
    heap.add_reference(shared);
    let mut locals = StaticMemory::new();
    locals.store_value(Pointer::new(39), Value::U8(0xAA));
    locals.store_value(Pointer::new(40), Value::U8(0xBB));
    locals.store_value(Pointer::new(41), Value::HeapData(owned));
    locals.store_value(Pointer::new(49), Value::HeapData(shared));
    locals.store_value(Pointer::new(57), Value::U8(0xCC));

    let mut references = function.heap_references(Pointer::new(40));
    assert_eq!(references.next(), Some(Pointer::new(41)));
    assert_eq!(references.next(), Some(Pointer::new(49)));
    assert_eq!(references.next(), None);

    assert_eq!(frame.deallocate(&function, &mut locals, &mut heap), Ok(()));
    assert_eq!(locals.read_bytes(Pointer::new(40), 17), vec![0u8; 17]);
    assert_eq!(locals.read_bytes(Pointer::new(39), 1), vec![0xAA]);
    assert_eq!(locals.read_bytes(Pointer::new(57), 1), vec![0xCC]);
    assert!(!heap.is_allocation_valid(owned));
    assert_eq!(heap.free_list_len(), 1);
    assert_eq!(heap.free_block(0).ptr, owned);
    assert_eq!(heap.free_block(0).size, 24);
    assert_eq!(heap.reference_count(shared), 1);
}

#[test]
fn teardown_of_a_dangling_pointer_faults() {
    let mut table = TypeTable::new();
    let cell = table.insert(module_type("Cell"));
    let mut slots = LocalSlots::new();
    slots.add_slot(&table, ValueType::HeapData(cell));
    let function = Function::new(FunctionIndex::new(0), slots);
    let mut frame = Frame::new(&table, Pointer::new(0), &function);
    let mut heap = ContextHeap::new();
    let mut locals = StaticMemory::new();
    locals.store_value(Pointer::new(0), Value::HeapData(Pointer::new(640)));
    assert_eq!(
        frame.deallocate(&function, &mut locals, &mut heap),
        Err(Fault::IndexOutOfRange)
    );
}
