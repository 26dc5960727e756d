use sahara::heap::HeapIndex;
use sahara::memory::{
    ContextHeap, DynamicMemory, GrowableContiguousMemory, Memory, Pointer, StaticMemory,
};
use sahara::program::{InstructionAddress, Program};
use sahara::{
    ConstantIndex, Field, Function, FunctionIndex, Instruction, InstructionIndex, LocalIndex,
    LocalSlots, ModuleRegistry, Opcode, TypeDefinition, TypeId, TypeTable, Value, ValueType,
};

#[test]
fn instructions_have_their_text() {
    assert_eq!(Instruction::halt().text(), "halt");
    assert_eq!(Instruction::ret().text(), "return");
    assert_eq!(Instruction::add().text(), "add");
    assert_eq!(Instruction::call(FunctionIndex::new(3)).text(), "call 3");
    assert_eq!(Instruction::local_read(LocalIndex::new(0)).text(), "local_read 0");
    assert_eq!(
        Instruction::constant(ConstantIndex::new(0xFFFFFF)).text(),
        "const 16777215"
    );
    assert_eq!(Instruction::imm_i16(-5).text(), "imm_i16 -5");
    assert_eq!(Instruction::imm_i8(-128).text(), "imm_i8 -128");
    assert_eq!(Instruction::imm_u16(513).text(), "imm_u16 513");
    assert_eq!(Instruction::imm_u8(0).text(), "imm_u8 0");
    assert_eq!(Instruction::imm_char(b'x').text(), "imm_char x");
    assert_eq!(Instruction::imm_bool(false).text(), "imm_bool false");
    assert_eq!(
        Instruction::extend(InstructionIndex::new(2)).text(),
        "extend 2"
    );
    assert_eq!(
        Instruction::heap_store(InstructionIndex::new(1)).text(),
        "heap_store 1"
    );
    assert!(Opcode::Extend.is_indexed());
    assert!(!Opcode::ImmU8.is_indexed());
}

#[test]
fn a_function_lists_its_instructions() {
    let function = Function::from_instructions(
        FunctionIndex::new(0),
        LocalSlots::new(),
        vec![
            Instruction::imm_u8(1),
            Instruction::print(),
            Instruction::halt(),
        ],
    );
    assert_eq!(function.listing(), "imm_u8 1\nprint\nhalt\n");
    assert_eq!(function.index(), FunctionIndex::new(0));
    assert_eq!(function.instruction_at(1), Some(Instruction::print()));
    assert_eq!(function.instruction_at(3), None);
    let mut ip = sahara::function::InstructionPointer::new();
    assert_eq!(function.next_instruction(&mut ip), Instruction::imm_u8(1));
    assert_eq!(ip.0, 1);
    assert_eq!(
        Function::new(FunctionIndex::new(1), LocalSlots::new()).listing(),
        ""
    );
}

#[test]
fn a_program_steps_through_its_instructions() {
    let mut program = Program::new();
    assert!(!program.has_next());
    program.add(Instruction::print());
    program.add(Instruction::halt());
    let (address, instruction) = program.step();
    assert_eq!(address, InstructionAddress(0));
    assert_eq!(instruction, Instruction::print());
    let (address, instruction) = program.step();
    assert_eq!(address, InstructionAddress(1));
    assert_eq!(instruction, Instruction::halt());
    assert!(!program.has_next());
    program.set_ip(InstructionAddress(1));
    assert!(program.has_next());
    assert_eq!(program.step().1, Instruction::halt());
    let mut address = InstructionAddress(7);
    assert_eq!(address.increment(), 7);
    assert_eq!(address, InstructionAddress(8));
}

#[test]
fn heap_index_is_big_endian() {
    assert_eq!(HeapIndex(0x0102).be_bytes(), vec![0, 0, 0, 0, 0, 0, 1, 2]);
}

fn write_then_clear<M: Memory>(memory: &mut M, table: &TypeTable) -> (Value, Value) {
    let report = memory.store_value(Pointer::new(20), Value::I16(-2));
    assert_eq!(report.end(), Pointer::new(22));
    let written = memory.read_value(table, Pointer::new(20), &ValueType::I16);
    memory.zero(Pointer::new(20), Pointer::new(21));
    let cleared = memory.read_value(table, Pointer::new(20), &ValueType::I16);
    (written, cleared)
}

#[test]
fn every_memory_stores_reads_and_clears() {
    let table = TypeTable::new();
    let expected = (Value::I16(-2), Value::I16(0x00FE));
    assert_eq!(
        write_then_clear(&mut GrowableContiguousMemory::new(), &table),
        expected
    );
    assert_eq!(write_then_clear(&mut StaticMemory::new(), &table), expected);
    assert_eq!(write_then_clear(&mut ContextHeap::new(), &table), expected);
}

fn count_up_and_down<H: DynamicMemory>(heap: &mut H, table: &TypeTable, cell: sahara::TypeIndex) -> bool {
    let first = heap.allocate(table, cell);
    let second = heap.allocate_n(table, cell, 2);
    assert_eq!(first, Pointer::new(16));
    assert_eq!(second, Pointer::new(40));
    assert_eq!(heap.type_of(table, second).name().as_str(), "test::Cell");
    heap.add_reference(first);
    heap.replace_reference(first, second);
    assert!(heap.is_allocation_valid(first));
    heap.remove_reference(first);
    heap.remove_reference(second);
    !heap.is_allocation_valid(first) && heap.is_allocation_valid(second)
}

#[test]
fn a_dynamic_memory_counts_references() {
    let mut registry = ModuleRegistry::new();
    let module = registry.register("test".to_string());
    let mut table = TypeTable::new();
    let mut cell = TypeDefinition::new(TypeId::new(&module, "Cell"));
    cell.add_field(&table, Field::new("v".to_string(), ValueType::U64));
    let cell = table.insert(cell);
    assert!(count_up_and_down(&mut ContextHeap::new(), &table, cell));
}

#[test]
fn heap_pointers_inside_embedded_records_are_listed() {
    let mut registry = ModuleRegistry::new();
    let module = registry.register("test".to_string());
    let mut table = TypeTable::new();
    let mut cell = TypeDefinition::new(TypeId::new(&module, "Cell"));
    cell.add_field(&table, Field::new("v".to_string(), ValueType::U64));
    let cell = table.insert(cell);
    let mut node = TypeDefinition::new(TypeId::new(&module, "Node"));
    node.add_field(&table, Field::new("tag".to_string(), ValueType::U8));
    node.add_field(&table, Field::new("left".to_string(), ValueType::HeapData(cell)));
    node.add_field(&table, Field::new("weight".to_string(), ValueType::U16));
    node.add_field(&table, Field::new("right".to_string(), ValueType::HeapData(cell)));
    let node = table.insert(node);
    let mut slots = LocalSlots::new();
    slots.add_slot(&table, ValueType::U32);
    slots.add_slot(&table, ValueType::LocalData(node));
    slots.add_slot(&table, ValueType::HeapData(cell));
    slots.add_slot(&table, ValueType::LocalData(cell));
    assert_eq!(slots.heap_offsets(), &[5, 15, 23]);
    assert_eq!(slots.total_size(&table), 39);
}
