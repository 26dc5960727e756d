use sahara::memory::Pointer;
use sahara::{
    ConstantPool, ExecutionContext, Fault, Field, FunctionIndex, FunctionTable, GlobalContext,
    Instruction, InstructionIndex, LocalIndex, LocalSlots, ModuleName, ModuleRegistry, RunStatus,
    TypeDefinition, TypeId, TypeIndex, TypeTable, Value, ValueType, VirtualMachine,
};

const FUEL: u64 = 10_000;

struct Builder {
    module: ModuleName,
    pool: ConstantPool,
    types: TypeTable,
    functions: FunctionTable,
}

impl Builder {
    fn new() -> Builder {
        let mut registry = ModuleRegistry::new();
        Builder {
            module: registry.register("main".to_string()),
            pool: ConstantPool::new(),
            types: TypeTable::new(),
            functions: FunctionTable::new(),
        }
    }

    fn constant(&mut self, value: Value) -> Instruction {
        Instruction::constant(self.pool.add(value))
    }

    fn record(&mut self, name: &str, fields: &[(&str, ValueType)]) -> TypeIndex {
        let mut definition = TypeDefinition::new(TypeId::new(&self.module, name));
        for (field, value_type) in fields {
            definition.add_field(&self.types, Field::new(field.to_string(), *value_type));
        }
        self.types.insert(definition)
    }

    fn function(&mut self, name: &str, slots: &[ValueType], code: Vec<Instruction>) -> FunctionIndex {
        let mut locals = LocalSlots::new();
        for slot in slots {
            locals.add_slot(&self.types, *slot);
        }
        self.functions
            .insert(self.module.function_id(name), code, locals)
    }

    fn machine(self) -> VirtualMachine {
        VirtualMachine::new(ExecutionContext::new(), self.functions, self.pool, self.types)
    }
}

fn run(builder: Builder, entry: FunctionIndex) -> (Result<RunStatus, Fault>, Vec<Value>, VirtualMachine) {
    let mut vm = builder.machine();
    let mut output = Vec::new();
    let status = vm.run(entry, FUEL, &mut output);
    (status, output, vm)
}

fn local(index: u32) -> LocalIndex {
    LocalIndex::new(index)
}

fn rgb(builder: &mut Builder) -> TypeIndex {
    builder.record(
        "Rgb",
        &[
            ("red", ValueType::U8),
            ("green", ValueType::U8),
            ("blue", ValueType::U8),
        ],
    )
}

#[test]
fn arithmetic_prints_twelve() {
    let mut b = Builder::new();
    let code = vec![
        b.constant(Value::U64(2)),
        b.constant(Value::U64(2)),
        Instruction::add(),
        b.constant(Value::U64(3)),
        Instruction::mul(),
        Instruction::print(),
        Instruction::halt(),
    ];
    let entry = b.function("main", &[], code);
    let (status, output, vm) = run(b, entry);
    assert_eq!(status, Ok(RunStatus::Halted));
    assert_eq!(output, vec![Value::U64(12)]);
    assert_eq!(output[0].text(), Some("U64(12)".to_string()));
    assert_eq!(vm.context().data_len(), 0);
    assert_eq!(vm.context().extensions_len(), 0);
}

#[test]
fn local_store_then_read_prints_two_hundred_and_one() {
    let mut b = Builder::new();
    let code = vec![
        b.constant(Value::U64(200)),
        Instruction::local_store(local(0)),
        Instruction::local_read(local(0)),
        b.constant(Value::U64(1)),
        Instruction::add(),
        Instruction::print(),
        Instruction::halt(),
    ];
    let entry = b.function("main", &[ValueType::U64], code);
    let (status, output, vm) = run(b, entry);
    assert_eq!(status, Ok(RunStatus::Halted));
    assert_eq!(output, vec![Value::U64(201)]);
    assert_eq!(
        vm.context().locals().read_bytes(Pointer::new(0), 8),
        vec![0, 0, 0, 0, 0, 0, 0, 200]
    );
}

#[test]
fn call_and_return_print_one_hundred_and_one() {
    let mut b = Builder::new();
    let arguments = b.record("Arguments", &[]);
    let incr_code = vec![
        Instruction::local_read(local(0)),
        b.constant(Value::U64(1)),
        Instruction::add(),
        Instruction::print(),
        Instruction::ret(),
    ];
    let incr = b.function("incr", &[ValueType::U64], incr_code);
    let code = vec![
        b.constant(Value::U64(100)),
        Instruction::local_store(local(0)),
        Instruction::call(incr),
        Instruction::halt(),
    ];
    let entry = b.function("main", &[ValueType::LocalData(arguments)], code);
    let (status, output, vm) = run(b, entry);
    assert_eq!(status, Ok(RunStatus::Halted));
    assert_eq!(output, vec![Value::U64(101)]);
    assert_eq!(vm.context().depth(), 1);
    assert_eq!(vm.context().data_len(), 0);
    assert_eq!(vm.context().locals().read_bytes(Pointer::new(0), 8), vec![0u8; 8]);
    assert_eq!(vm.context().frame().function, entry);
    assert_eq!(vm.context().frame().ip.0, 4);
}

fn record_program(b: &mut Builder, tail: Vec<Instruction>) -> FunctionIndex {
    let rgb = rgb(b);
    let mut code = vec![
        Instruction::imm_u8(1),
        Instruction::imm_u8(2),
        Instruction::imm_u8(3),
        Instruction::data_type_create(local(1)),
    ];
    code.extend(tail);
    b.function("main", &[ValueType::U64, ValueType::LocalData(rgb)], code)
}

#[test]
fn record_construction_puts_the_last_pushed_first() {
    let mut b = Builder::new();
    let entry = record_program(
        &mut b,
        vec![
            Instruction::extend(InstructionIndex::new(0)),
            Instruction::data_type_read_field(local(1)),
            Instruction::print(),
            Instruction::halt(),
        ],
    );
    let (status, output, vm) = run(b, entry);
    assert_eq!(status, Ok(RunStatus::Halted));
    assert_eq!(output, vec![Value::U8(3)]);
    assert_eq!(
        vm.context().locals().read_bytes(Pointer::new(8), 3),
        vec![3, 2, 1]
    );
    assert_eq!(vm.context().extensions_len(), 0);
}

#[test]
fn record_field_overwrite_prints_four() {
    let mut b = Builder::new();
    let entry = record_program(
        &mut b,
        vec![
            Instruction::extend(InstructionIndex::new(0)),
            Instruction::data_type_read_field(local(1)),
            Instruction::print(),
            Instruction::imm_u8(4),
            Instruction::extend(InstructionIndex::new(1)),
            Instruction::data_type_set_field(local(1)),
            Instruction::extend(InstructionIndex::new(1)),
            Instruction::data_type_read_field(local(1)),
            Instruction::print(),
            Instruction::halt(),
        ],
    );
    let (status, output, vm) = run(b, entry);
    assert_eq!(status, Ok(RunStatus::Halted));
    assert_eq!(output, vec![Value::U8(3), Value::U8(4)]);
    assert_eq!(
        vm.context().locals().read_bytes(Pointer::new(8), 3),
        vec![3, 4, 1]
    );
}

fn point(b: &mut Builder) -> TypeIndex {
    b.record("Point", &[("x", ValueType::U64), ("y", ValueType::U64)])
}

#[test]
fn heap_alloc_then_read_prints_ten() {
    let mut b = Builder::new();
    let point = point(&mut b);
    let code = vec![
        b.constant(Value::U64(10)),
        b.constant(Value::U64(20)),
        Instruction::heap_alloc(local(0)),
        Instruction::heap_read(InstructionIndex::new(1)),
        Instruction::print(),
        Instruction::halt(),
    ];
    let entry = b.function("main", &[ValueType::HeapData(point)], code);
    let (status, output, vm) = run(b, entry);
    assert_eq!(status, Ok(RunStatus::Halted));
    assert_eq!(output, vec![Value::U64(10)]);
    let heap = vm.context().heap();
    let at = Pointer::new(16);
    assert_eq!(heap.reference_count(at), 2);
    assert_eq!(heap.get_alloc(at).size, 32);
    assert_eq!(heap.get_alloc(at).num, 1);
    assert_eq!(heap.get_alloc(at).type_index, point);
    assert_eq!(
        heap.read_bytes(Pointer::new(32), 16),
        vec![0, 0, 0, 0, 0, 0, 0, 20, 0, 0, 0, 0, 0, 0, 0, 10]
    );
    assert_eq!(
        vm.context().locals().read_bytes(Pointer::new(0), 8),
        vec![0, 0, 0, 0, 0, 0, 0, 16]
    );
}

#[test]
fn heap_read_of_the_first_field_prints_twenty() {
    let mut b = Builder::new();
    let point = point(&mut b);
    let code = vec![
        b.constant(Value::U64(10)),
        b.constant(Value::U64(20)),
        Instruction::heap_alloc(local(0)),
        Instruction::heap_read(InstructionIndex::new(0)),
        Instruction::print(),
        Instruction::halt(),
    ];
    let entry = b.function("main", &[ValueType::HeapData(point)], code);
    let (status, output, _) = run(b, entry);
    assert_eq!(status, Ok(RunStatus::Halted));
    assert_eq!(output, vec![Value::U64(20)]);
}

#[test]
fn heap_store_overwrites_a_field_and_keeps_the_value() {
    let mut b = Builder::new();
    let point = point(&mut b);
    let code = vec![
        b.constant(Value::U64(10)),
        b.constant(Value::U64(20)),
        Instruction::heap_alloc(local(0)),
        b.constant(Value::U64(77)),
        Instruction::heap_store(InstructionIndex::new(1)),
        Instruction::print(),
        Instruction::halt(),
    ];
    let entry = b.function("main", &[ValueType::HeapData(point)], code);
    let (status, output, vm) = run(b, entry);
    assert_eq!(status, Ok(RunStatus::Halted));
    assert_eq!(output, vec![Value::U64(77)]);
    assert_eq!(
        vm.context().heap().read_bytes(Pointer::new(40), 8),
        vec![0, 0, 0, 0, 0, 0, 0, 77]
    );
    assert_eq!(vm.context().data_len(), 0);
}

#[test]
fn return_clears_locals_and_releases_the_frames_references() {
    let mut b = Builder::new();
    let point = point(&mut b);
    let callee_code = vec![
        b.constant(Value::U64(1)),
        b.constant(Value::U64(2)),
        Instruction::heap_alloc(local(1)),
        Instruction::print(),
        Instruction::ret(),
    ];
    let callee = b.function(
        "callee",
        &[ValueType::U32, ValueType::HeapData(point)],
        callee_code,
    );
    let code = vec![Instruction::call(callee), Instruction::halt()];
    let entry = b.function("main", &[ValueType::U16], code);
    let (status, output, vm) = run(b, entry);
    assert_eq!(status, Ok(RunStatus::Halted));
    assert_eq!(output, vec![Value::HeapData(Pointer::new(16))]);
    assert_eq!(vm.context().depth(), 1);
    assert_eq!(vm.context().frame().locals_begin, Pointer::new(0));
    assert_eq!(vm.context().frame().locals_end, Pointer::new(2));
    assert_eq!(vm.context().locals().read_bytes(Pointer::new(2), 12), vec![0u8; 12]);
    assert_eq!(vm.context().heap().reference_count(Pointer::new(16)), 1);
    assert_eq!(vm.context().heap().free_list_len(), 0);
}

#[test]
fn overwriting_a_pointer_slot_moves_the_reference() {
    let mut b = Builder::new();
    let point = point(&mut b);
    let code = vec![
        b.constant(Value::U64(1)),
        b.constant(Value::U64(2)),
        Instruction::heap_alloc(local(0)),
        b.constant(Value::U64(3)),
        b.constant(Value::U64(4)),
        Instruction::heap_alloc(local(0)),
        Instruction::print(),
        Instruction::print(),
        Instruction::halt(),
    ];
    let entry = b.function("main", &[ValueType::HeapData(point)], code);
    let (status, output, vm) = run(b, entry);
    assert_eq!(status, Ok(RunStatus::Halted));
    assert_eq!(
        output,
        vec![
            Value::HeapData(Pointer::new(48)),
            Value::HeapData(Pointer::new(16))
        ]
    );
    assert_eq!(vm.context().heap().reference_count(Pointer::new(16)), 1);
    assert_eq!(vm.context().heap().reference_count(Pointer::new(48)), 2);
}

#[test]
fn balanced_calls_leave_the_depths_as_they_were() {
    let mut b = Builder::new();
    let leaf_code = vec![Instruction::imm_u8(7), Instruction::ret()];
    let leaf = b.function("leaf", &[ValueType::U64], leaf_code);
    let middle_code = vec![
        Instruction::call(leaf),
        Instruction::call(leaf),
        Instruction::add(),
        Instruction::ret(),
    ];
    let middle = b.function("middle", &[ValueType::U8], middle_code);
    let code = vec![
        Instruction::imm_u8(1),
        Instruction::call(middle),
        Instruction::halt(),
    ];
    let entry = b.function("main", &[], code);
    let mut vm = b.machine();
    let mut output = Vec::new();
    assert_eq!(vm.run(entry, 2, &mut output), Ok(RunStatus::OutOfFuel));
    assert_eq!(vm.context().depth(), 2);
    assert_eq!(vm.context().data_len(), 1);
    assert_eq!(vm.resume(1, &mut output), Ok(RunStatus::OutOfFuel));
    assert_eq!(vm.context().depth(), 3);
    assert_eq!(vm.context().frame().locals_begin, Pointer::new(1));
    assert_eq!(vm.context().frame().locals_end, Pointer::new(9));
    assert_eq!(vm.resume(FUEL, &mut output), Ok(RunStatus::Halted));
    assert_eq!(vm.context().depth(), 1);
    assert_eq!(vm.context().data_len(), 2);
    assert_eq!(vm.context().top(), Value::U8(14));
    assert!(output.is_empty());
}

#[test]
fn subtraction_and_division_take_the_left_operand_from_below() {
    let mut b = Builder::new();
    let code = vec![
        Instruction::imm_u8(9),
        Instruction::imm_u8(4),
        Instruction::sub(),
        Instruction::print(),
        Instruction::imm_i16(-7),
        Instruction::imm_i16(2),
        Instruction::div(),
        Instruction::print(),
        Instruction::halt(),
    ];
    let entry = b.function("main", &[], code);
    let (status, output, _) = run(b, entry);
    assert_eq!(status, Ok(RunStatus::Halted));
    assert_eq!(output, vec![Value::U8(5), Value::I16(-3)]);
}

#[test]
fn immediates_push_their_literals() {
    let mut b = Builder::new();
    let code = vec![
        Instruction::imm_i8(-5),
        Instruction::print(),
        Instruction::imm_u16(40_000),
        Instruction::print(),
        Instruction::imm_char(b'z'),
        Instruction::print(),
        Instruction::imm_bool(true),
        Instruction::print(),
        Instruction::halt(),
    ];
    let entry = b.function("main", &[], code);
    let (status, output, _) = run(b, entry);
    assert_eq!(status, Ok(RunStatus::Halted));
    assert_eq!(
        output,
        vec![
            Value::I8(-5),
            Value::U16(40_000),
            Value::Char('z'),
            Value::Bool(true)
        ]
    );
}

#[test]
fn float_arithmetic_is_handed_to_the_host() {
    let mut b = Builder::new();
    let code = vec![
        b.constant(Value::F32(1.5f32.to_bits())),
        b.constant(Value::F32(2.25f32.to_bits())),
        Instruction::sub(),
        Instruction::print(),
        Instruction::halt(),
    ];
    let entry = b.function("main", &[], code);
    let mut vm = b.machine();
    let mut output = Vec::new();
    let status = vm.run(entry, FUEL, &mut output).unwrap();
    let (lhs, rhs) = match status {
        RunStatus::FloatArithmetic(sahara::Opcode::Sub, Value::F32(lhs), Value::F32(rhs)) => (lhs, rhs),
        other => panic!("unexpected status {:?}", other),
    };
    assert_eq!(vm.context().data_len(), 0);
    let result = f32::from_bits(lhs) - f32::from_bits(rhs);
    vm.push_value(Value::F32(result.to_bits()));
    assert_eq!(vm.resume(FUEL, &mut output), Ok(RunStatus::Halted));
    assert_eq!(output, vec![Value::F32((-0.75f32).to_bits())]);
    assert_eq!(output[0].text(), None);
}

fn fault_of(slots: &[ValueType], code: impl FnOnce(&mut Builder) -> Vec<Instruction>) -> Fault {
    let mut b = Builder::new();
    let code = code(&mut b);
    let entry = b.function("main", slots, code);
    let (status, _, _) = run(b, entry);
    status.unwrap_err()
}

#[test]
fn popping_an_empty_stack_is_an_underflow() {
    assert_eq!(fault_of(&[], |_| vec![Instruction::print()]), Fault::StackUnderflow);
    assert_eq!(
        fault_of(&[], |_| vec![Instruction::imm_u8(1), Instruction::add()]),
        Fault::StackUnderflow
    );
    assert_eq!(fault_of(&[], |_| vec![Instruction::ret()]), Fault::StackUnderflow);
    assert_eq!(
        fault_of(&[ValueType::U8], |_| vec![Instruction::local_store(local(0))]),
        Fault::StackUnderflow
    );
}

#[test]
fn field_access_without_extension_word_is_an_underflow() {
    let fault = {
        let mut b = Builder::new();
        let rgb = rgb(&mut b);
        let entry = b.function(
            "main",
            &[ValueType::LocalData(rgb)],
            vec![Instruction::data_type_read_field(local(0))],
        );
        run(b, entry).0.unwrap_err()
    };
    assert_eq!(fault, Fault::StackUnderflow);
}

#[test]
fn unknown_opcode_faults() {
    assert_eq!(
        fault_of(&[], |_| vec![Instruction::from_bytecode(0x2A_00_00_00)]),
        Fault::UnknownOpcode
    );
}

#[test]
fn operands_of_different_tags_are_a_mismatch() {
    assert_eq!(
        fault_of(&[], |_| vec![
            Instruction::imm_u8(1),
            Instruction::imm_u16(1),
            Instruction::add()
        ]),
        Fault::TypeMismatch
    );
    assert_eq!(
        fault_of(&[], |_| vec![
            Instruction::imm_bool(true),
            Instruction::imm_bool(true),
            Instruction::mul()
        ]),
        Fault::TypeMismatch
    );
}

#[test]
fn reading_a_record_slot_as_a_value_is_a_mismatch() {
    let fault = {
        let mut b = Builder::new();
        let rgb = rgb(&mut b);
        let entry = b.function(
            "main",
            &[ValueType::LocalData(rgb), ValueType::HeapData(rgb)],
            vec![Instruction::local_read(local(0))],
        );
        run(b, entry).0.unwrap_err()
    };
    assert_eq!(fault, Fault::TypeMismatch);
    assert_eq!(
        fault_of(&[ValueType::U8], |_| vec![Instruction::data_type_create(local(0))]),
        Fault::TypeMismatch
    );
    assert_eq!(
        fault_of(&[ValueType::U8], |_| vec![Instruction::heap_alloc(local(0))]),
        Fault::TypeMismatch
    );
}

#[test]
fn a_wide_character_cannot_be_stored() {
    assert_eq!(
        fault_of(&[ValueType::Char], |b| vec![
            b.constant(Value::Char('\u{20AC}')),
            Instruction::local_store(local(0))
        ]),
        Fault::TypeMismatch
    );
}

#[test]
fn indices_beyond_their_tables_are_out_of_range() {
    assert_eq!(
        fault_of(&[], |_| vec![Instruction::constant(sahara::ConstantIndex::new(5))]),
        Fault::IndexOutOfRange
    );
    assert_eq!(
        fault_of(&[], |_| vec![Instruction::call(FunctionIndex::new(9))]),
        Fault::IndexOutOfRange
    );
    assert_eq!(
        fault_of(&[ValueType::U8], |_| vec![Instruction::local_read(local(1))]),
        Fault::IndexOutOfRange
    );
    assert_eq!(
        fault_of(&[], |_| vec![Instruction::imm_u8(1)]),
        Fault::IndexOutOfRange
    );
    let fault = {
        let mut b = Builder::new();
        let rgb = rgb(&mut b);
        let entry = b.function(
            "main",
            &[ValueType::LocalData(rgb)],
            vec![
                Instruction::extend(InstructionIndex::new(3)),
                Instruction::data_type_read_field(local(0)),
            ],
        );
        run(b, entry).0.unwrap_err()
    };
    assert_eq!(fault, Fault::IndexOutOfRange);
}

#[test]
fn a_pointer_to_no_allocation_is_out_of_range() {
    assert_eq!(
        fault_of(&[], |b| vec![
            b.constant(Value::HeapData(Pointer::new(0))),
            Instruction::heap_read(InstructionIndex::new(0))
        ]),
        Fault::IndexOutOfRange
    );
    assert_eq!(
        fault_of(&[], |b| vec![
            b.constant(Value::HeapData(Pointer::new(4096))),
            Instruction::imm_u8(1),
            Instruction::heap_store(InstructionIndex::new(0))
        ]),
        Fault::IndexOutOfRange
    );
}

#[test]
fn division_by_zero_faults() {
    assert_eq!(
        fault_of(&[], |_| vec![
            Instruction::imm_u8(1),
            Instruction::imm_u8(0),
            Instruction::div()
        ]),
        Fault::DivisionByZero
    );
}

#[test]
fn a_result_that_does_not_fit_is_an_overflow() {
    assert_eq!(
        fault_of(&[], |_| vec![
            Instruction::imm_u8(200),
            Instruction::imm_u8(100),
            Instruction::add()
        ]),
        Fault::ArithmeticOverflow
    );
    assert_eq!(
        fault_of(&[], |_| vec![
            Instruction::imm_u8(1),
            Instruction::imm_u8(2),
            Instruction::sub()
        ]),
        Fault::ArithmeticOverflow
    );
    assert_eq!(
        fault_of(&[], |_| vec![
            Instruction::imm_i8(-128),
            Instruction::imm_i8(-1),
            Instruction::div()
        ]),
        Fault::ArithmeticOverflow
    );
}

#[test]
fn a_value_that_is_no_pointer_gives_none() {
    assert_eq!(
        fault_of(&[], |_| vec![
            Instruction::imm_u8(1),
            Instruction::heap_read(InstructionIndex::new(0))
        ]),
        Fault::NotAPointer
    );
    assert_eq!(Value::U8(1).try_pointer(), Err(Fault::NotAPointer));
    assert_eq!(
        Value::HeapData(Pointer::new(3)).try_pointer(),
        Ok(Pointer::new(3))
    );
}

fn forged_header(b: &mut Builder, references: u32) -> Vec<Instruction> {
    vec![
        b.constant(Value::U32(16)),
        b.constant(Value::U32(0)),
        b.constant(Value::U32(0)),
        b.constant(Value::U32(references)),
        Instruction::heap_alloc(local(0)),
    ]
}

fn header_like(b: &mut Builder) -> TypeIndex {
    b.record(
        "HeaderLike",
        &[
            ("references", ValueType::U32),
            ("kind", ValueType::U32),
            ("num", ValueType::U32),
            ("size", ValueType::U32),
        ],
    )
}

#[test]
fn one_reference_too_many_is_an_overflow() {
    let mut b = Builder::new();
    let header = header_like(&mut b);
    let mut code = forged_header(&mut b, 0x7FFF_FFFF);
    code.push(b.constant(Value::HeapData(Pointer::new(32))));
    code.push(Instruction::local_store(local(1)));
    code.push(Instruction::halt());
    let entry = b.function(
        "main",
        &[ValueType::HeapData(header), ValueType::HeapData(header)],
        code,
    );
    let (status, _, _) = run(b, entry);
    assert_eq!(status, Err(Fault::ReferenceOverflow));
}

#[test]
fn a_reference_taken_from_none_is_an_underflow() {
    let mut b = Builder::new();
    let header = header_like(&mut b);
    let mut code = forged_header(&mut b, 0);
    code.push(b.constant(Value::U64(32)));
    code.push(Instruction::local_store(local(1)));
    code.push(Instruction::local_store(local(1)));
    code.push(Instruction::halt());
    let entry = b.function(
        "main",
        &[ValueType::HeapData(header), ValueType::HeapData(header)],
        code,
    );
    let (status, _, _) = run(b, entry);
    assert_eq!(status, Err(Fault::ReferenceUnderflow));
}

#[test]
fn duplicate_registrations_are_rejected() {
    let mut registry = ModuleRegistry::new();
    let module = registry.try_register("main".to_string()).unwrap();
    assert_eq!(
        registry.try_register("main".to_string()).err(),
        Some(Fault::DuplicateRegistration)
    );
    assert!(registry.try_register("other".to_string()).is_ok());

    let mut types = TypeTable::new();
    let first = TypeDefinition::new(TypeId::new(&module, "T"));
    let second = TypeDefinition::new(TypeId::new(&module, "T"));
    assert_eq!(types.try_insert(first).map(|i| i.value()), Ok(0));
    assert_eq!(types.try_insert(second).err(), Some(Fault::DuplicateRegistration));
    assert_eq!(types.len(), 1);

    let mut functions = FunctionTable::new();
    assert_eq!(
        functions
            .try_insert(module.function_id("f"), vec![], LocalSlots::new())
            .map(|i| i.value()),
        Ok(0)
    );
    assert_eq!(
        functions
            .try_insert(module.function_id("f"), vec![Instruction::halt()], LocalSlots::new())
            .err(),
        Some(Fault::DuplicateRegistration)
    );
    assert_eq!(functions.len(), 1);
    assert_eq!(functions.address_of("main::f").value(), 0);
    assert!(functions.find("main::g").is_none());
    assert_eq!(functions.get(FunctionIndex::new(0)).len(), 0);
}

#[test]
fn stepping_tells_each_effect() {
    let mut b = Builder::new();
    let code = vec![
        Instruction::imm_u8(5),
        Instruction::print(),
        Instruction::halt(),
    ];
    let entry = b.function("main", &[], code);
    let mut context = ExecutionContext::new();
    let globals = GlobalContext::new(&b.pool, &b.functions, &b.types);
    assert_eq!(context.step(&globals), Err(Fault::StackUnderflow));
    assert_eq!(context.start(&globals, entry), Ok(()));
    assert_eq!(context.step(&globals), Ok(sahara::Effect::Continue));
    assert_eq!(context.step(&globals), Ok(sahara::Effect::Print(Value::U8(5))));
    assert_eq!(context.step(&globals), Ok(sahara::Effect::Halt));
    assert_eq!(context.step(&globals), Err(Fault::IndexOutOfRange));
    assert_eq!(
        ExecutionContext::new().start(&globals, FunctionIndex::new(4)),
        Err(Fault::IndexOutOfRange)
    );
}

#[test]
fn a_frame_whose_function_the_tables_lack_is_out_of_range() {
    let mut b = Builder::new();
    let entry = b.function("main", &[], vec![Instruction::halt()]);
    let mut context = ExecutionContext::new();
    {
        let globals = GlobalContext::new(&b.pool, &b.functions, &b.types);
        assert_eq!(context.start(&globals, entry), Ok(()));
    }
    let pool = ConstantPool::new();
    let functions = FunctionTable::new();
    let types = TypeTable::new();
    let other = GlobalContext::new(&pool, &functions, &types);
    assert_eq!(context.step(&other), Err(Fault::IndexOutOfRange));
    let mut output = Vec::new();
    assert_eq!(context.resume(&other, 5, &mut output), Err(Fault::IndexOutOfRange));
}

#[test]
fn running_out_of_fuel_can_be_resumed() {
    let mut b = Builder::new();
    let code = vec![
        Instruction::imm_u8(1),
        Instruction::print(),
        Instruction::imm_u8(2),
        Instruction::print(),
        Instruction::halt(),
    ];
    let entry = b.function("main", &[], code);
    let mut vm = b.machine();
    let mut output = Vec::new();
    assert_eq!(vm.run(entry, 0, &mut output), Ok(RunStatus::OutOfFuel));
    assert_eq!(vm.context().depth(), 1);
    assert_eq!(vm.resume(3, &mut output), Ok(RunStatus::OutOfFuel));
    assert_eq!(output, vec![Value::U8(1)]);
    assert_eq!(vm.resume(2, &mut output), Ok(RunStatus::Halted));
    assert_eq!(output, vec![Value::U8(1), Value::U8(2)]);
}

#[test]
fn pointers_in_embedded_records_are_released_on_return() {
    let mut b = Builder::new();
    let cell = b.record("Cell", &[("v", ValueType::U64)]);
    let holder = b.record(
        "Holder",
        &[("tag", ValueType::U8), ("cell", ValueType::HeapData(cell))],
    );
    let callee_code = vec![
        b.constant(Value::U64(5)),
        Instruction::heap_alloc(local(0)),
        Instruction::imm_u8(9),
        Instruction::data_type_create(local(1)),
        Instruction::ret(),
    ];
    let callee = b.function(
        "callee",
        &[ValueType::HeapData(cell), ValueType::LocalData(holder)],
        callee_code,
    );
    let code = vec![Instruction::call(callee), Instruction::halt()];
    let entry = b.function("main", &[], code);
    let mut vm = b.machine();
    let mut output = Vec::new();
    assert_eq!(vm.run(entry, 5, &mut output), Ok(RunStatus::OutOfFuel));
    assert_eq!(vm.context().depth(), 2);
    assert_eq!(vm.context().heap().reference_count(Pointer::new(16)), 3);
    assert_eq!(
        vm.context().locals().read_bytes(Pointer::new(8), 9),
        vec![9, 0, 0, 0, 0, 0, 0, 0, 16]
    );
    assert_eq!(vm.resume(FUEL, &mut output), Ok(RunStatus::Halted));
    assert_eq!(vm.context().heap().reference_count(Pointer::new(16)), 1);
    assert_eq!(vm.context().locals().read_bytes(Pointer::new(0), 17), vec![0u8; 17]);
}

#[test]
fn a_fault_leaves_the_state_in_which_it_was_met() {
    let mut b = Builder::new();
    let record = rgb(&mut b);
    let code = vec![
        Instruction::imm_u8(7),
        Instruction::imm_u16(9),
        Instruction::add(),
        Instruction::halt(),
    ];
    let entry = b.function("main", &[ValueType::LocalData(record)], code);
    let mut vm = b.machine();
    let mut output = Vec::new();
    assert_eq!(vm.run(entry, FUEL, &mut output), Err(Fault::TypeMismatch));
    assert_eq!(vm.context().data_len(), 2);
    assert_eq!(vm.context().top(), Value::U16(9));
    assert_eq!(vm.context().frame().ip.0, 3);

    let mut b = Builder::new();
    let record = rgb(&mut b);
    let code = vec![
        Instruction::imm_u8(1),
        Instruction::imm_u8(2),
        Instruction::data_type_create(local(0)),
        Instruction::halt(),
    ];
    let entry = b.function("main", &[ValueType::LocalData(record)], code);
    let mut vm = b.machine();
    assert_eq!(vm.run(entry, FUEL, &mut output), Err(Fault::StackUnderflow));
    assert_eq!(vm.context().data_len(), 0);
    assert_eq!(
        vm.context().locals().read_bytes(Pointer::new(0), 3),
        vec![2, 1, 0]
    );
}
