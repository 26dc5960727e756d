use sahara::{
    Fault, Field, LocalSlots, ModuleRegistry, TypeDefinition, TypeId, TypeIndex, TypeTable, ValueType,
};

fn create_type_definition(name: &str) -> TypeDefinition {
    let mut module_registry = ModuleRegistry::new();
    let test_module = module_registry.register("test".to_string());
    TypeDefinition::new(TypeId::new(&test_module, name))
}

#[test]
fn type_definition_add_primitive_field_adds_single_field() {
    let type_table = TypeTable::new();
    let mut type_defn = create_type_definition("TestType");
    type_defn.add_field(&type_table, Field::new("red".to_string(), ValueType::U8));
    assert_eq!(type_defn.num_fields(), 1);
    let field_idx = type_defn.query(&["red"]);
    let (field, _) = type_defn.get(field_idx.unwrap());
    assert_eq!(field.name(), "red");
    assert_eq!(field.value_type(), ValueType::U8);
}

#[test]
fn type_definition_add_nested_field_adds_multiple_fields() {
    let mut type_table = TypeTable::new();

    let mut rgb = create_type_definition("Rgb");
    rgb.add_field(&type_table, Field::new("red".to_string(), ValueType::U8));
    rgb.add_field(&type_table, Field::new("green".to_string(), ValueType::U8));
    rgb.add_field(&type_table, Field::new("blue".to_string(), ValueType::U8));
    let rgb_index = type_table.insert(rgb);

    let mut type_defn = create_type_definition("TestType");
    type_defn.add_field(
        &type_table,
        Field::new("color".to_string(), ValueType::LocalData(rgb_index)),
    );
    assert_eq!(type_defn.num_fields(), 3);
    let field_idx = type_defn.query(&["color", "red"]);
    let (field, _) = type_defn.get(field_idx.unwrap());
    assert_eq!(field.name(), "red");
    assert_eq!(field.value_type(), ValueType::U8);
    let (field, _) = type_defn.get(1);
    assert_eq!(field.name(), "green");
    assert_eq!(field.value_type(), ValueType::U8);
    let (field, _) = type_defn.get(2);
    assert_eq!(field.name(), "blue");
    assert_eq!(field.value_type(), ValueType::U8);
}

#[test]
fn primitive_record_is_packed_in_order() {
    let type_table = TypeTable::new();
    let mut point = create_type_definition("Mixed");
    point.add_field(&type_table, Field::new("a".to_string(), ValueType::U8));
    point.add_field(&type_table, Field::new("b".to_string(), ValueType::U32));
    point.add_field(&type_table, Field::new("c".to_string(), ValueType::I16));
    point.add_field(&type_table, Field::new("d".to_string(), ValueType::F64));
    assert_eq!(point.total_size(&type_table), 15);
    assert_eq!(point.get(0).1, 0);
    assert_eq!(point.get(1).1, 1);
    assert_eq!(point.get(2).1, 5);
    assert_eq!(point.get(3).1, 7);
    assert_eq!(point.declared(3).1, 7);
}

#[test]
fn pixel_embeds_rgb_flattened() {
    let mut type_table = TypeTable::new();
    let mut rgb = create_type_definition("Rgb");
    rgb.add_field(&type_table, Field::new("red".to_string(), ValueType::U8));
    rgb.add_field(&type_table, Field::new("green".to_string(), ValueType::U8));
    rgb.add_field(&type_table, Field::new("blue".to_string(), ValueType::U8));
    let rgb_index = type_table.insert(rgb);

    let mut pixel = create_type_definition("Pixel");
    pixel.add_field(
        &type_table,
        Field::new("color".to_string(), ValueType::LocalData(rgb_index)),
    );
    pixel.add_field(&type_table, Field::new("alpha".to_string(), ValueType::U8));
    assert_eq!(pixel.num_fields(), 4);
    assert_eq!(pixel.query(&["color", "green"]), Some(1));
    assert_eq!(pixel.query(&["alpha"]), Some(3));
    assert_eq!(pixel.query(&["color"]), None);
    assert_eq!(pixel.query(&["color", "alpha"]), None);
    assert_eq!(pixel.query(&[]), None);
    assert_eq!(pixel.total_size(&type_table), 4);
    assert_eq!(pixel.get(3).1, 3);
    assert_eq!(pixel.declared(0).1, 0);
    assert_eq!(pixel.declared(1).1, 3);
    assert_eq!(ValueType::LocalData(rgb_index).size(&type_table), 3);
}

#[test]
fn nested_records_flatten_through_two_levels() {
    let mut type_table = TypeTable::new();
    let mut inner = create_type_definition("Inner");
    inner.add_field(&type_table, Field::new("x".to_string(), ValueType::U16));
    inner.add_field(&type_table, Field::new("y".to_string(), ValueType::U64));
    let inner_index = type_table.insert(inner);
    let mut middle = create_type_definition("Middle");
    middle.add_field(&type_table, Field::new("flag".to_string(), ValueType::Bool));
    middle.add_field(
        &type_table,
        Field::new("inner".to_string(), ValueType::LocalData(inner_index)),
    );
    let middle_index = type_table.insert(middle);
    let mut outer = create_type_definition("Outer");
    outer.add_field(
        &type_table,
        Field::new("m".to_string(), ValueType::LocalData(middle_index)),
    );
    outer.add_field(&type_table, Field::new("tail".to_string(), ValueType::I32));
    assert_eq!(outer.num_fields(), 4);
    assert_eq!(outer.query(&["m", "flag"]), Some(0));
    assert_eq!(outer.query(&["m", "inner", "x"]), Some(1));
    assert_eq!(outer.query(&["m", "inner", "y"]), Some(2));
    assert_eq!(outer.query(&["tail"]), Some(3));
    assert_eq!(outer.get(2).1, 3);
    assert_eq!(outer.get(3).1, 11);
    assert_eq!(outer.total_size(&type_table), 15);
}

#[test]
fn query_finds_the_last_field_added_under_a_path() {
    let type_table = TypeTable::new();
    let mut twice = create_type_definition("Twice");
    twice.add_field(&type_table, Field::new("v".to_string(), ValueType::U8));
    twice.add_field(&type_table, Field::new("v".to_string(), ValueType::U16));
    assert_eq!(twice.query(&["v"]), Some(1));
}

#[test]
fn type_table_finds_types_by_name() {
    let mut type_table = TypeTable::new();
    let first = type_table.insert(create_type_definition("First"));
    let second = type_table.insert(create_type_definition("Second"));
    assert_eq!(first.value(), 0);
    assert_eq!(second.value(), 1);
    assert_eq!(type_table.index_of("test::Second"), second);
    assert_eq!(type_table.find("test::First"), Some(first));
    assert_eq!(type_table.find("test::Third"), None);
    assert_eq!(type_table.size(first), 0);
    assert_eq!(type_table.len(), 2);
    assert_eq!(type_table.get(second).name().as_str(), "test::Second");
}

#[test]
fn module_registry_tells_registered_names() {
    let mut registry = ModuleRegistry::new();
    assert!(!registry.is_registered("main"));
    let name = registry.register("main".to_string());
    assert_eq!(name.name(), "main");
    assert!(registry.is_registered("main"));
    assert!(!registry.is_registered("mai"));
    assert_eq!(name.function_id("start").as_str(), "main::start");
}

#[test]
fn fields_and_slots_of_unknown_types_are_rejected() {
    let mut type_table = TypeTable::new();
    let mut record = create_type_definition("Record");
    assert_eq!(
        record.try_add_field(
            &type_table,
            Field::new("ghost".to_string(), ValueType::LocalData(TypeIndex::new(0)))
        ),
        Err(Fault::IndexOutOfRange)
    );
    assert_eq!(record.num_fields(), 0);
    assert_eq!(
        record.try_add_field(&type_table, Field::new("a".to_string(), ValueType::U32)),
        Ok(())
    );
    assert_eq!(
        record.try_add_field(
            &type_table,
            Field::new("p".to_string(), ValueType::HeapData(TypeIndex::new(9)))
        ),
        Ok(())
    );
    assert_eq!(record.total_size(&type_table), 12);
    let record = type_table.insert(record);

    let mut slots = LocalSlots::new();
    assert_eq!(
        slots.try_add_slot(&type_table, ValueType::LocalData(TypeIndex::new(1))),
        Err(Fault::IndexOutOfRange)
    );
    assert_eq!(slots.try_add_slot(&type_table, ValueType::LocalData(record)), Ok(()));
    assert_eq!(slots.try_add_slot(&type_table, ValueType::I64), Ok(()));
    assert_eq!(slots.len(), 2);
    assert_eq!(slots.total_size(&type_table), 20);
    assert_eq!(slots.heap_offsets(), &[4]);
}
