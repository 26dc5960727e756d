use sahara::memory::dynamic_mem::{ContextHeap, References};
use sahara::memory::Pointer;
use sahara::{Field, ModuleRegistry, TypeDefinition, TypeId, TypeTable, ValueType};

fn create_type_definition(name: &str) -> TypeDefinition {
    let mut module_registry = ModuleRegistry::new();
    let test_module = module_registry.register("test".to_string());
    TypeDefinition::new(TypeId::new(&test_module, name))
}

fn setup() -> (ContextHeap, TypeTable, TypeDefinition) {
    let type_table = TypeTable::new();
    let ctx_heap = ContextHeap::new();
    let defn = create_type_definition("HeapType");
    (ctx_heap, type_table, defn)
}

#[test]
fn test_references_new_should_create_single_reference() {
    let refs = References::new();
    assert_eq!(refs.reference_count(), 1);
}

#[test]
fn test_references_increment_increases_reference_count() {
    let mut refs = References::new();
    refs.increment();
    assert_eq!(refs.reference_count(), 2);
}

#[test]
fn test_references_decrement_decreases_reference_count() {
    let mut refs = References::new();
    refs.increment();
    refs.increment();
    assert_eq!(refs.reference_count(), 3);
    refs.decrement();
    assert_eq!(refs.reference_count(), 2);
    refs.increment();
    assert_eq!(refs.reference_count(), 3);
    refs.decrement();
    refs.decrement();
    refs.decrement();
    assert!(!refs.is_live());
}

#[test]
fn test_context_heap_can_allocate() {
    let (mut ctx_heap, mut type_table, type_defn) = setup();
    let type_idx = type_table.insert(type_defn);
    let idx = ctx_heap.allocate(&type_table, type_idx);
    assert_eq!(idx, Pointer::new(16));

    let alloc = ctx_heap.get_alloc(idx);
    assert_eq!(alloc.size, 16);
}

#[test]
fn test_context_heap_is_allocation_valid_with_live_allocation_should_return_true() {
    let (mut ctx_heap, mut type_table, type_defn) = setup();
    let type_idx = type_table.insert(type_defn);
    let idx = ctx_heap.allocate(&type_table, type_idx);
    assert!(ctx_heap.is_allocation_valid(idx));
}

#[test]
fn test_context_heap_is_allocation_valid_without_live_allocation_should_return_false() {
    let (mut ctx_heap, mut type_table, type_defn) = setup();
    let type_idx = type_table.insert(type_defn);
    let idx = ctx_heap.allocate(&type_table, type_idx);
    ctx_heap.remove_reference(idx);
    assert!(!ctx_heap.is_allocation_valid(idx));
}

#[test]
fn test_context_heap_can_allocate_multiple() {
    let (mut ctx_heap, mut type_table, type_defn) = setup();
    let type_idx = type_table.insert(type_defn);
    let idx = ctx_heap.allocate_n(&type_table, type_idx, 5);
    assert_eq!(idx, Pointer::new(16));

    let alloc = ctx_heap.get_alloc(idx);
    assert_eq!(alloc.size, 16);
}

#[test]
fn test_context_heap_allocate_with_single_field_allocates_correct_size() {
    let (mut ctx_heap, mut type_table, mut type_defn) = setup();
    type_defn.add_field(&type_table, Field::new("field".to_string(), ValueType::U64));
    let type_idx = type_table.insert(type_defn);
    let idx = ctx_heap.allocate_n(&type_table, type_idx, 3);

    let alloc = ctx_heap.get_alloc(idx);
    assert_eq!(alloc.size, 40);
}

#[test]
fn test_context_heap_allocate_with_multiple_fields_allocates_correct_size() {
    let (mut ctx_heap, mut type_table, mut type_defn) = setup();
    type_defn.add_field(&type_table, Field::new("field".to_string(), ValueType::U64));
    type_defn.add_field(
        &type_table,
        Field::new("field2".to_string(), ValueType::U64),
    );
    let type_idx = type_table.insert(type_defn);
    let idx = ctx_heap.allocate_n(&type_table, type_idx, 3);

    let alloc = ctx_heap.get_alloc(idx);
    assert_eq!(alloc.size, 64);
}

#[test]
fn test_context_heap_should_add_allocation_to_free_list_after_all_references_die() {
    let (mut ctx_heap, mut type_table, type_defn) = setup();
    let type_idx = type_table.insert(type_defn);
    let idx = ctx_heap.allocate(&type_table, type_idx);
    ctx_heap.remove_reference(idx);
    assert_eq!(ctx_heap.free_list_len(), 1);
}

fn heap_with_u64_type() -> (ContextHeap, TypeTable, sahara::TypeIndex) {
    let (ctx_heap, mut type_table, mut type_defn) = setup();
    type_defn.add_field(&type_table, Field::new("field".to_string(), ValueType::U64));
    let type_idx = type_table.insert(type_defn);
    (ctx_heap, type_table, type_idx)
}

#[test]
fn allocation_writes_a_big_endian_header() {
    let (mut heap, type_table, type_idx) = heap_with_u64_type();
    let ptr = heap.allocate_n(&type_table, type_idx, 2);
    assert_eq!(
        heap.read_bytes(ptr, 16),
        vec![0, 0, 0, 1, 0, 0, 0, 0, 0, 0, 0, 2, 0, 0, 0, 32]
    );
    let header = heap.get_alloc(ptr);
    assert_eq!(header.references.reference_count(), 1);
    assert_eq!(header.type_index, type_idx);
    assert_eq!(header.num, 2);
    assert_eq!(header.size, 32);
    assert!(heap.is_block(ptr));
    assert_eq!(heap.free_ptr(), Pointer::new(48));
}

#[test]
fn add_and_remove_reference_are_balanced() {
    let (mut heap, type_table, type_idx) = heap_with_u64_type();
    let ptr = heap.allocate(&type_table, type_idx);
    assert_eq!(heap.reference_count(ptr), 1);
    heap.add_reference(ptr);
    assert_eq!(heap.reference_count(ptr), 2);
    heap.add_reference(ptr);
    assert_eq!(heap.reference_count(ptr), 3);
    heap.remove_reference(ptr);
    heap.remove_reference(ptr);
    assert_eq!(heap.reference_count(ptr), 1);
    assert!(heap.is_allocation_valid(ptr));
    assert_eq!(heap.free_list_len(), 0);
    heap.remove_reference(ptr);
    assert!(!heap.is_allocation_valid(ptr));
    assert_eq!(heap.free_list_len(), 1);
    assert_eq!(heap.read_bytes(ptr, 24), vec![0u8; 24]);
}

#[test]
fn freed_block_is_reused_and_its_tail_goes_back() {
    let (mut heap, mut type_table, type_idx) = heap_with_u64_type();
    let empty = type_table.insert(create_type_definition("Empty"));
    let big = heap.allocate_n(&type_table, type_idx, 4);
    let after = heap.allocate(&type_table, type_idx);
    assert_eq!(big, Pointer::new(16));
    assert_eq!(after, Pointer::new(64));
    heap.remove_reference(big);
    assert_eq!(heap.free_list_len(), 1);
    let small = heap.allocate(&type_table, empty);
    assert_eq!(small, Pointer::new(16));
    assert_eq!(heap.free_list_len(), 1);
    let tail = heap.free_block(0);
    assert_eq!(tail.ptr, Pointer::new(32));
    assert_eq!(tail.size, 32);
    assert_eq!(heap.free_ptr(), Pointer::new(88));
}

#[test]
fn smallest_fitting_block_is_taken() {
    let (mut heap, type_table, type_idx) = heap_with_u64_type();
    let large = heap.allocate_n(&type_table, type_idx, 5);
    let gap1 = heap.allocate(&type_table, type_idx);
    let small = heap.allocate_n(&type_table, type_idx, 2);
    let gap2 = heap.allocate(&type_table, type_idx);
    heap.remove_reference(large);
    heap.remove_reference(small);
    assert_eq!(heap.free_list_len(), 2);
    assert_eq!(heap.free_block(0).size, 32);
    assert_eq!(heap.free_block(1).size, 56);
    let again = heap.allocate_n(&type_table, type_idx, 2);
    assert_eq!(again, small);
    assert_eq!(heap.free_list_len(), 1);
    let fresh = heap.allocate_n(&type_table, type_idx, 6);
    assert_eq!(fresh, Pointer::new(gap2.address() + 24));
    assert!(heap.is_allocation_valid(gap1));
}

#[test]
fn replace_reference_skips_null() {
    let (mut heap, type_table, type_idx) = heap_with_u64_type();
    let a = heap.allocate(&type_table, type_idx);
    let b = heap.allocate(&type_table, type_idx);
    assert!(heap.can_replace(Pointer::new(0), a));
    heap.replace_reference(Pointer::new(0), a);
    assert_eq!(heap.reference_count(a), 2);
    heap.replace_reference(a, b);
    assert_eq!(heap.reference_count(a), 1);
    assert_eq!(heap.reference_count(b), 2);
    heap.replace_reference(b, b);
    assert_eq!(heap.reference_count(b), 2);
    heap.replace_reference(a, Pointer::new(0));
    assert!(!heap.is_allocation_valid(a));
    assert!(!heap.can_replace(a, b));
    assert!(!heap.can_replace(Pointer::new(0), Pointer::new(4000)));
}

#[test]
fn type_of_reads_the_header() {
    let (mut heap, mut type_table, type_idx) = heap_with_u64_type();
    let other = type_table.insert(create_type_definition("Other"));
    let a = heap.allocate(&type_table, type_idx);
    let b = heap.allocate(&type_table, other);
    assert_eq!(heap.type_of(&type_table, a).name().as_str(), "test::HeapType");
    assert_eq!(heap.type_of(&type_table, b).name().as_str(), "test::Other");
}
