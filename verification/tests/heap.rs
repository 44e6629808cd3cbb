use nova_vm::error::HeapError;
use nova_vm::heap::Heap;
use nova_vm::heap_constants::BuiltinObjectIndexes;
use nova_vm::indexes::{FunctionIndex, ObjectIndex};
use nova_vm::object::{ObjectEntry, PropertyDescriptor};
use nova_vm::types::{FunctionHeapData, Object, PropertyKey, Value};

fn entry(name: &str, value: Value) -> ObjectEntry {
    ObjectEntry::new(PropertyKey::from_str(name), PropertyDescriptor::rwx(value))
}

#[test]
fn a_new_heap_reserves_empty_slots() {
    let heap = Heap::new();
    for slot in 0..34 {
        assert_eq!(heap.object(ObjectIndex(slot)), Err(HeapError::InvalidHandle));
    }
    for slot in 0..16 {
        assert_eq!(heap.function(FunctionIndex(slot)), Err(HeapError::InvalidHandle));
    }
    assert!(!heap.is_bootstrapped());
    assert_eq!(heap.builtin_object(BuiltinObjectIndexes::ObjectPrototypeIndex), None);
    assert_eq!(heap.builtin_function(BuiltinObjectIndexes::ObjectConstructorIndex), None);
    assert_eq!(heap.builtin_function(BuiltinObjectIndexes::ObjectPrototypeIndex), None);
}

#[test]
fn the_first_fresh_slots_follow_the_reserved_ones() {
    let mut heap = Heap::new();
    assert_eq!(heap.create_object(None, Vec::new()), ObjectIndex(34));
    assert_eq!(heap.create_object(None, Vec::new()), ObjectIndex(35));
    assert_eq!(heap.create_function(Value::Undefined, 0, false), FunctionIndex(16));
    assert_eq!(heap.create_function(Value::Undefined, 0, false), FunctionIndex(17));
}

#[test]
fn handles_beyond_the_arena_do_not_resolve() {
    let mut heap = Heap::new();
    assert_eq!(heap.object(ObjectIndex(34)), Err(HeapError::InvalidHandle));
    assert_eq!(heap.object(ObjectIndex(u32::MAX)), Err(HeapError::InvalidHandle));
    assert_eq!(heap.function(FunctionIndex(16)), Err(HeapError::InvalidHandle));
    assert_eq!(heap.function(FunctionIndex(u32::MAX)), Err(HeapError::InvalidHandle));
    heap.create_object(None, Vec::new());
    assert!(heap.object(ObjectIndex(34)).is_ok());
    assert_eq!(heap.object(ObjectIndex(35)), Err(HeapError::InvalidHandle));
}

#[test]
fn insert_builtin_object_fills_the_slot() {
    let mut heap = Heap::new();
    let r = heap.insert_builtin_object(
        BuiltinObjectIndexes::MathObjectIndex,
        false,
        Some(Object::Object(ObjectIndex(0))),
        vec![entry("E", Value::Null), entry("PI", Value::Undefined)],
    );
    assert_eq!(r, Ok(ObjectIndex(13)));
    let math = heap.object(ObjectIndex(13)).unwrap();
    assert_eq!(math.prototype(), Some(Object::Object(ObjectIndex(0))));
    assert_eq!(math.len(), 2);
    assert_eq!(*math.key(0), PropertyKey::from_str("E"));
    assert_eq!(*math.value(0), PropertyDescriptor::rwx(Value::Null));
    assert_eq!(*math.key(1), PropertyKey::from_str("PI"));
    assert_eq!(*math.value(1), PropertyDescriptor::rwx(Value::Undefined));
    assert_eq!(
        heap.builtin_object(BuiltinObjectIndexes::MathObjectIndex),
        Some(ObjectIndex(13))
    );
    assert_eq!(heap.object(ObjectIndex(12)), Err(HeapError::InvalidHandle));
    assert_eq!(heap.object(ObjectIndex(14)), Err(HeapError::InvalidHandle));
    for slot in 0..16 {
        assert!(heap.function(FunctionIndex(slot)).is_err());
    }
}

#[test]
fn the_root_has_no_prototype() {
    let mut heap = Heap::new();
    let r = heap.insert_builtin_object(
        BuiltinObjectIndexes::ObjectPrototypeIndex,
        false,
        None,
        Vec::new(),
    );
    assert_eq!(r, Ok(ObjectIndex(0)));
    assert_eq!(heap.object(ObjectIndex(0)).unwrap().prototype(), None);
}

#[test]
fn insert_builtin_object_materializes_the_constructors_function() {
    let mut heap = Heap::new();
    let r = heap.insert_builtin_object(
        BuiltinObjectIndexes::ArrayConstructorIndex,
        true,
        Some(Object::Object(ObjectIndex(1))),
        vec![ObjectEntry::new_constructor_prototype_entry(ObjectIndex(15))],
    );
    assert_eq!(r, Ok(ObjectIndex(32)));
    assert_eq!(
        heap.function(FunctionIndex(14)),
        Ok(&FunctionHeapData {
            object_index: Some(ObjectIndex(32)),
            length: 0,
            initial_name: Value::Null,
        })
    );
    assert_eq!(
        heap.builtin_function(BuiltinObjectIndexes::ArrayConstructorIndex),
        Some(FunctionIndex(14))
    );
    assert!(heap.function(FunctionIndex(13)).is_err());
    assert!(heap.function(FunctionIndex(15)).is_err());
    assert_eq!(heap.object(ObjectIndex(32)).unwrap().len(), 1);
}

#[test]
fn a_constructor_can_be_installed_without_its_function() {
    let mut heap = Heap::new();
    let r = heap.insert_builtin_object(
        BuiltinObjectIndexes::ArrayConstructorIndex,
        false,
        None,
        Vec::new(),
    );
    assert_eq!(r, Ok(ObjectIndex(32)));
    assert_eq!(heap.function(FunctionIndex(14)), Err(HeapError::InvalidHandle));
    assert_eq!(heap.builtin_function(BuiltinObjectIndexes::ArrayConstructorIndex), None);
}

#[test]
fn a_filled_slot_is_not_overwritten() {
    let mut heap = Heap::new();
    let mut twin = Heap::new();
    for h in [&mut heap, &mut twin] {
        let r = h.insert_builtin_object(
            BuiltinObjectIndexes::StringPrototypeIndex,
            false,
            Some(Object::Object(ObjectIndex(0))),
            vec![entry("length", Value::Null)],
        );
        assert_eq!(r, Ok(ObjectIndex(14)));
    }
    let again = heap.insert_builtin_object(
        BuiltinObjectIndexes::StringPrototypeIndex,
        false,
        None,
        vec![entry("other", Value::Undefined)],
    );
    assert_eq!(again, Err(HeapError::DuplicateSlot));
    assert_eq!(heap, twin);
    let record = heap.object(ObjectIndex(14)).unwrap();
    assert_eq!(record.prototype(), Some(Object::Object(ObjectIndex(0))));
    assert_eq!(record.len(), 1);
    assert_eq!(*record.key(0), PropertyKey::from_str("length"));
}

#[test]
fn a_filled_constructor_slot_is_not_overwritten() {
    let mut heap = Heap::new();
    let mut twin = Heap::new();
    for h in [&mut heap, &mut twin] {
        let r = h.insert_builtin_object(
            BuiltinObjectIndexes::NumberConstructorIndex,
            true,
            None,
            Vec::new(),
        );
        assert_eq!(r, Ok(ObjectIndex(29)));
    }
    for flag in [true, false] {
        let again = heap.insert_builtin_object(
            BuiltinObjectIndexes::NumberConstructorIndex,
            flag,
            Some(Object::Object(ObjectIndex(1))),
            vec![entry("x", Value::Null)],
        );
        assert_eq!(again, Err(HeapError::DuplicateSlot));
        assert_eq!(heap, twin);
    }
}

#[test]
fn a_filled_slot_reports_duplicate_before_anything_else() {
    let mut heap = Heap::new();
    heap.insert_builtin_object(BuiltinObjectIndexes::MathObjectIndex, false, None, Vec::new())
        .unwrap();
    let again =
        heap.insert_builtin_object(BuiltinObjectIndexes::MathObjectIndex, true, None, Vec::new());
    assert_eq!(again, Err(HeapError::DuplicateSlot));
}

#[test]
fn only_a_constructor_slot_has_a_function() {
    let mut heap = Heap::new();
    let r = heap.insert_builtin_object(
        BuiltinObjectIndexes::ReflectObjectIndex,
        true,
        None,
        Vec::new(),
    );
    assert_eq!(r, Err(HeapError::InvalidHandle));
    assert_eq!(heap, Heap::new());
    let r = heap.insert_builtin_function(BuiltinObjectIndexes::ReflectObjectIndex, 0, Value::Null);
    assert_eq!(r, Err(HeapError::InvalidHandle));
    assert_eq!(heap, Heap::new());
}

#[test]
fn insert_builtin_function_needs_the_constructors_object() {
    let mut heap = Heap::new();
    let r = heap.insert_builtin_function(
        BuiltinObjectIndexes::SymbolConstructorIndex,
        0,
        Value::Null,
    );
    assert_eq!(r, Err(HeapError::InvalidHandle));
    assert_eq!(heap, Heap::new());
}

#[test]
fn insert_builtin_function_fills_the_paired_slot_once() {
    let mut heap = Heap::new();
    heap.insert_builtin_object(
        BuiltinObjectIndexes::SymbolConstructorIndex,
        false,
        None,
        Vec::new(),
    )
    .unwrap();
    let r = heap.insert_builtin_function(
        BuiltinObjectIndexes::SymbolConstructorIndex,
        7,
        Value::from_str("Symbol"),
    );
    assert_eq!(r, Ok(FunctionIndex(3)));
    assert_eq!(
        heap.function(FunctionIndex(3)),
        Ok(&FunctionHeapData {
            object_index: Some(ObjectIndex(21)),
            length: 7,
            initial_name: Value::from_str("Symbol"),
        })
    );
    let again = heap.insert_builtin_function(
        BuiltinObjectIndexes::SymbolConstructorIndex,
        1,
        Value::Null,
    );
    assert_eq!(again, Err(HeapError::DuplicateSlot));
    assert_eq!(heap.function(FunctionIndex(3)).unwrap().length, 7);
    assert_eq!(heap.function(FunctionIndex(3)).unwrap().initial_name, Value::from_str("Symbol"));
}

#[test]
fn create_object_returns_a_fresh_handle_to_the_record() {
    let mut heap = Heap::new();
    let first = heap.create_object(
        Some(Object::Object(ObjectIndex(0))),
        vec![entry("a", Value::Boolean(true))],
    );
    let second = heap.create_object(None, Vec::new());
    assert_eq!(first, ObjectIndex(34));
    assert_eq!(second, ObjectIndex(35));
    let record = heap.object(first).unwrap();
    assert_eq!(record.prototype(), Some(Object::Object(ObjectIndex(0))));
    assert_eq!(record.len(), 1);
    assert_eq!(
        record.get_own_property(&PropertyKey::from_str("a")),
        Some(&PropertyDescriptor::rwx(Value::Boolean(true)))
    );
    assert_eq!(heap.object(second).unwrap().prototype(), None);
    assert_eq!(heap.object(second).unwrap().len(), 0);
}

#[test]
fn create_function_returns_a_fresh_handle_to_the_record() {
    let mut heap = Heap::new();
    let f = heap.create_function(Value::from_str("f"), 3, true);
    let g = heap.create_function(Value::Null, 0, false);
    assert_eq!(f, FunctionIndex(16));
    assert_eq!(g, FunctionIndex(17));
    assert_eq!(
        heap.function(f),
        Ok(&FunctionHeapData { object_index: None, length: 3, initial_name: Value::from_str("f") })
    );
    assert_eq!(
        heap.function(g),
        Ok(&FunctionHeapData { object_index: None, length: 0, initial_name: Value::Null })
    );
    assert_eq!(heap.function(f).unwrap().clone(), *heap.function(f).unwrap());
}

#[test]
fn allocation_keeps_installed_objects_in_place() {
    let mut heap = Heap::new();
    heap.insert_builtin_object(
        BuiltinObjectIndexes::ArrayPrototypeIndex,
        false,
        Some(Object::Object(ObjectIndex(0))),
        vec![entry("length", Value::Null)],
    )
    .unwrap();
    let mut twin = Heap::new();
    twin.insert_builtin_object(
        BuiltinObjectIndexes::ArrayPrototypeIndex,
        false,
        Some(Object::Object(ObjectIndex(0))),
        vec![entry("length", Value::Null)],
    )
    .unwrap();
    for _ in 0..100 {
        heap.create_object(None, vec![entry("x", Value::Undefined)]);
        heap.create_function(Value::Null, 1, false);
    }
    heap.insert_builtin_object(BuiltinObjectIndexes::MathObjectIndex, false, None, Vec::new())
        .unwrap();
    assert_eq!(heap.object(ObjectIndex(15)), twin.object(ObjectIndex(15)));
    assert_eq!(heap.object(ObjectIndex(133)).unwrap().len(), 1);
    assert_eq!(heap.object(ObjectIndex(134)), Err(HeapError::InvalidHandle));
}

#[test]
fn a_heap_with_every_fixed_slot_filled_is_bootstrapped() {
    let mut heap = Heap::new();
    let slots = [
        BuiltinObjectIndexes::ObjectPrototypeIndex,
        BuiltinObjectIndexes::FunctionPrototypeIndex,
        BuiltinObjectIndexes::BooleanPrototypeIndex,
        BuiltinObjectIndexes::SymbolPrototypeIndex,
        BuiltinObjectIndexes::ErrorPrototypeIndex,
        BuiltinObjectIndexes::EvalErrorPrototypeIndex,
        BuiltinObjectIndexes::RangeErrorPrototypeIndex,
        BuiltinObjectIndexes::ReferenceErrorPrototypeIndex,
        BuiltinObjectIndexes::SyntaxErrorPrototypeIndex,
        BuiltinObjectIndexes::TypeErrorPrototypeIndex,
        BuiltinObjectIndexes::UriErrorPrototypeIndex,
        BuiltinObjectIndexes::NumberPrototypeIndex,
        BuiltinObjectIndexes::BigintPrototypeIndex,
        BuiltinObjectIndexes::MathObjectIndex,
        BuiltinObjectIndexes::StringPrototypeIndex,
        BuiltinObjectIndexes::ArrayPrototypeIndex,
        BuiltinObjectIndexes::ArrayBufferPrototypeIndex,
        BuiltinObjectIndexes::ReflectObjectIndex,
        BuiltinObjectIndexes::ObjectConstructorIndex,
        BuiltinObjectIndexes::FunctionConstructorIndex,
        BuiltinObjectIndexes::BooleanConstructorIndex,
        BuiltinObjectIndexes::SymbolConstructorIndex,
        BuiltinObjectIndexes::ErrorConstructorIndex,
        BuiltinObjectIndexes::EvalErrorConstructorIndex,
        BuiltinObjectIndexes::RangeErrorConstructorIndex,
        BuiltinObjectIndexes::ReferenceErrorConstructorIndex,
        BuiltinObjectIndexes::SyntaxErrorConstructorIndex,
        BuiltinObjectIndexes::TypeErrorConstructorIndex,
        BuiltinObjectIndexes::UriErrorConstructorIndex,
        BuiltinObjectIndexes::NumberConstructorIndex,
        BuiltinObjectIndexes::BigintConstructorIndex,
        BuiltinObjectIndexes::StringConstructorIndex,
        BuiltinObjectIndexes::ArrayConstructorIndex,
    ];
    for slot in slots {
        assert!(!heap.is_bootstrapped());
        heap.insert_builtin_object(slot, slot.is_constructor(), None, Vec::new()).unwrap();
    }
    assert!(!heap.is_bootstrapped());
    heap.insert_builtin_object(
        BuiltinObjectIndexes::ArrayBufferConstructorIndex,
        false,
        None,
        Vec::new(),
    )
    .unwrap();
    assert!(!heap.is_bootstrapped());
    heap.insert_builtin_function(BuiltinObjectIndexes::ArrayBufferConstructorIndex, 1, Value::Null)
        .unwrap();
    assert!(heap.is_bootstrapped());
    heap.create_object(None, Vec::new());
    assert!(heap.is_bootstrapped());
}
