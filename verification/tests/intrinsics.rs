use nova_vm::error::HeapError;
use nova_vm::function::initialize_function_heap;
use nova_vm::heap::Heap;
use nova_vm::heap_constants::BuiltinObjectIndexes;
use nova_vm::indexes::{FunctionIndex, ObjectIndex};
use nova_vm::intrinsics::{Intrinsics, ProtoIntrinsics};
use nova_vm::object::ObjectEntry;
use nova_vm::types::{Function, Object, OrdinaryObject, Value};

const PROTOTYPES_AND_OBJECTS: [BuiltinObjectIndexes; 18] = [
    BuiltinObjectIndexes::ObjectPrototypeIndex,
    BuiltinObjectIndexes::FunctionPrototypeIndex,
    BuiltinObjectIndexes::BooleanPrototypeIndex,
    BuiltinObjectIndexes::SymbolPrototypeIndex,
    BuiltinObjectIndexes::ErrorPrototypeIndex,
    BuiltinObjectIndexes::EvalErrorPrototypeIndex,
    BuiltinObjectIndexes::RangeErrorPrototypeIndex,
    BuiltinObjectIndexes::ReferenceErrorPrototypeIndex,
    BuiltinObjectIndexes::SyntaxErrorPrototypeIndex,
    BuiltinObjectIndexes::TypeErrorPrototypeIndex,
    BuiltinObjectIndexes::UriErrorPrototypeIndex,
    BuiltinObjectIndexes::NumberPrototypeIndex,
    BuiltinObjectIndexes::BigintPrototypeIndex,
    BuiltinObjectIndexes::MathObjectIndex,
    BuiltinObjectIndexes::StringPrototypeIndex,
    BuiltinObjectIndexes::ArrayPrototypeIndex,
    BuiltinObjectIndexes::ArrayBufferPrototypeIndex,
    BuiltinObjectIndexes::ReflectObjectIndex,
];

const CONSTRUCTORS: [BuiltinObjectIndexes; 16] = [
    BuiltinObjectIndexes::ObjectConstructorIndex,
    BuiltinObjectIndexes::FunctionConstructorIndex,
    BuiltinObjectIndexes::BooleanConstructorIndex,
    BuiltinObjectIndexes::SymbolConstructorIndex,
    BuiltinObjectIndexes::ErrorConstructorIndex,
    BuiltinObjectIndexes::EvalErrorConstructorIndex,
    BuiltinObjectIndexes::RangeErrorConstructorIndex,
    BuiltinObjectIndexes::ReferenceErrorConstructorIndex,
    BuiltinObjectIndexes::SyntaxErrorConstructorIndex,
    BuiltinObjectIndexes::TypeErrorConstructorIndex,
    BuiltinObjectIndexes::UriErrorConstructorIndex,
    BuiltinObjectIndexes::NumberConstructorIndex,
    BuiltinObjectIndexes::BigintConstructorIndex,
    BuiltinObjectIndexes::StringConstructorIndex,
    BuiltinObjectIndexes::ArrayConstructorIndex,
    BuiltinObjectIndexes::ArrayBufferConstructorIndex,
];

const KINDS: [(ProtoIntrinsics, u32); 16] = [
    (ProtoIntrinsics::Array, 15),
    (ProtoIntrinsics::ArrayBuffer, 16),
    (ProtoIntrinsics::BigInt, 12),
    (ProtoIntrinsics::Boolean, 2),
    (ProtoIntrinsics::Error, 4),
    (ProtoIntrinsics::EvalError, 5),
    (ProtoIntrinsics::Function, 1),
    (ProtoIntrinsics::Number, 11),
    (ProtoIntrinsics::Object, 0),
    (ProtoIntrinsics::RangeError, 6),
    (ProtoIntrinsics::ReferenceError, 7),
    (ProtoIntrinsics::String, 14),
    (ProtoIntrinsics::Symbol, 3),
    (ProtoIntrinsics::SyntaxError, 8),
    (ProtoIntrinsics::TypeError, 9),
    (ProtoIntrinsics::UriError, 10),
];

/// A heap in which every fixed slot is filled: the Function pair by its
/// installer, the others with bare records.
fn bootstrapped() -> Heap {
    let mut heap = Heap::new();
    initialize_function_heap(&mut heap).unwrap();
    for slot in PROTOTYPES_AND_OBJECTS {
        if slot != BuiltinObjectIndexes::FunctionPrototypeIndex {
            let prototype = if slot == BuiltinObjectIndexes::ObjectPrototypeIndex {
                None
            } else {
                Some(Object::Object(ObjectIndex(0)))
            };
            heap.insert_builtin_object(slot, false, prototype, Vec::new()).unwrap();
        }
    }
    for (place, slot) in CONSTRUCTORS.iter().enumerate() {
        if *slot != BuiltinObjectIndexes::FunctionConstructorIndex {
            let paired = PROTOTYPES_AND_OBJECTS
                .iter()
                .filter(|s| **s != BuiltinObjectIndexes::MathObjectIndex)
                .filter(|s| **s != BuiltinObjectIndexes::ReflectObjectIndex)
                .nth(place)
                .unwrap();
            heap.insert_builtin_object(
                *slot,
                true,
                Some(Object::Object(ObjectIndex(1))),
                vec![ObjectEntry::new_constructor_prototype_entry(paired.object_index())],
            )
            .unwrap();
        }
    }
    assert!(heap.is_bootstrapped());
    heap
}

#[test]
fn every_default_prototype_resolves_after_bootstrap() {
    let mut heap = bootstrapped();
    let intrinsics = Intrinsics::from_heap(&heap);
    for (kind, slot) in KINDS {
        let prototype = intrinsics.get_intrinsic_default_proto(kind);
        assert_eq!(prototype, Ok(Object::Object(ObjectIndex(slot))));
        assert!(heap.object(ObjectIndex(slot)).is_ok());
    }
    for _ in 0..10 {
        heap.create_object(None, Vec::new());
        heap.create_function(Value::Null, 0, false);
    }
    let twin = bootstrapped();
    for (kind, slot) in KINDS {
        assert_eq!(
            Intrinsics::from_heap(&heap).get_intrinsic_default_proto(kind),
            Ok(Object::Object(ObjectIndex(slot)))
        );
        assert_eq!(heap.object(ObjectIndex(slot)), twin.object(ObjectIndex(slot)));
    }
}

#[test]
fn the_table_of_a_bootstrapped_heap_is_the_table_of_the_fixed_slots() {
    let heap = bootstrapped();
    assert_eq!(Intrinsics::from_heap(&heap), Intrinsics::default());
}

#[test]
fn default_prototype_of_array_before_and_after_bootstrap() {
    let mut heap = Heap::new();
    let before = Intrinsics::from_heap(&heap);
    assert_eq!(
        before.get_intrinsic_default_proto(ProtoIntrinsics::Array),
        Err(HeapError::NotImplemented)
    );
    assert_eq!(before.array_prototype(), Err(HeapError::NotImplemented));
    heap.insert_builtin_object(
        BuiltinObjectIndexes::ArrayPrototypeIndex,
        false,
        Some(Object::Object(ObjectIndex(0))),
        Vec::new(),
    )
    .unwrap();
    let after = Intrinsics::from_heap(&heap);
    assert_eq!(
        after.get_intrinsic_default_proto(ProtoIntrinsics::Array),
        Ok(Object::Object(ObjectIndex(15)))
    );
    assert_eq!(after.array_prototype(), Ok(Object::Object(ObjectIndex(15))));
    assert!(heap.object(ObjectIndex(15)).is_ok());
    assert_eq!(
        bootstrapped_table().get_intrinsic_default_proto(ProtoIntrinsics::Array),
        Ok(Object::Object(ObjectIndex(15)))
    );
    assert_eq!(
        before.get_intrinsic_default_proto(ProtoIntrinsics::Array),
        Err(HeapError::NotImplemented)
    );
}

fn bootstrapped_table() -> Intrinsics {
    Intrinsics::from_heap(&bootstrapped())
}

#[test]
fn two_derivations_from_one_heap_are_identical() {
    let heap = bootstrapped();
    let one = Intrinsics::from_heap(&heap);
    let two = Intrinsics::from_heap(&heap);
    assert_eq!(one, two);
    let copy = one;
    assert_eq!(copy, one);
    let partial = {
        let mut heap = Heap::new();
        initialize_function_heap(&mut heap).unwrap();
        heap
    };
    assert_eq!(Intrinsics::from_heap(&partial), Intrinsics::from_heap(&partial));
    assert_ne!(Intrinsics::from_heap(&partial), one);
}

#[test]
fn nothing_is_present_in_the_table_of_an_empty_heap() {
    let table = Intrinsics::from_heap(&Heap::new());
    for (kind, _) in KINDS {
        assert_eq!(table.get_intrinsic_default_proto(kind), Err(HeapError::NotImplemented));
    }
    assert_eq!(table.function(), Err(HeapError::NotImplemented));
    assert_eq!(table.math(), Err(HeapError::NotImplemented));
    assert_eq!(table.reflect(), Err(HeapError::NotImplemented));
    assert_eq!(table.array_buffer_prototype(), Err(HeapError::NotImplemented));
    assert_eq!(table.range_error(), Err(HeapError::NotImplemented));
    assert_eq!(table.eval(), Err(HeapError::NotImplemented));
}

#[test]
fn only_installed_intrinsics_are_present() {
    let mut heap = Heap::new();
    initialize_function_heap(&mut heap).unwrap();
    let table = Intrinsics::from_heap(&heap);
    assert_eq!(table.function(), Ok(Function(FunctionIndex(1))));
    assert_eq!(table.function_prototype(), Ok(Object::Object(ObjectIndex(1))));
    assert_eq!(table.object(), Err(HeapError::NotImplemented));
    assert_eq!(table.object_prototype(), Err(HeapError::NotImplemented));
    assert_eq!(
        table.get_intrinsic_default_proto(ProtoIntrinsics::Function),
        Ok(Object::Object(ObjectIndex(1)))
    );
    assert_eq!(
        table.get_intrinsic_default_proto(ProtoIntrinsics::Object),
        Err(HeapError::NotImplemented)
    );
    // A constructor whose object is installed without its function record
    // is not present.
    heap.insert_builtin_object(BuiltinObjectIndexes::ArrayConstructorIndex, false, None, Vec::new())
        .unwrap();
    assert_eq!(Intrinsics::from_heap(&heap).array(), Err(HeapError::NotImplemented));
}

#[test]
fn accessors_of_the_fixed_slot_table() {
    let t = Intrinsics::default();
    assert_eq!(t.array(), Ok(Function(FunctionIndex(14))));
    assert_eq!(t.array_prototype(), Ok(Object::Object(ObjectIndex(15))));
    assert_eq!(t.array_buffer(), Ok(Function(FunctionIndex(15))));
    assert_eq!(t.array_buffer_prototype(), Ok(OrdinaryObject(ObjectIndex(16))));
    assert_eq!(t.big_int(), Ok(Function(FunctionIndex(12))));
    assert_eq!(t.big_int_prototype(), Ok(Object::Object(ObjectIndex(12))));
    assert_eq!(t.boolean(), Ok(Function(FunctionIndex(2))));
    assert_eq!(t.boolean_prototype(), Ok(Object::Object(ObjectIndex(2))));
    assert_eq!(t.error(), Ok(Function(FunctionIndex(4))));
    assert_eq!(t.error_prototype(), Ok(Object::Object(ObjectIndex(4))));
    assert_eq!(t.eval_error(), Ok(Function(FunctionIndex(5))));
    assert_eq!(t.eval_error_prototype(), Ok(Object::Object(ObjectIndex(5))));
    assert_eq!(t.function(), Ok(Function(FunctionIndex(1))));
    assert_eq!(t.function_prototype(), Ok(Object::Object(ObjectIndex(1))));
    assert_eq!(t.math(), Ok(Object::Object(ObjectIndex(13))));
    assert_eq!(t.number(), Ok(Function(FunctionIndex(11))));
    assert_eq!(t.number_prototype(), Ok(Object::Object(ObjectIndex(11))));
    assert_eq!(t.object(), Ok(Function(FunctionIndex(0))));
    assert_eq!(t.object_prototype(), Ok(Object::Object(ObjectIndex(0))));
    assert_eq!(t.range_error(), Ok(Object::Function(FunctionIndex(6))));
    assert_eq!(t.range_error_prototype(), Ok(Object::Object(ObjectIndex(6))));
    assert_eq!(t.reference_error(), Ok(Object::Function(FunctionIndex(7))));
    assert_eq!(t.reference_error_prototype(), Ok(Object::Object(ObjectIndex(7))));
    assert_eq!(t.reflect(), Ok(Object::Object(ObjectIndex(17))));
    assert_eq!(t.string(), Ok(Function(FunctionIndex(13))));
    assert_eq!(t.string_prototype(), Ok(Object::Object(ObjectIndex(14))));
    assert_eq!(t.symbol(), Ok(Function(FunctionIndex(3))));
    assert_eq!(t.symbol_prototype(), Ok(Object::Object(ObjectIndex(3))));
    assert_eq!(t.syntax_error(), Ok(Object::Function(FunctionIndex(8))));
    assert_eq!(t.syntax_error_prototype(), Ok(Object::Object(ObjectIndex(8))));
    assert_eq!(t.type_error(), Ok(Object::Function(FunctionIndex(9))));
    assert_eq!(t.type_error_prototype(), Ok(Object::Object(ObjectIndex(9))));
    assert_eq!(t.uri_error(), Ok(Object::Function(FunctionIndex(10))));
    assert_eq!(t.uri_error_prototype(), Ok(Object::Object(ObjectIndex(10))));
}

#[test]
fn intrinsics_without_a_fixed_slot_are_not_implemented() {
    for t in [Intrinsics::default(), bootstrapped_table()] {
        assert_eq!(t.eval(), Err(HeapError::NotImplemented));
        assert_eq!(t.is_finite(), Err(HeapError::NotImplemented));
        assert_eq!(t.is_nan(), Err(HeapError::NotImplemented));
        assert_eq!(t.object_prototype_to_string(), Err(HeapError::NotImplemented));
        assert_eq!(t.throw_type_error(), Err(HeapError::NotImplemented));
    }
}

#[test]
fn an_accessor_hands_out_what_the_table_holds() {
    let mut t = Intrinsics::default();
    t.eval = Some(FunctionIndex(40));
    t.object_prototype_to_string = Some(FunctionIndex(41));
    t.array_prototype = None;
    assert_eq!(t.eval(), Ok(Function(FunctionIndex(40))));
    assert_eq!(t.object_prototype_to_string(), Ok(Object::Function(FunctionIndex(41))));
    assert_eq!(t.array_prototype(), Err(HeapError::NotImplemented));
    assert_eq!(
        t.get_intrinsic_default_proto(ProtoIntrinsics::Array),
        Err(HeapError::NotImplemented)
    );
    assert_eq!(
        t.get_intrinsic_default_proto(ProtoIntrinsics::ArrayBuffer),
        Ok(Object::Object(ObjectIndex(16)))
    );
}

#[test]
fn every_handle_of_a_derived_table_resolves() {
    let heap = bootstrapped();
    let t = Intrinsics::from_heap(&heap);
    let functions = [
        t.array, t.array_buffer, t.big_int, t.boolean, t.error, t.eval_error, t.function,
        t.number, t.object, t.range_error, t.reference_error, t.string, t.symbol,
        t.syntax_error, t.type_error, t.uri_error,
    ];
    for (place, handle) in functions.iter().enumerate() {
        let record = heap.function(handle.unwrap()).unwrap();
        let object = heap.object(record.object_index.unwrap()).unwrap();
        assert_eq!(object.len(), 1, "constructor {}", place);
    }
    let objects = [
        t.array_prototype, t.array_buffer_prototype, t.big_int_prototype, t.boolean_prototype,
        t.error_prototype, t.eval_error_prototype, t.function_prototype, t.math,
        t.number_prototype, t.object_prototype, t.range_error_prototype,
        t.reference_error_prototype, t.reflect, t.string_prototype, t.symbol_prototype,
        t.syntax_error_prototype, t.type_error_prototype, t.uri_error_prototype,
    ];
    for handle in objects {
        assert!(heap.object(handle.unwrap()).is_ok());
    }
}

#[test]
fn a_table_is_complete_only_with_every_intrinsic() {
    assert!(!Intrinsics::from_heap(&Heap::new()).is_complete());
    assert!(!Intrinsics::default().is_complete());
    assert!(!bootstrapped_table().is_complete());
    let mut t = Intrinsics::default();
    t.eval = Some(FunctionIndex(40));
    t.is_finite = Some(FunctionIndex(41));
    t.is_nan = Some(FunctionIndex(42));
    t.object_prototype_to_string = Some(FunctionIndex(43));
    assert!(!t.is_complete());
    t.throw_type_error = Some(FunctionIndex(44));
    assert!(t.is_complete());
    t.uri_error_prototype = None;
    assert!(!t.is_complete());
}

#[test]
fn the_fixed_slot_table_has_every_default_prototype() {
    let t = Intrinsics::default();
    for (kind, slot) in KINDS {
        assert_eq!(t.get_intrinsic_default_proto(kind), Ok(Object::Object(ObjectIndex(slot))));
    }
}
