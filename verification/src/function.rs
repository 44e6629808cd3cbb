use vstd::prelude::*;
use crate::error::HeapError;
use crate::heap::{Heap, HeapView};
use crate::heap_constants::{
    get_constructor_index, spec_get_constructor_index, BuiltinObjectIndexes,
    WellKnownSymbolIndexes,
};
use crate::indexes::FunctionIndex;
use crate::intrinsics::Intrinsics;
use crate::object::{ObjectEntry, PropertyDescriptor};
use crate::types::{
    FunctionHeapData, JsError, JsResult, Object, PropertyKey, PropertyKeyView, Value, ValueView,
};

verus! {

/// The function record `f` is that of the builtin method created with `name`
/// and `length` parameters.
pub open spec fn is_method_record(f: Option<FunctionHeapData>, name: &str, length: u8) -> bool {
    f matches Some(data) && data.is_fresh(ValueView::String(name@), length)
}

/// `after` is `before` with the Function constructor and its prototype
/// installed, and nothing else changed.
///
/// The constructor's object has %Function.prototype% as its [[Prototype]] and
/// one own property, `prototype`. Its function record names that object and
/// declares one parameter. %Function.prototype% is a plain object whose
/// [[Prototype]] is %Object.prototype%; it holds the methods `apply`, `bind`,
/// `call`, `toString` and the method keyed by the symbol `hasInstance`, whose
/// functions stand in this order in five fresh slots at the end of the
/// function arena, and `constructor`, which holds the Function constructor.
pub open spec fn function_heap_installed(before: HeapView, after: HeapView) -> bool {
    let constructor = BuiltinObjectIndexes::FunctionConstructorIndex.spec_object_index();
    let prototype = BuiltinObjectIndexes::FunctionPrototypeIndex.spec_object_index();
    let root = BuiltinObjectIndexes::ObjectPrototypeIndex.spec_object_index();
    let function = spec_get_constructor_index(BuiltinObjectIndexes::FunctionConstructorIndex);
    let n = before.functions.len() as int;
    &&& n + 4 <= u32::MAX
    &&& after.objects.len() == before.objects.len()
    &&& forall|i: int|
        0 <= i < before.objects.len() && i != constructor.0 && i != prototype.0
            ==> #[trigger] after.objects[i] == before.objects[i]
    &&& after.objects[constructor.0 as int] matches Some(c)
    &&& c.prototype == Some(Object::Object(prototype))
    &&& c.properties.len() == 1
    &&& c.properties[0].is_constructor_prototype(prototype)
    &&& after.objects[prototype.0 as int] matches Some(p)
    &&& p.prototype == Some(Object::Object(root))
    &&& p.properties.len() == 6
    &&& p.properties[0].is_method(PropertyKeyView::String("apply"@), FunctionIndex(n as u32))
    &&& p.properties[1].is_method(PropertyKeyView::String("bind"@), FunctionIndex((n + 1) as u32))
    &&& p.properties[2].is_method(PropertyKeyView::String("call"@), FunctionIndex((n + 2) as u32))
    &&& p.properties[3].key@ == PropertyKeyView::String("constructor"@)
    &&& p.properties[3].value == (PropertyDescriptor::Data {
        value: Value::Function(function),
        writable: true,
        enumerable: true,
        configurable: true,
    })
    &&& p.properties[4].is_method(
        PropertyKeyView::String("toString"@),
        FunctionIndex((n + 3) as u32),
    )
    &&& p.properties[5].is_method(
        PropertyKeyView::Symbol(WellKnownSymbolIndexes::HasInstance.spec_symbol_index()),
        FunctionIndex((n + 4) as u32),
    )
    &&& after.functions.len() == n + 5
    &&& forall|j: int|
        0 <= j < n && j != function.0 ==> #[trigger] after.functions[j] == before.functions[j]
    &&& after.functions[function.0 as int] == Some(
        FunctionHeapData {
            object_index: Some(constructor),
            length: 1,
            initial_name: Value::Null,
        },
    )
    &&& is_method_record(after.functions[n], "apply", 2)
    &&& is_method_record(after.functions[n + 1], "bind", 1)
    &&& is_method_record(after.functions[n + 2], "call", 1)
    &&& is_method_record(after.functions[n + 3], "toString", 0)
    &&& is_method_record(after.functions[n + 4], "hasInstance", 1)
}

/// Installs the Function constructor and %Function.prototype% in their fixed
/// slots.
///
/// Fails with `DuplicateSlot`, and leaves the heap as it was, where one of
/// the two slots already holds a record. The function arena must have room
/// for the five methods.
pub fn initialize_function_heap(heap: &mut Heap) -> (r: Result<(), HeapError>)
    requires
        old(heap).wf(),
        old(heap)@.functions.len() + 4 <= u32::MAX,
    ensures
        final(heap).wf(),
        old(heap)@.objects_kept_by(final(heap)@),
        r == (if old(heap)@.object_populated(
            BuiltinObjectIndexes::FunctionConstructorIndex.spec_object_index(),
        ) || old(heap)@.object_populated(
            BuiltinObjectIndexes::FunctionPrototypeIndex.spec_object_index(),
        ) {
            Err::<(), HeapError>(HeapError::DuplicateSlot)
        } else {
            Ok(())
        }),
        r is Err ==> final(heap)@ == old(heap)@,
        r is Ok ==> function_heap_installed(old(heap)@, final(heap)@),
{
    if heap.builtin_object(BuiltinObjectIndexes::FunctionConstructorIndex).is_some()
        || heap.builtin_object(BuiltinObjectIndexes::FunctionPrototypeIndex).is_some() {
        return Err(HeapError::DuplicateSlot);
    }
    let entries = vec![
        ObjectEntry::new_constructor_prototype_entry(
            BuiltinObjectIndexes::FunctionPrototypeIndex.object_index(),
        ),
    ];
    // The constructor's function record is written next, with the arity
    // of its own, so the object goes in alone.
    heap.insert_builtin_object(
        BuiltinObjectIndexes::FunctionConstructorIndex,
        false,
        Some(Object::Object(BuiltinObjectIndexes::FunctionPrototypeIndex.object_index())),
        entries,
    )?;
    heap.insert_builtin_function(BuiltinObjectIndexes::FunctionConstructorIndex, 1, Value::Null)?;
    let ghost n = old(heap)@.functions.len() as int;
    let ghost h0 = heap@;
    let apply = ObjectEntry::new_prototype_function_entry(heap, "apply", 2, false);
    let ghost h1 = heap@;
    let bind = ObjectEntry::new_prototype_function_entry(heap, "bind", 1, true);
    let ghost h2 = heap@;
    let call = ObjectEntry::new_prototype_function_entry(heap, "call", 1, true);
    let ghost h3 = heap@;
    let constructor = ObjectEntry::new(
        PropertyKey::from_str("constructor"),
        PropertyDescriptor::rwx(
            Value::Function(get_constructor_index(BuiltinObjectIndexes::FunctionConstructorIndex)),
        ),
    );
    let to_string = ObjectEntry::new_prototype_function_entry(heap, "toString", 0, false);
    let ghost h4 = heap@;
    let has_instance = ObjectEntry::new_prototype_symbol_function_entry(
        heap,
        "hasInstance",
        WellKnownSymbolIndexes::HasInstance.symbol_index(),
        1,
        false,
    );
    let ghost h5 = heap@;
    proof {
        lemma_extended(h0.functions, h1.functions);
        lemma_extended(h1.functions, h2.functions);
        lemma_extended(h2.functions, h3.functions);
        lemma_extended(h3.functions, h4.functions);
        lemma_extended(h4.functions, h5.functions);
    }
    let entries = vec![apply, bind, call, constructor, to_string, has_instance];
    // %Function.prototype% is kept as a plain object: it cannot be called.
    heap.insert_builtin_object(
        BuiltinObjectIndexes::FunctionPrototypeIndex,
        false,
        Some(Object::Object(BuiltinObjectIndexes::ObjectPrototypeIndex.object_index())),
        entries,
    )?;
    Ok(())
}

/// A sequence that grew by one item at its end holds every earlier item in
/// its place.
proof fn lemma_extended<A>(shorter: Seq<A>, longer: Seq<A>)
    requires
        longer.len() == shorter.len() + 1,
        longer.drop_last() == shorter,
    ensures
        forall|i: int| 0 <= i < shorter.len() ==> #[trigger] longer[i] == shorter[i],
{
    assert forall|i: int| 0 <= i < shorter.len() implies #[trigger] longer[i] == shorter[i] by {
        assert(longer.drop_last()[i] == longer[i]);
    }
}

/// What the installation means to a realm. In the table derived from the
/// heap after it, %Function% and %Function.prototype% are present, and:
/// the record of %Function% names an object whose `prototype` property holds
/// that very %Function.prototype% and can be neither written, enumerated nor
/// reconfigured; the `constructor` property of %Function.prototype% holds
/// that very %Function%; the [[Prototype]] of %Function.prototype% is the
/// object that the fixed slots call %Object.prototype%; and where
/// %Object.prototype% had been installed with no [[Prototype]], it still has
/// none.
pub proof fn lemma_function_pair(before: HeapView, after: HeapView)
    requires
        before.wf(),
        function_heap_installed(before, after),
    ensures
        ({
            let table = Intrinsics::derived_from(after);
            let root = BuiltinObjectIndexes::ObjectPrototypeIndex.spec_object_index();
            &&& table.function matches Some(function)
            &&& table.function_prototype matches Some(prototype)
            &&& after.resolve_function(function) matches Ok(record)
            &&& record.object_index matches Some(constructor)
            &&& after.resolve_object(constructor) matches Ok(c)
            &&& c.properties.len() == 1
            &&& c.properties[0].is_constructor_prototype(prototype)
            &&& after.resolve_object(prototype) matches Ok(p)
            &&& p.properties[3].key@ == PropertyKeyView::String("constructor"@)
            &&& p.properties[3].value == (PropertyDescriptor::Data {
                value: Value::Function(function),
                writable: true,
                enumerable: true,
                configurable: true,
            })
            &&& p.prototype == Some(Object::Object(root))
            &&& Intrinsics::slot_table().object_prototype == Some(root)
            &&& (before.resolve_object(root) matches Ok(o) && o.prototype is None)
                ==> (after.resolve_object(root) matches Ok(o) && o.prototype is None)
        }),
{
}

/// The binding of the Function constructor. It has no implementation yet and
/// says so, whatever it is called with; the heap is left as it was.
pub fn function_constructor_binding(heap: &mut Heap, _this: Value, _args: &[Value]) -> (r:
    JsResult<Value>)
    ensures
        r == Err::<Value, JsError>(JsError::Engine(HeapError::NotImplemented)),
        final(heap)@ == old(heap)@,
{
    Err(JsError::Engine(HeapError::NotImplemented))
}

/// The binding of every builtin method that has no implementation yet. It
/// says so, whatever it is called with; the heap is left as it was.
pub fn function_todo(heap: &mut Heap, _this: Value, _args: &[Value]) -> (r: JsResult<Value>)
    ensures
        r == Err::<Value, JsError>(JsError::Engine(HeapError::NotImplemented)),
        final(heap)@ == old(heap)@,
{
    Err(JsError::Engine(HeapError::NotImplemented))
}

} // verus!
