use vstd::prelude::*;
use crate::heap::Heap;
use crate::indexes::{FunctionIndex, ObjectIndex, SymbolIndex};
use crate::types::{Object, PropertyKey, PropertyKeyView, Value, ValueView};

verus! {

/// The attribute record of a property. A property is a data property or an
/// accessor property, never both.
#[derive(Debug, PartialEq, Eq)]
pub enum PropertyDescriptor {
    Data { value: Value, writable: bool, enumerable: bool, configurable: bool },
    Accessor {
        get: Option<FunctionIndex>,
        set: Option<FunctionIndex>,
        enumerable: bool,
        configurable: bool,
    },
}

impl Clone for PropertyDescriptor {
    fn clone(&self) -> (r: Self)
        ensures
            r == *self,
    {
        match self {
            PropertyDescriptor::Data { value, writable, enumerable, configurable } => {
                PropertyDescriptor::Data {
                    value: value.clone(),
                    writable: *writable,
                    enumerable: *enumerable,
                    configurable: *configurable,
                }
            },
            PropertyDescriptor::Accessor { get, set, enumerable, configurable } => {
                PropertyDescriptor::Accessor {
                    get: *get,
                    set: *set,
                    enumerable: *enumerable,
                    configurable: *configurable,
                }
            },
        }
    }
}

impl PropertyDescriptor {
    /// The descriptor of a constructor's `prototype` property: it holds the
    /// prototype object and can be neither written, enumerated nor
    /// reconfigured.
    pub fn prototype_slot(idx: ObjectIndex) -> (r: Self)
        ensures
            r == (PropertyDescriptor::Data {
                value: Value::Object(idx),
                writable: false,
                enumerable: false,
                configurable: false,
            }),
    {
        PropertyDescriptor::Data {
            value: Value::Object(idx),
            writable: false,
            enumerable: false,
            configurable: false,
        }
    }

    /// Writable, configurable, enumerable data descriptor: the permissive
    /// pattern of ordinary back-references such as `constructor`.
    pub fn rwx(value: Value) -> (r: Self)
        ensures
            r == (PropertyDescriptor::Data {
                value,
                writable: true,
                enumerable: true,
                configurable: true,
            }),
    {
        PropertyDescriptor::Data { value, writable: true, enumerable: true, configurable: true }
    }

    /// Writable, configurable, unenumerable data descriptor: the pattern of
    /// every builtin method.
    pub fn rwxh(value: Value) -> (r: Self)
        ensures
            r == (PropertyDescriptor::Data {
                value,
                writable: true,
                enumerable: false,
                configurable: true,
            }),
    {
        PropertyDescriptor::Data { value, writable: true, enumerable: false, configurable: true }
    }
}

/// A key and its descriptor, as handed over when an object is built.
#[derive(Debug, PartialEq, Eq)]
pub struct ObjectEntry {
    pub key: PropertyKey,
    pub value: PropertyDescriptor,
}

impl ObjectEntry {
    /// The entry of the `prototype` property of a constructor: it holds
    /// `idx` and can be neither written, enumerated nor reconfigured.
    pub open spec fn is_constructor_prototype(&self, idx: ObjectIndex) -> bool {
        &&& self.key@ == PropertyKeyView::String("prototype"@)
        &&& self.value == (PropertyDescriptor::Data {
            value: Value::Object(idx),
            writable: false,
            enumerable: false,
            configurable: false,
        })
    }

    /// The entry of a builtin method: under `key` it holds the function
    /// `function`; it can be written and reconfigured and is not enumerated.
    pub open spec fn is_method(&self, key: PropertyKeyView, function: FunctionIndex) -> bool {
        &&& self.key@ == key
        &&& self.value == (PropertyDescriptor::Data {
            value: Value::Function(function),
            writable: true,
            enumerable: false,
            configurable: true,
        })
    }

    /// The entry of the property `key` with the descriptor `value`.
    pub fn new(key: PropertyKey, value: PropertyDescriptor) -> (r: Self)
        ensures
            r == (ObjectEntry { key, value }),
    {
        ObjectEntry { key, value }
    }

    /// The `prototype` property that every builtin constructor has.
    pub fn new_constructor_prototype_entry(idx: ObjectIndex) -> (r: Self)
        ensures
            r.is_constructor_prototype(idx),
    {
        ObjectEntry {
            key: PropertyKey::from_str("prototype"),
            value: PropertyDescriptor::prototype_slot(idx),
        }
    }

    /// Creates the function of a builtin method in a fresh slot of the
    /// function arena, with `name` as its name and `length` parameters, and
    /// returns the property that holds it under the key `name`. Nothing that
    /// the heap held before is changed. `also_constructible` has no part in the
    /// result.
    pub fn new_prototype_function_entry(
        heap: &mut Heap,
        name: &str,
        length: u8,
        also_constructible: bool,
    ) -> (r: Self)
        requires
            old(heap).wf(),
            old(heap)@.functions.len() <= u32::MAX,
        ensures
            final(heap).wf(),
            final(heap)@.objects == old(heap)@.objects,
            final(heap)@.functions.len() == old(heap)@.functions.len() + 1,
            final(heap)@.functions.drop_last() == old(heap)@.functions,
            final(heap)@.functions.last() matches Some(f) && f.is_fresh(
                ValueView::String(name@),
                length,
            ),
            r.is_method(
                PropertyKeyView::String(name@),
                FunctionIndex(old(heap)@.functions.len() as u32),
            ),
    {
        let key = PropertyKey::from_str(name);
        let func_index = heap.create_function(key.to_name(), length, also_constructible);
        assert(heap@.functions.drop_last() =~= old(heap)@.functions);
        ObjectEntry { key, value: PropertyDescriptor::rwxh(Value::Function(func_index)) }
    }

    /// As [`ObjectEntry::new_prototype_function_entry`], but the property is
    /// keyed by the symbol `symbol_index`; `name` is the function's name only.
    pub fn new_prototype_symbol_function_entry(
        heap: &mut Heap,
        name: &str,
        symbol_index: SymbolIndex,
        length: u8,
        also_constructible: bool,
    ) -> (r: Self)
        requires
            old(heap).wf(),
            old(heap)@.functions.len() <= u32::MAX,
        ensures
            final(heap).wf(),
            final(heap)@.objects == old(heap)@.objects,
            final(heap)@.functions.len() == old(heap)@.functions.len() + 1,
            final(heap)@.functions.drop_last() == old(heap)@.functions,
            final(heap)@.functions.last() matches Some(f) && f.is_fresh(
                ValueView::String(name@),
                length,
            ),
            r.is_method(
                PropertyKeyView::Symbol(symbol_index),
                FunctionIndex(old(heap)@.functions.len() as u32),
            ),
    {
        let func_index = heap.create_function(Value::from_str(name), length, also_constructible);
        assert(heap@.functions.drop_last() =~= old(heap)@.functions);
        ObjectEntry {
            key: PropertyKey::Symbol(symbol_index),
            value: PropertyDescriptor::rwxh(Value::Function(func_index)),
        }
    }
}

impl Clone for ObjectEntry {
    fn clone(&self) -> (r: Self)
        ensures
            r == *self,
    {
        ObjectEntry { key: self.key.clone(), value: self.value.clone() }
    }
}

/// What an object record holds: its [[Prototype]] and its own properties in
/// the order in which they were given.
pub struct ObjectView {
    pub prototype: Option<Object>,
    pub properties: Seq<ObjectEntry>,
}

impl ObjectView {
    /// `i` is the place of the first property named by `key`.
    pub open spec fn first_match(self, key: PropertyKeyView, i: int) -> bool {
        &&& 0 <= i < self.properties.len()
        &&& self.properties[i].key@ == key
        &&& forall|j: int| 0 <= j < i ==> (#[trigger] self.properties[j]).key@ != key
    }

    /// Some property is named by `key`.
    pub open spec fn has_property(self, key: PropertyKeyView) -> bool {
        exists|i: int| 0 <= i < self.properties.len() && (#[trigger] self.properties[i]).key@ == key
    }
}

/// The stored form of an ordinary object. Keys and descriptors are kept in
/// two sequences of one length; a property is a place in both.
#[derive(Debug, PartialEq, Eq)]
pub struct ObjectHeapData {
    prototype: Option<Object>,
    keys: Vec<PropertyKey>,
    values: Vec<PropertyDescriptor>,
}

impl View for ObjectHeapData {
    type V = ObjectView;

    closed spec fn view(&self) -> ObjectView {
        ObjectView {
            prototype: self.prototype,
            properties: Seq::new(
                self.keys@.len(),
                |i: int| ObjectEntry { key: self.keys@[i], value: self.values@[i] },
            ),
        }
    }
}

impl ObjectHeapData {
    #[verifier::type_invariant]
    spec fn parallel(&self) -> bool {
        self.keys@.len() == self.values@.len()
    }

    /// The record of an object with the given [[Prototype]] whose own
    /// properties are exactly `entries`, in their order.
    pub fn new(prototype: Option<Object>, entries: Vec<ObjectEntry>) -> (r: Self)
        ensures
            r@ == (ObjectView { prototype, properties: entries@ }),
    {
        let ghost given = entries@;
        let mut keys: Vec<PropertyKey> = Vec::new();
        let mut values: Vec<PropertyDescriptor> = Vec::new();
        for entry in it: entries
            invariant
                it.seq() == given,
                keys@.len() == it.index(),
                values@.len() == it.index(),
                forall|i: int|
                    0 <= i < it.index() ==> keys@[i] == given[i].key && values@[i]
                        == given[i].value,
        {
            keys.push(entry.key);
            values.push(entry.value);
        }
        let r = ObjectHeapData { prototype, keys, values };
        assert(r@.properties =~= given);
        r
    }

    /// The object's [[Prototype]]; `None` for an object that has none.
    pub fn prototype(&self) -> (r: Option<Object>)
        ensures
            r == self@.prototype,
    {
        self.prototype
    }

    /// The number of own properties.
    pub fn len(&self) -> (r: usize)
        ensures
            r == self@.properties.len(),
    {
        self.keys.len()
    }

    /// The key of the own property at place `i`.
    pub fn key(&self, i: usize) -> (r: &PropertyKey)
        requires
            i < self@.properties.len(),
        ensures
            *r == self@.properties[i as int].key,
    {
        &self.keys[i]
    }

    /// The descriptor of the own property at place `i`.
    pub fn value(&self, i: usize) -> (r: &PropertyDescriptor)
        requires
            i < self@.properties.len(),
        ensures
            *r == self@.properties[i as int].value,
    {
        proof {
            use_type_invariant(self);
        }
        &self.values[i]
    }

    /// The descriptor of the first own property named by `key`, or `None`
    /// where no own property has that name.
    pub fn get_own_property(&self, key: &PropertyKey) -> (r: Option<&PropertyDescriptor>)
        ensures
            r is Some <==> self@.has_property(key@),
            r matches Some(d) ==> exists|i: int|
                self@.first_match(key@, i) && *d == (#[trigger] self@.properties[i]).value,
    {
        proof {
            use_type_invariant(self);
        }
        let mut i: usize = 0;
        while i < self.keys.len()
            invariant
                i <= self.keys@.len(),
                self.keys@.len() == self.values@.len(),
                forall|j: int| 0 <= j < i ==> (#[trigger] self@.properties[j]).key@ != key@,
            decreases self.keys@.len() - i,
        {
            if self.keys[i].same_key(key) {
                assert(self@.first_match(key@, i as int));
                return Some(&self.values[i]);
            }
            i += 1;
        }
        None
    }
}

} // verus!
