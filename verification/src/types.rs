use vstd::prelude::*;
use crate::error::HeapError;
use crate::indexes::{BigIntIndex, FunctionIndex, NumberIndex, ObjectIndex, SymbolIndex};

verus! {

/// An ECMAScript language value. Exactly one variant is active; a handle
/// names a slot of the arena of its own kind and of no other.
#[derive(Debug, PartialEq, Eq)]
pub enum Value {
    Undefined,
    Null,
    Boolean(bool),
    Number(NumberIndex),
    BigInt(BigIntIndex),
    String(String),
    Symbol(SymbolIndex),
    Object(ObjectIndex),
    Function(FunctionIndex),
}

/// What a [`Value`] is, with a string taken by its characters.
pub enum ValueView {
    Undefined,
    Null,
    Boolean(bool),
    Number(NumberIndex),
    BigInt(BigIntIndex),
    String(Seq<char>),
    Symbol(SymbolIndex),
    Object(ObjectIndex),
    Function(FunctionIndex),
}

impl View for Value {
    type V = ValueView;

    open spec fn view(&self) -> ValueView {
        match *self {
            Value::Undefined => ValueView::Undefined,
            Value::Null => ValueView::Null,
            Value::Boolean(b) => ValueView::Boolean(b),
            Value::Number(n) => ValueView::Number(n),
            Value::BigInt(n) => ValueView::BigInt(n),
            Value::String(s) => ValueView::String(s@),
            Value::Symbol(s) => ValueView::Symbol(s),
            Value::Object(o) => ValueView::Object(o),
            Value::Function(f) => ValueView::Function(f),
        }
    }
}

impl Clone for Value {
    fn clone(&self) -> (r: Self)
        ensures
            r == *self,
    {
        match self {
            Value::Undefined => Value::Undefined,
            Value::Null => Value::Null,
            Value::Boolean(b) => Value::Boolean(*b),
            Value::Number(n) => Value::Number(*n),
            Value::BigInt(n) => Value::BigInt(*n),
            Value::String(s) => Value::String(s.clone()),
            Value::Symbol(s) => Value::Symbol(*s),
            Value::Object(o) => Value::Object(*o),
            Value::Function(f) => Value::Function(*f),
        }
    }
}

impl Value {
    /// The string value that holds the characters of `message`.
    pub fn from_str(message: &str) -> (r: Value)
        ensures
            r@ == ValueView::String(message@),
    {
        Value::String(message.to_owned())
    }
}

/// A function object, by the handle of its record.
#[derive(Debug, Clone, Copy, PartialEq, Eq, Structural)]
pub struct Function(pub FunctionIndex);

impl Function {
    /// The function whose record `idx` names.
    pub fn new(idx: FunctionIndex) -> (r: Self)
        ensures
            r == Function(idx),
    {
        Function(idx)
    }
}

/// An ordinary object, by the handle of its record.
#[derive(Debug, Clone, Copy, PartialEq, Eq, Structural)]
pub struct OrdinaryObject(pub ObjectIndex);

impl OrdinaryObject {
    /// The ordinary object whose record `idx` names.
    pub fn new(idx: ObjectIndex) -> (r: Self)
        ensures
            r == OrdinaryObject(idx),
    {
        OrdinaryObject(idx)
    }
}

/// Any object: an ordinary one or a function.
#[derive(Debug, Clone, Copy, PartialEq, Eq, Structural)]
pub enum Object {
    Object(ObjectIndex),
    Function(FunctionIndex),
}

impl From<OrdinaryObject> for Object {
    fn from(value: OrdinaryObject) -> (r: Object) {
        Object::Object(value.0)
    }
}

impl vstd::std_specs::convert::FromSpecImpl<OrdinaryObject> for Object {
    open spec fn obeys_from_spec() -> bool {
        true
    }

    open spec fn from_spec(value: OrdinaryObject) -> Object {
        Object::Object(value.0)
    }
}

/// The key of a property: a string or a symbol.
#[derive(Debug, PartialEq, Eq)]
pub enum PropertyKey {
    String(String),
    Symbol(SymbolIndex),
}

/// What a [`PropertyKey`] is, with a string taken by its characters. Two keys
/// name the same property exactly when their views are equal.
pub enum PropertyKeyView {
    String(Seq<char>),
    Symbol(SymbolIndex),
}

impl View for PropertyKey {
    type V = PropertyKeyView;

    open spec fn view(&self) -> PropertyKeyView {
        match *self {
            PropertyKey::String(s) => PropertyKeyView::String(s@),
            PropertyKey::Symbol(s) => PropertyKeyView::Symbol(s),
        }
    }
}

impl Clone for PropertyKey {
    fn clone(&self) -> (r: Self)
        ensures
            r == *self,
    {
        match self {
            PropertyKey::String(s) => PropertyKey::String(s.clone()),
            PropertyKey::Symbol(s) => PropertyKey::Symbol(*s),
        }
    }
}

impl PropertyKey {
    /// The string key that holds the characters of `name`.
    pub fn from_str(name: &str) -> (r: PropertyKey)
        ensures
            r@ == PropertyKeyView::String(name@),
    {
        PropertyKey::String(name.to_owned())
    }

    /// Whether both keys name the same property.
    pub fn same_key(&self, other: &PropertyKey) -> (r: bool)
        ensures
            r == (self@ == other@),
    {
        match (self, other) {
            (PropertyKey::String(a), PropertyKey::String(b)) => *a == *b,
            (PropertyKey::Symbol(a), PropertyKey::Symbol(b)) => *a == *b,
            _ => false,
        }
    }

    /// The value that a function named by this key shows as its name.
    pub fn to_name(&self) -> (r: Value)
        ensures
            r@ == match self@ {
                PropertyKeyView::String(s) => ValueView::String(s),
                PropertyKeyView::Symbol(s) => ValueView::Symbol(s),
            },
    {
        match self {
            PropertyKey::String(s) => Value::String(s.clone()),
            PropertyKey::Symbol(s) => Value::Symbol(*s),
        }
    }
}

/// The stored form of a function object.
#[derive(Debug, PartialEq, Eq)]
pub struct FunctionHeapData {
    /// The object record that holds the function's further properties, once
    /// it has any.
    pub object_index: Option<ObjectIndex>,
    /// The number of parameters the function declares.
    pub length: u8,
    /// The name the function was created with.
    pub initial_name: Value,
}

impl FunctionHeapData {
    /// The record of a function that was created with this name and number
    /// of parameters and has no properties of its own yet.
    pub open spec fn is_fresh(&self, name: ValueView, length: u8) -> bool {
        &&& self.object_index is None
        &&& self.length == length
        &&& self.initial_name@ == name
    }
}

impl Clone for FunctionHeapData {
    fn clone(&self) -> (r: Self)
        ensures
            r == *self,
    {
        FunctionHeapData {
            object_index: self.object_index,
            length: self.length,
            initial_name: self.initial_name.clone(),
        }
    }
}

/// Why a builtin binding handed back no value.
#[derive(Debug, PartialEq, Eq)]
pub enum JsError {
    /// The binding threw this ECMAScript value; the evaluator propagates it
    /// as an exception.
    Thrown(Value),
    /// The engine itself failed. Never visible to a script.
    Engine(HeapError),
}

/// What every builtin binding returns.
pub type JsResult<T> = Result<T, JsError>;

} // verus!
