use vstd::prelude::*;
use crate::error::HeapError;
use crate::heap::{Heap, HeapView};
use crate::heap_constants::{
    get_constructor_index, spec_get_constructor_index, BuiltinObjectIndexes,
};
use crate::indexes::{FunctionIndex, ObjectIndex};
use crate::types::{Function, Object, OrdinaryObject};

verus! {

/// The realm's directory of well-known intrinsics: one handle for each.
///
/// A field is `None` while its intrinsic is absent, which no handle can be
/// mistaken for. A table is a plain value: it is derived once, copied freely
/// and never changed.
#[derive(Debug, Clone, Copy, PartialEq, Eq)]
pub struct Intrinsics {
    /// %Array%
    pub array: Option<FunctionIndex>,
    /// %Array.prototype%
    pub array_prototype: Option<ObjectIndex>,
    /// %ArrayBuffer%
    pub array_buffer: Option<FunctionIndex>,
    /// %ArrayBuffer.prototype%
    pub array_buffer_prototype: Option<ObjectIndex>,
    /// %BigInt%
    pub big_int: Option<FunctionIndex>,
    /// %BigInt.prototype%
    pub big_int_prototype: Option<ObjectIndex>,
    /// %Boolean%
    pub boolean: Option<FunctionIndex>,
    /// %Boolean.prototype%
    pub boolean_prototype: Option<ObjectIndex>,
    /// %Error%
    pub error: Option<FunctionIndex>,
    /// %Error.prototype%
    pub error_prototype: Option<ObjectIndex>,
    /// %eval%
    pub eval: Option<FunctionIndex>,
    /// %EvalError%
    pub eval_error: Option<FunctionIndex>,
    /// %EvalError.prototype%
    pub eval_error_prototype: Option<ObjectIndex>,
    /// %Function%
    pub function: Option<FunctionIndex>,
    /// %Function.prototype%
    ///
    /// Kept as a plain object. ECMAScript makes it a function that returns
    /// undefined however it is called; this engine does not.
    pub function_prototype: Option<ObjectIndex>,
    /// %isFinite%
    pub is_finite: Option<FunctionIndex>,
    /// %isNaN%
    pub is_nan: Option<FunctionIndex>,
    /// %Math%
    pub math: Option<ObjectIndex>,
    /// %Number%
    pub number: Option<FunctionIndex>,
    /// %Number.prototype%
    pub number_prototype: Option<ObjectIndex>,
    /// %Object%
    pub object: Option<FunctionIndex>,
    /// %Object.prototype%
    pub object_prototype: Option<ObjectIndex>,
    /// %Object.prototype.toString%
    pub object_prototype_to_string: Option<FunctionIndex>,
    /// %RangeError%
    pub range_error: Option<FunctionIndex>,
    /// %RangeError.prototype%
    pub range_error_prototype: Option<ObjectIndex>,
    /// %ReferenceError%
    pub reference_error: Option<FunctionIndex>,
    /// %ReferenceError.prototype%
    pub reference_error_prototype: Option<ObjectIndex>,
    /// %Reflect%
    pub reflect: Option<ObjectIndex>,
    /// %String%
    pub string: Option<FunctionIndex>,
    /// %String.prototype%
    pub string_prototype: Option<ObjectIndex>,
    /// %Symbol%
    pub symbol: Option<FunctionIndex>,
    /// %Symbol.prototype%
    pub symbol_prototype: Option<ObjectIndex>,
    /// %SyntaxError%
    pub syntax_error: Option<FunctionIndex>,
    /// %SyntaxError.prototype%
    pub syntax_error_prototype: Option<ObjectIndex>,
    /// %ThrowTypeError%
    pub throw_type_error: Option<FunctionIndex>,
    /// %TypeError%
    pub type_error: Option<FunctionIndex>,
    /// %TypeError.prototype%
    pub type_error_prototype: Option<ObjectIndex>,
    /// %URIError%
    pub uri_error: Option<FunctionIndex>,
    /// %URIError.prototype%
    pub uri_error_prototype: Option<ObjectIndex>,
}

/// The kinds of object that a builtin constructor makes. Each has a default
/// [[Prototype]] in the realm; GetPrototypeFromConstructor falls back on it.
#[derive(Debug, Clone, Copy, PartialEq, Eq, Structural)]
pub enum ProtoIntrinsics {
    Array,
    ArrayBuffer,
    BigInt,
    Boolean,
    Error,
    EvalError,
    Function,
    Number,
    Object,
    RangeError,
    ReferenceError,
    String,
    Symbol,
    SyntaxError,
    TypeError,
    UriError,
}

/// What the accessor of a function intrinsic hands out.
pub open spec fn function_or_absent(slot: Option<FunctionIndex>) -> Result<Function, HeapError> {
    match slot {
        Some(idx) => Ok(Function(idx)),
        None => Err(HeapError::NotImplemented),
    }
}

/// What the accessor of a function intrinsic hands out where it returns the
/// function as an object.
pub open spec fn function_object_or_absent(slot: Option<FunctionIndex>) -> Result<
    Object,
    HeapError,
> {
    match slot {
        Some(idx) => Ok(Object::Function(idx)),
        None => Err(HeapError::NotImplemented),
    }
}

/// What the accessor of an object intrinsic hands out.
pub open spec fn object_or_absent(slot: Option<ObjectIndex>) -> Result<Object, HeapError> {
    match slot {
        Some(idx) => Ok(Object::Object(idx)),
        None => Err(HeapError::NotImplemented),
    }
}

/// What the accessor of an object intrinsic hands out where it returns the
/// object as an ordinary object.
pub open spec fn ordinary_or_absent(slot: Option<ObjectIndex>) -> Result<
    OrdinaryObject,
    HeapError,
> {
    match slot {
        Some(idx) => Ok(OrdinaryObject(idx)),
        None => Err(HeapError::NotImplemented),
    }
}

fn found_function(slot: Option<FunctionIndex>) -> (r: Result<Function, HeapError>)
    ensures
        r == function_or_absent(slot),
{
    match slot {
        Some(idx) => Ok(Function::new(idx)),
        None => Err(HeapError::NotImplemented),
    }
}

fn found_function_object(slot: Option<FunctionIndex>) -> (r: Result<Object, HeapError>)
    ensures
        r == function_object_or_absent(slot),
{
    match slot {
        Some(idx) => Ok(Object::Function(idx)),
        None => Err(HeapError::NotImplemented),
    }
}

fn found_object(slot: Option<ObjectIndex>) -> (r: Result<Object, HeapError>)
    ensures
        r == object_or_absent(slot),
{
    match slot {
        Some(idx) => Ok(Object::Object(idx)),
        None => Err(HeapError::NotImplemented),
    }
}

fn found_ordinary(slot: Option<ObjectIndex>) -> (r: Result<OrdinaryObject, HeapError>)
    ensures
        r == ordinary_or_absent(slot),
{
    match slot {
        Some(idx) => Ok(OrdinaryObject::new(idx)),
        None => Err(HeapError::NotImplemented),
    }
}

impl Default for Intrinsics {
    /// The table of a realm whose heap holds every well-known object: each
    /// handle is the one that the fixed slot of its intrinsic gives, whether
    /// or not the slot is filled. An intrinsic that has no fixed slot is
    /// absent. For a heap that may not hold every well-known object yet, see
    /// [`Intrinsics::from_heap`].
    fn default() -> (r: Self)
        ensures
            r == Intrinsics::slot_table(),
    {
        let array = Some(get_constructor_index(BuiltinObjectIndexes::ArrayConstructorIndex));
        let array_prototype = Some(BuiltinObjectIndexes::ArrayPrototypeIndex.object_index());
        let array_buffer = Some(
            get_constructor_index(BuiltinObjectIndexes::ArrayBufferConstructorIndex),
        );
        let array_buffer_prototype = Some(
            BuiltinObjectIndexes::ArrayBufferPrototypeIndex.object_index(),
        );
        let big_int = Some(get_constructor_index(BuiltinObjectIndexes::BigintConstructorIndex));
        let big_int_prototype = Some(BuiltinObjectIndexes::BigintPrototypeIndex.object_index());
        let boolean = Some(get_constructor_index(BuiltinObjectIndexes::BooleanConstructorIndex));
        let boolean_prototype = Some(BuiltinObjectIndexes::BooleanPrototypeIndex.object_index());
        let error = Some(get_constructor_index(BuiltinObjectIndexes::ErrorConstructorIndex));
        let error_prototype = Some(BuiltinObjectIndexes::ErrorPrototypeIndex.object_index());
        // %eval% has no fixed slot.
        let eval = None;
        let eval_error = Some(
            get_constructor_index(BuiltinObjectIndexes::EvalErrorConstructorIndex),
        );
        let eval_error_prototype = Some(
            BuiltinObjectIndexes::EvalErrorPrototypeIndex.object_index(),
        );
        let function = Some(get_constructor_index(BuiltinObjectIndexes::FunctionConstructorIndex));
        let function_prototype = Some(BuiltinObjectIndexes::FunctionPrototypeIndex.object_index());
        // %isFinite% has no fixed slot.
        let is_finite = None;
        // %isNaN% has no fixed slot.
        let is_nan = None;
        let math = Some(BuiltinObjectIndexes::MathObjectIndex.object_index());
        let number = Some(get_constructor_index(BuiltinObjectIndexes::NumberConstructorIndex));
        let number_prototype = Some(BuiltinObjectIndexes::NumberPrototypeIndex.object_index());
        let object = Some(get_constructor_index(BuiltinObjectIndexes::ObjectConstructorIndex));
        let object_prototype = Some(BuiltinObjectIndexes::ObjectPrototypeIndex.object_index());
        // %Object.prototype.toString% has no fixed slot.
        let object_prototype_to_string = None;
        let range_error = Some(
            get_constructor_index(BuiltinObjectIndexes::RangeErrorConstructorIndex),
        );
        let range_error_prototype = Some(
            BuiltinObjectIndexes::RangeErrorPrototypeIndex.object_index(),
        );
        let reference_error = Some(
            get_constructor_index(BuiltinObjectIndexes::ReferenceErrorConstructorIndex),
        );
        let reference_error_prototype = Some(
            BuiltinObjectIndexes::ReferenceErrorPrototypeIndex.object_index(),
        );
        let reflect = Some(BuiltinObjectIndexes::ReflectObjectIndex.object_index());
        let string = Some(get_constructor_index(BuiltinObjectIndexes::StringConstructorIndex));
        let string_prototype = Some(BuiltinObjectIndexes::StringPrototypeIndex.object_index());
        let symbol = Some(get_constructor_index(BuiltinObjectIndexes::SymbolConstructorIndex));
        let symbol_prototype = Some(BuiltinObjectIndexes::SymbolPrototypeIndex.object_index());
        let syntax_error = Some(
            get_constructor_index(BuiltinObjectIndexes::SyntaxErrorConstructorIndex),
        );
        let syntax_error_prototype = Some(
            BuiltinObjectIndexes::SyntaxErrorPrototypeIndex.object_index(),
        );
        // %ThrowTypeError% has no fixed slot.
        let throw_type_error = None;
        let type_error = Some(
            get_constructor_index(BuiltinObjectIndexes::TypeErrorConstructorIndex),
        );
        let type_error_prototype = Some(
            BuiltinObjectIndexes::TypeErrorPrototypeIndex.object_index(),
        );
        let uri_error = Some(get_constructor_index(BuiltinObjectIndexes::UriErrorConstructorIndex));
        let uri_error_prototype = Some(BuiltinObjectIndexes::UriErrorPrototypeIndex.object_index());

        Self {
            array,
            array_prototype,
            array_buffer,
            array_buffer_prototype,
            big_int,
            big_int_prototype,
            boolean,
            boolean_prototype,
            error,
            error_prototype,
            eval,
            eval_error,
            eval_error_prototype,
            function,
            function_prototype,
            is_finite,
            is_nan,
            math,
            number,
            number_prototype,
            object,
            object_prototype,
            object_prototype_to_string,
            range_error,
            range_error_prototype,
            reference_error,
            reference_error_prototype,
            reflect,
            string,
            string_prototype,
            symbol,
            symbol_prototype,
            syntax_error,
            syntax_error_prototype,
            throw_type_error,
            type_error,
            type_error_prototype,
            uri_error,
            uri_error_prototype,
        }
    }
}

impl Intrinsics {
    /// The table that the fixed slots alone give.
    pub open spec fn slot_table() -> Intrinsics {
        Intrinsics {
            array: Some(spec_get_constructor_index(BuiltinObjectIndexes::ArrayConstructorIndex)),
            array_prototype: Some(BuiltinObjectIndexes::ArrayPrototypeIndex.spec_object_index()),
            array_buffer: Some(
                spec_get_constructor_index(BuiltinObjectIndexes::ArrayBufferConstructorIndex),
            ),
            array_buffer_prototype: Some(
                BuiltinObjectIndexes::ArrayBufferPrototypeIndex.spec_object_index(),
            ),
            big_int: Some(spec_get_constructor_index(BuiltinObjectIndexes::BigintConstructorIndex)),
            big_int_prototype: Some(BuiltinObjectIndexes::BigintPrototypeIndex.spec_object_index()),
            boolean: Some(
                spec_get_constructor_index(BuiltinObjectIndexes::BooleanConstructorIndex),
            ),
            boolean_prototype: Some(
                BuiltinObjectIndexes::BooleanPrototypeIndex.spec_object_index(),
            ),
            error: Some(spec_get_constructor_index(BuiltinObjectIndexes::ErrorConstructorIndex)),
            error_prototype: Some(BuiltinObjectIndexes::ErrorPrototypeIndex.spec_object_index()),
            eval: None,
            eval_error: Some(
                spec_get_constructor_index(BuiltinObjectIndexes::EvalErrorConstructorIndex),
            ),
            eval_error_prototype: Some(
                BuiltinObjectIndexes::EvalErrorPrototypeIndex.spec_object_index(),
            ),
            function: Some(
                spec_get_constructor_index(BuiltinObjectIndexes::FunctionConstructorIndex),
            ),
            function_prototype: Some(
                BuiltinObjectIndexes::FunctionPrototypeIndex.spec_object_index(),
            ),
            is_finite: None,
            is_nan: None,
            math: Some(BuiltinObjectIndexes::MathObjectIndex.spec_object_index()),
            number: Some(spec_get_constructor_index(BuiltinObjectIndexes::NumberConstructorIndex)),
            number_prototype: Some(BuiltinObjectIndexes::NumberPrototypeIndex.spec_object_index()),
            object: Some(spec_get_constructor_index(BuiltinObjectIndexes::ObjectConstructorIndex)),
            object_prototype: Some(BuiltinObjectIndexes::ObjectPrototypeIndex.spec_object_index()),
            object_prototype_to_string: None,
            range_error: Some(
                spec_get_constructor_index(BuiltinObjectIndexes::RangeErrorConstructorIndex),
            ),
            range_error_prototype: Some(
                BuiltinObjectIndexes::RangeErrorPrototypeIndex.spec_object_index(),
            ),
            reference_error: Some(
                spec_get_constructor_index(BuiltinObjectIndexes::ReferenceErrorConstructorIndex),
            ),
            reference_error_prototype: Some(
                BuiltinObjectIndexes::ReferenceErrorPrototypeIndex.spec_object_index(),
            ),
            reflect: Some(BuiltinObjectIndexes::ReflectObjectIndex.spec_object_index()),
            string: Some(spec_get_constructor_index(BuiltinObjectIndexes::StringConstructorIndex)),
            string_prototype: Some(BuiltinObjectIndexes::StringPrototypeIndex.spec_object_index()),
            symbol: Some(spec_get_constructor_index(BuiltinObjectIndexes::SymbolConstructorIndex)),
            symbol_prototype: Some(BuiltinObjectIndexes::SymbolPrototypeIndex.spec_object_index()),
            syntax_error: Some(
                spec_get_constructor_index(BuiltinObjectIndexes::SyntaxErrorConstructorIndex),
            ),
            syntax_error_prototype: Some(
                BuiltinObjectIndexes::SyntaxErrorPrototypeIndex.spec_object_index(),
            ),
            throw_type_error: None,
            type_error: Some(
                spec_get_constructor_index(BuiltinObjectIndexes::TypeErrorConstructorIndex),
            ),
            type_error_prototype: Some(
                BuiltinObjectIndexes::TypeErrorPrototypeIndex.spec_object_index(),
            ),
            uri_error: Some(
                spec_get_constructor_index(BuiltinObjectIndexes::UriErrorConstructorIndex),
            ),
            uri_error_prototype: Some(
                BuiltinObjectIndexes::UriErrorPrototypeIndex.spec_object_index(),
            ),
        }
    }

    /// The table that a heap gives: the handle of each intrinsic whose fixed
    /// slot holds a record, and nothing for the others.
    pub open spec fn derived_from(heap: HeapView) -> Intrinsics {
        Intrinsics {
            array: heap.builtin_function(BuiltinObjectIndexes::ArrayConstructorIndex),
            array_prototype: heap.builtin_object(BuiltinObjectIndexes::ArrayPrototypeIndex),
            array_buffer: heap.builtin_function(BuiltinObjectIndexes::ArrayBufferConstructorIndex),
            array_buffer_prototype: heap.builtin_object(
                BuiltinObjectIndexes::ArrayBufferPrototypeIndex,
            ),
            big_int: heap.builtin_function(BuiltinObjectIndexes::BigintConstructorIndex),
            big_int_prototype: heap.builtin_object(BuiltinObjectIndexes::BigintPrototypeIndex),
            boolean: heap.builtin_function(BuiltinObjectIndexes::BooleanConstructorIndex),
            boolean_prototype: heap.builtin_object(BuiltinObjectIndexes::BooleanPrototypeIndex),
            error: heap.builtin_function(BuiltinObjectIndexes::ErrorConstructorIndex),
            error_prototype: heap.builtin_object(BuiltinObjectIndexes::ErrorPrototypeIndex),
            eval: None,
            eval_error: heap.builtin_function(BuiltinObjectIndexes::EvalErrorConstructorIndex),
            eval_error_prototype: heap.builtin_object(
                BuiltinObjectIndexes::EvalErrorPrototypeIndex,
            ),
            function: heap.builtin_function(BuiltinObjectIndexes::FunctionConstructorIndex),
            function_prototype: heap.builtin_object(BuiltinObjectIndexes::FunctionPrototypeIndex),
            is_finite: None,
            is_nan: None,
            math: heap.builtin_object(BuiltinObjectIndexes::MathObjectIndex),
            number: heap.builtin_function(BuiltinObjectIndexes::NumberConstructorIndex),
            number_prototype: heap.builtin_object(BuiltinObjectIndexes::NumberPrototypeIndex),
            object: heap.builtin_function(BuiltinObjectIndexes::ObjectConstructorIndex),
            object_prototype: heap.builtin_object(BuiltinObjectIndexes::ObjectPrototypeIndex),
            object_prototype_to_string: None,
            range_error: heap.builtin_function(BuiltinObjectIndexes::RangeErrorConstructorIndex),
            range_error_prototype: heap.builtin_object(
                BuiltinObjectIndexes::RangeErrorPrototypeIndex,
            ),
            reference_error: heap.builtin_function(
                BuiltinObjectIndexes::ReferenceErrorConstructorIndex,
            ),
            reference_error_prototype: heap.builtin_object(
                BuiltinObjectIndexes::ReferenceErrorPrototypeIndex,
            ),
            reflect: heap.builtin_object(BuiltinObjectIndexes::ReflectObjectIndex),
            string: heap.builtin_function(BuiltinObjectIndexes::StringConstructorIndex),
            string_prototype: heap.builtin_object(BuiltinObjectIndexes::StringPrototypeIndex),
            symbol: heap.builtin_function(BuiltinObjectIndexes::SymbolConstructorIndex),
            symbol_prototype: heap.builtin_object(BuiltinObjectIndexes::SymbolPrototypeIndex),
            syntax_error: heap.builtin_function(BuiltinObjectIndexes::SyntaxErrorConstructorIndex),
            syntax_error_prototype: heap.builtin_object(
                BuiltinObjectIndexes::SyntaxErrorPrototypeIndex,
            ),
            throw_type_error: None,
            type_error: heap.builtin_function(BuiltinObjectIndexes::TypeErrorConstructorIndex),
            type_error_prototype: heap.builtin_object(
                BuiltinObjectIndexes::TypeErrorPrototypeIndex,
            ),
            uri_error: heap.builtin_function(BuiltinObjectIndexes::UriErrorConstructorIndex),
            uri_error_prototype: heap.builtin_object(BuiltinObjectIndexes::UriErrorPrototypeIndex),
        }
    }

    /// Every handle of the table names, in its own arena, a slot of `heap`
    /// that holds a record.
    pub open spec fn resolves_in(&self, heap: HeapView) -> bool {
        &&& self.array matches Some(idx) ==> heap.function_populated(idx)
        &&& self.array_prototype matches Some(idx) ==> heap.object_populated(idx)
        &&& self.array_buffer matches Some(idx) ==> heap.function_populated(idx)
        &&& self.array_buffer_prototype matches Some(idx) ==> heap.object_populated(idx)
        &&& self.big_int matches Some(idx) ==> heap.function_populated(idx)
        &&& self.big_int_prototype matches Some(idx) ==> heap.object_populated(idx)
        &&& self.boolean matches Some(idx) ==> heap.function_populated(idx)
        &&& self.boolean_prototype matches Some(idx) ==> heap.object_populated(idx)
        &&& self.error matches Some(idx) ==> heap.function_populated(idx)
        &&& self.error_prototype matches Some(idx) ==> heap.object_populated(idx)
        &&& self.eval matches Some(idx) ==> heap.function_populated(idx)
        &&& self.eval_error matches Some(idx) ==> heap.function_populated(idx)
        &&& self.eval_error_prototype matches Some(idx) ==> heap.object_populated(idx)
        &&& self.function matches Some(idx) ==> heap.function_populated(idx)
        &&& self.function_prototype matches Some(idx) ==> heap.object_populated(idx)
        &&& self.is_finite matches Some(idx) ==> heap.function_populated(idx)
        &&& self.is_nan matches Some(idx) ==> heap.function_populated(idx)
        &&& self.math matches Some(idx) ==> heap.object_populated(idx)
        &&& self.number matches Some(idx) ==> heap.function_populated(idx)
        &&& self.number_prototype matches Some(idx) ==> heap.object_populated(idx)
        &&& self.object matches Some(idx) ==> heap.function_populated(idx)
        &&& self.object_prototype matches Some(idx) ==> heap.object_populated(idx)
        &&& self.object_prototype_to_string matches Some(idx) ==> heap.function_populated(idx)
        &&& self.range_error matches Some(idx) ==> heap.function_populated(idx)
        &&& self.range_error_prototype matches Some(idx) ==> heap.object_populated(idx)
        &&& self.reference_error matches Some(idx) ==> heap.function_populated(idx)
        &&& self.reference_error_prototype matches Some(idx) ==> heap.object_populated(idx)
        &&& self.reflect matches Some(idx) ==> heap.object_populated(idx)
        &&& self.string matches Some(idx) ==> heap.function_populated(idx)
        &&& self.string_prototype matches Some(idx) ==> heap.object_populated(idx)
        &&& self.symbol matches Some(idx) ==> heap.function_populated(idx)
        &&& self.symbol_prototype matches Some(idx) ==> heap.object_populated(idx)
        &&& self.syntax_error matches Some(idx) ==> heap.function_populated(idx)
        &&& self.syntax_error_prototype matches Some(idx) ==> heap.object_populated(idx)
        &&& self.throw_type_error matches Some(idx) ==> heap.function_populated(idx)
        &&& self.type_error matches Some(idx) ==> heap.function_populated(idx)
        &&& self.type_error_prototype matches Some(idx) ==> heap.object_populated(idx)
        &&& self.uri_error matches Some(idx) ==> heap.function_populated(idx)
        &&& self.uri_error_prototype matches Some(idx) ==> heap.object_populated(idx)
    }

    /// Every intrinsic is present, so that no accessor fails.
    pub open spec fn complete(&self) -> bool {
        &&& self.array is Some
        &&& self.array_prototype is Some
        &&& self.array_buffer is Some
        &&& self.array_buffer_prototype is Some
        &&& self.big_int is Some
        &&& self.big_int_prototype is Some
        &&& self.boolean is Some
        &&& self.boolean_prototype is Some
        &&& self.error is Some
        &&& self.error_prototype is Some
        &&& self.eval is Some
        &&& self.eval_error is Some
        &&& self.eval_error_prototype is Some
        &&& self.function is Some
        &&& self.function_prototype is Some
        &&& self.is_finite is Some
        &&& self.is_nan is Some
        &&& self.math is Some
        &&& self.number is Some
        &&& self.number_prototype is Some
        &&& self.object is Some
        &&& self.object_prototype is Some
        &&& self.object_prototype_to_string is Some
        &&& self.range_error is Some
        &&& self.range_error_prototype is Some
        &&& self.reference_error is Some
        &&& self.reference_error_prototype is Some
        &&& self.reflect is Some
        &&& self.string is Some
        &&& self.string_prototype is Some
        &&& self.symbol is Some
        &&& self.symbol_prototype is Some
        &&& self.syntax_error is Some
        &&& self.syntax_error_prototype is Some
        &&& self.throw_type_error is Some
        &&& self.type_error is Some
        &&& self.type_error_prototype is Some
        &&& self.uri_error is Some
        &&& self.uri_error_prototype is Some
    }

    /// The default [[Prototype]] of objects of each kind.
    pub open spec fn default_proto(&self, intrinsic_default_proto: ProtoIntrinsics) -> Result<
        Object,
        HeapError,
    > {
        object_or_absent(
            match intrinsic_default_proto {
                ProtoIntrinsics::Array => self.array_prototype,
                ProtoIntrinsics::ArrayBuffer => self.array_buffer_prototype,
                ProtoIntrinsics::BigInt => self.big_int_prototype,
                ProtoIntrinsics::Boolean => self.boolean_prototype,
                ProtoIntrinsics::Error => self.error_prototype,
                ProtoIntrinsics::EvalError => self.eval_error_prototype,
                ProtoIntrinsics::Function => self.function_prototype,
                ProtoIntrinsics::Number => self.number_prototype,
                ProtoIntrinsics::Object => self.object_prototype,
                ProtoIntrinsics::RangeError => self.range_error_prototype,
                ProtoIntrinsics::ReferenceError => self.reference_error_prototype,
                ProtoIntrinsics::String => self.string_prototype,
                ProtoIntrinsics::Symbol => self.symbol_prototype,
                ProtoIntrinsics::SyntaxError => self.syntax_error_prototype,
                ProtoIntrinsics::TypeError => self.type_error_prototype,
                ProtoIntrinsics::UriError => self.uri_error_prototype,
            },
        )
    }

    /// Derives the table from a heap: an intrinsic is present exactly where
    /// its fixed slot holds a record. The result depends on nothing but
    /// which fixed slots are filled; on a heap whose fixed slots are all
    /// filled it is the table of `default`.
    pub fn from_heap(heap: &Heap) -> (r: Self)
        requires
            heap.wf(),
        ensures
            r == Intrinsics::derived_from(heap@),
            r.resolves_in(heap@),
            heap@.bootstrapped() ==> r == Intrinsics::slot_table(),
    {
        let array = heap.builtin_function(BuiltinObjectIndexes::ArrayConstructorIndex);
        let array_prototype = heap.builtin_object(BuiltinObjectIndexes::ArrayPrototypeIndex);
        let array_buffer = heap.builtin_function(BuiltinObjectIndexes::ArrayBufferConstructorIndex);
        let array_buffer_prototype = heap.builtin_object(
            BuiltinObjectIndexes::ArrayBufferPrototypeIndex,
        );
        let big_int = heap.builtin_function(BuiltinObjectIndexes::BigintConstructorIndex);
        let big_int_prototype = heap.builtin_object(BuiltinObjectIndexes::BigintPrototypeIndex);
        let boolean = heap.builtin_function(BuiltinObjectIndexes::BooleanConstructorIndex);
        let boolean_prototype = heap.builtin_object(BuiltinObjectIndexes::BooleanPrototypeIndex);
        let error = heap.builtin_function(BuiltinObjectIndexes::ErrorConstructorIndex);
        let error_prototype = heap.builtin_object(BuiltinObjectIndexes::ErrorPrototypeIndex);
        // %eval% has no fixed slot.
        let eval = None;
        let eval_error = heap.builtin_function(BuiltinObjectIndexes::EvalErrorConstructorIndex);
        let eval_error_prototype = heap.builtin_object(
            BuiltinObjectIndexes::EvalErrorPrototypeIndex,
        );
        let function = heap.builtin_function(BuiltinObjectIndexes::FunctionConstructorIndex);
        let function_prototype = heap.builtin_object(BuiltinObjectIndexes::FunctionPrototypeIndex);
        // %isFinite% has no fixed slot.
        let is_finite = None;
        // %isNaN% has no fixed slot.
        let is_nan = None;
        let math = heap.builtin_object(BuiltinObjectIndexes::MathObjectIndex);
        let number = heap.builtin_function(BuiltinObjectIndexes::NumberConstructorIndex);
        let number_prototype = heap.builtin_object(BuiltinObjectIndexes::NumberPrototypeIndex);
        let object = heap.builtin_function(BuiltinObjectIndexes::ObjectConstructorIndex);
        let object_prototype = heap.builtin_object(BuiltinObjectIndexes::ObjectPrototypeIndex);
        // %Object.prototype.toString% has no fixed slot.
        let object_prototype_to_string = None;
        let range_error = heap.builtin_function(BuiltinObjectIndexes::RangeErrorConstructorIndex);
        let range_error_prototype = heap.builtin_object(
            BuiltinObjectIndexes::RangeErrorPrototypeIndex,
        );
        let reference_error = heap.builtin_function(
            BuiltinObjectIndexes::ReferenceErrorConstructorIndex,
        );
        let reference_error_prototype = heap.builtin_object(
            BuiltinObjectIndexes::ReferenceErrorPrototypeIndex,
        );
        let reflect = heap.builtin_object(BuiltinObjectIndexes::ReflectObjectIndex);
        let string = heap.builtin_function(BuiltinObjectIndexes::StringConstructorIndex);
        let string_prototype = heap.builtin_object(BuiltinObjectIndexes::StringPrototypeIndex);
        let symbol = heap.builtin_function(BuiltinObjectIndexes::SymbolConstructorIndex);
        let symbol_prototype = heap.builtin_object(BuiltinObjectIndexes::SymbolPrototypeIndex);
        let syntax_error = heap.builtin_function(BuiltinObjectIndexes::SyntaxErrorConstructorIndex);
        let syntax_error_prototype = heap.builtin_object(
            BuiltinObjectIndexes::SyntaxErrorPrototypeIndex,
        );
        // %ThrowTypeError% has no fixed slot.
        let throw_type_error = None;
        let type_error = heap.builtin_function(BuiltinObjectIndexes::TypeErrorConstructorIndex);
        let type_error_prototype = heap.builtin_object(
            BuiltinObjectIndexes::TypeErrorPrototypeIndex,
        );
        let uri_error = heap.builtin_function(BuiltinObjectIndexes::UriErrorConstructorIndex);
        let uri_error_prototype = heap.builtin_object(BuiltinObjectIndexes::UriErrorPrototypeIndex);
        proof {
            Intrinsics::lemma_derived_resolves(heap@);
            if heap@.bootstrapped() {
                Intrinsics::lemma_bootstrapped_table(heap@);
            }
        }
        Self {
            array,
            array_prototype,
            array_buffer,
            array_buffer_prototype,
            big_int,
            big_int_prototype,
            boolean,
            boolean_prototype,
            error,
            error_prototype,
            eval,
            eval_error,
            eval_error_prototype,
            function,
            function_prototype,
            is_finite,
            is_nan,
            math,
            number,
            number_prototype,
            object,
            object_prototype,
            object_prototype_to_string,
            range_error,
            range_error_prototype,
            reference_error,
            reference_error_prototype,
            reflect,
            string,
            string_prototype,
            symbol,
            symbol_prototype,
            syntax_error,
            syntax_error_prototype,
            throw_type_error,
            type_error,
            type_error_prototype,
            uri_error,
            uri_error_prototype,
        }
    }

    /// The realm's default [[Prototype]] for objects of the given kind: the
    /// prototype object of the kind's constructor. Fails with
    /// `NotImplemented` where that prototype is absent from the table.
    pub fn get_intrinsic_default_proto(&self, intrinsic_default_proto: ProtoIntrinsics) -> (r:
        Result<Object, HeapError>)
        ensures
            r == self.default_proto(intrinsic_default_proto),
    {
        match intrinsic_default_proto {
            ProtoIntrinsics::Array => self.array_prototype(),
            ProtoIntrinsics::ArrayBuffer => match self.array_buffer_prototype() {
                Ok(prototype) => Ok(Object::from(prototype)),
                Err(e) => Err(e),
            },
            ProtoIntrinsics::BigInt => self.big_int_prototype(),
            ProtoIntrinsics::Boolean => self.boolean_prototype(),
            ProtoIntrinsics::Error => self.error_prototype(),
            ProtoIntrinsics::EvalError => self.eval_error_prototype(),
            ProtoIntrinsics::Function => self.function_prototype(),
            ProtoIntrinsics::Number => self.number_prototype(),
            ProtoIntrinsics::Object => self.object_prototype(),
            ProtoIntrinsics::RangeError => self.range_error_prototype(),
            ProtoIntrinsics::ReferenceError => self.reference_error_prototype(),
            ProtoIntrinsics::String => self.string_prototype(),
            ProtoIntrinsics::Symbol => self.symbol_prototype(),
            ProtoIntrinsics::SyntaxError => self.syntax_error_prototype(),
            ProtoIntrinsics::TypeError => self.type_error_prototype(),
            ProtoIntrinsics::UriError => self.uri_error_prototype(),
        }
    }

    /// %Array%
    pub fn array(&self) -> (r: Result<Function, HeapError>)
        ensures
            r == function_or_absent(self.array),
    {
        found_function(self.array)
    }

    /// %Array.prototype%
    pub fn array_prototype(&self) -> (r: Result<Object, HeapError>)
        ensures
            r == object_or_absent(self.array_prototype),
    {
        found_object(self.array_prototype)
    }

    /// %ArrayBuffer%
    pub fn array_buffer(&self) -> (r: Result<Function, HeapError>)
        ensures
            r == function_or_absent(self.array_buffer),
    {
        found_function(self.array_buffer)
    }

    /// %ArrayBuffer.prototype%
    pub fn array_buffer_prototype(&self) -> (r: Result<OrdinaryObject, HeapError>)
        ensures
            r == ordinary_or_absent(self.array_buffer_prototype),
    {
        found_ordinary(self.array_buffer_prototype)
    }

    /// %BigInt%
    pub fn big_int(&self) -> (r: Result<Function, HeapError>)
        ensures
            r == function_or_absent(self.big_int),
    {
        found_function(self.big_int)
    }

    /// %BigInt.prototype%
    pub fn big_int_prototype(&self) -> (r: Result<Object, HeapError>)
        ensures
            r == object_or_absent(self.big_int_prototype),
    {
        found_object(self.big_int_prototype)
    }

    /// %Boolean%
    pub fn boolean(&self) -> (r: Result<Function, HeapError>)
        ensures
            r == function_or_absent(self.boolean),
    {
        found_function(self.boolean)
    }

    /// %Boolean.prototype%
    pub fn boolean_prototype(&self) -> (r: Result<Object, HeapError>)
        ensures
            r == object_or_absent(self.boolean_prototype),
    {
        found_object(self.boolean_prototype)
    }

    /// %Error%
    pub fn error(&self) -> (r: Result<Function, HeapError>)
        ensures
            r == function_or_absent(self.error),
    {
        found_function(self.error)
    }

    /// %Error.prototype%
    pub fn error_prototype(&self) -> (r: Result<Object, HeapError>)
        ensures
            r == object_or_absent(self.error_prototype),
    {
        found_object(self.error_prototype)
    }

    /// %eval%
    pub fn eval(&self) -> (r: Result<Function, HeapError>)
        ensures
            r == function_or_absent(self.eval),
    {
        found_function(self.eval)
    }

    /// %EvalError%
    pub fn eval_error(&self) -> (r: Result<Function, HeapError>)
        ensures
            r == function_or_absent(self.eval_error),
    {
        found_function(self.eval_error)
    }

    /// %EvalError.prototype%
    pub fn eval_error_prototype(&self) -> (r: Result<Object, HeapError>)
        ensures
            r == object_or_absent(self.eval_error_prototype),
    {
        found_object(self.eval_error_prototype)
    }

    /// %Function%
    pub fn function(&self) -> (r: Result<Function, HeapError>)
        ensures
            r == function_or_absent(self.function),
    {
        found_function(self.function)
    }

    /// %Function.prototype%
    pub fn function_prototype(&self) -> (r: Result<Object, HeapError>)
        ensures
            r == object_or_absent(self.function_prototype),
    {
        found_object(self.function_prototype)
    }

    /// %isFinite%
    pub fn is_finite(&self) -> (r: Result<Function, HeapError>)
        ensures
            r == function_or_absent(self.is_finite),
    {
        found_function(self.is_finite)
    }

    /// %isNaN%
    pub fn is_nan(&self) -> (r: Result<Function, HeapError>)
        ensures
            r == function_or_absent(self.is_nan),
    {
        found_function(self.is_nan)
    }

    /// %Math%
    pub fn math(&self) -> (r: Result<Object, HeapError>)
        ensures
            r == object_or_absent(self.math),
    {
        found_object(self.math)
    }

    /// %Number%
    pub fn number(&self) -> (r: Result<Function, HeapError>)
        ensures
            r == function_or_absent(self.number),
    {
        found_function(self.number)
    }

    /// %Number.prototype%
    pub fn number_prototype(&self) -> (r: Result<Object, HeapError>)
        ensures
            r == object_or_absent(self.number_prototype),
    {
        found_object(self.number_prototype)
    }

    /// %Object%
    pub fn object(&self) -> (r: Result<Function, HeapError>)
        ensures
            r == function_or_absent(self.object),
    {
        found_function(self.object)
    }

    /// %Object.prototype%
    pub fn object_prototype(&self) -> (r: Result<Object, HeapError>)
        ensures
            r == object_or_absent(self.object_prototype),
    {
        found_object(self.object_prototype)
    }

    /// %Object.prototype.toString%
    pub fn object_prototype_to_string(&self) -> (r: Result<Object, HeapError>)
        ensures
            r == function_object_or_absent(self.object_prototype_to_string),
    {
        found_function_object(self.object_prototype_to_string)
    }

    /// %RangeError%
    pub fn range_error(&self) -> (r: Result<Object, HeapError>)
        ensures
            r == function_object_or_absent(self.range_error),
    {
        found_function_object(self.range_error)
    }

    /// %RangeError.prototype%
    pub fn range_error_prototype(&self) -> (r: Result<Object, HeapError>)
        ensures
            r == object_or_absent(self.range_error_prototype),
    {
        found_object(self.range_error_prototype)
    }

    /// %ReferenceError%
    pub fn reference_error(&self) -> (r: Result<Object, HeapError>)
        ensures
            r == function_object_or_absent(self.reference_error),
    {
        found_function_object(self.reference_error)
    }

    /// %ReferenceError.prototype%
    pub fn reference_error_prototype(&self) -> (r: Result<Object, HeapError>)
        ensures
            r == object_or_absent(self.reference_error_prototype),
    {
        found_object(self.reference_error_prototype)
    }

    /// %Reflect%
    pub fn reflect(&self) -> (r: Result<Object, HeapError>)
        ensures
            r == object_or_absent(self.reflect),
    {
        found_object(self.reflect)
    }

    /// %String%
    pub fn string(&self) -> (r: Result<Function, HeapError>)
        ensures
            r == function_or_absent(self.string),
    {
        found_function(self.string)
    }

    /// %String.prototype%
    pub fn string_prototype(&self) -> (r: Result<Object, HeapError>)
        ensures
            r == object_or_absent(self.string_prototype),
    {
        found_object(self.string_prototype)
    }

    /// %Symbol%
    pub fn symbol(&self) -> (r: Result<Function, HeapError>)
        ensures
            r == function_or_absent(self.symbol),
    {
        found_function(self.symbol)
    }

    /// %Symbol.prototype%
    pub fn symbol_prototype(&self) -> (r: Result<Object, HeapError>)
        ensures
            r == object_or_absent(self.symbol_prototype),
    {
        found_object(self.symbol_prototype)
    }

    /// %SyntaxError%
    pub fn syntax_error(&self) -> (r: Result<Object, HeapError>)
        ensures
            r == function_object_or_absent(self.syntax_error),
    {
        found_function_object(self.syntax_error)
    }

    /// %SyntaxError.prototype%
    pub fn syntax_error_prototype(&self) -> (r: Result<Object, HeapError>)
        ensures
            r == object_or_absent(self.syntax_error_prototype),
    {
        found_object(self.syntax_error_prototype)
    }

    /// %ThrowTypeError%
    pub fn throw_type_error(&self) -> (r: Result<Object, HeapError>)
        ensures
            r == function_object_or_absent(self.throw_type_error),
    {
        found_function_object(self.throw_type_error)
    }

    /// %TypeError%
    pub fn type_error(&self) -> (r: Result<Object, HeapError>)
        ensures
            r == function_object_or_absent(self.type_error),
    {
        found_function_object(self.type_error)
    }

    /// %TypeError.prototype%
    pub fn type_error_prototype(&self) -> (r: Result<Object, HeapError>)
        ensures
            r == object_or_absent(self.type_error_prototype),
    {
        found_object(self.type_error_prototype)
    }

    /// %URIError%
    pub fn uri_error(&self) -> (r: Result<Object, HeapError>)
        ensures
            r == function_object_or_absent(self.uri_error),
    {
        found_function_object(self.uri_error)
    }

    /// %URIError.prototype%
    pub fn uri_error_prototype(&self) -> (r: Result<Object, HeapError>)
        ensures
            r == object_or_absent(self.uri_error_prototype),
    {
        found_object(self.uri_error_prototype)
    }

    /// Whether every intrinsic is present. A realm is ready for scripts only
    /// with a table of which this holds: on any other, some accessor fails
    /// with `NotImplemented`.
    pub fn is_complete(&self) -> (r: bool)
        ensures
            r == self.complete(),
    {
        self.array.is_some()
        && self.array_prototype.is_some()
        && self.array_buffer.is_some()
        && self.array_buffer_prototype.is_some()
        && self.big_int.is_some()
        && self.big_int_prototype.is_some()
        && self.boolean.is_some()
        && self.boolean_prototype.is_some()
        && self.error.is_some()
        && self.error_prototype.is_some()
        && self.eval.is_some()
        && self.eval_error.is_some()
        && self.eval_error_prototype.is_some()
        && self.function.is_some()
        && self.function_prototype.is_some()
        && self.is_finite.is_some()
        && self.is_nan.is_some()
        && self.math.is_some()
        && self.number.is_some()
        && self.number_prototype.is_some()
        && self.object.is_some()
        && self.object_prototype.is_some()
        && self.object_prototype_to_string.is_some()
        && self.range_error.is_some()
        && self.range_error_prototype.is_some()
        && self.reference_error.is_some()
        && self.reference_error_prototype.is_some()
        && self.reflect.is_some()
        && self.string.is_some()
        && self.string_prototype.is_some()
        && self.symbol.is_some()
        && self.symbol_prototype.is_some()
        && self.syntax_error.is_some()
        && self.syntax_error_prototype.is_some()
        && self.throw_type_error.is_some()
        && self.type_error.is_some()
        && self.type_error_prototype.is_some()
        && self.uri_error.is_some()
        && self.uri_error_prototype.is_some()
    }

    /// The table that the fixed slots give has a default [[Prototype]] for
    /// each of the sixteen kinds.
    pub proof fn lemma_slot_table_total(intrinsic_default_proto: ProtoIntrinsics)
        ensures
            Intrinsics::slot_table().default_proto(intrinsic_default_proto) matches Ok(
                Object::Object(_),
            ),
    {
    }

    /// A derived table holds no handle that its heap does not resolve.
    pub proof fn lemma_derived_resolves(heap: HeapView)
        ensures
            Intrinsics::derived_from(heap).resolves_in(heap),
    {
    }

    /// On a heap whose fixed slots are all filled, the derived table is the
    /// one that the fixed slots alone give.
    pub proof fn lemma_bootstrapped_table(heap: HeapView)
        requires
            heap.bootstrapped(),
        ensures
            Intrinsics::derived_from(heap) == Intrinsics::slot_table(),
    {
        Self::lemma_slots_filled(heap);
    }

    /// In a bootstrapped heap the object of every fixed slot and the
    /// function record of every constructor are there.
    proof fn lemma_slots_filled(heap: HeapView)
        requires
            heap.bootstrapped(),
        ensures
            forall|index: BuiltinObjectIndexes| #[trigger]
                heap.object_populated(index.spec_object_index()),
            forall|index: BuiltinObjectIndexes|
                index.spec_is_constructor() ==> #[trigger] heap.function_populated(
                    spec_get_constructor_index(index),
                ),
    {
        assert forall|index: BuiltinObjectIndexes| #[trigger]
            heap.object_populated(index.spec_object_index()) by {
            assert(heap.objects[index.spec_index() as int] is Some);
        }
        assert forall|index: BuiltinObjectIndexes|
            index.spec_is_constructor() implies #[trigger] heap.function_populated(
            spec_get_constructor_index(index),
        ) by {
            assert(heap.functions[spec_get_constructor_index(index).0 as int] is Some);
        }
    }

    /// Once every fixed slot is filled, the default [[Prototype]] of each of
    /// the sixteen kinds is present in the derived table and names an object
    /// that the heap holds; and it names the same object in every later heap
    /// that kept the records of this one.
    pub proof fn lemma_default_protos_resolve(
        heap: HeapView,
        later: HeapView,
        intrinsic_default_proto: ProtoIntrinsics,
    )
        requires
            heap.bootstrapped(),
            heap.objects_kept_by(later),
        ensures
            Intrinsics::derived_from(heap).default_proto(intrinsic_default_proto) matches Ok(
                Object::Object(idx),
            ) && heap.resolve_object(idx) is Ok && later.resolve_object(idx) == heap.resolve_object(
                idx,
            ),
            Intrinsics::derived_from(heap).default_proto(intrinsic_default_proto)
                == Intrinsics::slot_table().default_proto(intrinsic_default_proto),
    {
        Self::lemma_slots_filled(heap);
    }

    /// Two heaps in which the same fixed slots are filled give the same
    /// table, handle for handle.
    pub proof fn lemma_derivation_deterministic(a: HeapView, b: HeapView)
        requires
            forall|index: BuiltinObjectIndexes| #[trigger]
                a.builtin_object(index) == b.builtin_object(index),
            forall|index: BuiltinObjectIndexes| #[trigger]
                a.builtin_function(index) == b.builtin_function(index),
        ensures
            Intrinsics::derived_from(a) == Intrinsics::derived_from(b),
    {
    }
}

} // verus!
