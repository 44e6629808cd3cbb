use vstd::prelude::*;
use crate::indexes::{FunctionIndex, ObjectIndex, SymbolIndex};

verus! {

/// The fixed slots of the object arena, one per well-known object.
///
/// Prototypes and other plain objects come first, the constructors after
/// them, so that a constructor's slot in the function arena is its distance
/// from the first constructor.
#[derive(Debug, Clone, Copy, PartialEq, Eq, Structural)]
pub enum BuiltinObjectIndexes {
    // Fundamental objects
    ObjectPrototypeIndex,
    FunctionPrototypeIndex,
    BooleanPrototypeIndex,
    SymbolPrototypeIndex,
    ErrorPrototypeIndex,
    EvalErrorPrototypeIndex,
    RangeErrorPrototypeIndex,
    ReferenceErrorPrototypeIndex,
    SyntaxErrorPrototypeIndex,
    TypeErrorPrototypeIndex,
    UriErrorPrototypeIndex,
    // Numbers
    NumberPrototypeIndex,
    BigintPrototypeIndex,
    MathObjectIndex,
    // Text processing
    StringPrototypeIndex,
    // Indexed collections
    ArrayPrototypeIndex,
    // Structured data
    ArrayBufferPrototypeIndex,
    // Reflection
    ReflectObjectIndex,
    // Constructors, in the order of their prototypes
    ObjectConstructorIndex,
    FunctionConstructorIndex,
    BooleanConstructorIndex,
    SymbolConstructorIndex,
    ErrorConstructorIndex,
    EvalErrorConstructorIndex,
    RangeErrorConstructorIndex,
    ReferenceErrorConstructorIndex,
    SyntaxErrorConstructorIndex,
    TypeErrorConstructorIndex,
    UriErrorConstructorIndex,
    NumberConstructorIndex,
    BigintConstructorIndex,
    StringConstructorIndex,
    ArrayConstructorIndex,
    ArrayBufferConstructorIndex,
}

/// Slot of the last well-known object.
pub const LAST_BUILTIN_OBJECT_INDEX: u32 = 33;

/// Slot of the first constructor.
pub const FIRST_CONSTRUCTOR_INDEX: u32 = 18;

impl BuiltinObjectIndexes {
    /// The slot's offset in the object arena.
    pub open spec fn spec_index(self) -> u32 {
        match self {
            BuiltinObjectIndexes::ObjectPrototypeIndex => 0,
            BuiltinObjectIndexes::FunctionPrototypeIndex => 1,
            BuiltinObjectIndexes::BooleanPrototypeIndex => 2,
            BuiltinObjectIndexes::SymbolPrototypeIndex => 3,
            BuiltinObjectIndexes::ErrorPrototypeIndex => 4,
            BuiltinObjectIndexes::EvalErrorPrototypeIndex => 5,
            BuiltinObjectIndexes::RangeErrorPrototypeIndex => 6,
            BuiltinObjectIndexes::ReferenceErrorPrototypeIndex => 7,
            BuiltinObjectIndexes::SyntaxErrorPrototypeIndex => 8,
            BuiltinObjectIndexes::TypeErrorPrototypeIndex => 9,
            BuiltinObjectIndexes::UriErrorPrototypeIndex => 10,
            BuiltinObjectIndexes::NumberPrototypeIndex => 11,
            BuiltinObjectIndexes::BigintPrototypeIndex => 12,
            BuiltinObjectIndexes::MathObjectIndex => 13,
            BuiltinObjectIndexes::StringPrototypeIndex => 14,
            BuiltinObjectIndexes::ArrayPrototypeIndex => 15,
            BuiltinObjectIndexes::ArrayBufferPrototypeIndex => 16,
            BuiltinObjectIndexes::ReflectObjectIndex => 17,
            BuiltinObjectIndexes::ObjectConstructorIndex => 18,
            BuiltinObjectIndexes::FunctionConstructorIndex => 19,
            BuiltinObjectIndexes::BooleanConstructorIndex => 20,
            BuiltinObjectIndexes::SymbolConstructorIndex => 21,
            BuiltinObjectIndexes::ErrorConstructorIndex => 22,
            BuiltinObjectIndexes::EvalErrorConstructorIndex => 23,
            BuiltinObjectIndexes::RangeErrorConstructorIndex => 24,
            BuiltinObjectIndexes::ReferenceErrorConstructorIndex => 25,
            BuiltinObjectIndexes::SyntaxErrorConstructorIndex => 26,
            BuiltinObjectIndexes::TypeErrorConstructorIndex => 27,
            BuiltinObjectIndexes::UriErrorConstructorIndex => 28,
            BuiltinObjectIndexes::NumberConstructorIndex => 29,
            BuiltinObjectIndexes::BigintConstructorIndex => 30,
            BuiltinObjectIndexes::StringConstructorIndex => 31,
            BuiltinObjectIndexes::ArrayConstructorIndex => 32,
            BuiltinObjectIndexes::ArrayBufferConstructorIndex => 33,
        }
    }

    /// Whether the slot holds a constructor, that is, whether a slot of the
    /// function arena is paired with it.
    pub open spec fn spec_is_constructor(self) -> bool {
        self.spec_index() >= FIRST_CONSTRUCTOR_INDEX
    }

    /// The handle of the slot's object.
    pub open spec fn spec_object_index(self) -> ObjectIndex {
        ObjectIndex(self.spec_index())
    }

    /// The slot's offset in the object arena.
    #[verifier::when_used_as_spec(spec_index)]
    pub fn index(self) -> (r: u32)
        ensures
            r == self.spec_index(),
    {
        match self {
            BuiltinObjectIndexes::ObjectPrototypeIndex => 0,
            BuiltinObjectIndexes::FunctionPrototypeIndex => 1,
            BuiltinObjectIndexes::BooleanPrototypeIndex => 2,
            BuiltinObjectIndexes::SymbolPrototypeIndex => 3,
            BuiltinObjectIndexes::ErrorPrototypeIndex => 4,
            BuiltinObjectIndexes::EvalErrorPrototypeIndex => 5,
            BuiltinObjectIndexes::RangeErrorPrototypeIndex => 6,
            BuiltinObjectIndexes::ReferenceErrorPrototypeIndex => 7,
            BuiltinObjectIndexes::SyntaxErrorPrototypeIndex => 8,
            BuiltinObjectIndexes::TypeErrorPrototypeIndex => 9,
            BuiltinObjectIndexes::UriErrorPrototypeIndex => 10,
            BuiltinObjectIndexes::NumberPrototypeIndex => 11,
            BuiltinObjectIndexes::BigintPrototypeIndex => 12,
            BuiltinObjectIndexes::MathObjectIndex => 13,
            BuiltinObjectIndexes::StringPrototypeIndex => 14,
            BuiltinObjectIndexes::ArrayPrototypeIndex => 15,
            BuiltinObjectIndexes::ArrayBufferPrototypeIndex => 16,
            BuiltinObjectIndexes::ReflectObjectIndex => 17,
            BuiltinObjectIndexes::ObjectConstructorIndex => 18,
            BuiltinObjectIndexes::FunctionConstructorIndex => 19,
            BuiltinObjectIndexes::BooleanConstructorIndex => 20,
            BuiltinObjectIndexes::SymbolConstructorIndex => 21,
            BuiltinObjectIndexes::ErrorConstructorIndex => 22,
            BuiltinObjectIndexes::EvalErrorConstructorIndex => 23,
            BuiltinObjectIndexes::RangeErrorConstructorIndex => 24,
            BuiltinObjectIndexes::ReferenceErrorConstructorIndex => 25,
            BuiltinObjectIndexes::SyntaxErrorConstructorIndex => 26,
            BuiltinObjectIndexes::TypeErrorConstructorIndex => 27,
            BuiltinObjectIndexes::UriErrorConstructorIndex => 28,
            BuiltinObjectIndexes::NumberConstructorIndex => 29,
            BuiltinObjectIndexes::BigintConstructorIndex => 30,
            BuiltinObjectIndexes::StringConstructorIndex => 31,
            BuiltinObjectIndexes::ArrayConstructorIndex => 32,
            BuiltinObjectIndexes::ArrayBufferConstructorIndex => 33,
        }
    }

    /// Whether the slot holds a constructor.
    #[verifier::when_used_as_spec(spec_is_constructor)]
    pub fn is_constructor(self) -> (r: bool)
        ensures
            r == self.spec_is_constructor(),
    {
        self.index() >= FIRST_CONSTRUCTOR_INDEX
    }

    /// The handle of the slot's object.
    #[verifier::when_used_as_spec(spec_object_index)]
    pub fn object_index(self) -> (r: ObjectIndex)
        ensures
            r == self.spec_object_index(),
    {
        ObjectIndex::from_u32_index(self.index())
    }

    /// Every slot lies within the reserved part of the object arena, and two
    /// different slots never share an offset.
    pub proof fn lemma_offsets_disjoint(a: Self, b: Self)
        ensures
            a.spec_index() <= LAST_BUILTIN_OBJECT_INDEX,
            a.spec_index() == b.spec_index() ==> a == b,
    {
    }
}

impl From<BuiltinObjectIndexes> for ObjectIndex {
    fn from(value: BuiltinObjectIndexes) -> (r: ObjectIndex) {
        value.object_index()
    }
}

impl vstd::std_specs::convert::FromSpecImpl<BuiltinObjectIndexes> for ObjectIndex {
    open spec fn obeys_from_spec() -> bool {
        true
    }

    open spec fn from_spec(value: BuiltinObjectIndexes) -> ObjectIndex {
        value.spec_object_index()
    }
}

/// The function-arena slot paired with a constructor's object slot.
pub open spec fn spec_get_constructor_index(object_index: BuiltinObjectIndexes) -> FunctionIndex {
    FunctionIndex((object_index.spec_index() - FIRST_CONSTRUCTOR_INDEX) as u32)
}

/// The function-arena slot paired with a constructor's object slot: the
/// slot's distance from the first constructor.
#[verifier::when_used_as_spec(spec_get_constructor_index)]
pub fn get_constructor_index(object_index: BuiltinObjectIndexes) -> (r: FunctionIndex)
    requires
        object_index.spec_is_constructor(),
    ensures
        r == spec_get_constructor_index(object_index),
        r.0 == object_index.spec_index() - FIRST_CONSTRUCTOR_INDEX,
{
    FunctionIndex::from_u32_index(object_index.index() - FIRST_CONSTRUCTOR_INDEX)
}

/// Two different constructors are paired with different slots of the
/// function arena, all within its reserved part.
pub proof fn lemma_constructor_slots_disjoint(a: BuiltinObjectIndexes, b: BuiltinObjectIndexes)
    requires
        a.spec_is_constructor(),
        b.spec_is_constructor(),
    ensures
        spec_get_constructor_index(a).0 <= LAST_BUILTIN_OBJECT_INDEX - FIRST_CONSTRUCTOR_INDEX,
        spec_get_constructor_index(a) == spec_get_constructor_index(b) ==> a == b,
{
}

/// The well-known symbols, in the order of their fixed handles.
#[derive(Debug, Clone, Copy, PartialEq, Eq, Structural)]
pub enum WellKnownSymbolIndexes {
    AsyncIterator,
    HasInstance,
    IsConcatSpreadable,
    Iterator,
    Match,
    MatchAll,
    Replace,
    Search,
    Species,
    Split,
    ToPrimitive,
    ToStringTag,
    Unscopables,
}

/// Handle of the last well-known symbol.
pub const LAST_WELL_KNOWN_SYMBOL_INDEX: u32 = 12;

impl WellKnownSymbolIndexes {
    /// The symbol's fixed handle.
    pub open spec fn spec_symbol_index(self) -> SymbolIndex {
        SymbolIndex(
            match self {
                WellKnownSymbolIndexes::AsyncIterator => 0,
                WellKnownSymbolIndexes::HasInstance => 1,
                WellKnownSymbolIndexes::IsConcatSpreadable => 2,
                WellKnownSymbolIndexes::Iterator => 3,
                WellKnownSymbolIndexes::Match => 4,
                WellKnownSymbolIndexes::MatchAll => 5,
                WellKnownSymbolIndexes::Replace => 6,
                WellKnownSymbolIndexes::Search => 7,
                WellKnownSymbolIndexes::Species => 8,
                WellKnownSymbolIndexes::Split => 9,
                WellKnownSymbolIndexes::ToPrimitive => 10,
                WellKnownSymbolIndexes::ToStringTag => 11,
                WellKnownSymbolIndexes::Unscopables => 12,
            },
        )
    }

    /// The symbol's fixed handle.
    #[verifier::when_used_as_spec(spec_symbol_index)]
    pub fn symbol_index(self) -> (r: SymbolIndex)
        ensures
            r == self.spec_symbol_index(),
    {
        let index: u32 = match self {
            WellKnownSymbolIndexes::AsyncIterator => 0,
            WellKnownSymbolIndexes::HasInstance => 1,
            WellKnownSymbolIndexes::IsConcatSpreadable => 2,
            WellKnownSymbolIndexes::Iterator => 3,
            WellKnownSymbolIndexes::Match => 4,
            WellKnownSymbolIndexes::MatchAll => 5,
            WellKnownSymbolIndexes::Replace => 6,
            WellKnownSymbolIndexes::Search => 7,
            WellKnownSymbolIndexes::Species => 8,
            WellKnownSymbolIndexes::Split => 9,
            WellKnownSymbolIndexes::ToPrimitive => 10,
            WellKnownSymbolIndexes::ToStringTag => 11,
            WellKnownSymbolIndexes::Unscopables => 12,
        };
        SymbolIndex::from_u32_index(index)
    }

    /// Every well-known symbol has a handle of its own, none beyond the last.
    pub proof fn lemma_symbols_disjoint(a: Self, b: Self)
        ensures
            a.spec_symbol_index().0 <= LAST_WELL_KNOWN_SYMBOL_INDEX,
            a.spec_symbol_index() == b.spec_symbol_index() ==> a == b,
    {
    }
}

impl From<WellKnownSymbolIndexes> for SymbolIndex {
    fn from(value: WellKnownSymbolIndexes) -> (r: SymbolIndex) {
        value.symbol_index()
    }
}

impl vstd::std_specs::convert::FromSpecImpl<WellKnownSymbolIndexes> for SymbolIndex {
    open spec fn obeys_from_spec() -> bool {
        true
    }

    open spec fn from_spec(value: WellKnownSymbolIndexes) -> SymbolIndex {
        value.spec_symbol_index()
    }
}

} // verus!
