use vstd::prelude::*;

verus! {

/// Handle of a slot in the object arena.
#[derive(Debug, Clone, Copy, PartialEq, Eq, Structural)]
pub struct ObjectIndex(pub u32);

/// Handle of a slot in the function arena.
#[derive(Debug, Clone, Copy, PartialEq, Eq, Structural)]
pub struct FunctionIndex(pub u32);

/// Handle of a symbol.
#[derive(Debug, Clone, Copy, PartialEq, Eq, Structural)]
pub struct SymbolIndex(pub u32);

/// Handle of a number kept by the numeric subsystem.
#[derive(Debug, Clone, Copy, PartialEq, Eq, Structural)]
pub struct NumberIndex(pub u32);

/// Handle of a big integer kept by the numeric subsystem.
#[derive(Debug, Clone, Copy, PartialEq, Eq, Structural)]
pub struct BigIntIndex(pub u32);

impl ObjectIndex {
    /// The handle of slot `value`.
    pub fn from_u32_index(value: u32) -> (r: Self)
        ensures
            r == ObjectIndex(value),
    {
        ObjectIndex(value)
    }

    /// The handle of slot `value`. A handle is 32 bits wide, so the slot
    /// number has to fit.
    pub fn from_index(value: usize) -> (r: Self)
        requires
            value <= u32::MAX,
        ensures
            r.0 == value,
    {
        ObjectIndex(value as u32)
    }

    /// The number of the slot that the handle names.
    pub fn into_index(self) -> (r: usize)
        ensures
            r == self.0,
    {
        self.0 as usize
    }
}

impl FunctionIndex {
    /// The handle of slot `value`.
    pub fn from_u32_index(value: u32) -> (r: Self)
        ensures
            r == FunctionIndex(value),
    {
        FunctionIndex(value)
    }

    /// The handle of slot `value`. A handle is 32 bits wide, so the slot
    /// number has to fit.
    pub fn from_index(value: usize) -> (r: Self)
        requires
            value <= u32::MAX,
        ensures
            r.0 == value,
    {
        FunctionIndex(value as u32)
    }

    /// The number of the slot that the handle names.
    pub fn into_index(self) -> (r: usize)
        ensures
            r == self.0,
    {
        self.0 as usize
    }
}

impl SymbolIndex {
    /// The handle of slot `value`.
    pub fn from_u32_index(value: u32) -> (r: Self)
        ensures
            r == SymbolIndex(value),
    {
        SymbolIndex(value)
    }
}

} // verus!
