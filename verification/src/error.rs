use vstd::prelude::*;

verus! {

/// Engine-level conditions. None of them is a script-visible exception: the
/// first two are violations of the engine's own invariants, the third marks an
/// intrinsic or binding that has no implementation yet.
#[derive(Debug, Clone, Copy, PartialEq, Eq, Structural)]
pub enum HeapError {
    /// A handle named a slot that is empty or lies outside its arena.
    InvalidHandle,
    /// A fixed builtin slot was registered a second time.
    DuplicateSlot,
    /// The intrinsic or binding asked for is absent.
    NotImplemented,
}

} // verus!
