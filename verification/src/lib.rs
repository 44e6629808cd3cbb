//! Object and heap core of an ECMAScript engine.
//!
//! Every heap-resident entity lives in a slot of a kind-specific arena owned
//! by [`heap::Heap`] and is named by a typed integer handle. The well-known
//! built-in objects of a realm occupy slots fixed by
//! [`heap_constants::BuiltinObjectIndexes`]; [`intrinsics::Intrinsics`] is the
//! per-realm directory of handles to them.

#![allow(unused_imports)]

pub mod error;
pub mod indexes;
pub mod heap_constants;
pub mod types;
pub mod object;
pub mod heap;
pub mod function;
pub mod intrinsics;
