use vstd::prelude::*;
use crate::error::HeapError;
use crate::heap_constants::{
    get_constructor_index, spec_get_constructor_index, BuiltinObjectIndexes,
    FIRST_CONSTRUCTOR_INDEX, LAST_BUILTIN_OBJECT_INDEX,
};
use crate::indexes::{FunctionIndex, ObjectIndex};
use crate::object::{ObjectEntry, ObjectHeapData, ObjectView};
use crate::types::{FunctionHeapData, Object, Value};

verus! {

/// What a heap holds: one sequence of slots per kind of entity. A slot is
/// empty or holds one record; a handle is the number of a slot.
pub struct HeapView {
    pub objects: Seq<Option<ObjectView>>,
    pub functions: Seq<Option<FunctionHeapData>>,
}

impl HeapView {
    /// The heap before anything is installed: every fixed slot is there and
    /// is empty.
    pub open spec fn reserved() -> HeapView {
        HeapView {
            objects: Seq::new((LAST_BUILTIN_OBJECT_INDEX + 1) as nat, |i: int| None),
            functions: Seq::new(
                (LAST_BUILTIN_OBJECT_INDEX - FIRST_CONSTRUCTOR_INDEX + 1) as nat,
                |i: int| None,
            ),
        }
    }

    /// The fixed slots exist, and a constructor's function record is there
    /// only where the constructor's object is.
    pub open spec fn wf(self) -> bool {
        &&& self.objects.len() > LAST_BUILTIN_OBJECT_INDEX
        &&& self.functions.len() > LAST_BUILTIN_OBJECT_INDEX - FIRST_CONSTRUCTOR_INDEX
        &&& forall|j: int|
            #![trigger self.functions[j]]
            0 <= j <= LAST_BUILTIN_OBJECT_INDEX - FIRST_CONSTRUCTOR_INDEX
                && self.functions[j] is Some
                ==> self.objects[FIRST_CONSTRUCTOR_INDEX + j] is Some
    }

    /// The handle names a slot of the object arena that holds a record.
    pub open spec fn object_populated(self, handle: ObjectIndex) -> bool {
        handle.0 < self.objects.len() && self.objects[handle.0 as int] is Some
    }

    /// The handle names a slot of the function arena that holds a record.
    pub open spec fn function_populated(self, handle: FunctionIndex) -> bool {
        handle.0 < self.functions.len() && self.functions[handle.0 as int] is Some
    }

    /// The handle of the object in the fixed slot `index`, where the slot
    /// holds a record.
    pub open spec fn builtin_object(self, index: BuiltinObjectIndexes) -> Option<ObjectIndex> {
        if self.object_populated(index.spec_object_index()) {
            Some(index.spec_object_index())
        } else {
            None
        }
    }

    /// The handle of the function record paired with the constructor slot
    /// `index`, where there is such a record.
    pub open spec fn builtin_function(self, index: BuiltinObjectIndexes) -> Option<
        FunctionIndex,
    > {
        if index.spec_is_constructor() && self.function_populated(
            spec_get_constructor_index(index),
        ) {
            Some(spec_get_constructor_index(index))
        } else {
            None
        }
    }

    /// What resolving an object handle gives.
    pub open spec fn resolve_object(self, handle: ObjectIndex) -> Result<ObjectView, HeapError> {
        if self.object_populated(handle) {
            Ok(self.objects[handle.0 as int]->0)
        } else {
            Err(HeapError::InvalidHandle)
        }
    }

    /// What resolving a function handle gives.
    pub open spec fn resolve_function(self, handle: FunctionIndex) -> Result<
        FunctionHeapData,
        HeapError,
    > {
        if self.function_populated(handle) {
            Ok(self.functions[handle.0 as int]->0)
        } else {
            Err(HeapError::InvalidHandle)
        }
    }

    /// Every fixed slot holds a record: the object of every well-known
    /// object, and the function record of every constructor.
    pub open spec fn bootstrapped(self) -> bool {
        &&& self.wf()
        &&& forall|i: int|
            #![trigger self.objects[i]]
            0 <= i <= LAST_BUILTIN_OBJECT_INDEX ==> self.objects[i] is Some
        &&& forall|j: int|
            #![trigger self.functions[j]]
            0 <= j <= LAST_BUILTIN_OBJECT_INDEX - FIRST_CONSTRUCTOR_INDEX
                ==> self.functions[j] is Some
    }

    /// Every object record of `self` is still in `later`, in its slot and
    /// unchanged.
    pub open spec fn objects_kept_by(self, later: HeapView) -> bool {
        &&& self.objects.len() <= later.objects.len()
        &&& forall|i: int|
            #![trigger self.objects[i]]
            0 <= i < self.objects.len() && self.objects[i] is Some
                ==> later.objects[i] == self.objects[i]
    }
}

/// The arena that owns every heap-resident entity. Entities refer to one
/// another by handle only.
#[derive(Debug, PartialEq, Eq)]
pub struct Heap {
    objects: Vec<Option<ObjectHeapData>>,
    functions: Vec<Option<FunctionHeapData>>,
}

impl View for Heap {
    type V = HeapView;

    closed spec fn view(&self) -> HeapView {
        HeapView {
            objects: Seq::new(
                self.objects@.len(),
                |i: int|
                    match self.objects@[i] {
                        Some(data) => Some(data@),
                        None => None,
                    },
            ),
            functions: self.functions@,
        }
    }
}

impl Heap {
    /// Validity of a heap: see [`HeapView::wf`].
    pub open spec fn wf(&self) -> bool {
        self@.wf()
    }

    /// A heap whose fixed slots are reserved and empty.
    pub fn new() -> (r: Heap)
        ensures
            r.wf(),
            r@ == HeapView::reserved(),
    {
        let mut objects: Vec<Option<ObjectHeapData>> = Vec::new();
        let mut functions: Vec<Option<FunctionHeapData>> = Vec::new();
        let mut i: u32 = 0;
        while i <= LAST_BUILTIN_OBJECT_INDEX
            invariant
                i <= LAST_BUILTIN_OBJECT_INDEX + 1,
                objects@.len() == i,
                functions@.len() == (if i >= FIRST_CONSTRUCTOR_INDEX {
                    i - FIRST_CONSTRUCTOR_INDEX
                } else {
                    0
                }),
                forall|k: int| 0 <= k < objects@.len() ==> objects@[k] is None,
                forall|k: int| 0 <= k < functions@.len() ==> functions@[k] is None,
            decreases LAST_BUILTIN_OBJECT_INDEX + 1 - i,
        {
            objects.push(None);
            if i >= FIRST_CONSTRUCTOR_INDEX {
                functions.push(None);
            }
            i += 1;
        }
        let r = Heap { objects, functions };
        assert(r@.objects =~= HeapView::reserved().objects);
        assert(r@.functions =~= HeapView::reserved().functions);
        r
    }

    /// Fills the fixed slot `index` with an ordinary object whose
    /// [[Prototype]] is `prototype` (`None`: it has none, as befits the root
    /// of the prototype chain) and whose own properties are exactly
    /// `entries`. With `is_constructor`, the paired slot of the function arena
    /// gets a record that names the new object, declares no parameter and
    /// has no name.
    ///
    /// A slot is filled once: on a slot that holds a record this fails with
    /// `DuplicateSlot`. Asking for a function record on a slot that has no
    /// paired function slot fails with `InvalidHandle`. A failed call leaves
    /// the heap as it was.
    pub fn insert_builtin_object(
        &mut self,
        index: BuiltinObjectIndexes,
        is_constructor: bool,
        prototype: Option<Object>,
        entries: Vec<ObjectEntry>,
    ) -> (r: Result<ObjectIndex, HeapError>)
        requires
            old(self).wf(),
        ensures
            final(self).wf(),
            r == (if old(self)@.object_populated(index.spec_object_index()) {
                Err::<ObjectIndex, HeapError>(HeapError::DuplicateSlot)
            } else if is_constructor && !index.spec_is_constructor() {
                Err(HeapError::InvalidHandle)
            } else {
                Ok(index.spec_object_index())
            }),
            r is Err ==> final(self)@ == old(self)@,
            old(self)@.objects_kept_by(final(self)@),
            r is Ok ==> final(self)@.objects == old(self)@.objects.update(
                index.spec_index() as int,
                Some(ObjectView { prototype, properties: entries@ }),
            ),
            r is Ok && !is_constructor ==> final(self)@.functions == old(self)@.functions,
            r is Ok && is_constructor ==> final(self)@.functions == old(self)@.functions.update(
                spec_get_constructor_index(index).0 as int,
                Some(
                    FunctionHeapData {
                        object_index: Some(index.spec_object_index()),
                        length: 0,
                        initial_name: Value::Null,
                    },
                ),
            ),
    {
        let handle = index.object_index();
        let slot: usize = handle.into_index();
        if self.objects[slot].is_some() {
            return Err(HeapError::DuplicateSlot);
        }
        if is_constructor {
            if !index.is_constructor() {
                return Err(HeapError::InvalidHandle);
            }
            let paired: usize = get_constructor_index(index).into_index();
            self.functions[paired] = Some(
                FunctionHeapData {
                    object_index: Some(handle),
                    length: 0,
                    initial_name: Value::Null,
                },
            );
        }
        self.objects[slot] = Some(ObjectHeapData::new(prototype, entries));
        assert(self@.objects =~= old(self)@.objects.update(
            index.spec_index() as int,
            Some(ObjectView { prototype, properties: entries@ }),
        ));
        Ok(handle)
    }

    /// The object record that `handle` names. Fails with `InvalidHandle`
    /// where the slot is empty or lies outside the arena.
    pub fn object(&self, handle: ObjectIndex) -> (r: Result<&ObjectHeapData, HeapError>)
        ensures
            match r {
                Ok(data) => Ok::<ObjectView, HeapError>(data@) == self@.resolve_object(handle),
                Err(e) => Err::<ObjectView, HeapError>(e) == self@.resolve_object(handle),
            },
    {
        let slot: usize = handle.into_index();
        if slot < self.objects.len() {
            match &self.objects[slot] {
                Some(data) => Ok(data),
                None => Err(HeapError::InvalidHandle),
            }
        } else {
            Err(HeapError::InvalidHandle)
        }
    }

    /// The function record that `handle` names. Fails with `InvalidHandle`
    /// where the slot is empty or lies outside the arena.
    pub fn function(&self, handle: FunctionIndex) -> (r: Result<&FunctionHeapData, HeapError>)
        ensures
            match r {
                Ok(data) => Ok::<FunctionHeapData, HeapError>(*data) == self@.resolve_function(
                    handle,
                ),
                Err(e) => Err::<FunctionHeapData, HeapError>(e) == self@.resolve_function(handle),
            },
    {
        let slot: usize = handle.into_index();
        if slot < self.functions.len() {
            match &self.functions[slot] {
                Some(data) => Ok(data),
                None => Err(HeapError::InvalidHandle),
            }
        } else {
            Err(HeapError::InvalidHandle)
        }
    }

    /// Fills the function slot paired with the constructor slot `index` with
    /// the record of a function of `length` parameters and the given name;
    /// the record names the constructor's object, which must be installed.
    ///
    /// Fails with `InvalidHandle` where `index` is no constructor slot or its
    /// object is not installed, and with `DuplicateSlot` where the function
    /// slot holds a record. A failed call leaves the heap as it was.
    pub fn insert_builtin_function(
        &mut self,
        index: BuiltinObjectIndexes,
        length: u8,
        initial_name: Value,
    ) -> (r: Result<FunctionIndex, HeapError>)
        requires
            old(self).wf(),
        ensures
            final(self).wf(),
            r == (if !index.spec_is_constructor() || !old(self)@.object_populated(
                index.spec_object_index(),
            ) {
                Err::<FunctionIndex, HeapError>(HeapError::InvalidHandle)
            } else if old(self)@.function_populated(spec_get_constructor_index(index)) {
                Err(HeapError::DuplicateSlot)
            } else {
                Ok(spec_get_constructor_index(index))
            }),
            r is Err ==> final(self)@ == old(self)@,
            final(self)@.objects == old(self)@.objects,
            r is Ok ==> final(self)@.functions == old(self)@.functions.update(
                spec_get_constructor_index(index).0 as int,
                Some(
                    FunctionHeapData {
                        object_index: Some(index.spec_object_index()),
                        length,
                        initial_name,
                    },
                ),
            ),
    {
        if !index.is_constructor() {
            return Err(HeapError::InvalidHandle);
        }
        let object = index.object_index();
        if self.objects[object.into_index()].is_none() {
            return Err(HeapError::InvalidHandle);
        }
        let handle = get_constructor_index(index);
        let slot: usize = handle.into_index();
        if self.functions[slot].is_some() {
            return Err(HeapError::DuplicateSlot);
        }
        self.functions[slot] = Some(
            FunctionHeapData { object_index: Some(object), length, initial_name },
        );
        assert(self@.objects =~= old(self)@.objects);
        Ok(handle)
    }

    /// Puts a new ordinary object into a fresh slot at the end of the object
    /// arena and returns its handle. The arena must have room for a slot
    /// that a handle can name.
    pub fn create_object(&mut self, prototype: Option<Object>, entries: Vec<ObjectEntry>) -> (r:
        ObjectIndex)
        requires
            old(self).wf(),
            old(self)@.objects.len() <= u32::MAX,
        ensures
            final(self).wf(),
            r.0 == old(self)@.objects.len(),
            final(self)@.objects == old(self)@.objects.push(
                Some(ObjectView { prototype, properties: entries@ }),
            ),
            final(self)@.functions == old(self)@.functions,
            old(self)@.objects_kept_by(final(self)@),
    {
        let slot: usize = self.objects.len();
        self.objects.push(Some(ObjectHeapData::new(prototype, entries)));
        assert(self@.objects =~= old(self)@.objects.push(
            Some(ObjectView { prototype, properties: entries@ }),
        ));
        ObjectIndex::from_index(slot)
    }

    /// Puts the record of a new function with the given name and number of
    /// parameters into a fresh slot at the end of the function arena and
    /// returns its handle. The record names no object: the function has no
    /// properties of its own yet. The last argument has no part in the
    /// record. The arena must have room for a slot that a handle can name.
    pub fn create_function(&mut self, name: Value, length: u8, _also_constructible: bool) -> (r:
        FunctionIndex)
        requires
            old(self).wf(),
            old(self)@.functions.len() <= u32::MAX,
        ensures
            final(self).wf(),
            r.0 == old(self)@.functions.len(),
            final(self)@.functions == old(self)@.functions.push(
                Some(FunctionHeapData { object_index: None, length, initial_name: name }),
            ),
            final(self)@.objects == old(self)@.objects,
    {
        let slot: usize = self.functions.len();
        self.functions.push(
            Some(FunctionHeapData { object_index: None, length, initial_name: name }),
        );
        assert(self@.objects =~= old(self)@.objects);
        FunctionIndex::from_index(slot)
    }

    /// The handle of the well-known object of slot `index`, if it has been
    /// installed.
    pub fn builtin_object(&self, index: BuiltinObjectIndexes) -> (r: Option<ObjectIndex>)
        requires
            self.wf(),
        ensures
            r == self@.builtin_object(index),
    {
        let handle = index.object_index();
        if self.objects[handle.into_index()].is_some() {
            Some(handle)
        } else {
            None
        }
    }

    /// The handle of the function record paired with the constructor slot
    /// `index`, if it has been installed. A slot that is no constructor's has
    /// none.
    pub fn builtin_function(&self, index: BuiltinObjectIndexes) -> (r: Option<FunctionIndex>)
        requires
            self.wf(),
        ensures
            r == self@.builtin_function(index),
    {
        if !index.is_constructor() {
            return None;
        }
        let handle = get_constructor_index(index);
        if self.functions[handle.into_index()].is_some() {
            Some(handle)
        } else {
            None
        }
    }

    /// Whether every fixed slot holds a record.
    pub fn is_bootstrapped(&self) -> (r: bool)
        requires
            self.wf(),
        ensures
            r == self@.bootstrapped(),
    {
        let mut i: usize = 0;
        while i <= LAST_BUILTIN_OBJECT_INDEX as usize
            invariant
                self.wf(),
                i <= LAST_BUILTIN_OBJECT_INDEX + 1,
                forall|k: int| 0 <= k < i ==> (#[trigger] self@.objects[k]) is Some,
            decreases LAST_BUILTIN_OBJECT_INDEX + 1 - i,
        {
            if self.objects[i].is_none() {
                assert(self@.objects[i as int] is None);
                return false;
            }
            i += 1;
        }
        let mut j: usize = 0;
        while j <= (LAST_BUILTIN_OBJECT_INDEX - FIRST_CONSTRUCTOR_INDEX) as usize
            invariant
                self.wf(),
                j <= LAST_BUILTIN_OBJECT_INDEX - FIRST_CONSTRUCTOR_INDEX + 1,
                forall|k: int|
                    0 <= k <= LAST_BUILTIN_OBJECT_INDEX ==> (#[trigger] self@.objects[k]) is Some,
                forall|k: int| 0 <= k < j ==> (#[trigger] self@.functions[k]) is Some,
            decreases LAST_BUILTIN_OBJECT_INDEX - FIRST_CONSTRUCTOR_INDEX + 1 - j,
        {
            if self.functions[j].is_none() {
                assert(self@.functions[j as int] is None);
                return false;
            }
            j += 1;
        }
        true
    }
}

} // verus!
