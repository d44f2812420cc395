//! A generational slot table: objects live in reusable slots and are named by
//! handles that pair a slot index with the generation at which the object was
//! inserted, so that a handle to a removed object never names a later one.

use vstd::prelude::*;

verus! {

/// Names one object of a `GenVec`: the slot that holds it and the generation
/// at which it was inserted. Generation 0 is never handed out.
#[derive(Clone, Copy, Debug, PartialEq, Eq, Structural)]
pub struct GenHandle {
    pub idx: u32,
    pub generation: u64,
}

impl GenHandle {
    pub fn new(idx: u32, generation: u64) -> (h: GenHandle)
        ensures
            h.idx == idx,
            h.generation == generation,
    {
        GenHandle { idx, generation }
    }

    /// Forgets the object: a reset handle names nothing.
    pub fn reset(&mut self)
        ensures
            final(self).idx == old(self).idx,
            final(self).generation == 0,
    {
        self.generation = 0;
    }

    /// Whether the handle was ever set (handed out by a table and not reset).
    pub fn is_set(&self) -> (r: bool)
        ensures
            r == (self.generation > 0),
    {
        self.generation > 0
    }

    pub fn id(&self) -> (r: u32)
        ensures
            r == self.idx,
    {
        self.idx
    }
}

/// A slot's occupant together with the generation it was inserted at.
pub struct GenCell<T> {
    pub obj: T,
    generation: u64,
}

impl<T> GenCell<T> {
    pub closed spec fn spec_generation(&self) -> u64 {
        self.generation
    }
}

pub struct GenVec<T> {
    vec: Vec<Option<GenCell<T>>>,
    cur_generation: u64,
}

impl<T> View for GenVec<T> {
    type V = Map<GenHandle, T>;

    /// The live objects, keyed by the handles that name them.
    closed spec fn view(&self) -> Map<GenHandle, T> {
        Map::new(|h: GenHandle| self.is_live(h), |h: GenHandle| self.vec@[h.idx as int]->0.obj)
    }
}

impl<T> GenVec<T> {
    #[verifier::type_invariant]
    closed spec fn inv(self) -> bool {
        &&& self.vec.len() <= u32::MAX
        &&& forall|i: int|
            0 <= i < self.vec.len() && #[trigger] self.vec@[i] is Some ==> 1
                <= self.vec@[i]->0.generation <= self.cur_generation
    }

    /// Number of slots, free or occupied.
    pub closed spec fn slot_count(&self) -> nat {
        self.vec@.len()
    }

    /// The last generation handed out (0 before the first insertion).
    pub closed spec fn generation_counter(&self) -> u64 {
        self.cur_generation
    }

    /// Whether slot `i` holds no object.
    pub closed spec fn slot_free(&self, i: int) -> bool {
        0 <= i < self.vec@.len() && self.vec@[i] is None
    }

    /// The handle that names the object in slot `h.idx`, if any.
    pub closed spec fn is_live(&self, h: GenHandle) -> bool {
        &&& h.idx < self.vec@.len()
        &&& self.vec@[h.idx as int] is Some
        &&& self.vec@[h.idx as int]->0.generation == h.generation
        &&& 1 <= h.generation <= self.cur_generation
    }

    /// `i` is the lowest free slot.
    pub open spec fn is_first_free(&self, i: int) -> bool {
        self.slot_free(i) && forall|j: int| 0 <= j < i ==> !self.slot_free(j)
    }

    pub fn new() -> (s: Self)
        ensures
            s.view() == Map::<GenHandle, T>::empty(),
            s.slot_count() == 0,
            s.generation_counter() == 0,
    {
        let s = GenVec { vec: Vec::new(), cur_generation: 0 };
        assert(s.view() =~= Map::<GenHandle, T>::empty());
        s
    }

    /// Every live handle carries a generation that was handed out, and names
    /// a slot of the table.
    pub proof fn lemma_live_handles_issued(&self)
        ensures
            forall|h: GenHandle|
                #[trigger] self.view().dom().contains(h) ==> 1 <= h.generation
                    <= self.generation_counter() && h.idx < self.slot_count(),
    {
    }

    /// A slot holds at most one object: two live handles with the same slot
    /// are the same handle.
    pub proof fn lemma_one_handle_per_slot(&self, h1: GenHandle, h2: GenHandle)
        requires
            self.view().dom().contains(h1),
            self.view().dom().contains(h2),
            h1.idx == h2.idx,
        ensures
            h1 == h2,
    {
    }

    fn find_unused_idx(&self) -> (r: Option<u32>)
        ensures
            match r {
                Some(i) => self.slot_free(i as int) && forall|j: int|
                    0 <= j < i ==> !self.slot_free(j),
                None => forall|j: int| !self.slot_free(j),
            },
    {
        proof {
            use_type_invariant(self);
        }
        let mut i: usize = 0;
        while i < self.vec.len()
            invariant
                i <= self.vec.len() <= u32::MAX,
                forall|j: int| 0 <= j < i ==> !self.slot_free(j),
            decreases self.vec.len() - i,
        {
            if self.vec[i].is_none() {
                return Some(i as u32);
            }
            i = i + 1;
        }
        None
    }

    /// Inserts `obj` in the lowest free slot (or a new last slot) under a
    /// fresh generation, and returns its handle.
    pub fn add(&mut self, obj: T) -> (h: GenHandle)
        requires
            old(self).generation_counter() < u64::MAX,
            old(self).slot_count() < u32::MAX,
        ensures
            h.generation == old(self).generation_counter() + 1,
            final(self).generation_counter() == h.generation,
            old(self).is_first_free(h.idx as int) ==> final(self).slot_count()
                == old(self).slot_count(),
            !old(self).is_first_free(h.idx as int) ==> (forall|j: int| !old(self).slot_free(j))
                && h.idx == old(self).slot_count() && final(self).slot_count()
                == old(self).slot_count() + 1,
            !old(self).view().dom().contains(h),
            final(self).view() == old(self).view().insert(h, obj),
    {
        proof {
            use_type_invariant(&*self);
        }
        let ghost before = *self;
        self.cur_generation = self.cur_generation + 1;
        let generation = self.cur_generation;
        let unused = self.find_unused_idx();
        assert(self.vec@ == before.vec@);
        assert(forall|j: int| self.slot_free(j) == before.slot_free(j));
        let idx: u32 = match unused {
            Some(i) => i,
            None => self.vec.len() as u32,
        };
        let cell = GenCell { obj, generation };
        let mut slots: Vec<Option<GenCell<T>>> = Vec::new();
        std::mem::swap(&mut slots, &mut self.vec);
        match unused {
            Some(i) => {
                slots.set(i as usize, Some(cell));
            },
            None => {
                slots.push(Some(cell));
            },
        }
        self.vec = slots;
        let h = GenHandle { idx, generation };
        proof {
            assert(!before.is_live(h));
            assert(self.view() =~= before.view().insert(h, obj));
        }
        h
    }

    /// Removes the object that `h` names; a handle that names nothing
    /// (stale, reset or out of range) leaves the table as it was.
    pub fn remove(&mut self, h: &GenHandle)
        ensures
            final(self).view() == old(self).view().remove(*h),
            final(self).generation_counter() == old(self).generation_counter(),
            final(self).slot_count() == old(self).slot_count(),
    {
        proof {
            use_type_invariant(&*self);
        }
        let ghost before = *self;
        let i = h.idx as usize;
        if i >= self.vec.len() {
            assert(self.view() =~= before.view().remove(*h));
            return ;
        }
        let matches = match &self.vec[i] {
            Some(cell) => cell.generation == h.generation,
            None => false,
        };
        if matches {
            let mut slots: Vec<Option<GenCell<T>>> = Vec::new();
            std::mem::swap(&mut slots, &mut self.vec);
            slots.set(i, None);
            self.vec = slots;
        }
        assert(self.view() =~= before.view().remove(*h));
    }

    /// The object that `h` names, if it is live.
    pub fn get(&self, h: &GenHandle) -> (r: Option<&T>)
        ensures
            r == (if self.view().dom().contains(*h) {
                Some(&self.view()[*h])
            } else {
                None
            }),
    {
        proof {
            use_type_invariant(self);
        }
        let i = h.idx as usize;
        if i < self.vec.len() {
            match &self.vec[i] {
                Some(cell) => {
                    if cell.generation == h.generation {
                        return Some(&cell.obj);
                    }
                },
                None => {},
            }
        }
        None
    }

    /// The handle of the object stored in `cell` at slot `idx`.
    pub fn get_handle(cell: &GenCell<T>, idx: usize) -> (h: GenHandle)
        requires
            idx <= u32::MAX,
        ensures
            h.idx == idx,
            h.generation == cell.spec_generation(),
    {
        GenHandle { idx: idx as u32, generation: cell.generation }
    }

    /// The number of slots, free or occupied.
    pub fn len(&self) -> (n: usize)
        ensures
            n == self.slot_count(),
    {
        self.vec.len()
    }

    /// The live object in slot `idx`, with its handle.
    pub fn slot(&self, idx: usize) -> (r: Option<(GenHandle, &T)>)
        ensures
            match r {
                Some((h, o)) => h.idx == idx && self.view().dom().contains(h) && *o
                    == self.view()[h],
                None => forall|h: GenHandle| h.idx == idx ==> !self.view().dom().contains(h),
            },
    {
        proof {
            use_type_invariant(self);
        }
        if idx < self.vec.len() {
            match &self.vec[idx] {
                Some(cell) => {
                    let h = GenHandle { idx: idx as u32, generation: cell.generation };
                    return Some((h, &cell.obj));
                },
                None => {},
            }
        }
        None
    }
}

/// A removed handle never names a later object: after `remove(h)` takes out
/// the object `h` named, the next insertion hands out a different handle and
/// `h` stays dead.
pub proof fn lemma_removed_handle_never_renamed<T>(
    before: GenVec<T>,
    removed: GenVec<T>,
    h: GenHandle,
    after: GenVec<T>,
    added: GenHandle,
    obj: T,
)
    requires
        before.view().dom().contains(h),
        removed.view() == before.view().remove(h),
        removed.generation_counter() == before.generation_counter(),
        added.generation == removed.generation_counter() + 1,
        after.view() == removed.view().insert(added, obj),
    ensures
        added != h,
        !after.view().dom().contains(h),
{
    before.lemma_live_handles_issued();
}

/// A handle that was handed out and is no longer live never becomes live
/// again: an insertion always uses a generation above every one handed out.
pub proof fn lemma_retired_handle_stays_retired<T>(
    before: GenVec<T>,
    after: GenVec<T>,
    added: GenHandle,
    obj: T,
    h: GenHandle,
)
    requires
        added.generation == before.generation_counter() + 1,
        after.view() == before.view().insert(added, obj),
        h.generation <= before.generation_counter(),
        !before.view().dom().contains(h),
    ensures
        !after.view().dom().contains(h),
{
}

} // verus!
