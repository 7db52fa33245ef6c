//! Opaque handles and the table that gives them meaning.
//!
//! The host never sees an object of the bridge, only a [`Handle`]: a slot
//! number and a generation. A [`HandleTable`] owns the objects. A slot is
//! used again once its object is released, but under the next generation,
//! so a handle that was released never names a later object.

use crate::error::BridgeError;
use vstd::prelude::*;

verus! {

/// The token that stands for one object on the host's side.
#[derive(Clone, Copy, Debug, PartialEq, Eq, Structural)]
pub struct Handle {
    /// The slot's number, counted from one; zero belongs to no slot.
    pub slot: u32,
    /// Which occupant of the slot is meant.
    pub generation: u32,
}

impl Handle {
    /// The handle that names nothing.
    pub open spec fn spec_null() -> Handle {
        Handle { slot: 0, generation: 0 }
    }

    /// Whether this is the handle that names nothing.
    pub open spec fn spec_is_null(self) -> bool {
        self.slot == 0 && self.generation == 0
    }

    /// The handle as one number: the generation in the upper half, the slot
    /// in the lower.
    pub open spec fn spec_to_raw(self) -> u64 {
        (self.generation * 0x1_0000_0000 + self.slot) as u64
    }

    /// The handle that a number stands for.
    pub open spec fn spec_from_raw(raw: u64) -> Handle {
        Handle { slot: (raw % 0x1_0000_0000) as u32, generation: (raw / 0x1_0000_0000) as u32 }
    }

    /// The handle that names nothing.
    #[verifier::when_used_as_spec(spec_null)]
    pub fn null() -> (h: Handle)
        ensures
            h == Handle::spec_null(),
    {
        Handle { slot: 0, generation: 0 }
    }

    /// Whether this is the handle that names nothing.
    #[verifier::when_used_as_spec(spec_is_null)]
    pub fn is_null(self) -> (b: bool)
        ensures
            b == self.spec_is_null(),
    {
        self.slot == 0 && self.generation == 0
    }

    /// Packs the handle into the number that crosses the boundary.
    #[verifier::when_used_as_spec(spec_to_raw)]
    pub fn to_raw(self) -> (raw: u64)
        ensures
            raw == self.spec_to_raw(),
    {
        let upper: u64 = self.generation as u64;
        let lower: u64 = self.slot as u64;
        upper * 0x1_0000_0000 + lower
    }

    /// Unpacks a number that came back over the boundary.
    #[verifier::when_used_as_spec(spec_from_raw)]
    pub fn from_raw(raw: u64) -> (h: Handle)
        ensures
            h == Handle::spec_from_raw(raw),
    {
        let lower: u64 = raw % 0x1_0000_0000;
        let upper: u64 = raw / 0x1_0000_0000;
        Handle { slot: lower as u32, generation: upper as u32 }
    }
}

/// Packing a handle and unpacking the number gives the handle back, and the
/// other way round; zero, and only zero, is the null handle.
pub proof fn lemma_raw_round_trip(h: Handle, raw: u64)
    ensures
        Handle::spec_from_raw(h.spec_to_raw()) == h,
        Handle::spec_from_raw(raw).spec_to_raw() == raw,
        h.spec_to_raw() == 0 <==> h.spec_is_null(),
        Handle::spec_from_raw(raw).spec_is_null() <==> raw == 0,
{
}

/// What one slot of a table holds.
enum Slot<T> {
    /// An object, under the generation its handle carries.
    Occupied { generation: u32, value: T },
    /// Nothing; the next occupant gets this generation.
    Vacant { generation: u32 },
    /// Nothing, for good: every generation has been handed out.
    Retired,
}

/// The objects of one kind that the host holds handles to.
pub struct HandleTable<T> {
    slots: Vec<Slot<T>>,
    /// The vacant slots, each once, as indices into `slots`.
    free: Vec<u32>,
}

impl<T> View for HandleTable<T> {
    type V = Map<Handle, T>;

    /// The live handles, each with its object.
    closed spec fn view(&self) -> Map<Handle, T> {
        Map::new(|h: Handle| self.live(h), |h: Handle| self.object(h))
    }
}

impl<T> HandleTable<T> {
    spec fn live(&self, h: Handle) -> bool {
        &&& 1 <= h.slot <= self.slots@.len()
        &&& self.slots@[h.slot - 1] matches Slot::Occupied { generation, .. }
        &&& generation == h.generation
    }

    spec fn object(&self, h: Handle) -> T {
        match self.slots@[h.slot - 1] {
            Slot::Occupied { value, .. } => value,
            _ => arbitrary(),
        }
    }

    /// Every handle that this table has ever given out, live or released.
    pub closed spec fn issued(&self) -> Set<Handle> {
        Set::new(
            |h: Handle|
                {
                    &&& 1 <= h.slot <= self.slots@.len()
                    &&& match self.slots@[h.slot - 1] {
                        Slot::Occupied { generation, .. } => h.generation <= generation,
                        Slot::Vacant { generation } => h.generation < generation,
                        Slot::Retired => true,
                    }
                },
        )
    }

    /// The table's invariant: the free list names vacant slots, each once.
    pub closed spec fn wf(&self) -> bool {
        &&& self.slots@.len() <= u32::MAX
        &&& forall|k: int|
            0 <= k < self.free@.len() ==> {
                &&& (#[trigger] self.free@[k]) < self.slots@.len()
                &&& self.slots@[self.free@[k] as int] is Vacant
            }
        &&& forall|j: int, k: int|
            0 <= j < k < self.free@.len() ==> self.free@[j] != self.free@[k]
    }

    /// Whether one more object can be given a handle.
    pub closed spec fn spec_has_room(&self) -> bool {
        self.free@.len() > 0 || self.slots@.len() < u32::MAX
    }

    /// Whether `h` was given out by this table and names nothing any more.
    pub open spec fn stale(&self, h: Handle) -> bool {
        self.issued().contains(h) && !self@.contains_key(h)
    }

    /// Whether `later` may follow this table in time: what was given out
    /// stays given out, and no handle that was given out and has been
    /// released names an object again.
    pub open spec fn precedes(&self, later: &Self) -> bool {
        forall|h: Handle| #[trigger]
            self.issued().contains(h) ==> later.issued().contains(h) && (later@.contains_key(h)
                ==> self@.contains_key(h))
    }

    /// A live handle is one that the table gave out, and is not null.
    pub proof fn lemma_live_handles(&self, h: Handle)
        ensures
            self@.contains_key(h) ==> self.issued().contains(h) && !h.spec_is_null(),
    {
    }

    /// A table without objects, which has given out no handle yet.
    pub fn new() -> (table: Self)
        ensures
            table.wf(),
            table@ == Map::<Handle, T>::empty(),
            table.issued() == Set::<Handle>::empty(),
            table.spec_has_room(),
    {
        let table = HandleTable { slots: Vec::new(), free: Vec::new() };
        table
    }

    /// Whether one more object can be given a handle.
    #[verifier::when_used_as_spec(spec_has_room)]
    pub fn has_room(&self) -> (b: bool)
        ensures
            b == self.spec_has_room(),
    {
        self.free.len() > 0 || self.slots.len() < 0xFFFF_FFFF
    }

    /// Whether `handle` names an object of this table.
    pub fn contains(&self, handle: Handle) -> (b: bool)
        ensures
            b == self@.contains_key(handle),
    {
        if handle.slot == 0 || handle.slot as usize > self.slots.len() {
            return false;
        }
        let index: usize = (handle.slot - 1) as usize;
        match &self.slots[index] {
            Slot::Occupied { generation, .. } => *generation == handle.generation,
            _ => false,
        }
    }

    /// The object that `handle` names, if it names one.
    pub fn get(&self, handle: Handle) -> (object: Option<&T>)
        ensures
            self@.contains_key(handle) ==> object == Some(&self@[handle]),
            !self@.contains_key(handle) ==> object is None,
    {
        if handle.slot == 0 || handle.slot as usize > self.slots.len() {
            return None;
        }
        let index: usize = (handle.slot - 1) as usize;
        match &self.slots[index] {
            Slot::Occupied { generation, value } => {
                if *generation == handle.generation {
                    Some(value)
                } else {
                    None
                }
            },
            _ => None,
        }
    }

    /// The object that `handle` names, to be changed in place.
    pub(crate) fn get_mut(&mut self, handle: Handle) -> (object: Option<&mut T>)
        requires
            old(self).wf(),
        ensures
            match object {
                Some(o) => {
                    &&& old(self)@.contains_key(handle)
                    &&& *o == old(self)@[handle]
                    &&& final(self)@ == old(self)@.insert(handle, *final(o))
                    &&& final(self).wf()
                    &&& final(self).issued() == old(self).issued()
                    &&& final(self).spec_has_room() == old(self).spec_has_room()
                    &&& old(self).precedes(final(self))
                },
                None => !old(self)@.contains_key(handle) && *final(self) == *old(self),
            },
    {
        if !self.contains(handle) {
            return None;
        }
        let index: usize = (handle.slot - 1) as usize;
        match &mut self.slots[index] {
            Slot::Occupied { value, .. } => Some(value),
            _ => {
                proof {
                    assert(false);
                }
                None
            },
        }
    }

    /// Takes `value` into the table and gives it a handle that the table has
    /// never given out before.
    pub fn insert(&mut self, value: T) -> (handle: Handle)
        requires
            old(self).wf(),
            old(self).spec_has_room(),
        ensures
            final(self).wf(),
            !handle.spec_is_null(),
            !old(self).issued().contains(handle),
            !old(self)@.contains_key(handle),
            final(self).issued() == old(self).issued().insert(handle),
            final(self)@ == old(self)@.insert(handle, value),
            old(self).precedes(final(self)),
    {
        if self.free.len() > 0 {
            let reused: u32 = self.free.pop().unwrap();
            let index: usize = reused as usize;
            let generation: u32 = match &self.slots[index] {
                Slot::Vacant { generation } => *generation,
                _ => {
                    proof {
                        assert(false);
                    }
                    0
                },
            };
            self.slots.push(Slot::Occupied { generation, value });
            let _ = self.slots.swap_remove(index);
            Handle { slot: reused + 1, generation }
        } else {
            let count: usize = self.slots.len();
            self.slots.push(Slot::Occupied { generation: 0, value });
            Handle { slot: (count + 1) as u32, generation: 0 }
        }
    }

    /// Takes the object that `handle` names out of the table and hands it
    /// to the caller; the handle names nothing from then on. Where it names
    /// nothing already, nothing changes and nothing is handed out.
    pub fn release(&mut self, handle: Handle) -> (released: Option<T>)
        requires
            old(self).wf(),
        ensures
            final(self).wf(),
            final(self).issued() == old(self).issued(),
            final(self)@ == old(self)@.remove(handle),
            old(self).precedes(final(self)),
            old(self).spec_has_room() ==> final(self).spec_has_room(),
            match released {
                Some(object) => old(self)@.contains_key(handle) && object == old(self)@[handle],
                None => !old(self)@.contains_key(handle) && *final(self) == *old(self),
            },
    {
        if !self.contains(handle) {
            return None;
        }
        let index: usize = (handle.slot - 1) as usize;
        if handle.generation < u32::MAX {
            self.slots.push(Slot::Vacant { generation: handle.generation + 1 });
            self.free.push(handle.slot - 1);
        } else {
            self.slots.push(Slot::Retired);
        }
        let slot = self.slots.swap_remove(index);
        match slot {
            Slot::Occupied { value, .. } => Some(value),
            _ => {
                proof {
                    assert(false);
                }
                None
            },
        }
    }

    /// Succession is reflexive and transitive: any run of takings-in and
    /// releases is a succession.
    pub proof fn lemma_succession(&self, between: &Self, later: &Self)
        requires
            self.precedes(between),
            between.precedes(later),
        ensures
            self.precedes(self),
            self.precedes(later),
    {
    }

    /// Along a succession a released handle stays released: once given up,
    /// a handle names nothing again, whatever is taken in or released
    /// afterwards.
    pub proof fn lemma_released_for_good(&self, later: &Self, h: Handle)
        requires
            self.precedes(later),
            self.stale(h),
        ensures
            later.stale(h),
    {
    }
}

/// Releases the object that `ptr` names in `table` and hands it to the
/// caller. This is the rule for every kind of object that the host holds a
/// handle to: releasing the null handle does nothing; a handle that is
/// neither null nor names an object of the table is reported, and nothing
/// changes.
pub fn release_handle<T>(table: &mut HandleTable<T>, ptr: Handle) -> (r: Result<
    Option<T>,
    BridgeError,
>)
    requires
        old(table).wf(),
    ensures
        final(table).wf(),
        final(table).issued() == old(table).issued(),
        final(table)@ == old(table)@.remove(ptr),
        old(table).precedes(final(table)),
        old(table).spec_has_room() ==> final(table).spec_has_room(),
        ptr.spec_is_null() ==> r == Ok::<Option<T>, BridgeError>(None),
        match r {
            Ok(Some(object)) => old(table)@.contains_key(ptr) && object == old(table)@[ptr],
            Ok(None) => ptr.spec_is_null() && *final(table) == *old(table),
            Err(e) => {
                &&& !ptr.spec_is_null()
                &&& !old(table)@.contains_key(ptr)
                &&& e == BridgeError::InvalidHandle
                &&& *final(table) == *old(table)
            },
        },
{
    if ptr.is_null() {
        return Ok(None);
    }
    match table.release(ptr) {
        Some(object) => Ok(Some(object)),
        None => Err(BridgeError::InvalidHandle),
    }
}

} // verus!
