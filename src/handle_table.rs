//! A table of native resources addressed by opaque 64-bit handles.
//!
//! A handle packs a slot index and the slot's generation. Destroying a handle
//! frees the slot's payload and bumps its generation, so the same slot can be
//! reused while every handle that was issued for it before keeps resolving to
//! nothing. The value 0 is never a handle.
use vstd::prelude::*;

verus! {

/// Number of distinct handle values per generation (the low 32 bits).
pub const GENERATION_STRIDE: u64 = 0x1_0000_0000;

/// The largest generation a slot can hand out.
pub const MAX_GENERATION: u64 = 0xFFFF_FFFF;

/// The largest number of slots a table holds (slot indices stay below it).
pub const MAX_SLOTS: usize = 0xFFFF_FFFF;

/// The handle value of slot `index` at generation `generation`.
pub open spec fn handle_of(index: int, generation: int) -> int {
    generation * GENERATION_STRIDE + index + 1
}

/// The slot index that handle `h` names (meaningful when `h % GENERATION_STRIDE != 0`).
pub open spec fn slot_of(h: u64) -> int {
    (h % GENERATION_STRIDE) as int - 1
}

/// The generation that handle `h` names.
pub open spec fn generation_of(h: u64) -> int {
    (h / GENERATION_STRIDE) as int
}

/// Packing a slot index and a generation gives a non-zero `u64` from which
/// both can be read back.
proof fn lemma_handle_round_trip(index: int, generation: int)
    requires
        0 <= index < MAX_SLOTS,
        0 <= generation <= MAX_GENERATION,
    ensures
        0 < handle_of(index, generation) <= u64::MAX,
        slot_of(handle_of(index, generation) as u64) == index,
        generation_of(handle_of(index, generation) as u64) == generation,
{
    let h = handle_of(index, generation);
    assert(generation * GENERATION_STRIDE <= MAX_GENERATION * GENERATION_STRIDE) by (nonlinear_arith)
        requires
            0 <= generation <= MAX_GENERATION,
    ;
    vstd::arithmetic::div_mod::lemma_fundamental_div_mod_converse(
        h,
        GENERATION_STRIDE as int,
        generation,
        index + 1,
    );
}

/// A value with non-zero slot bits is the handle of the slot and generation it names.
proof fn lemma_handle_determined(h: u64)
    requires
        h % GENERATION_STRIDE != 0,
    ensures
        h == handle_of(slot_of(h), generation_of(h)),
        0 <= slot_of(h) < MAX_SLOTS,
        0 <= generation_of(h) <= MAX_GENERATION,
{
    vstd::arithmetic::div_mod::lemma_fundamental_div_mod(h as int, GENERATION_STRIDE as int);
    assert(h / GENERATION_STRIDE <= MAX_GENERATION) by (nonlinear_arith)
        requires
            h <= u64::MAX,
    ;
}

struct Slot<T> {
    /// Generation of the handle that the slot hands out next, or holds now.
    /// `MAX_GENERATION + 1` marks a slot that has used up its generations.
    generation: u64,
    payload: Option<T>,
}

/// Owns every resource that has been given a handle and not destroyed yet.
pub struct HandleTable<T> {
    slots: Vec<Slot<T>>,
}

impl<T> HandleTable<T> {
    /// The table's invariant.
    pub closed spec fn wf(&self) -> bool {
        &&& self.slots@.len() <= MAX_SLOTS
        &&& forall|i: int|
            0 <= i < self.slots@.len() ==> {
                let s = #[trigger] self.slots@[i];
                &&& s.generation <= MAX_GENERATION + 1
                &&& s.generation == MAX_GENERATION + 1 ==> s.payload is None
            }
    }

    /// Handle `h` names a slot of the table at the slot's current generation,
    /// and that slot holds a resource.
    pub closed spec fn is_live(&self, h: u64) -> bool {
        let i = slot_of(h);
        &&& h % GENERATION_STRIDE != 0
        &&& i < self.slots@.len()
        &&& self.slots@[i].generation == generation_of(h)
        &&& self.slots@[i].payload is Some
    }

    /// Handle `h` has been handed out by this table at some point, whether or
    /// not it has been destroyed since.
    pub closed spec fn issued(&self, h: u64) -> bool {
        let i = slot_of(h);
        &&& h % GENERATION_STRIDE != 0
        &&& i < self.slots@.len()
        &&& (generation_of(h) < self.slots@[i].generation || (generation_of(h)
            == self.slots@[i].generation && self.slots@[i].payload is Some))
    }

    /// The live handles and the resource each one owns.
    pub closed spec fn view(&self) -> Map<u64, T> {
        Map::new(|h: u64| self.is_live(h), |h: u64| self.slots@[slot_of(h)].payload->0)
    }

    /// Every slot is in use or has used up its generations, and no slot can be added.
    pub closed spec fn is_full(&self) -> bool {
        &&& self.slots@.len() == MAX_SLOTS
        &&& forall|i: int|
            0 <= i < self.slots@.len() ==> {
                let s = #[trigger] self.slots@[i];
                s.payload is Some || s.generation > MAX_GENERATION
            }
    }

    /// Number of slots in use or used up; a table with fewer than
    /// `MAX_SLOTS` of them always has room.
    pub closed spec fn slot_count(&self) -> nat {
        self.slots@.len()
    }

    /// An empty table.
    pub fn new() -> (t: Self)
        ensures
            t.wf(),
            t.slot_count() == 0,
            t@ == Map::<u64, T>::empty(),
            forall|h: u64| !t.issued(h),
    {
        let t = HandleTable { slots: Vec::new() };
        assert(t@ =~= Map::<u64, T>::empty());
        t
    }

    /// The resource that handle `h` names, if `h` is live.
    pub fn resolve(&self, h: u64) -> (r: Option<&T>)
        requires
            self.wf(),
        ensures
            r.is_some() == self@.contains_key(h),
            r.is_some() ==> *r.unwrap() == self@[h],
    {
        let low = h % GENERATION_STRIDE;
        if low == 0 {
            return None;
        }
        let i = (low - 1) as usize;
        if i >= self.slots.len() {
            return None;
        }
        let slot = &self.slots[i];
        if slot.generation != h / GENERATION_STRIDE {
            return None;
        }
        match &slot.payload {
            Some(v) => Some(v),
            None => None,
        }
    }

    /// Moves `resource` into a free slot and returns its new handle, or gives
    /// the resource back to be dropped when the table is full.
    pub fn insert(&mut self, resource: T) -> (r: Option<u64>)
        requires
            old(self).wf(),
        ensures
            final(self).wf(),
            !old(self).is_full() ==> r is Some,
            old(self).slot_count() < MAX_SLOTS ==> !old(self).is_full(),
            final(self).slot_count() <= old(self).slot_count() + 1,
            match r {
                Some(h) => {
                    &&& h != 0
                    &&& !old(self).issued(h)
                    &&& final(self)@ == old(self)@.insert(h, resource)
                    &&& forall|g: u64| #[trigger]
                        final(self).issued(g) == (old(self).issued(g) || g == h)
                },
                None => {
                    &&& old(self).is_full()
                    &&& final(self)@ == old(self)@
                    &&& forall|g: u64| #[trigger] final(self).issued(g) == old(self).issued(g)
                },
            },
    {
        let n = self.slots.len();
        let mut i: usize = 0;
        while i < n
            invariant
                self.wf(),
                n == self.slots@.len(),
                *self == *old(self),
                0 <= i <= n,
                forall|j: int|
                    0 <= j < i ==> {
                        let s = #[trigger] self.slots@[j];
                        s.payload is Some || s.generation > MAX_GENERATION
                    },
            decreases n - i,
        {
            if self.slots[i].payload.is_none() && self.slots[i].generation <= MAX_GENERATION {
                let g = self.slots[i].generation;
                proof {
                    lemma_handle_round_trip(i as int, g as int);
                }
                let h = g * GENERATION_STRIDE + (i as u64) + 1;
                let ghost before = *self;
                self.slots.set(i, Slot { generation: g, payload: Some(resource) });
                proof {
                    self.lemma_after_slot_change(before, i as int);
                    assert(self@ =~= before@.insert(h, resource));
                }
                return Some(h);
            }
            i += 1;
        }
        if n < MAX_SLOTS {
            proof {
                lemma_handle_round_trip(n as int, 0);
            }
            let h = (n as u64) + 1;
            let ghost before = *self;
            self.slots.push(Slot { generation: 0, payload: Some(resource) });
            proof {
                assert forall|g: u64| #[trigger]
                    self.is_live(g) == (before.is_live(g) || g == h) by {
                    if g % GENERATION_STRIDE != 0 {
                        lemma_handle_determined(g);
                    }
                }
                assert forall|g: u64| #[trigger]
                    self.issued(g) == (before.issued(g) || g == h) by {
                    if g % GENERATION_STRIDE != 0 {
                        lemma_handle_determined(g);
                    }
                }
                assert(self@ =~= before@.insert(h, resource));
            }
            return Some(h);
        }
        proof {
            assert(old(self).is_full());
        }
        None
    }

    /// What changing slot `i` alone does to live and issued handles: only
    /// handles that name slot `i` can change.
    proof fn lemma_after_slot_change(&self, before: Self, i: int)
        requires
            0 <= i < self.slots@.len(),
            self.slots@.len() == before.slots@.len(),
            forall|j: int| 0 <= j < self.slots@.len() && j != i ==> self.slots@[j] == before.slots@[j],
        ensures
            forall|g: u64| slot_of(g) != i ==> #[trigger] self.is_live(g) == before.is_live(g),
            forall|g: u64| slot_of(g) != i ==> #[trigger] self.issued(g) == before.issued(g),
            forall|g: u64|
                slot_of(g) != i && #[trigger] self.is_live(g) ==> self@[g] == before@[g],
            forall|g: u64|
                #![trigger self.is_live(g)]
                #![trigger self.issued(g)]
                g % GENERATION_STRIDE != 0 && slot_of(g) == i ==> {
                    &&& self.is_live(g) == (self.slots@[i].generation == generation_of(g)
                        && self.slots@[i].payload is Some)
                    &&& self.issued(g) == (generation_of(g) < self.slots@[i].generation || (
                    generation_of(g) == self.slots@[i].generation && self.slots@[i].payload is Some))
                    &&& g == handle_of(i, generation_of(g))
                },
    {
        assert forall|g: u64| g % GENERATION_STRIDE != 0 && slot_of(g) == i implies g == handle_of(
            i,
            generation_of(g),
        ) by {
            lemma_handle_determined(g);
        }
    }

    /// Takes the resource of handle `h` out of the table; the handle never
    /// resolves again. Destroying a handle that is not live changes nothing.
    pub fn remove(&mut self, h: u64) -> (r: Option<T>)
        requires
            old(self).wf(),
        ensures
            final(self).wf(),
            r == (if old(self)@.contains_key(h) {
                Some(old(self)@[h])
            } else {
                None::<T>
            }),
            final(self)@ == old(self)@.remove(h),
            forall|g: u64| #[trigger] final(self).issued(g) == old(self).issued(g),
            final(self).slot_count() == old(self).slot_count(),
    {
        let low = h % GENERATION_STRIDE;
        if low == 0 {
            proof {
                assert(self@ =~= old(self)@.remove(h));
            }
            return None;
        }
        let i = (low - 1) as usize;
        if i >= self.slots.len() || self.slots[i].generation != h / GENERATION_STRIDE
            || self.slots[i].payload.is_none() {
            proof {
                assert(self@ =~= old(self)@.remove(h));
            }
            return None;
        }
        let g = self.slots[i].generation;
        let ghost before = *self;
        let slot = &mut self.slots[i];
        let payload = slot.payload.take();
        slot.generation = g + 1;
        proof {
            lemma_handle_determined(h);
            self.lemma_after_slot_change(before, i as int);
            assert(self@ =~= before@.remove(h));
        }
        payload
    }
}

/// Destroying is idempotent: once handle `h` has been destroyed it resolves
/// to nothing, and destroying it again leaves every live handle as it was.
pub proof fn lemma_destroy_idempotent<T>(live: Map<u64, T>, h: u64)
    ensures
        !live.remove(h).contains_key(h),
        live.remove(h).remove(h) == live.remove(h),
{
    assert(live.remove(h).remove(h) =~= live.remove(h));
}

/// A destroyed handle stays destroyed: a new resource gets a handle that was
/// never issued, so no handle destroyed before resolves again.
pub proof fn lemma_destroyed_handle_stays_dead<T>(
    before: HandleTable<T>,
    after: HandleTable<T>,
    stale: u64,
    fresh: u64,
    resource: T,
)
    requires
        before.issued(stale),
        !before@.contains_key(stale),
        !before.issued(fresh),
        after@ == before@.insert(fresh, resource),
    ensures
        !after@.contains_key(stale),
{
}

/// 0 means "no resource": it is never live and never handed out.
pub proof fn lemma_zero_is_never_a_handle<T>(t: HandleTable<T>)
    ensures
        !t@.contains_key(0),
        !t.issued(0),
{
}

} // verus!
