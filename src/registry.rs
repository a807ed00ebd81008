//! The table of live native objects. A handle names a slot and the generation
//! the slot was in when the object was placed there; removing the object moves
//! the slot to its next generation, so a handle of a destroyed object never
//! names a live one again.
use vstd::prelude::*;
use crate::handle::{be_bytes, lemma_intermediate_round_trip, IntermediatePtr, ObjectKind, OpaquePtr};

verus! {

/// Number of slots a table can have, and of generations a slot can go through.
pub const SLOT_LIMIT: u64 = 0x1_0000_0000;

/// The slot an address names.
pub open spec fn slot_of(k: u64) -> int {
    (k >> 32u64) as int
}

/// The generation an address names.
pub open spec fn generation_of(k: u64) -> int {
    (k & 0xffff_ffffu64) as int
}

/// The address of slot `i` in generation `g`.
fn make_address(i: u64, g: u64) -> (r: u64)
    requires
        i < SLOT_LIMIT,
        g < SLOT_LIMIT,
    ensures
        slot_of(r) == i,
        generation_of(r) == g,
{
    let r: u64 = i << 32u64 | g;
    assert((r >> 32u64) == i && (r & 0xffff_ffffu64) == g) by (bit_vector)
        requires
            i < 0x1_0000_0000u64,
            g < 0x1_0000_0000u64,
            r == i << 32u64 | g,
    ;
    r
}

/// An address is fixed by its slot and its generation.
proof fn lemma_address_parts(a: u64, b: u64)
    requires
        slot_of(a) == slot_of(b),
        generation_of(a) == generation_of(b),
    ensures
        a == b,
{
    assert(a == b) by (bit_vector)
        requires
            (a >> 32u64) == (b >> 32u64),
            (a & 0xffff_ffffu64) == (b & 0xffff_ffffu64),
    ;
}

proof fn lemma_address_bounds(a: u64)
    ensures
        0 <= slot_of(a) < SLOT_LIMIT,
        0 <= generation_of(a) < SLOT_LIMIT,
{
    assert((a >> 32u64) < 0x1_0000_0000u64 && (a & 0xffff_ffffu64) < 0x1_0000_0000u64)
        by (bit_vector);
}

struct Slot<T> {
    generation: u64,
    value: Option<T>,
}

/// A table of native objects of one kind, each reachable by its handle.
pub struct Registry<T> {
    kind: ObjectKind,
    slots: Vec<Slot<T>>,
    free: Vec<u64>,
}

impl<T> Registry<T> {
    /// The kind of object the table holds.
    pub closed spec fn kind_spec(&self) -> ObjectKind {
        self.kind
    }

    closed spec fn holds(&self, k: u64) -> bool {
        &&& 0 <= slot_of(k) < self.slots@.len()
        &&& self.slots@[slot_of(k)].value is Some
        &&& self.slots@[slot_of(k)].generation == generation_of(k)
    }

    /// The live objects, by address.
    pub closed spec fn live(&self) -> Map<u64, T> {
        Map::new(|k: u64| self.holds(k), |k: u64| self.slots@[slot_of(k)].value->Some_0)
    }

    /// The addresses of objects that were removed: none of them is handed out again.
    pub closed spec fn retired(&self) -> Set<u64> {
        Set::new(
            |k: u64|
                0 <= slot_of(k) < self.slots@.len() && generation_of(k)
                    < self.slots@[slot_of(k)].generation,
        )
    }

    /// Every slot is in use and no slot can be reused.
    pub closed spec fn is_full(&self) -> bool {
        self.free@.len() == 0 && self.slots@.len() == SLOT_LIMIT
    }

    /// The table's internal invariant.
    pub closed spec fn wf(&self) -> bool {
        &&& self.slots@.len() <= SLOT_LIMIT
        &&& forall|i: int|
            0 <= i < self.slots@.len() ==> {
                &&& self.slots@[i].generation <= SLOT_LIMIT
                &&& self.slots@[i].value is Some ==> self.slots@[i].generation < SLOT_LIMIT
            }
        &&& forall|j: int|
            0 <= j < self.free@.len() ==> {
                &&& self.free@[j] < self.slots@.len()
                &&& self.slots@[self.free@[j] as int].value is None
                &&& self.slots@[self.free@[j] as int].generation < SLOT_LIMIT
            }
        &&& forall|j1: int, j2: int|
            0 <= j1 < j2 < self.free@.len() ==> self.free@[j1] != self.free@[j2]
    }

    /// The object that the record `h` names in this table, if it names one.
    pub open spec fn decode(&self, h: IntermediatePtr) -> Option<T> {
        if h.has_tag(self.kind_spec()) && self.live().contains_key(h.address()) {
            Some(self.live()[h.address()])
        } else {
            None
        }
    }

    /// An empty table for objects of `kind`.
    pub fn new(kind: ObjectKind) -> (r: Registry<T>)
        ensures
            r.wf(),
            r.kind_spec() == kind,
            !r.is_full(),
            r.live().is_empty(),
            r.retired().is_empty(),
    {
        let r = Registry { kind, slots: Vec::new(), free: Vec::new() };
        assert(r.live() =~= Map::empty());
        assert(r.retired() =~= Set::empty());
        r
    }

    /// The kind of object the table holds.
    pub fn kind(&self) -> (r: ObjectKind)
        ensures
            r == self.kind_spec(),
    {
        self.kind
    }

    /// Places `v` in the table and returns its handle: an address that is
    /// neither live nor retired. When the table is full, `v` is handed back and
    /// the table is unchanged.
    pub fn insert(&mut self, v: T) -> (r: Result<OpaquePtr, T>)
        requires
            old(self).wf(),
        ensures
            final(self).wf(),
            final(self).kind_spec() == old(self).kind_spec(),
            r is Err <==> old(self).is_full(),
            match r {
                Ok(p) => {
                    &&& p.kind == old(self).kind_spec()
                    &&& !old(self).live().contains_key(p.raw)
                    &&& !old(self).retired().contains(p.raw)
                    &&& final(self).live() == old(self).live().insert(p.raw, v)
                    &&& final(self).retired() == old(self).retired()
                },
                Err(w) => w == v && *final(self) == *old(self),
            },
    {
        let ghost pre = *self;
        if self.free.len() == 0 {
            if self.slots.len() as u64 >= SLOT_LIMIT {
                return Err(v);
            }
            let i = self.slots.len() as u64;
            self.slots.push(Slot { generation: 0, value: Some(v) });
            let k = make_address(i, 0);
            proof {
                assert forall|q: u64| #[trigger] self.holds(q) == (pre.holds(q) || q == k) by {
                    if slot_of(q) == i && generation_of(q) == 0 {
                        lemma_address_parts(q, k);
                    }
                    if slot_of(q) < i {
                        assert(self.slots@[slot_of(q)] == pre.slots@[slot_of(q)]);
                    }
                }
                assert(self.live() =~= pre.live().insert(k, v));
                assert forall|q: u64|
                    #[trigger] self.retired().contains(q) == pre.retired().contains(q) by {
                    if slot_of(q) < i {
                        assert(self.slots@[slot_of(q)] == pre.slots@[slot_of(q)]);
                    }
                }
                assert(self.retired() =~= pre.retired());
            }
            return Ok(OpaquePtr { raw: k, kind: self.kind });
        }
        let i = match self.free.pop() {
            Some(i) => i,
            None => 0,
        };
        assert(pre.free@[pre.free@.len() - 1] == i);
        let g = self.slots[i as usize].generation;
        let mut slot = Slot { generation: g, value: Some(v) };
        std::mem::swap(&mut self.slots[i as usize], &mut slot);
        let k = make_address(i, g);
        proof {
            assert(self.slots@ == pre.slots@.update(i as int, Slot { generation: g, value: Some(v) }));
            assert forall|j: int| 0 <= j < self.free@.len() implies self.free@[j] != i by {
                assert(self.free@[j] == pre.free@[j]);
            }
            assert forall|q: u64| #[trigger] self.holds(q) == (pre.holds(q) || q == k) by {
                if slot_of(q) == i && generation_of(q) == g {
                    lemma_address_parts(q, k);
                }
            }
            assert(self.live() =~= pre.live().insert(k, v));
            assert(self.retired() =~= pre.retired());
        }
        Ok(OpaquePtr { raw: k, kind: self.kind })
    }

    /// The object that handle `p` names, borrowed; `None` when `p` is of another
    /// kind or names no live object.
    pub fn get(&self, p: &OpaquePtr) -> (r: Option<&T>)
        requires
            self.wf(),
        ensures
            r is Some <==> (p.kind == self.kind_spec() && self.live().contains_key(p.raw)),
            r matches Some(v) ==> *v == self.live()[p.raw],
    {
        if p.kind != self.kind {
            return None;
        }
        let i = p.raw >> 32u64;
        let g = p.raw & 0xffff_ffffu64;
        if i >= self.slots.len() as u64 {
            return None;
        }
        let slot = &self.slots[i as usize];
        if slot.generation != g {
            return None;
        }
        match &slot.value {
            Some(v) => Some(v),
            None => None,
        }
    }

    /// Takes the object that handle `p` names out of the table; its address is
    /// retired. `None`, with the table unchanged, when `p` is of another kind or
    /// names no live object.
    pub fn remove(&mut self, p: &OpaquePtr) -> (r: Option<T>)
        requires
            old(self).wf(),
        ensures
            final(self).wf(),
            final(self).kind_spec() == old(self).kind_spec(),
            r is Some <==> (p.kind == old(self).kind_spec() && old(self).live().contains_key(p.raw)),
            match r {
                Some(v) => {
                    &&& v == old(self).live()[p.raw]
                    &&& final(self).live() == old(self).live().remove(p.raw)
                    &&& final(self).retired() == old(self).retired().insert(p.raw)
                },
                None => *final(self) == *old(self),
            },
    {
        let ghost pre = *self;
        if p.kind != self.kind {
            return None;
        }
        let i = p.raw >> 32u64;
        let g = p.raw & 0xffff_ffffu64;
        proof {
            lemma_address_bounds(p.raw);
        }
        if i >= self.slots.len() as u64 {
            return None;
        }
        if self.slots[i as usize].generation != g || self.slots[i as usize].value.is_none() {
            return None;
        }
        let mut slot = Slot { generation: g + 1, value: None };
        std::mem::swap(&mut self.slots[i as usize], &mut slot);
        if g + 1 < SLOT_LIMIT {
            self.free.push(i);
        }
        proof {
            assert(self.slots@ == pre.slots@.update(i as int, Slot { generation: (g + 1) as u64, value: None }));
            assert forall|j: int| 0 <= j < pre.free@.len() implies pre.free@[j] != i by {}
            assert forall|q: u64| #[trigger] self.holds(q) == (pre.holds(q) && q != p.raw) by {
                if slot_of(q) == i && generation_of(q) == g {
                    lemma_address_parts(q, p.raw);
                }
            }
            assert(self.live() =~= pre.live().remove(p.raw));
            assert forall|q: u64| #[trigger] self.retired().contains(q) == (pre.retired().contains(q) || q == p.raw) by {
                if slot_of(q) == i && generation_of(q) == g {
                    lemma_address_parts(q, p.raw);
                }
            }
            assert(self.retired() =~= pre.retired().insert(p.raw));
        }
        match slot.value {
            Some(v) => Some(v),
            None => None,
        }
    }

    /// Places `v` in the table and writes its handle as a boundary record,
    /// which decodes to `v` from then on.
    pub fn encode(&mut self, v: T) -> (r: Result<IntermediatePtr, T>)
        requires
            old(self).wf(),
        ensures
            final(self).wf(),
            final(self).kind_spec() == old(self).kind_spec(),
            r is Err <==> old(self).is_full(),
            match r {
                Ok(h) => {
                    &&& h.has_tag(old(self).kind_spec())
                    &&& !old(self).live().contains_key(h.address())
                    &&& !old(self).retired().contains(h.address())
                    &&& final(self).live() == old(self).live().insert(h.address(), v)
                    &&& final(self).retired() == old(self).retired()
                    &&& final(self).decode(h) == Some(v)
                },
                Err(w) => w == v && *final(self) == *old(self),
            },
    {
        match self.insert(v) {
            Ok(p) => {
                let h = p.to_intermediate();
                assert(self.live().contains_key(p.raw));
                Ok(h)
            },
            Err(w) => Err(w),
        }
    }

    /// The object that the record `h` names, borrowed: its tag must be this
    /// table's, and its address that of a live object.
    pub fn resolve(&self, h: &IntermediatePtr) -> (r: Option<&T>)
        requires
            self.wf(),
        ensures
            r is Some <==> self.decode(*h) is Some,
            r matches Some(v) ==> self.decode(*h) == Some(*v),
    {
        match OpaquePtr::convert_from(h, self.kind) {
            Ok(p) => self.get(&p),
            Err(()) => None,
        }
    }

    /// Takes the object that the record `h` names out of the table, retiring
    /// its address; `None`, with the table unchanged, when `h` names none.
    pub fn release(&mut self, h: &IntermediatePtr) -> (r: Option<T>)
        requires
            old(self).wf(),
        ensures
            final(self).wf(),
            final(self).kind_spec() == old(self).kind_spec(),
            r == old(self).decode(*h),
            match r {
                Some(v) => {
                    &&& final(self).live() == old(self).live().remove(h.address())
                    &&& final(self).retired() == old(self).retired().insert(h.address())
                },
                None => *final(self) == *old(self),
            },
    {
        match OpaquePtr::convert_from(h, self.kind) {
            Ok(p) => self.remove(&p),
            Err(()) => None,
        }
    }
}

/// A live object is never retired, and a retired address never names one.
pub proof fn lemma_live_not_retired<T>(r: &Registry<T>, k: u64)
    requires
        r.wf(),
    ensures
        !(r.live().contains_key(k) && r.retired().contains(k)),
{
}

/// Decoding is stable: a record that names an object keeps naming the same
/// object while other objects are placed in the table.
pub proof fn lemma_decode_survives_insert<T>(
    r1: &Registry<T>,
    r2: &Registry<T>,
    h: IntermediatePtr,
    k: u64,
    w: T,
)
    requires
        r1.decode(h) is Some,
        !r1.live().contains_key(k),
        r2.kind_spec() == r1.kind_spec(),
        r2.live() == r1.live().insert(k, w),
    ensures
        r2.decode(h) == r1.decode(h),
{
}

/// Decoding is stable: a record that names an object keeps naming the same
/// object while other objects are taken out of the table.
pub proof fn lemma_decode_survives_other_removal<T>(
    r1: &Registry<T>,
    r2: &Registry<T>,
    h: IntermediatePtr,
    k: u64,
)
    requires
        r1.decode(h) is Some,
        k != h.address(),
        r2.kind_spec() == r1.kind_spec(),
        r2.live() == r1.live().remove(k),
    ensures
        r2.decode(h) == r1.decode(h),
{
}

/// A record whose tag is not the table's tag names nothing, whatever address
/// bytes it carries.
pub proof fn lemma_foreign_tag_rejected<T>(r: &Registry<T>, h: IntermediatePtr)
    requires
        h.id@ != be_bytes(r.kind_spec().tag_spec()),
    ensures
        r.decode(h) is None,
{
}

/// Destruction is single-use: once an object is released, its record names
/// nothing in that table, nor in any later state of it that keeps the address
/// retired (placing objects keeps every retired address retired).
pub proof fn lemma_released_stays_invalid<T>(r: &Registry<T>, h: IntermediatePtr)
    requires
        r.wf(),
        r.retired().contains(h.address()),
    ensures
        r.decode(h) is None,
{
    lemma_live_not_retired(r, h.address());
}

/// A handle of a live object, written as its record, decodes to that very
/// object in its own table and to nothing in a table of another kind.
pub proof fn lemma_handle_round_trip<T>(
    r: &Registry<T>,
    other: &Registry<T>,
    p: OpaquePtr,
    h: IntermediatePtr,
)
    requires
        p.kind == r.kind_spec(),
        r.live().contains_key(p.raw),
        other.kind_spec() != r.kind_spec(),
        h.raw@ == be_bytes(p.raw),
        h.id@ == be_bytes(p.kind.tag_spec()),
    ensures
        r.decode(h) == Some(r.live()[p.raw]),
        other.decode(h) is None,
{
    lemma_intermediate_round_trip(p, h, r.kind_spec());
    lemma_intermediate_round_trip(p, h, other.kind_spec());
}


} // verus!
