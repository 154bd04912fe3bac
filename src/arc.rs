//! Owned handles to reference-counted foreign objects.
//!
//! A `Runtime` keeps the reference count of every object it handed out and counts
//! the calls to its release entry point. A `Retained` handle stands for one
//! reference: it is not `Clone` or `Copy`, `retain` makes a second handle to the
//! same object, and `release` consumes the handle, so each reference is released
//! exactly once. A borrowed handle is a plain `&Retained`, which releases nothing.
use vstd::prelude::*;

verus! {

/// The abstract state of a runtime.
pub struct RuntimeState {
    /// The reference count of each object, by id; zero once it was freed.
    pub counts: Seq<nat>,
    /// How many objects the runtime can create.
    pub capacity: nat,
    /// How many times the release entry point was called.
    pub releases: nat,
}

/// Object `id` exists and has not been freed.
pub open spec fn live(s: RuntimeState, id: nat) -> bool {
    id < s.counts.len() && s.counts[id as int] > 0
}

/// Whether the runtime can create another object.
pub open spec fn can_create(s: RuntimeState) -> bool {
    s.counts.len() < s.capacity
}

/// The state after a new object is created with one reference.
pub open spec fn after_create(s: RuntimeState) -> RuntimeState {
    RuntimeState { counts: s.counts.push(1), ..s }
}

/// The state after one more reference to `id` is taken.
pub open spec fn after_retain(s: RuntimeState, id: nat) -> RuntimeState {
    RuntimeState { counts: s.counts.update(id as int, s.counts[id as int] + 1), ..s }
}

/// The state after one reference to `id` is released.
pub open spec fn after_release(s: RuntimeState, id: nat) -> RuntimeState {
    RuntimeState {
        counts: s.counts.update(id as int, (s.counts[id as int] - 1) as nat),
        releases: s.releases + 1,
        ..s
    }
}

/// The state after `n` rounds of creating an object and dropping its only handle.
pub open spec fn cycles(s: RuntimeState, n: nat) -> RuntimeState
    decreases n,
{
    if n == 0 {
        s
    } else {
        let t = cycles(s, (n - 1) as nat);
        after_release(after_create(t), t.counts.len())
    }
}

/// A reference-counting runtime with a fixed capacity of objects.
pub struct Runtime {
    counts: Vec<u64>,
    capacity: usize,
    releases: u64,
}

impl View for Runtime {
    type V = RuntimeState;

    closed spec fn view(&self) -> RuntimeState {
        RuntimeState {
            counts: self.counts@.map_values(|c: u64| c as nat),
            capacity: self.capacity as nat,
            releases: self.releases as nat,
        }
    }
}

/// One reference to a foreign object, released exactly once.
pub struct Retained {
    id: usize,
}

impl Retained {
    pub closed spec fn id_spec(&self) -> nat {
        self.id as nat
    }

    /// The id of the object this handle refers to.
    pub fn id(&self) -> (r: usize)
        ensures
            r as nat == self.id_spec(),
    {
        self.id
    }
}

impl Runtime {
    /// The view stays in step with the fields.
    pub closed spec fn wf(&self) -> bool {
        self.counts.len() <= self.capacity
    }

    /// A runtime with no objects that can create `capacity` of them.
    pub fn with_capacity(capacity: usize) -> (rt: Runtime)
        ensures
            rt.wf(),
            rt@ == (RuntimeState { counts: Seq::empty(), capacity: capacity as nat, releases: 0 }),
    {
        let rt = Runtime { counts: Vec::new(), capacity, releases: 0 };
        assert(rt@.counts =~= Seq::<nat>::empty());
        rt
    }

    /// Creates an object with one reference and hands out that reference; `None`
    /// when the runtime is full.
    pub fn create(&mut self) -> (r: Option<Retained>)
        requires
            old(self).wf(),
        ensures
            final(self).wf(),
            can_create(old(self)@) ==> {
                &&& r matches Some(h)
                &&& h.id_spec() == old(self)@.counts.len()
                &&& final(self)@ == after_create(old(self)@)
            },
            !can_create(old(self)@) ==> r is None && final(self)@ == old(self)@,
    {
        if self.counts.len() < self.capacity {
            let id = self.counts.len();
            self.counts.push(1);
            assert(self@.counts =~= after_create(old(self)@).counts);
            Some(Retained { id })
        } else {
            None
        }
    }

    /// Takes one more reference to the object behind `h`.
    pub fn retain(&mut self, h: &Retained) -> (r: Retained)
        requires
            old(self).wf(),
            live(old(self)@, h.id_spec()),
            old(self)@.counts[h.id_spec() as int] < u64::MAX,
        ensures
            final(self).wf(),
            r.id_spec() == h.id_spec(),
            final(self)@ == after_retain(old(self)@, h.id_spec()),
    {
        let c = self.counts[h.id];
        self.counts.set(h.id, c + 1);
        assert(self@.counts =~= after_retain(old(self)@, h.id_spec()).counts);
        Retained { id: h.id }
    }

    /// Releases the reference `h` stands for; the object is freed when its last
    /// reference goes.
    pub fn release(&mut self, h: Retained)
        requires
            old(self).wf(),
            live(old(self)@, h.id_spec()),
            old(self)@.releases < u64::MAX,
        ensures
            final(self).wf(),
            final(self)@ == after_release(old(self)@, h.id_spec()),
    {
        let c = self.counts[h.id];
        self.counts.set(h.id, c - 1);
        self.releases = self.releases + 1;
        assert(self@.counts =~= after_release(old(self)@, h.id_spec()).counts);
    }

    /// The reference count of object `id`; zero for an object that does not exist.
    pub fn retain_count(&self, id: usize) -> (r: u64)
        ensures
            (id as nat) < self@.counts.len() ==> r as nat == self@.counts[id as int],
            (id as nat) >= self@.counts.len() ==> r == 0,
    {
        if id < self.counts.len() {
            self.counts[id]
        } else {
            0
        }
    }

    /// Whether object `id` exists and still has a reference.
    pub fn is_live(&self, id: usize) -> (r: bool)
        ensures
            r == live(self@, id as nat),
    {
        id < self.counts.len() && self.counts[id] > 0
    }

    /// How many times the release entry point was called.
    pub fn release_calls(&self) -> (r: u64)
        ensures
            r as nat == self@.releases,
    {
        self.releases
    }

    /// How many objects were created.
    pub fn created(&self) -> (r: usize)
        ensures
            r as nat == self@.counts.len(),
    {
        self.counts.len()
    }
}

/// Creating and dropping `n` owned handles calls the release entry point exactly
/// `n` times, frees each of those objects, and leaves every other object alone.
pub proof fn lemma_single_release(s: RuntimeState, n: nat)
    requires
        s.counts.len() + n <= s.capacity,
    ensures
        cycles(s, n).releases == s.releases + n,
        cycles(s, n).capacity == s.capacity,
        cycles(s, n).counts.len() == s.counts.len() + n,
        forall|i: int| 0 <= i < s.counts.len() ==> cycles(s, n).counts[i] == s.counts[i],
        forall|i: int| s.counts.len() <= i < s.counts.len() + n ==> cycles(s, n).counts[i] == 0,
    decreases n,
{
    if n > 0 {
        lemma_single_release(s, (n - 1) as nat);
        let t = cycles(s, (n - 1) as nat);
        let c = after_create(t);
        assert(c.counts[t.counts.len() as int] == 1);
        assert(live(c, t.counts.len()));
    }
}

} // verus!
