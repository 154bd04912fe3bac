//! Closure records: fixed-layout callables that a foreign runtime invokes.
//!
//! Three lifetime variants are built here, each through its own constructor:
//! `bl` (a static function with no captured state), `BlMut` (a capture that may be
//! invoked any number of times) and `BlOnce` (a capture that may be invoked once).
use vstd::prelude::*;

verus! {

/// Set on a record that the runtime is deallocating.
pub const DEALLOCATING: i32 = 1;

/// Bits of the flags word that hold the logical retain count.
pub const REFCOUNT_MASK: i32 = 0xfffe;

/// Set on a record whose capture never escapes the submitting call.
pub const IS_NOESCAPE: i32 = 0x0080_0000;

/// Set on a record living in an allocation that must be freed.
pub const NEEDS_FREE: i32 = 0x0100_0000;

/// Set on a record whose descriptor carries copy and dispose hooks.
pub const HAS_COPY_DISPOSE: i32 = 0x0200_0000;

/// Set on a record whose capture has a C++ constructor.
pub const HAS_CTOR: i32 = 0x0400_0000;

/// Set on a garbage-collected record.
pub const IS_GC: i32 = 0x0800_0000;

/// Set on a record that lives for the whole process.
pub const IS_GLOBAL: i32 = 0x1000_0000;

/// Set on a record whose invoke function returns through a hidden pointer.
pub const USE_STRET: i32 = 0x2000_0000;

/// Set on a record whose descriptor carries a type signature.
pub const HAS_SIGNATURE: i32 = 0x4000_0000;

/// Flags of a freshly allocated capturing record: it needs a free, has copy and
/// dispose hooks, and a logical retain count of one.
pub const NEW_FLAGS: i32 = 0x0300_0002;

/// The flags word of a closure record.
#[derive(Clone, Copy, Debug, PartialEq, Eq, Structural)]
pub struct Flags(pub i32);

impl Flags {
    /// Whether every bit of `bits` is set.
    pub fn contains(&self, bits: i32) -> (r: bool)
        ensures
            r == (self.0 & bits == bits),
    {
        self.0 & bits == bits
    }

    /// The logical retain count held in the flags word.
    pub fn retain_count(&self) -> (r: i32)
        ensures
            r == (self.0 & REFCOUNT_MASK) / 2,
    {
        let x = self.0;
        assert(0 <= (x & 0xfffe) <= 0xfffe) by (bit_vector);
        (x & REFCOUNT_MASK) / 2
    }
}

/// The class tag at the head of every closure record.
#[derive(Clone, Copy, Debug, PartialEq, Eq, Structural)]
pub enum Isa {
    /// A record that lives for the whole process.
    Global,
    /// A record on the stack of the submitting call.
    Stack,
    /// A record in a heap allocation owned by the runtime.
    Malloc,
}

/// The descriptor of a record without copy or dispose hooks.
#[derive(Clone, Copy, Debug, PartialEq, Eq, Structural)]
pub struct Descriptor1 {
    pub reserved: usize,
    pub size: usize,
}

/// The descriptor of a record with copy and dispose hooks.
///
/// `copy_allowed` is false for every record built here: the copy hook refuses.
#[derive(Clone, Copy, Debug, PartialEq, Eq, Structural)]
pub struct Descriptor2 {
    pub descriptor1: Descriptor1,
    pub copy_allowed: bool,
    pub disposes_capture: bool,
}

/// Why an operation on a closure record was refused.
#[derive(Clone, Copy, Debug, PartialEq, Eq, Structural)]
pub enum BlockError {
    /// The record's copy hook was asked to copy it.
    CopyForbidden,
}

/// The header of a capturing record, as each of its constructors lays it out.
pub open spec fn capturing_header(isa: Isa, flags: Flags, d: Descriptor2, size: nat) -> bool {
    &&& isa == Isa::Malloc
    &&& flags == Flags(NEW_FLAGS)
    &&& d.descriptor1.reserved == 0
    &&& d.descriptor1.size as nat == size
    &&& !d.copy_allowed
    &&& d.disposes_capture
}

/// A record around a plain function, with no captured state: never copied or disposed.
#[allow(non_camel_case_types)]
pub struct bl<F> {
    isa: Isa,
    flags: Flags,
    reserved: i32,
    invoke: F,
    descriptor: Descriptor1,
}

impl<F> bl<F> {
    pub closed spec fn function(&self) -> F {
        self.invoke
    }

    pub closed spec fn flags_spec(&self) -> Flags {
        self.flags
    }

    pub closed spec fn isa_spec(&self) -> Isa {
        self.isa
    }

    pub closed spec fn descriptor_spec(&self) -> Descriptor1 {
        self.descriptor
    }

    /// Wraps `f` in a stack record with no flags set.
    pub fn with(f: F) -> (r: bl<F>)
        ensures
            r.function() == f,
            r.isa_spec() == Isa::Stack,
            r.flags_spec() == Flags(0),
            r.descriptor_spec() == (Descriptor1 { reserved: 0, size: vstd::layout::size_of::<bl<F>>() as usize }),
    {
        bl {
            isa: Isa::Stack,
            flags: Flags(0),
            reserved: 0,
            invoke: f,
            descriptor: Descriptor1 { reserved: 0, size: core::mem::size_of::<bl<F>>() },
        }
    }

    pub fn flags(&self) -> (r: Flags)
        ensures
            r == self.flags_spec(),
    {
        self.flags
    }

    pub fn isa(&self) -> (r: Isa)
        ensures
            r == self.isa_spec(),
    {
        self.isa
    }

    pub fn descriptor(&self) -> (r: Descriptor1)
        ensures
            r == self.descriptor_spec(),
    {
        self.descriptor
    }

    /// Calls the wrapped function; the record is unchanged and may be called again.
    pub fn invoke0<R>(&self) -> (r: R) where F: Fn() -> R
        requires
            call_requires(self.function(), ()),
        ensures
            call_ensures(self.function(), (), r),
    {
        (self.invoke)()
    }
}

/// Wraps a plain function of no arguments in a static record.
pub fn fn0<R, F: Fn() -> R>(f: F) -> (r: bl<F>)
    ensures
        r.function() == f,
        r.isa_spec() == Isa::Stack,
        r.flags_spec() == Flags(0),
{
    bl::with(f)
}

/// Wraps a plain function of one argument in a static record.
pub fn fn1<A, R, F: Fn(A) -> R>(f: F) -> (r: bl<F>)
    ensures
        r.function() == f,
        r.isa_spec() == Isa::Stack,
        r.flags_spec() == Flags(0),
{
    bl::with(f)
}

/// Wraps a plain function of two arguments in a static record.
pub fn fn2<A, B, R, F: Fn(A, B) -> R>(f: F) -> (r: bl<F>)
    ensures
        r.function() == f,
        r.isa_spec() == Isa::Stack,
        r.flags_spec() == Flags(0),
{
    bl::with(f)
}

/// Wraps a plain function of three arguments in a static record.
pub fn fn3<A, B, C, R, F: Fn(A, B, C) -> R>(f: F) -> (r: bl<F>)
    ensures
        r.function() == f,
        r.isa_spec() == Isa::Stack,
        r.flags_spec() == Flags(0),
{
    bl::with(f)
}

/// Wraps a plain function of four arguments in a static record.
pub fn fn4<A, B, C, D, R, F: Fn(A, B, C, D) -> R>(f: F) -> (r: bl<F>)
    ensures
        r.function() == f,
        r.isa_spec() == Isa::Stack,
        r.flags_spec() == Flags(0),
{
    bl::with(f)
}

/// Wraps a plain function of five arguments in a static record.
pub fn fn5<A, B, C, D, E, R, F: Fn(A, B, C, D, E) -> R>(f: F) -> (r: bl<F>)
    ensures
        r.function() == f,
        r.isa_spec() == Isa::Stack,
        r.flags_spec() == Flags(0),
{
    bl::with(f)
}

/// A record whose capture may be invoked at most once.
///
/// The first invocation takes the capture out and calls it; a later one finds
/// nothing and reports `None`. Disposal drops whatever capture is left.
pub struct BlOnce<F> {
    isa: Isa,
    flags: Flags,
    reserved: i32,
    descriptor: Descriptor2,
    closure: Option<F>,
}

impl<F> BlOnce<F> {
    /// The capture that is still waiting to be invoked, if any.
    pub closed spec fn capture(&self) -> Option<F> {
        self.closure
    }

    /// The header is the one every constructor lays out: the heap tag, the flags of
    /// a new record, a zero reserved word, and a descriptor giving the record's size
    /// and its dispose hook.
    pub open spec fn wf(&self) -> bool {
        &&& capturing_header(self.isa_spec(), self.flags_spec(), self.descriptor_spec(), vstd::layout::size_of::<BlOnce<F>>())
        &&& self.reserved_spec() == 0
    }

    pub closed spec fn isa_spec(&self) -> Isa {
        self.isa
    }

    pub closed spec fn reserved_spec(&self) -> i32 {
        self.reserved
    }

    pub closed spec fn flags_spec(&self) -> Flags {
        self.flags
    }

    pub closed spec fn descriptor_spec(&self) -> Descriptor2 {
        self.descriptor
    }

    fn new(f: F) -> (r: BlOnce<F>)
        ensures
            r.wf(),
            r.capture() == Some(f),
    {
        BlOnce {
            isa: Isa::Malloc,
            flags: Flags(NEW_FLAGS),
            reserved: 0,
            descriptor: Descriptor2 {
                descriptor1: Descriptor1 { reserved: 0, size: core::mem::size_of::<BlOnce<F>>() },
                copy_allowed: false,
                disposes_capture: true,
            },
            closure: Some(f),
        }
    }

    pub fn flags(&self) -> (r: Flags)
        requires
            self.wf(),
        ensures
            r == self.flags_spec(),
            r == Flags(NEW_FLAGS),
    {
        self.flags
    }

    pub fn descriptor(&self) -> (r: Descriptor2)
        requires
            self.wf(),
        ensures
            r == self.descriptor_spec(),
            r.descriptor1.reserved == 0,
            r.descriptor1.size as nat == vstd::layout::size_of::<BlOnce<F>>(),
            !r.copy_allowed,
            r.disposes_capture,
    {
        self.descriptor
    }

    /// The class tag: a heap record.
    pub fn isa(&self) -> (r: Isa)
        requires
            self.wf(),
        ensures
            r == self.isa_spec(),
            r == Isa::Malloc,
    {
        self.isa
    }

    /// The reserved word of the header.
    pub fn reserved(&self) -> (r: i32)
        requires
            self.wf(),
        ensures
            r == self.reserved_spec(),
            r == 0,
    {
        self.reserved
    }

    /// Whether the capture has already been taken by an invocation.
    pub fn is_spent(&self) -> (r: bool)
        ensures
            r == (self.capture() is None),
    {
        self.closure.is_none()
    }

    /// The copy hook: a capturing record is never copied.
    pub fn try_copy(&self) -> (r: Result<BlOnce<F>, BlockError>)
        ensures
            r == Err::<BlOnce<F>, BlockError>(BlockError::CopyForbidden),
    {
        Err(BlockError::CopyForbidden)
    }

    /// The dispose hook: drops the capture if it was never invoked. Consuming the
    /// record makes a second disposal impossible. Returns whether a capture was dropped.
    pub fn release(self) -> (dropped: bool)
        ensures
            dropped == (self.capture() is Some),
    {
        let BlOnce { closure, .. } = self;
        match closure {
            Some(_) => true,
            None => false,
        }
    }

    /// Invokes the capture with no arguments; `None` when it was already invoked.
    pub fn invoke0<R>(&mut self) -> (r: Option<R>) where F: FnOnce() -> R
        requires
            old(self).capture() matches Some(f) ==> call_requires(f, ()),
        ensures
            final(self).capture() is None,
            final(self).flags_spec() == old(self).flags_spec(),
            final(self).descriptor_spec() == old(self).descriptor_spec(),
            old(self).wf() ==> final(self).wf(),
            match old(self).capture() {
                Some(f) => r matches Some(v) && call_ensures(f, (), v),
                None => r is None,
            },
    {
        match self.closure.take() {
            Some(f) => Some(f()),
            None => None,
        }
    }

    /// Invokes the capture with one argument; `None` when it was already invoked.
    pub fn invoke1<A, R>(&mut self, a: A) -> (r: Option<R>) where F: FnOnce(A) -> R
        requires
            old(self).capture() matches Some(f) ==> call_requires(f, (a,)),
        ensures
            final(self).capture() is None,
            final(self).flags_spec() == old(self).flags_spec(),
            final(self).descriptor_spec() == old(self).descriptor_spec(),
            old(self).wf() ==> final(self).wf(),
            match old(self).capture() {
                Some(f) => r matches Some(v) && call_ensures(f, (a,), v),
                None => r is None,
            },
    {
        match self.closure.take() {
            Some(f) => Some(f(a)),
            None => None,
        }
    }

    /// Invokes the capture with two arguments; `None` when it was already invoked.
    pub fn invoke2<A, B, R>(&mut self, a: A, b: B) -> (r: Option<R>) where F: FnOnce(A, B) -> R
        requires
            old(self).capture() matches Some(f) ==> call_requires(f, (a, b)),
        ensures
            final(self).capture() is None,
            final(self).flags_spec() == old(self).flags_spec(),
            final(self).descriptor_spec() == old(self).descriptor_spec(),
            old(self).wf() ==> final(self).wf(),
            match old(self).capture() {
                Some(f) => r matches Some(v) && call_ensures(f, (a, b), v),
                None => r is None,
            },
    {
        match self.closure.take() {
            Some(f) => Some(f(a, b)),
            None => None,
        }
    }

    /// Invokes the capture with three arguments; `None` when it was already invoked.
    pub fn invoke3<A, B, C, R>(&mut self, a: A, b: B, c: C) -> (r: Option<R>) where F: FnOnce(A, B, C) -> R
        requires
            old(self).capture() matches Some(f) ==> call_requires(f, (a, b, c)),
        ensures
            final(self).capture() is None,
            final(self).flags_spec() == old(self).flags_spec(),
            final(self).descriptor_spec() == old(self).descriptor_spec(),
            old(self).wf() ==> final(self).wf(),
            match old(self).capture() {
                Some(f) => r matches Some(v) && call_ensures(f, (a, b, c), v),
                None => r is None,
            },
    {
        match self.closure.take() {
            Some(f) => Some(f(a, b, c)),
            None => None,
        }
    }

    /// Invokes the capture with four arguments; `None` when it was already invoked.
    pub fn invoke4<A, B, C, D, R>(&mut self, a: A, b: B, c: C, d: D) -> (r: Option<R>) where F: FnOnce(A, B, C, D) -> R
        requires
            old(self).capture() matches Some(f) ==> call_requires(f, (a, b, c, d)),
        ensures
            final(self).capture() is None,
            final(self).flags_spec() == old(self).flags_spec(),
            final(self).descriptor_spec() == old(self).descriptor_spec(),
            old(self).wf() ==> final(self).wf(),
            match old(self).capture() {
                Some(f) => r matches Some(v) && call_ensures(f, (a, b, c, d), v),
                None => r is None,
            },
    {
        match self.closure.take() {
            Some(f) => Some(f(a, b, c, d)),
            None => None,
        }
    }

    /// Invokes the capture with five arguments; `None` when it was already invoked.
    pub fn invoke5<A, B, C, D, E, R>(&mut self, a: A, b: B, c: C, d: D, e: E) -> (r: Option<R>) where F: FnOnce(A, B, C, D, E) -> R
        requires
            old(self).capture() matches Some(f) ==> call_requires(f, (a, b, c, d, e)),
        ensures
            final(self).capture() is None,
            final(self).flags_spec() == old(self).flags_spec(),
            final(self).descriptor_spec() == old(self).descriptor_spec(),
            old(self).wf() ==> final(self).wf(),
            match old(self).capture() {
                Some(f) => r matches Some(v) && call_ensures(f, (a, b, c, d, e), v),
                None => r is None,
            },
    {
        match self.closure.take() {
            Some(f) => Some(f(a, b, c, d, e)),
            None => None,
        }
    }
}

/// Builds a once record around a capture of no arguments.
pub fn once0<R, F: FnOnce() -> R>(f: F) -> (r: BlOnce<F>)
    ensures
        r.wf(),
        r.capture() == Some(f),
{
    BlOnce::new(f)
}

/// Builds a once record around a capture of one argument.
pub fn once1<A, R, F: FnOnce(A) -> R>(f: F) -> (r: BlOnce<F>)
    ensures
        r.wf(),
        r.capture() == Some(f),
{
    BlOnce::new(f)
}

/// Builds a once record around a capture of two arguments.
pub fn once2<A, B, R, F: FnOnce(A, B) -> R>(f: F) -> (r: BlOnce<F>)
    ensures
        r.wf(),
        r.capture() == Some(f),
{
    BlOnce::new(f)
}

/// Builds a once record around a capture of three arguments.
pub fn once3<A, B, C, R, F: FnOnce(A, B, C) -> R>(f: F) -> (r: BlOnce<F>)
    ensures
        r.wf(),
        r.capture() == Some(f),
{
    BlOnce::new(f)
}

/// Builds a once record around a capture of four arguments.
pub fn once4<A, B, C, D, R, F: FnOnce(A, B, C, D) -> R>(f: F) -> (r: BlOnce<F>)
    ensures
        r.wf(),
        r.capture() == Some(f),
{
    BlOnce::new(f)
}

/// Builds a once record around a capture of five arguments.
pub fn once5<A, B, C, D, E, R, F: FnOnce(A, B, C, D, E) -> R>(f: F) -> (r: BlOnce<F>)
    ensures
        r.wf(),
        r.capture() == Some(f),
{
    BlOnce::new(f)
}

/// A record whose capture may be invoked any number of times.
///
/// The record counts its references in the flags word, as the runtime does: a new
/// record has one, `retain` takes another, and `release` gives one back; the
/// capture is dropped with the last. `invocations` counts the calls made through
/// the record.
pub struct BlMut<F> {
    isa: Isa,
    flags: Flags,
    reserved: i32,
    descriptor: Descriptor2,
    closure: F,
    invocations: Ghost<nat>,
}

/// The flags word of a repeatable record with `refs` references.
pub open spec fn flags_with_refs(refs: nat) -> Flags {
    Flags((HAS_COPY_DISPOSE + NEEDS_FREE + 2 * refs) as i32)
}

/// The most references the flags word can count.
pub const MAX_REFS: u32 = 0x7fff;

impl<F> BlMut<F> {
    /// How many times the capture has been called through this record.
    pub closed spec fn invocations(&self) -> nat {
        self.invocations@
    }

    /// The capture, in its current state.
    pub closed spec fn capture(&self) -> F {
        self.closure
    }

    pub closed spec fn isa_spec(&self) -> Isa {
        self.isa
    }

    pub closed spec fn reserved_spec(&self) -> i32 {
        self.reserved
    }

    pub closed spec fn flags_spec(&self) -> Flags {
        self.flags
    }

    pub closed spec fn descriptor_spec(&self) -> Descriptor2 {
        self.descriptor
    }

    /// The number of references to the record that the flags word counts.
    pub closed spec fn refs(&self) -> nat {
        ((self.flags.0 - HAS_COPY_DISPOSE - NEEDS_FREE) / 2) as nat
    }

    /// The header is the one every constructor lays out: the heap tag, flags that
    /// need a free and carry the hooks and between one and `MAX_REFS` references, a
    /// zero reserved word, and a descriptor giving the record's size and its dispose hook.
    pub open spec fn wf(&self) -> bool {
        &&& self.isa_spec() == Isa::Malloc
        &&& 1 <= self.refs() <= MAX_REFS
        &&& self.flags_spec() == flags_with_refs(self.refs())
        &&& self.reserved_spec() == 0
        &&& self.descriptor_spec().descriptor1.reserved == 0
        &&& self.descriptor_spec().descriptor1.size as nat == vstd::layout::size_of::<BlMut<F>>()
        &&& !self.descriptor_spec().copy_allowed
        &&& self.descriptor_spec().disposes_capture
    }

    fn new(f: F) -> (r: BlMut<F>)
        ensures
            r.wf(),
            r.flags_spec() == Flags(NEW_FLAGS),
            r.capture() == f,
            r.refs() == 1,
            r.invocations() == 0,
    {
        BlMut {
            isa: Isa::Malloc,
            flags: Flags(NEW_FLAGS),
            reserved: 0,
            descriptor: Descriptor2 {
                descriptor1: Descriptor1 { reserved: 0, size: core::mem::size_of::<BlMut<F>>() },
                copy_allowed: false,
                disposes_capture: true,
            },
            closure: f,
            invocations: Ghost(0),
        }
    }

    pub fn flags(&self) -> (r: Flags)
        requires
            self.wf(),
        ensures
            r == self.flags_spec(),
            r == flags_with_refs(self.refs()),
    {
        self.flags
    }

    pub fn descriptor(&self) -> (r: Descriptor2)
        requires
            self.wf(),
        ensures
            r == self.descriptor_spec(),
            r.descriptor1.reserved == 0,
            r.descriptor1.size as nat == vstd::layout::size_of::<BlMut<F>>(),
            !r.copy_allowed,
            r.disposes_capture,
    {
        self.descriptor
    }

    /// The class tag: a heap record.
    pub fn isa(&self) -> (r: Isa)
        requires
            self.wf(),
        ensures
            r == self.isa_spec(),
            r == Isa::Malloc,
    {
        self.isa
    }

    /// The reserved word of the header.
    pub fn reserved(&self) -> (r: i32)
        requires
            self.wf(),
        ensures
            r == self.reserved_spec(),
            r == 0,
    {
        self.reserved
    }

    /// The number of references to the record.
    pub fn ref_count(&self) -> (r: u32)
        requires
            self.wf(),
        ensures
            r as nat == self.refs(),
    {
        ((self.flags.0 - HAS_COPY_DISPOSE - NEEDS_FREE) / 2) as u32
    }

    /// The copy hook: the capture itself is never copied.
    pub fn try_copy(&self) -> (r: Result<BlMut<F>, BlockError>)
        ensures
            r == Err::<BlMut<F>, BlockError>(BlockError::CopyForbidden),
    {
        Err(BlockError::CopyForbidden)
    }

    /// Takes one more reference to the record, as a copy by the runtime does for a
    /// heap record; the capture is shared, not copied.
    pub fn retain(&mut self)
        requires
            old(self).wf(),
            old(self).refs() < MAX_REFS,
        ensures
            final(self).wf(),
            final(self).refs() == old(self).refs() + 1,
            final(self).capture() == old(self).capture(),
            final(self).invocations() == old(self).invocations(),
    {
        self.flags = Flags(self.flags.0 + 2);
    }

    /// Gives back one reference. While others remain, the record is handed back
    /// with one reference fewer; the last release runs the dispose hook, which drops
    /// the capture, and returns `None`.
    pub fn release(self) -> (rest: Option<BlMut<F>>)
        requires
            self.wf(),
        ensures
            self.refs() == 1 ==> rest is None,
            self.refs() > 1 ==> (rest matches Some(b) && b.wf() && b.refs() == self.refs() - 1
                && b.capture() == self.capture() && b.invocations() == self.invocations()),
    {
        if self.flags.0 - HAS_COPY_DISPOSE - NEEDS_FREE > 2 {
            let mut b = self;
            b.flags = Flags(b.flags.0 - 2);
            Some(b)
        } else {
            None
        }
    }

    /// Calls the capture with no arguments; the record stays callable.
    pub fn invoke0<R>(&mut self) -> (r: R) where F: FnMut() -> R
        requires
            forall|g: F| call_requires(g, ()),
        ensures
            call_ensures(old(self).capture(), (), r),
            final(self).invocations() == old(self).invocations() + 1,
            final(self).refs() == old(self).refs(),
            old(self).wf() ==> final(self).wf(),
    {
        let r = (self.closure)();
        self.invocations = Ghost(self.invocations@ + 1);
        r
    }

    /// Calls the capture with one argument; the record stays callable.
    pub fn invoke1<A, R>(&mut self, a: A) -> (r: R) where F: FnMut(A) -> R
        requires
            forall|g: F, x1: A| call_requires(g, (x1,)),
        ensures
            call_ensures(old(self).capture(), (a,), r),
            final(self).invocations() == old(self).invocations() + 1,
            final(self).refs() == old(self).refs(),
            old(self).wf() ==> final(self).wf(),
    {
        let r = (self.closure)(a);
        self.invocations = Ghost(self.invocations@ + 1);
        r
    }

    /// Calls the capture with two arguments; the record stays callable.
    pub fn invoke2<A, B, R>(&mut self, a: A, b: B) -> (r: R) where F: FnMut(A, B) -> R
        requires
            forall|g: F, x1: A, x2: B| call_requires(g, (x1, x2)),
        ensures
            call_ensures(old(self).capture(), (a, b), r),
            final(self).invocations() == old(self).invocations() + 1,
            final(self).refs() == old(self).refs(),
            old(self).wf() ==> final(self).wf(),
    {
        let r = (self.closure)(a, b);
        self.invocations = Ghost(self.invocations@ + 1);
        r
    }

    /// Calls the capture with three arguments; the record stays callable.
    pub fn invoke3<A, B, C, R>(&mut self, a: A, b: B, c: C) -> (r: R) where F: FnMut(A, B, C) -> R
        requires
            forall|g: F, x1: A, x2: B, x3: C| call_requires(g, (x1, x2, x3)),
        ensures
            call_ensures(old(self).capture(), (a, b, c), r),
            final(self).invocations() == old(self).invocations() + 1,
            final(self).refs() == old(self).refs(),
            old(self).wf() ==> final(self).wf(),
    {
        let r = (self.closure)(a, b, c);
        self.invocations = Ghost(self.invocations@ + 1);
        r
    }

    /// Calls the capture with four arguments; the record stays callable.
    pub fn invoke4<A, B, C, D, R>(&mut self, a: A, b: B, c: C, d: D) -> (r: R) where F: FnMut(A, B, C, D) -> R
        requires
            forall|g: F, x1: A, x2: B, x3: C, x4: D| call_requires(g, (x1, x2, x3, x4)),
        ensures
            call_ensures(old(self).capture(), (a, b, c, d), r),
            final(self).invocations() == old(self).invocations() + 1,
            final(self).refs() == old(self).refs(),
            old(self).wf() ==> final(self).wf(),
    {
        let r = (self.closure)(a, b, c, d);
        self.invocations = Ghost(self.invocations@ + 1);
        r
    }

    /// Calls the capture with five arguments; the record stays callable.
    pub fn invoke5<A, B, C, D, E, R>(&mut self, a: A, b: B, c: C, d: D, e: E) -> (r: R) where F: FnMut(A, B, C, D, E) -> R
        requires
            forall|g: F, x1: A, x2: B, x3: C, x4: D, x5: E| call_requires(g, (x1, x2, x3, x4, x5)),
        ensures
            call_ensures(old(self).capture(), (a, b, c, d, e), r),
            final(self).invocations() == old(self).invocations() + 1,
            final(self).refs() == old(self).refs(),
            old(self).wf() ==> final(self).wf(),
    {
        let r = (self.closure)(a, b, c, d, e);
        self.invocations = Ghost(self.invocations@ + 1);
        r
    }
}

/// Builds a repeatable record around a capture of no arguments.
pub fn mut0<R, F: FnMut() -> R>(f: F) -> (r: BlMut<F>)
    ensures
        r.wf(),
        r.capture() == f,
        r.refs() == 1,
        r.invocations() == 0,
{
    BlMut::new(f)
}

/// Builds a repeatable record around a capture of one argument.
pub fn mut1<A, R, F: FnMut(A) -> R>(f: F) -> (r: BlMut<F>)
    ensures
        r.wf(),
        r.capture() == f,
        r.refs() == 1,
        r.invocations() == 0,
{
    BlMut::new(f)
}

/// Builds a repeatable record around a capture of two arguments.
pub fn mut2<A, B, R, F: FnMut(A, B) -> R>(f: F) -> (r: BlMut<F>)
    ensures
        r.wf(),
        r.capture() == f,
        r.refs() == 1,
        r.invocations() == 0,
{
    BlMut::new(f)
}

/// Builds a repeatable record around a capture of three arguments.
pub fn mut3<A, B, C, R, F: FnMut(A, B, C) -> R>(f: F) -> (r: BlMut<F>)
    ensures
        r.wf(),
        r.capture() == f,
        r.refs() == 1,
        r.invocations() == 0,
{
    BlMut::new(f)
}

/// Builds a repeatable record around a capture of four arguments.
pub fn mut4<A, B, C, D, R, F: FnMut(A, B, C, D) -> R>(f: F) -> (r: BlMut<F>)
    ensures
        r.wf(),
        r.capture() == f,
        r.refs() == 1,
        r.invocations() == 0,
{
    BlMut::new(f)
}

/// Builds a repeatable record around a capture of five arguments.
pub fn mut5<A, B, C, D, E, R, F: FnMut(A, B, C, D, E) -> R>(f: F) -> (r: BlMut<F>)
    ensures
        r.wf(),
        r.capture() == f,
        r.refs() == 1,
        r.invocations() == 0,
{
    BlMut::new(f)
}

/// Invoking a repeatable record `k` times runs its capture `k` times: along a run
/// of records where each is the one before after one `invoke0` or `invoke1`, the
/// count of invocations grows by the number of steps.
pub proof fn lemma_repeatable_invocations<F>(states: Seq<BlMut<F>>)
    requires
        states.len() > 0,
        forall|i: int| 0 <= i < states.len() - 1
            ==> #[trigger] states[i + 1].invocations() == states[i].invocations() + 1,
    ensures
        states.last().invocations() == states[0].invocations() + states.len() - 1,
    decreases states.len(),
{
    if states.len() > 1 {
        let prefix = states.drop_last();
        assert forall|i: int| 0 <= i < prefix.len() - 1
            implies #[trigger] prefix[i + 1].invocations() == prefix[i].invocations() + 1 by {
            assert(prefix[i + 1] == states[i + 1]);
            assert(prefix[i] == states[i]);
        }
        lemma_repeatable_invocations(prefix);
        let j = states.len() - 2;
        assert(states[j + 1].invocations() == states[j].invocations() + 1);
        assert(prefix.last() == states[j]);
    }
}

} // verus!
