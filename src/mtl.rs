//! A GPU device whose factory methods create foreign objects.
//!
//! Every factory method asks the runtime for a new object and hands back the one
//! reference it holds; when the runtime cannot create another object the method
//! returns `None` rather than an invalid handle.
use vstd::prelude::*;
use crate::arc::{can_create, after_create, live, Retained, Runtime, RuntimeState};

verus! {

/// Storage and caching options of a buffer.
#[derive(Clone, Copy, Debug, PartialEq, Eq, Structural)]
pub struct ResourceOptions(pub usize);

/// A GPU device.
pub struct Device {
    object: Retained,
}

/// What a factory method did to the runtime and returned: a fresh object when one
/// could be created, else `None` and no change.
pub open spec fn created(old_rt: RuntimeState, new_rt: RuntimeState, r: Option<nat>) -> bool {
    if can_create(old_rt) {
        r == Some(old_rt.counts.len()) && new_rt == after_create(old_rt)
    } else {
        r is None && new_rt == old_rt
    }
}

/// The id behind an optional handle.
pub open spec fn handle_id(h: Option<Retained>) -> Option<nat> {
    match h {
        Some(h) => Some(h.id_spec()),
        None => None,
    }
}

/// A buffer object with its length in bytes.
pub struct Buffer {
    object: Retained,
    length: usize,
    options: ResourceOptions,
}

impl Buffer {
    pub closed spec fn id_spec(&self) -> nat {
        self.object.id_spec()
    }

    pub closed spec fn length_spec(&self) -> nat {
        self.length as nat
    }

    pub closed spec fn options_spec(&self) -> ResourceOptions {
        self.options
    }

    /// The length of the buffer in bytes.
    pub fn length(&self) -> (r: usize)
        ensures
            r as nat == self.length_spec(),
    {
        self.length
    }

    /// The options the buffer was created with.
    pub fn options(&self) -> (r: ResourceOptions)
        ensures
            r == self.options_spec(),
    {
        self.options
    }

    /// The reference to the buffer object, to release it.
    pub fn into_object(self) -> (r: Retained)
        ensures
            r.id_spec() == self.id_spec(),
    {
        self.object
    }
}

impl Device {
    pub closed spec fn id_spec(&self) -> nat {
        self.object.id_spec()
    }

    /// The system's default device, as a new object; `None` when the runtime is full.
    pub fn default(rt: &mut Runtime) -> (r: Option<Device>)
        requires
            old(rt).wf(),
        ensures
            final(rt).wf(),
            created(old(rt)@, final(rt)@, match r { Some(d) => Some(d.id_spec()), None => None }),
    {
        match rt.create() {
            Some(object) => Some(Device { object }),
            None => None,
        }
    }

    /// The reference to the device object, to release it.
    pub fn into_object(self) -> (r: Retained)
        ensures
            r.id_spec() == self.id_spec(),
    {
        self.object
    }

    /// A new command queue.
    pub fn command_queue(&self, rt: &mut Runtime) -> (r: Option<Retained>)
        requires
            old(rt).wf(),
        ensures
            final(rt).wf(),
            created(old(rt)@, final(rt)@, handle_id(r)),
    {
        rt.create()
    }

    /// A new texture laid out as the live descriptor object `descriptor` describes.
    pub fn texture_with_descriptor(&self, rt: &mut Runtime, descriptor: &Retained) -> (r: Option<Retained>)
        requires
            old(rt).wf(),
            live(old(rt)@, descriptor.id_spec()),
        ensures
            final(rt).wf(),
            created(old(rt)@, final(rt)@, handle_id(r)),
    {
        rt.create()
    }

    /// The library of the shaders built with the program.
    pub fn default_library(&self, rt: &mut Runtime) -> (r: Option<Retained>)
        requires
            old(rt).wf(),
        ensures
            final(rt).wf(),
            created(old(rt)@, final(rt)@, handle_id(r)),
    {
        rt.create()
    }

    /// A new buffer of `length` bytes.
    pub fn buffer_with_length_and_options(&self, rt: &mut Runtime, length: usize, options: ResourceOptions) -> (r: Option<Buffer>)
        requires
            old(rt).wf(),
        ensures
            final(rt).wf(),
            created(old(rt)@, final(rt)@, match r { Some(b) => Some(b.id_spec()), None => None }),
            r matches Some(b) ==> b.length_spec() == length && b.options_spec() == options,
    {
        match rt.create() {
            Some(object) => Some(Buffer { object, length, options }),
            None => None,
        }
    }

    /// A new buffer as long as `slice` is, in bytes.
    pub fn buffer_with_slice<T>(&self, rt: &mut Runtime, slice: &[T], options: ResourceOptions) -> (r: Option<Buffer>)
        requires
            old(rt).wf(),
            vstd::layout::size_of::<T>() * slice@.len() <= usize::MAX,
        ensures
            final(rt).wf(),
            created(old(rt)@, final(rt)@, match r { Some(b) => Some(b.id_spec()), None => None }),
            r matches Some(b) ==> b.length_spec() == vstd::layout::size_of::<T>() * slice@.len()
                && b.options_spec() == options,
    {
        let size = core::mem::size_of::<T>();
        let n = slice.len();
        assert(size * n <= usize::MAX);
        self.buffer_with_length_and_options(rt, size * n, options)
    }

    /// A new fence.
    pub fn fence(&self, rt: &mut Runtime) -> (r: Option<Retained>)
        requires
            old(rt).wf(),
        ensures
            final(rt).wf(),
            created(old(rt)@, final(rt)@, handle_id(r)),
    {
        rt.create()
    }

    /// A new event.
    pub fn event(&self, rt: &mut Runtime) -> (r: Option<Retained>)
        requires
            old(rt).wf(),
        ensures
            final(rt).wf(),
            created(old(rt)@, final(rt)@, handle_id(r)),
    {
        rt.create()
    }

    /// A new event that other processes can share.
    pub fn shared_event(&self, rt: &mut Runtime) -> (r: Option<Retained>)
        requires
            old(rt).wf(),
        ensures
            final(rt).wf(),
            created(old(rt)@, final(rt)@, handle_id(r)),
    {
        rt.create()
    }

    /// A new heap laid out as the live descriptor object `descriptor` describes.
    pub fn new_heap_with_descriptor(&self, rt: &mut Runtime, descriptor: &Retained) -> (r: Option<Retained>)
        requires
            old(rt).wf(),
            live(old(rt)@, descriptor.id_spec()),
        ensures
            final(rt).wf(),
            created(old(rt)@, final(rt)@, handle_id(r)),
    {
        rt.create()
    }
}

} // verus!
