//! The one-shot result cell behind a completion handler.
//!
//! A foreign completion handler fills the cell once (`ready`); the native side polls
//! it (`poll`), leaving a waker behind while nothing has arrived. The cell fires at
//! most once: a second `ready` is ignored, and a result that was taken is never
//! handed out again.
use vstd::prelude::*;

verus! {

#[verifier::external_type_specification]
#[verifier::external_body]
pub struct ExWaker(std::task::Waker);

/// Relies on std::task::Waker::wake: it schedules the task that left the waker,
/// and consumes the waker.
pub assume_specification[ std::task::Waker::wake ](w: std::task::Waker);

/// What a poll of the cell gives.
pub enum Poll<T> {
    Ready(T),
    Pending,
}

/// The abstract state of a result cell.
pub struct SharedState<T> {
    /// The result waiting to be taken.
    pub ready: Option<T>,
    /// The waker left by the last poll that found no result, if it was not woken yet.
    pub waker: Option<std::task::Waker>,
    /// Whether a result was ever delivered.
    pub fired: bool,
}

/// The state of a new cell.
pub open spec fn fresh<T>() -> SharedState<T> {
    SharedState { ready: None, waker: None, fired: false }
}

/// The state after the completion handler delivers `v`: the first delivery is kept,
/// and releases any waiting waker; later ones change nothing.
pub open spec fn after_ready<T>(s: SharedState<T>, v: T) -> SharedState<T> {
    if s.fired {
        s
    } else {
        SharedState { ready: Some(v), waker: None, fired: true }
    }
}

/// What a poll of a cell in state `s` returns.
pub open spec fn poll_result<T>(s: SharedState<T>) -> Option<T> {
    s.ready
}

/// The state after a poll by a task with waker `w`: a ready result is taken out;
/// otherwise `w` is left behind, in place of any earlier waker.
pub open spec fn after_poll<T>(s: SharedState<T>, w: std::task::Waker) -> SharedState<T> {
    match s.ready {
        Some(_) => SharedState { ready: None, ..s },
        None => SharedState { ready: None, waker: Some(w), fired: s.fired },
    }
}

/// The cell that a completion handler and a future share.
pub struct Shared<T> {
    ready: Option<T>,
    pending: Option<std::task::Waker>,
    fired: bool,
}

impl<T> View for Shared<T> {
    type V = SharedState<T>;

    closed spec fn view(&self) -> SharedState<T> {
        SharedState { ready: self.ready, waker: self.pending, fired: self.fired }
    }
}

impl<T> Shared<T> {
    /// A cell with no result and no waker.
    pub fn new() -> (s: Shared<T>)
        ensures
            s@ == fresh::<T>(),
    {
        Shared { ready: None, pending: None, fired: false }
    }

    /// Delivers the result. The first delivery is stored and wakes the waiting
    /// poller, if any; a second delivery is ignored. Returns whether a waker was woken.
    pub fn ready(&mut self, result: T) -> (woke: bool)
        ensures
            final(self)@ == after_ready(old(self)@, result),
            woke == (!old(self)@.fired && old(self)@.waker is Some),
    {
        if self.fired {
            return false;
        }
        self.ready = Some(result);
        self.fired = true;
        match self.pending.take() {
            Some(waker) => {
                waker.wake();
                true
            },
            None => false,
        }
    }

    /// Takes the result if it has arrived; otherwise leaves `waker` to be woken.
    pub fn poll(&mut self, waker: std::task::Waker) -> (r: Poll<T>)
        ensures
            final(self)@ == after_poll(old(self)@, waker),
            match poll_result(old(self)@) {
                Some(v) => r == Poll::Ready(v),
                None => r is Pending,
            },
    {
        match self.ready.take() {
            Some(v) => Poll::Ready(v),
            None => {
                self.pending = Some(waker);
                Poll::Pending
            },
        }
    }

    /// Whether a result was ever delivered.
    pub fn is_fired(&self) -> (r: bool)
        ensures
            r == self@.fired,
    {
        self.fired
    }

    /// Whether a waker waits for the result.
    pub fn is_waiting(&self) -> (r: bool)
        ensures
            r == (self@.waker is Some),
    {
        self.pending.is_some()
    }
}

/// The result of a completion handler that reports only an optional error.
pub open spec fn ok_spec<E>(error: Option<E>) -> Result<(), E> {
    match error {
        Some(e) => Err(e),
        None => Ok(()),
    }
}

/// The result of a completion handler that reports an optional value and an
/// optional error: an error wins, else the value.
pub open spec fn value_spec<V, E>(value: Option<V>, error: Option<E>) -> Result<V, E>
    recommends
        error is Some || value is Some,
{
    match error {
        Some(e) => Err(e),
        None => Ok(value->0),
    }
}

/// Maps the argument of an error-only completion handler to its result.
pub fn ok_result<E>(error: Option<E>) -> (r: Result<(), E>)
    ensures
        r == ok_spec(error),
{
    match error {
        Some(e) => Err(e),
        None => Ok(()),
    }
}

/// Maps the arguments of a value-or-error completion handler to its result. The
/// handler reports a value whenever it reports no error.
pub fn value_result<V, E>(value: Option<V>, error: Option<E>) -> (r: Result<V, E>)
    requires
        error is Some || value is Some,
    ensures
        r == value_spec(value, error),
{
    match error {
        Some(e) => Err(e),
        None => Ok(value.unwrap()),
    }
}

/// Delivers the outcome of an error-only completion handler to the cell.
pub fn complete_ok<E>(cell: &mut Shared<Result<(), E>>, error: Option<E>) -> (woke: bool)
    ensures
        final(cell)@ == after_ready(old(cell)@, ok_spec(error)),
        woke == (!old(cell)@.fired && old(cell)@.waker is Some),
{
    let r = ok_result(error);
    cell.ready(r)
}

/// Delivers the outcome of a value-or-error completion handler to the cell.
pub fn complete_value<V, E>(cell: &mut Shared<Result<V, E>>, value: Option<V>, error: Option<E>) -> (woke: bool)
    requires
        error is Some || value is Some,
    ensures
        final(cell)@ == after_ready(old(cell)@, value_spec(value, error)),
        woke == (!old(cell)@.fired && old(cell)@.waker is Some),
{
    let r = value_result(value, error);
    cell.ready(r)
}

/// A future polled before its completion handler runs is not ready and leaves its
/// waker; once the handler has delivered `v`, the next poll returns `v`; a poll
/// after that is not ready again, and a second delivery changes nothing.
pub proof fn lemma_fire_once<T>(v: T, u: T, w: std::task::Waker)
    ensures
        poll_result(fresh::<T>()) is None,
        after_poll(fresh::<T>(), w).waker == Some(w),
        poll_result(after_ready(after_poll(fresh::<T>(), w), v)) == Some(v),
        poll_result(after_ready(fresh::<T>(), v)) == Some(v),
        poll_result(after_poll(after_ready(after_poll(fresh::<T>(), w), v), w)) is None,
        poll_result(after_ready(after_poll(after_ready(fresh::<T>(), v), w), u)) is None,
        after_ready(after_ready(fresh::<T>(), v), u) == after_ready(fresh::<T>(), v),
{
}

/// Whatever state a cell is in, a poll leaves it without a result, so no result is
/// handed out twice; a poll that finds nothing leaves exactly its own waker, so at
/// most one waker is held; and a cell that has fired ignores every later delivery.
pub proof fn lemma_no_stale_result<T>(s: SharedState<T>, v: T, w: std::task::Waker)
    ensures
        poll_result(after_poll(s, w)) is None,
        after_poll(s, w).fired == s.fired,
        s.ready is None ==> after_poll(s, w).waker == Some(w),
        s.fired ==> after_ready(s, v) == s,
{
}

/// An error reported by a completion handler becomes `Err`; a value reported with
/// no error becomes `Ok`.
pub proof fn lemma_result_shape<V, E>(v: V, e: E)
    ensures
        value_spec(None::<V>, Some(e)) == Err::<V, E>(e),
        value_spec(Some(v), None::<E>) == Ok::<V, E>(v),
        value_spec(Some(v), Some(e)) == Err::<V, E>(e),
        ok_spec(Some(e)) == Err::<(), E>(e),
        ok_spec(None::<E>) == Ok::<(), E>(()),
{
}

} // verus!
