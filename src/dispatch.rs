//! Task queues: the execution contexts that closure records are submitted to.
//!
//! A queue keeps the records submitted asynchronously and runs them one after
//! another, in submission order, when it drains; a synchronous submission first
//! drains what is waiting and then runs its own work before it returns. This is the
//! order a serial queue guarantees, and one of the orders a concurrent queue may
//! choose; barrier items are run after everything submitted before them and before
//! everything submitted after them.
use vstd::prelude::*;
use crate::blocks::{once0, mut0, BlOnce, BlMut};

verus! {

/// A quality-of-service class for the work of a queue.
#[derive(Clone, Copy, Debug, PartialEq, Eq, Structural)]
pub struct QOSClass(pub u32);

/// The raw values of the classes the runtime defines; `QOSClass(QOSClass::BACKGROUND)`
/// is the background class.
impl QOSClass {
    pub const USER_INTERACTIVE: u32 = 0x21;
    pub const USER_INITIATED: u32 = 0x19;
    pub const DEFAULT: u32 = 0x15;
    pub const UTILITY: u32 = 0x11;
    pub const BACKGROUND: u32 = 0x09;
    pub const UNSPECIFIED: u32 = 0x00;

    /// The lowest relative priority within a class.
    pub const QOS_MIN_RELATIVE_PRIORITY: i32 = -15;
}

/// One of the classes the runtime defines.
pub open spec fn known_qos(q: QOSClass) -> bool {
    q.0 == 0x21 || q.0 == 0x19 || q.0 == 0x15 || q.0 == 0x11 || q.0 == 0x09 || q.0 == 0x00
}

/// How often a queue drains the autorelease pool around its work items.
#[derive(Clone, Copy, Debug, PartialEq, Eq, Structural)]
pub enum AutoreleaseFrequency {
    Inherit,
    WorkItem,
    Never,
}

/// The attributes a queue is created with.
#[derive(Clone, Copy, Debug, PartialEq, Eq, Structural)]
pub struct Attr {
    pub concurrent: bool,
    pub initially_inactive: bool,
    pub frequency: AutoreleaseFrequency,
    pub qos: QOSClass,
    pub relative_priority: i32,
}

/// The attributes of a plain serial queue.
pub open spec fn serial_attr() -> Attr {
    Attr {
        concurrent: false,
        initially_inactive: false,
        frequency: AutoreleaseFrequency::Inherit,
        qos: QOSClass(0),
        relative_priority: 0,
    }
}

/// The attributes of a plain concurrent queue.
pub open spec fn concurrent_attr() -> Attr {
    Attr { concurrent: true, ..serial_attr() }
}

/// The attributes that `attr` stands for; no attributes means a plain serial queue.
pub open spec fn base_attr(attr: Option<&Attr>) -> Attr {
    match attr {
        Some(a) => *a,
        None => serial_attr(),
    }
}

fn base(attr: Option<&Attr>) -> (r: Attr)
    ensures
        r == base_attr(attr),
{
    match attr {
        Some(a) => *a,
        None => Attr {
            concurrent: false,
            initially_inactive: false,
            frequency: AutoreleaseFrequency::Inherit,
            qos: QOSClass(0),
            relative_priority: 0,
        },
    }
}

impl Attr {
    /// The attributes of a serial queue: none at all.
    pub fn serial() -> (r: Option<Attr>)
        ensures
            r is None,
    {
        None
    }

    /// The attributes of a concurrent queue.
    pub fn concurrent() -> (r: Option<Attr>)
        ensures
            r == Some(concurrent_attr()),
    {
        Some(Attr {
            concurrent: true,
            initially_inactive: false,
            frequency: AutoreleaseFrequency::Inherit,
            qos: QOSClass(0),
            relative_priority: 0,
        })
    }

    /// `attr`, made to create a queue that starts inactive.
    pub fn make_initially_inactive(attr: Option<&Attr>) -> (r: Attr)
        ensures
            r == (Attr { initially_inactive: true, ..base_attr(attr) }),
    {
        let b = base(attr);
        Attr { initially_inactive: true, ..b }
    }

    /// `attr`, with the given autorelease frequency.
    pub fn make_with_autorelease_frequencey(attr: Option<&Attr>, frequency: AutoreleaseFrequency) -> (r: Attr)
        ensures
            r == (Attr { frequency, ..base_attr(attr) }),
    {
        let b = base(attr);
        Attr { frequency, ..b }
    }

    /// `attr`, with a quality-of-service class and a relative priority within it;
    /// `None` for a class the runtime does not define or a priority outside
    /// `QOS_MIN_RELATIVE_PRIORITY..=0`.
    pub fn make_with_qos_class(attr: Option<&Attr>, qos_class: QOSClass, relative_priority: i32) -> (r: Option<Attr>)
        ensures
            (known_qos(qos_class) && -15 <= relative_priority <= 0) ==> r == Some(
                Attr { qos: qos_class, relative_priority, ..base_attr(attr) },
            ),
            !(known_qos(qos_class) && -15 <= relative_priority <= 0) ==> r is None,
    {
        let q = qos_class.0;
        let known = q == 0x21 || q == 0x19 || q == 0x15 || q == 0x11 || q == 0x09 || q == 0x00;
        if known && QOSClass::QOS_MIN_RELATIVE_PRIORITY <= relative_priority && relative_priority <= 0 {
            let b = base(attr);
            Some(Attr { qos: qos_class, relative_priority, ..b })
        } else {
            None
        }
    }

    /// Attributes of a serial queue that starts inactive.
    pub fn serial_inactive() -> (r: Attr)
        ensures
            r == (Attr { initially_inactive: true, ..serial_attr() }),
    {
        Attr::make_initially_inactive(None)
    }

    /// Attributes of a concurrent queue that starts inactive.
    pub fn concurrent_inactive() -> (r: Attr)
        ensures
            r == (Attr { initially_inactive: true, ..concurrent_attr() }),
    {
        let c = Attr::concurrent();
        Attr::make_initially_inactive(c.as_ref())
    }

    /// Attributes of a serial queue that drains the autorelease pool after each item.
    pub fn serial_with_autoreleasepool() -> (r: Attr)
        ensures
            r == (Attr { frequency: AutoreleaseFrequency::WorkItem, ..serial_attr() }),
    {
        Attr::make_with_autorelease_frequencey(None, AutoreleaseFrequency::WorkItem)
    }

    /// Attributes of a concurrent queue that drains the autorelease pool after each item.
    pub fn concurrent_with_autoreleasepool() -> (r: Attr)
        ensures
            r == (Attr { frequency: AutoreleaseFrequency::WorkItem, ..concurrent_attr() }),
    {
        let c = Attr::concurrent();
        Attr::make_with_autorelease_frequencey(c.as_ref(), AutoreleaseFrequency::WorkItem)
    }

    /// These attributes, made to create a queue that starts inactive.
    pub fn initially_inactive(&self) -> (r: Attr)
        ensures
            r == (Attr { initially_inactive: true, ..*self }),
    {
        Attr::make_initially_inactive(Some(self))
    }

    /// These attributes, with the given autorelease frequency.
    pub fn with_autorelease_frequencey(&self, frequency: AutoreleaseFrequency) -> (r: Attr)
        ensures
            r == (Attr { frequency, ..*self }),
    {
        Attr::make_with_autorelease_frequencey(Some(self), frequency)
    }
}

/// A closure record waiting on a queue.
pub enum Task<W> {
    Once(BlOnce<W>),
    Repeat(BlMut<W>),
}

/// A task ready to run: a once record that was not invoked yet, or a repeatable one.
pub open spec fn task_ready<W>(t: Task<W>) -> bool {
    match t {
        Task::Once(b) => b.wf() && b.capture() is Some,
        Task::Repeat(b) => b.wf(),
    }
}

/// The capture a waiting task will call.
pub open spec fn task_capture<W>(t: Task<W>) -> W {
    match t {
        Task::Once(b) => b.capture()->0,
        Task::Repeat(b) => b.capture(),
    }
}

struct Item<W> {
    task: Task<W>,
    barrier: bool,
    ticket: Ghost<nat>,
}

/// The abstract state of a queue.
pub struct QueueState {
    pub label: Option<Seq<char>>,
    pub attr: Attr,
    /// The tickets of the items waiting, in submission order.
    pub pending: Seq<nat>,
    /// Whether each waiting item is a barrier.
    pub barriers: Seq<bool>,
    /// The tickets of the items run so far, in the order they ran.
    pub executed: Seq<nat>,
    /// How many items were submitted; the next one gets this ticket.
    pub submitted: nat,
}

/// The tickets `0..n`, in order.
pub open spec fn tickets_upto(n: nat) -> Seq<nat> {
    Seq::new(n, |i: int| i as nat)
}

/// A queue of work records of type `W`.
pub struct Queue<W> {
    label: Option<String>,
    attr: Attr,
    pending: Vec<Item<W>>,
    executed: Ghost<Seq<nat>>,
    ran: Ghost<Seq<W>>,
    submitted: Ghost<nat>,
}

impl<W> View for Queue<W> {
    type V = QueueState;

    closed spec fn view(&self) -> QueueState {
        QueueState {
            label: match self.label {
                Some(l) => Some(l@),
                None => None,
            },
            attr: self.attr,
            pending: self.pending@.map_values(|it: Item<W>| it.ticket@),
            barriers: self.pending@.map_values(|it: Item<W>| it.barrier),
            executed: self.executed@,
            submitted: self.submitted@,
        }
    }
}

impl<W: FnMut()> Queue<W> {
    /// The captures of the asynchronously submitted items that have run, in the
    /// order they were called.
    pub closed spec fn run_log(&self) -> Seq<W> {
        self.ran@
    }

    /// The captures of the waiting items, in submission order.
    pub closed spec fn pending_captures(&self) -> Seq<W> {
        self.pending@.map_values(|it: Item<W>| task_capture(it.task))
    }

    /// Every waiting record can run, and the items run so far followed by the
    /// waiting ones are exactly the items submitted, in submission order.
    pub closed spec fn wf(&self) -> bool {
        &&& forall|i: int| 0 <= i < self.pending.len() ==> task_ready(#[trigger] self.pending@[i].task)
        &&& self@.executed + self@.pending == tickets_upto(self@.submitted)
    }

    /// A serial queue with no attributes.
    pub fn new() -> (q: Queue<W>)
        ensures
            q.wf(),
            q.run_log().len() == 0,
            q.pending_captures().len() == 0,
            q@ == (QueueState {
                label: None,
                attr: serial_attr(),
                pending: Seq::empty(),
                barriers: Seq::empty(),
                executed: Seq::empty(),
                submitted: 0,
            }),
    {
        Queue::with_label_and_attrs(None, None)
    }

    /// A queue named `label`, created with `attr`, or a plain serial queue without.
    pub fn with_label_and_attrs(label: Option<&str>, attr: Option<&Attr>) -> (q: Queue<W>)
        ensures
            q.wf(),
            q.run_log().len() == 0,
            q.pending_captures().len() == 0,
            q@ == (QueueState {
                label: match label {
                    Some(l) => Some(l@),
                    None => None,
                },
                attr: base_attr(attr),
                pending: Seq::empty(),
                barriers: Seq::empty(),
                executed: Seq::empty(),
                submitted: 0,
            }),
    {
        let label = match label {
            Some(l) => Some(l.to_owned()),
            None => None,
        };
        let q = Queue { label, attr: base(attr), pending: Vec::new(), executed: Ghost(Seq::empty()), ran: Ghost(Seq::empty()), submitted: Ghost(0) };
        assert(q@.pending =~= Seq::<nat>::empty());
        assert(q.pending_captures() =~= Seq::<W>::empty());
        assert(q@.barriers =~= Seq::<bool>::empty());
        assert(q@.executed + q@.pending =~= tickets_upto(0));
        q
    }

    /// A serial queue that drains the autorelease pool after each item.
    pub fn serial_with_autoreleasepool() -> (q: Queue<W>)
        ensures
            q.wf(),
            q.run_log().len() == 0,
            q.pending_captures().len() == 0,
            q@ == (QueueState {
                label: None,
                attr: Attr { frequency: AutoreleaseFrequency::WorkItem, ..serial_attr() },
                pending: Seq::empty(),
                barriers: Seq::empty(),
                executed: Seq::empty(),
                submitted: 0,
            }),
    {
        let attr = Attr::serial_with_autoreleasepool();
        Queue::with_label_and_attrs(None, Some(&attr))
    }

    /// The label the queue was created with.
    pub fn label(&self) -> (r: Option<&str>)
        ensures
            match r {
                Some(l) => self@.label == Some(l@),
                None => self@.label is None,
            },
    {
        match &self.label {
            Some(l) => Some(l.as_str()),
            None => None,
        }
    }

    /// The attributes the queue was created with.
    pub fn attr(&self) -> (r: Attr)
        ensures
            r == self@.attr,
    {
        self.attr
    }

    /// How many items wait to run.
    pub fn pending_len(&self) -> (r: usize)
        ensures
            r as nat == self@.pending.len(),
    {
        self.pending.len()
    }

    fn submit(&mut self, task: Task<W>, barrier: bool)
        requires
            old(self).wf(),
            task_ready(task),
        ensures
            final(self).wf(),
            final(self).pending_captures() == old(self).pending_captures().push(task_capture(task)),
            final(self).run_log() == old(self).run_log(),
            final(self)@ == (QueueState {
                pending: old(self)@.pending.push(old(self)@.submitted),
                barriers: old(self)@.barriers.push(barrier),
                submitted: old(self)@.submitted + 1,
                ..old(self)@
            }),
    {
        let ghost t = self.submitted@;
        self.pending.push(Item { task, barrier, ticket: Ghost(t) });
        self.submitted = Ghost(t + 1);
        assert(self@.pending =~= old(self)@.pending.push(t));
        assert(self@.barriers =~= old(self)@.barriers.push(barrier));
        assert(self@.executed + self@.pending =~= (old(self)@.executed + old(self)@.pending).push(t));
        assert(tickets_upto(t).push(t) =~= tickets_upto(t + 1));
        assert(self.pending_captures() =~= old(self).pending_captures().push(task_capture(task)));
    }

    /// Submits `f` to run once, later.
    pub fn async_once(&mut self, f: W)
        requires
            old(self).wf(),
        ensures
            final(self).wf(),
            final(self).pending_captures() == old(self).pending_captures().push(f),
            final(self).run_log() == old(self).run_log(),
            final(self)@ == (QueueState {
                pending: old(self)@.pending.push(old(self)@.submitted),
                barriers: old(self)@.barriers.push(false),
                submitted: old(self)@.submitted + 1,
                ..old(self)@
            }),
    {
        self.submit(Task::Once(once0(f)), false);
    }

    /// Submits `f` in a repeatable record, to run later.
    pub fn async_mut(&mut self, f: W)
        requires
            old(self).wf(),
        ensures
            final(self).wf(),
            final(self).pending_captures() == old(self).pending_captures().push(f),
            final(self).run_log() == old(self).run_log(),
            final(self)@ == (QueueState {
                pending: old(self)@.pending.push(old(self)@.submitted),
                barriers: old(self)@.barriers.push(false),
                submitted: old(self)@.submitted + 1,
                ..old(self)@
            }),
    {
        self.submit(Task::Repeat(mut0(f)), false);
    }

    /// Submits `f` to run once, later, as a barrier: it runs after every item
    /// submitted before it and before every item submitted after it.
    pub fn barrier_async_once(&mut self, f: W)
        requires
            old(self).wf(),
        ensures
            final(self).wf(),
            final(self).pending_captures() == old(self).pending_captures().push(f),
            final(self).run_log() == old(self).run_log(),
            final(self)@ == (QueueState {
                pending: old(self)@.pending.push(old(self)@.submitted),
                barriers: old(self)@.barriers.push(true),
                submitted: old(self)@.submitted + 1,
                ..old(self)@
            }),
    {
        self.submit(Task::Once(once0(f)), true);
    }

    /// Runs every waiting item, in submission order, and releases its record.
    pub fn run_pending(&mut self)
        requires
            old(self).wf(),
            forall|g: W| call_requires(g, ()),
        ensures
            final(self).wf(),
            final(self).pending_captures().len() == 0,
            final(self).run_log() == old(self).run_log() + old(self).pending_captures(),
            forall|i: int| 0 <= i < old(self)@.pending.len()
                ==> call_ensures(#[trigger] old(self).pending_captures()[i], (), ()),
            final(self)@ == (QueueState {
                pending: Seq::empty(),
                barriers: Seq::empty(),
                executed: old(self)@.executed + old(self)@.pending,
                ..old(self)@
            }),
    {
        let ghost all = old(self)@.executed + old(self)@.pending;
        let ghost caps = old(self).pending_captures();
        let ghost n0 = old(self).pending.len() as int;
        while self.pending.len() > 0
            invariant
                self.wf(),
                0 <= self.pending.len() <= n0,
                caps.len() == n0,
                self.pending_captures() == caps.subrange(n0 - self.pending.len(), n0),
                forall|k: int| 0 <= k < n0 - self.pending.len() ==> call_ensures(#[trigger] caps[k], (), ()),
                self.run_log() == old(self).run_log() + caps.subrange(0, n0 - self.pending.len()),
                forall|g: W| call_requires(g, ()),
                self@.executed + self@.pending == all,
                self@.attr == old(self)@.attr,
                self@.label == old(self)@.label,
                self@.submitted == old(self)@.submitted,
                self@.pending.len() == self@.barriers.len(),
            decreases self.pending.len(),
        {
            let ghost before = self@;
            let ghost items = self.pending@;
            let ghost done = n0 - self.pending.len();
            let ghost before_caps = self.pending_captures();
            assert(task_ready(items[0].task));
            assert(self.pending_captures()[0] == caps[done]);
            let item = self.pending.remove(0);
            assert(task_capture(item.task) == caps[done]);
            assert(forall|i: int| 0 <= i < self.pending.len() ==> self.pending@[i] == items[i + 1]);
            match item.task {
                Task::Once(mut b) => {
                    b.invoke0();
                    b.release();
                },
                Task::Repeat(mut b) => {
                    b.invoke0();
                    b.release();
                },
            }
            self.executed = Ghost(self.executed@.push(item.ticket@));
            self.ran = Ghost(self.ran@.push(task_capture(item.task)));
            assert(caps.subrange(0, done + 1) =~= caps.subrange(0, done).push(caps[done]));
            assert(call_ensures(caps[done], (), ()));
            assert forall|i: int| 0 <= i < self.pending.len()
                implies #[trigger] self.pending_captures()[i] == caps[done + 1 + i] by {
                assert(self.pending_captures()[i] == task_capture(self.pending@[i].task));
                assert(before_caps[i + 1] == task_capture(items[i + 1].task));
                assert(before_caps[i + 1] == caps[done + 1 + i]);
            }
            assert(self.pending_captures() =~= caps.subrange(n0 - self.pending.len(), n0));
            assert(self@.pending =~= before.pending.drop_first());
            assert(self@.executed + self@.pending =~= before.executed + before.pending);
        }
        assert(self@.pending =~= Seq::<nat>::empty());
        assert(self@.barriers =~= Seq::<bool>::empty());
        assert(self@.executed =~= all);
        assert(self.pending_captures() =~= Seq::<W>::empty());
        assert(caps.subrange(0, n0) =~= caps);
    }

    /// Runs `f` once, after every item that waits, and returns when it is done.
    pub fn sync_once<F: FnOnce()>(&mut self, f: F)
        requires
            old(self).wf(),
            forall|g: W| call_requires(g, ()),
            call_requires(f, ()),
        ensures
            final(self).wf(),
            call_ensures(f, (), ()),
            final(self).pending_captures().len() == 0,
            final(self).run_log() == old(self).run_log() + old(self).pending_captures(),
            forall|i: int| 0 <= i < old(self)@.pending.len()
                ==> call_ensures(#[trigger] old(self).pending_captures()[i], (), ()),
            final(self)@ == (QueueState {
                pending: Seq::empty(),
                barriers: Seq::empty(),
                executed: old(self)@.executed + old(self)@.pending.push(old(self)@.submitted),
                submitted: old(self)@.submitted + 1,
                ..old(self)@
            }),
    {
        self.run_pending();
        let mut b = once0(f);
        b.invoke0();
        b.release();
        self.finish_sync();
        assert(old(self)@.executed + old(self)@.pending.push(old(self)@.submitted)
            =~= (old(self)@.executed + old(self)@.pending).push(old(self)@.submitted));
    }

    /// Runs `f` through a repeatable record, after every item that waits, and
    /// returns when it is done.
    pub fn sync_mut<F: FnMut()>(&mut self, f: F)
        requires
            old(self).wf(),
            forall|g: W| call_requires(g, ()),
            forall|g: F| call_requires(g, ()),
        ensures
            final(self).wf(),
            call_ensures(f, (), ()),
            final(self).pending_captures().len() == 0,
            final(self).run_log() == old(self).run_log() + old(self).pending_captures(),
            forall|i: int| 0 <= i < old(self)@.pending.len()
                ==> call_ensures(#[trigger] old(self).pending_captures()[i], (), ()),
            final(self)@ == (QueueState {
                pending: Seq::empty(),
                barriers: Seq::empty(),
                executed: old(self)@.executed + old(self)@.pending.push(old(self)@.submitted),
                submitted: old(self)@.submitted + 1,
                ..old(self)@
            }),
    {
        self.run_pending();
        let mut b = mut0(f);
        b.invoke0();
        b.release();
        self.finish_sync();
        assert(old(self)@.executed + old(self)@.pending.push(old(self)@.submitted)
            =~= (old(self)@.executed + old(self)@.pending).push(old(self)@.submitted));
    }

    /// Records that a synchronous item ran on an empty queue.
    fn finish_sync(&mut self)
        requires
            old(self).wf(),
            old(self)@.pending.len() == 0,
        ensures
            final(self).wf(),
            final(self).pending_captures().len() == 0,
            final(self).run_log() == old(self).run_log(),
            final(self)@ == (QueueState {
                executed: old(self)@.executed.push(old(self)@.submitted),
                submitted: old(self)@.submitted + 1,
                ..old(self)@
            }),
    {
        let ghost t = self.submitted@;
        self.executed = Ghost(self.executed@.push(t));
        self.submitted = Ghost(t + 1);
        assert(old(self)@.executed + old(self)@.pending =~= old(self)@.executed);
        assert(self@.pending =~= old(self)@.pending);
        assert(self@.executed + self@.pending =~= self@.executed);
        assert(tickets_upto(t).push(t) =~= tickets_upto(t + 1));
    }
}

/// On a queue, items run in the order they were submitted: the run log is always
/// the tickets `0..k` in order, so an item submitted before another runs before it.
pub proof fn lemma_submission_order(s: QueueState, i: int, j: int)
    requires
        s.executed + s.pending == tickets_upto(s.submitted),
        0 <= i < j < s.executed.len(),
    ensures
        s.executed[i] == i,
        s.executed[i] < s.executed[j],
{
    let run = s.executed + s.pending;
    assert(run.len() == s.submitted);
    assert(run[i] == s.executed[i]);
    assert(run[j] == s.executed[j]);
    assert(tickets_upto(s.submitted)[i] == i);
    assert(tickets_upto(s.submitted)[j] == j);
}

/// A barrier at position `k` of the waiting items runs after each item waiting
/// before it and before each item waiting after it, once the queue drains.
pub proof fn lemma_barrier_order(s: QueueState, k: int, i: int, j: int)
    requires
        s.executed + s.pending == tickets_upto(s.submitted),
        s.pending.len() == s.barriers.len(),
        0 <= i < k < j < s.pending.len(),
        s.barriers[k],
    ensures
        ({
            let run = s.executed + s.pending;
            let n = s.executed.len() as int;
            &&& run[n + i] == s.pending[i]
            &&& run[n + k] == s.pending[k]
            &&& run[n + j] == s.pending[j]
            &&& s.pending[i] < s.pending[k] < s.pending[j]
        }),
{
    let run = s.executed + s.pending;
    let n = s.executed.len() as int;
    assert(run.len() == s.submitted);
    assert(run[n + i] == s.pending[i]);
    assert(run[n + k] == s.pending[k]);
    assert(run[n + j] == s.pending[j]);
    assert(tickets_upto(s.submitted)[n + i] == n + i);
    assert(tickets_upto(s.submitted)[n + k] == n + k);
    assert(tickets_upto(s.submitted)[n + j] == n + j);
}

} // verus!
