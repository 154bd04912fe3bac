use std::cell::RefCell;
use std::rc::Rc;

use cidre::arc::Runtime;
use cidre::av::{FileTypeProfile, Status, Time, Writer};
use cidre::dispatch::{Attr, AutoreleaseFrequency, QOSClass, Queue};
use cidre::mtl::{Device, ResourceOptions};

type Work = Box<dyn FnMut()>;

#[derive(Debug)]
struct Foo {}

impl Drop for Foo {
    fn drop(&mut self) {
        println!("drop!")
    }
}

fn logger(log: &Rc<RefCell<Vec<u32>>>, n: u32) -> Work {
    let l = log.clone();
    Box::new(move || l.borrow_mut().push(n))
}

#[test]
fn test_sync_block() {
    let mut q: Queue<Work> = Queue::new();

    let foo = Foo {};
    let b = move || {
        println!("nice! {:?}", foo);
    };
    q.async_once(Box::new(b));

    let foo2 = Foo {};
    q.sync_mut(move || {
        println!("nice {:?}", foo2);
    });
    assert_eq!(q.pending_len(), 0);
}

#[test]
fn queue_test_attrs() {
    let attr = Attr::make_with_autorelease_frequencey(None, AutoreleaseFrequency::Never);
    assert_eq!(attr.frequency, AutoreleaseFrequency::Never);
    assert!(!attr.concurrent);
}

#[test]
fn queue_test_queue() {
    fn foo() {
        println!("nice");
    }
    let mut q: Queue<Work> = Queue::new();
    q.sync_once(foo);
    q.sync_mut(foo);
    assert_eq!(q.pending_len(), 0);
}

#[test]
fn test_simple_block() {
    let foo = Foo {};
    let mut b = cidre::blocks::mut0(move || println!("nice {foo:?}"));
    b.invoke0();
    b.invoke0();

    let mut q: Queue<Work> = Queue::new();
    q.async_mut(Box::new(|| println!("nice")));
    q.sync_mut(|| println!("fuck"));
    b.release();

    println!("finished");
}

#[test]
fn serial_queue_keeps_submission_order() {
    let log = Rc::new(RefCell::new(Vec::new()));
    let mut q: Queue<Work> = Queue::new();
    for n in 0..6 {
        q.async_once(logger(&log, n));
    }
    assert_eq!(q.pending_len(), 6);
    assert!(log.borrow().is_empty());
    q.run_pending();
    assert_eq!(*log.borrow(), vec![0, 1, 2, 3, 4, 5]);
    assert_eq!(q.pending_len(), 0);
}

#[test]
fn sync_runs_after_waiting_items() {
    let log = Rc::new(RefCell::new(Vec::new()));
    let mut q: Queue<Work> = Queue::new();
    q.async_once(logger(&log, 1));
    q.async_mut(logger(&log, 2));
    let l = log.clone();
    q.sync_once(move || l.borrow_mut().push(3));
    assert_eq!(*log.borrow(), vec![1, 2, 3]);
}

#[test]
fn concurrent_queue_barrier() {
    let log = Rc::new(RefCell::new(Vec::new()));
    let attr = Attr::concurrent();
    let mut q: Queue<Work> = Queue::with_label_and_attrs(Some("work"), attr.as_ref());
    assert!(q.attr().concurrent);
    assert_eq!(q.label(), Some("work"));
    q.async_once(logger(&log, 0));
    q.async_once(logger(&log, 1));
    q.barrier_async_once(logger(&log, 100));
    q.async_once(logger(&log, 2));
    q.async_once(logger(&log, 3));
    q.run_pending();
    let run = log.borrow();
    let at = run.iter().position(|&x| x == 100).unwrap();
    assert!(run[..at].contains(&0) && run[..at].contains(&1));
    assert!(run[at + 1..].contains(&2) && run[at + 1..].contains(&3));
    assert_eq!(run.len(), 5);
}

#[test]
fn attr_constructors() {
    assert!(Attr::serial().is_none());
    let c = Attr::concurrent().unwrap();
    assert!(c.concurrent);
    assert!(Attr::serial_inactive().initially_inactive);
    assert!(!Attr::serial_inactive().concurrent);
    let ci = Attr::concurrent_inactive();
    assert!(ci.initially_inactive && ci.concurrent);
    assert_eq!(Attr::serial_with_autoreleasepool().frequency, AutoreleaseFrequency::WorkItem);
    let cw = Attr::concurrent_with_autoreleasepool();
    assert!(cw.concurrent);
    assert_eq!(cw.frequency, AutoreleaseFrequency::WorkItem);
    assert!(c.initially_inactive().initially_inactive);
    assert_eq!(c.with_autorelease_frequencey(AutoreleaseFrequency::Never).frequency, AutoreleaseFrequency::Never);
    let q: Queue<Work> = Queue::serial_with_autoreleasepool();
    assert_eq!(q.label(), None);
    assert_eq!(q.attr().frequency, AutoreleaseFrequency::WorkItem);
}

#[test]
fn qos_attr_validation() {
    let bg = QOSClass(QOSClass::BACKGROUND);
    let a = Attr::make_with_qos_class(None, bg, -3).unwrap();
    assert_eq!(a.qos, bg);
    assert_eq!(a.relative_priority, -3);
    assert!(Attr::make_with_qos_class(None, bg, QOSClass::QOS_MIN_RELATIVE_PRIORITY).is_some());
    assert!(Attr::make_with_qos_class(None, bg, -16).is_none());
    assert!(Attr::make_with_qos_class(None, bg, 1).is_none());
    assert!(Attr::make_with_qos_class(None, QOSClass(0x05), 0).is_none());
    let c = Attr::concurrent();
    let u = Attr::make_with_qos_class(c.as_ref(), QOSClass(QOSClass::UTILITY), 0).unwrap();
    assert!(u.concurrent);
}

#[test]
fn blit_command_encoder_basics() {
    let mut rt = Runtime::with_capacity(8);
    let device = Device::default(&mut rt).unwrap();

    let command_queue = device.command_queue(&mut rt).unwrap();
    let fence = device.fence(&mut rt).unwrap();
    assert_ne!(command_queue.id(), fence.id());

    rt.release(fence);
    rt.release(command_queue);
    rt.release(device.into_object());
    assert_eq!(rt.release_calls(), 3);
}

#[test]
fn device_factories() {
    let mut rt = Runtime::with_capacity(4);
    let device = Device::default(&mut rt).unwrap();
    let data = [1u32, 2, 3];
    let buf = device.buffer_with_slice(&mut rt, &data, ResourceOptions(0)).unwrap();
    assert_eq!(buf.length(), 12);
    let buf2 = device.buffer_with_length_and_options(&mut rt, 64, ResourceOptions(2)).unwrap();
    assert_eq!(buf2.length(), 64);
    assert_eq!(buf2.options(), ResourceOptions(2));
    let lib = device.default_library(&mut rt).unwrap();
    assert!(device.event(&mut rt).is_none());
    assert!(device.shared_event(&mut rt).is_none());
    assert!(device.texture_with_descriptor(&mut rt, &lib).is_none());
    assert!(device.new_heap_with_descriptor(&mut rt, &lib).is_none());
    assert_eq!(rt.created(), 4);
}

#[test]
fn writer_status_machine() {
    let mut w = Writer::new();
    assert_eq!(w.status(), Status::Unknown);
    assert!(w.can_add_input(1));
    assert!(w.add_input(1));
    assert!(!w.can_add_input(1));
    assert!(!w.add_input(1));
    let t = Time { value: 1, timescale: 600, flags: 1, epoch: 0 };
    w.set_initial_segment_start_time(t);
    assert_eq!(w.initial_segment_start_time(), t);
    assert!(w.start_writing());
    assert!(!w.start_writing());
    assert!(!w.can_add_input(2));
    w.set_initial_segment_start_time(Time { value: 5, timescale: 600, flags: 1, epoch: 0 });
    assert_eq!(w.initial_segment_start_time(), t);
    w.start_session_at_source_time(t);
    w.end_session_at_source_time(t);
    w.finish_writing();
    assert_eq!(w.status(), Status::Completed);
    w.cancel_writing();
    assert_eq!(w.status(), Status::Completed);
    assert_eq!(w.inputs().len(), 1);
    assert_eq!(w.error(), None);
}

#[test]
fn writer_failure_and_cancel() {
    let mut w = Writer::new();
    w.cancel_writing();
    assert_eq!(w.status(), Status::Cancelled);
    let mut w = Writer::new();
    w.start_writing();
    w.fail_writing(-11800);
    assert_eq!(w.status(), Status::Failed);
    assert_eq!(w.error(), Some(-11800));
}

#[test]
fn writer_properties() {
    let mut w = Writer::new();
    assert!(!w.should_optimize_for_network_use());
    w.set_should_optimize_for_network_use(true);
    assert!(w.should_optimize_for_network_use());
    w.set_output_file_type_profile(Some(FileTypeProfile::Mpeg4AppleHls));
    assert_eq!(w.output_file_type_profile(), Some(FileTypeProfile::Mpeg4AppleHls));
    let t = Time { value: 6, timescale: 1, flags: 1, epoch: 0 };
    w.set_preferred_output_segment_interval(t);
    assert_eq!(w.preferred_output_segment_interval(), t);
    w.set_delegate(Some(3));
    assert_eq!(w.delegate(), Some(3));
}
