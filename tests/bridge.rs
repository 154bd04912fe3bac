use std::cell::{Cell, RefCell};
use std::rc::Rc;
use std::sync::atomic::{AtomicUsize, Ordering};
use std::sync::Arc;

use cidre::arc::Runtime;
use cidre::blocks::{self, BlockError, Flags, Isa};
use cidre::comp::{complete_ok, complete_value, ok_result, value_result, Poll, Shared};

struct CountWake(AtomicUsize);

impl std::task::Wake for CountWake {
    fn wake(self: Arc<Self>) {
        self.0.fetch_add(1, Ordering::SeqCst);
    }
}

fn counting_waker() -> (Arc<CountWake>, std::task::Waker) {
    let c = Arc::new(CountWake(AtomicUsize::new(0)));
    let w = std::task::Waker::from(c.clone());
    (c, w)
}

#[test]
fn owned_handles_release_once_each() {
    let mut rt = Runtime::with_capacity(16);
    let n = 10;
    for _ in 0..n {
        let h = rt.create().unwrap();
        rt.release(h);
    }
    assert_eq!(rt.release_calls(), 10);
    assert_eq!(rt.created(), 10);
    for id in 0..10 {
        assert_eq!(rt.retain_count(id), 0);
        assert!(!rt.is_live(id));
    }
}

#[test]
fn shared_handles_count_references() {
    let mut rt = Runtime::with_capacity(4);
    let a = rt.create().unwrap();
    let b = rt.retain(&a);
    assert_eq!(a.id(), b.id());
    assert_eq!(rt.retain_count(a.id()), 2);
    let id = a.id();
    rt.release(a);
    assert!(rt.is_live(id));
    assert_eq!(rt.retain_count(id), 1);
    rt.release(b);
    assert!(!rt.is_live(id));
    assert_eq!(rt.release_calls(), 2);
}

#[test]
fn runtime_full_gives_no_handle() {
    let mut rt = Runtime::with_capacity(1);
    let h = rt.create().unwrap();
    assert!(rt.create().is_none());
    assert_eq!(rt.created(), 1);
    rt.release(h);
    assert!(rt.create().is_none());
    assert_eq!(rt.retain_count(5), 0);
}

#[test]
fn once_record_runs_once() {
    let runs = Rc::new(Cell::new(0u32));
    let r = runs.clone();
    let mut b = blocks::once0(move || {
        r.set(r.get() + 1);
        7u32
    });
    assert!(!b.is_spent());
    assert_eq!(b.invoke0(), Some(7));
    assert!(b.is_spent());
    assert_eq!(runs.get(), 1);
    assert_eq!(b.invoke0(), None);
    assert_eq!(runs.get(), 1);
    assert!(!b.release());
}

#[test]
fn once_record_release_drops_unused_capture() {
    let token = Rc::new(());
    let held = token.clone();
    let b = blocks::once0(move || {
        let _keep = &held;
    });
    assert_eq!(Rc::strong_count(&token), 2);
    assert!(b.release());
    assert_eq!(Rc::strong_count(&token), 1);
}

#[test]
fn once_record_with_arguments() {
    let mut b1 = blocks::once1(|a: i32| a * 3);
    assert_eq!(b1.invoke1(5), Some(15));
    assert_eq!(b1.invoke1(5), None);
    let mut b2 = blocks::once2(|a: i32, b: i32| a - b);
    assert_eq!(b2.invoke2(10, 4), Some(6));
    assert_eq!(b2.invoke2(10, 4), None);
}

#[test]
fn repeatable_record_counts_up() {
    let counter = Rc::new(Cell::new(0u32));
    let c = counter.clone();
    let mut b = blocks::mut0(move || {
        c.set(c.get() + 1);
        c.get()
    });
    let k = 5;
    let mut last = 0;
    for _ in 0..k {
        last = b.invoke0();
    }
    assert_eq!(counter.get(), 5);
    assert_eq!(last, 5);
    b.release();
}

#[test]
fn repeatable_record_with_argument() {
    let total = Rc::new(Cell::new(0i64));
    let t = total.clone();
    let mut b = blocks::mut1(move |x: i64| t.set(t.get() + x));
    b.invoke1(3);
    b.invoke1(4);
    assert_eq!(total.get(), 7);
}

#[test]
fn capturing_records_refuse_copy() {
    let b = blocks::mut0(|| ());
    assert!(matches!(b.try_copy(), Err(BlockError::CopyForbidden)));
    let o = blocks::once0(|| ());
    assert!(matches!(o.try_copy(), Err(BlockError::CopyForbidden)));
}

#[test]
fn capturing_record_header() {
    let b = blocks::mut0(|| ());
    let f = b.flags();
    assert_eq!(f, Flags(blocks::NEW_FLAGS));
    assert!(f.contains(blocks::NEEDS_FREE));
    assert!(f.contains(blocks::HAS_COPY_DISPOSE));
    assert!(!f.contains(blocks::IS_GLOBAL));
    assert_eq!(f.retain_count(), 1);
    let d = b.descriptor();
    assert!(!d.copy_allowed);
    assert!(d.disposes_capture);
    assert_eq!(d.descriptor1.reserved, 0);
    assert!(d.descriptor1.size > 0);
}

#[test]
fn static_record_calls_function() {
    fn answer() -> u32 {
        42
    }
    let b = blocks::fn0(answer as fn() -> u32);
    assert!(matches!(b.isa(), Isa::Stack));
    assert_eq!(b.flags(), Flags(0));
    assert_eq!(b.invoke0(), 42);
    assert_eq!(b.invoke0(), 42);
    assert_eq!(b.descriptor().size, std::mem::size_of::<blocks::bl<fn() -> u32>>());
}

#[test]
fn future_fires_once() {
    let (count, waker) = counting_waker();
    let mut cell: Shared<u32> = Shared::new();
    assert!(matches!(cell.poll(waker.clone()), Poll::Pending));
    assert!(cell.is_waiting());
    assert!(cell.ready(9));
    assert_eq!(count.0.load(Ordering::SeqCst), 1);
    assert!(matches!(cell.poll(waker.clone()), Poll::Ready(9)));
    assert!(matches!(cell.poll(waker.clone()), Poll::Pending));
    assert!(!cell.ready(10));
    assert!(matches!(cell.poll(waker), Poll::Pending));
    assert_eq!(count.0.load(Ordering::SeqCst), 1);
}

#[test]
fn result_before_first_poll() {
    let (count, waker) = counting_waker();
    let mut cell: Shared<&str> = Shared::new();
    assert!(!cell.ready("done"));
    assert!(cell.is_fired());
    assert!(matches!(cell.poll(waker), Poll::Ready("done")));
    assert_eq!(count.0.load(Ordering::SeqCst), 0);
}

#[test]
fn value_or_error_shapes() {
    assert_eq!(value_result::<i32, &str>(None, Some("E")), Err("E"));
    assert_eq!(value_result::<i32, &str>(Some(5), None), Ok(5));
    assert_eq!(value_result::<i32, &str>(Some(5), Some("E")), Err("E"));
    assert_eq!(ok_result::<&str>(Some("E")), Err("E"));
    assert_eq!(ok_result::<&str>(None), Ok(()));
}

#[test]
fn completion_handlers_fill_cell() {
    let (_, waker) = counting_waker();
    let mut cell: Shared<Result<i32, &str>> = Shared::new();
    complete_value(&mut cell, None, Some("E"));
    assert!(matches!(cell.poll(waker.clone()), Poll::Ready(Err("E"))));
    let mut cell: Shared<Result<i32, &str>> = Shared::new();
    complete_value(&mut cell, Some(3), None);
    assert!(matches!(cell.poll(waker.clone()), Poll::Ready(Ok(3))));
    let mut cell: Shared<Result<(), &str>> = Shared::new();
    complete_ok(&mut cell, None);
    assert!(matches!(cell.poll(waker), Poll::Ready(Ok(()))));
}

#[test]
fn once_record_as_completion_handler() {
    let cell: Rc<RefCell<Shared<Result<i32, &str>>>> = Rc::new(RefCell::new(Shared::new()));
    let c = cell.clone();
    let mut handler = blocks::once2(move |v: Option<i32>, e: Option<&'static str>| {
        complete_value(&mut c.borrow_mut(), v, e)
    });
    assert_eq!(handler.invoke2(Some(8), None), Some(false));
    let (_, waker) = counting_waker();
    assert!(matches!(cell.borrow_mut().poll(waker), Poll::Ready(Ok(8))));
}

#[test]
fn repeatable_record_reference_count() {
    let token = Rc::new(());
    let held = token.clone();
    let mut b = blocks::mut0(move || {
        let _keep = &held;
    });
    assert_eq!(b.ref_count(), 1);
    b.retain();
    assert_eq!(b.ref_count(), 2);
    assert!(b.flags().contains(blocks::NEEDS_FREE));
    assert_eq!(b.flags().retain_count(), 2);
    let rest = b.release().unwrap();
    assert_eq!(rest.ref_count(), 1);
    assert_eq!(Rc::strong_count(&token), 2);
    assert!(rest.release().is_none());
    assert_eq!(Rc::strong_count(&token), 1);
}

#[test]
fn capturing_record_layout() {
    let o = blocks::once0(|| ());
    assert!(matches!(o.isa(), Isa::Malloc));
    assert_eq!(o.reserved(), 0);
    assert_eq!(o.descriptor().descriptor1.reserved, 0);
    assert!(o.descriptor().descriptor1.size > 0);
    let m = blocks::mut0(|| ());
    assert!(matches!(m.isa(), Isa::Malloc));
    assert_eq!(m.reserved(), 0);
    assert!(m.descriptor().descriptor1.size > 0);
}

#[test]
fn more_arities() {
    let b = blocks::fn2(|a: i32, b: i32| a + b);
    assert_eq!(b.flags(), Flags(0));
    let total = Rc::new(Cell::new(0i64));
    let t = total.clone();
    let mut m = blocks::mut3(move |a: i64, b: i64, c: i64| t.set(t.get() + a + b + c));
    m.invoke3(1, 2, 3);
    m.invoke3(1, 2, 3);
    assert_eq!(total.get(), 12);
    let mut m5 = blocks::mut5(|a: i32, b: i32, c: i32, d: i32, e: i32| a * b * c * d * e);
    assert_eq!(m5.invoke5(1, 2, 3, 4, 5), 120);
    let mut o = blocks::once4(|a: u8, b: u8, c: u8, d: u8| a + b + c + d);
    assert_eq!(o.invoke4(1, 2, 3, 4), Some(10));
    assert_eq!(o.invoke4(1, 2, 3, 4), None);
}

#[test]
fn poll_keeps_latest_waker() {
    let (first, w1) = counting_waker();
    let (second, w2) = counting_waker();
    let mut cell: Shared<u8> = Shared::new();
    assert!(matches!(cell.poll(w1), Poll::Pending));
    assert!(matches!(cell.poll(w2), Poll::Pending));
    assert!(cell.ready(1));
    assert_eq!(first.0.load(Ordering::SeqCst), 0);
    assert_eq!(second.0.load(Ordering::SeqCst), 1);
}
