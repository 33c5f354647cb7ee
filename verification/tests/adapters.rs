use futures_compat::poll::{Poll01, Poll02};
use futures_compat::task::{AmbientSlot, AmbientTask, Context02, Waker02};
use futures_compat::task::capture_current;
use futures_compat::futures_01::{Future01, Stream01, FutureInto02, StreamInto02};
use futures_compat::futures_01::{with_context, with_context_poll};
use futures_compat::futures_02::{Future02, Stream02, FutureInto01, StreamInto01};
use futures_compat::sample::{CountdownFuture01, CountdownFuture02, VecStream01, VecStream02};
use futures_compat::sample::WakerStash02;

#[test]
fn forward_future_pending_then_ready() {
    let f = CountdownFuture01::<u64, u64> { delays: 1, outcome: Poll01::Ready(42) };
    let mut wrapped = f.into_02_compat();
    let mut slot = AmbientSlot::empty();
    let mut cx = Context02::new(Waker02 { target: 1 });
    let mut spawner = ();
    let mut polls = 0u32;
    let value = loop {
        let r = wrapped.poll(&mut cx, &mut spawner, &mut slot);
        polls += 1;
        match r {
            Poll02::Ready(v) => break v,
            Poll02::Pending => continue,
            Poll02::Failed(e) => panic!("unexpected failure {e}"),
        }
    };
    assert_eq!(polls, 2);
    assert_eq!(value, 42);
}

#[test]
fn forward_future_error_passthrough() {
    let f = CountdownFuture01::<u64, u64> { delays: 0, outcome: Poll01::Failed(13) };
    let mut wrapped = f.into_02_compat();
    let mut slot = AmbientSlot::empty();
    let mut cx = Context02::new(Waker02 { target: 1 });
    let mut spawner = ();
    let r = wrapped.poll(&mut cx, &mut spawner, &mut slot);
    assert_eq!(r, Poll02::Failed(13));
}

#[test]
fn reverse_future_not_ready_until_resolution() {
    let f = CountdownFuture02::<u64, u64> { delays: 2, outcome: Poll02::Ready(5) };
    let mut wrapped = f.into_01_compat(());
    let mut slot = AmbientSlot::with_task(3);
    assert_eq!(wrapped.poll(&mut slot), Poll01::NotReady);
    assert_eq!(wrapped.poll(&mut slot), Poll01::NotReady);
    assert_eq!(wrapped.poll(&mut slot), Poll01::Ready(5));
}

#[test]
fn reverse_future_error_passthrough() {
    let f = CountdownFuture02::<u64, u64> { delays: 0, outcome: Poll02::Failed(99) };
    let mut wrapped = f.into_01_compat(());
    let mut slot = AmbientSlot::with_task(3);
    assert_eq!(wrapped.poll(&mut slot), Poll01::Failed(99));
}

#[test]
fn nested_adapters_restore_ambient_slot() {
    // A generation-0.1 future, wrapped for 0.2, wrapped back for 0.1,
    // and wrapped once more for 0.2: the outer poll installs an ambient
    // task, the middle adapter captures it, and the innermost adapter
    // makes a nested installation. The slot must end up exactly as it
    // began.
    let f = CountdownFuture01::<u64, u64> { delays: 0, outcome: Poll01::Ready(8) };
    let middle = f.into_02_compat().into_01_compat(());
    let mut outer = middle.into_02_compat();
    let mut slot = AmbientSlot::with_task(99);
    let mut cx = Context02::new(Waker02 { target: 7 });
    let mut spawner = ();
    let r = outer.poll(&mut cx, &mut spawner, &mut slot);
    assert_eq!(r, Poll02::Ready(8));
    assert_eq!(slot.current, Some(99));
}

#[test]
fn forward_stream_yields_items_then_end() {
    let s = VecStream01::<u64> { items: vec![10, 20], yielded: 0 };
    let mut wrapped = StreamInto02::into_02_compat(s);
    let mut slot = AmbientSlot::empty();
    let mut cx = Context02::new(Waker02 { target: 1 });
    let mut spawner = ();
    assert_eq!(wrapped.poll_next(&mut cx, &mut spawner, &mut slot), Poll02::Ready(Some(10)));
    assert_eq!(wrapped.poll_next(&mut cx, &mut spawner, &mut slot), Poll02::Ready(Some(20)));
    assert_eq!(wrapped.poll_next(&mut cx, &mut spawner, &mut slot), Poll02::Ready(None));
}

#[test]
fn reverse_stream_yields_items_then_end() {
    let s = VecStream02::<u64> { items: vec![4], yielded: 0 };
    let mut wrapped = StreamInto01::into_01_compat(s, ());
    let mut slot = AmbientSlot::with_task(2);
    assert_eq!(wrapped.poll(&mut slot), Poll01::Ready(Some(4)));
    assert_eq!(wrapped.poll(&mut slot), Poll01::Ready(None));
}

#[test]
fn forward_stream_of_nothing_ends_at_once() {
    let s = VecStream01::<u64> { items: vec![], yielded: 0 };
    let mut wrapped = StreamInto02::into_02_compat(s);
    let mut slot = AmbientSlot::empty();
    let mut cx = Context02::new(Waker02 { target: 1 });
    let mut spawner = ();
    assert_eq!(wrapped.poll_next(&mut cx, &mut spawner, &mut slot), Poll02::Ready(None));
}

#[test]
fn wake_repeatedly_zero_times_notifies_nobody() {
    let mut task = AmbientTask::new(6);
    let slot = AmbientSlot::with_task(6);
    let waker = capture_current(&slot);
    waker.wake_repeatedly(&mut task, 0);
    assert_eq!(task.notified, 0);
}

#[test]
fn conversion_wraps_value_unchanged() {
    let f = CountdownFuture01::<u64, u64> { delays: 3, outcome: Poll01::Ready(1) };
    let wrapped = f.into_02_compat();
    assert_eq!(wrapped.v01, f);
    let g = CountdownFuture02::<u64, u64> { delays: 0, outcome: Poll02::Ready(2) };
    let wrapped = g.into_01_compat(());
    assert_eq!(wrapped.v02, g);
}

#[test]
fn wake_notifies_exactly_once() {
    let mut task = AmbientTask::new(5);
    let slot = AmbientSlot::with_task(5);
    let waker = capture_current(&slot);
    waker.wake(&mut task);
    assert_eq!(task.notified, 1);
    waker.wake(&mut task);
    assert_eq!(task.notified, 2);
}

#[test]
fn wake_repeatedly_notifies_once_per_request() {
    let mut task = AmbientTask::new(6);
    let slot = AmbientSlot::with_task(6);
    let waker = capture_current(&slot);
    waker.wake_repeatedly(&mut task, 3);
    assert_eq!(task.notified, 3);
}

#[test]
fn stashed_waker_reaches_installed_task() {
    // The inner generation-0.2 future stores its context's waker while
    // the driving task is installed; waking through the stash afterwards
    // records exactly one notification on that task.
    let mut task = AmbientTask::new(11);
    let stash = WakerStash02 { stashed: None };
    let mut wrapped = stash.into_01_compat(());
    let mut slot = AmbientSlot::with_task(11);
    assert_eq!(wrapped.poll(&mut slot), Poll01::NotReady);
    let waker = wrapped.v02.stashed.expect("the inner future stashes the waker");
    assert_eq!(waker.target, 11);
    waker.wake(&mut task);
    assert_eq!(task.notified, 1);
}

#[test]
fn cloned_waker_shares_target_without_recapture() {
    let slot = AmbientSlot::with_task(21);
    let waker = capture_current(&slot);
    let clone = waker.clone();
    let mut task = AmbientTask::new(21);
    clone.wake(&mut task);
    assert_eq!(task.notified, 1);
    assert_eq!(clone, waker);
}

#[test]
fn context_exposes_its_waker() {
    let cx = Context02::new(Waker02 { target: 8 });
    assert_eq!(*cx.waker(), Waker02 { target: 8 });
}

#[test]
fn with_context_restores_previous_installation() {
    let cx = Context02::new(Waker02 { target: 4 });
    let slot = AmbientSlot::with_task(77);
    let (after, seen) = with_context(&cx, slot, |s: AmbientSlot| {
        let seen = s.current;
        (s, seen)
    });
    assert_eq!(seen, Some(4));
    assert_eq!(after.current, Some(77));
}

#[test]
fn with_context_poll_translates_outcome() {
    let cx = Context02::new(Waker02 { target: 4 });
    let slot = AmbientSlot::empty();
    let (after, r) = with_context_poll(&cx, slot, |s: AmbientSlot| {
        (s, Poll01::<u64, u64>::NotReady)
    });
    assert_eq!(r, Poll02::Pending);
    assert_eq!(after.current, None);
}
