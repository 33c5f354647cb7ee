use std::io::ErrorKind;

use futures_compat::poll::{Poll01, Poll02, IoResult01};
use futures_compat::task::{AmbientSlot, Context02, Waker02};
use futures_compat::futures_01::{AsyncIo01, TokioIntoAsyncIo02};
use futures_compat::futures_02::{AsyncIo02, AsyncIoIntoTokio};
use futures_compat::futures_02::{would_block, into_io_result};
use futures_compat::sample::{CountdownIo01, CountdownIo02};

fn sample_io_02() -> CountdownIo02<u64> {
    CountdownIo02 {
        write_delays: 1,
        write_outcome: Poll02::Ready(10),
        read_outcome: Poll02::Ready(3),
        flush_outcome: Poll02::Ready(()),
        close_outcome: Poll02::Pending,
    }
}

fn sample_io_01() -> CountdownIo01<u64> {
    CountdownIo01 {
        write_delays: 1,
        write_outcome: IoResult01::Done(4),
        read_outcome: IoResult01::Failed(7),
        flush_outcome: IoResult01::Done(()),
        shutdown_outcome: Poll01::NotReady,
    }
}

#[test]
fn reverse_io_write_signals_would_block_then_count() {
    let mut wrapped = sample_io_02().into_tokio_compat(());
    let mut slot = AmbientSlot::with_task(1);
    let buf = vec![0u8; 16];
    assert_eq!(wrapped.write(&mut slot, &buf), IoResult01::WouldBlock);
    assert_eq!(wrapped.write(&mut slot, &buf), IoResult01::Done(10));
}

fn with_io_error<T>(r: IoResult01<T, u64>) -> IoResult01<T, std::io::Error> {
    match r {
        IoResult01::Done(v) => IoResult01::Done(v),
        IoResult01::WouldBlock => IoResult01::WouldBlock,
        IoResult01::Failed(code) => IoResult01::Failed(std::io::Error::from_raw_os_error(code as i32)),
    }
}

#[test]
fn reverse_io_write_as_std_result() {
    let mut wrapped = sample_io_02().into_tokio_compat(());
    let mut slot = AmbientSlot::with_task(1);
    let buf = vec![0u8; 16];
    let first = into_io_result(with_io_error(wrapped.write(&mut slot, &buf)));
    assert_eq!(first.expect_err("the first write must block").kind(), ErrorKind::WouldBlock);
    let second = into_io_result(with_io_error(wrapped.write(&mut slot, &buf)));
    assert_eq!(second.expect("the second write must finish"), 10);
}

#[test]
fn reverse_io_read_and_flush_translate() {
    let mut wrapped = sample_io_02().into_tokio_compat(());
    let mut slot = AmbientSlot::with_task(1);
    let mut buf = vec![0u8; 8];
    assert_eq!(wrapped.read(&mut slot, &mut buf), IoResult01::Done(3));
    assert_eq!(wrapped.flush(&mut slot), IoResult01::Done(()));
}

#[test]
fn reverse_io_shutdown_polls_close() {
    let mut wrapped = sample_io_02().into_tokio_compat(());
    let mut slot = AmbientSlot::with_task(1);
    assert_eq!(wrapped.shutdown(&mut slot), Poll01::NotReady);
}

#[test]
fn reverse_io_error_passthrough() {
    let mut io = sample_io_02();
    io.read_outcome = Poll02::Failed(7);
    let mut wrapped = io.into_tokio_compat(());
    let mut slot = AmbientSlot::with_task(1);
    let mut buf = vec![0u8; 8];
    assert_eq!(wrapped.read(&mut slot, &mut buf), IoResult01::Failed(7));
}

#[test]
fn forward_io_would_block_becomes_pending() {
    let mut wrapped = sample_io_01().into_v02_compat();
    let mut slot = AmbientSlot::empty();
    let mut cx = Context02::new(Waker02 { target: 2 });
    let mut spawner = ();
    let buf = vec![9u8; 4];
    assert_eq!(wrapped.poll_write(&mut cx, &mut spawner, &mut slot, &buf), Poll02::Pending);
    assert_eq!(wrapped.poll_write(&mut cx, &mut spawner, &mut slot, &buf), Poll02::Ready(4));
}

#[test]
fn forward_io_error_passthrough() {
    let mut wrapped = sample_io_01().into_v02_compat();
    let mut slot = AmbientSlot::empty();
    let mut cx = Context02::new(Waker02 { target: 2 });
    let mut spawner = ();
    let mut buf = vec![0u8; 4];
    assert_eq!(
        wrapped.poll_read(&mut cx, &mut spawner, &mut slot, &mut buf),
        Poll02::Failed(7),
    );
}

#[test]
fn forward_io_flush_and_close_translate() {
    let mut wrapped = sample_io_01().into_v02_compat();
    let mut slot = AmbientSlot::empty();
    let mut cx = Context02::new(Waker02 { target: 2 });
    let mut spawner = ();
    assert_eq!(wrapped.poll_flush(&mut cx, &mut spawner, &mut slot), Poll02::Ready(()));
    assert_eq!(wrapped.poll_close(&mut cx, &mut spawner, &mut slot), Poll02::Pending);
}

#[test]
fn forward_io_restores_ambient_slot() {
    let mut wrapped = sample_io_01().into_v02_compat();
    let mut slot = AmbientSlot::with_task(55);
    let mut cx = Context02::new(Waker02 { target: 2 });
    let mut spawner = ();
    let mut buf = vec![0u8; 4];
    let _ = wrapped.poll_read(&mut cx, &mut spawner, &mut slot, &mut buf);
    assert_eq!(slot.current, Some(55));
}

#[test]
fn would_block_error_has_the_canonical_kind() {
    assert_eq!(would_block().kind(), ErrorKind::WouldBlock);
}

#[test]
fn into_io_result_passes_values_and_errors_through() {
    let done: IoResult01<usize, std::io::Error> = IoResult01::Done(5);
    assert_eq!(into_io_result(done).expect("a finished call becomes Ok"), 5);
    let failed: IoResult01<usize, std::io::Error> =
        IoResult01::Failed(std::io::Error::from(ErrorKind::PermissionDenied));
    assert_eq!(
        into_io_result(failed).expect_err("a failure surfaces unchanged").kind(),
        ErrorKind::PermissionDenied,
    );
}
