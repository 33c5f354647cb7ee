//! Wrapping generation-0.1 values so that generation-0.2 executors can
//! drive them.
//!
//! A generation-0.1 value advances through a no-argument-style poll and
//! expects the driving executor to have installed an ambient task
//! beforehand. The adapters here install the explicit context's waker as
//! the ambient task for exactly the span of one inner poll, restore the
//! slot on the way out, and translate the outcome.

use vstd::prelude::*;

use crate::poll::{Poll01, Poll02, IoResult01};
use crate::poll::{spec_poll_to_02, poll_to_02, spec_io_to_02, io_to_02};
use crate::task::{AmbientSlot, Context02, Waker02};
use crate::futures_02::{Future02, Stream02, AsyncIo02};

verus! {

/// The generation-0.1 future contract: a poll that advances the value
/// one step under the ambient task that the driving executor installed.
///
/// Each implementor states through [`next_outcome`](Self::next_outcome)
/// what its next poll reports, reports exactly that, relates its state
/// after the poll to its state before it through
/// [`evolves_to`](Self::evolves_to) — parameterized by the ambient task
/// the poll ran under, which the value may capture — and leaves the
/// ambient slot as it found it (a nested installation must be restored
/// before the poll returns).
pub trait Future01: Sized {
    /// The value this future resolves to.
    type Item;

    /// The error this future may fail with.
    type Error;

    /// The outcome that the next poll reports, as a function of the
    /// current state.
    spec fn next_outcome(&self) -> Poll01<Self::Item, Self::Error>;

    /// How the state after a poll relates to the state before it, given
    /// the identity of the ambient task the poll ran under. What an
    /// implementor leaves open here stays open.
    spec fn evolves_to(&self, post: Self, ambient: u64) -> bool;

    /// Attempt to advance this future one step. The driving executor
    /// must already have installed an ambient task in `slot`.
    fn poll(&mut self, slot: &mut AmbientSlot) -> (r: Poll01<Self::Item, Self::Error>)
        requires
            old(slot).current is Some,
        ensures
            r == old(self).next_outcome(),
            old(self).evolves_to(*final(self), old(slot).current->0),
            final(slot).current == old(slot).current,
    ;
}

/// The generation-0.1 stream contract: like [`Future01`], with a ready
/// item of `None` signalling the end of the stream.
pub trait Stream01: Sized {
    /// The items this stream yields.
    type Item;

    /// The error this stream may fail with.
    type Error;

    /// The outcome that the next poll reports, as a function of the
    /// current state. `Ready(None)` is the end of the stream.
    spec fn next_outcome(&self) -> Poll01<Option<Self::Item>, Self::Error>;

    /// How the state after a poll relates to the state before it, given
    /// the identity of the ambient task the poll ran under.
    spec fn evolves_to(&self, post: Self, ambient: u64) -> bool;

    /// Attempt to pull the next item. The driving executor must already
    /// have installed an ambient task in `slot`.
    fn poll(&mut self, slot: &mut AmbientSlot) -> (r: Poll01<Option<Self::Item>, Self::Error>)
        requires
            old(slot).current is Some,
        ensures
            r == old(self).next_outcome(),
            old(self).evolves_to(*final(self), old(slot).current->0),
            final(slot).current == old(slot).current,
    ;
}

/// The generation-0.1 byte IO contract: blocking-style reads, writes and
/// flushes that signal "not ready" with [`IoResult01::WouldBlock`], and a
/// polled shutdown. All of them run under the ambient task that the
/// driving executor installed.
pub trait AsyncIo01: Sized {
    /// The error this IO object may fail with.
    type Error;

    /// The outcome that the next read reports, as a function of the
    /// current state.
    spec fn next_read_outcome(&self) -> IoResult01<usize, Self::Error>;

    /// The outcome that the next write reports, as a function of the
    /// current state.
    spec fn next_write_outcome(&self) -> IoResult01<usize, Self::Error>;

    /// The outcome that the next flush reports, as a function of the
    /// current state.
    spec fn next_flush_outcome(&self) -> IoResult01<(), Self::Error>;

    /// The outcome that the next shutdown poll reports, as a function of
    /// the current state.
    spec fn next_shutdown_outcome(&self) -> Poll01<(), Self::Error>;

    /// How the state after a read relates to the state before it, given
    /// the identity of the ambient task the read ran under.
    spec fn read_evolves_to(&self, post: Self, ambient: u64) -> bool;

    /// How the state after a write relates to the state before it, given
    /// the identity of the ambient task the write ran under.
    spec fn write_evolves_to(&self, post: Self, ambient: u64) -> bool;

    /// How the state after a flush relates to the state before it, given
    /// the identity of the ambient task the flush ran under.
    spec fn flush_evolves_to(&self, post: Self, ambient: u64) -> bool;

    /// How the state after a shutdown poll relates to the state before
    /// it, given the identity of the ambient task the poll ran under.
    spec fn shutdown_evolves_to(&self, post: Self, ambient: u64) -> bool;

    /// Read some bytes into `buf`, or signal would-block.
    fn read(&mut self, slot: &mut AmbientSlot, buf: &mut Vec<u8>) -> (r: IoResult01<
        usize,
        Self::Error,
    >)
        requires
            old(slot).current is Some,
        ensures
            r == old(self).next_read_outcome(),
            old(self).read_evolves_to(*final(self), old(slot).current->0),
            final(slot).current == old(slot).current,
    ;

    /// Write some bytes out of `buf`, or signal would-block.
    fn write(&mut self, slot: &mut AmbientSlot, buf: &Vec<u8>) -> (r: IoResult01<
        usize,
        Self::Error,
    >)
        requires
            old(slot).current is Some,
        ensures
            r == old(self).next_write_outcome(),
            old(self).write_evolves_to(*final(self), old(slot).current->0),
            final(slot).current == old(slot).current,
    ;

    /// Flush buffered bytes, or signal would-block.
    fn flush(&mut self, slot: &mut AmbientSlot) -> (r: IoResult01<(), Self::Error>)
        requires
            old(slot).current is Some,
        ensures
            r == old(self).next_flush_outcome(),
            old(self).flush_evolves_to(*final(self), old(slot).current->0),
            final(slot).current == old(slot).current,
    ;

    /// Attempt to shut the writer down.
    fn shutdown(&mut self, slot: &mut AmbientSlot) -> (r: Poll01<(), Self::Error>)
        requires
            old(slot).current is Some,
        ensures
            r == old(self).next_shutdown_outcome(),
            old(self).shutdown_evolves_to(*final(self), old(slot).current->0),
            final(slot).current == old(slot).current,
    ;
}

/// Wrap a [`Future01`] as a [`Future02`].
#[derive(Debug)]
#[must_use]
pub struct Future01As02<F> {
    /// The wrapped generation-0.1 future.
    pub v01: F,
}

/// Wrap a [`Stream01`] as a [`Stream02`].
#[derive(Debug)]
#[must_use]
pub struct Stream01As02<S> {
    /// The wrapped generation-0.1 stream.
    pub v01: S,
}

/// Wrap an [`AsyncIo01`] as an [`AsyncIo02`].
#[derive(Debug)]
pub struct TokioAsAsyncIo02<I> {
    /// The wrapped generation-0.1 IO object.
    pub v01: I,
}

/// A trait to convert any [`Future01`] into a [`Future01As02`].
///
/// Implemented for all types that implement `Future01` automatically.
pub trait FutureInto02: Future01 + Sized {
    /// Converts this future into a `Future01As02`, wrapping it unchanged.
    fn into_02_compat(self) -> (r: Future01As02<Self>)
        ensures
            r.v01 == self,
    ;
}

/// A trait to convert any [`Stream01`] into a [`Stream01As02`].
///
/// Implemented for all types that implement `Stream01` automatically.
pub trait StreamInto02: Stream01 + Sized {
    /// Converts this stream into a `Stream01As02`, wrapping it unchanged.
    fn into_02_compat(self) -> (r: Stream01As02<Self>)
        ensures
            r.v01 == self,
    ;
}

/// A trait to convert any [`AsyncIo01`] into a [`TokioAsAsyncIo02`].
///
/// Implemented for all types that implement `AsyncIo01` automatically.
pub trait TokioIntoAsyncIo02: AsyncIo01 + Sized {
    /// Converts this IO object into a `TokioAsAsyncIo02`, wrapping it
    /// unchanged.
    fn into_v02_compat(self) -> (r: TokioAsAsyncIo02<Self>)
        ensures
            r.v01 == self,
    ;
}

impl<F: Future01> FutureInto02 for F {
    fn into_02_compat(self) -> (r: Future01As02<Self>) {
        Future01As02 { v01: self }
    }
}

impl<S: Stream01> StreamInto02 for S {
    fn into_02_compat(self) -> (r: Stream01As02<Self>) {
        Stream01As02 { v01: self }
    }
}

impl<I: AsyncIo01> TokioIntoAsyncIo02 for I {
    fn into_v02_compat(self) -> (r: TokioAsAsyncIo02<Self>) {
        TokioAsAsyncIo02 { v01: self }
    }
}

/// Execute a body with the context's waker installed as the ambient
/// task.
///
/// The slot travels by value through the body, so the body may read the
/// installation and make nested ones; whatever the body leaves behind,
/// the installation that was current before the call is restored on the
/// way out, and the body's result is handed through unchanged.
pub fn with_context<F, R>(cx: &Context02, slot: AmbientSlot, body: F) -> (res: (AmbientSlot, R)) where
    F: FnOnce(AmbientSlot) -> (AmbientSlot, R)
    requires
        forall|s: AmbientSlot| s.current == Some(cx.waker.target) ==> call_requires(body, (s,)),
    ensures
        res.0.current == slot.current,
        exists|s: AmbientSlot, out: (AmbientSlot, R)|
            s.current == Some(cx.waker.target) && call_ensures(body, (s,), out) && out.1 == res.1,
{
    let mut s = slot;
    let prev = s.install(cx.waker.target);
    let ghost entered = s;
    let (after, r) = body(s);
    let ghost out = (after, r);
    let mut restored = after;
    restored.restore(prev);
    proof {
        assert(entered.current == Some(cx.waker.target) && call_ensures(body, (entered,), out)
            && out.1 == r);
    }
    (restored, r)
}

/// Execute a body with the context's waker installed as the ambient
/// task, translating the body's generation-0.1 poll outcome into the
/// generation-0.2 one.
///
/// The restoration discipline is that of [`with_context`]; the returned
/// outcome is exactly the translation of what the body reported.
pub fn with_context_poll<F, T, E>(cx: &Context02, slot: AmbientSlot, body: F) -> (res: (
    AmbientSlot,
    Poll02<T, E>,
)) where F: FnOnce(AmbientSlot) -> (AmbientSlot, Poll01<T, E>)
    requires
        forall|s: AmbientSlot| s.current == Some(cx.waker.target) ==> call_requires(body, (s,)),
    ensures
        res.0.current == slot.current,
        exists|s: AmbientSlot, out: (AmbientSlot, Poll01<T, E>)|
            s.current == Some(cx.waker.target) && call_ensures(body, (s,), out) && res.1
                == spec_poll_to_02(out.1),
{
    let mut s = slot;
    let prev = s.install(cx.waker.target);
    let ghost entered = s;
    let (after, p) = body(s);
    let ghost out = (after, p);
    let mut restored = after;
    restored.restore(prev);
    let r = poll_to_02(p);
    proof {
        assert(entered.current == Some(cx.waker.target) && call_ensures(body, (entered,), out)
            && r == spec_poll_to_02(out.1));
    }
    (restored, r)
}

impl<F: Future01, X> Future02<X> for Future01As02<F> {
    type Item = F::Item;

    type Error = F::Error;

    open spec fn next_outcome(&self) -> Poll02<F::Item, F::Error> {
        spec_poll_to_02(self.v01.next_outcome())
    }

    open spec fn evolves_to(&self, post: Self, waker: Waker02) -> bool {
        self.v01.evolves_to(post.v01, waker.target)
    }

    fn poll(&mut self, cx: &mut Context02, spawner: &mut X, slot: &mut AmbientSlot) -> (r: Poll02<
        F::Item,
        F::Error,
    >) {
        let prev = slot.install(cx.waker.target);
        let p = self.v01.poll(slot);
        slot.restore(prev);
        poll_to_02(p)
    }
}

impl<S: Stream01, X> Stream02<X> for Stream01As02<S> {
    type Item = S::Item;

    type Error = S::Error;

    open spec fn next_outcome(&self) -> Poll02<Option<S::Item>, S::Error> {
        spec_poll_to_02(self.v01.next_outcome())
    }

    open spec fn evolves_to(&self, post: Self, waker: Waker02) -> bool {
        self.v01.evolves_to(post.v01, waker.target)
    }

    fn poll_next(&mut self, cx: &mut Context02, spawner: &mut X, slot: &mut AmbientSlot) -> (r: Poll02<
        Option<S::Item>,
        S::Error,
    >) {
        let prev = slot.install(cx.waker.target);
        let p = self.v01.poll(slot);
        slot.restore(prev);
        poll_to_02(p)
    }
}

impl<I: AsyncIo01, X> AsyncIo02<X> for TokioAsAsyncIo02<I> {
    type Error = I::Error;

    open spec fn next_read_outcome(&self) -> Poll02<usize, I::Error> {
        spec_io_to_02(self.v01.next_read_outcome())
    }

    open spec fn next_write_outcome(&self) -> Poll02<usize, I::Error> {
        spec_io_to_02(self.v01.next_write_outcome())
    }

    open spec fn next_flush_outcome(&self) -> Poll02<(), I::Error> {
        spec_io_to_02(self.v01.next_flush_outcome())
    }

    open spec fn next_close_outcome(&self) -> Poll02<(), I::Error> {
        spec_poll_to_02(self.v01.next_shutdown_outcome())
    }

    open spec fn read_evolves_to(&self, post: Self, waker: Waker02) -> bool {
        self.v01.read_evolves_to(post.v01, waker.target)
    }

    open spec fn write_evolves_to(&self, post: Self, waker: Waker02) -> bool {
        self.v01.write_evolves_to(post.v01, waker.target)
    }

    open spec fn flush_evolves_to(&self, post: Self, waker: Waker02) -> bool {
        self.v01.flush_evolves_to(post.v01, waker.target)
    }

    open spec fn close_evolves_to(&self, post: Self, waker: Waker02) -> bool {
        self.v01.shutdown_evolves_to(post.v01, waker.target)
    }

    fn poll_read(
        &mut self,
        cx: &mut Context02,
        spawner: &mut X,
        slot: &mut AmbientSlot,
        buf: &mut Vec<u8>,
    ) -> (r: Poll02<usize, I::Error>) {
        let prev = slot.install(cx.waker.target);
        let res = self.v01.read(slot, buf);
        slot.restore(prev);
        io_to_02(res)
    }

    fn poll_write(
        &mut self,
        cx: &mut Context02,
        spawner: &mut X,
        slot: &mut AmbientSlot,
        buf: &Vec<u8>,
    ) -> (r: Poll02<usize, I::Error>) {
        let prev = slot.install(cx.waker.target);
        let res = self.v01.write(slot, buf);
        slot.restore(prev);
        io_to_02(res)
    }

    fn poll_flush(&mut self, cx: &mut Context02, spawner: &mut X, slot: &mut AmbientSlot) -> (r:
        Poll02<(), I::Error>) {
        let prev = slot.install(cx.waker.target);
        let res = self.v01.flush(slot);
        slot.restore(prev);
        io_to_02(res)
    }

    fn poll_close(&mut self, cx: &mut Context02, spawner: &mut X, slot: &mut AmbientSlot) -> (r:
        Poll02<(), I::Error>) {
        let prev = slot.install(cx.waker.target);
        let p = self.v01.shutdown(slot);
        slot.restore(prev);
        poll_to_02(p)
    }
}

} // verus!
