//! Wrapping generation-0.2 values so that generation-0.1 executors can
//! drive them.
//!
//! A generation-0.2 value advances through a poll that receives an
//! explicit, call-scoped context. The adapters here capture the ambient
//! task that the generation-0.1 executor installed, build a fresh
//! context around it for exactly one inner poll, hand down the spawner
//! they own, and translate the outcome. On the IO surface, a pending
//! inner poll is re-expressed as the would-block signal that
//! generation-0.1 callers expect on read, write and flush.

use vstd::prelude::*;

use crate::poll::{Poll01, Poll02, IoResult01};
use crate::poll::{spec_poll_to_01, poll_to_01, spec_io_to_01, io_to_01};
use crate::task::{AmbientSlot, Context02, Waker02, capture_current};
use crate::futures_01::{Future01, Stream01, AsyncIo01};
use crate::futures_01::{Future01As02, Stream01As02, TokioAsAsyncIo02};

verus! {

/// The generation-0.2 future contract: a poll that advances the value
/// one step, given a call-scoped context, a spawner, and the thread's
/// ambient slot (which an implementor may use for a nested, strictly
/// scoped installation of its own).
///
/// Each implementor states through [`next_outcome`](Self::next_outcome)
/// what its next poll reports, reports exactly that, relates its state
/// after the poll to its state before it through
/// [`evolves_to`](Self::evolves_to) — parameterized by the context's
/// waker, which the value may stash — and leaves the ambient slot as it
/// found it.
pub trait Future02<X>: Sized {
    /// The value this future resolves to.
    type Item;

    /// The error this future may fail with.
    type Error;

    /// The outcome that the next poll reports, as a function of the
    /// current state.
    spec fn next_outcome(&self) -> Poll02<Self::Item, Self::Error>;

    /// How the state after a poll relates to the state before it, given
    /// the waker of the context the poll received. What an implementor
    /// leaves open here stays open.
    spec fn evolves_to(&self, post: Self, waker: Waker02) -> bool;

    /// Attempt to advance this future one step.
    fn poll(&mut self, cx: &mut Context02, spawner: &mut X, slot: &mut AmbientSlot) -> (r: Poll02<
        Self::Item,
        Self::Error,
    >)
        ensures
            r == old(self).next_outcome(),
            old(self).evolves_to(*final(self), old(cx).waker),
            final(slot).current == old(slot).current,
    ;
}

/// The generation-0.2 stream contract: like [`Future02`], with a ready
/// item of `None` signalling the end of the stream.
pub trait Stream02<X>: Sized {
    /// The items this stream yields.
    type Item;

    /// The error this stream may fail with.
    type Error;

    /// The outcome that the next poll reports, as a function of the
    /// current state. `Ready(None)` is the end of the stream.
    spec fn next_outcome(&self) -> Poll02<Option<Self::Item>, Self::Error>;

    /// How the state after a poll relates to the state before it, given
    /// the waker of the context the poll received.
    spec fn evolves_to(&self, post: Self, waker: Waker02) -> bool;

    /// Attempt to pull the next item.
    fn poll_next(&mut self, cx: &mut Context02, spawner: &mut X, slot: &mut AmbientSlot) -> (r: Poll02<
        Option<Self::Item>,
        Self::Error,
    >)
        ensures
            r == old(self).next_outcome(),
            old(self).evolves_to(*final(self), old(cx).waker),
            final(slot).current == old(slot).current,
    ;
}

/// The generation-0.2 byte IO contract: polled reads, writes, flushes
/// and closes, each given a call-scoped context.
pub trait AsyncIo02<X>: Sized {
    /// The error this IO object may fail with.
    type Error;

    /// The outcome that the next read poll reports, as a function of the
    /// current state.
    spec fn next_read_outcome(&self) -> Poll02<usize, Self::Error>;

    /// The outcome that the next write poll reports, as a function of
    /// the current state.
    spec fn next_write_outcome(&self) -> Poll02<usize, Self::Error>;

    /// The outcome that the next flush poll reports, as a function of
    /// the current state.
    spec fn next_flush_outcome(&self) -> Poll02<(), Self::Error>;

    /// The outcome that the next close poll reports, as a function of
    /// the current state.
    spec fn next_close_outcome(&self) -> Poll02<(), Self::Error>;

    /// How the state after a read poll relates to the state before it,
    /// given the waker of the context the poll received.
    spec fn read_evolves_to(&self, post: Self, waker: Waker02) -> bool;

    /// How the state after a write poll relates to the state before it,
    /// given the waker of the context the poll received.
    spec fn write_evolves_to(&self, post: Self, waker: Waker02) -> bool;

    /// How the state after a flush poll relates to the state before it,
    /// given the waker of the context the poll received.
    spec fn flush_evolves_to(&self, post: Self, waker: Waker02) -> bool;

    /// How the state after a close poll relates to the state before it,
    /// given the waker of the context the poll received.
    spec fn close_evolves_to(&self, post: Self, waker: Waker02) -> bool;

    /// Attempt to read some bytes into `buf`.
    fn poll_read(
        &mut self,
        cx: &mut Context02,
        spawner: &mut X,
        slot: &mut AmbientSlot,
        buf: &mut Vec<u8>,
    ) -> (r: Poll02<usize, Self::Error>)
        ensures
            r == old(self).next_read_outcome(),
            old(self).read_evolves_to(*final(self), old(cx).waker),
            final(slot).current == old(slot).current,
    ;

    /// Attempt to write some bytes out of `buf`.
    fn poll_write(
        &mut self,
        cx: &mut Context02,
        spawner: &mut X,
        slot: &mut AmbientSlot,
        buf: &Vec<u8>,
    ) -> (r: Poll02<usize, Self::Error>)
        ensures
            r == old(self).next_write_outcome(),
            old(self).write_evolves_to(*final(self), old(cx).waker),
            final(slot).current == old(slot).current,
    ;

    /// Attempt to flush buffered bytes.
    fn poll_flush(&mut self, cx: &mut Context02, spawner: &mut X, slot: &mut AmbientSlot) -> (r:
        Poll02<(), Self::Error>)
        ensures
            r == old(self).next_flush_outcome(),
            old(self).flush_evolves_to(*final(self), old(cx).waker),
            final(slot).current == old(slot).current,
    ;

    /// Attempt to close the writer.
    fn poll_close(&mut self, cx: &mut Context02, spawner: &mut X, slot: &mut AmbientSlot) -> (r:
        Poll02<(), Self::Error>)
        ensures
            r == old(self).next_close_outcome(),
            old(self).close_evolves_to(*final(self), old(cx).waker),
            final(slot).current == old(slot).current,
    ;
}

/// Wrap a [`Future02`] as a [`Future01`].
#[derive(Debug)]
#[must_use]
pub struct Future02As01<E, F> {
    /// The spawner handed to the wrapped future on every poll, retained
    /// for the adapter's lifetime.
    pub spawner: E,
    /// The wrapped generation-0.2 future.
    pub v02: F,
}

/// Wrap a [`Stream02`] as a [`Stream01`].
#[derive(Debug)]
#[must_use]
pub struct Stream02As01<E, S> {
    /// The spawner handed to the wrapped stream on every poll, retained
    /// for the adapter's lifetime.
    pub spawner: E,
    /// The wrapped generation-0.2 stream.
    pub v02: S,
}

/// Wrap an [`AsyncIo02`] as an [`AsyncIo01`].
#[derive(Debug)]
pub struct AsyncIo02AsTokio<E, S> {
    /// The spawner handed to the wrapped IO object on every call,
    /// retained for the adapter's lifetime.
    pub spawner: E,
    /// The wrapped generation-0.2 IO object.
    pub v02: S,
}

/// A trait to convert any [`Future02`] into a [`Future02As01`].
///
/// Implemented for all types that implement `Future02` automatically.
pub trait FutureInto01<E>: Future02<E> + Sized {
    /// Converts this future into a `Future02As01`, wrapping it
    /// unchanged.
    ///
    /// A spawner is required so that the wrapped future can still spawn
    /// work while wrapped.
    fn into_01_compat(self, spawner: E) -> (r: Future02As01<E, Self>)
        ensures
            r.v02 == self,
            r.spawner == spawner,
    ;
}

/// A trait to convert any [`Stream02`] into a [`Stream02As01`].
///
/// Implemented for all types that implement `Stream02` automatically.
pub trait StreamInto01<E>: Stream02<E> + Sized {
    /// Converts this stream into a `Stream02As01`, wrapping it
    /// unchanged.
    ///
    /// A spawner is required so that the wrapped stream can still spawn
    /// work while wrapped.
    fn into_01_compat(self, spawner: E) -> (r: Stream02As01<E, Self>)
        ensures
            r.v02 == self,
            r.spawner == spawner,
    ;
}

/// A trait to convert any [`AsyncIo02`] into an [`AsyncIo02AsTokio`].
///
/// Implemented for all types that implement `AsyncIo02` automatically.
pub trait AsyncIoIntoTokio<E>: AsyncIo02<E> + Sized {
    /// Converts this IO object into an `AsyncIo02AsTokio`, wrapping it
    /// unchanged.
    ///
    /// A spawner is required so that the wrapped IO object can still
    /// spawn work while wrapped.
    fn into_tokio_compat(self, spawner: E) -> (r: AsyncIo02AsTokio<E, Self>)
        ensures
            r.v02 == self,
            r.spawner == spawner,
    ;
}

impl<E, F: Future02<E>> FutureInto01<E> for F {
    fn into_01_compat(self, spawner: E) -> (r: Future02As01<E, Self>) {
        Future02As01 { spawner, v02: self }
    }
}

impl<E, S: Stream02<E>> StreamInto01<E> for S {
    fn into_01_compat(self, spawner: E) -> (r: Stream02As01<E, Self>) {
        Stream02As01 { spawner, v02: self }
    }
}

impl<E, I: AsyncIo02<E>> AsyncIoIntoTokio<E> for I {
    fn into_tokio_compat(self, spawner: E) -> (r: AsyncIo02AsTokio<E, Self>) {
        AsyncIo02AsTokio { spawner, v02: self }
    }
}

impl<E, F: Future02<E>> Future01 for Future02As01<E, F> {
    type Item = F::Item;

    type Error = F::Error;

    open spec fn next_outcome(&self) -> Poll01<F::Item, F::Error> {
        spec_poll_to_01(self.v02.next_outcome())
    }

    open spec fn evolves_to(&self, post: Self, ambient: u64) -> bool {
        self.v02.evolves_to(post.v02, Waker02 { target: ambient })
    }

    fn poll(&mut self, slot: &mut AmbientSlot) -> (r: Poll01<F::Item, F::Error>) {
        let waker = capture_current(slot);
        let mut cx = Context02::new(waker);
        let p = self.v02.poll(&mut cx, &mut self.spawner, slot);
        poll_to_01(p)
    }
}

impl<E, S: Stream02<E>> Stream01 for Stream02As01<E, S> {
    type Item = S::Item;

    type Error = S::Error;

    open spec fn next_outcome(&self) -> Poll01<Option<S::Item>, S::Error> {
        spec_poll_to_01(self.v02.next_outcome())
    }

    open spec fn evolves_to(&self, post: Self, ambient: u64) -> bool {
        self.v02.evolves_to(post.v02, Waker02 { target: ambient })
    }

    fn poll(&mut self, slot: &mut AmbientSlot) -> (r: Poll01<Option<S::Item>, S::Error>) {
        let waker = capture_current(slot);
        let mut cx = Context02::new(waker);
        let p = self.v02.poll_next(&mut cx, &mut self.spawner, slot);
        poll_to_01(p)
    }
}

impl<E, I: AsyncIo02<E>> AsyncIo01 for AsyncIo02AsTokio<E, I> {
    type Error = I::Error;

    open spec fn next_read_outcome(&self) -> IoResult01<usize, I::Error> {
        spec_io_to_01(self.v02.next_read_outcome())
    }

    open spec fn next_write_outcome(&self) -> IoResult01<usize, I::Error> {
        spec_io_to_01(self.v02.next_write_outcome())
    }

    open spec fn next_flush_outcome(&self) -> IoResult01<(), I::Error> {
        spec_io_to_01(self.v02.next_flush_outcome())
    }

    open spec fn next_shutdown_outcome(&self) -> Poll01<(), I::Error> {
        spec_poll_to_01(self.v02.next_close_outcome())
    }

    open spec fn read_evolves_to(&self, post: Self, ambient: u64) -> bool {
        self.v02.read_evolves_to(post.v02, Waker02 { target: ambient })
    }

    open spec fn write_evolves_to(&self, post: Self, ambient: u64) -> bool {
        self.v02.write_evolves_to(post.v02, Waker02 { target: ambient })
    }

    open spec fn flush_evolves_to(&self, post: Self, ambient: u64) -> bool {
        self.v02.flush_evolves_to(post.v02, Waker02 { target: ambient })
    }

    open spec fn shutdown_evolves_to(&self, post: Self, ambient: u64) -> bool {
        self.v02.close_evolves_to(post.v02, Waker02 { target: ambient })
    }

    fn read(&mut self, slot: &mut AmbientSlot, buf: &mut Vec<u8>) -> (r: IoResult01<
        usize,
        I::Error,
    >) {
        let waker = capture_current(slot);
        let mut cx = Context02::new(waker);
        let p = self.v02.poll_read(&mut cx, &mut self.spawner, slot, buf);
        io_to_01(p)
    }

    fn write(&mut self, slot: &mut AmbientSlot, buf: &Vec<u8>) -> (r: IoResult01<usize, I::Error>) {
        let waker = capture_current(slot);
        let mut cx = Context02::new(waker);
        let p = self.v02.poll_write(&mut cx, &mut self.spawner, slot, buf);
        io_to_01(p)
    }

    fn flush(&mut self, slot: &mut AmbientSlot) -> (r: IoResult01<(), I::Error>) {
        let waker = capture_current(slot);
        let mut cx = Context02::new(waker);
        let p = self.v02.poll_flush(&mut cx, &mut self.spawner, slot);
        io_to_01(p)
    }

    fn shutdown(&mut self, slot: &mut AmbientSlot) -> (r: Poll01<(), I::Error>) {
        let waker = capture_current(slot);
        let mut cx = Context02::new(waker);
        let p = self.v02.poll_close(&mut cx, &mut self.spawner, slot);
        poll_to_01(p)
    }
}

/// Wrapping a generation-0.1 future for generation 0.2, and the wrapper
/// back for generation 0.1, leaves the outcome of every poll unchanged:
/// the two translations cancel out.
pub proof fn lemma_wrap_01_round_trip<X, F: Future01>(w: Future02As01<X, Future01As02<F>>)
    ensures
        w.next_outcome() == w.v02.v01.next_outcome(),
{
}

/// Wrapping a generation-0.2 future for generation 0.1, and the wrapper
/// back for generation 0.2, leaves the outcome of every poll unchanged:
/// the two translations cancel out.
pub proof fn lemma_wrap_02_round_trip<X, F: Future02<X>>(w: Future01As02<Future02As01<X, F>>)
    ensures
        <Future01As02<Future02As01<X, F>> as Future02<X>>::next_outcome(&w)
            == w.v01.v02.next_outcome(),
{
}

/// Wrapping a generation-0.1 stream for generation 0.2, and the wrapper
/// back for generation 0.1, leaves the outcome of every poll unchanged:
/// the two translations cancel out.
pub proof fn lemma_wrap_stream_01_round_trip<X, S: Stream01>(w: Stream02As01<X, Stream01As02<S>>)
    ensures
        w.next_outcome() == w.v02.v01.next_outcome(),
{
}

/// Wrapping a generation-0.2 stream for generation 0.1, and the wrapper
/// back for generation 0.2, leaves the outcome of every poll unchanged:
/// the two translations cancel out.
pub proof fn lemma_wrap_stream_02_round_trip<X, S: Stream02<X>>(w: Stream01As02<
    Stream02As01<X, S>,
>)
    ensures
        <Stream01As02<Stream02As01<X, S>> as Stream02<X>>::next_outcome(&w)
            == w.v01.v02.next_outcome(),
{
}

/// Wrapping a generation-0.1 IO object for generation 0.2, and the
/// wrapper back for generation 0.1, leaves the outcome of every read,
/// write, flush and shutdown unchanged: the would-block signal survives
/// the round trip through `Pending`, and the other outcomes pass
/// through.
pub proof fn lemma_wrap_io_01_round_trip<X, I: AsyncIo01>(w: AsyncIo02AsTokio<
    X,
    TokioAsAsyncIo02<I>,
>)
    ensures
        w.next_read_outcome() == w.v02.v01.next_read_outcome(),
        w.next_write_outcome() == w.v02.v01.next_write_outcome(),
        w.next_flush_outcome() == w.v02.v01.next_flush_outcome(),
        w.next_shutdown_outcome() == w.v02.v01.next_shutdown_outcome(),
{
}

/// Wrapping a generation-0.2 IO object for generation 0.1, and the
/// wrapper back for generation 0.2, leaves the outcome of every read,
/// write, flush and close poll unchanged: `Pending` survives the round
/// trip through the would-block signal, and the other outcomes pass
/// through.
pub proof fn lemma_wrap_io_02_round_trip<X, I: AsyncIo02<X>>(w: TokioAsAsyncIo02<
    AsyncIo02AsTokio<X, I>,
>)
    ensures
        <TokioAsAsyncIo02<AsyncIo02AsTokio<X, I>> as AsyncIo02<X>>::next_read_outcome(&w)
            == w.v01.v02.next_read_outcome(),
        <TokioAsAsyncIo02<AsyncIo02AsTokio<X, I>> as AsyncIo02<X>>::next_write_outcome(&w)
            == w.v01.v02.next_write_outcome(),
        <TokioAsAsyncIo02<AsyncIo02AsTokio<X, I>> as AsyncIo02<X>>::next_flush_outcome(&w)
            == w.v01.v02.next_flush_outcome(),
        <TokioAsAsyncIo02<AsyncIo02AsTokio<X, I>> as AsyncIo02<X>>::next_close_outcome(&w)
            == w.v01.v02.next_close_outcome(),
{
}

/// `std::io::Error`, declared so that it can stand in signatures. The
/// bridge carries such errors through opaquely and never inspects them.
#[verifier::external_type_specification]
#[verifier::external_body]
pub struct ExIoError(std::io::Error);

/// Whether an IO error value is the canonical would-block signal — the
/// blocking-style convention's "not ready, retry later" code.
pub uninterp spec fn is_would_block(e: std::io::Error) -> bool;

/// Relies on `std::io::Error::from`: by std's documentation it builds an
/// error whose kind is the given `std::io::ErrorKind::WouldBlock`, the
/// canonical would-block signal.
#[verifier::external_body]
fn new_would_block_error() -> (e: std::io::Error)
    ensures
        is_would_block(e),
{
    std::io::Error::from(std::io::ErrorKind::WouldBlock)
}

/// The canonical error value with which the blocking-style IO convention
/// says "not ready, retry later".
pub fn would_block() -> (e: std::io::Error)
    ensures
        is_would_block(e),
{
    new_would_block_error()
}

/// Surface a blocking-style IO outcome to a std caller: a finished call
/// becomes `Ok` with its value, a failure surfaces unchanged, and the
/// would-block signal becomes the error value of [`would_block`], which
/// callers must treat as "retry later", not as failure.
pub fn into_io_result<T>(r: IoResult01<T, std::io::Error>) -> (res: Result<T, std::io::Error>)
    ensures
        r matches IoResult01::Done(v) ==> res == Ok::<T, std::io::Error>(v),
        r matches IoResult01::Failed(e) ==> res == Err::<T, std::io::Error>(e),
        r is WouldBlock ==> (res matches Err(e) && is_would_block(e)),
{
    match r {
        IoResult01::Done(v) => Ok(v),
        IoResult01::WouldBlock => Err(would_block()),
        IoResult01::Failed(e) => Err(e),
    }
}

} // verus!
