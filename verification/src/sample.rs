//! Small, fully specified implementors of the two generations' poll
//! contracts: a countdown future and stream for each generation, an IO
//! object for each generation whose writes can be delayed, and a
//! generation-0.2 future that stashes the waker it is handed. Executors
//! and tests drive the adapters with them.

use vstd::prelude::*;

use crate::poll::{Poll01, Poll02, IoResult01};
use crate::task::{AmbientSlot, Context02, Waker02};
use crate::futures_01::{Future01, Stream01, AsyncIo01};
use crate::futures_02::{Future02, Stream02, AsyncIo02};

verus! {

/// A generation-0.1 future that reports `NotReady` a fixed number of
/// times and then reports a fixed outcome on every later poll.
#[derive(Debug, Clone, Copy, PartialEq, Eq, Structural)]
pub struct CountdownFuture01<T, E> {
    /// How many more polls report `NotReady`.
    pub delays: u64,
    /// What every poll after the delays reports.
    pub outcome: Poll01<T, E>,
}

impl<T: Copy, E: Copy> Future01 for CountdownFuture01<T, E> {
    type Item = T;

    type Error = E;

    open spec fn next_outcome(&self) -> Poll01<T, E> {
        if self.delays > 0 {
            Poll01::NotReady
        } else {
            self.outcome
        }
    }

    open spec fn evolves_to(&self, post: Self, ambient: u64) -> bool {
        &&& if self.delays > 0 {
            post.delays == self.delays - 1
        } else {
            post.delays == self.delays
        }
        &&& post.outcome == self.outcome
    }

    fn poll(&mut self, slot: &mut AmbientSlot) -> (r: Poll01<T, E>) {
        if self.delays > 0 {
            self.delays = self.delays - 1;
            Poll01::NotReady
        } else {
            self.outcome
        }
    }
}

/// A generation-0.2 future that reports `Pending` a fixed number of
/// times and then reports a fixed outcome on every later poll.
#[derive(Debug, Clone, Copy, PartialEq, Eq, Structural)]
pub struct CountdownFuture02<T, E> {
    /// How many more polls report `Pending`.
    pub delays: u64,
    /// What every poll after the delays reports.
    pub outcome: Poll02<T, E>,
}

impl<T: Copy, E: Copy, X> Future02<X> for CountdownFuture02<T, E> {
    type Item = T;

    type Error = E;

    open spec fn next_outcome(&self) -> Poll02<T, E> {
        if self.delays > 0 {
            Poll02::Pending
        } else {
            self.outcome
        }
    }

    open spec fn evolves_to(&self, post: Self, waker: Waker02) -> bool {
        &&& if self.delays > 0 {
            post.delays == self.delays - 1
        } else {
            post.delays == self.delays
        }
        &&& post.outcome == self.outcome
    }

    fn poll(&mut self, cx: &mut Context02, spawner: &mut X, slot: &mut AmbientSlot) -> (r: Poll02<
        T,
        E,
    >) {
        if self.delays > 0 {
            self.delays = self.delays - 1;
            Poll02::Pending
        } else {
            self.outcome
        }
    }
}

/// A generation-0.1 stream that yields the items of a vector in order,
/// then reports the end of the stream.
#[derive(Debug, PartialEq, Eq)]
pub struct VecStream01<T> {
    /// The items still to be yielded, in order.
    pub items: Vec<T>,
    /// How many of them have been yielded already.
    pub yielded: usize,
}

impl<T: Copy> Stream01 for VecStream01<T> {
    type Item = T;

    type Error = u64;

    open spec fn next_outcome(&self) -> Poll01<Option<T>, u64> {
        if self.yielded < self.items@.len() {
            Poll01::Ready(Some(self.items@[self.yielded as int]))
        } else {
            Poll01::Ready(None)
        }
    }

    open spec fn evolves_to(&self, post: Self, ambient: u64) -> bool {
        &&& post.items@ == self.items@
        &&& if self.yielded < self.items@.len() {
            post.yielded == self.yielded + 1
        } else {
            post.yielded == self.yielded
        }
    }

    fn poll(&mut self, slot: &mut AmbientSlot) -> (r: Poll01<Option<T>, u64>) {
        if self.yielded < self.items.len() {
            let item = self.items[self.yielded];
            self.yielded = self.yielded + 1;
            Poll01::Ready(Some(item))
        } else {
            Poll01::Ready(None)
        }
    }
}

/// A generation-0.2 stream that yields the items of a vector in order,
/// then reports the end of the stream.
#[derive(Debug, PartialEq, Eq)]
pub struct VecStream02<T> {
    /// The items still to be yielded, in order.
    pub items: Vec<T>,
    /// How many of them have been yielded already.
    pub yielded: usize,
}

impl<T: Copy, X> Stream02<X> for VecStream02<T> {
    type Item = T;

    type Error = u64;

    open spec fn next_outcome(&self) -> Poll02<Option<T>, u64> {
        if self.yielded < self.items@.len() {
            Poll02::Ready(Some(self.items@[self.yielded as int]))
        } else {
            Poll02::Ready(None)
        }
    }

    open spec fn evolves_to(&self, post: Self, waker: Waker02) -> bool {
        &&& post.items@ == self.items@
        &&& if self.yielded < self.items@.len() {
            post.yielded == self.yielded + 1
        } else {
            post.yielded == self.yielded
        }
    }

    fn poll_next(&mut self, cx: &mut Context02, spawner: &mut X, slot: &mut AmbientSlot) -> (r:
        Poll02<Option<T>, u64>) {
        if self.yielded < self.items.len() {
            let item = self.items[self.yielded];
            self.yielded = self.yielded + 1;
            Poll02::Ready(Some(item))
        } else {
            Poll02::Ready(None)
        }
    }
}

/// A generation-0.2 future that stashes the waker of every context it is
/// polled with and always reports `Pending`. What it stashes lets a test
/// wake the task afterwards, as a real inner future would.
#[derive(Debug, Clone, Copy, PartialEq, Eq, Structural)]
pub struct WakerStash02 {
    /// The waker of the most recent poll, if any yet.
    pub stashed: Option<Waker02>,
}

impl<X> Future02<X> for WakerStash02 {
    type Item = ();

    type Error = u64;

    open spec fn next_outcome(&self) -> Poll02<(), u64> {
        Poll02::Pending
    }

    open spec fn evolves_to(&self, post: Self, waker: Waker02) -> bool {
        post.stashed == Some(waker)
    }

    fn poll(&mut self, cx: &mut Context02, spawner: &mut X, slot: &mut AmbientSlot) -> (r: Poll02<
        (),
        u64,
    >) {
        self.stashed = Some(cx.waker);
        Poll02::Pending
    }
}

/// A generation-0.1 IO object with a fixed outcome per operation, except
/// that the first few writes signal would-block.
#[derive(Debug, Clone, Copy, PartialEq, Eq, Structural)]
pub struct CountdownIo01<E> {
    /// How many more writes signal would-block.
    pub write_delays: u64,
    /// What every write after the delays reports.
    pub write_outcome: IoResult01<usize, E>,
    /// What every read reports.
    pub read_outcome: IoResult01<usize, E>,
    /// What every flush reports.
    pub flush_outcome: IoResult01<(), E>,
    /// What every shutdown poll reports.
    pub shutdown_outcome: Poll01<(), E>,
}

impl<E: Copy> AsyncIo01 for CountdownIo01<E> {
    type Error = E;

    open spec fn next_read_outcome(&self) -> IoResult01<usize, E> {
        self.read_outcome
    }

    open spec fn next_write_outcome(&self) -> IoResult01<usize, E> {
        if self.write_delays > 0 {
            IoResult01::WouldBlock
        } else {
            self.write_outcome
        }
    }

    open spec fn next_flush_outcome(&self) -> IoResult01<(), E> {
        self.flush_outcome
    }

    open spec fn next_shutdown_outcome(&self) -> Poll01<(), E> {
        self.shutdown_outcome
    }

    open spec fn read_evolves_to(&self, post: Self, ambient: u64) -> bool {
        post == *self
    }

    open spec fn write_evolves_to(&self, post: Self, ambient: u64) -> bool {
        &&& if self.write_delays > 0 {
            post.write_delays == self.write_delays - 1
        } else {
            post.write_delays == self.write_delays
        }
        &&& post.write_outcome == self.write_outcome
        &&& post.read_outcome == self.read_outcome
        &&& post.flush_outcome == self.flush_outcome
        &&& post.shutdown_outcome == self.shutdown_outcome
    }

    open spec fn flush_evolves_to(&self, post: Self, ambient: u64) -> bool {
        post == *self
    }

    open spec fn shutdown_evolves_to(&self, post: Self, ambient: u64) -> bool {
        post == *self
    }

    fn read(&mut self, slot: &mut AmbientSlot, buf: &mut Vec<u8>) -> (r: IoResult01<usize, E>) {
        self.read_outcome
    }

    fn write(&mut self, slot: &mut AmbientSlot, buf: &Vec<u8>) -> (r: IoResult01<usize, E>) {
        if self.write_delays > 0 {
            self.write_delays = self.write_delays - 1;
            IoResult01::WouldBlock
        } else {
            self.write_outcome
        }
    }

    fn flush(&mut self, slot: &mut AmbientSlot) -> (r: IoResult01<(), E>) {
        self.flush_outcome
    }

    fn shutdown(&mut self, slot: &mut AmbientSlot) -> (r: Poll01<(), E>) {
        self.shutdown_outcome
    }
}

/// A generation-0.2 IO object with a fixed outcome per operation, except
/// that the first few write polls report `Pending`.
#[derive(Debug, Clone, Copy, PartialEq, Eq, Structural)]
pub struct CountdownIo02<E> {
    /// How many more write polls report `Pending`.
    pub write_delays: u64,
    /// What every write poll after the delays reports.
    pub write_outcome: Poll02<usize, E>,
    /// What every read poll reports.
    pub read_outcome: Poll02<usize, E>,
    /// What every flush poll reports.
    pub flush_outcome: Poll02<(), E>,
    /// What every close poll reports.
    pub close_outcome: Poll02<(), E>,
}

impl<E: Copy, X> AsyncIo02<X> for CountdownIo02<E> {
    type Error = E;

    open spec fn next_read_outcome(&self) -> Poll02<usize, E> {
        self.read_outcome
    }

    open spec fn next_write_outcome(&self) -> Poll02<usize, E> {
        if self.write_delays > 0 {
            Poll02::Pending
        } else {
            self.write_outcome
        }
    }

    open spec fn next_flush_outcome(&self) -> Poll02<(), E> {
        self.flush_outcome
    }

    open spec fn next_close_outcome(&self) -> Poll02<(), E> {
        self.close_outcome
    }

    open spec fn read_evolves_to(&self, post: Self, waker: Waker02) -> bool {
        post == *self
    }

    open spec fn write_evolves_to(&self, post: Self, waker: Waker02) -> bool {
        &&& if self.write_delays > 0 {
            post.write_delays == self.write_delays - 1
        } else {
            post.write_delays == self.write_delays
        }
        &&& post.write_outcome == self.write_outcome
        &&& post.read_outcome == self.read_outcome
        &&& post.flush_outcome == self.flush_outcome
        &&& post.close_outcome == self.close_outcome
    }

    open spec fn flush_evolves_to(&self, post: Self, waker: Waker02) -> bool {
        post == *self
    }

    open spec fn close_evolves_to(&self, post: Self, waker: Waker02) -> bool {
        post == *self
    }

    fn poll_read(
        &mut self,
        cx: &mut Context02,
        spawner: &mut X,
        slot: &mut AmbientSlot,
        buf: &mut Vec<u8>,
    ) -> (r: Poll02<usize, E>) {
        self.read_outcome
    }

    fn poll_write(
        &mut self,
        cx: &mut Context02,
        spawner: &mut X,
        slot: &mut AmbientSlot,
        buf: &Vec<u8>,
    ) -> (r: Poll02<usize, E>) {
        if self.write_delays > 0 {
            self.write_delays = self.write_delays - 1;
            Poll02::Pending
        } else {
            self.write_outcome
        }
    }

    fn poll_flush(&mut self, cx: &mut Context02, spawner: &mut X, slot: &mut AmbientSlot) -> (r:
        Poll02<(), E>) {
        self.flush_outcome
    }

    fn poll_close(&mut self, cx: &mut Context02, spawner: &mut X, slot: &mut AmbientSlot) -> (r:
        Poll02<(), E>) {
        self.close_outcome
    }
}

} // verus!
