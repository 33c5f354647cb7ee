//! The tri-state poll outcomes of the two generations, the blocking-style
//! IO outcome, and the total, symmetric translations between them.

use vstd::prelude::*;

verus! {

/// The outcome of one generation-0.1 poll: the value is ready, the value
/// is not ready yet (the ambient task will be notified when it is), or
/// the computation failed.
#[derive(Debug, Clone, Copy, PartialEq, Eq, Structural)]
pub enum Poll01<T, E> {
    /// The inner computation resolved to a value.
    Ready(T),
    /// The inner computation cannot make progress yet.
    NotReady,
    /// The inner computation failed.
    Failed(E),
}

/// The outcome of one generation-0.2 poll: identical in meaning to
/// [`Poll01`], with `Pending` in place of `NotReady`.
#[derive(Debug, Clone, Copy, PartialEq, Eq, Structural)]
pub enum Poll02<T, E> {
    /// The inner computation resolved to a value.
    Ready(T),
    /// The inner computation cannot make progress yet.
    Pending,
    /// The inner computation failed.
    Failed(E),
}

/// The outcome of one blocking-style IO call on the generation-0.1
/// surface: the call finished, the call would block ("not ready, retry
/// later", surfaced to std callers as the would-block error code), or the
/// call failed.
#[derive(Debug, Clone, Copy, PartialEq, Eq, Structural)]
pub enum IoResult01<T, E> {
    /// The call finished with this value.
    Done(T),
    /// The call cannot make progress yet; retry after a wakeup.
    WouldBlock,
    /// The call failed.
    Failed(E),
}

/// What translating a generation-0.1 poll outcome forward returns: ready
/// and failed outcomes pass through unchanged, `NotReady` becomes
/// `Pending`.
pub open spec fn spec_poll_to_02<T, E>(p: Poll01<T, E>) -> Poll02<T, E> {
    match p {
        Poll01::Ready(v) => Poll02::Ready(v),
        Poll01::NotReady => Poll02::Pending,
        Poll01::Failed(e) => Poll02::Failed(e),
    }
}

/// What translating a generation-0.2 poll outcome back returns: ready and
/// failed outcomes pass through unchanged, `Pending` becomes `NotReady`.
pub open spec fn spec_poll_to_01<T, E>(p: Poll02<T, E>) -> Poll01<T, E> {
    match p {
        Poll02::Ready(v) => Poll01::Ready(v),
        Poll02::Pending => Poll01::NotReady,
        Poll02::Failed(e) => Poll01::Failed(e),
    }
}

/// What re-expressing a blocking-style IO outcome as a generation-0.2
/// poll returns: the would-block signal becomes `Pending`, everything
/// else passes through unchanged.
pub open spec fn spec_io_to_02<T, E>(r: IoResult01<T, E>) -> Poll02<T, E> {
    match r {
        IoResult01::Done(v) => Poll02::Ready(v),
        IoResult01::WouldBlock => Poll02::Pending,
        IoResult01::Failed(e) => Poll02::Failed(e),
    }
}

/// What re-expressing a generation-0.2 IO poll as a blocking-style
/// outcome returns: `Pending` becomes the would-block signal, everything
/// else passes through unchanged.
pub open spec fn spec_io_to_01<T, E>(p: Poll02<T, E>) -> IoResult01<T, E> {
    match p {
        Poll02::Ready(v) => IoResult01::Done(v),
        Poll02::Pending => IoResult01::WouldBlock,
        Poll02::Failed(e) => IoResult01::Failed(e),
    }
}

/// Translate a generation-0.1 poll outcome into the generation-0.2 one.
pub fn poll_to_02<T, E>(p: Poll01<T, E>) -> (r: Poll02<T, E>)
    ensures
        r == spec_poll_to_02(p),
{
    match p {
        Poll01::Ready(v) => Poll02::Ready(v),
        Poll01::NotReady => Poll02::Pending,
        Poll01::Failed(e) => Poll02::Failed(e),
    }
}

/// Translate a generation-0.2 poll outcome into the generation-0.1 one.
pub fn poll_to_01<T, E>(p: Poll02<T, E>) -> (r: Poll01<T, E>)
    ensures
        r == spec_poll_to_01(p),
{
    match p {
        Poll02::Ready(v) => Poll01::Ready(v),
        Poll02::Pending => Poll01::NotReady,
        Poll02::Failed(e) => Poll01::Failed(e),
    }
}

/// Re-express a blocking-style IO outcome as a generation-0.2 poll.
pub fn io_to_02<T, E>(r: IoResult01<T, E>) -> (p: Poll02<T, E>)
    ensures
        p == spec_io_to_02(r),
{
    match r {
        IoResult01::Done(v) => Poll02::Ready(v),
        IoResult01::WouldBlock => Poll02::Pending,
        IoResult01::Failed(e) => Poll02::Failed(e),
    }
}

/// Re-express a generation-0.2 IO poll as a blocking-style outcome.
pub fn io_to_01<T, E>(p: Poll02<T, E>) -> (r: IoResult01<T, E>)
    ensures
        r == spec_io_to_01(p),
{
    match p {
        Poll02::Ready(v) => IoResult01::Done(v),
        Poll02::Pending => IoResult01::WouldBlock,
        Poll02::Failed(e) => IoResult01::Failed(e),
    }
}

/// The poll translation loses nothing in either direction: translating a
/// generation-0.1 outcome forward and back yields the outcome itself, and
/// likewise starting from a generation-0.2 outcome.
pub proof fn lemma_poll_translation_symmetric<T, E>(p: Poll01<T, E>, q: Poll02<T, E>)
    ensures
        spec_poll_to_01(spec_poll_to_02(p)) == p,
        spec_poll_to_02(spec_poll_to_01(q)) == q,
{
}

/// The IO translation loses nothing in either direction: re-expressing a
/// blocking-style outcome as a poll and back yields the outcome itself,
/// and likewise starting from a generation-0.2 IO poll.
pub proof fn lemma_io_translation_symmetric<T, E>(r: IoResult01<T, E>, p: Poll02<T, E>)
    ensures
        spec_io_to_01(spec_io_to_02(r)) == r,
        spec_io_to_02(spec_io_to_01(p)) == p,
{
}

/// The forward poll translation is faithful: it returns `Pending` exactly
/// when the generation-0.1 outcome is `NotReady`, passes a ready value
/// through unchanged, and passes a failure through unchanged, in each
/// case if and only if.
pub proof fn lemma_poll_to_02_faithful<T, E>(p: Poll01<T, E>)
    ensures
        spec_poll_to_02(p) is Pending <==> p is NotReady,
        spec_poll_to_02(p) is Ready <==> p is Ready,
        spec_poll_to_02(p) is Failed <==> p is Failed,
        p matches Poll01::Ready(v) ==> spec_poll_to_02(p) == Poll02::<T, E>::Ready(v),
        p matches Poll01::Failed(e) ==> spec_poll_to_02(p) == Poll02::<T, E>::Failed(e),
{
}

/// The backward poll translation is faithful: it returns `NotReady`
/// exactly when the generation-0.2 outcome is `Pending`, passes a ready
/// value through unchanged, and passes a failure through unchanged, in
/// each case if and only if.
pub proof fn lemma_poll_to_01_faithful<T, E>(p: Poll02<T, E>)
    ensures
        spec_poll_to_01(p) is NotReady <==> p is Pending,
        spec_poll_to_01(p) is Ready <==> p is Ready,
        spec_poll_to_01(p) is Failed <==> p is Failed,
        p matches Poll02::Ready(v) ==> spec_poll_to_01(p) == Poll01::<T, E>::Ready(v),
        p matches Poll02::Failed(e) ==> spec_poll_to_01(p) == Poll01::<T, E>::Failed(e),
{
}

/// The IO translation signals would-block faithfully: a generation-0.2
/// IO poll is re-expressed as the would-block signal exactly when it is
/// `Pending`, a byte count passes through unchanged, and a failure passes
/// through unchanged, in each case if and only if.
pub proof fn lemma_io_to_01_faithful<T, E>(p: Poll02<T, E>)
    ensures
        spec_io_to_01(p) is WouldBlock <==> p is Pending,
        spec_io_to_01(p) is Done <==> p is Ready,
        spec_io_to_01(p) is Failed <==> p is Failed,
        p matches Poll02::Ready(v) ==> spec_io_to_01(p) == IoResult01::<T, E>::Done(v),
        p matches Poll02::Failed(e) ==> spec_io_to_01(p) == IoResult01::<T, E>::Failed(e),
{
}

/// An inner failure surfaces unchanged through every translation, in both
/// directions: no direction inspects or alters the error payload.
pub proof fn lemma_error_passthrough<T, E>(e: E)
    ensures
        spec_poll_to_02(Poll01::<T, E>::Failed(e)) == Poll02::<T, E>::Failed(e),
        spec_poll_to_01(Poll02::<T, E>::Failed(e)) == Poll01::<T, E>::Failed(e),
        spec_io_to_02(IoResult01::<T, E>::Failed(e)) == Poll02::<T, E>::Failed(e),
        spec_io_to_01(Poll02::<T, E>::Failed(e)) == IoResult01::<T, E>::Failed(e),
{
}

} // verus!
