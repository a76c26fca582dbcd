//! The wrapper itself: construction, the pull, and the teardown.

use crate::lifecycle::lemma_pulls_never_fire;
use crate::lifecycle::Op;
use crate::lifecycle::Phase;
use crate::slot::Slot;
use core::pin::Pin;
use core::task::Context;
use core::task::Poll;
use futures_core::Stream;
use vstd::prelude::*;

verus! {

/// A wrapper around a stream and a closure, the dropper, that is called once
/// when the wrapper is torn down.
///
/// This is useful where a stream carries data to a consumer and the producer
/// has to learn that the consumer has gone away: the consumer lets go of the
/// stream, and the dropper tells the producer.
///
/// The wrapper owns both parts and gives neither out. It is pulled through
/// [`poll_next`](DropStream::poll_next), which has the shape of
/// `futures_core::Stream::poll_next` for an unpinned receiver, and torn down
/// through [`teardown`](DropStream::teardown).
///
/// The type has no destructor and implements no `Stream`: a value that merely
/// goes out of scope releases its two parts and calls nothing. A destructor
/// must not unwind, which cannot be shown of a closure that the caller
/// supplies, and Verus does not take an impl of a trait that has not been
/// declared to it. Whoever wants the dropper to run at the end of a scope, or
/// needs a `Stream`, holds the wrapper in a type of its own whose `Drop::drop`
/// calls `teardown` and whose `Stream::poll_next` calls `poll_next`.
pub struct DropStream<S, U: FnOnce()> {
    stream: S,
    dropper: Slot<U>,
}

impl<S, U: FnOnce()> DropStream<S, U> {
    /// The inner stream in its present state.
    pub closed spec fn inner(&self) -> S {
        self.stream
    }

    /// The dropper, for as long as it has not been called.
    pub closed spec fn pending_dropper(&self) -> Option<U> {
        self.dropper.pending()
    }

    /// The phase of the wrapper's life: active while the dropper is held.
    pub open spec fn phase(&self) -> Phase {
        if self.pending_dropper() is Some {
            Phase::Active
        } else {
            Phase::TornDown
        }
    }

    /// Wraps `stream` so that `dropper` runs when the result is torn down.
    ///
    /// Nothing is called here. The dropper has to be callable at whatever
    /// moment the wrapper is torn down, so its precondition must hold as it is
    /// handed over; a closure without a `requires` clause meets this.
    pub fn new(stream: S, dropper: U) -> (wrapped: Self)
        requires
            call_requires(dropper, ()),
        ensures
            wrapped.inner() == stream,
            wrapped.pending_dropper() == Some(dropper),
            wrapped.phase() == Phase::Active,
    {
        Self { stream, dropper: Slot::armed(dropper) }
    }
}

impl<S: Stream<Item = T> + Unpin, T, U: FnOnce()> DropStream<S, U> {
    /// Pulls the next item: calls `futures_core::Stream::poll_next` on the
    /// inner stream, pinned with `Pin::new`, and returns its answer as it is.
    ///
    /// The answer is the inner stream's alone (an item, the end, or "not
    /// yet", with the wake-up arranged by the inner stream), and polling after
    /// the end does whatever the inner stream does then; the contract claims
    /// nothing of it. What the contract does claim is taken on trust, since the
    /// body is not verified: the call is given the inner stream and nothing
    /// else, so the dropper is neither called nor replaced by a pull, whatever
    /// the answer, the end of the stream included.
    #[verifier::external_body]
    pub fn poll_next(&mut self, cx: &mut Context<'_>) -> (outcome: Poll<Option<T>>)
        ensures
            final(self).pending_dropper() == old(self).pending_dropper(),
    {
        Pin::new(&mut self.stream).poll_next(cx)
    }
}

/// What `poll_next` leaves behind, spelled out: a wrapper that holds the same
/// dropper after a pull as before it has not run the dropper during the pull,
/// is in the phase in which it was, and, if it was active with the dropper
/// `dropper`, is still active with that very dropper. This holds whatever the
/// pull answered, the end of the stream included.
pub proof fn lemma_pull_leaves_dropper_pending<S, U: FnOnce()>(
    before: DropStream<S, U>,
    after: DropStream<S, U>,
    dropper: U,
)
    requires
        after.pending_dropper() == before.pending_dropper(),
    ensures
        !before.phase().fires_on(Op::Pull),
        before.phase().invocations(seq![Op::Pull]) == 0,
        after.phase() == before.phase().after(Op::Pull),
        after.phase() == before.phase(),
        before.pending_dropper() == Some(dropper) ==> after.pending_dropper() == Some(dropper)
            && after.phase() == Phase::Active,
{
    let pull = seq![Op::Pull];
    assert(pull[0] is Pull);
    lemma_pulls_never_fire(before.phase(), pull);
}

impl<S, U: FnOnce()> DropStream<S, U> {
    /// Tears the wrapper down: takes the dropper out of its slot and calls it.
    ///
    /// The dropper has returned by the time `teardown` ends, and the inner
    /// stream is not touched; it is released, with the emptied slot, when the
    /// wrapper itself goes. The call is safe in any state: without a pull
    /// before it, after any number of pulls, after the end of the stream. On a
    /// wrapper that has been torn down already it calls nothing, so that the
    /// dropper runs once however often `teardown` is called. If the dropper
    /// unwinds, so does `teardown`, with the slot already empty.
    pub fn teardown(&mut self)
        ensures
            final(self).pending_dropper() is None,
            final(self).phase() == old(self).phase().after(Op::Teardown),
            final(self).inner() == old(self).inner(),
            old(self).phase().fires_on(Op::Teardown) ==> call_ensures(
                old(self).pending_dropper()->0,
                (),
                (),
            ),
    {
        self.dropper.fire();
    }
}

/// Adds [`on_drop`](DropStreamExt::on_drop) to every type, so that a stream can
/// be wrapped where it is made.
pub trait DropStreamExt<U: FnOnce()>: Sized {
    /// Wraps the stream with a closure that is called once it is torn down.
    ///
    /// The same as [`DropStream::new`] with `self` as the stream.
    fn on_drop(self, dropper: U) -> (wrapped: DropStream<Self, U>)
        requires
            call_requires(dropper, ()),
        ensures
            wrapped.inner() == self,
            wrapped.pending_dropper() == Some(dropper),
            wrapped.phase() == Phase::Active,
    ;
}

impl<S, U: FnOnce()> DropStreamExt<U> for S {
    fn on_drop(self, dropper: U) -> (wrapped: DropStream<Self, U>) {
        DropStream::new(self, dropper)
    }
}

} // verus!
