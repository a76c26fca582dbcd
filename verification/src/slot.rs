//! The cell that keeps a one-shot callback until it is fired.

use vstd::prelude::*;

verus! {

/// A single-owner cell for a callback that may run at most once.
///
/// A slot is *armed* while it holds its callback and *spent* once the callback
/// has been taken out and called. There is no way back from spent to armed.
pub struct Slot<U: FnOnce()> {
    callback: Option<U>,
}

impl<U: FnOnce()> Slot<U> {
    /// A callback that waits in a slot can be called at any moment.
    #[verifier::type_invariant]
    spec fn callable(self) -> bool {
        self.callback matches Some(f) ==> call_requires(f, ())
    }

    /// The callback that the slot still holds, if it has not been fired.
    pub closed spec fn pending(self) -> Option<U> {
        self.callback
    }

    /// Puts `callback` into a new slot. Nothing is called.
    ///
    /// The callback must be callable as it stands, since nothing is known of
    /// the moment at which the slot will be fired.
    pub fn armed(callback: U) -> (slot: Self)
        requires
            call_requires(callback, ()),
        ensures
            slot.pending() == Some(callback),
    {
        Slot { callback: Some(callback) }
    }

    /// Moves the callback out and leaves the slot spent, so that nothing can
    /// reach the callback a second time. What comes out can be called.
    fn take(&mut self) -> (taken: Option<U>)
        ensures
            taken == old(self).pending(),
            final(self).pending() is None,
            taken matches Some(f) ==> call_requires(f, ()),
        opens_invariants none
        no_unwind
    {
        proof {
            use_type_invariant(&*self);
        }
        let mut taken: Option<U> = None;
        core::mem::swap(&mut self.callback, &mut taken);
        taken
    }

    /// Empties the slot and, if it held a callback, calls it.
    ///
    /// The callback is moved out before it is called: after `fire` the slot is
    /// spent, whatever it was before, and a second `fire` calls nothing. If the
    /// callback unwinds, so does `fire`, with the slot already spent.
    pub fn fire(&mut self)
        ensures
            final(self).pending() is None,
            old(self).pending() matches Some(f) ==> call_ensures(f, (), ()),
    {
        match self.take() {
            Some(callback) => callback(),
            None => {},
        }
    }
}

} // verus!
