//! A stream decorator that runs a one-shot callback when it is torn down.
//!
//! [`DropStream`] owns an inner stream and a callback, the *dropper*. Pulling
//! from the wrapper pulls from the inner stream and does nothing else; tearing
//! the wrapper down invokes the dropper, once, and leaves the inner stream to
//! be released after it. The teardown is a method, [`DropStream::teardown`],
//! not a destructor: it is meant to be called from the `Drop::drop` of the
//! type that holds the wrapper.
//!
//! The crate is verified with Verus. The contracts are stated over two views of
//! a wrapper: the callback it still holds ([`DropStream::pending_dropper`]) and
//! the phase of its life that follows from it ([`lifecycle::Phase`]).

pub mod lifecycle;
pub mod slot;
pub mod stream;
pub mod task;

pub use crate::stream::DropStream;
pub use crate::stream::DropStreamExt;
