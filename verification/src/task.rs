//! The types of `core::task` that appear in the signature of a pull.

use core::task::Context;
use core::task::Poll;
use vstd::prelude::*;

verus! {

/// `core::task::Poll`, the answer of a pull: an item, the end of the stream, or
/// "not yet". The wrapper hands such a value through and never looks inside,
/// so the type is declared without its variants.
#[verifier::external_type_specification]
#[verifier::external_body]
#[verifier::reject_recursive_types(T)]
pub struct ExPoll<T>(Poll<T>);

/// `core::task::Context`, the handle through which a suspended pull is woken.
/// It is passed to the inner stream untouched.
#[verifier::external_type_specification]
#[verifier::external_body]
pub struct ExContext<'a>(Context<'a>);

} // verus!
