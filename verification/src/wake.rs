//! The single-slot wake handle and the task types that pass through it.
//!
//! The handle is a `futures_util::task::AtomicWaker`. Nothing in this module
//! is proved: the contracts below are what the rest of the crate takes on
//! trust about it when it is reached through an exclusive reference.

use core::task::{Poll, Waker};
use futures_util::task::AtomicWaker;
use vstd::prelude::*;

verus! {

/// `futures_util::task::AtomicWaker`, spoken of through
/// [`waiter_registered`].
#[verifier::external_type_specification]
#[verifier::external_body]
pub struct ExAtomicWaker(AtomicWaker);

/// `core::task::Waker`: the resumption token of a suspended consumer. It is
/// only carried through.
#[verifier::external_type_specification]
#[verifier::external_body]
pub struct ExWaker(Waker);

/// `core::task::Poll`, with its two variants `Ready` and `Pending`.
#[verifier::external_type_specification]
#[verifier::reject_recursive_types(T)]
pub struct ExPoll<T>(Poll<T>);

/// Whether the handle holds a waiter that a wake would resume.
pub uninterp spec fn waiter_registered(handle: AtomicWaker) -> bool;

/// `AtomicWaker::new`: a handle with no waiter registered.
#[verifier::external_body]
pub(crate) fn wake_handle_new() -> (handle: AtomicWaker)
    ensures
        !waiter_registered(handle),
{
    AtomicWaker::new()
}

/// `AtomicWaker::register`: stores the waiter in the slot, in place of any
/// waiter stored before. The handle holds a waiter afterwards.
#[verifier::external_body]
pub(crate) fn wake_handle_register(handle: &mut AtomicWaker, waiter: &Waker)
    ensures
        waiter_registered(*final(handle)),
{
    handle.register(waiter)
}

/// `AtomicWaker::wake`: takes the registered waiter out of the slot and wakes
/// it; does nothing when the slot is empty. The slot is empty afterwards.
#[verifier::external_body]
pub(crate) fn wake_handle_wake(handle: &mut AtomicWaker)
    ensures
        !waiter_registered(*final(handle)),
{
    handle.wake()
}

/// `AtomicWaker::take`: takes the registered waiter out of the slot without
/// waking it and returns it, or returns `None` when the slot is empty. The
/// slot is empty afterwards.
#[verifier::external_body]
pub(crate) fn wake_handle_take(handle: &mut AtomicWaker) -> (taken: Option<Waker>)
    ensures
        !waiter_registered(*final(handle)),
        taken is Some <==> waiter_registered(*old(handle)),
{
    handle.take()
}

} // verus!
