//! The event source, the producer's entry point and the consumer's stream.

use crate::model::{InitError, QueueState, SourceState, SubmitOutcome, Uninitialized};
use crate::queue::{
    queue_capacity, queue_contents, queue_is_ready, queue_pop, queue_push, queue_ready,
    queue_try_init, queue_uninit, ScancodeQueue, MAX_QUEUE_CAPACITY,
};
use crate::wake::{
    waiter_registered, wake_handle_new, wake_handle_register, wake_handle_take, wake_handle_wake,
};
use core::task::{Poll, Waker};
use futures_util::task::AtomicWaker;
use vstd::prelude::*;

verus! {

/// The number of scancodes the queue of [`ScancodeStream::new`] can hold.
pub const SCANCODE_QUEUE_LENGTH: usize = 100;

/// The state shared by the producer and the consumer: the bounded queue,
/// which is created once, and the wake handle.
pub struct EventSource {
    queue: ScancodeQueue,
    waker: AtomicWaker,
}

impl View for EventSource {
    type V = SourceState;

    closed spec fn view(&self) -> SourceState {
        SourceState {
            queue: if queue_ready(self.queue) {
                Some(
                    QueueState {
                        contents: queue_contents(self.queue),
                        capacity: queue_capacity(self.queue),
                    },
                )
            } else {
                None
            },
            waiter: waiter_registered(self.waker),
        }
    }
}

impl EventSource {
    /// The wake handle itself. Two event sources with equal wake handles
    /// have had no registration, wake or withdrawal between them.
    pub closed spec fn wake_handle(&self) -> AtomicWaker {
        self.waker
    }

    /// An event source whose queue does not exist yet and whose wake handle
    /// holds no waiter.
    pub fn new() -> (source: EventSource)
        ensures
            source@ == SourceState::uninitialized(),
    {
        EventSource { queue: queue_uninit(), waker: wake_handle_new() }
    }

    /// Whether the queue has been created.
    pub fn is_initialized(&self) -> (ready: bool)
        ensures
            ready == self@.initialized(),
    {
        queue_is_ready(&self.queue)
    }
}

/// Hands one scancode from the producer to the event source.
///
/// Where the queue exists and has room, the scancode becomes its newest
/// element and the wake handle is fired. Where the queue is full or does not
/// exist yet, the scancode is dropped, nothing changes, and the outcome
/// carries the warning to emit.
pub fn add_scancode(source: &mut EventSource, scancode: u8) -> (outcome: SubmitOutcome)
    ensures
        outcome == old(source)@.submit_outcome(),
        final(source)@ == old(source)@.after_submit(scancode),
        outcome.is_drop() ==> final(source).wake_handle() == old(source).wake_handle(),
        old(source)@.wf() ==> final(source)@.wf(),
{
    match queue_push(&mut source.queue, scancode) {
        Ok(Ok(())) => {
            wake_handle_wake(&mut source.waker);
            SubmitOutcome::Queued
        },
        Ok(Err(_)) => SubmitOutcome::Overflow,
        Err(_) => SubmitOutcome::UninitializedAccess,
    }
}

/// The consumer's permission to poll an event source. Making one initialises
/// the event source.
pub struct ScancodeStream {
    _private: (),
}

impl ScancodeStream {
    /// Initialises `source` with a queue of [`SCANCODE_QUEUE_LENGTH`]
    /// scancodes. The event source must not have been initialised before.
    pub fn new(source: &mut EventSource) -> (stream: ScancodeStream)
        requires
            !old(source)@.initialized(),
        ensures
            final(source)@ == old(source)@.after_init(SCANCODE_QUEUE_LENGTH as nat),
            final(source)@.initialized(),
            final(source)@.contents() == Seq::<u8>::empty(),
            final(source)@.capacity() == SCANCODE_QUEUE_LENGTH,
            final(source).wake_handle() == old(source).wake_handle(),
            old(source)@.wf() ==> final(source)@.wf(),
    {
        let created = queue_try_init(&mut source.queue, SCANCODE_QUEUE_LENGTH);
        assert(created is Ok);
        ScancodeStream { _private: () }
    }

    /// Initialises `source` with a queue of [`SCANCODE_QUEUE_LENGTH`]
    /// scancodes, or reports that it had been initialised before and leaves
    /// it as it was.
    pub fn try_new(source: &mut EventSource) -> (r: Result<ScancodeStream, InitError>)
        ensures
            r is Ok <==> !old(source)@.initialized(),
            r is Err ==> r->Err_0 == InitError::DoubleInitialization,
            final(source)@ == old(source)@.after_init(SCANCODE_QUEUE_LENGTH as nat),
            final(source).wake_handle() == old(source).wake_handle(),
            old(source)@.wf() ==> final(source)@.wf(),
    {
        ScancodeStream::try_with_capacity(source, SCANCODE_QUEUE_LENGTH)
    }

    /// Initialises `source` with a queue of `capacity` scancodes, or reports
    /// why it did not and leaves the event source as it was.
    pub fn try_with_capacity(source: &mut EventSource, capacity: usize) -> (r: Result<ScancodeStream, InitError>)
        ensures
            r is Ok <==> old(source)@.init_error(capacity as nat) is None,
            r is Err ==> old(source)@.init_error(capacity as nat) == Some(r->Err_0),
            final(source)@ == old(source)@.after_init(capacity as nat),
            final(source).wake_handle() == old(source).wake_handle(),
            old(source)@.wf() ==> final(source)@.wf(),
    {
        if capacity == 0 || capacity > MAX_QUEUE_CAPACITY {
            return Err(InitError::InvalidCapacity);
        }
        match queue_try_init(&mut source.queue, capacity) {
            Ok(()) => Ok(ScancodeStream { _private: () }),
            Err(_) => Err(InitError::DoubleInitialization),
        }
    }

    /// The first phase of a poll: takes the oldest queued scancode, if there
    /// is one. The wake handle is not touched.
    pub fn fast_path(&mut self, source: &mut EventSource) -> (event: Option<u8>)
        requires
            old(source)@.initialized(),
        ensures
            event == old(source)@.head(),
            final(source)@ == old(source)@.after_fast_path(),
            final(source).wake_handle() == old(source).wake_handle(),
            old(source)@.wf() ==> final(source)@.wf(),
    {
        match queue_pop(&mut source.queue) {
            Ok(Some(scancode)) => Some(scancode),
            _ => None,
        }
    }

    /// The second phase of a poll: registers `waiter`, then looks at the
    /// queue again. A scancode that arrived before the registration was in
    /// place is returned at once and the registration is withdrawn; on a
    /// queue that is still empty the consumer is to suspend, and the waiter
    /// stays registered.
    pub fn register_and_recheck(&mut self, source: &mut EventSource, waiter: &Waker) -> (r: Poll<Option<u8>>)
        requires
            old(source)@.initialized(),
        ensures
            r == old(source)@.poll_result(),
            r != Poll::<Option<u8>>::Ready(None),
            final(source)@ == old(source)@.after_recheck(),
            old(source)@.wf() ==> final(source)@.wf(),
    {
        wake_handle_register(&mut source.waker, waiter);
        match queue_pop(&mut source.queue) {
            Ok(Some(scancode)) => {
                let _ = wake_handle_take(&mut source.waker);
                Poll::Ready(Some(scancode))
            },
            _ => Poll::Pending,
        }
    }

    /// Polls for the next scancode.
    ///
    /// With data queued, the oldest scancode is returned and the wake handle
    /// is not touched. On an empty queue `waiter` is registered and the
    /// result is `Pending`. The result is never `Ready(None)`: the stream
    /// does not end.
    pub fn poll_next(&mut self, source: &mut EventSource, waiter: &Waker) -> (r: Poll<Option<u8>>)
        requires
            old(source)@.initialized(),
        ensures
            r == old(source)@.poll_result(),
            r != Poll::<Option<u8>>::Ready(None),
            final(source)@ == old(source)@.after_poll(),
            old(source)@.contents().len() > 0 ==> final(source).wake_handle()
                == old(source).wake_handle(),
            old(source)@.wf() ==> final(source)@.wf(),
    {
        if let Some(scancode) = self.fast_path(source) {
            return Poll::Ready(Some(scancode));
        }
        self.register_and_recheck(source, waiter)
    }

    /// Polls for the next scancode as [`ScancodeStream::poll_next`] does, or
    /// reports that `source` was never initialised and leaves it as it was.
    pub fn try_poll_next(&mut self, source: &mut EventSource, waiter: &Waker) -> (r: Result<Poll<Option<u8>>, Uninitialized>)
        ensures
            r is Ok <==> old(source)@.initialized(),
            r is Ok ==> r->Ok_0 == old(source)@.poll_result()
                && final(source)@ == old(source)@.after_poll(),
            r is Ok && old(source)@.contents().len() > 0 ==> final(source).wake_handle()
                == old(source).wake_handle(),
            r is Err ==> final(source)@ == old(source)@
                && final(source).wake_handle() == old(source).wake_handle(),
            old(source)@.wf() ==> final(source)@.wf(),
    {
        if !source.is_initialized() {
            return Err(Uninitialized);
        }
        Ok(self.poll_next(source, waiter))
    }
}

} // verus!
