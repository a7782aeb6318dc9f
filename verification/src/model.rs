//! The abstract state of an event source and the transitions its operations
//! make.
//!
//! Every executable operation in [`crate::keyboard`] is specified as "the
//! state afterwards is this function of the state before, and the value
//! returned is that function of the state before".

use crate::queue::MAX_QUEUE_CAPACITY;
use core::task::Poll;
use vstd::prelude::*;

verus! {

/// What became of one submitted scancode.
#[derive(Clone, Copy, Debug, PartialEq, Eq, Structural)]
pub enum SubmitOutcome {
    /// The scancode was appended to the queue and the wake handle was fired.
    Queued,
    /// The queue was full: the scancode was dropped.
    Overflow,
    /// The queue did not exist yet: the scancode was dropped.
    UninitializedAccess,
}

/// Why an attempt to initialise an event source was rejected.
#[derive(Clone, Copy, Debug, PartialEq, Eq, Structural)]
pub enum InitError {
    /// The event source had been initialised before.
    DoubleInitialization,
    /// The requested capacity was zero or above [`MAX_QUEUE_CAPACITY`].
    InvalidCapacity,
}

/// The error of polling an event source that was never initialised.
#[derive(Clone, Copy, Debug, PartialEq, Eq, Structural)]
pub struct Uninitialized;

/// The abstract state of the bounded queue.
pub struct QueueState {
    /// The queued scancodes, oldest first.
    pub contents: Seq<u8>,
    /// The number of scancodes the queue can hold.
    pub capacity: nat,
}

/// The abstract state of an event source.
pub struct SourceState {
    /// The queue, once it has been created.
    pub queue: Option<QueueState>,
    /// Whether a waiter is registered with the wake handle.
    pub waiter: bool,
}

impl SubmitOutcome {
    /// The warning that goes with an outcome: none for a queued scancode, one
    /// for each dropped scancode.
    pub open spec fn diagnostic_text(self) -> Option<Seq<char>> {
        match self {
            SubmitOutcome::Queued => None,
            SubmitOutcome::Overflow => Some(
                "WARNING: scancode queue full; dropping keyboard input"@,
            ),
            SubmitOutcome::UninitializedAccess => Some("WARNING: scancode queue uninitialized"@),
        }
    }

    /// Whether the scancode was dropped.
    pub open spec fn is_drop(self) -> bool {
        self != SubmitOutcome::Queued
    }

    /// The warning to emit for this outcome, if any.
    pub fn diagnostic(&self) -> (text: Option<&'static str>)
        ensures
            text is Some <==> self.is_drop(),
            text is Some <==> self.diagnostic_text() is Some,
            text is Some ==> text->Some_0@ == self.diagnostic_text()->Some_0,
    {
        match self {
            SubmitOutcome::Queued => None,
            SubmitOutcome::Overflow => Some(
                "WARNING: scancode queue full; dropping keyboard input",
            ),
            SubmitOutcome::UninitializedAccess => Some("WARNING: scancode queue uninitialized"),
        }
    }
}

impl SourceState {
    /// The state of a freshly made event source: no queue, no waiter.
    pub open spec fn uninitialized() -> SourceState {
        SourceState { queue: None, waiter: false }
    }

    /// Whether the queue exists.
    pub open spec fn initialized(self) -> bool {
        self.queue is Some
    }

    /// The queued scancodes, oldest first; empty while the queue does not
    /// exist.
    pub open spec fn contents(self) -> Seq<u8> {
        match self.queue {
            Some(q) => q.contents,
            None => Seq::empty(),
        }
    }

    /// The capacity of the queue; zero while the queue does not exist.
    pub open spec fn capacity(self) -> nat {
        match self.queue {
            Some(q) => q.capacity,
            None => 0,
        }
    }

    /// The states an event source can be in: an existing queue has a
    /// capacity within bounds and never holds more than its capacity.
    pub open spec fn wf(self) -> bool {
        self.initialized() ==> 0 < self.capacity() <= MAX_QUEUE_CAPACITY && self.contents().len()
            <= self.capacity()
    }

    /// This state with the queue's contents replaced. The state must have a
    /// queue.
    pub open spec fn with_contents(self, contents: Seq<u8>) -> SourceState {
        SourceState {
            queue: Some(QueueState { contents, capacity: self.capacity() }),
            waiter: self.waiter,
        }
    }

    /// This state with the waiter registration replaced.
    pub open spec fn with_waiter(self, waiter: bool) -> SourceState {
        SourceState { queue: self.queue, waiter }
    }

    /// Why initialising with `capacity` is rejected in this state, if it is.
    pub open spec fn init_error(self, capacity: nat) -> Option<InitError> {
        if capacity == 0 || capacity > MAX_QUEUE_CAPACITY {
            Some(InitError::InvalidCapacity)
        } else if self.initialized() {
            Some(InitError::DoubleInitialization)
        } else {
            None
        }
    }

    /// The state after an attempt to initialise with `capacity`: an empty
    /// queue of that capacity where the attempt is accepted, this state
    /// where it is rejected.
    pub open spec fn after_init(self, capacity: nat) -> SourceState {
        if self.init_error(capacity) is None {
            SourceState {
                queue: Some(QueueState { contents: Seq::empty(), capacity }),
                waiter: self.waiter,
            }
        } else {
            self
        }
    }

    /// What becomes of a scancode submitted in this state.
    pub open spec fn submit_outcome(self) -> SubmitOutcome {
        if !self.initialized() {
            SubmitOutcome::UninitializedAccess
        } else if self.contents().len() < self.capacity() {
            SubmitOutcome::Queued
        } else {
            SubmitOutcome::Overflow
        }
    }

    /// The state after `event` was submitted: where it is queued, it is the
    /// newest element and the wake has consumed the registration; where it
    /// is dropped, nothing changes.
    pub open spec fn after_submit(self, event: u8) -> SourceState {
        if self.submit_outcome() == SubmitOutcome::Queued {
            self.with_contents(self.contents().push(event)).with_waiter(false)
        } else {
            self
        }
    }

    /// The oldest queued scancode, if there is one.
    pub open spec fn head(self) -> Option<u8> {
        if self.contents().len() > 0 {
            Some(self.contents().first())
        } else {
            None
        }
    }

    /// The state after the fast path of a poll: the head, if any, has left
    /// the queue; the wake handle is as it was.
    pub open spec fn after_fast_path(self) -> SourceState {
        if self.contents().len() > 0 {
            self.with_contents(self.contents().drop_first())
        } else {
            self
        }
    }

    /// What a poll returns in this state: the head if there is one, else
    /// "not ready yet".
    pub open spec fn poll_result(self) -> Poll<Option<u8>> {
        match self.head() {
            Some(event) => Poll::Ready(Some(event)),
            None => Poll::Pending,
        }
    }

    /// The state after the second phase of a poll, which registers the
    /// waiter and looks again: where a scancode has arrived it leaves the
    /// queue and the registration is withdrawn; else the waiter stays
    /// registered.
    pub open spec fn after_recheck(self) -> SourceState {
        if self.contents().len() > 0 {
            self.with_contents(self.contents().drop_first()).with_waiter(false)
        } else {
            self.with_waiter(true)
        }
    }

    /// The state after a whole poll: with data queued only the fast path
    /// runs; on an empty queue the second phase follows.
    pub open spec fn after_poll(self) -> SourceState {
        if self.contents().len() > 0 {
            self.after_fast_path()
        } else {
            self.after_fast_path().after_recheck()
        }
    }

    /// The state after the scancodes of `events` were submitted one after
    /// the other, with nothing else in between.
    pub open spec fn after_submits(self, events: Seq<u8>) -> SourceState
        decreases events.len(),
    {
        if events.len() == 0 {
            self
        } else {
            self.after_submits(events.drop_last()).after_submit(events.last())
        }
    }

    /// What became of each scancode of `events`, submitted one after the
    /// other with nothing else in between.
    pub open spec fn submit_outcomes(self, events: Seq<u8>) -> Seq<SubmitOutcome> {
        Seq::new(events.len(), |i: int| self.after_submits(events.take(i)).submit_outcome())
    }

    /// The state after `n` polls with nothing else in between.
    pub open spec fn after_polls(self, n: nat) -> SourceState
        decreases n,
    {
        if n == 0 {
            self
        } else {
            self.after_polls((n - 1) as nat).after_poll()
        }
    }

    /// What `n` polls return, one after the other with nothing else in
    /// between.
    pub open spec fn poll_results(self, n: nat) -> Seq<Poll<Option<u8>>> {
        Seq::new(n, |i: int| self.after_polls(i as nat).poll_result())
    }

    /// The state after one step of the producer or the consumer.
    pub open spec fn after_step(self, step: SourceStep) -> SourceState {
        match step {
            SourceStep::Init(capacity) => self.after_init(capacity),
            SourceStep::Submit(event) => self.after_submit(event),
            SourceStep::FastPath => self.after_fast_path(),
            SourceStep::Recheck => if self.initialized() {
                self.after_recheck()
            } else {
                self
            },
        }
    }

    /// The state after the steps of `steps`, in order.
    pub open spec fn after_steps(self, steps: Seq<SourceStep>) -> SourceState
        decreases steps.len(),
    {
        if steps.len() == 0 {
            self
        } else {
            self.after_steps(steps.drop_last()).after_step(steps.last())
        }
    }
}

/// One step that touches an event source: an attempt to initialise it, a
/// submission, or one of the two phases of a poll. A poll that finds data is
/// a `FastPath` alone; a poll on an empty queue is a `FastPath` followed by
/// a `Recheck`, and a submission may fall between the two.
pub enum SourceStep {
    /// An attempt to initialise with the given capacity.
    Init(nat),
    /// The submission of one scancode.
    Submit(u8),
    /// The first phase of a poll.
    FastPath,
    /// The second phase of a poll, on an initialised event source.
    Recheck,
}

/// Each scancode of `events` as the result of a poll that found it.
pub open spec fn ready_each(events: Seq<u8>) -> Seq<Poll<Option<u8>>> {
    Seq::new(events.len(), |i: int| Poll::Ready(Some(events[i])))
}

} // verus!
