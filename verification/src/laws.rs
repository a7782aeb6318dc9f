//! Laws of the event source, proved from the transitions of
//! [`crate::model`].
//!
//! Each executable operation states that it makes exactly one of those
//! transitions, so what is proved here of sequences of transitions holds of
//! the same sequences of calls.

use crate::model::{ready_each, InitError, SourceState, SourceStep, SubmitOutcome};
use core::task::Poll;
use vstd::prelude::*;

verus! {

/// The number of scancodes of a batch of `count` that an initialised event
/// source in state `s` takes before it is full.
pub open spec fn accepted(s: SourceState, count: nat) -> nat {
    let room = s.capacity() - s.contents().len();
    if count <= room {
        count
    } else {
        room as nat
    }
}

/// No waiter sleeps on queued data: a registered waiter means an empty
/// queue.
pub open spec fn no_waiter_sleeps_on_data(s: SourceState) -> bool {
    s.waiter ==> s.contents().len() == 0
}

/// Every step keeps an event source within its valid states: the queue
/// never holds more than its capacity.
pub proof fn lemma_step_preserves_wf(s: SourceState, step: SourceStep)
    requires
        s.wf(),
    ensures
        s.after_step(step).wf(),
        s.after_poll().wf(),
{
}

/// Whatever the producer and the consumer do, and in whatever order, an
/// event source stays within its valid states.
pub proof fn lemma_steps_preserve_wf(s: SourceState, steps: Seq<SourceStep>)
    requires
        s.wf(),
    ensures
        s.after_steps(steps).wf(),
    decreases steps.len(),
{
    if steps.len() > 0 {
        lemma_steps_preserve_wf(s, steps.drop_last());
        lemma_step_preserves_wf(s.after_steps(steps.drop_last()), steps.last());
    }
}

/// Submitting a batch with nothing in between appends, in order, as many of
/// its scancodes as the queue has room for and leaves out the rest. The
/// registration is consumed as soon as one scancode is queued.
pub proof fn lemma_after_submits(s: SourceState, events: Seq<u8>)
    requires
        s.wf(),
        s.initialized(),
    ensures
        s.after_submits(events).initialized(),
        s.after_submits(events).wf(),
        s.after_submits(events).capacity() == s.capacity(),
        s.after_submits(events).contents() == s.contents() + events.take(
            accepted(s, events.len()) as int,
        ),
        s.after_submits(events).waiter == (accepted(s, events.len()) == 0 && s.waiter),
    decreases events.len(),
{
    if events.len() == 0 {
        assert(s.contents() + events.take(0) =~= s.contents());
    } else {
        let prefix = events.drop_last();
        let before = s.after_submits(prefix);
        lemma_after_submits(s, prefix);
        let taken: int = accepted(s, prefix.len()) as int;
        if before.contents().len() < before.capacity() {
            assert(prefix.take(taken) =~= prefix);
            assert(events.take(events.len() as int) =~= events);
            assert((s.contents() + prefix).push(events.last()) =~= s.contents() + events);
        } else {
            assert(events.take(taken) =~= prefix.take(taken));
        }
    }
}

/// Of a batch submitted with nothing in between, a scancode is queued
/// exactly when the queue was not yet full at its turn; the others overflow.
pub proof fn lemma_submit_outcomes(s: SourceState, events: Seq<u8>)
    requires
        s.wf(),
        s.initialized(),
    ensures
        s.submit_outcomes(events).len() == events.len(),
        forall|i: int|
            0 <= i < events.len() ==> #[trigger] s.submit_outcomes(events)[i] == if s.contents().len()
                + i < s.capacity() {
                SubmitOutcome::Queued
            } else {
                SubmitOutcome::Overflow
            },
{
    assert forall|i: int| 0 <= i < events.len() implies #[trigger] s.submit_outcomes(events)[i]
        == if s.contents().len() + i < s.capacity() {
        SubmitOutcome::Queued
    } else {
        SubmitOutcome::Overflow
    } by {
        lemma_after_submits(s, events.take(i));
    }
}

/// Polling with nothing in between takes the queued scancodes off the
/// front, for as long as there are any, and leaves the waiter registration
/// as it was.
pub proof fn lemma_after_polls(s: SourceState, n: nat)
    requires
        s.initialized(),
        n <= s.contents().len(),
    ensures
        s.after_polls(n).initialized(),
        s.after_polls(n).capacity() == s.capacity(),
        s.after_polls(n).contents() == s.contents().skip(n as int),
        s.after_polls(n).waiter == s.waiter,
    decreases n,
{
    if n == 0 {
        assert(s.contents().skip(0) =~= s.contents());
    } else {
        lemma_after_polls(s, (n - 1) as nat);
        assert(s.contents().skip(n - 1).drop_first() =~= s.contents().skip(n as int));
    }
}

/// Polling with nothing in between returns the queued scancodes oldest
/// first, for as long as there are any.
pub proof fn lemma_poll_results(s: SourceState, n: nat)
    requires
        s.initialized(),
        n <= s.contents().len(),
    ensures
        s.poll_results(n) == ready_each(s.contents().take(n as int)),
{
    assert forall|i: int| 0 <= i < n implies #[trigger] s.poll_results(n)[i] == Poll::Ready(
        Some(s.contents()[i]),
    ) by {
        lemma_after_polls(s, i as nat);
    }
    assert(s.poll_results(n) =~= ready_each(s.contents().take(n as int)));
}

/// First in, first out: every scancode of a batch that fits is queued, and
/// as many polls hand the batch out in the order of submission, after
/// whatever was queued before it; the queue is then empty and the next poll
/// is `Pending`.
pub proof fn lemma_fifo(s: SourceState, events: Seq<u8>)
    requires
        s.wf(),
        s.initialized(),
        s.contents().len() + events.len() <= s.capacity(),
    ensures
        s.submit_outcomes(events) == Seq::new(events.len(), |i: int| SubmitOutcome::Queued),
        s.after_submits(events).poll_results(s.contents().len() + events.len()) == ready_each(
            s.contents() + events,
        ),
        s.after_submits(events).after_polls(s.contents().len() + events.len()).contents()
            == Seq::<u8>::empty(),
        s.after_submits(events).after_polls(s.contents().len() + events.len()).poll_result()
            == Poll::<Option<u8>>::Pending,
{
    let t = s.after_submits(events);
    let n = s.contents().len() + events.len();
    lemma_after_submits(s, events);
    lemma_submit_outcomes(s, events);
    assert(events.take(events.len() as int) =~= events);
    assert(s.submit_outcomes(events) =~= Seq::new(events.len(), |i: int| SubmitOutcome::Queued));
    lemma_after_polls(t, n);
    lemma_poll_results(t, n);
    assert(t.contents().take(n as int) =~= t.contents());
    assert(t.contents().skip(n as int) =~= Seq::<u8>::empty());
}

/// Overflow: of a batch one longer than the capacity, submitted to an empty
/// queue with no poll in between, every scancode but the last is queued and
/// the last, and only the last, is dropped, with one warning for it. The
/// polls that follow hand out the first `capacity` scancodes in order and
/// then find the queue empty.
pub proof fn lemma_overflow(s: SourceState, events: Seq<u8>)
    requires
        s.wf(),
        s.initialized(),
        s.contents().len() == 0,
        events.len() == s.capacity() + 1,
    ensures
        s.after_submits(events).contents() == events.drop_last(),
        s.submit_outcomes(events).len() == events.len(),
        s.submit_outcomes(events).last() == SubmitOutcome::Overflow,
        forall|i: int|
            0 <= i < events.len() ==> (#[trigger] s.submit_outcomes(events)[i].is_drop() <==> i
                == s.capacity()),
        forall|i: int|
            0 <= i < events.len() ==> (#[trigger] s.submit_outcomes(
                events,
            )[i].diagnostic_text() is Some <==> i == s.capacity()),
        s.after_submits(events).poll_results(s.capacity()) == ready_each(events.drop_last()),
        s.after_submits(events).after_polls(s.capacity()).poll_result()
            == Poll::<Option<u8>>::Pending,
{
    let t = s.after_submits(events);
    lemma_after_submits(s, events);
    lemma_submit_outcomes(s, events);
    assert(s.contents() + events.take(s.capacity() as int) =~= events.drop_last());
    lemma_after_polls(t, s.capacity());
    lemma_poll_results(t, s.capacity());
    assert(t.contents().take(s.capacity() as int) =~= t.contents());
    assert(t.contents().skip(s.capacity() as int) =~= Seq::<u8>::empty());
}

/// No lost wakeup: once a poll has found the queue empty and has registered
/// its waiter, a scancode submitted afterwards is queued and fires the wake,
/// which consumes the registration; the next poll returns that scancode,
/// however many more were submitted behind it.
pub proof fn lemma_no_lost_wakeup(s: SourceState, event: u8, later: Seq<u8>)
    requires
        s.wf(),
        s.initialized(),
        s.contents().len() == 0,
    ensures
        s.poll_result() == Poll::<Option<u8>>::Pending,
        s.after_poll().waiter,
        s.after_poll().submit_outcome() == SubmitOutcome::Queued,
        !s.after_poll().after_submit(event).waiter,
        s.after_poll().after_submit(event).after_submits(later).poll_result() == Poll::Ready(
            Some(event),
        ),
{
    let woken = s.after_poll().after_submit(event);
    assert(woken.contents() =~= seq![event]);
    lemma_after_submits(woken, later);
}

/// The race that the second phase of a poll closes: where a scancode is
/// submitted after the fast path has found the queue empty and before the
/// waiter is registered, its wake finds no waiter to resume, yet the second
/// phase returns the scancode at once and leaves no registration behind.
pub proof fn lemma_recheck_closes_race(s: SourceState, event: u8)
    requires
        s.wf(),
        s.initialized(),
        s.contents().len() == 0,
    ensures
        s.head() is None,
        s.after_fast_path() == s,
        s.after_fast_path().after_submit(event).poll_result() == Poll::Ready(Some(event)),
        !s.after_fast_path().after_submit(event).after_recheck().waiter,
        s.after_fast_path().after_submit(event).after_recheck().contents() == Seq::<u8>::empty(),
{
    let arrived = s.after_fast_path().after_submit(event);
    assert(arrived.contents() =~= seq![event]);
    assert(arrived.contents().drop_first() =~= Seq::<u8>::empty());
}

/// No step leaves a waiter asleep on queued data.
pub proof fn lemma_step_leaves_no_waiter_on_data(s: SourceState, step: SourceStep)
    requires
        no_waiter_sleeps_on_data(s),
    ensures
        no_waiter_sleeps_on_data(s.after_step(step)),
{
}

/// However submissions and the two phases of polls interleave, from a fresh
/// event source on, a registered waiter never coexists with queued data:
/// whoever waits is woken by the first scancode that is queued, so no
/// consumer stays suspended while there is something to read.
pub proof fn lemma_no_waiter_sleeps_on_data(steps: Seq<SourceStep>)
    ensures
        no_waiter_sleeps_on_data(SourceState::uninitialized().after_steps(steps)),
    decreases steps.len(),
{
    if steps.len() > 0 {
        lemma_no_waiter_sleeps_on_data(steps.drop_last());
        lemma_step_leaves_no_waiter_on_data(
            SourceState::uninitialized().after_steps(steps.drop_last()),
            steps.last(),
        );
    }
}

/// The fast path is idempotent on the wake handle: while data is queued,
/// repeated polls return scancodes and leave the waiter registration exactly
/// as it was, registering nothing and waking nobody.
pub proof fn lemma_fast_path_keeps_registration(s: SourceState, n: nat)
    requires
        s.initialized(),
        n <= s.contents().len(),
    ensures
        forall|i: int| 0 <= i <= n ==> (#[trigger] s.after_polls(i as nat)).waiter == s.waiter,
        forall|i: int|
            0 <= i < n ==> #[trigger] s.poll_results(n)[i] == Poll::Ready(Some(s.contents()[i])),
{
    assert forall|i: int| 0 <= i <= n implies (#[trigger] s.after_polls(i as nat)).waiter
        == s.waiter by {
        lemma_after_polls(s, i as nat);
    }
    lemma_poll_results(s, n);
}

/// Initialisation happens once: on an initialised event source every
/// further attempt is rejected and changes nothing, so no second queue ever
/// takes the place of the first.
pub proof fn lemma_double_init_rejected(s: SourceState, capacity: nat)
    requires
        s.initialized(),
    ensures
        s.init_error(capacity) is Some,
        s.init_error(capacity) != Some(InitError::InvalidCapacity) ==> s.init_error(capacity)
            == Some(InitError::DoubleInitialization),
        s.after_init(capacity) == s,
{
}

/// An accepted initialisation is final: whatever steps follow it, in
/// whatever order, the event source stays initialised with the capacity it
/// was given, and every attempt to initialise it again is rejected and
/// changes nothing.
pub proof fn lemma_initialized_for_good(
    s: SourceState,
    capacity: nat,
    steps: Seq<SourceStep>,
    again: nat,
)
    requires
        s.init_error(capacity) is None,
    ensures
        s.after_init(capacity).after_steps(steps).initialized(),
        s.after_init(capacity).after_steps(steps).capacity() == capacity,
        s.after_init(capacity).after_steps(steps).init_error(again) is Some,
        s.after_init(capacity).after_steps(steps).after_init(again) == s.after_init(
            capacity,
        ).after_steps(steps),
    decreases steps.len(),
{
    if steps.len() > 0 {
        lemma_initialized_for_good(s, capacity, steps.drop_last(), again);
    }
}

} // verus!
