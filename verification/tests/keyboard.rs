use scancode_stream::{
    add_scancode, EventSource, InitError, ScancodeStream, SubmitOutcome, Uninitialized,
    MAX_QUEUE_CAPACITY, SCANCODE_QUEUE_LENGTH,
};
use std::sync::atomic::{AtomicUsize, Ordering};
use std::sync::Arc;
use std::task::{Poll, Wake, Waker};

/// A waiter that counts how often it was woken.
struct CountingWaiter {
    wakes: AtomicUsize,
}

impl Wake for CountingWaiter {
    fn wake(self: Arc<Self>) {
        self.wakes.fetch_add(1, Ordering::SeqCst);
    }
}

fn counting_waiter() -> (Arc<CountingWaiter>, Waker) {
    let counter = Arc::new(CountingWaiter { wakes: AtomicUsize::new(0) });
    let waker = Waker::from(counter.clone());
    (counter, waker)
}

fn wakes(counter: &Arc<CountingWaiter>) -> usize {
    counter.wakes.load(Ordering::SeqCst)
}

fn initialized(capacity: usize) -> (EventSource, ScancodeStream) {
    let mut source = EventSource::new();
    let stream = match ScancodeStream::try_with_capacity(&mut source, capacity) {
        Ok(stream) => stream,
        Err(error) => panic!("initialisation rejected: {:?}", error),
    };
    (source, stream)
}

#[test]
fn three_scancodes_come_out_in_order_then_pending() {
    let mut source = EventSource::new();
    let mut stream = ScancodeStream::new(&mut source);
    let (_, waker) = counting_waiter();
    for byte in [0x1Eu8, 0x30, 0x2E] {
        assert_eq!(add_scancode(&mut source, byte), SubmitOutcome::Queued);
    }
    assert_eq!(stream.poll_next(&mut source, &waker), Poll::Ready(Some(0x1E)));
    assert_eq!(stream.poll_next(&mut source, &waker), Poll::Ready(Some(0x30)));
    assert_eq!(stream.poll_next(&mut source, &waker), Poll::Ready(Some(0x2E)));
    assert_eq!(stream.poll_next(&mut source, &waker), Poll::Pending);
}

#[test]
fn capacity_two_drops_the_third_scancode() {
    let (mut source, mut stream) = initialized(2);
    let (_, waker) = counting_waiter();
    assert_eq!(add_scancode(&mut source, 0x01), SubmitOutcome::Queued);
    assert_eq!(add_scancode(&mut source, 0x02), SubmitOutcome::Queued);
    let third = add_scancode(&mut source, 0x03);
    assert_eq!(third, SubmitOutcome::Overflow);
    assert_eq!(
        third.diagnostic(),
        Some("WARNING: scancode queue full; dropping keyboard input")
    );
    assert_eq!(stream.poll_next(&mut source, &waker), Poll::Ready(Some(0x01)));
    assert_eq!(stream.poll_next(&mut source, &waker), Poll::Ready(Some(0x02)));
    assert_eq!(stream.poll_next(&mut source, &waker), Poll::Pending);
}

#[test]
fn a_full_batch_is_first_in_first_out() {
    let mut source = EventSource::new();
    let mut stream = ScancodeStream::new(&mut source);
    let (_, waker) = counting_waiter();
    let events: Vec<u8> = (0..SCANCODE_QUEUE_LENGTH).map(|i| (i * 7 % 251) as u8).collect();
    for &event in &events {
        assert_eq!(add_scancode(&mut source, event), SubmitOutcome::Queued);
    }
    for &event in &events {
        assert_eq!(stream.poll_next(&mut source, &waker), Poll::Ready(Some(event)));
    }
    assert_eq!(stream.poll_next(&mut source, &waker), Poll::Pending);
}

#[test]
fn one_more_than_the_capacity_loses_exactly_the_last() {
    let mut source = EventSource::new();
    let mut stream = ScancodeStream::new(&mut source);
    let (_, waker) = counting_waiter();
    let mut diagnostics = 0;
    for i in 0..=SCANCODE_QUEUE_LENGTH {
        let outcome = add_scancode(&mut source, i as u8);
        if outcome.diagnostic().is_some() {
            diagnostics += 1;
            assert_eq!(i, SCANCODE_QUEUE_LENGTH);
            assert_eq!(outcome, SubmitOutcome::Overflow);
        } else {
            assert_eq!(outcome, SubmitOutcome::Queued);
        }
    }
    assert_eq!(diagnostics, 1);
    for i in 0..SCANCODE_QUEUE_LENGTH {
        assert_eq!(stream.poll_next(&mut source, &waker), Poll::Ready(Some(i as u8)));
    }
    assert_eq!(stream.poll_next(&mut source, &waker), Poll::Pending);
}

#[test]
fn the_default_capacity_is_one_hundred() {
    assert_eq!(SCANCODE_QUEUE_LENGTH, 100);
    let mut source = EventSource::new();
    let _stream = ScancodeStream::new(&mut source);
    for i in 0..100u8 {
        assert_eq!(add_scancode(&mut source, i), SubmitOutcome::Queued);
    }
    assert_eq!(add_scancode(&mut source, 100), SubmitOutcome::Overflow);
}

#[test]
fn room_freed_by_a_poll_is_used_again() {
    let (mut source, mut stream) = initialized(1);
    let (_, waker) = counting_waiter();
    assert_eq!(add_scancode(&mut source, 10), SubmitOutcome::Queued);
    assert_eq!(add_scancode(&mut source, 20), SubmitOutcome::Overflow);
    assert_eq!(stream.poll_next(&mut source, &waker), Poll::Ready(Some(10)));
    assert_eq!(add_scancode(&mut source, 30), SubmitOutcome::Queued);
    assert_eq!(stream.poll_next(&mut source, &waker), Poll::Ready(Some(30)));
    assert_eq!(stream.poll_next(&mut source, &waker), Poll::Pending);
}

#[test]
fn a_submit_after_registration_wakes_the_waiter_once() {
    let (mut source, mut stream) = initialized(4);
    let (counter, waker) = counting_waiter();
    assert_eq!(stream.poll_next(&mut source, &waker), Poll::Pending);
    assert_eq!(wakes(&counter), 0);
    assert_eq!(add_scancode(&mut source, 0x2A), SubmitOutcome::Queued);
    assert_eq!(wakes(&counter), 1);
    assert_eq!(add_scancode(&mut source, 0x2B), SubmitOutcome::Queued);
    assert_eq!(wakes(&counter), 1);
    assert_eq!(stream.poll_next(&mut source, &waker), Poll::Ready(Some(0x2A)));
    assert_eq!(stream.poll_next(&mut source, &waker), Poll::Ready(Some(0x2B)));
}

#[test]
fn a_scancode_that_arrives_between_the_phases_is_returned_at_once() {
    let (mut source, mut stream) = initialized(4);
    let (counter, waker) = counting_waiter();
    assert_eq!(stream.fast_path(&mut source), None);
    assert_eq!(add_scancode(&mut source, 0x10), SubmitOutcome::Queued);
    assert_eq!(wakes(&counter), 0);
    assert_eq!(stream.register_and_recheck(&mut source, &waker), Poll::Ready(Some(0x10)));
    assert_eq!(add_scancode(&mut source, 0x11), SubmitOutcome::Queued);
    assert_eq!(wakes(&counter), 0);
}

#[test]
fn the_second_phase_on_an_empty_queue_registers_the_waiter() {
    let (mut source, mut stream) = initialized(4);
    let (counter, waker) = counting_waiter();
    assert_eq!(stream.register_and_recheck(&mut source, &waker), Poll::Pending);
    assert_eq!(add_scancode(&mut source, 0x12), SubmitOutcome::Queued);
    assert_eq!(wakes(&counter), 1);
}

#[test]
fn the_fast_path_takes_the_oldest_scancode() {
    let (mut source, mut stream) = initialized(4);
    assert_eq!(add_scancode(&mut source, 5), SubmitOutcome::Queued);
    assert_eq!(add_scancode(&mut source, 6), SubmitOutcome::Queued);
    assert_eq!(stream.fast_path(&mut source), Some(5));
    assert_eq!(stream.fast_path(&mut source), Some(6));
    assert_eq!(stream.fast_path(&mut source), None);
}

#[test]
fn polls_that_find_data_register_no_waiter() {
    let (mut source, mut stream) = initialized(4);
    let (counter, waker) = counting_waiter();
    assert_eq!(add_scancode(&mut source, 1), SubmitOutcome::Queued);
    assert_eq!(add_scancode(&mut source, 2), SubmitOutcome::Queued);
    assert_eq!(stream.poll_next(&mut source, &waker), Poll::Ready(Some(1)));
    assert_eq!(stream.poll_next(&mut source, &waker), Poll::Ready(Some(2)));
    assert_eq!(wakes(&counter), 0);
    assert_eq!(add_scancode(&mut source, 3), SubmitOutcome::Queued);
    assert_eq!(wakes(&counter), 0);
}

#[test]
fn a_later_registration_replaces_an_earlier_one() {
    let (mut source, mut stream) = initialized(4);
    let (first, first_waker) = counting_waiter();
    let (second, second_waker) = counting_waiter();
    assert_eq!(stream.poll_next(&mut source, &first_waker), Poll::Pending);
    assert_eq!(stream.poll_next(&mut source, &second_waker), Poll::Pending);
    assert_eq!(add_scancode(&mut source, 9), SubmitOutcome::Queued);
    assert_eq!(wakes(&first), 0);
    assert_eq!(wakes(&second), 1);
}

#[test]
fn a_dropped_scancode_wakes_nobody() {
    let (mut source, mut stream) = initialized(1);
    let (counter, waker) = counting_waiter();
    assert_eq!(stream.poll_next(&mut source, &waker), Poll::Pending);
    assert_eq!(add_scancode(&mut source, 1), SubmitOutcome::Queued);
    assert_eq!(wakes(&counter), 1);
    assert_eq!(stream.fast_path(&mut source), Some(1));
    assert_eq!(stream.register_and_recheck(&mut source, &waker), Poll::Pending);
    assert_eq!(add_scancode(&mut source, 2), SubmitOutcome::Queued);
    assert_eq!(wakes(&counter), 2);
    assert_eq!(stream.poll_next(&mut source, &waker), Poll::Ready(Some(2)));
    assert_eq!(stream.poll_next(&mut source, &waker), Poll::Pending);
    assert_eq!(add_scancode(&mut source, 3), SubmitOutcome::Queued);
    assert_eq!(wakes(&counter), 3);
    assert_eq!(add_scancode(&mut source, 4), SubmitOutcome::Overflow);
    assert_eq!(wakes(&counter), 3);
}

#[test]
fn a_second_initialisation_is_rejected_and_keeps_the_queue() {
    let mut source = EventSource::new();
    let mut stream = match ScancodeStream::try_new(&mut source) {
        Ok(stream) => stream,
        Err(error) => panic!("first initialisation rejected: {:?}", error),
    };
    let (_, waker) = counting_waiter();
    assert_eq!(add_scancode(&mut source, 0x42), SubmitOutcome::Queued);
    assert!(matches!(
        ScancodeStream::try_new(&mut source),
        Err(InitError::DoubleInitialization)
    ));
    assert!(matches!(
        ScancodeStream::try_with_capacity(&mut source, 7),
        Err(InitError::DoubleInitialization)
    ));
    assert_eq!(stream.poll_next(&mut source, &waker), Poll::Ready(Some(0x42)));
    for i in 0..SCANCODE_QUEUE_LENGTH {
        assert_eq!(add_scancode(&mut source, i as u8), SubmitOutcome::Queued);
    }
    assert_eq!(add_scancode(&mut source, 0), SubmitOutcome::Overflow);
}

#[test]
fn a_capacity_out_of_bounds_is_rejected() {
    let mut source = EventSource::new();
    assert!(matches!(
        ScancodeStream::try_with_capacity(&mut source, 0),
        Err(InitError::InvalidCapacity)
    ));
    assert!(matches!(
        ScancodeStream::try_with_capacity(&mut source, MAX_QUEUE_CAPACITY + 1),
        Err(InitError::InvalidCapacity)
    ));
    assert!(!source.is_initialized());
    assert!(ScancodeStream::try_with_capacity(&mut source, 1).is_ok());
    assert!(source.is_initialized());
    assert!(matches!(
        ScancodeStream::try_with_capacity(&mut source, 0),
        Err(InitError::InvalidCapacity)
    ));
}

#[test]
fn a_scancode_submitted_before_initialisation_is_dropped() {
    let mut source = EventSource::new();
    assert!(!source.is_initialized());
    let outcome = add_scancode(&mut source, 0x1C);
    assert_eq!(outcome, SubmitOutcome::UninitializedAccess);
    assert_eq!(outcome.diagnostic(), Some("WARNING: scancode queue uninitialized"));
    let mut stream = ScancodeStream::new(&mut source);
    assert!(source.is_initialized());
    let (_, waker) = counting_waiter();
    assert_eq!(stream.poll_next(&mut source, &waker), Poll::Pending);
}

#[test]
fn a_poll_before_initialisation_is_reported() {
    let (_, mut stream) = initialized(1);
    let mut fresh = EventSource::new();
    let (counter, waker) = counting_waiter();
    assert_eq!(stream.try_poll_next(&mut fresh, &waker), Err(Uninitialized));
    assert!(!fresh.is_initialized());
    assert!(ScancodeStream::try_new(&mut fresh).is_ok());
    assert_eq!(stream.try_poll_next(&mut fresh, &waker), Ok(Poll::Pending));
    assert_eq!(add_scancode(&mut fresh, 3), SubmitOutcome::Queued);
    assert_eq!(wakes(&counter), 1);
    assert_eq!(stream.try_poll_next(&mut fresh, &waker), Ok(Poll::Ready(Some(3))));
}

#[test]
fn a_queued_scancode_has_no_diagnostic() {
    assert_eq!(SubmitOutcome::Queued.diagnostic(), None);
    assert_eq!(
        SubmitOutcome::Overflow.diagnostic(),
        Some("WARNING: scancode queue full; dropping keyboard input")
    );
    assert_eq!(
        SubmitOutcome::UninitializedAccess.diagnostic(),
        Some("WARNING: scancode queue uninitialized")
    );
}

#[test]
fn the_largest_capacity_is_accepted_and_honoured() {
    assert_eq!(MAX_QUEUE_CAPACITY, 65_536);
    let (mut source, mut stream) = initialized(MAX_QUEUE_CAPACITY);
    let (_, waker) = counting_waiter();
    for i in 0..MAX_QUEUE_CAPACITY {
        assert_eq!(add_scancode(&mut source, (i % 256) as u8), SubmitOutcome::Queued);
    }
    assert_eq!(add_scancode(&mut source, 0xFF), SubmitOutcome::Overflow);
    for i in 0..MAX_QUEUE_CAPACITY {
        assert_eq!(
            stream.poll_next(&mut source, &waker),
            Poll::Ready(Some((i % 256) as u8))
        );
    }
    assert_eq!(stream.poll_next(&mut source, &waker), Poll::Pending);
}
