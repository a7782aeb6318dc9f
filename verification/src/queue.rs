//! The bounded scancode queue and the cell that creates it once.
//!
//! The queue is a `crossbeam_queue::ArrayQueue<u8>` held in a
//! `conquer_once::spin::OnceCell`. Nothing in this module is proved: the
//! contracts below are what the rest of the crate takes on trust about those
//! two types when they are reached through an exclusive reference, so that no
//! other party touches them between two calls.

use conquer_once::spin::OnceCell;
use conquer_once::{TryGetError, TryInitError};
use crossbeam_queue::ArrayQueue;
use vstd::prelude::*;

verus! {

/// `conquer_once::TryInitError`, carried through as an opaque value.
#[verifier::external_type_specification]
#[verifier::external_body]
pub struct ExTryInitError(TryInitError);

/// `conquer_once::TryGetError`, carried through as an opaque value.
#[verifier::external_type_specification]
#[verifier::external_body]
pub struct ExTryGetError(TryGetError);

/// The largest capacity a queue may be created with.
///
/// `ArrayQueue::new` allocates and writes one slot of two words per element
/// and rounds `capacity + 1` up to a power of two. Up to this bound the
/// allocation stays small and the arithmetic stays far from overflow, on
/// 32-bit targets as well as on 64-bit ones.
pub const MAX_QUEUE_CAPACITY: usize = 65_536;

/// A once-initialised bounded FIFO queue of scancodes.
///
/// The cell's type carries a spin-lock marker from a private module of
/// `conquer_once`, which cannot be named and so cannot be made known to the
/// verifier. The cell is therefore kept behind this opaque struct and spoken
/// of through [`queue_ready`], [`queue_contents`] and [`queue_capacity`].
#[verifier::external_body]
pub struct ScancodeQueue {
    cell: OnceCell<ArrayQueue<u8>>,
}

/// Whether the cell has been initialised, that is, whether the queue exists.
pub uninterp spec fn queue_ready(queue: ScancodeQueue) -> bool;

/// The scancodes the queue holds, oldest first. Meaningful once the queue
/// exists.
pub uninterp spec fn queue_contents(queue: ScancodeQueue) -> Seq<u8>;

/// The capacity the queue was created with. Meaningful once the queue exists.
pub uninterp spec fn queue_capacity(queue: ScancodeQueue) -> nat;

/// `OnceCell::uninit`: a cell that holds no queue yet.
#[verifier::external_body]
pub(crate) fn queue_uninit() -> (queue: ScancodeQueue)
    ensures
        !queue_ready(queue),
{
    ScancodeQueue { cell: OnceCell::uninit() }
}

/// `OnceCell::is_initialized`: reports whether the queue exists. It never
/// blocks and never panics.
#[verifier::external_body]
pub(crate) fn queue_is_ready(queue: &ScancodeQueue) -> (ready: bool)
    ensures
        ready == queue_ready(*queue),
{
    queue.cell.is_initialized()
}

/// `OnceCell::try_init_once` with `ArrayQueue::new(capacity)` as the
/// initialiser.
///
/// On a cell that holds no queue the initialiser runs and the call returns
/// `Ok(())`: the cell then holds an empty queue of the given capacity. On a
/// cell that already holds one the initialiser does not run and the call
/// returns an error (`TryInitError::AlreadyInit`); the queue is untouched.
/// `ArrayQueue::new` panics on a capacity of zero, which the precondition
/// rules out together with capacities too large to allocate.
#[verifier::external_body]
pub(crate) fn queue_try_init(queue: &mut ScancodeQueue, capacity: usize) -> (r: Result<(), TryInitError>)
    requires
        0 < capacity <= MAX_QUEUE_CAPACITY,
    ensures
        queue_ready(*final(queue)),
        r is Ok <==> !queue_ready(*old(queue)),
        r is Ok ==> queue_contents(*final(queue)) == Seq::<u8>::empty()
            && queue_capacity(*final(queue)) == capacity,
        r is Err ==> queue_contents(*final(queue)) == queue_contents(*old(queue))
            && queue_capacity(*final(queue)) == queue_capacity(*old(queue)),
{
    queue.cell.try_init_once(|| ArrayQueue::new(capacity))
}

/// `OnceCell::try_get`, then `ArrayQueue::push` on the queue it yields.
///
/// The outer result is that of `try_get`: an error exactly when the queue
/// does not exist yet. The inner result is that of `push`: `Ok(())` when the
/// queue had room, and the value is then its newest element; `Err(value)`,
/// handing the value back, when the queue was full, which leaves it as it
/// was.
#[verifier::external_body]
pub(crate) fn queue_push(queue: &mut ScancodeQueue, value: u8) -> (r: Result<Result<(), u8>, TryGetError>)
    ensures
        queue_ready(*final(queue)) == queue_ready(*old(queue)),
        queue_capacity(*final(queue)) == queue_capacity(*old(queue)),
        r is Ok <==> queue_ready(*old(queue)),
        r is Ok ==> (r->Ok_0 is Ok <==> queue_contents(*old(queue)).len() < queue_capacity(*old(queue))),
        r is Ok && r->Ok_0 is Ok ==> queue_contents(*final(queue))
            == queue_contents(*old(queue)).push(value),
        r is Ok && r->Ok_0 is Err ==> r->Ok_0->Err_0 == value,
        !(r is Ok && r->Ok_0 is Ok) ==> queue_contents(*final(queue))
            == queue_contents(*old(queue)),
{
    queue.cell.try_get().map(|q| q.push(value).map_err(|full| full.0))
}

/// `OnceCell::try_get`, then `ArrayQueue::pop` on the queue it yields.
///
/// The outer result is that of `try_get`: an error exactly when the queue
/// does not exist yet. The inner value is that of `pop`: the oldest element,
/// which leaves the queue, or `None` when the queue was empty.
#[verifier::external_body]
pub(crate) fn queue_pop(queue: &mut ScancodeQueue) -> (r: Result<Option<u8>, TryGetError>)
    ensures
        queue_ready(*final(queue)) == queue_ready(*old(queue)),
        queue_capacity(*final(queue)) == queue_capacity(*old(queue)),
        r is Ok <==> queue_ready(*old(queue)),
        r is Ok ==> (r->Ok_0 is Some <==> queue_contents(*old(queue)).len() > 0),
        r is Ok && r->Ok_0 is Some ==> r->Ok_0->Some_0 == queue_contents(*old(queue)).first()
            && queue_contents(*final(queue)) == queue_contents(*old(queue)).drop_first(),
        !(r is Ok && r->Ok_0 is Some) ==> queue_contents(*final(queue))
            == queue_contents(*old(queue)),
{
    queue.cell.try_get().map(|q| q.pop().ok())
}

} // verus!
