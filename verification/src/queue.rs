//! The command queue: unbounded, first in, first out.
//!
//! The queue is a `crossbeam::sync::SegQueue`. Every call that changes it
//! goes through an exclusive borrow, so what a call finds in the queue is
//! what the calls before it left there, and the order of the commands can
//! be stated exactly.

use crate::action::Action;
use crossbeam::sync::SegQueue;
use vstd::prelude::*;

verus! {

/// `crossbeam::sync::SegQueue`, taken as an opaque collection: nothing is
/// known of a queue but what [`queued`] names.
#[verifier::external_type_specification]
#[verifier::external_body]
#[verifier::reject_recursive_types(T)]
pub struct ExSegQueue<T>(SegQueue<T>);

/// The commands that wait in a queue, the oldest first.
pub uninterp spec fn queued(queue: SegQueue<Action>) -> Seq<Action>;

/// `SegQueue::new` makes a queue that holds nothing.
#[verifier::external_body]
fn seg_queue_new() -> (queue: SegQueue<Action>)
    ensures
        queued(queue) == Seq::<Action>::empty(),
{
    SegQueue::new()
}

/// `SegQueue::push` adds the command at the back and leaves the others where
/// they are. It never refuses and never waits for room. The exclusive borrow
/// keeps every other handle away for the length of the call, so no other
/// push or pop can fall in between.
#[verifier::external_body]
fn seg_queue_push(queue: &mut SegQueue<Action>, action: Action)
    ensures
        queued(*final(queue)) == queued(*old(queue)).push(action),
{
    queue.push(action)
}

/// `SegQueue::try_pop` takes the command at the front, or returns `None` and
/// changes nothing where the queue is empty. It does not wait. The exclusive
/// borrow keeps every other handle away for the length of the call.
#[verifier::external_body]
fn seg_queue_try_pop(queue: &mut SegQueue<Action>) -> (front: Option<Action>)
    ensures
        queued(*old(queue)).len() == 0 ==> front is None && queued(*final(queue)) == queued(
            *old(queue),
        ),
        queued(*old(queue)).len() > 0 ==> front == Some(queued(*old(queue)).first())
            && queued(*final(queue)) == queued(*old(queue)).drop_first(),
{
    queue.try_pop()
}

/// `SegQueue::is_empty` tells whether the queue holds no command.
#[verifier::external_body]
fn seg_queue_is_empty(queue: &SegQueue<Action>) -> (empty: bool)
    ensures
        empty == (queued(*queue).len() == 0),
{
    queue.is_empty()
}

/// The queue of commands between a front end and the engine.
///
/// Commands leave in the order in which they were pushed. The queue has no
/// capacity bound, so a push always succeeds.
pub struct CommandQueue {
    inner: SegQueue<Action>,
}

impl View for CommandQueue {
    type V = Seq<Action>;

    /// The waiting commands, the oldest first.
    closed spec fn view(&self) -> Seq<Action> {
        queued(self.inner)
    }
}

impl CommandQueue {
    /// An empty queue.
    pub fn new() -> (queue: Self)
        ensures
            queue@ == Seq::<Action>::empty(),
    {
        CommandQueue { inner: seg_queue_new() }
    }

    /// Appends `action` behind every command that is already waiting.
    pub fn push(&mut self, action: Action)
        ensures
            final(self)@ == old(self)@.push(action),
    {
        seg_queue_push(&mut self.inner, action);
    }

    /// Takes the oldest waiting command, or returns `None` where none waits.
    pub fn try_pop(&mut self) -> (front: Option<Action>)
        ensures
            old(self)@.len() == 0 ==> front is None && final(self)@ == old(self)@,
            old(self)@.len() > 0 ==> front == Some(old(self)@.first()) && final(self)@ == old(
                self,
            )@.drop_first(),
    {
        seg_queue_try_pop(&mut self.inner)
    }

    /// Whether no command waits.
    pub fn is_empty(&self) -> (empty: bool)
        ensures
            empty == (self@.len() == 0),
    {
        seg_queue_is_empty(&self.inner)
    }
}

} // verus!
