//! The device monitor's side of a session: per-role connectivity and the
//! queue of events awaiting a poll.

use vstd::prelude::*;
use crate::device::DeviceEvent;

verus! {

/// What one poll of a queue hands out.
pub open spec fn poll_result(queue: Seq<DeviceEvent>) -> Option<DeviceEvent> {
    if queue.len() == 0 {
        None
    } else {
        Some(queue[0])
    }
}

/// What one poll of a queue leaves behind.
pub open spec fn poll_rest(queue: Seq<DeviceEvent>) -> Seq<DeviceEvent> {
    if queue.len() == 0 {
        queue
    } else {
        queue.skip(1)
    }
}

/// The queue after `polls` polls.
pub open spec fn after_polls(queue: Seq<DeviceEvent>, polls: nat) -> Seq<DeviceEvent>
    decreases polls,
{
    if polls == 0 {
        queue
    } else {
        after_polls(poll_rest(queue), (polls - 1) as nat)
    }
}

/// Events waiting to be polled, oldest first.
pub struct EventQueue {
    pending: Vec<DeviceEvent>,
}

impl View for EventQueue {
    type V = Seq<DeviceEvent>;

    closed spec fn view(&self) -> Seq<DeviceEvent> {
        self.pending@
    }
}

impl EventQueue {
    pub fn new() -> (r: EventQueue)
        ensures
            r@ == Seq::<DeviceEvent>::empty(),
    {
        EventQueue { pending: Vec::new() }
    }

    pub fn len(&self) -> (r: usize)
        ensures
            r == self@.len(),
    {
        self.pending.len()
    }

    /// Puts an event behind all that wait.
    pub fn emit(&mut self, event: DeviceEvent)
        ensures
            final(self)@ == old(self)@.push(event),
    {
        self.pending.push(event);
    }

    /// Takes the oldest waiting event, if any; never blocks.
    pub fn poll(&mut self) -> (r: Option<DeviceEvent>)
        ensures
            r == poll_result(old(self)@),
            final(self)@ == poll_rest(old(self)@),
    {
        if self.pending.len() == 0 {
            None
        } else {
            let event = self.pending.remove(0);
            assert(self.pending@ =~= old(self).pending@.skip(1));
            Some(event)
        }
    }
}

/// Polls hand events out in the order they were emitted, each exactly once:
/// the poll after `polls` earlier ones yields the event at that position, and
/// nothing once the queue is drained.
pub proof fn lemma_poll_order(queue: Seq<DeviceEvent>, polls: nat)
    ensures
        after_polls(queue, polls) == if polls <= queue.len() {
            queue.skip(polls as int)
        } else {
            Seq::<DeviceEvent>::empty()
        },
        poll_result(after_polls(queue, polls)) == if polls < queue.len() {
            Some(queue[polls as int])
        } else {
            None
        },
    decreases polls,
{
    if polls == 0 {
        assert(queue.skip(0) =~= queue);
    } else {
        lemma_poll_order(poll_rest(queue), (polls - 1) as nat);
        if queue.len() == 0 {
            assert(queue =~= Seq::<DeviceEvent>::empty());
            if polls - 1 == 0 {
                assert(queue.skip(0) =~= queue);
            }
        } else {
            if polls <= queue.len() {
                assert(queue.skip(1).skip(polls - 1) =~= queue.skip(polls as int));
            }
        }
    }
}

/// An event emitted onto a queue is polled after all that waited before it.
pub proof fn lemma_emit_then_poll(queue: Seq<DeviceEvent>, event: DeviceEvent)
    ensures
        poll_result(after_polls(queue.push(event), queue.len())) == Some(event),
        after_polls(queue.push(event), queue.len() + 1) == Seq::<DeviceEvent>::empty(),
{
    lemma_poll_order(queue.push(event), queue.len());
    lemma_poll_order(queue.push(event), queue.len() + 1);
    assert(queue.push(event).skip((queue.len() + 1) as int) =~= Seq::<DeviceEvent>::empty());
}

} // verus!
