//! The admission policy of the single ordered input queue that all
//! producer tasks feed. The queue is capacity-bounded; under pressure a
//! redraw-only signal may be shed, because it is an idempotent hint, but a
//! diff-carrying event never is: its producer must wait for space instead.

use vstd::prelude::*;

use crate::input::{is_droppable, Input};

verus! {

/// What became of an event offered to a full or non-full queue.
#[derive(Clone, Copy, PartialEq, Eq, Debug)]
pub enum Admission {
    /// The event was appended to the queue.
    Enqueued,
    /// The queue was full and the event was an idempotent signal: it was
    /// shed without loss of correctness.
    DroppedSignal,
    /// The queue was full and the event must not be lost: the producer has
    /// to wait for space and offer it again.
    MustWait,
}

/// The admission the policy owes an event, given the queue's fill level:
/// admit while there is room; shed only droppable signals; make every
/// other producer wait.
pub open spec fn admission_of(len: nat, capacity: nat, input: Input) -> Admission {
    if len < capacity {
        Admission::Enqueued
    } else if is_droppable(input) {
        Admission::DroppedSignal
    } else {
        Admission::MustWait
    }
}

/// An event that carries a diff batch is never shed, whatever the queue's
/// fill level: it is admitted or its producer waits.
pub proof fn lemma_diff_events_never_dropped(len: nat, capacity: nat, input: Input)
    requires
        !is_droppable(input),
    ensures
        admission_of(len, capacity, input) != Admission::DroppedSignal,
{
}

/// The bounded multi-producer/single-consumer queue between the producer
/// tasks and the dispatcher loop, in first-in first-out order.
pub struct InputQueue {
    items: Vec<Input>,
    capacity: usize,
}

impl InputQueue {
    /// The queue never holds more events than its capacity.
    pub closed spec fn wf(self) -> bool {
        self.items@.len() <= self.capacity
    }

    /// The events currently queued, oldest first.
    pub closed spec fn queued(self) -> Seq<Input> {
        self.items@
    }

    /// The fixed capacity the queue was created with.
    pub closed spec fn cap(self) -> nat {
        self.capacity as nat
    }

    /// An empty queue of the given capacity.
    pub fn new(capacity: usize) -> (q: InputQueue)
        ensures
            q.wf(),
            q.queued() == Seq::<Input>::empty(),
            q.cap() == capacity,
    {
        let q = InputQueue { items: Vec::new(), capacity };
        proof {
            assert(q.items@ =~= Seq::<Input>::empty());
        }
        q
    }

    /// How many events are queued.
    pub fn len(&self) -> (n: usize)
        ensures
            n == self.queued().len(),
    {
        self.items.len()
    }

    /// Offers one event. It is appended while there is room; a full queue
    /// sheds only redraw signals, and reports `MustWait` for everything
    /// else, leaving the queue unchanged.
    pub fn enqueue(&mut self, input: Input) -> (r: Admission)
        requires
            old(self).wf(),
        ensures
            final(self).wf(),
            final(self).cap() == old(self).cap(),
            r == admission_of(old(self).queued().len(), old(self).cap(), input),
            r is Enqueued ==> final(self).queued() == old(self).queued().push(input),
            !(r is Enqueued) ==> final(self).queued() == old(self).queued(),
    {
        if self.items.len() < self.capacity {
            self.items.push(input);
            Admission::Enqueued
        } else {
            let droppable = match &input {
                Input::Redraw => true,
                _ => false,
            };
            if droppable {
                Admission::DroppedSignal
            } else {
                Admission::MustWait
            }
        }
    }

    /// Takes the oldest queued event, if one is there.
    pub fn dequeue(&mut self) -> (r: Option<Input>)
        requires
            old(self).wf(),
        ensures
            final(self).wf(),
            final(self).cap() == old(self).cap(),
            old(self).queued().len() == 0 ==> r is None && final(self).queued() == old(
                self,
            ).queued(),
            old(self).queued().len() > 0 ==> r == Option::Some(old(self).queued()[0])
                && final(self).queued() == old(self).queued().drop_first(),
    {
        if self.items.len() == 0 {
            Option::None
        } else {
            let r = self.items.remove(0);
            proof {
                assert(self.items@ =~= old(self).items@.drop_first());
            }
            Option::Some(r)
        }
    }
}

} // verus!
