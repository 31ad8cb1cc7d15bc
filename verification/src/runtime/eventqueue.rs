//! An event queue implemented as a radix heap, with times that share their top bit.
use vstd::prelude::*;

use crate::world::queue::order::{insert_index, sorted};
use crate::world::queue::radix::{lemma_pending_in_order, radix, RadixEventQueue};

verus! {

/// An event queue implemented as a radix heap.
///
/// Events come out in order of time; of events with the same time, the one
/// pushed most recently comes out first. Its 32 buckets reach every time whose
/// radix distance from the current time is below 32: every time that has the
/// same top bit as the current time.
pub struct EventQueue<E> {
    inner: RadixEventQueue<E>,
}

impl<E> View for EventQueue<E> {
    type V = Seq<(u32, E)>;

    /// The pending events, paired with their times, in the order [`pop`](EventQueue::pop)
    /// hands them out.
    closed spec fn view(&self) -> Seq<(u32, E)> {
        self.inner@
    }
}

impl<E> EventQueue<E> {
    /// The current time: the time of the event most recently popped, or `0`.
    pub closed spec fn spec_time(&self) -> u32 {
        self.inner.spec_time()
    }

    /// The internal consistency of the queue.
    pub closed spec fn wf(&self) -> bool {
        self.inner.wf()
    }

    /// Creates an empty queue at time `0`.
    pub fn new() -> (r: Self)
        ensures
            r.wf(),
            r@ == Seq::<(u32, E)>::empty(),
            r.spec_time() == 0,
    {
        EventQueue { inner: RadixEventQueue::new() }
    }

    /// Pushes an event at a time, which may not be before the current time and
    /// must share its top bit.
    pub fn push(&mut self, time: u32, event: E)
        requires
            old(self).wf(),
            old(self).spec_time() <= time,
            radix(old(self).spec_time(), time) < 32,
        ensures
            final(self).wf(),
            final(self)@ == old(self)@.insert(insert_index(old(self)@, time) as int, (time, event)),
            final(self).spec_time() == old(self).spec_time(),
    {
        self.inner.push(time, event);
    }

    /// Pops the earliest pending event; of those at the same time, the one pushed
    /// most recently. The current time moves to the time of the popped event.
    pub fn pop(&mut self) -> (r: Option<(u32, E)>)
        requires
            old(self).wf(),
        ensures
            final(self).wf(),
            old(self)@.len() == 0 ==> r is None && final(self)@ == old(self)@
                && final(self).spec_time() == old(self).spec_time(),
            old(self)@.len() > 0 ==> r == Some(old(self)@[0]) && final(self)@ == old(self)@.drop_first()
                && final(self).spec_time() == old(self)@[0].0,
    {
        self.inner.pop()
    }
}

/// The pending events of a queue are in order of time, none before the current
/// time: [`EventQueue::pop`] hands out the earliest.
pub proof fn lemma_event_queue_in_order<E>(q: &EventQueue<E>)
    requires
        q.wf(),
    ensures
        sorted(q@),
        forall|i: int| 0 <= i < q@.len() ==> q@[i].0 >= q.spec_time(),
        forall|i: int| 0 <= i < q@.len() ==> q@[0].0 <= #[trigger] q@[i].0,
{
    lemma_pending_in_order(&q.inner);
    assert forall|i: int| 0 <= i < q@.len() implies q@[0].0 <= #[trigger] q@[i].0 by {
        if i > 0 {
            assert(sorted(q@));
        }
    }
}

} // verus!
