use vstd::prelude::*;
use std::collections::VecDeque;
use crate::events::WindowEvent;

verus! {

/// The ordered buffer of events owned by a window's shared state. The bridge
/// pushes at the back, the polling application pops at the front; arrival
/// order is kept exactly, with no coalescing. Exclusive access is the
/// caller's duty: each operation is a single, non-blocking step.
pub struct EventQueue {
    events: VecDeque<WindowEvent>,
}

impl View for EventQueue {
    type V = Seq<WindowEvent>;

    closed spec fn view(&self) -> Seq<WindowEvent> {
        self.events@
    }
}

impl EventQueue {
    /// An empty queue.
    pub fn new() -> (q: EventQueue)
        ensures
            q@ == Seq::<WindowEvent>::empty(),
    {
        EventQueue { events: VecDeque::new() }
    }

    /// How many events are pending.
    pub fn len(&self) -> (n: usize)
        ensures
            n == self@.len(),
    {
        self.events.len()
    }

    /// Append one event at the back, keeping everything already buffered.
    pub fn push(&mut self, e: WindowEvent)
        ensures
            final(self)@ == old(self)@.push(e),
    {
        self.events.push_back(e);
    }

    /// Take the oldest pending event, or the empty signal when none is
    /// pending; never blocks.
    pub fn pop(&mut self) -> (r: Option<WindowEvent>)
        ensures
            old(self)@.len() == 0 ==> r is None && final(self)@ == old(self)@,
            old(self)@.len() > 0 ==> r == Some(old(self)@[0]) && final(self)@ == old(self)@.drop_first(),
    {
        self.events.pop_front()
    }

}

/// The events that popping a queue with contents `s` until empty returns, in
/// the order they come out: the oldest first, then the rest.
pub open spec fn pops_of(s: Seq<WindowEvent>) -> Seq<WindowEvent>
    decreases s.len(),
{
    if s.len() == 0 {
        Seq::<WindowEvent>::empty()
    } else {
        seq![s[0]] + pops_of(s.drop_first())
    }
}

/// Round trip: pushing events in some order fills the queue with exactly
/// that sequence, and popping until empty returns exactly that sequence —
/// no loss, no reordering, no duplication.
pub proof fn lemma_fifo_round_trip(s: Seq<WindowEvent>)
    ensures
        pops_of(s) == s,
    decreases s.len(),
{
    if s.len() == 0 {
        assert(pops_of(s) =~= s);
    } else {
        lemma_fifo_round_trip(s.drop_first());
        assert(pops_of(s) =~= s);
    }
}

} // verus!
