//! The bridge between the synchronous OS-notification callback and the
//! asynchronous relay loop: a FIFO queue of events crossed exactly once per
//! event, and the rule that resolves the relay loop's competing branches.
//! The callback side only filters and enqueues; the relay side dequeues,
//! classifies and publishes, ticks for liveness, and stops cooperatively.

use std::collections::VecDeque;
use vstd::prelude::*;

use crate::event::FsEvent;

verus! {

/// The FIFO hand-off between the notification callback (producer) and the
/// relay loop (consumer). Events leave in exactly the order they entered.
pub struct EventQueue {
    items: VecDeque<FsEvent>,
}

impl View for EventQueue {
    type V = Seq<FsEvent>;

    closed spec fn view(&self) -> Seq<FsEvent> {
        self.items@
    }
}

impl EventQueue {
    /// An empty queue.
    pub fn new() -> (q: EventQueue)
        ensures
            q@ == Seq::<FsEvent>::empty(),
    {
        EventQueue { items: VecDeque::new() }
    }

    /// How many events are waiting.
    pub fn len(&self) -> (n: usize)
        ensures
            n == self@.len(),
    {
        self.items.len()
    }

    /// Appends one event at the back.
    pub fn enqueue(&mut self, event: FsEvent)
        ensures
            final(self)@ == old(self)@.push(event),
    {
        self.items.push_back(event);
    }

    /// Removes and returns the oldest waiting event; `None` leaves an empty
    /// queue untouched.
    pub fn dequeue(&mut self) -> (r: Option<FsEvent>)
        ensures
            old(self)@.len() == 0 ==> r is None && final(self)@ == old(self)@,
            old(self)@.len() > 0 ==> r == Some(old(self)@[0]) && final(self)@ == old(
                self,
            )@.drop_first(),
    {
        self.items.pop_front()
    }
}

/// Events drained from the bridge come out in the order they were enqueued:
/// pushing `e1`, `e2`, `e3` onto any queue state appends them in that order,
/// and draining them from the empty state yields `e1`, then `e2`, then `e3`,
/// and then nothing.
pub proof fn lemma_bridge_fifo(s: Seq<FsEvent>, e1: FsEvent, e2: FsEvent, e3: FsEvent)
    ensures
        s.push(e1).push(e2).push(e3) == s + seq![e1, e2, e3],
        ({
            let q = Seq::<FsEvent>::empty().push(e1).push(e2).push(e3);
            &&& q[0] == e1
            &&& q.drop_first()[0] == e2
            &&& q.drop_first().drop_first()[0] == e3
            &&& q.drop_first().drop_first().drop_first().len() == 0
        }),
{
    assert(s.push(e1).push(e2).push(e3) =~= s + seq![e1, e2, e3]);
    let q = Seq::<FsEvent>::empty().push(e1).push(e2).push(e3);
    assert(q.drop_first() =~= seq![e2, e3]);
    assert(q.drop_first().drop_first() =~= seq![e3]);
    assert(q.drop_first().drop_first().drop_first() =~= Seq::<FsEvent>::empty());
}

/// One resolution of the relay loop's competing branches.
#[derive(Clone, Copy, Debug, PartialEq, Eq, Structural)]
pub enum LoopBranch {
    /// A stop signal was observed: the loop terminates, beginning no new
    /// dequeue.
    Stop,
    /// A pending event is dequeued, classified and published.
    Deliver,
    /// The periodic liveness tick fires.
    Tick,
    /// Nothing is ready: wait.
    Idle,
}

/// The branch priority: a stop signal, once observed, wins; a pending event
/// takes priority over the liveness tick; the tick fires only when nothing
/// else is ready.
pub open spec fn spec_next_branch(stop: bool, event_ready: bool, tick_due: bool) -> LoopBranch {
    if stop {
        LoopBranch::Stop
    } else if event_ready {
        LoopBranch::Deliver
    } else if tick_due {
        LoopBranch::Tick
    } else {
        LoopBranch::Idle
    }
}

/// Resolves which branch the relay loop takes when several are ready at
/// once.
pub fn next_branch(stop: bool, event_ready: bool, tick_due: bool) -> (b: LoopBranch)
    ensures
        b == spec_next_branch(stop, event_ready, tick_due),
{
    if stop {
        LoopBranch::Stop
    } else if event_ready {
        LoopBranch::Deliver
    } else if tick_due {
        LoopBranch::Tick
    } else {
        LoopBranch::Idle
    }
}

} // verus!
