use vstd::prelude::*;
use std::collections::VecDeque;
use crate::window::{Event, GamepadEvent};

verus! {

/// The pause between two polls of the gamepads, in microseconds: the poller
/// looks at them 45 times in a second.
pub const POLL_INTERVAL_MICROS: u64 = 22_222;

/// The events that the poller sends for what it found in one poll: one
/// event for each gamepad event, in the order in which the driver gave them.
pub open spec fn forwarded(raw: Seq<GamepadEvent>) -> Seq<Event> {
    raw.map_values(|e: GamepadEvent| Event::Gamepad(e))
}

/// Turns what one poll of the gamepads found into the events to send.
///
/// Every gamepad event is sent on, each as an event of its own, and the
/// order of the driver is kept. What the events mean is left to the loop.
pub fn forward(raw: &Vec<GamepadEvent>) -> (events: Vec<Event>)
    ensures
        events@ == forwarded(raw@),
{
    let mut events: Vec<Event> = Vec::new();
    let mut i: usize = 0;
    while i < raw.len()
        invariant
            i <= raw.len(),
            events@ == forwarded(raw@.take(i as int)),
        decreases raw.len() - i,
    {
        events.push(Event::Gamepad(raw[i]));
        assert(events@ =~= forwarded(raw@.take(i + 1)));
        i += 1;
    }
    assert(raw@.take(i as int) =~= raw@);
    events
}

/// The queue in which the events of all sources meet on their way to the
/// loop.
///
/// It has no bound, so that a source is never held back and no event is
/// ever refused, and taking from it never waits. Events leave in the order
/// in which they came.
pub struct EventQueue {
    events: VecDeque<Event>,
}

impl View for EventQueue {
    type V = Seq<Event>;

    closed spec fn view(&self) -> Seq<Event> {
        self.events@
    }
}

impl EventQueue {
    /// A queue with no event in it.
    pub fn new() -> (queue: EventQueue)
        ensures
            queue@ == Seq::<Event>::empty(),
    {
        EventQueue { events: VecDeque::new() }
    }

    /// The number of events that wait in the queue.
    pub fn len(&self) -> (len: usize)
        ensures
            len == self@.len(),
    {
        self.events.len()
    }

    /// Puts an event at the end of the queue.
    pub fn push(&mut self, event: Event)
        ensures
            final(self)@ == old(self)@.push(event),
    {
        self.events.push_back(event);
    }

    /// Puts what one poll of the gamepads found at the end of the queue:
    /// one event for each gamepad event, in their order.
    pub fn inject(&mut self, raw: &Vec<GamepadEvent>)
        ensures
            final(self)@ == old(self)@ + forwarded(raw@),
    {
        let events = forward(raw);
        let mut i: usize = 0;
        assert(old(self)@ + events@.take(0) =~= old(self)@);
        while i < events.len()
            invariant
                i <= events.len(),
                self@ == old(self)@ + events@.take(i as int),
            decreases events.len() - i,
        {
            self.events.push_back(events[i]);
            assert(self@ =~= old(self)@ + events@.take(i + 1));
            i += 1;
        }
        assert(events@.take(i as int) =~= events@);
    }

    /// Takes all events that wait, in their order, and leaves the queue
    /// empty.
    pub fn take_all(&mut self) -> (events: Vec<Event>)
        ensures
            events@ == old(self)@,
            final(self)@ == Seq::<Event>::empty(),
    {
        let mut events: Vec<Event> = Vec::new();
        assert(events@ + self@ =~= old(self)@);
        while self.events.len() > 0
            invariant
                events@ + self@ == old(self)@,
            decreases self@.len(),
        {
            let ghost waiting = self@;
            match self.events.pop_front() {
                Some(event) => {
                    events.push(event);
                    assert(events@ + self@ =~= old(self)@) by {
                        assert(self@ =~= waiting.drop_first());
                    }
                },
                None => {},
            }
        }
        assert(events@ + self@ =~= events@);
        assert(self@ =~= Seq::<Event>::empty());
        events
    }

    /// Takes the event at the head of the queue, if there is one. With none
    /// there the call returns at once and the queue stays empty.
    pub fn pop(&mut self) -> (event: Option<Event>)
        ensures
            old(self)@.len() == 0 ==> event is None && final(self)@ == old(self)@,
            old(self)@.len() > 0 ==> event == Some(old(self)@[0]) && final(self)@ == old(
                self,
            )@.drop_first(),
    {
        let event = self.events.pop_front();
        assert(old(self)@.len() > 0 ==> old(self)@.subrange(1, old(self)@.len() as int) =~= old(
            self,
        )@.drop_first());
        event
    }
}

/// One thing that happens to the queue.
pub enum QueueOp {
    /// A source puts one event.
    Push(Event),
    /// The poller puts what one poll found.
    Inject(Seq<GamepadEvent>),
    /// The loop takes an event, or finds none.
    Pop,
}

/// The events that the sources have put, in the order in which they put
/// them.
pub open spec fn offered(ops: Seq<QueueOp>) -> Seq<Event>
    decreases ops.len(),
{
    if ops.len() == 0 {
        Seq::empty()
    } else {
        match ops.last() {
            QueueOp::Push(event) => offered(ops.drop_last()).push(event),
            QueueOp::Inject(raw) => offered(ops.drop_last()) + forwarded(raw),
            QueueOp::Pop => offered(ops.drop_last()),
        }
    }
}

/// The events that wait in a queue that was empty before the operations.
pub open spec fn waiting(ops: Seq<QueueOp>) -> Seq<Event>
    decreases ops.len(),
{
    if ops.len() == 0 {
        Seq::empty()
    } else {
        let before = waiting(ops.drop_last());
        match ops.last() {
            QueueOp::Push(event) => before.push(event),
            QueueOp::Inject(raw) => before + forwarded(raw),
            QueueOp::Pop => if before.len() > 0 {
                before.drop_first()
            } else {
                before
            },
        }
    }
}

/// The events that the loop has taken, in the order in which it took them.
pub open spec fn delivered(ops: Seq<QueueOp>) -> Seq<Event>
    decreases ops.len(),
{
    if ops.len() == 0 {
        Seq::empty()
    } else {
        let before = waiting(ops.drop_last());
        match ops.last() {
            QueueOp::Pop => if before.len() > 0 {
                delivered(ops.drop_last()).push(before[0])
            } else {
                delivered(ops.drop_last())
            },
            _ => delivered(ops.drop_last()),
        }
    }
}

/// No event is lost and none is reordered, however fast the sources put and
/// however slowly the loop takes: at every moment the events taken so far,
/// followed by those that wait, are the events put so far, in the order in
/// which they were put.
pub proof fn lemma_nothing_lost(ops: Seq<QueueOp>)
    ensures
        delivered(ops) + waiting(ops) == offered(ops),
    decreases ops.len(),
{
    if ops.len() == 0 {
        assert(delivered(ops) + waiting(ops) =~= offered(ops));
    } else {
        lemma_nothing_lost(ops.drop_last());
        let taken = delivered(ops.drop_last());
        let before = waiting(ops.drop_last());
        match ops.last() {
            QueueOp::Push(event) => {
                assert(taken + before.push(event) =~= (taken + before).push(event));
            },
            QueueOp::Inject(raw) => {
                assert(taken + (before + forwarded(raw)) =~= (taken + before) + forwarded(raw));
            },
            QueueOp::Pop => {
                if before.len() > 0 {
                    assert(taken.push(before[0]) + before.drop_first() =~= taken + before);
                }
            },
        }
    }
}

/// Once the sources have stopped and the loop has taken everything, the
/// loop has seen every event that was put, in the order in which it was put.
pub proof fn lemma_all_delivered(ops: Seq<QueueOp>)
    requires
        waiting(ops).len() == 0,
    ensures
        delivered(ops) == offered(ops),
{
    lemma_nothing_lost(ops);
    assert(delivered(ops) + waiting(ops) =~= delivered(ops));
}

} // verus!
