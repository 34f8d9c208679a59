//! The peripheral's half of the counter exchange: every write of the peer
//! is answered by storing the counter, notifying it, and counting on.

use crate::link::{successor, Action, EndCause, Event, Notice, Transition};
use crate::telemetry::{interval_notice, spec_interval_notice};
use vstd::prelude::*;

verus! {

/// Where the peripheral's exchange stands. `counter` is the value of the
/// cycle at hand, `last_tick` is when the last write came.
#[derive(Clone, Copy, Debug, PartialEq, Eq)]
pub enum PeripheralExchange {
    /// Waiting for the peer's next write.
    AwaitWrite { counter: u32, last_tick: Option<u64> },
    /// The counter is being put into the attribute store.
    Storing { counter: u32, last_tick: Option<u64> },
    /// The stored value is being notified.
    Notifying { counter: u32, last_tick: Option<u64> },
    /// The exchange is over.
    Terminated(EndCause),
}

impl PeripheralExchange {
    /// Whether the exchange is over.
    pub open spec fn terminated(self) -> bool {
        self is Terminated
    }

    /// The start of an exchange: the counter is zero and no write has been
    /// seen.
    pub open spec fn spec_begin() -> Transition<PeripheralExchange> {
        Transition {
            next: PeripheralExchange::AwaitWrite { counter: 0, last_tick: None },
            delay_ms: 0,
            action: Action::AwaitEvent,
            notice: Notice::Silent,
        }
    }

    /// The end of the exchange, for the given cause.
    pub open spec fn spec_end(cause: EndCause) -> Transition<PeripheralExchange> {
        Transition {
            next: PeripheralExchange::Terminated(cause),
            delay_ms: 0,
            action: Action::Nothing,
            notice: Notice::ExchangeEnded(cause),
        }
    }

    /// What the exchange answers to an event.
    ///
    /// A write starts a cycle: the tick is taken, the counter goes to the
    /// attribute store, the same value is notified, and the counter moves
    /// on to its successor, whether or not the notification got through. A
    /// disconnect ends the exchange, and so does a store that refuses the
    /// value. Other events of the server are waited out. An event that does
    /// not answer what is under way changes nothing.
    pub open spec fn spec_step(self, event: Event) -> Transition<PeripheralExchange> {
        match (self, event) {
            (PeripheralExchange::AwaitWrite { counter, last_tick }, Event::Written { at }) => Transition {
                next: PeripheralExchange::Storing { counter, last_tick: Some(at) },
                delay_ms: 0,
                action: Action::Store { value: counter },
                notice: spec_interval_notice(counter, last_tick, at),
            },
            (PeripheralExchange::AwaitWrite { .. }, Event::Disconnected) => Self::spec_end(
                EndCause::Disconnected,
            ),
            (PeripheralExchange::AwaitWrite { .. }, Event::Other) => Transition {
                next: self,
                delay_ms: 0,
                action: Action::AwaitEvent,
                notice: Notice::Silent,
            },
            (PeripheralExchange::Storing { counter, last_tick }, Event::Completed { ok }) => if ok {
                Transition {
                    next: PeripheralExchange::Notifying { counter, last_tick },
                    delay_ms: 0,
                    action: Action::Notify { value: counter },
                    notice: Notice::Silent,
                }
            } else {
                Self::spec_end(EndCause::StoreFailed)
            },
            (PeripheralExchange::Notifying { counter, last_tick }, Event::Completed { .. }) => Transition {
                next: PeripheralExchange::AwaitWrite { counter: successor(counter), last_tick },
                delay_ms: 0,
                action: Action::AwaitEvent,
                notice: Notice::Silent,
            },
            _ => Transition {
                next: self,
                delay_ms: 0,
                action: Action::Nothing,
                notice: Notice::Silent,
            },
        }
    }

    /// Starts the exchange on a connection whose negotiation is done.
    pub fn begin() -> (first: Transition<PeripheralExchange>)
        ensures
            first == Self::spec_begin(),
    {
        Transition {
            next: PeripheralExchange::AwaitWrite { counter: 0, last_tick: None },
            delay_ms: 0,
            action: Action::AwaitEvent,
            notice: Notice::Silent,
        }
    }

    /// Handles what came of the action under way.
    pub fn step(self, event: Event) -> (out: Transition<PeripheralExchange>)
        ensures
            out == self.spec_step(event),
    {
        let unmoved = Transition {
            next: self,
            delay_ms: 0,
            action: Action::Nothing,
            notice: Notice::Silent,
        };
        match self {
            PeripheralExchange::AwaitWrite { counter, last_tick } => match event {
                Event::Written { at } => Transition {
                    next: PeripheralExchange::Storing { counter, last_tick: Some(at) },
                    delay_ms: 0,
                    action: Action::Store { value: counter },
                    notice: interval_notice(counter, last_tick, at),
                },
                Event::Disconnected => Transition {
                    next: PeripheralExchange::Terminated(EndCause::Disconnected),
                    delay_ms: 0,
                    action: Action::Nothing,
                    notice: Notice::ExchangeEnded(EndCause::Disconnected),
                },
                Event::Other => Transition { action: Action::AwaitEvent, ..unmoved },
                _ => unmoved,
            },
            PeripheralExchange::Storing { counter, last_tick } => match event {
                Event::Completed { ok: true } => Transition {
                    next: PeripheralExchange::Notifying { counter, last_tick },
                    delay_ms: 0,
                    action: Action::Notify { value: counter },
                    notice: Notice::Silent,
                },
                Event::Completed { ok: false } => Transition {
                    next: PeripheralExchange::Terminated(EndCause::StoreFailed),
                    delay_ms: 0,
                    action: Action::Nothing,
                    notice: Notice::ExchangeEnded(EndCause::StoreFailed),
                },
                _ => unmoved,
            },
            PeripheralExchange::Notifying { counter, last_tick } => match event {
                Event::Completed { .. } => Transition {
                    next: PeripheralExchange::AwaitWrite {
                        counter: counter.wrapping_add(1),
                        last_tick,
                    },
                    delay_ms: 0,
                    action: Action::AwaitEvent,
                    notice: Notice::Silent,
                },
                _ => unmoved,
            },
            PeripheralExchange::Terminated(_) => unmoved,
        }
    }

    /// Whether the exchange is over, and why.
    pub fn ended(&self) -> (cause: Option<EndCause>)
        ensures
            cause == match *self {
                PeripheralExchange::Terminated(c) => Some(c),
                _ => None,
            },
    {
        match self {
            PeripheralExchange::Terminated(c) => Some(*c),
            _ => None,
        }
    }
}

impl PeripheralExchange {
    /// The values that go to the attribute store while the events come in,
    /// in their order.
    pub open spec fn stored(self, events: Seq<Event>) -> Seq<u32>
        decreases events.len(),
    {
        if events.len() == 0 {
            Seq::empty()
        } else {
            let t = self.spec_step(events[0]);
            let here = match t.action {
                Action::Store { value } => seq![value],
                _ => Seq::empty(),
            };
            here + t.next.stored(events.drop_first())
        }
    }

    /// The values that are notified while the events come in, in their
    /// order.
    pub open spec fn notified(self, events: Seq<Event>) -> Seq<u32>
        decreases events.len(),
    {
        if events.len() == 0 {
            Seq::empty()
        } else {
            let t = self.spec_step(events[0]);
            let here = match t.action {
                Action::Notify { value } => seq![value],
                _ => Seq::empty(),
            };
            here + t.next.notified(events.drop_first())
        }
    }

    /// How many writes of the peer are taken in while the events come in:
    /// those that arrive while one is waited for.
    pub open spec fn writes_seen(self, events: Seq<Event>) -> nat
        decreases events.len(),
    {
        if events.len() == 0 {
            0
        } else {
            let here: nat = if self is AwaitWrite && events[0] is Written {
                1
            } else {
                0
            };
            here + self.spec_step(events[0]).next.writes_seen(events.drop_first())
        }
    }

    /// The value that goes to the attribute store next.
    pub open spec fn next_stored(self) -> u32 {
        match self {
            PeripheralExchange::AwaitWrite { counter, .. } => counter,
            PeripheralExchange::Storing { counter, .. } => successor(counter),
            PeripheralExchange::Notifying { counter, .. } => successor(counter),
            PeripheralExchange::Terminated(_) => 0,
        }
    }

    /// The value that is notified next.
    pub open spec fn next_notified(self) -> u32 {
        match self {
            PeripheralExchange::AwaitWrite { counter, .. } => counter,
            PeripheralExchange::Storing { counter, .. } => counter,
            PeripheralExchange::Notifying { counter, .. } => successor(counter),
            PeripheralExchange::Terminated(_) => 0,
        }
    }

    /// Whether the value of the cycle at hand is on its way to the attribute
    /// store and not notified yet.
    pub open spec fn store_ahead(self) -> bool {
        self is Storing
    }
}

/// The value that lies `steps` successors after `value`.
pub open spec fn advanced(value: u32, steps: int) -> u32 {
    ((value + steps) % 0x1_0000_0000) as u32
}

/// Moving on by one and then by `steps` is moving on by `steps + 1`.
proof fn lemma_advanced_successor(value: u32, steps: int)
    requires
        0 <= steps,
    ensures
        advanced(successor(value), steps) == advanced(value, steps + 1),
        advanced(value, 0) == value,
{
}

/// An exchange that is over stores and notifies nothing.
proof fn lemma_terminated_is_quiet(state: PeripheralExchange, events: Seq<Event>)
    requires
        state.terminated(),
    ensures
        state.stored(events).len() == 0,
        state.notified(events).len() == 0,
    decreases events.len(),
{
    if events.len() > 0 {
        lemma_terminated_is_quiet(state, events.drop_first());
    }
}

/// From any state on, the values stored count up by one, modulo 2^32.
proof fn lemma_stored_counts_up(state: PeripheralExchange, events: Seq<Event>, i: int)
    requires
        0 <= i < state.stored(events).len(),
    ensures
        state.stored(events)[i] == advanced(state.next_stored(), i),
    decreases events.len(),
{
    let t = state.spec_step(events[0]);
    let rest = t.next.stored(events.drop_first());
    if t.next.terminated() {
        lemma_terminated_is_quiet(t.next, events.drop_first());
    }
    match t.action {
        Action::Store { value } => {
            assert(state.stored(events) == seq![value] + rest);
            if i > 0 {
                lemma_stored_counts_up(t.next, events.drop_first(), i - 1);
                lemma_advanced_successor(value, i - 1);
            }
        },
        _ => {
            assert(state.stored(events) == Seq::<u32>::empty() + rest);
            lemma_stored_counts_up(t.next, events.drop_first(), i);
        },
    }
}

/// From any state on, the values notified count up by one, modulo 2^32.
proof fn lemma_notified_counts_up(state: PeripheralExchange, events: Seq<Event>, i: int)
    requires
        0 <= i < state.notified(events).len(),
    ensures
        state.notified(events)[i] == advanced(state.next_notified(), i),
    decreases events.len(),
{
    let t = state.spec_step(events[0]);
    let rest = t.next.notified(events.drop_first());
    if t.next.terminated() {
        lemma_terminated_is_quiet(t.next, events.drop_first());
    }
    match t.action {
        Action::Notify { value } => {
            assert(state.notified(events) == seq![value] + rest);
            if i > 0 {
                lemma_notified_counts_up(t.next, events.drop_first(), i - 1);
                lemma_advanced_successor(value, i - 1);
            }
        },
        _ => {
            assert(state.notified(events) == Seq::<u32>::empty() + rest);
            lemma_notified_counts_up(t.next, events.drop_first(), i);
        },
    }
}

/// The notifications never run ahead of the store, nor fall more than one
/// value behind it, and every write that is taken in sends one value to the
/// store.
proof fn lemma_store_leads(state: PeripheralExchange, events: Seq<Event>)
    ensures
        state.store_ahead() ==> state.stored(events).len() <= state.notified(events).len()
            <= state.stored(events).len() + 1,
        !state.store_ahead() ==> state.notified(events).len() <= state.stored(events).len()
            <= state.notified(events).len() + 1,
        state.stored(events).len() == state.writes_seen(events),
    decreases events.len(),
{
    if events.len() > 0 {
        let t = state.spec_step(events[0]);
        lemma_store_leads(t.next, events.drop_first());
        if t.next.terminated() {
            lemma_terminated_is_quiet(t.next, events.drop_first());
        }
    }
}

/// On every connection the peripheral stores 0, 1, 2, ... modulo 2^32, one
/// value for each write it sees, and notifies the very value that it
/// stored in the same cycle.
pub proof fn lemma_notified_is_stored(events: Seq<Event>)
    ensures
        ({
            let start = PeripheralExchange::spec_begin().next;
            let stored = start.stored(events);
            let notified = start.notified(events);
            &&& stored.len() == start.writes_seen(events)
            &&& notified.len() <= stored.len() <= notified.len() + 1
            &&& forall|i: int| 0 <= i < stored.len() ==> #[trigger] stored[i] == i % 0x1_0000_0000
            &&& forall|i: int| 0 <= i < notified.len() ==> #[trigger] notified[i] == stored[i]
        }),
{
    let start = PeripheralExchange::spec_begin().next;
    let stored = start.stored(events);
    let notified = start.notified(events);
    lemma_store_leads(start, events);
    assert forall|i: int| 0 <= i < stored.len() implies #[trigger] stored[i] == i
        % 0x1_0000_0000 by {
        lemma_stored_counts_up(start, events, i);
    }
    assert forall|i: int| 0 <= i < notified.len() implies #[trigger] notified[i] == stored[i] by {
        lemma_notified_counts_up(start, events, i);
        lemma_stored_counts_up(start, events, i);
    }
}

/// One cycle, step by step: the write sends the counter to the store, the
/// store's answer has the same value notified, and after the notification
/// the counter is the successor, which is zero after the largest value.
pub proof fn lemma_cycle(counter: u32, last_tick: Option<u64>, at: u64, notify_ok: bool)
    ensures
        ({
            let waiting = PeripheralExchange::AwaitWrite { counter, last_tick };
            let write = waiting.spec_step(Event::Written { at });
            let store = write.next.spec_step(Event::Completed { ok: true });
            let notify = store.next.spec_step(Event::Completed { ok: notify_ok });
            &&& write.action == Action::Store { value: counter }
            &&& store.action == Action::Notify { value: counter }
            &&& notify.action == Action::AwaitEvent
            &&& notify.next == PeripheralExchange::AwaitWrite {
                counter: successor(counter),
                last_tick: Some(at),
            }
            &&& successor(counter) != counter
            &&& counter < u32::MAX ==> successor(counter) == counter + 1
            &&& counter == u32::MAX ==> successor(counter) == 0
        }),
{
}

} // verus!
