//! The central's half of the counter exchange: find the counter service,
//! subscribe, and then keep the ping-pong going, one trigger write for every
//! notification.

use crate::link::{successor, Action, EndCause, Event, Notice, Transition};
use crate::telemetry::{interval_notice, spec_interval_notice};
use vstd::prelude::*;

verus! {

/// The byte that the central writes to the command attribute to trigger the
/// next notification.
pub const TRIGGER: u8 = 1;

/// The pause before the service is looked up again, in milliseconds.
pub const DISCOVERY_POLL_MS: u64 = 500;

/// Where the central's exchange stands.
#[derive(Clone, Copy, Debug, PartialEq, Eq)]
pub enum CentralExchange {
    /// The attribute client is being created.
    Opening,
    /// The service is being looked up.
    DiscoverService,
    /// The counter attribute is being resolved.
    DiscoverCounter,
    /// The command attribute is being resolved; `counter_found` says
    /// whether the counter attribute was.
    DiscoverCommand { counter_found: bool },
    /// The subscription is under way.
    Subscribing,
    /// Subscribed: the first trigger write is under way.
    Subscribed,
    /// Waiting for the notification that answers the last write. `cycles`
    /// counts the notifications so far, `last_tick` is when the last one
    /// came.
    AwaitNotify { cycles: u32, last_tick: Option<u64> },
    /// A trigger write is under way.
    WriteTrigger { cycles: u32, last_tick: Option<u64> },
    /// The exchange is over.
    Terminated(EndCause),
}

impl CentralExchange {
    /// Whether the exchange is over.
    pub open spec fn terminated(self) -> bool {
        self is Terminated
    }

    /// The start of an exchange: the attribute client is asked for.
    pub open spec fn spec_begin() -> Transition<CentralExchange> {
        Transition {
            next: CentralExchange::Opening,
            delay_ms: 0,
            action: Action::OpenClient,
            notice: Notice::Silent,
        }
    }

    /// The exchange at a new round of discovery, after the pause.
    pub open spec fn spec_poll_again() -> Transition<CentralExchange> {
        Transition {
            next: CentralExchange::DiscoverService,
            delay_ms: DISCOVERY_POLL_MS,
            action: Action::FindService,
            notice: Notice::Silent,
        }
    }

    /// The end of the exchange, for the given cause.
    pub open spec fn spec_end(cause: EndCause) -> Transition<CentralExchange> {
        Transition {
            next: CentralExchange::Terminated(cause),
            delay_ms: 0,
            action: Action::Nothing,
            notice: Notice::ExchangeEnded(cause),
        }
    }

    /// What the exchange answers to an event.
    ///
    /// Discovery is polled until the service and both attributes are found.
    /// A refused subscription ends the exchange, and so does every trigger
    /// write that is not acknowledged, the first one like any later one. A
    /// trigger write goes out when the subscription stands and then once
    /// for every notification, never otherwise. An event that does not
    /// answer what is under way changes nothing.
    pub open spec fn spec_step(self, event: Event) -> Transition<CentralExchange> {
        match (self, event) {
            (CentralExchange::Opening, Event::Completed { ok }) => if ok {
                Transition {
                    next: CentralExchange::DiscoverService,
                    delay_ms: 0,
                    action: Action::FindService,
                    notice: Notice::Silent,
                }
            } else {
                Self::spec_end(EndCause::ClientFailed)
            },
            (CentralExchange::DiscoverService, Event::Completed { ok }) => if ok {
                Transition {
                    next: CentralExchange::DiscoverCounter,
                    delay_ms: 0,
                    action: Action::FindCounter,
                    notice: Notice::Silent,
                }
            } else {
                Self::spec_poll_again()
            },
            (CentralExchange::DiscoverCounter, Event::Completed { ok }) => Transition {
                next: CentralExchange::DiscoverCommand { counter_found: ok },
                delay_ms: 0,
                action: Action::FindCommand,
                notice: Notice::Silent,
            },
            (CentralExchange::DiscoverCommand { counter_found }, Event::Completed { ok }) => if ok
                && counter_found {
                Transition {
                    next: CentralExchange::Subscribing,
                    delay_ms: 0,
                    action: Action::Subscribe,
                    notice: Notice::Silent,
                }
            } else {
                Self::spec_poll_again()
            },
            (CentralExchange::Subscribing, Event::Completed { ok }) => if ok {
                Transition {
                    next: CentralExchange::Subscribed,
                    delay_ms: 0,
                    action: Action::WriteTrigger { byte: TRIGGER },
                    notice: Notice::Subscribed,
                }
            } else {
                Self::spec_end(EndCause::SubscribeFailed)
            },
            (CentralExchange::Subscribed, Event::Completed { ok }) => if ok {
                Transition {
                    next: CentralExchange::AwaitNotify { cycles: 0, last_tick: None },
                    delay_ms: 0,
                    action: Action::AwaitNotification,
                    notice: Notice::Silent,
                }
            } else {
                Self::spec_end(EndCause::WriteFailed)
            },
            (CentralExchange::AwaitNotify { cycles, last_tick }, Event::Notified { at }) => Transition {
                next: CentralExchange::WriteTrigger {
                    cycles: successor(cycles),
                    last_tick: Some(at),
                },
                delay_ms: 0,
                action: Action::WriteTrigger { byte: TRIGGER },
                notice: spec_interval_notice(cycles, last_tick, at),
            },
            (CentralExchange::WriteTrigger { cycles, last_tick }, Event::Completed { ok }) => if ok {
                Transition {
                    next: CentralExchange::AwaitNotify { cycles, last_tick },
                    delay_ms: 0,
                    action: Action::AwaitNotification,
                    notice: Notice::Silent,
                }
            } else {
                Self::spec_end(EndCause::WriteFailed)
            },
            _ => Transition {
                next: self,
                delay_ms: 0,
                action: Action::Nothing,
                notice: Notice::Silent,
            },
        }
    }

    /// Starts the exchange on a connection whose negotiation is done.
    pub fn begin() -> (first: Transition<CentralExchange>)
        ensures
            first == Self::spec_begin(),
    {
        Transition {
            next: CentralExchange::Opening,
            delay_ms: 0,
            action: Action::OpenClient,
            notice: Notice::Silent,
        }
    }

    /// Handles what came of the action under way.
    pub fn step(self, event: Event) -> (out: Transition<CentralExchange>)
        ensures
            out == self.spec_step(event),
    {
        match event {
            Event::Completed { ok } => self.completed(ok),
            Event::Notified { at } => self.notified(at),
            _ => stay(self),
        }
    }

    /// Handles the completion of the operation under way.
    fn completed(self, ok: bool) -> (out: Transition<CentralExchange>)
        ensures
            out == self.spec_step(Event::Completed { ok }),
    {
        let (next, action, notice) = match self {
            CentralExchange::Opening => {
                if !ok {
                    return end(EndCause::ClientFailed);
                }
                (CentralExchange::DiscoverService, Action::FindService, Notice::Silent)
            },
            CentralExchange::DiscoverService => {
                if !ok {
                    return poll_again();
                }
                (CentralExchange::DiscoverCounter, Action::FindCounter, Notice::Silent)
            },
            CentralExchange::DiscoverCounter => (
                CentralExchange::DiscoverCommand { counter_found: ok },
                Action::FindCommand,
                Notice::Silent,
            ),
            CentralExchange::DiscoverCommand { counter_found } => {
                if !(ok && counter_found) {
                    return poll_again();
                }
                (CentralExchange::Subscribing, Action::Subscribe, Notice::Silent)
            },
            CentralExchange::Subscribing => {
                if !ok {
                    return end(EndCause::SubscribeFailed);
                }
                (
                    CentralExchange::Subscribed,
                    Action::WriteTrigger { byte: TRIGGER },
                    Notice::Subscribed,
                )
            },
            CentralExchange::Subscribed => {
                if !ok {
                    return end(EndCause::WriteFailed);
                }
                (
                    CentralExchange::AwaitNotify { cycles: 0, last_tick: None },
                    Action::AwaitNotification,
                    Notice::Silent,
                )
            },
            CentralExchange::WriteTrigger { cycles, last_tick } => {
                if !ok {
                    return end(EndCause::WriteFailed);
                }
                (
                    CentralExchange::AwaitNotify { cycles, last_tick },
                    Action::AwaitNotification,
                    Notice::Silent,
                )
            },
            _ => {
                return stay(self);
            },
        };
        Transition { next, delay_ms: 0, action, notice }
    }

    /// Handles a notification that arrived at `at`.
    fn notified(self, at: u64) -> (out: Transition<CentralExchange>)
        ensures
            out == self.spec_step(Event::Notified { at }),
    {
        match self {
            CentralExchange::AwaitNotify { cycles, last_tick } => Transition {
                next: CentralExchange::WriteTrigger {
                    cycles: cycles.wrapping_add(1),
                    last_tick: Some(at),
                },
                delay_ms: 0,
                action: Action::WriteTrigger { byte: TRIGGER },
                notice: interval_notice(cycles, last_tick, at),
            },
            _ => stay(self),
        }
    }

    /// Whether the exchange is over, and why.
    pub fn ended(&self) -> (cause: Option<EndCause>)
        ensures
            cause == match *self {
                CentralExchange::Terminated(c) => Some(c),
                _ => None,
            },
    {
        match self {
            CentralExchange::Terminated(c) => Some(*c),
            _ => None,
        }
    }
}

/// The answer to an event that changes nothing.
fn stay(state: CentralExchange) -> (out: Transition<CentralExchange>)
    ensures
        out == (Transition {
            next: state,
            delay_ms: 0,
            action: Action::Nothing,
            notice: Notice::Silent,
        }),
{
    Transition { next: state, delay_ms: 0, action: Action::Nothing, notice: Notice::Silent }
}

/// The answer that ends the exchange.
fn end(cause: EndCause) -> (out: Transition<CentralExchange>)
    ensures
        out == CentralExchange::spec_end(cause),
{
    Transition {
        next: CentralExchange::Terminated(cause),
        delay_ms: 0,
        action: Action::Nothing,
        notice: Notice::ExchangeEnded(cause),
    }
}

/// The answer that starts a new round of discovery after the pause.
fn poll_again() -> (out: Transition<CentralExchange>)
    ensures
        out == CentralExchange::spec_poll_again(),
{
    Transition {
        next: CentralExchange::DiscoverService,
        delay_ms: DISCOVERY_POLL_MS,
        action: Action::FindService,
        notice: Notice::Silent,
    }
}

impl CentralExchange {
    /// How many trigger writes go out while the events come in.
    pub open spec fn writes(self, events: Seq<Event>) -> nat
        decreases events.len(),
    {
        if events.len() == 0 {
            0
        } else {
            let t = self.spec_step(events[0]);
            let here: nat = if t.action is WriteTrigger {
                1
            } else {
                0
            };
            here + t.next.writes(events.drop_first())
        }
    }

    /// How many notifications are taken in while the events come in: those
    /// that arrive while one is waited for.
    pub open spec fn notifications(self, events: Seq<Event>) -> nat
        decreases events.len(),
    {
        if events.len() == 0 {
            0
        } else {
            let here: nat = if self is AwaitNotify && events[0] is Notified {
                1
            } else {
                0
            };
            here + self.spec_step(events[0]).next.notifications(events.drop_first())
        }
    }

    /// Whether a trigger write has gone out that no notification has
    /// answered.
    pub open spec fn outstanding(self) -> bool {
        match self {
            CentralExchange::Subscribed => true,
            CentralExchange::AwaitNotify { .. } => true,
            CentralExchange::WriteTrigger { .. } => true,
            CentralExchange::Terminated(cause) => cause is WriteFailed,
            _ => false,
        }
    }
}

/// A trigger write goes out only when the subscription has come to stand or
/// a notification has been taken in, and leaves exactly one write
/// unanswered.
pub proof fn lemma_write_follows_notification(state: CentralExchange, event: Event)
    ensures
        state.spec_step(event).action is WriteTrigger ==> {
            &&& (state is Subscribing && event == (Event::Completed { ok: true })) || (state
                is AwaitNotify && event is Notified)
            &&& state.spec_step(event).action == Action::WriteTrigger { byte: TRIGGER }
            &&& state.spec_step(event).next.outstanding()
        },
{
}

/// A trigger write that is not acknowledged ends the exchange, whether it
/// is the first write of the connection or a later one: nothing more is
/// written or waited for, and the end is reported as a failed write.
pub proof fn lemma_refused_write_ends_exchange(state: CentralExchange)
    requires
        state is Subscribed || state is WriteTrigger,
    ensures
        state.spec_step(Event::Completed { ok: false }) == CentralExchange::spec_end(
            EndCause::WriteFailed,
        ),
        CentralExchange::spec_end(EndCause::WriteFailed).next.terminated(),
        CentralExchange::spec_end(EndCause::WriteFailed).action is Nothing,
        forall|events: Seq<Event>|
            #![trigger CentralExchange::spec_end(EndCause::WriteFailed).next.writes(events)]
            CentralExchange::spec_end(EndCause::WriteFailed).next.writes(events) == 0,
{
    assert forall|events: Seq<Event>|
        #![trigger CentralExchange::spec_end(EndCause::WriteFailed).next.writes(events)]
        CentralExchange::spec_end(EndCause::WriteFailed).next.writes(events) == 0 by {
        lemma_terminated_writes_nothing(CentralExchange::spec_end(EndCause::WriteFailed).next, events);
    }
}

/// An exchange that is over writes nothing more.
proof fn lemma_terminated_writes_nothing(state: CentralExchange, events: Seq<Event>)
    requires
        state.terminated(),
    ensures
        state.writes(events) == 0,
    decreases events.len(),
{
    if events.len() > 0 {
        lemma_terminated_writes_nothing(state, events.drop_first());
    }
}

/// From any state on, the writes that go out and the notifications that are
/// taken in keep step: together with a write that is unanswered at the
/// start, the writes are never behind the notifications and never more
/// than one ahead.
pub proof fn lemma_writes_keep_step(state: CentralExchange, events: Seq<Event>)
    ensures
        state.outstanding() ==> state.writes(events) == state.notifications(events),
        !state.outstanding() ==> state.notifications(events) <= state.writes(events)
            <= state.notifications(events) + 1,
    decreases events.len(),
{
    if events.len() > 0 {
        lemma_writes_keep_step(state.spec_step(events[0]).next, events.drop_first());
    }
}

/// Strict alternation: on every connection, however the events fall, the
/// trigger writes that have gone out exceed the notifications that have
/// come in by one or by none. The central never writes a second time before
/// the first write is answered.
pub proof fn lemma_strict_alternation(events: Seq<Event>)
    ensures
        ({
            let start = CentralExchange::spec_begin().next;
            start.notifications(events) <= start.writes(events) <= start.notifications(events) + 1
        }),
{
    lemma_writes_keep_step(CentralExchange::spec_begin().next, events);
}

} // verus!
