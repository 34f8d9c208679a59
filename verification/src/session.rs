//! The session of one role: establish a link, negotiate it, run the
//! exchange until the link is lost, and start over. It never ends.

use crate::central_exchange::CentralExchange;
use crate::link::{Action, EndCause, Event, Notice, Role, Transition};
use crate::negotiation::Negotiation;
use crate::peripheral_exchange::PeripheralExchange;
use vstd::prelude::*;

verus! {

/// The pause before the central connects again, in milliseconds.
pub const RECONNECT_BACKOFF_MS: u64 = 2000;

/// What a session is busy with.
#[derive(Clone, Copy, Debug, PartialEq, Eq)]
pub enum Phase {
    /// Not started.
    Idle,
    /// Peripheral: advertising is being set up.
    Advertising,
    /// Peripheral: waiting for a peer to connect.
    Accepting,
    /// Central: the connect request is under way.
    Connecting,
    /// The link is up and is being negotiated.
    Negotiating(Negotiation),
    /// Peripheral: the exchange runs.
    Serving(PeripheralExchange),
    /// Central: the exchange runs.
    Driving(CentralExchange),
    /// The system is to be halted.
    Halted,
}

/// The stages of a session's life.
#[derive(Clone, Copy, Debug, PartialEq, Eq)]
pub enum Lifecycle {
    /// Not started.
    Idle,
    /// No link: advertising, or connecting.
    Establishing,
    /// A link is up and is being negotiated.
    Negotiating,
    /// A link is up and the exchange runs on it.
    Exchanging,
    /// Halted for good.
    Halted,
}

/// The session of one role.
#[derive(Clone, Copy, Debug, PartialEq, Eq)]
pub struct Session {
    pub role: Role,
    pub phase: Phase,
}

impl Session {
    /// A session is well formed when its phase is one of its role's, the
    /// negotiation in it is the role's own, well formed and unfinished, and
    /// the exchange in it is not over.
    pub open spec fn wf(self) -> bool {
        match self.phase {
            Phase::Idle | Phase::Halted => true,
            Phase::Advertising | Phase::Accepting => self.role is Peripheral,
            Phase::Connecting => self.role is Central,
            Phase::Negotiating(n) => n.role == self.role && n.wf() && !n.finished(),
            Phase::Serving(x) => self.role is Peripheral && !x.terminated(),
            Phase::Driving(x) => self.role is Central && !x.terminated(),
        }
    }

    /// The stage of life that the session is in.
    pub open spec fn lifecycle(self) -> Lifecycle {
        match self.phase {
            Phase::Idle => Lifecycle::Idle,
            Phase::Advertising | Phase::Accepting | Phase::Connecting => Lifecycle::Establishing,
            Phase::Negotiating(_) => Lifecycle::Negotiating,
            Phase::Serving(_) | Phase::Driving(_) => Lifecycle::Exchanging,
            Phase::Halted => Lifecycle::Halted,
        }
    }

    /// Whether a link is up.
    pub open spec fn connected(self) -> bool {
        self.lifecycle() is Negotiating || self.lifecycle() is Exchanging
    }

    /// The session at the point where it sets out to establish a link,
    /// after `delay_ms` milliseconds: the peripheral advertises, the central
    /// connects.
    pub open spec fn spec_establish(role: Role, delay_ms: u64, notice: Notice) -> Transition<
        Session,
    > {
        match role {
            Role::Peripheral => Transition {
                next: Session { role, phase: Phase::Advertising },
                delay_ms,
                action: Action::Advertise,
                notice,
            },
            Role::Central => Transition {
                next: Session { role, phase: Phase::Connecting },
                delay_ms,
                action: Action::Connect,
                notice,
            },
        }
    }

    /// The session at the start of the negotiation of a new link.
    pub open spec fn spec_negotiate(role: Role) -> Transition<Session> {
        let first = Negotiation::spec_begin(role);
        Transition {
            next: Session { role, phase: Phase::Negotiating(first.next) },
            delay_ms: first.delay_ms,
            action: first.action,
            notice: first.notice,
        }
    }

    /// The session at the start of the exchange, reporting `notice`.
    pub open spec fn spec_exchange(role: Role, notice: Notice) -> Transition<Session> {
        match role {
            Role::Peripheral => {
                let first = PeripheralExchange::spec_begin();
                Transition {
                    next: Session { role, phase: Phase::Serving(first.next) },
                    delay_ms: first.delay_ms,
                    action: first.action,
                    notice,
                }
            },
            Role::Central => {
                let first = CentralExchange::spec_begin();
                Transition {
                    next: Session { role, phase: Phase::Driving(first.next) },
                    delay_ms: first.delay_ms,
                    action: first.action,
                    notice,
                }
            },
        }
    }

    /// Where a session goes when its exchange has ended for `cause`. A
    /// store that refuses the counter halts the system. Otherwise the link
    /// is established anew: by the central after the backoff, or at once
    /// where no attribute client could be had; by the peripheral at once.
    pub open spec fn spec_after_exchange(role: Role, cause: EndCause, notice: Notice) -> Transition<
        Session,
    > {
        if cause is StoreFailed {
            Transition {
                next: Session { role, phase: Phase::Halted },
                delay_ms: 0,
                action: Action::Halt,
                notice,
            }
        } else if role is Central && !(cause is ClientFailed) {
            Self::spec_establish(role, RECONNECT_BACKOFF_MS, notice)
        } else {
            Self::spec_establish(role, 0, notice)
        }
    }

    /// The answer to an event that changes nothing.
    pub open spec fn spec_stay(self) -> Transition<Session> {
        Transition { next: self, delay_ms: 0, action: Action::Nothing, notice: Notice::Silent }
    }

    /// What a session that has not started does first: it sets out to
    /// establish a link. A session that has started is left as it is.
    pub open spec fn spec_start(self) -> Transition<Session> {
        if self.phase is Idle {
            Self::spec_establish(self.role, 0, Notice::Started)
        } else {
            self.spec_stay()
        }
    }

    /// What a session answers to an event.
    ///
    /// While no link is up, a failure keeps the session where it is and has
    /// it try again: the peripheral advertises again at once, the central
    /// connects again after the backoff. A new link is negotiated, and the
    /// end of the negotiation starts the exchange, whatever the steps came
    /// to. The end of the exchange is the end of the link. An event that
    /// does not answer what is under way changes nothing.
    pub open spec fn spec_step(self, event: Event) -> Transition<Session> {
        match (self.phase, event) {
            (Phase::Advertising, Event::Completed { ok }) => if ok {
                Transition {
                    next: Session { role: self.role, phase: Phase::Accepting },
                    delay_ms: 0,
                    action: Action::Accept,
                    notice: Notice::Silent,
                }
            } else {
                Transition {
                    next: self,
                    delay_ms: 0,
                    action: Action::Advertise,
                    notice: Notice::AdvertiseFailed,
                }
            },
            (Phase::Accepting, Event::Completed { ok }) => if ok {
                Self::spec_negotiate(self.role)
            } else {
                Transition {
                    next: Session { role: self.role, phase: Phase::Advertising },
                    delay_ms: 0,
                    action: Action::Advertise,
                    notice: Notice::Silent,
                }
            },
            (Phase::Connecting, Event::Completed { ok }) => if ok {
                Self::spec_negotiate(self.role)
            } else {
                Transition {
                    next: self,
                    delay_ms: RECONNECT_BACKOFF_MS,
                    action: Action::Connect,
                    notice: Notice::ConnectFailed,
                }
            },
            (Phase::Negotiating(n), _) => {
                let t = n.spec_advance(event);
                if t.next.finished() {
                    Self::spec_exchange(self.role, t.notice)
                } else {
                    Transition {
                        next: Session { role: self.role, phase: Phase::Negotiating(t.next) },
                        delay_ms: t.delay_ms,
                        action: t.action,
                        notice: t.notice,
                    }
                }
            },
            (Phase::Serving(x), _) => {
                let t = x.spec_step(event);
                match t.next {
                    PeripheralExchange::Terminated(cause) => Self::spec_after_exchange(
                        self.role,
                        cause,
                        t.notice,
                    ),
                    _ => Transition {
                        next: Session { role: self.role, phase: Phase::Serving(t.next) },
                        delay_ms: t.delay_ms,
                        action: t.action,
                        notice: t.notice,
                    },
                }
            },
            (Phase::Driving(x), _) => {
                let t = x.spec_step(event);
                match t.next {
                    CentralExchange::Terminated(cause) => Self::spec_after_exchange(
                        self.role,
                        cause,
                        t.notice,
                    ),
                    _ => Transition {
                        next: Session { role: self.role, phase: Phase::Driving(t.next) },
                        delay_ms: t.delay_ms,
                        action: t.action,
                        notice: t.notice,
                    },
                }
            },
            _ => self.spec_stay(),
        }
    }

    /// A session of `role` that has not started.
    pub fn new(role: Role) -> (session: Session)
        ensures
            session == (Session { role, phase: Phase::Idle }),
            session.wf(),
    {
        Session { role, phase: Phase::Idle }
    }

    /// Starts the session.
    pub fn start(self) -> (out: Transition<Session>)
        ensures
            out == self.spec_start(),
            self.wf() ==> out.next.wf(),
    {
        match self.phase {
            Phase::Idle => establish(self.role, 0, Notice::Started),
            _ => stay(self),
        }
    }

    /// Handles what came of the action under way.
    pub fn step(self, event: Event) -> (out: Transition<Session>)
        ensures
            out == self.spec_step(event),
            self.wf() ==> out.next.wf(),
    {
        let role = self.role;
        match self.phase {
            Phase::Idle | Phase::Halted => stay(self),
            Phase::Advertising => match event {
                Event::Completed { ok: true } => Transition {
                    next: Session { role, phase: Phase::Accepting },
                    delay_ms: 0,
                    action: Action::Accept,
                    notice: Notice::Silent,
                },
                Event::Completed { ok: false } => Transition {
                    next: self,
                    delay_ms: 0,
                    action: Action::Advertise,
                    notice: Notice::AdvertiseFailed,
                },
                _ => stay(self),
            },
            Phase::Accepting => match event {
                Event::Completed { ok: true } => negotiate(role),
                Event::Completed { ok: false } => Transition {
                    next: Session { role, phase: Phase::Advertising },
                    delay_ms: 0,
                    action: Action::Advertise,
                    notice: Notice::Silent,
                },
                _ => stay(self),
            },
            Phase::Connecting => match event {
                Event::Completed { ok: true } => negotiate(role),
                Event::Completed { ok: false } => Transition {
                    next: self,
                    delay_ms: RECONNECT_BACKOFF_MS,
                    action: Action::Connect,
                    notice: Notice::ConnectFailed,
                },
                _ => stay(self),
            },
            Phase::Negotiating(n) => {
                let t = n.advance(event);
                if t.next.is_finished() {
                    exchange(role, t.notice)
                } else {
                    Transition {
                        next: Session { role, phase: Phase::Negotiating(t.next) },
                        delay_ms: t.delay_ms,
                        action: t.action,
                        notice: t.notice,
                    }
                }
            },
            Phase::Serving(x) => {
                let t = x.step(event);
                match t.next.ended() {
                    Some(cause) => after_exchange(role, cause, t.notice),
                    None => Transition {
                        next: Session { role, phase: Phase::Serving(t.next) },
                        delay_ms: t.delay_ms,
                        action: t.action,
                        notice: t.notice,
                    },
                }
            },
            Phase::Driving(x) => {
                let t = x.step(event);
                match t.next.ended() {
                    Some(cause) => after_exchange(role, cause, t.notice),
                    None => Transition {
                        next: Session { role, phase: Phase::Driving(t.next) },
                        delay_ms: t.delay_ms,
                        action: t.action,
                        notice: t.notice,
                    },
                }
            },
        }
    }

    /// The stage of life that the session is in.
    pub fn stage(&self) -> (stage: Lifecycle)
        ensures
            stage == self.lifecycle(),
    {
        match self.phase {
            Phase::Idle => Lifecycle::Idle,
            Phase::Advertising | Phase::Accepting | Phase::Connecting => Lifecycle::Establishing,
            Phase::Negotiating(_) => Lifecycle::Negotiating,
            Phase::Serving(_) | Phase::Driving(_) => Lifecycle::Exchanging,
            Phase::Halted => Lifecycle::Halted,
        }
    }
}

/// The answer to an event that changes nothing.
fn stay(session: Session) -> (out: Transition<Session>)
    ensures
        out == session.spec_stay(),
{
    Transition { next: session, delay_ms: 0, action: Action::Nothing, notice: Notice::Silent }
}

/// Sets out to establish a link after `delay_ms` milliseconds.
fn establish(role: Role, delay_ms: u64, notice: Notice) -> (out: Transition<Session>)
    ensures
        out == Session::spec_establish(role, delay_ms, notice),
        out.next.wf(),
{
    match role {
        Role::Peripheral => Transition {
            next: Session { role, phase: Phase::Advertising },
            delay_ms,
            action: Action::Advertise,
            notice,
        },
        Role::Central => Transition {
            next: Session { role, phase: Phase::Connecting },
            delay_ms,
            action: Action::Connect,
            notice,
        },
    }
}

/// Starts the negotiation of a new link.
fn negotiate(role: Role) -> (out: Transition<Session>)
    ensures
        out == Session::spec_negotiate(role),
        out.next.wf(),
{
    let first = Negotiation::begin(role);
    Transition {
        next: Session { role, phase: Phase::Negotiating(first.next) },
        delay_ms: first.delay_ms,
        action: first.action,
        notice: first.notice,
    }
}

/// Starts the exchange on a negotiated link.
fn exchange(role: Role, notice: Notice) -> (out: Transition<Session>)
    ensures
        out == Session::spec_exchange(role, notice),
        out.next.wf(),
{
    match role {
        Role::Peripheral => {
            let first = PeripheralExchange::begin();
            Transition {
                next: Session { role, phase: Phase::Serving(first.next) },
                delay_ms: first.delay_ms,
                action: first.action,
                notice,
            }
        },
        Role::Central => {
            let first = CentralExchange::begin();
            Transition {
                next: Session { role, phase: Phase::Driving(first.next) },
                delay_ms: first.delay_ms,
                action: first.action,
                notice,
            }
        },
    }
}

/// Leaves an exchange that has ended for `cause`.
fn after_exchange(role: Role, cause: EndCause, notice: Notice) -> (out: Transition<Session>)
    ensures
        out == Session::spec_after_exchange(role, cause, notice),
        out.next.wf(),
{
    match cause {
        EndCause::StoreFailed => Transition {
            next: Session { role, phase: Phase::Halted },
            delay_ms: 0,
            action: Action::Halt,
            notice,
        },
        EndCause::ClientFailed => establish(role, 0, notice),
        _ => match role {
            Role::Central => establish(role, RECONNECT_BACKOFF_MS, notice),
            Role::Peripheral => establish(role, 0, notice),
        },
    }
}

impl Session {
    /// The session after the events have come in, one after the other.
    pub open spec fn run(self, events: Seq<Event>) -> Session
        decreases events.len(),
    {
        if events.len() == 0 {
            self
        } else {
            self.spec_step(events[0]).next.run(events.drop_first())
        }
    }
}

/// The events of requests that come back as `outcomes` say.
pub open spec fn completions(outcomes: Seq<bool>) -> Seq<Event> {
    Seq::new(outcomes.len(), |i: int| Event::Completed { ok: outcomes[i] })
}

/// A session moves through its life in one order only: from establishing a
/// link to negotiating it, from there to the exchange, and from the
/// exchange back to establishing a link, or to a halt. It never skips the
/// negotiation and never leaves it for anything but the exchange.
pub proof fn lemma_lifecycle_order(session: Session, event: Event)
    requires
        session.wf(),
    ensures
        ({
            let before = session.lifecycle();
            let after = session.spec_step(event).next.lifecycle();
            match before {
                Lifecycle::Idle => after is Idle,
                Lifecycle::Establishing => after is Establishing || after is Negotiating,
                Lifecycle::Negotiating => after is Negotiating || after is Exchanging,
                Lifecycle::Exchanging => after is Exchanging || after is Establishing || after
                    is Halted,
                Lifecycle::Halted => after is Halted,
            }
        }),
{
}

/// Every change of stage is reported: a transition that takes the session
/// from one stage of its life to another comes with a notice.
pub proof fn lemma_stage_changes_are_reported(session: Session, event: Event)
    requires
        session.wf(),
    ensures
        session.spec_step(event).next.lifecycle() != session.lifecycle() ==> !(session.spec_step(
            event,
        ).notice is Silent),
        session.spec_start().next.lifecycle() != session.lifecycle() ==> !(
        session.spec_start().notice is Silent),
{
}

/// While a link is being negotiated or the exchange runs on it, the session
/// does what the negotiation or the exchange does: it hands out their
/// actions, their pauses and their notices, until they come to their end.
pub proof fn lemma_session_follows_its_parts(session: Session, event: Event)
    ensures
        ({
            let out = session.spec_step(event);
            match session.phase {
                Phase::Negotiating(n) => {
                    let inner = n.spec_advance(event);
                    &&& out.notice == inner.notice
                    &&& !inner.next.finished() ==> out.next.phase == Phase::Negotiating(inner.next)
                        && out.action == inner.action && out.delay_ms == inner.delay_ms
                },
                Phase::Driving(x) => {
                    let inner = x.spec_step(event);
                    &&& out.notice == inner.notice
                    &&& !inner.next.terminated() ==> out.next.phase == Phase::Driving(inner.next)
                        && out.action == inner.action && out.delay_ms == inner.delay_ms
                },
                Phase::Serving(x) => {
                    let inner = x.spec_step(event);
                    &&& out.notice == inner.notice
                    &&& !inner.next.terminated() ==> out.next.phase == Phase::Serving(inner.next)
                        && out.action == inner.action && out.delay_ms == inner.delay_ms
                },
                _ => true,
            }
        }),
{
}

/// One link at a time: a session advertises, accepts or connects only
/// while no link is up, and while no link is up it does nothing else.
pub proof fn lemma_one_link(session: Session, event: Event)
    requires
        session.wf(),
    ensures
        ({
            let out = session.spec_step(event);
            let seeks = out.action is Advertise || out.action is Accept || out.action is Connect;
            &&& seeks ==> !out.next.connected()
            &&& out.next.lifecycle() is Establishing ==> seeks || out.action is Nothing
        }),
{
}

/// The central does not connect again before the backoff is over: after a
/// failed connect, a refused subscription or an unacknowledged trigger
/// write, the connect that follows waits two seconds.
pub proof fn lemma_backoff_before_reconnect(session: Session, event: Event)
    requires
        session.wf(),
        session.role is Central,
    ensures
        ({
            let out = session.spec_step(event);
            &&& out.action is Connect ==> out.delay_ms == RECONNECT_BACKOFF_MS || out.notice
                == Notice::ExchangeEnded(EndCause::ClientFailed)
            &&& (out.notice == Notice::ConnectFailed || out.notice == Notice::ExchangeEnded(
                EndCause::SubscribeFailed,
            ) || out.notice == Notice::ExchangeEnded(EndCause::WriteFailed)) ==> out.action
                is Connect && out.delay_ms == RECONNECT_BACKOFF_MS && out.next.phase is Connecting
        }),
{
}

/// The exchange starts with its first action: the central asks for the
/// attribute client, the peripheral waits for the first event.
pub proof fn lemma_exchange_entry(session: Session, event: Event)
    requires
        session.wf(),
        !(session.lifecycle() is Exchanging),
        session.spec_step(event).next.lifecycle() is Exchanging,
    ensures
        session.lifecycle() is Negotiating,
        session.role is Central ==> session.spec_step(event).action is OpenClient,
        session.role is Peripheral ==> session.spec_step(event).action is AwaitEvent,
{
}

/// No refusal keeps a session from its exchange: a session that negotiates
/// enters the exchange after at most as many completions as its negotiation
/// can still take in, whatever they say. The number of completions that it
/// took is returned.
pub proof fn lemma_negotiation_reaches_exchange(session: Session, outcomes: Seq<bool>) -> (taken:
    int)
    requires
        session.wf(),
        session.phase is Negotiating,
        outcomes.len() >= session.phase->Negotiating_0.remaining(),
    ensures
        0 < taken <= session.phase->Negotiating_0.remaining(),
        session.run(completions(outcomes).take(taken)).lifecycle() is Exchanging,
    decreases outcomes.len(),
{
    let n = session.phase->Negotiating_0;
    let events = completions(outcomes);
    let event = Event::Completed { ok: outcomes[0] };
    crate::negotiation::lemma_advance_progress(n, outcomes[0]);
    let after = session.spec_step(event).next;
    assert(events[0] == event);
    if n.spec_advance(event).next.finished() {
        assert(events.take(1).drop_first().len() == 0);
        assert(events.take(1)[0] == event);
        assert(session.run(events.take(1)) == after.run(events.take(1).drop_first()));
        1
    } else {
        let rest = outcomes.drop_first();
        let later = lemma_negotiation_reaches_exchange(after, rest);
        assert(completions(rest).take(later) == events.take(later + 1).drop_first());
        assert(events.take(later + 1)[0] == event);
        later + 1
    }
}

} // verus!
