//! The negotiation that follows every new connection: a fixed list of
//! requests, each of them best effort. A refusal never ends the negotiation;
//! a step that may be retried is asked again after a pause, up to its limit.

use crate::link::{Action, Event, Notice, Role, Step, Transition};
use vstd::prelude::*;

verus! {

/// How often the connection rate is asked for before it is given up.
pub const MAX_RATE_ATTEMPTS: u32 = 10;

/// The pause before the connection rate is asked for again, in milliseconds.
pub const RATE_RETRY_DELAY_MS: u64 = 200;

/// The steps that a role negotiates, in the order in which it takes them.
pub open spec fn plan(role: Role) -> Seq<Step> {
    match role {
        Role::Peripheral => seq![Step::HostFeature],
        Role::Central => seq![
            Step::HostFeature,
            Step::Features,
            Step::Phy,
            Step::ConnParams,
            Step::FrameSpace,
            Step::MinInterval,
            Step::ConnRate,
        ],
    }
}

impl Step {
    /// The place of the step in the full order of steps.
    pub open spec fn position(self) -> int {
        match self {
            Step::HostFeature => 0,
            Step::Features => 1,
            Step::Phy => 2,
            Step::ConnParams => 3,
            Step::FrameSpace => 4,
            Step::MinInterval => 5,
            Step::ConnRate => 6,
        }
    }

    /// How many requests the step may take: the connection rate is retried,
    /// every other step is asked once.
    pub open spec fn spec_limit(self) -> u32 {
        if self is ConnRate {
            MAX_RATE_ATTEMPTS
        } else {
            1
        }
    }

    /// How many requests the step may take.
    pub fn limit(&self) -> (limit: u32)
        ensures
            limit == self.spec_limit(),
    {
        match self {
            Step::ConnRate => MAX_RATE_ATTEMPTS,
            _ => 1,
        }
    }

    /// Whether the role takes this step.
    pub open spec fn planned(self, role: Role) -> bool {
        self.position() < plan(role).len()
    }

    /// The step that the role takes after this one, if any.
    pub open spec fn spec_follower(self, role: Role) -> Option<Step> {
        if self.position() + 1 < plan(role).len() {
            Some(plan(role)[self.position() + 1])
        } else {
            None
        }
    }

    /// The step that the role takes after this one, if any.
    pub fn follower(&self, role: Role) -> (next: Option<Step>)
        ensures
            next == self.spec_follower(role),
    {
        match role {
            Role::Peripheral => None,
            Role::Central => match self {
                Step::HostFeature => Some(Step::Features),
                Step::Features => Some(Step::Phy),
                Step::Phy => Some(Step::ConnParams),
                Step::ConnParams => Some(Step::FrameSpace),
                Step::FrameSpace => Some(Step::MinInterval),
                Step::MinInterval => Some(Step::ConnRate),
                Step::ConnRate => None,
            },
        }
    }
}

/// Where a negotiation stands.
#[derive(Clone, Copy, Debug, PartialEq, Eq)]
pub enum Stage {
    /// The `attempt`-th request of `step` is under way.
    Requesting { step: Step, attempt: u32 },
    /// Every step has been taken.
    Finished,
}

/// The negotiation of one connection.
#[derive(Clone, Copy, Debug, PartialEq, Eq)]
pub struct Negotiation {
    pub role: Role,
    pub stage: Stage,
}

impl Negotiation {
    /// A negotiation is well formed when the step under way is one of the
    /// role's and its attempt lies within the step's limit.
    pub open spec fn wf(self) -> bool {
        match self.stage {
            Stage::Requesting { step, attempt } => step.planned(self.role) && 1 <= attempt
                <= step.spec_limit(),
            Stage::Finished => true,
        }
    }

    /// Whether every step has been taken.
    pub open spec fn finished(self) -> bool {
        self.stage is Finished
    }

    /// The negotiation at the first request of `step`, and the request.
    pub open spec fn spec_enter(role: Role, step: Step, notice: Notice) -> Transition<
        Negotiation,
    > {
        Transition {
            next: Negotiation { role, stage: Stage::Requesting { step, attempt: 1 } },
            delay_ms: 0,
            action: Action::Negotiate(step),
            notice,
        }
    }

    /// The start of a negotiation: the first request of the role's first
    /// step.
    pub open spec fn spec_begin(role: Role) -> Transition<Negotiation> {
        Self::spec_enter(role, Step::HostFeature, Notice::Connected)
    }

    /// What a negotiation answers to an event.
    ///
    /// Only the completion of the request under way moves it. An accepted
    /// request ends its step. A refused one is made again after the pause
    /// while the step's limit allows, and ends the step when it does not.
    /// The step that ends hands over to the one that follows it, and the
    /// last one finishes the negotiation: no refusal ends it early.
    pub open spec fn spec_advance(self, event: Event) -> Transition<Negotiation> {
        match (self.stage, event) {
            (Stage::Requesting { step, attempt }, Event::Completed { ok }) => {
                if !ok && attempt < step.spec_limit() {
                    Transition {
                        next: Negotiation {
                            role: self.role,
                            stage: Stage::Requesting { step, attempt: (attempt + 1) as u32 },
                        },
                        delay_ms: RATE_RETRY_DELAY_MS,
                        action: Action::Negotiate(step),
                        notice: Notice::StepRefused { step, attempt, limit: step.spec_limit() },
                    }
                } else {
                    let notice = if ok {
                        Notice::StepAccepted { step, attempts: attempt }
                    } else {
                        Notice::StepAbandoned { step, attempts: attempt }
                    };
                    match step.spec_follower(self.role) {
                        Some(following) => Self::spec_enter(self.role, following, notice),
                        None => Transition {
                            next: Negotiation { role: self.role, stage: Stage::Finished },
                            delay_ms: 0,
                            action: Action::Nothing,
                            notice,
                        },
                    }
                }
            },
            _ => Transition {
                next: self,
                delay_ms: 0,
                action: Action::Nothing,
                notice: Notice::Silent,
            },
        }
    }

    /// Starts the negotiation of a new connection.
    pub fn begin(role: Role) -> (first: Transition<Negotiation>)
        ensures
            first == Self::spec_begin(role),
            first.next.wf(),
    {
        Transition {
            next: Negotiation {
                role,
                stage: Stage::Requesting { step: Step::HostFeature, attempt: 1 },
            },
            delay_ms: 0,
            action: Action::Negotiate(Step::HostFeature),
            notice: Notice::Connected,
        }
    }

    /// Handles what came of the request under way.
    pub fn advance(self, event: Event) -> (out: Transition<Negotiation>)
        ensures
            out == self.spec_advance(event),
            self.wf() ==> out.next.wf(),
    {
        let unmoved = Transition {
            next: self,
            delay_ms: 0,
            action: Action::Nothing,
            notice: Notice::Silent,
        };
        let (step, attempt) = match self.stage {
            Stage::Requesting { step, attempt } => (step, attempt),
            Stage::Finished => {
                return unmoved;
            },
        };
        let ok = match event {
            Event::Completed { ok } => ok,
            _ => {
                return unmoved;
            },
        };
        if !ok && attempt < step.limit() {
            return Transition {
                next: Negotiation {
                    role: self.role,
                    stage: Stage::Requesting { step, attempt: attempt + 1 },
                },
                delay_ms: RATE_RETRY_DELAY_MS,
                action: Action::Negotiate(step),
                notice: Notice::StepRefused { step, attempt, limit: step.limit() },
            };
        }
        let notice = if ok {
            Notice::StepAccepted { step, attempts: attempt }
        } else {
            Notice::StepAbandoned { step, attempts: attempt }
        };
        match step.follower(self.role) {
            Some(following) => Transition {
                next: Negotiation {
                    role: self.role,
                    stage: Stage::Requesting { step: following, attempt: 1 },
                },
                delay_ms: 0,
                action: Action::Negotiate(following),
                notice,
            },
            None => Transition {
                next: Negotiation { role: self.role, stage: Stage::Finished },
                delay_ms: 0,
                action: Action::Nothing,
                notice,
            },
        }
    }

    /// Whether every step has been taken.
    pub fn is_finished(&self) -> (done: bool)
        ensures
            done == self.finished(),
    {
        match self.stage {
            Stage::Finished => true,
            Stage::Requesting { .. } => false,
        }
    }
}

impl Negotiation {
    /// The negotiation after its requests have come back as `outcomes` say,
    /// one after the other.
    pub open spec fn run(self, outcomes: Seq<bool>) -> Negotiation
        decreases outcomes.len(),
    {
        if outcomes.len() == 0 {
            self
        } else {
            self.spec_advance(Event::Completed { ok: outcomes[0] }).next.run(outcomes.drop_first())
        }
    }

    /// How many requests of `step` are handed out while the requests come
    /// back as `outcomes` say. The request that is under way at the start is
    /// not counted.
    pub open spec fn issued(self, step: Step, outcomes: Seq<bool>) -> nat
        decreases outcomes.len(),
    {
        if outcomes.len() == 0 {
            0
        } else {
            let t = self.spec_advance(Event::Completed { ok: outcomes[0] });
            let here: nat = if t.action == Action::Negotiate(step) {
                1
            } else {
                0
            };
            here + t.next.issued(step, outcomes.drop_first())
        }
    }

    /// How many requests of `step` a whole negotiation of `role` makes when
    /// its requests come back as `outcomes` say.
    pub open spec fn tally(role: Role, step: Step, outcomes: Seq<bool>) -> nat {
        let first = Self::spec_begin(role);
        let here: nat = if first.action == Action::Negotiate(step) {
            1
        } else {
            0
        };
        here + first.next.issued(step, outcomes)
    }

    /// How many requests of `step` may still be handed out.
    pub open spec fn allowance(self, step: Step) -> nat {
        match self.stage {
            Stage::Finished => 0,
            Stage::Requesting { step: current, attempt } => {
                if current == step {
                    (step.spec_limit() - attempt) as nat
                } else if current.position() < step.position() && step.planned(self.role) {
                    step.spec_limit() as nat
                } else {
                    0
                }
            },
        }
    }

    /// The most completions that the negotiation can still take in before it
    /// is finished: what the step under way has left, and all that the steps
    /// after it may take.
    pub open spec fn remaining(self) -> nat {
        match self.stage {
            Stage::Finished => 0,
            Stage::Requesting { step, attempt } => (step.spec_limit() - attempt + 1) as nat
                + step.owed_after(self.role),
        }
    }
}

impl Step {
    /// The most requests that the steps which the role takes after this one
    /// can make together.
    pub open spec fn owed_after(self, role: Role) -> nat
        decreases 7 - self.position(),
    {
        match self.spec_follower(role) {
            Some(following) => following.spec_limit() as nat + following.owed_after(role),
            None => 0,
        }
    }
}

/// A finished negotiation stays finished and asks for nothing more.
pub proof fn lemma_finished_is_final(n: Negotiation, step: Step, outcomes: Seq<bool>)
    requires
        n.finished(),
    ensures
        n.run(outcomes) == n,
        n.issued(step, outcomes) == 0,
    decreases outcomes.len(),
{
    if outcomes.len() > 0 {
        lemma_finished_is_final(n, step, outcomes.drop_first());
    }
}

/// Running over one batch of outcomes and then over another is running over
/// both in a row, and the requests add up.
pub proof fn lemma_run_split(n: Negotiation, step: Step, head: Seq<bool>, tail: Seq<bool>)
    ensures
        n.run(head + tail) == n.run(head).run(tail),
        n.issued(step, head + tail) == n.issued(step, head) + n.run(head).issued(step, tail),
    decreases head.len(),
{
    if head.len() == 0 {
        assert(head + tail == tail);
    } else {
        let next = n.spec_advance(Event::Completed { ok: head[0] }).next;
        assert((head + tail).drop_first() == head.drop_first() + tail);
        assert((head + tail)[0] == head[0]);
        lemma_run_split(next, step, head.drop_first(), tail);
    }
}

/// Every completion brings a well-formed negotiation closer to its end,
/// whether the request was accepted or refused.
pub proof fn lemma_advance_progress(n: Negotiation, ok: bool)
    requires
        n.wf(),
        !n.finished(),
    ensures
        n.spec_advance(Event::Completed { ok }).next.wf(),
        n.spec_advance(Event::Completed { ok }).next.remaining() < n.remaining(),
{
}

/// No refusal keeps a negotiation from finishing: once as many requests
/// have come back as it can make at most, it is finished, whatever came
/// back.
pub proof fn lemma_negotiation_ends(n: Negotiation, outcomes: Seq<bool>)
    requires
        n.wf(),
        outcomes.len() >= n.remaining(),
    ensures
        n.run(outcomes).finished(),
    decreases outcomes.len(),
{
    if n.finished() {
        lemma_finished_is_final(n, Step::ConnRate, outcomes);
    } else {
        lemma_advance_progress(n, outcomes[0]);
        lemma_negotiation_ends(
            n.spec_advance(Event::Completed { ok: outcomes[0] }).next,
            outcomes.drop_first(),
        );
    }
}

/// A negotiation never hands out more requests of a step than the step has
/// left.
pub proof fn lemma_issued_within_allowance(n: Negotiation, step: Step, outcomes: Seq<bool>)
    requires
        n.wf(),
    ensures
        n.issued(step, outcomes) <= n.allowance(step),
    decreases outcomes.len(),
{
    if outcomes.len() > 0 {
        let t = n.spec_advance(Event::Completed { ok: outcomes[0] });
        if n.finished() {
            lemma_finished_is_final(n, step, outcomes);
        } else {
            lemma_advance_progress(n, outcomes[0]);
            lemma_issued_within_allowance(t.next, step, outcomes.drop_first());
        }
    }
}

/// Whatever comes back, a negotiation asks for a step no more often than the
/// step's limit allows: for the connection rate at most ten times, for every
/// other step once.
pub proof fn lemma_attempts_bounded(role: Role, step: Step, outcomes: Seq<bool>)
    ensures
        Negotiation::tally(role, step, outcomes) <= step.spec_limit(),
        Negotiation::tally(role, Step::ConnRate, outcomes) <= MAX_RATE_ATTEMPTS,
{
    let first = Negotiation::spec_begin(role);
    lemma_issued_within_allowance(first.next, step, outcomes);
    lemma_issued_within_allowance(first.next, Step::ConnRate, outcomes);
}

/// A step that is at its last request ends with the next completion,
/// accepted or refused, and hands over to the step that follows it.
proof fn lemma_last_request(n: Negotiation, counted: Step, outcomes: Seq<bool>)
    requires
        n.stage matches Stage::Requesting { step, attempt } && attempt == step.spec_limit(),
        outcomes.len() > 0,
    ensures
        n.stage matches Stage::Requesting { step, attempt } && match step.spec_follower(n.role) {
            Some(following) => {
                let entered = Negotiation {
                    role: n.role,
                    stage: Stage::Requesting { step: following, attempt: 1 },
                };
                &&& n.run(outcomes) == entered.run(outcomes.drop_first())
                &&& n.issued(counted, outcomes) == entered.issued(counted, outcomes.drop_first())
                    + if following == counted {
                    1nat
                } else {
                    0nat
                }
            },
            None => n.run(outcomes).finished() && n.issued(counted, outcomes) == 0,
        },
{
    let next = n.spec_advance(Event::Completed { ok: outcomes[0] }).next;
    if next.finished() {
        lemma_finished_is_final(next, counted, outcomes.drop_first());
    }
}

/// The central reaches the connection rate after six completions, whatever
/// they were, and has then asked for it once.
proof fn lemma_central_reaches_rate(outcomes: Seq<bool>)
    requires
        outcomes.len() >= 6,
    ensures
        Negotiation::spec_begin(Role::Central).next.run(outcomes.take(6)) == (Negotiation {
            role: Role::Central,
            stage: Stage::Requesting { step: Step::ConnRate, attempt: 1 },
        }),
        Negotiation::spec_begin(Role::Central).next.issued(Step::ConnRate, outcomes.take(6)) == 1,
{
    let role = Role::Central;
    let at = |step: Step| Negotiation { role, stage: Stage::Requesting { step, attempt: 1 } };
    let s0 = outcomes.take(6);
    let s1 = s0.drop_first();
    let s2 = s1.drop_first();
    let s3 = s2.drop_first();
    let s4 = s3.drop_first();
    let s5 = s4.drop_first();
    let s6 = s5.drop_first();
    lemma_last_request(at(Step::HostFeature), Step::ConnRate, s0);
    lemma_last_request(at(Step::Features), Step::ConnRate, s1);
    lemma_last_request(at(Step::Phy), Step::ConnRate, s2);
    lemma_last_request(at(Step::ConnParams), Step::ConnRate, s3);
    lemma_last_request(at(Step::FrameSpace), Step::ConnRate, s4);
    lemma_last_request(at(Step::MinInterval), Step::ConnRate, s5);
    assert(s6.len() == 0);
}

/// From the `attempt`-th request of the connection rate on, with every
/// request refused: the negotiation asks again until the limit is reached,
/// and finishes with the refusal of the last request, not before.
proof fn lemma_rate_refused_from(role: Role, attempt: u32, outcomes: Seq<bool>)
    requires
        1 <= attempt <= MAX_RATE_ATTEMPTS,
        outcomes.len() == MAX_RATE_ATTEMPTS - attempt + 1,
        forall|i: int| 0 <= i < outcomes.len() ==> !outcomes[i],
        Step::ConnRate.spec_follower(role) is None,
    ensures
        ({
            let n = Negotiation { role, stage: Stage::Requesting { step: Step::ConnRate, attempt } };
            &&& n.run(outcomes).finished()
            &&& !n.run(outcomes.drop_last()).finished()
            &&& n.issued(Step::ConnRate, outcomes) == MAX_RATE_ATTEMPTS - attempt
        }),
    decreases MAX_RATE_ATTEMPTS - attempt,
{
    let n = Negotiation { role, stage: Stage::Requesting { step: Step::ConnRate, attempt } };
    if attempt == MAX_RATE_ATTEMPTS {
        lemma_last_request(n, Step::ConnRate, outcomes);
        assert(outcomes.drop_last().len() == 0);
    } else {
        let rest = outcomes.drop_first();
        lemma_rate_refused_from(role, (attempt + 1) as u32, rest);
        assert(outcomes.drop_last().drop_first() == rest.drop_last());
        assert(outcomes.drop_last()[0] == outcomes[0]);
    }
}

/// When the first request for the connection rate is accepted, the central
/// asks for it exactly once, and its negotiation is finished with that
/// seventh completion.
pub proof fn lemma_rate_accepted_at_once(outcomes: Seq<bool>)
    requires
        outcomes.len() >= 7,
        outcomes[6],
    ensures
        Negotiation::tally(Role::Central, Step::ConnRate, outcomes) == 1,
        Negotiation::spec_begin(Role::Central).next.run(outcomes.take(7)).finished(),
{
    let start = Negotiation::spec_begin(Role::Central).next;
    let at_rate = Negotiation {
        role: Role::Central,
        stage: Stage::Requesting { step: Step::ConnRate, attempt: 1 },
    };
    lemma_central_reaches_rate(outcomes);
    let late = outcomes.skip(6);
    assert(outcomes == outcomes.take(6) + late);
    lemma_run_split(start, Step::ConnRate, outcomes.take(6), late);
    let done = at_rate.spec_advance(Event::Completed { ok: late[0] }).next;
    lemma_finished_is_final(done, Step::ConnRate, late.drop_first());
    let seventh = outcomes.take(7).skip(6);
    assert(outcomes.take(7) == outcomes.take(6) + seventh);
    lemma_run_split(start, Step::ConnRate, outcomes.take(6), seventh);
    assert(seventh[0] == outcomes[6]);
    lemma_finished_is_final(done, Step::ConnRate, seventh.drop_first());
}

/// When every request for the connection rate is refused, the central asks
/// for it exactly ten times: its negotiation is finished with the sixteenth
/// completion and not before.
pub proof fn lemma_rate_refused_throughout(outcomes: Seq<bool>)
    requires
        outcomes.len() >= 16,
        forall|i: int| 6 <= i < 16 ==> !outcomes[i],
    ensures
        Negotiation::tally(Role::Central, Step::ConnRate, outcomes) == MAX_RATE_ATTEMPTS,
        Negotiation::spec_begin(Role::Central).next.run(outcomes.take(16)).finished(),
        !Negotiation::spec_begin(Role::Central).next.run(outcomes.take(15)).finished(),
{
    let start = Negotiation::spec_begin(Role::Central).next;
    let at_rate = Negotiation {
        role: Role::Central,
        stage: Stage::Requesting { step: Step::ConnRate, attempt: 1 },
    };
    lemma_central_reaches_rate(outcomes);
    let early = outcomes.take(6);
    let refused = outcomes.subrange(6, 16);
    let late = outcomes.skip(16);
    lemma_rate_refused_from(Role::Central, 1, refused);

    assert(outcomes.take(16) == early + refused);
    lemma_run_split(start, Step::ConnRate, early, refused);
    assert(outcomes.take(15) == early + refused.drop_last());
    lemma_run_split(start, Step::ConnRate, early, refused.drop_last());

    assert(outcomes == outcomes.take(16) + late);
    lemma_run_split(start, Step::ConnRate, outcomes.take(16), late);
    lemma_finished_is_final(start.run(outcomes.take(16)), Step::ConnRate, late);
}

} // verus!
