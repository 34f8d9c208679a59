use ble_sci::link::{Action, Event, Notice, Role, Step};
use ble_sci::negotiation::{Negotiation, Stage, MAX_RATE_ATTEMPTS, RATE_RETRY_DELAY_MS};

const STEPS: [Step; 7] = [
    Step::HostFeature,
    Step::Features,
    Step::Phy,
    Step::ConnParams,
    Step::FrameSpace,
    Step::MinInterval,
    Step::ConnRate,
];

fn done(ok: bool) -> Event {
    Event::Completed { ok }
}

/// Runs a negotiation to its end. `outcome` tells how the request number
/// `n` (from 0) comes back. Returns the requests in their order, each with
/// the pause before it, and the notices.
fn negotiate(role: Role, outcome: impl Fn(usize, Step) -> bool) -> (Vec<(u64, Step)>, Vec<Notice>) {
    let first = Negotiation::begin(role);
    let mut requests = Vec::new();
    let mut notices = vec![first.notice];
    let mut state = first.next;
    let mut delay = first.delay_ms;
    let mut action = first.action;
    while !state.is_finished() {
        let step = match action {
            Action::Negotiate(step) => step,
            other => panic!("unexpected action {:?}", other),
        };
        requests.push((delay, step));
        assert!(requests.len() <= 16, "the negotiation does not end");
        let out = state.advance(done(outcome(requests.len() - 1, step)));
        notices.push(out.notice);
        state = out.next;
        delay = out.delay_ms;
        action = out.action;
    }
    assert_eq!(action, Action::Nothing);
    assert_eq!(delay, 0);
    (requests, notices)
}

#[test]
fn the_retry_policy_is_ten_attempts_two_hundred_milliseconds_apart() {
    assert_eq!(MAX_RATE_ATTEMPTS, 10);
    assert_eq!(RATE_RETRY_DELAY_MS, 200);
    assert_eq!(Step::ConnRate.limit(), 10);
    for step in &STEPS[..6] {
        assert_eq!(step.limit(), 1);
    }
}

#[test]
fn the_central_takes_the_seven_steps_in_their_order() {
    let mut step = Step::HostFeature;
    let mut order = vec![step];
    while let Some(next) = step.follower(Role::Central) {
        order.push(next);
        step = next;
    }
    assert_eq!(order, STEPS);
}

#[test]
fn the_peripheral_takes_the_first_step_only() {
    assert_eq!(Step::HostFeature.follower(Role::Peripheral), None);
    let (requests, notices) = negotiate(Role::Peripheral, |_, _| true);
    assert_eq!(requests, vec![(0, Step::HostFeature)]);
    assert_eq!(
        notices,
        vec![Notice::Connected, Notice::StepAccepted { step: Step::HostFeature, attempts: 1 }]
    );
}

#[test]
fn a_negotiation_begins_with_the_host_feature() {
    for role in [Role::Central, Role::Peripheral] {
        let first = Negotiation::begin(role);
        assert_eq!(
            first.next,
            Negotiation { role, stage: Stage::Requesting { step: Step::HostFeature, attempt: 1 } }
        );
        assert_eq!(first.action, Action::Negotiate(Step::HostFeature));
        assert_eq!(first.delay_ms, 0);
        assert_eq!(first.notice, Notice::Connected);
    }
}

#[test]
fn accepted_steps_follow_each_other_without_pause() {
    let (requests, notices) = negotiate(Role::Central, |_, _| true);
    let expected: Vec<(u64, Step)> = STEPS.iter().map(|s| (0, *s)).collect();
    assert_eq!(requests, expected);
    assert_eq!(notices.len(), 8);
    for (i, step) in STEPS.iter().enumerate() {
        assert_eq!(notices[i + 1], Notice::StepAccepted { step: *step, attempts: 1 });
    }
}

#[test]
fn the_rate_is_asked_for_once_when_it_is_accepted_at_once() {
    let (requests, notices) = negotiate(Role::Central, |_, step| step == Step::ConnRate);
    let rate: Vec<_> = requests.iter().filter(|(_, s)| *s == Step::ConnRate).collect();
    assert_eq!(rate, vec![&(0, Step::ConnRate)]);
    assert_eq!(requests.len(), 7);
    assert_eq!(
        notices.last(),
        Some(&Notice::StepAccepted { step: Step::ConnRate, attempts: 1 })
    );
}

#[test]
fn the_rate_is_given_up_after_ten_refusals() {
    let (requests, notices) = negotiate(Role::Central, |_, step| step != Step::ConnRate);
    assert_eq!(requests.len(), 16);
    let rate = &requests[6..];
    assert_eq!(rate[0], (0, Step::ConnRate));
    for attempt in &rate[1..] {
        assert_eq!(*attempt, (200, Step::ConnRate));
    }
    assert_eq!(rate.len(), 10);
    for attempt in 1..10u32 {
        assert_eq!(
            notices[6 + attempt as usize],
            Notice::StepRefused { step: Step::ConnRate, attempt, limit: 10 }
        );
    }
    assert_eq!(
        notices.last(),
        Some(&Notice::StepAbandoned { step: Step::ConnRate, attempts: 10 })
    );
}

#[test]
fn the_rate_stops_at_the_first_acceptance() {
    // Requests 6, 7 and 8 are the first three for the rate.
    let (requests, notices) = negotiate(Role::Central, |n, _| n == 8);
    assert_eq!(requests.len(), 9);
    assert_eq!(&requests[6..], &[(0, Step::ConnRate), (200, Step::ConnRate), (200, Step::ConnRate)]);
    assert_eq!(
        notices.last(),
        Some(&Notice::StepAccepted { step: Step::ConnRate, attempts: 3 })
    );
}

#[test]
fn the_tenth_attempt_may_still_be_accepted() {
    let (requests, notices) = negotiate(Role::Central, |n, _| n == 15);
    assert_eq!(requests.len(), 16);
    assert_eq!(
        notices.last(),
        Some(&Notice::StepAccepted { step: Step::ConnRate, attempts: 10 })
    );
}

#[test]
fn no_refusal_ends_the_negotiation_early() {
    let (requests, notices) = negotiate(Role::Central, |_, _| false);
    let steps: Vec<Step> = requests.iter().map(|(_, s)| *s).collect();
    assert_eq!(&steps[..6], &STEPS[..6]);
    assert_eq!(steps.len(), 16);
    for (i, step) in STEPS[..6].iter().enumerate() {
        assert_eq!(requests[i].0, 0);
        assert_eq!(notices[i + 1], Notice::StepAbandoned { step: *step, attempts: 1 });
    }
}

#[test]
fn a_refused_single_step_is_not_asked_again() {
    let at_phy =
        Negotiation { role: Role::Central, stage: Stage::Requesting { step: Step::Phy, attempt: 1 } };
    let out = at_phy.advance(done(false));
    assert_eq!(
        out.next,
        Negotiation {
            role: Role::Central,
            stage: Stage::Requesting { step: Step::ConnParams, attempt: 1 }
        }
    );
    assert_eq!(out.action, Action::Negotiate(Step::ConnParams));
    assert_eq!(out.delay_ms, 0);
    assert_eq!(out.notice, Notice::StepAbandoned { step: Step::Phy, attempts: 1 });
}

#[test]
fn a_negotiation_waits_for_completions_only() {
    let state = Negotiation {
        role: Role::Central,
        stage: Stage::Requesting { step: Step::ConnRate, attempt: 4 },
    };
    for event in [
        Event::Notified { at: 1 },
        Event::Written { at: 1 },
        Event::Disconnected,
        Event::Other,
    ] {
        let out = state.advance(event);
        assert_eq!(out.next, state);
        assert_eq!(out.action, Action::Nothing);
        assert_eq!(out.delay_ms, 0);
        assert_eq!(out.notice, Notice::Silent);
    }
}

#[test]
fn a_finished_negotiation_stays_finished() {
    let state = Negotiation { role: Role::Central, stage: Stage::Finished };
    assert!(state.is_finished());
    for event in [done(true), done(false), Event::Disconnected] {
        let out = state.advance(event);
        assert_eq!(out.next, state);
        assert_eq!(out.action, Action::Nothing);
        assert_eq!(out.notice, Notice::Silent);
    }
}
