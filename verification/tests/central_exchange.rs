use ble_sci::central_exchange::{CentralExchange, DISCOVERY_POLL_MS, TRIGGER};
use ble_sci::link::{Action, EndCause, Event, Notice};

fn done(ok: bool) -> Event {
    Event::Completed { ok }
}

#[test]
fn the_trigger_is_one_and_discovery_polls_every_half_second() {
    assert_eq!(TRIGGER, 0x01);
    assert_eq!(DISCOVERY_POLL_MS, 500);
}

#[test]
fn the_exchange_starts_by_opening_the_client() {
    let first = CentralExchange::begin();
    assert_eq!(first.next, CentralExchange::Opening);
    assert_eq!(first.action, Action::OpenClient);
    assert_eq!(first.delay_ms, 0);
}

#[test]
fn discovery_leads_to_the_subscription() {
    let out = CentralExchange::Opening.step(done(true));
    assert_eq!((out.next, out.action, out.delay_ms), (CentralExchange::DiscoverService, Action::FindService, 0));
    let out = out.next.step(done(true));
    assert_eq!((out.next, out.action, out.delay_ms), (CentralExchange::DiscoverCounter, Action::FindCounter, 0));
    let out = out.next.step(done(true));
    assert_eq!(
        (out.next, out.action, out.delay_ms),
        (CentralExchange::DiscoverCommand { counter_found: true }, Action::FindCommand, 0)
    );
    let out = out.next.step(done(true));
    assert_eq!((out.next, out.action, out.delay_ms), (CentralExchange::Subscribing, Action::Subscribe, 0));
    let out = out.next.step(done(true));
    assert_eq!(out.next, CentralExchange::Subscribed);
    assert_eq!(out.action, Action::WriteTrigger { byte: 0x01 });
    assert_eq!(out.notice, Notice::Subscribed);
    let out = out.next.step(done(true));
    assert_eq!(out.next, CentralExchange::AwaitNotify { cycles: 0, last_tick: None });
    assert_eq!(out.action, Action::AwaitNotification);
    assert_eq!(out.notice, Notice::Silent);
}

#[test]
fn a_service_that_is_not_there_yet_is_polled_for() {
    let mut state = CentralExchange::DiscoverService;
    for _ in 0..50 {
        let out = state.step(done(false));
        assert_eq!(out.next, CentralExchange::DiscoverService);
        assert_eq!(out.action, Action::FindService);
        assert_eq!(out.delay_ms, 500);
        assert_eq!(out.notice, Notice::Silent);
        state = out.next;
    }
}

#[test]
fn both_attributes_are_looked_up_before_discovery_is_judged() {
    // The counter is missing: the command is looked up all the same, and
    // the round starts over after the pause.
    let out = CentralExchange::DiscoverCounter.step(done(false));
    assert_eq!(out.next, CentralExchange::DiscoverCommand { counter_found: false });
    assert_eq!(out.action, Action::FindCommand);
    assert_eq!(out.delay_ms, 0);
    let out = out.next.step(done(true));
    assert_eq!((out.next, out.action, out.delay_ms), (CentralExchange::DiscoverService, Action::FindService, 500));
    // The command is missing.
    let out = CentralExchange::DiscoverCommand { counter_found: true }.step(done(false));
    assert_eq!((out.next, out.action, out.delay_ms), (CentralExchange::DiscoverService, Action::FindService, 500));
    // Both are missing.
    let out = CentralExchange::DiscoverCommand { counter_found: false }.step(done(false));
    assert_eq!((out.next, out.action, out.delay_ms), (CentralExchange::DiscoverService, Action::FindService, 500));
}

#[test]
fn a_client_that_cannot_be_had_ends_the_exchange() {
    let out = CentralExchange::Opening.step(done(false));
    assert_eq!(out.next, CentralExchange::Terminated(EndCause::ClientFailed));
    assert_eq!(out.action, Action::Nothing);
    assert_eq!(out.notice, Notice::ExchangeEnded(EndCause::ClientFailed));
}

#[test]
fn a_refused_subscription_ends_the_exchange() {
    let out = CentralExchange::Subscribing.step(done(false));
    assert_eq!(out.next, CentralExchange::Terminated(EndCause::SubscribeFailed));
    assert_eq!(out.action, Action::Nothing);
    assert_eq!(out.notice, Notice::ExchangeEnded(EndCause::SubscribeFailed));
    assert_eq!(out.next.ended(), Some(EndCause::SubscribeFailed));
}

#[test]
fn a_failed_first_write_ends_the_exchange() {
    let out = CentralExchange::Subscribed.step(done(false));
    assert_eq!(out.next, CentralExchange::Terminated(EndCause::WriteFailed));
    assert_eq!(out.action, Action::Nothing);
    assert_eq!(out.delay_ms, 0);
    assert_eq!(out.notice, Notice::ExchangeEnded(EndCause::WriteFailed));
    assert_eq!(out.next.ended(), Some(EndCause::WriteFailed));
}

#[test]
fn nothing_is_written_or_awaited_after_a_failed_write() {
    for state in [
        CentralExchange::Subscribed,
        CentralExchange::WriteTrigger { cycles: 3, last_tick: Some(8) },
    ] {
        let mut state = state.step(done(false)).next;
        for event in [done(true), Event::Notified { at: 9 }, done(false), Event::Other] {
            let out = state.step(event);
            assert_eq!(out.action, Action::Nothing);
            assert_eq!(out.notice, Notice::Silent);
            state = out.next;
        }
        assert_eq!(state, CentralExchange::Terminated(EndCause::WriteFailed));
    }
}

#[test]
fn every_notification_is_answered_by_one_write() {
    let state = CentralExchange::AwaitNotify { cycles: 5, last_tick: Some(100) };
    let out = state.step(Event::Notified { at: 2_100 });
    assert_eq!(out.next, CentralExchange::WriteTrigger { cycles: 6, last_tick: Some(2_100) });
    assert_eq!(out.action, Action::WriteTrigger { byte: 0x01 });
    assert_eq!(out.notice, Notice::Silent);
    let out = out.next.step(done(true));
    assert_eq!(out.next, CentralExchange::AwaitNotify { cycles: 6, last_tick: Some(2_100) });
    assert_eq!(out.action, Action::AwaitNotification);
}

#[test]
fn a_failed_write_ends_the_exchange() {
    let state = CentralExchange::WriteTrigger { cycles: 6, last_tick: Some(2_100) };
    let out = state.step(done(false));
    assert_eq!(out.next, CentralExchange::Terminated(EndCause::WriteFailed));
    assert_eq!(out.action, Action::Nothing);
    assert_eq!(out.delay_ms, 0);
    assert_eq!(out.notice, Notice::ExchangeEnded(EndCause::WriteFailed));
}

#[test]
fn the_cycle_count_of_the_central_wraps() {
    let state = CentralExchange::AwaitNotify { cycles: u32::MAX, last_tick: Some(1) };
    let out = state.step(Event::Notified { at: 2 });
    assert_eq!(out.next, CentralExchange::WriteTrigger { cycles: 0, last_tick: Some(2) });
}

#[test]
fn the_central_reports_every_hundredth_notification() {
    let mut state = CentralExchange::AwaitNotify { cycles: 0, last_tick: None };
    let mut reports = Vec::new();
    for n in 0..250u64 {
        let out = state.step(Event::Notified { at: 4_000 * n });
        if out.notice != Notice::Silent {
            reports.push(out.notice);
        }
        state = out.next.step(done(true)).next;
    }
    assert_eq!(
        reports,
        vec![
            Notice::Telemetry { cycle: 100, elapsed_us: 4_000 },
            Notice::Telemetry { cycle: 200, elapsed_us: 4_000 },
        ]
    );
}

#[test]
fn a_second_notification_does_not_cause_a_second_write() {
    let state = CentralExchange::AwaitNotify { cycles: 0, last_tick: None };
    let out = state.step(Event::Notified { at: 1 });
    assert_eq!(out.action, Action::WriteTrigger { byte: 1 });
    let again = out.next.step(Event::Notified { at: 2 });
    assert_eq!(again.next, out.next);
    assert_eq!(again.action, Action::Nothing);
    assert_eq!(again.notice, Notice::Silent);
}

#[test]
fn events_that_answer_nothing_change_nothing_at_the_central() {
    let cases = [
        (CentralExchange::Opening, Event::Notified { at: 3 }),
        (CentralExchange::DiscoverService, Event::Disconnected),
        (CentralExchange::DiscoverCounter, Event::Other),
        (CentralExchange::DiscoverCommand { counter_found: true }, Event::Written { at: 3 }),
        (CentralExchange::Subscribing, Event::Notified { at: 3 }),
        (CentralExchange::Subscribed, Event::Notified { at: 3 }),
        (CentralExchange::AwaitNotify { cycles: 2, last_tick: None }, done(true)),
        (CentralExchange::AwaitNotify { cycles: 2, last_tick: None }, done(false)),
        (CentralExchange::AwaitNotify { cycles: 2, last_tick: None }, Event::Disconnected),
        (CentralExchange::Terminated(EndCause::WriteFailed), done(true)),
        (CentralExchange::Terminated(EndCause::WriteFailed), Event::Notified { at: 3 }),
    ];
    for (state, event) in cases {
        let out = state.step(event);
        assert_eq!(out.next, state);
        assert_eq!(out.action, Action::Nothing);
        assert_eq!(out.delay_ms, 0);
        assert_eq!(out.notice, Notice::Silent);
    }
}
