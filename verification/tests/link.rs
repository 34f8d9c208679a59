use ble_sci::link::{EndCause, Level, Notice, Role, Step};

#[test]
fn informational_and_louder_levels_reach_the_log() {
    assert!(Level::Error.enabled());
    assert!(Level::Warn.enabled());
    assert!(Level::Info.enabled());
    assert!(!Level::Debug.enabled());
    assert!(!Level::Trace.enabled());
}

#[test]
fn failures_are_warnings() {
    assert_eq!(Notice::AdvertiseFailed.level(), Level::Warn);
    assert_eq!(Notice::ConnectFailed.level(), Level::Warn);
    assert_eq!(
        Notice::StepRefused { step: Step::ConnRate, attempt: 3, limit: 10 }.level(),
        Level::Warn
    );
    assert_eq!(Notice::StepAbandoned { step: Step::Phy, attempts: 1 }.level(), Level::Warn);
    assert_eq!(Notice::ExchangeEnded(EndCause::WriteFailed).level(), Level::Warn);
    assert_eq!(Notice::ExchangeEnded(EndCause::SubscribeFailed).level(), Level::Warn);
    assert_eq!(Notice::ExchangeEnded(EndCause::ClientFailed).level(), Level::Warn);
}

#[test]
fn a_refused_store_is_an_error() {
    assert_eq!(Notice::ExchangeEnded(EndCause::StoreFailed).level(), Level::Error);
}

#[test]
fn progress_is_informational() {
    assert_eq!(Notice::Silent.level(), Level::Info);
    assert_eq!(Notice::Started.level(), Level::Info);
    assert_eq!(Notice::Connected.level(), Level::Info);
    assert_eq!(Notice::Subscribed.level(), Level::Info);
    assert_eq!(Notice::StepAccepted { step: Step::Phy, attempts: 1 }.level(), Level::Info);
    assert_eq!(Notice::Telemetry { cycle: 100, elapsed_us: 4000 }.level(), Level::Info);
    assert_eq!(Notice::ExchangeEnded(EndCause::Disconnected).level(), Level::Info);
}

#[test]
fn a_role_is_one_of_the_two_and_not_the_other() {
    for role in [Role::Peripheral, Role::Central] {
        assert_ne!(role.is_peripheral(), role.is_central());
    }
    assert!(Role::Peripheral.is_peripheral());
    assert!(Role::Central.is_central());
}
