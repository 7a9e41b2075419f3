//! Tests of the connectivity machine and the supervisor loop.
use telemetry_node::config::Config;
use telemetry_node::connectivity::{link_step, ConnectionState, LinkEvent};
use telemetry_node::supervisor::{publish_quality, Action, DeliveryQuality, Event, SupervisorLoop};

fn test_config(window_size: u64, smoothing_num: u64, smoothing_den: u64) -> Config {
    Config {
        wifi_ssid: String::from("lab-net"),
        wifi_psk: String::from("test-psk"),
        mqtt_url: String::from("mqtt://broker.local:1883"),
        mqtt_topic: String::from("node/amplitude"),
        window_size,
        smoothing_num,
        smoothing_den,
    }
}

/// Drives a fresh supervisor through its whole startup, checking each
/// prescribed action on the way, and leaves it running.
fn started(config: Config) -> SupervisorLoop {
    let mut sup = SupervisorLoop::new(config);
    assert!(matches!(sup.step(Event::Start), Action::ConnectNetwork));
    assert!(matches!(sup.step(Event::NetworkUp), Action::StartPublisher));
    assert!(matches!(sup.step(Event::PublisherReady), Action::StartSampler));
    assert!(matches!(sup.step(Event::SamplerStarted), Action::Poll));
    sup
}

#[test]
fn config_validity() {
    assert!(test_config(4, 1, 20).valid());
    assert!(test_config(1, 1, 1).valid());
    assert!(test_config(0x1000_0000, 1, 20).valid(), "the largest window is accepted");
    assert!(!test_config(0x1000_0001, 1, 20).valid(), "an oversized window is rejected");
    assert!(!test_config(0, 1, 20).valid(), "an empty window is rejected");
    assert!(!test_config(4, 0, 20).valid(), "a zero factor is rejected");
    assert!(!test_config(4, 21, 20).valid(), "a factor above one is rejected");
}

#[test]
fn link_happy_path() {
    let (s, fatal) = link_step(ConnectionState::Disconnected, LinkEvent::AttemptStarted);
    assert_eq!(s, ConnectionState::Connecting);
    assert!(!fatal);
    let (s, fatal) = link_step(s, LinkEvent::LinkEstablished);
    assert_eq!(s, ConnectionState::Connected);
    assert!(!fatal);
    // A later link loss is observed, not acted upon.
    let (s, fatal) = link_step(s, LinkEvent::LinkLost);
    assert_eq!(s, ConnectionState::Disconnected);
    assert!(!fatal);
}

#[test]
fn link_failure_is_fatal_and_terminal() {
    let (s, fatal) = link_step(ConnectionState::Connecting, LinkEvent::AttemptFailed);
    assert_eq!(s, ConnectionState::Failed);
    assert!(fatal, "a failed attempt demands the recovery action");
    for e in [
        LinkEvent::AttemptStarted,
        LinkEvent::LinkEstablished,
        LinkEvent::AttemptFailed,
        LinkEvent::LinkLost,
    ] {
        let (s2, fatal2) = link_step(ConnectionState::Failed, e);
        assert_eq!(s2, ConnectionState::Failed);
        assert!(!fatal2, "the recovery action is demanded only once");
    }
}

#[test]
fn startup_publishes_first_window() {
    let mut sup = started(test_config(4, 1, 1));
    let act = sup.step(Event::SamplesRead(vec![
        1_000_000, 2_000_000, 3_000_000, 4_000_000,
    ]));
    match act {
        Action::Publish(payload) => assert_eq!(payload, "2.5"),
        other => panic!("expected a publish, got {:?}", other),
    }
    // After the acknowledgement the cycle goes on, and the next window is
    // unaffected by the first.
    assert!(matches!(sup.step(Event::PublishAcked), Action::Poll));
    let act = sup.step(Event::SamplesRead(vec![
        10_000_000, 10_000_000, 10_000_000, 10_000_000,
    ]));
    match act {
        Action::Publish(payload) => assert_eq!(payload, "10"),
        other => panic!("expected a publish, got {:?}", other),
    }
}

#[test]
fn smoothing_shows_in_payload() {
    // Window of one sample, factor one half: the second publish blends the
    // two readings.
    let mut sup = started(test_config(1, 1, 2));
    match sup.step(Event::SamplesRead(vec![2_000_000])) {
        Action::Publish(payload) => assert_eq!(payload, "2"),
        other => panic!("expected a publish, got {:?}", other),
    }
    assert!(matches!(sup.step(Event::PublishAcked), Action::Poll));
    match sup.step(Event::SamplesRead(vec![3_000_000])) {
        Action::Publish(payload) => assert_eq!(payload, "2.5"),
        other => panic!("expected a publish, got {:?}", other),
    }
}

#[test]
fn incomplete_window_keeps_polling() {
    let mut sup = started(test_config(4, 1, 20));
    assert!(matches!(
        sup.step(Event::SamplesRead(vec![1_000_000, 2_000_000])),
        Action::Poll
    ));
    assert!(matches!(sup.step(Event::SamplesRead(vec![3_000_000])), Action::Poll));
    // The fourth sample completes the window across several polls.
    match sup.step(Event::SamplesRead(vec![4_000_000])) {
        Action::Publish(payload) => assert_eq!(payload, "2.5"),
        other => panic!("expected a publish, got {:?}", other),
    }
}

#[test]
fn transient_path_continuation() {
    let mut sup = started(test_config(2, 1, 1));
    // A genuine poll error: the cycle is skipped, nothing is lost.
    assert!(matches!(sup.step(Event::PollFailed), Action::Poll));
    // An empty poll: not an error either.
    assert!(matches!(sup.step(Event::SamplesRead(vec![])), Action::Poll));
    // The window accumulated so far is still intact afterwards.
    assert!(matches!(sup.step(Event::SamplesRead(vec![4_000_000])), Action::Poll));
    assert!(matches!(sup.step(Event::PollFailed), Action::Poll));
    match sup.step(Event::SamplesRead(vec![8_000_000])) {
        Action::Publish(payload) => assert_eq!(payload, "6"),
        other => panic!("expected a publish, got {:?}", other),
    }
}

#[test]
fn fatal_path_single_action() {
    let mut sup = started(test_config(1, 1, 1));
    assert!(matches!(
        sup.step(Event::SamplesRead(vec![1_000_000])),
        Action::Publish(_)
    ));
    let mut restarts = 0;
    if matches!(sup.step(Event::PublishFailed), Action::Restart) {
        restarts += 1;
    }
    // No further cycle runs and no second restart is requested.
    for e in [
        Event::PollFailed,
        Event::SamplesRead(vec![2_000_000]),
        Event::PublishFailed,
        Event::BrokerDisconnected,
        Event::Start,
    ] {
        let act = sup.step(e);
        assert!(matches!(act, Action::Idle), "halted loop acted: {:?}", act);
    }
    assert_eq!(restarts, 1);
}

#[test]
fn startup_failures_restart() {
    let mut sup = SupervisorLoop::new(test_config(4, 1, 20));
    assert!(matches!(sup.step(Event::Start), Action::ConnectNetwork));
    assert!(matches!(sup.step(Event::NetworkFailed), Action::Restart));
    assert!(matches!(sup.step(Event::Start), Action::Idle));

    let mut sup = SupervisorLoop::new(test_config(4, 1, 20));
    assert!(matches!(sup.step(Event::Start), Action::ConnectNetwork));
    assert!(matches!(sup.step(Event::NetworkUp), Action::StartPublisher));
    assert!(matches!(sup.step(Event::PublisherFailed), Action::Restart));

    let mut sup = SupervisorLoop::new(test_config(4, 1, 20));
    assert!(matches!(sup.step(Event::Start), Action::ConnectNetwork));
    assert!(matches!(sup.step(Event::NetworkUp), Action::StartPublisher));
    assert!(matches!(sup.step(Event::PublisherReady), Action::StartSampler));
    assert!(matches!(sup.step(Event::SamplerFailed), Action::Restart));
}

#[test]
fn broker_disconnect_restarts() {
    let mut sup = started(test_config(4, 1, 20));
    assert!(matches!(sup.step(Event::BrokerDisconnected), Action::Restart));
    assert!(matches!(sup.step(Event::PollFailed), Action::Idle));
}

#[test]
fn publishes_at_least_once() {
    assert_eq!(publish_quality(), DeliveryQuality::AtLeastOnce);
}

#[test]
fn config_is_kept() {
    let sup = SupervisorLoop::new(test_config(4, 1, 20));
    assert_eq!(sup.config().mqtt_topic, "node/amplitude");
    assert_eq!(sup.config().window_size, 4);
}
