use esp_wmata_pids::{backoff_delay, Command, ConnectionState, RadioEvent, Step, Supervisor};

fn step(delay_ms: u32, command: Command) -> Step {
    Step { delay_ms, command }
}

#[test]
fn backoff_values() {
    let expected = [0, 0, 0, 500, 1000, 2000, 4000, 8000, 10000, 10000, 10000];
    for (f, want) in expected.iter().enumerate() {
        assert_eq!(backoff_delay(f as u32), *want, "failures {f}");
    }
    assert_eq!(backoff_delay(u32::MAX), 10000);
}

#[test]
fn backoff_is_monotone_and_capped() {
    let mut prev = 0;
    for f in 0..200u32 {
        let d = backoff_delay(f);
        assert!(d >= prev);
        assert!(d <= 10000);
        prev = d;
    }
}

#[test]
fn always_succeeding_radio_connects() {
    let mut sup = Supervisor::new(vec![]);
    assert_eq!(sup.state(), ConnectionState::Stopped);
    assert_eq!(sup.next_step(), step(0, Command::Start));
    sup.on_event(RadioEvent::Started);
    assert_eq!(sup.state(), ConnectionState::StartedDisconnected);
    assert_eq!(sup.next_step(), step(0, Command::Connect));
    assert_eq!(sup.state(), ConnectionState::Connecting);
    sup.on_event(RadioEvent::Connected);
    assert!(sup.is_connected());
    assert_eq!(sup.failures(), 0);
    assert_eq!(sup.next_step(), step(0, Command::WaitForDisconnect));
}

#[test]
fn success_resets_failures_and_disconnect_is_first_failure() {
    let mut sup = Supervisor::new(vec![]);
    sup.next_step();
    sup.on_event(RadioEvent::Started);
    for _ in 0..5 {
        assert_eq!(sup.next_step().command, Command::Connect);
        sup.on_event(RadioEvent::ConnectFailed { reason: 201 });
    }
    assert_eq!(sup.failures(), 5);
    assert_eq!(sup.next_step(), step(2000, Command::Connect));
    sup.on_event(RadioEvent::Connected);
    assert_eq!(sup.failures(), 0);
    sup.next_step();
    sup.on_event(RadioEvent::Disconnected { reason: 8 });
    assert_eq!(sup.failures(), 1);
    assert_eq!(sup.state(), ConnectionState::StartedDisconnected);
    assert_eq!(sup.next_step(), step(0, Command::Connect));
}

#[test]
fn failures_drive_the_delay() {
    let mut sup = Supervisor::new(vec![]);
    sup.next_step();
    sup.on_event(RadioEvent::Started);
    let delays = [0, 0, 0, 500, 1000, 2000, 4000, 8000, 10000, 10000];
    for want in delays {
        assert_eq!(sup.next_step(), step(want, Command::Connect));
        sup.on_event(RadioEvent::ConnectFailed { reason: 2 });
    }
}

#[test]
fn start_failure_is_retried_after_backoff() {
    let mut sup = Supervisor::new(vec![]);
    for f in 0..4u32 {
        assert_eq!(sup.next_step(), step(backoff_delay(f), Command::Start));
        sup.on_event(RadioEvent::StartFailed);
        assert_eq!(sup.state(), ConnectionState::Stopped);
    }
    assert_eq!(sup.next_step(), step(1000, Command::Start));
    sup.on_event(RadioEvent::Started);
    assert_eq!(sup.state(), ConnectionState::StartedDisconnected);
}

#[test]
fn unrecoverable_disconnect_forces_reset_and_restart() {
    let mut sup = Supervisor::new(vec![15, 205]);
    assert!(sup.is_unrecoverable(205));
    assert!(!sup.is_unrecoverable(8));
    sup.next_step();
    sup.on_event(RadioEvent::Started);
    sup.next_step();
    sup.on_event(RadioEvent::ConnectFailed { reason: 2 });
    sup.next_step();
    sup.on_event(RadioEvent::Connected);
    sup.next_step();
    sup.on_event(RadioEvent::Disconnected { reason: 205 });
    assert_eq!(sup.state(), ConnectionState::Stopped);
    assert_eq!(sup.failures(), 0);
    assert_eq!(sup.next_step(), step(0, Command::Reset));
    // Until the reset is done, a start report changes nothing.
    sup.on_event(RadioEvent::Started);
    assert_eq!(sup.next_step(), step(0, Command::Reset));
    sup.on_event(RadioEvent::ResetDone);
    assert_eq!(sup.next_step(), step(0, Command::Start));
    sup.on_event(RadioEvent::Started);
    assert_eq!(sup.next_step(), step(0, Command::Connect));
    sup.on_event(RadioEvent::Connected);
    assert!(sup.is_connected());
}

#[test]
fn unrecoverable_connect_failure_keeps_failure_count() {
    let mut sup = Supervisor::new(vec![15]);
    sup.next_step();
    sup.on_event(RadioEvent::Started);
    for _ in 0..4 {
        sup.next_step();
        sup.on_event(RadioEvent::ConnectFailed { reason: 3 });
    }
    sup.next_step();
    sup.on_event(RadioEvent::ConnectFailed { reason: 15 });
    assert_eq!(sup.failures(), 4);
    assert_eq!(sup.next_step(), step(0, Command::Reset));
    sup.on_event(RadioEvent::ResetDone);
    assert_eq!(sup.next_step(), step(1000, Command::Start));
}

#[test]
fn out_of_place_events_are_ignored() {
    let mut sup = Supervisor::new(vec![]);
    sup.on_event(RadioEvent::Connected);
    assert_eq!(sup.state(), ConnectionState::Stopped);
    sup.on_event(RadioEvent::Disconnected { reason: 8 });
    assert_eq!(sup.state(), ConnectionState::Stopped);
    assert_eq!(sup.failures(), 0);
    sup.on_event(RadioEvent::Started);
    sup.on_event(RadioEvent::ConnectFailed { reason: 8 });
    assert_eq!(sup.state(), ConnectionState::StartedDisconnected);
    assert_eq!(sup.failures(), 0);
}
