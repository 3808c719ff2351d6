use std::time::Duration;

use duplo_train_controller::ble::{
    classify_attempt, command_outcome, connect_backoff_ms, is_duplo_train, link_lost_error,
    scan_time_left_ms, BleLink, CommandStart, PingAction, Step, ATTEMPT_WINDOW_MS,
    IDLE_DISCONNECT_MS, PING_INTERVAL_MS, SCAN_TIMEOUT_MS,
};
use duplo_train_controller::config::MotorConfig;
use duplo_train_controller::protocol::{
    battery_request, horn_command, led_color_command, motor_command, speedometer_subscribe,
    MANUFACTURER_ID, SERVICE_UUID,
};
use duplo_train_controller::types::{
    Command, ConnectionState, LedColor, StatusUpdate, TrainCommand,
};

fn ms(v: u64) -> Option<u128> {
    Some(Duration::from_millis(v).as_millis())
}

#[test]
fn ble_default_is_standby() {
    assert_eq!(ConnectionState::default(), ConnectionState::Standby);
}

#[test]
fn idle_disconnect_is_5_minutes() {
    assert_eq!(IDLE_DISCONNECT_MS, 300_000);
}

#[test]
fn ping_interval_is_10_seconds() {
    assert_eq!(PING_INTERVAL_MS, 10_000);
}

#[test]
fn scan_timeout_is_30_seconds() {
    assert_eq!(SCAN_TIMEOUT_MS, 30_000);
}

#[test]
fn first_attempt_is_1() {
    assert_eq!(classify_attempt(0, None), 1);
}

#[test]
fn second_attempt_within_window_is_2() {
    assert_eq!(classify_attempt(1, ms(5_000)), 2);
}

#[test]
fn third_attempt_within_window_is_3() {
    assert_eq!(classify_attempt(2, ms(5_000)), 3);
}

#[test]
fn attempts_cap_at_3() {
    assert_eq!(classify_attempt(3, ms(5_000)), 3);
    assert_eq!(classify_attempt(10, ms(5_000)), 3);
}

#[test]
fn attempt_after_window_expires_resets_to_1() {
    assert_eq!(classify_attempt(2, ms(15_000)), 1);
    assert_eq!(classify_attempt(3, ms(10_001)), 1);
}

#[test]
fn attempt_at_exactly_window_boundary_resets() {
    assert_eq!(classify_attempt(2, ms(10_000)), 1);
}

#[test]
fn attempt_just_under_window_increments() {
    assert_eq!(classify_attempt(2, ms(9_999)), 3);
}

#[test]
fn attempt_window_constant_is_10_seconds() {
    assert_eq!(ATTEMPT_WINDOW_MS, 10_000);
}

#[test]
fn attempts_sequence_for_ha_feedback() {
    let mut attempts = 0u8;
    attempts = classify_attempt(attempts, None);
    assert_eq!(attempts, 1);
    attempts = classify_attempt(attempts, ms(5_000));
    assert_eq!(attempts, 2);
    attempts = classify_attempt(attempts, ms(5_000));
    assert_eq!(attempts, 3);
}

#[test]
fn backoff_grows_with_attempts() {
    assert_eq!(connect_backoff_ms(1), 0);
    assert_eq!(connect_backoff_ms(2), 2000);
    assert_eq!(connect_backoff_ms(3), 8000);
    assert_eq!(connect_backoff_ms(0), 8000);
}

#[test]
fn scan_time_left() {
    assert_eq!(scan_time_left_ms(0), Some(30_000));
    assert_eq!(scan_time_left_ms(29_999), Some(1));
    assert_eq!(scan_time_left_ms(30_000), None);
}

#[test]
fn recognises_train_by_advertisement() {
    assert!(is_duplo_train(&[0x0001, MANUFACTURER_ID], &[]));
    assert!(is_duplo_train(&[], &[1, SERVICE_UUID]));
    assert!(!is_duplo_train(&[0x004C], &[7]));
    assert!(!is_duplo_train(&[], &[]));
    assert_eq!(MANUFACTURER_ID, 0x0397);
}

fn writes_of(steps: &[Step]) -> Vec<Vec<u8>> {
    steps
        .iter()
        .filter_map(|s| match s {
            Step::Write(p) | Step::TryWrite(p) => Some(p.clone()),
            _ => None,
        })
        .collect()
}

fn connected_link(now: u64) -> BleLink {
    let mut link = BleLink::new(now);
    let cfg = MotorConfig::default();
    match link.begin_command(Command::Train(TrainCommand::Forward), &cfg, now) {
        CommandStart::WakeUp { .. } => {}
        CommandStart::Execute(_) => panic!("a new link is not connected"),
    }
    let steps = link.finish_wake_up(Ok(()), now);
    assert_eq!(steps.len(), 4);
    link
}

#[test]
fn command_while_standby_wakes_the_train() {
    let mut link = BleLink::new(0);
    let cfg = MotorConfig::default();
    match link.begin_command(Command::Train(TrainCommand::Forward), &cfg, 1_000) {
        CommandStart::WakeUp { updates, backoff_ms } => {
            assert_eq!(backoff_ms, 0);
            assert_eq!(updates.len(), 2);
            assert!(matches!(updates[0], StatusUpdate::ConnectionState(ConnectionState::Connecting)));
            assert!(matches!(updates[1], StatusUpdate::Attempts(1)));
        }
        CommandStart::Execute(_) => panic!("expected a wake-up"),
    }
    assert_eq!(link.connection_state(), ConnectionState::Connecting);
    assert_eq!(link.attempts(), 1);

    let steps = link.finish_wake_up(Err("no train".to_string()), 2_000);
    assert_eq!(link.connection_state(), ConnectionState::Standby);
    assert_eq!(steps.len(), 2);
    assert!(matches!(&steps[0], Step::Notify(StatusUpdate::Error(e)) if e == "no train"));

    match link.begin_command(Command::Train(TrainCommand::Stop), &cfg, 6_000) {
        CommandStart::WakeUp { updates, backoff_ms } => {
            assert!(matches!(updates[1], StatusUpdate::Attempts(2)));
            assert_eq!(backoff_ms, 2000);
        }
        CommandStart::Execute(_) => panic!("expected a wake-up"),
    }
    link.finish_wake_up(Err("no train".to_string()), 7_000);
    match link.begin_command(Command::Train(TrainCommand::Stop), &cfg, 30_000) {
        CommandStart::WakeUp { updates, backoff_ms } => {
            assert!(matches!(updates[1], StatusUpdate::Attempts(1)));
            assert_eq!(backoff_ms, 0);
        }
        CommandStart::Execute(_) => panic!("expected a wake-up"),
    }
}

#[test]
fn successful_connect_resets_attempts_and_requests_battery() {
    let mut link = BleLink::new(0);
    let cfg = MotorConfig::default();
    link.begin_command(Command::Train(TrainCommand::Forward), &cfg, 0);
    let steps = link.finish_wake_up(Ok(()), 500);
    assert_eq!(link.connection_state(), ConnectionState::Connected);
    assert_eq!(link.attempts(), 0);
    assert!(matches!(steps[0], Step::Notify(StatusUpdate::ConnectionState(ConnectionState::Connected))));
    assert!(matches!(steps[1], Step::Notify(StatusUpdate::Attempts(0))));
    assert!(matches!(&steps[2], Step::Notify(StatusUpdate::State(s)) if s.status == ConnectionState::Connected && s.motor == Some(0)));
    assert!(matches!(&steps[3], Step::TryWrite(p) if *p == battery_request()));
}

#[test]
fn backward_plan_stops_honks_waits_then_reverses() {
    let mut link = connected_link(0);
    let cfg = MotorConfig::default();
    match link.begin_command(Command::Train(TrainCommand::Backward), &cfg, 100) {
        CommandStart::Execute(steps) => {
            assert_eq!(steps.len(), 6);
            assert!(matches!(&steps[0], Step::Write(p) if *p == motor_command(0)));
            assert!(matches!(&steps[1], Step::TryWrite(p) if *p == horn_command()));
            assert!(matches!(steps[2], Step::Wait(1200)));
            assert!(matches!(steps[3], Step::RequireLink(StatusUpdate::Motor(0))));
            assert!(matches!(&steps[4], Step::Write(p) if *p == motor_command(-50)));
            assert!(matches!(steps[5], Step::Notify(StatusUpdate::Motor(-50))));
        }
        CommandStart::WakeUp { .. } => panic!("expected execution"),
    }
}

#[test]
fn boost_arms_timer_and_stop_cancels_it() {
    let mut link = connected_link(0);
    let mut cfg = MotorConfig::default();
    cfg.boost_duration = Some(10);
    match link.begin_command(Command::Train(TrainCommand::Boost), &cfg, 1_000) {
        CommandStart::Execute(steps) => {
            assert!(matches!(&steps[0], Step::Write(p) if *p == motor_command(75)));
            assert!(matches!(steps[2], Step::ArmBoost(Some(10))));
        }
        CommandStart::WakeUp { .. } => panic!("expected execution"),
    }
    link.arm_boost(Some(10), 1_000);
    assert_eq!(link.boost_deadline_ms(), Some(11_000));
    link.begin_command(Command::Led(LedColor::Red), &cfg, 2_000);
    assert_eq!(link.boost_deadline_ms(), Some(11_000));
    link.begin_command(Command::Train(TrainCommand::Stop), &cfg, 3_000);
    assert_eq!(link.boost_deadline_ms(), None);

    link.arm_boost(Some(u64::MAX), 5);
    assert_eq!(link.boost_deadline_ms(), Some(u64::MAX));
    let steps = link.boost_expired(&cfg);
    assert_eq!(link.boost_deadline_ms(), None);
    assert!(matches!(&steps[0], Step::Write(p) if *p == motor_command(50)));
    assert!(matches!(steps[1], Step::Notify(StatusUpdate::Motor(50))));
}

#[test]
fn led_plan_writes_color_frame() {
    let mut link = connected_link(0);
    let cfg = MotorConfig::default();
    match link.begin_command(Command::Led(LedColor::Red), &cfg, 1) {
        CommandStart::Execute(steps) => {
            assert_eq!(writes_of(&steps), vec![led_color_command(0x0C)]);
            assert!(matches!(steps[1], Step::Notify(StatusUpdate::Led(LedColor::Red))));
        }
        CommandStart::WakeUp { .. } => panic!("expected execution"),
    }
}

#[test]
fn keep_alive_and_idle_timeout() {
    let mut link = connected_link(0);
    assert!(matches!(link.ping_tick(10_000, true), PingAction::Idle));
    match link.ping_tick(10_001, true) {
        PingAction::KeepAlive(p) => assert_eq!(p, battery_request()),
        _ => panic!("expected a keep-alive"),
    }
    assert!(matches!(link.ping_tick(15_000, true), PingAction::Idle));
    assert!(matches!(link.ping_tick(15_000, false), PingAction::Disconnect));
    assert!(!link.idle_timed_out(300_000));
    assert!(link.idle_timed_out(300_001));

    let steps = link.handle_disconnect();
    assert_eq!(link.connection_state(), ConnectionState::Standby);
    assert_eq!(steps.len(), 3);
    assert!(matches!(link.ping_tick(400_000, true), PingAction::Idle));
    assert!(!link.idle_timed_out(900_000));
}

#[test]
fn notifications_report_battery_only_when_still_and_changed() {
    let mut link = connected_link(0);
    let steps = link.handle_notification(&[0x06, 0x00, 0x01, 0x06, 0x05, 80]);
    assert_eq!(steps.len(), 1);
    assert!(matches!(steps[0], Step::Notify(StatusUpdate::Battery(80))));
    let steps = link.handle_notification(&[0x06, 0x00, 0x01, 0x06, 0x05, 80]);
    assert!(steps.is_empty());
    let steps = link.handle_notification(&[0x06, 0x00, 0x01, 0x06, 0x05, 150]);
    assert!(steps.is_empty());

    let steps = link.handle_notification(&[0x06, 0x00, 0x45, 0x36, 0x2A, 0x00]);
    assert!(matches!(steps[0], Step::Notify(StatusUpdate::Speed(42))));
    let steps = link.handle_notification(&[0x06, 0x00, 0x01, 0x06, 0x05, 70]);
    assert!(steps.is_empty());
    let steps = link.handle_notification(&[0x06, 0x00, 0x45, 0x36, 0x00, 0x00, 0x06, 0x00, 0x01, 0x06, 0x05, 70]);
    assert_eq!(steps.len(), 2);
    assert!(matches!(steps[0], Step::Notify(StatusUpdate::Speed(0))));
    assert!(matches!(steps[1], Step::Notify(StatusUpdate::Battery(70))));
}

#[test]
fn speedometer_attach_subscribes_and_fragments_reassemble() {
    let mut link = connected_link(0);
    let steps = link.handle_notification(&[0x07, 0x00, 0x04, 0x10]);
    assert!(steps.is_empty());
    let steps = link.handle_notification(&[0x02, 0x2C, 0x00]);
    assert_eq!(writes_of(&steps), vec![speedometer_subscribe(0x10, 1)]);
    let steps = link.handle_notification(&[0x05, 0x00, 0x04, 0x10, 0x00]);
    assert!(steps.is_empty());
}

#[test]
fn outcome_of_commands() {
    let ok = command_outcome(Command::Train(TrainCommand::Stop), Ok(()));
    assert!(matches!(ok.executed, Some(ref e) if e.cmd == TrainCommand::Stop));
    assert!(ok.reports.is_empty());
    assert!(!ok.check_link);
    let led = command_outcome(Command::Led(LedColor::Red), Ok(()));
    assert!(led.executed.is_none());
    let err = command_outcome(Command::Train(TrainCommand::Forward), Err("boom".to_string()));
    assert!(err.executed.is_none());
    assert!(err.check_link);
    assert!(matches!(&err.reports[0], StatusUpdate::Error(e) if e == "boom"));
    assert_eq!(link_lost_error(), "Connection lost during backward sequence");
}

#[test]
fn attempt_count_saturates_at_any_previous_count() {
    assert_eq!(classify_attempt(255, ms(5_000)), 3);
    assert_eq!(classify_attempt(254, ms(0)), 3);
    assert_eq!(classify_attempt(255, ms(10_000)), 1);
    assert_eq!(classify_attempt(255, None), 1);
}
