//! Tests of the peripheral rules: sample averaging, beacon frames, haptic
//! commands, motor decisions, LED colors, battery readings and the console
//! model.

use harmoneyes::battery::BatteryCharge;
use harmoneyes::beacon::build_beacon_payload;
use harmoneyes::beacon::build_keep_alive_frame;
use harmoneyes::beacon::parse_beacon_frame;
use harmoneyes::color::wheel;
use harmoneyes::color::Rgb;
use harmoneyes::console::is_controller_port;
use harmoneyes::console::tab_left;
use harmoneyes::console::tab_right;
use harmoneyes::console::DeviceTab;
use harmoneyes::console::OverviewTab;
use harmoneyes::coord::random_timeout_offset;
use harmoneyes::coord::DistanceAverager;
use harmoneyes::haptics::build_indicator_command;
use harmoneyes::haptics::motor_step;
use harmoneyes::haptics::parse_motor_command;
use harmoneyes::haptics::MotorAction;
use harmoneyes::haptics::MotorChannel;
use harmoneyes::haptics::MotorEvent;
use harmoneyes::haptics::MotorState;
use harmoneyes::rng::SoftdeviceRng;

#[test]
fn averager_reports_every_full_window() {
    let mut avg = DistanceAverager::new();
    for d in [10u64, 20, 30, 40, 50] {
        assert_eq!(avg.observe(d), None, "window still filling");
    }
    // The sixth sample flushes the window and is itself dropped.
    assert_eq!(avg.observe(999), Some(30));
    // The window restarts empty.
    for d in [1u64, 1, 1, 1, 2] {
        assert_eq!(avg.observe(d), None);
    }
    assert_eq!(avg.observe(0), Some(1), "integer mean of 6 / 5");
}

#[test]
fn averager_handles_equal_and_extreme_samples() {
    let mut avg = DistanceAverager::new();
    for _ in 0..5 {
        assert_eq!(avg.observe(u64::MAX), None);
    }
    assert_eq!(avg.observe(0), Some(u64::MAX), "sum of five maxima averages back");
}

#[test]
fn random_timeout_offset_is_remainder_within_period() {
    assert_eq!(random_timeout_offset(1234, 1000), 234);
    assert_eq!(random_timeout_offset(999, 1000), 999);
    assert_eq!(random_timeout_offset(0, 5), 0);
    assert_eq!(random_timeout_offset(u32::MAX, 1), 0);
    assert!(random_timeout_offset(0x9E37_79B9, 1000) < 1000);
}

#[test]
fn keep_alive_frame_layout() {
    let frame = build_keep_alive_frame(0x0102_0304);
    assert_eq!(frame.len(), 242);
    assert_eq!(&frame[..7], b"Signal ");
    assert_eq!(&frame[7..11], &[0x04, 0x03, 0x02, 0x01], "counter in little-endian order");
    assert!(frame[11..].iter().all(|b| *b == 0), "zero padding");
    let zero = build_keep_alive_frame(0);
    assert_eq!(&zero[7..11], &[0, 0, 0, 0]);
}

#[test]
fn beacon_payload_round_trips_through_parse() {
    let message: Vec<u8> = (0..242u32).map(|i| (i % 251) as u8).collect();
    let payload = build_beacon_payload(&message);
    assert_eq!(payload.len(), 252);
    assert_eq!(&payload[..10], b"Harmoneyes");
    // The radio frames the payload with a length byte and the type byte.
    let mut data = vec![253u8, 0x2A];
    data.extend_from_slice(&payload);
    let body = parse_beacon_frame(&data).expect("a framed payload is recognized");
    assert_eq!(body, message);
}

#[test]
fn foreign_advertisements_are_ignored() {
    // Too short.
    assert_eq!(parse_beacon_frame(&vec![0x2A; 12]), None);
    // Wrong type byte.
    let mut data = vec![253u8, 0x2B];
    data.extend_from_slice(b"Harmoneyes");
    data.extend_from_slice(&[0u8; 20]);
    assert_eq!(parse_beacon_frame(&data), None);
    // Wrong name.
    let mut data = vec![253u8, 0x2A];
    data.extend_from_slice(b"Harmonxyes");
    data.extend_from_slice(&[0u8; 20]);
    assert_eq!(parse_beacon_frame(&data), None);
}

#[test]
fn motor_commands_parse_exactly() {
    let mut cmd = vec![0x10u8];
    cmd.extend_from_slice(&500u64.to_le_bytes());
    assert_eq!(parse_motor_command(&cmd, 9), Some((MotorChannel::Front, 500)));
    cmd[0] = 0x11;
    assert_eq!(parse_motor_command(&cmd, 9), Some((MotorChannel::Back, 500)));
    cmd[0] = 0x12;
    assert_eq!(parse_motor_command(&cmd, 9), Some((MotorChannel::Left, 500)));
    cmd[0] = 0x13;
    assert_eq!(parse_motor_command(&cmd, 9), Some((MotorChannel::Right, 500)));
    // An unknown code is ignored, as is a short write.
    cmd[0] = 0x09;
    assert_eq!(parse_motor_command(&cmd, 9), None);
    cmd[0] = 0x10;
    assert_eq!(parse_motor_command(&cmd, 8), None);
}

#[test]
fn indicator_command_layout() {
    let cmd = build_indicator_command(300);
    assert_eq!(cmd.len(), 9);
    assert_eq!(cmd[0], 0x09);
    assert_eq!(&cmd[1..9], &300u64.to_le_bytes());
}

#[test]
fn motor_decisions() {
    // A fresh duration powers the motor on and arms the timer.
    assert_eq!(
        motor_step(MotorState::Off, MotorEvent::Duration(40)),
        (MotorState::Running(40), MotorAction::PowerOn(40))
    );
    // A new duration while running re-arms without turning off.
    assert_eq!(
        motor_step(MotorState::Running(40), MotorEvent::Duration(70)),
        (MotorState::Running(70), MotorAction::PowerOn(70))
    );
    // The lapsed timer powers the motor off.
    assert_eq!(
        motor_step(MotorState::Running(70), MotorEvent::TimerLapsed),
        (MotorState::Off, MotorAction::PowerOff)
    );
}

#[test]
fn wheel_covers_the_three_ramps() {
    assert_eq!(wheel(255), Rgb { r: 255, g: 0, b: 0 });
    assert_eq!(wheel(254), Rgb { r: 252, g: 0, b: 3 });
    assert_eq!(wheel(200), Rgb { r: 90, g: 0, b: 165 });
    assert_eq!(wheel(128), Rgb { r: 0, g: 126, b: 129 });
    assert_eq!(wheel(0), Rgb { r: 255, g: 0, b: 0 });
    assert_eq!(wheel(1), Rgb { r: 252, g: 3, b: 0 });
}

#[test]
fn battery_wraps_raw_reading() {
    let charge = BatteryCharge::new(2816);
    assert_eq!(charge.raw(), 2816);
    assert_eq!(BatteryCharge::new(-5).raw(), -5);
}

#[test]
fn rng_handle_constructs() {
    let _rng = SoftdeviceRng::new();
}

#[test]
fn console_titles() {
    let overview = OverviewTab {};
    assert_eq!(overview.title(), "Overview");
    let device = DeviceTab { name: "Device One".to_string() };
    assert_eq!(device.title(), "Device One");
}

#[test]
fn tab_navigation_stops_at_the_edges() {
    assert_eq!(tab_left(0), 0);
    assert_eq!(tab_left(3), 2);
    assert_eq!(tab_right(0, 2), 1);
    assert_eq!(tab_right(1, 2), 1);
    assert_eq!(tab_right(5, 6), 5);
}

#[test]
fn controller_ports_are_matched_by_ids() {
    assert!(is_controller_port(0x1209, 0x0002));
    assert!(!is_controller_port(0x1209, 0x0001), "the cuff is not a console port");
    assert!(!is_controller_port(0x1210, 0x0002));
}
