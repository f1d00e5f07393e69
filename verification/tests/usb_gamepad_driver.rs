use lintx::output::usb_gamepad::driver::UsbGamepadDriver;
use lintx::control::mixer::MixerOutMsg;
use lintx::messages::UsbGamepadDriverCommandMsg;
use lintx::output::usb_gamepad::driver::{
    is_stop_command, mixer_throttle_to_hid_axis, mixer_to_hid_axis, report_for_mixer,
    should_publish_report_progress, DriverProgress, HidGamepadReport,
};

#[test]
fn test_publish_report_progress_on_first_report() {
    assert!(should_publish_report_progress(1, 10));
}

#[test]
fn test_publish_report_progress_periodically_for_low_rate_streams() {
    assert!(should_publish_report_progress(42, 1000));
    assert!(!should_publish_report_progress(42, 500));
}

#[test]
fn test_publish_report_progress_on_report_milestones() {
    assert!(should_publish_report_progress(100, 10));
}

fn float_axis(mixer_value: u16) -> i8 {
    let normalized = (mixer_value as i32 - 5000) as f32 / 5000.0;
    let hid_value = (normalized * 127.0) as i32;
    hid_value.clamp(-127, 127) as i8
}

#[test]
fn hid_axis_matches_the_float_formula_for_every_input() {
    for v in 0..=u16::MAX {
        assert_eq!(mixer_to_hid_axis(v), float_axis(v), "value {}", v);
        assert_eq!(mixer_throttle_to_hid_axis(v), float_axis(v), "value {}", v);
    }
}

#[test]
fn hid_axis_reference_points() {
    assert_eq!(mixer_to_hid_axis(0), -127);
    assert_eq!(mixer_to_hid_axis(5000), 0);
    assert_eq!(mixer_to_hid_axis(10000), 127);
    assert_eq!(mixer_to_hid_axis(7500), 63);
    assert_eq!(mixer_to_hid_axis(2500), -63);
    assert_eq!(mixer_to_hid_axis(60000), 127);
}

#[test]
fn hid_report_new_and_bytes() {
    let report = HidGamepadReport::new();
    assert_eq!(report.to_bytes(), [0, 0, 0, 0x81, 0, 0, 0]);
}

#[test]
fn hid_report_maps_aetr_channels() {
    let mut msg = MixerOutMsg::default();
    msg.channels[0] = 10000;
    msg.channels[1] = 0;
    msg.channels[2] = 7500;
    msg.channels[3] = 5000;
    let report = report_for_mixer(&msg);
    assert_eq!(report.right_x, 127);
    assert_eq!(report.right_y, -127);
    assert_eq!(report.left_y, 63);
    assert_eq!(report.left_x, 0);
    assert_eq!(report.to_bytes(), [0, 0, 0, 63, 127, 0x81, 0]);
}

#[test]
fn driver_stops_only_for_its_generation() {
    let cmd = UsbGamepadDriverCommandMsg { generation: 3, stop: true };
    assert!(is_stop_command(&cmd, 3));
    assert!(!is_stop_command(&cmd, 4));
    let cmd = UsbGamepadDriverCommandMsg { generation: 3, stop: false };
    assert!(!is_stop_command(&cmd, 3));
}

#[test]
fn driver_progress_counts_and_publishes() {
    let mut progress = DriverProgress::new(1000);
    assert!(!progress.idle_tick(1500));
    assert!(progress.idle_tick(2000));
    assert_eq!(progress.last_publish_ms, 2000);
    let msg = MixerOutMsg::default();
    let (bytes, publish) = progress.on_mixer_frame(&msg, 2010);
    assert_eq!(progress.counter, 1);
    assert!(publish);
    assert_eq!(bytes, [0, 0, 0, 0x81, 0, 0, 0]);
    let (_, publish) = progress.on_mixer_frame(&msg, 2020);
    assert!(!publish);
    assert_eq!(progress.last_publish_ms, 2010);
}

#[test]
fn driver_state_and_progress_detail() {
    let state = lintx::output::usb_gamepad::driver::driver_state(true, false, 12, 3, "USB gamepad stopped");
    assert!(state.hid_ready);
    assert!(!state.running);
    assert_eq!(state.report_count, 12);
    assert_eq!(state.generation, 3);
    assert_eq!(state.detail, "USB gamepad stopped");
    assert_eq!(lintx::output::usb_gamepad::driver::sent_reports_detail(100), "sent 100 HID reports");
    assert_eq!(lintx::output::usb_gamepad::driver::sent_reports_detail(0), "sent 0 HID reports");
}

#[test]
fn driver_lifecycle_states() {
    let (mut driver, first) = UsbGamepadDriver::start(7, 1000, true);
    assert!(first.running);
    assert_eq!(first.detail, "USB gamepad running");
    assert_eq!(first.generation, 7);

    let out = lintx::control::mixer::MixerOutMsg::default();
    let (bytes, state) = driver.on_frame(&out, 1010, true);
    assert_eq!(bytes, [0, 0, 0, 0x81, 0, 0, 0]);
    let state = state.expect("first report is published");
    assert_eq!(state.detail, "sent 1 HID reports");
    assert_eq!(state.report_count, 1);

    let (_, state) = driver.on_frame(&out, 1020, true);
    assert!(state.is_none());
    assert!(driver.on_idle(1500, true).is_none());
    let idle = driver.on_idle(2010, true).expect("a second has passed");
    assert_eq!(idle.detail, "USB gamepad running");
    assert_eq!(idle.report_count, 2);

    assert!(driver
        .on_command(&UsbGamepadDriverCommandMsg { generation: 6, stop: true }, true)
        .is_none());
    assert!(driver
        .on_command(&UsbGamepadDriverCommandMsg { generation: 7, stop: false }, true)
        .is_none());
    let stopped = driver
        .on_command(&UsbGamepadDriverCommandMsg { generation: 7, stop: true }, false)
        .expect("stop");
    assert!(!stopped.running);
    assert!(!stopped.hid_ready);
    assert_eq!(stopped.detail, "USB gamepad stopped");
    assert_eq!(stopped.report_count, 2);

    let failed = driver.write_failed(true, "/dev/hidg0", "broken pipe");
    assert_eq!(failed.detail, "write /dev/hidg0 failed: broken pipe");
    assert!(!failed.running);
}
