use lintx::config::{AuxSource, ModelConfig};
use lintx::control::mixer::MixerOutMsg;
use lintx::messages::{
    UiFeedbackMotion, UiFeedbackSeverity, UiFeedbackSlot, UiFeedbackTarget, UsbGamepadCommandMsg,
};
use lintx::ui::apps::about::AboutApp;
use lintx::ui::apps::control::ControlApp;
use lintx::ui::apps::trainer::{
    aux_count, focused_aux_possible_outputs, focused_channel, save_outcome, visible_aux_rows,
    visible_start, AuxSubmit, TrainerApp,
};
use lintx::ui::apps::usb_gamepad::UsbGamepadApp;
use lintx::ui::apps::{about, control, scripts, trainer, usb_gamepad};
use lintx::ui::input::UiInputEvent;
use lintx::ui::keyboard::{KeyboardField, KeyboardMode};
use lintx::ui::model::{AppId, UiFeedbackSnapshot, UiFrame};

#[test]
fn test_spec_replaces_trainer_with_aux_map() {
    assert_eq!(trainer::app_spec().title, "AUX MAP");
    assert_eq!(trainer::app_spec().icon_text, "AUX");
}

#[test]
fn test_open_starts_editing_focused_aux_channel() {
    let model = ModelConfig::default();
    let mut frame = UiFrame::default();
    frame.aux_map_focus_idx = 1;

    let fb = TrainerApp.on_event(&mut frame, UiInputEvent::Open, &model);

    assert!(frame.keyboard.is_none());
    assert_eq!(
        frame.keyboard_armed_field,
        Some(KeyboardField::AuxSource { channel: 6 })
    );
    assert_eq!(fb.expect("feedback").message, "Click to edit");

    let fb = TrainerApp.on_event(&mut frame, UiInputEvent::Open, &model);
    assert!(fb.is_none());

    let keyboard = frame.keyboard.expect("keyboard");
    assert_eq!(keyboard.field, KeyboardField::AuxSource { channel: 6 });
    assert_eq!(keyboard.buffer, "SA");
    assert_eq!(frame.keyboard_armed_field, None);
}

#[test]
fn test_aux_map_terminal_rows_keep_channel_source_and_value_separate() {
    let mut frame = UiFrame::default();
    frame.mixer_out.channels[4] = 10000;

    let detail = TrainerApp.render_terminal_detail(&frame, &ModelConfig::default());

    assert!(detail.contains("> CH5: [S1] 10000"));
    assert!(!detail.contains("CH5 S1 = 10000"));
}

#[test]
fn test_submit_valid_aux_source_saves_active_model_and_publishes_update() {
    let frame = UiFrame::default();
    let mut model = ModelConfig::default();

    assert_eq!(
        TrainerApp.on_keyboard_submit(
            &frame,
            KeyboardField::AuxSource { channel: 16 },
            "B3",
            &mut model,
        ),
        AuxSubmit::Updated { channel: 16 }
    );

    let channels = model.aux_mapping.normalized_channels();
    assert_eq!(channels[11].source, AuxSource::Button(3));
    assert_eq!(model.aux_mapping.channels.len(), 12);
}

#[test]
fn test_submit_invalid_aux_source_is_rejected() {
    let frame = UiFrame::default();
    let mut model = ModelConfig::default();
    let before = model.clone();

    let outcome = TrainerApp.on_keyboard_submit(
        &frame,
        KeyboardField::AuxSource { channel: 7 },
        "SE",
        &mut model,
    );
    match outcome {
        AuxSubmit::Rejected(fb) => {
            assert_eq!(fb.message, "Invalid source SE");
            assert_eq!(fb.severity, UiFeedbackSeverity::Error);
            assert_eq!(fb.motion, UiFeedbackMotion::ShakeX);
        }
        other => panic!("unexpected {:?}", other),
    }
    assert_eq!(model, before);
}

#[test]
fn submit_outside_aux_fields_is_ignored() {
    let frame = UiFrame::default();
    let mut model = ModelConfig::default();
    assert_eq!(
        TrainerApp.on_keyboard_submit(&frame, KeyboardField::BindPhrase, "SA", &mut model),
        AuxSubmit::Ignored
    );
    assert_eq!(
        TrainerApp.on_keyboard_submit(&frame, KeyboardField::AuxSource { channel: 4 }, "SA", &mut model),
        AuxSubmit::Ignored
    );
    assert_eq!(
        TrainerApp.on_keyboard_submit(&frame, KeyboardField::AuxSource { channel: 17 }, "SA", &mut model),
        AuxSubmit::Ignored
    );
    assert_eq!(model, ModelConfig::default());
}

#[test]
fn submit_none_clears_a_channel_and_keeps_others() {
    let frame = UiFrame::default();
    let mut model = ModelConfig::default();
    let before = model.aux_mapping.normalized_channels();
    assert_eq!(
        TrainerApp.on_keyboard_submit(&frame, KeyboardField::AuxSource { channel: 5 }, "none", &mut model),
        AuxSubmit::Updated { channel: 5 }
    );
    let after = model.aux_mapping.normalized_channels();
    assert_eq!(after[0].source, AuxSource::Unmapped);
    assert!(!after[0].inverted);
    for k in 1..12 {
        assert_eq!(after[k], before[k]);
    }
}

#[test]
fn focus_moves_and_window_scrolls() {
    let model = ModelConfig::default();
    let mut frame = UiFrame::default();
    assert_eq!(aux_count(), 12);
    assert_eq!(focused_channel(&frame), 5);
    assert_eq!(visible_start(&frame), 0);
    TrainerApp.on_event(&mut frame, UiInputEvent::Up, &model);
    assert_eq!(frame.aux_map_focus_idx, 0);
    for _ in 0..20 {
        TrainerApp.on_event(&mut frame, UiInputEvent::Down, &model);
    }
    assert_eq!(frame.aux_map_focus_idx, 11);
    assert_eq!(focused_channel(&frame), 16);
    assert_eq!(visible_start(&frame), 8);
    frame.aux_map_focus_idx = 5;
    assert_eq!(visible_start(&frame), 4);
    frame.aux_map_focus_idx = 100;
    assert_eq!(focused_channel(&frame), 16);

    let rows = visible_aux_rows(&frame, &model);
    assert_eq!(rows.len(), 4);
    assert_eq!(rows[0].channel, 13);
    assert_eq!(rows[3].channel, 16);
    assert!(rows[3].is_focused);
    assert_eq!(rows[3].source, "none");
    assert_eq!(rows[3].possible_outputs, "0");
}

#[test]
fn rows_show_sources_values_and_outputs() {
    let model = ModelConfig::default();
    let mut frame = UiFrame::default();
    frame.aux_map_focus_idx = 2;
    frame.mixer_out.channels[6] = 5000;
    let rows = visible_aux_rows(&frame, &model);
    assert_eq!(rows[0].channel, 6);
    assert_eq!(rows[0].source, "SA");
    assert_eq!(rows[0].possible_outputs, "0/5000/10000");
    assert_eq!(rows[1].channel, 7);
    assert!(rows[1].is_focused);
    assert_eq!(rows[1].value, 5000);
    assert_eq!(focused_aux_possible_outputs(&frame, &model), "0/5000/10000");
    frame.aux_map_focus_idx = 0;
    assert_eq!(focused_aux_possible_outputs(&frame, &model), "0/10000");
}

#[test]
fn other_events_disarm_the_keyboard_field() {
    let model = ModelConfig::default();
    let mut frame = UiFrame::default();
    TrainerApp.on_event(&mut frame, UiInputEvent::Open, &model);
    assert!(frame.keyboard_armed_field.is_some());
    assert!(TrainerApp.on_event(&mut frame, UiInputEvent::Left, &model).is_none());
    assert_eq!(frame.keyboard_armed_field, None);
    assert!(frame.keyboard.is_none());
}

#[test]
fn open_feedback_follows_the_shown_message() {
    let model = ModelConfig::default();
    let mut frame = UiFrame::default();
    frame.interaction_feedback = Some(UiFeedbackSnapshot {
        seq: 41,
        severity: UiFeedbackSeverity::Success,
        target: UiFeedbackTarget::Page,
        motion: UiFeedbackMotion::Pulse,
        slot: UiFeedbackSlot::TopStatusBar,
        message: String::new(),
        elapsed_ms: 0,
        ttl_ms: 900,
    });
    let fb = TrainerApp.on_event(&mut frame, UiInputEvent::Open, &model).unwrap();
    assert_eq!(fb.seq, 42);
    assert_eq!(fb.severity, UiFeedbackSeverity::Busy);
    assert_eq!(fb.motion, UiFeedbackMotion::Pulse);
    assert_eq!(fb.target, UiFeedbackTarget::SelectedListRow);
    assert_eq!(fb.ttl_ms, 900);
}

#[test]
fn save_outcome_messages() {
    let frame = UiFrame::default();
    let (ok, fb) = save_outcome(&frame, 16, Ok(()));
    assert!(ok);
    assert_eq!(fb.message, "CH16 source saved");
    assert_eq!(fb.severity, UiFeedbackSeverity::Success);
    assert_eq!(fb.seq, 1);
    let (ok, fb) = save_outcome(&frame, 9, Err("disk full"));
    assert!(!ok);
    assert_eq!(fb.message, "AUX map save failed: disk full");
    assert_eq!(fb.motion, UiFeedbackMotion::ShakeX);
}

#[test]
fn aux_detail_full_text() {
    let frame = UiFrame::default();
    let detail = TrainerApp.render_terminal_detail(&frame, &ModelConfig::default());
    assert_eq!(
        detail,
        "AUX Channel Map\n> CH5: [S1] 0\n  CH6: [SA] 0\n  CH7: [SB] 0\n  CH8: [SC] 0\n\nUp/Down: focus CH5-CH16\nEnter: edit source\nEsc Back"
    );
    let mut frame = UiFrame::default();
    frame.aux_map_focus_idx = 11;
    let detail = TrainerApp.render_terminal_detail(&frame, &ModelConfig::default());
    assert!(detail.contains("> CH16: [NONE] 0"));
    assert!(detail.contains("  CH13: [NONE] 0"));
}

#[test]
fn test_terminal_detail_omits_raw_count_and_shows_aux_mixer_groups() {
    let mut frame = UiFrame::default();
    frame.mixer_out = MixerOutMsg {
        channels: [
            100, 200, 300, 400, 5000, 6000, 7000, 8000, 9000, 10000, 1100, 1200, 0, 0, 0, 0,
        ],
    };

    let detail = ControlApp.render_terminal_detail(&frame);

    assert!(!detail.contains("Count:"));
    assert!(detail.contains("Mixer CH5-8: 5000/6000/7000/8000"));
    assert!(detail.contains("Mixer CH9-12: 9000/10000/1100/1200"));
}

#[test]
fn control_detail_shows_raw_input_and_link_feedback() {
    let mut frame = UiFrame::default();
    frame.input_frame.channels = vec![-1000, 0, 250];
    frame.elrs_feedback.connected = true;
    frame.elrs_feedback.signal_strength_percent = Some(87);
    let detail = ControlApp.render_terminal_detail(&frame);
    assert!(detail.contains("Raw Input\nCH1-4: -1000/0/250/0\n"));
    assert!(detail.contains("ELRS Feedback: connected  Signal:87%  Aircraft Battery:--\n"));
    assert!(detail.starts_with("Input Source: STM32\nStatus: STARTING ()\n"));
    assert!(detail.ends_with("\n\nUse this page to validate input chain.\nEsc Back"));
}

#[test]
fn test_open_requests_usb_gamepad_start_and_shows_busy_feedback() {
    let mut frame = UiFrame::default();

    let (cmd, feedback) = UsbGamepadApp.on_event(&mut frame, UiInputEvent::Open).expect("toggle");

    assert_eq!(cmd, UsbGamepadCommandMsg::Toggle);
    assert_eq!(feedback.severity, UiFeedbackSeverity::Busy);
    assert_eq!(feedback.slot, UiFeedbackSlot::TopStatusBar);
    assert!(feedback.message.contains("Toggling USB gamepad"));
}

#[test]
fn usb_gamepad_only_open_left_right_toggle() {
    assert!(UsbGamepadApp.on_event(&mut UiFrame::default(), UiInputEvent::Left).is_some());
    assert!(UsbGamepadApp.on_event(&mut UiFrame::default(), UiInputEvent::Right).is_some());
    assert!(UsbGamepadApp.on_event(&mut UiFrame::default(), UiInputEvent::Up).is_none());
    assert!(UsbGamepadApp.on_event(&mut UiFrame::default(), UiInputEvent::Back).is_none());
    let (_, fb) = UsbGamepadApp.on_event(&mut UiFrame::default(), UiInputEvent::Right).unwrap();
    assert_eq!(fb.seq, 0x7500);
    assert_eq!(fb.target, UiFeedbackTarget::Page);
    assert_eq!(fb.ttl_ms, 1200);
}

#[test]
fn test_terminal_detail_marks_output_row_as_selected() {
    let detail = UsbGamepadApp.render_terminal_detail(&UiFrame::default());

    assert!(detail.contains("> Output: OFF"));
}

#[test]
fn usb_gamepad_detail_full_text() {
    let mut frame = UiFrame::default();
    frame.usb_gamepad.running = true;
    frame.usb_gamepad.hid_ready = true;
    frame.usb_gamepad.detail = "reports=3".to_string();
    let detail = UsbGamepadApp.render_terminal_detail(&frame);
    assert_eq!(
        detail,
        "USB HID Gamepad\n> Output: ON\nDevice: /dev/hidg0 [ready]\nDetail: reports=3\nInput: STM32 (STARTING)\nMixer: 5000/5000/0/5000\n\nEnter/Left/Right Toggle\nEsc Back"
    );
}

#[test]
fn about_text_and_specs() {
    assert_eq!(
        AboutApp.render_terminal_detail(&UiFrame::default()),
        "LinTx\n\nTeam: HumpbackLab\nProduct: LinTx\nVersion: 0.0.1 preview\n\nEsc Back"
    );
    assert_eq!(about::app_spec().id, AppId::About);
    assert_eq!(control::app_spec().title, "CONTROL");
    assert_eq!(scripts::app_spec().title, "ELRS");
    assert_eq!(usb_gamepad::app_spec().accent, (88, 184, 120));
    assert_eq!(trainer::app_spec().id, AppId::Trainer);
}

#[test]
fn aux_keyboard_overlay_for_a_channel() {
    let kb = lintx::ui::keyboard::KeyboardOverlay::aux_source(12, "B3");
    assert_eq!(kb.label, "CH12 Source");
    assert_eq!(kb.buffer, "B3");
    assert_eq!(kb.mode, KeyboardMode::Upper);
    assert_eq!(kb.max_len, 4);
}

#[test]
fn about_and_control_ignore_input() {
    let mut frame = UiFrame::default();
    frame.aux_map_focus_idx = 3;
    let before = frame.clone();
    AboutApp.on_event(&mut frame, UiInputEvent::Open);
    ControlApp.on_event(&mut frame, UiInputEvent::Back);
    assert_eq!(frame, before);
}
