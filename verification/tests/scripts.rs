use lintx::messages::{
    ElrsCommandMsg, UiFeedbackMotion, UiFeedbackSeverity, UiFeedbackSlot, UiFeedbackTarget,
};
use lintx::ui::apps::scripts::{
    adjust_status, apply_local_state, elrs_command_for, handle_local_navigation,
    is_local_fallback, local_adjust, local_feedback, local_feedback_target, next_seq,
    normalize_power_level, shift_power_level, LocalAdjust, LocalElrsConfig, LocalEvent,
    ScriptsApp, ScriptsStep,
};
use lintx::ui::input::UiInputEvent;
use lintx::ui::model::UiFrame;

#[test]
fn test_local_feedback_target_for_wifi_maps_to_wifi_field() {
    assert_eq!(
        local_feedback_target(1),
        UiFeedbackTarget::FieldId("wifi_manual".to_string())
    );
}

#[test]
fn test_set_local_feedback_assigns_top_status_feedback_and_increments_seq() {
    let mut frame = UiFrame::default();
    frame.elrs.selected_idx = 3;

    let first = local_feedback(
        frame.interaction_feedback.as_ref().map(|f| f.seq),
        frame.elrs.selected_idx,
        UiFeedbackSeverity::Success,
        UiFeedbackMotion::Pulse,
        "TX power updated",
    );
    frame.interaction_feedback = Some(lintx::ui::model::UiFeedbackSnapshot {
        seq: first.seq,
        severity: first.severity,
        target: first.target.clone(),
        motion: first.motion,
        slot: first.slot,
        message: first.message.clone(),
        elapsed_ms: 10,
        ttl_ms: first.ttl_ms,
    });
    let second = local_feedback(
        frame.interaction_feedback.as_ref().map(|f| f.seq),
        frame.elrs.selected_idx,
        UiFeedbackSeverity::Error,
        UiFeedbackMotion::ShakeX,
        "TX power save failed",
    );

    assert_eq!(first.slot, UiFeedbackSlot::TopStatusBar);
    assert_eq!(
        first.target,
        UiFeedbackTarget::FieldId("tx_power".to_string())
    );
    assert!(second.seq > first.seq);
}

#[test]
fn test_open_on_bind_row_does_not_arm_bind_phrase_keyboard() {
    let mut frame = UiFrame::default();
    frame.elrs.selected_idx = 2;

    let step = ScriptsApp.on_event(&mut frame, UiInputEvent::Open, &LocalElrsConfig::default());

    assert!(frame.keyboard.is_none());
    assert_eq!(frame.keyboard_armed_field, None);
    match step {
        ScriptsStep::Feedback(fb) => {
            assert_eq!(fb.message, "Bind feedback requires rf_link_service");
            assert_eq!(fb.severity, UiFeedbackSeverity::Error);
        }
        other => panic!("unexpected {:?}", other),
    }
    assert_eq!(frame.elrs.status_text, "Bind feedback requires rf_link_service");
}

#[test]
fn local_mode_events() {
    let stored = LocalElrsConfig { rf_output_enabled: false, wifi_manual_on: false, tx_power_mw: 100 };
    let mut frame = UiFrame::default();
    assert_eq!(ScriptsApp.on_event(&mut frame, UiInputEvent::Down, &stored), ScriptsStep::Done);
    assert_eq!(frame.elrs.selected_idx, 1);
    assert_eq!(frame.elrs.status_text, "Local config mode (rf_link_service offline)");
    assert_eq!(frame.elrs.params.len(), 9);

    frame.elrs.selected_idx = 3;
    assert_eq!(
        ScriptsApp.on_event(&mut frame, UiInputEvent::Right, &stored),
        ScriptsStep::SaveLocal {
            selected_idx: 3,
            cfg: LocalElrsConfig { tx_power_mw: 250, ..stored }
        }
    );
    assert_eq!(
        ScriptsApp.on_event(&mut frame, UiInputEvent::Left, &stored),
        ScriptsStep::SaveLocal {
            selected_idx: 3,
            cfg: LocalElrsConfig { tx_power_mw: 25, ..stored }
        }
    );
    frame.elrs.selected_idx = 0;
    assert_eq!(
        ScriptsApp.on_event(&mut frame, UiInputEvent::Open, &stored),
        ScriptsStep::SaveLocal {
            selected_idx: 0,
            cfg: LocalElrsConfig { rf_output_enabled: true, ..stored }
        }
    );
    assert_eq!(ScriptsApp.on_event(&mut frame, UiInputEvent::PageNext, &stored), ScriptsStep::Reload);
    assert_eq!(
        ScriptsApp.on_event(&mut frame, UiInputEvent::Back, &stored),
        ScriptsStep::Command(ElrsCommandMsg::Back)
    );
    assert_eq!(ScriptsApp.on_event(&mut frame, UiInputEvent::Quit, &stored), ScriptsStep::Done);

    frame.elrs.selected_idx = 7;
    assert_eq!(ScriptsApp.on_event(&mut frame, UiInputEvent::Right, &stored), ScriptsStep::Done);
    assert_eq!(frame.elrs.status_text, "ELRS");
}

#[test]
fn online_mode_events_become_commands() {
    let mut frame = UiFrame::default();
    frame.elrs.path = "/Main".to_string();
    frame.elrs.connected = true;
    let before = frame.clone();
    assert_eq!(
        ScriptsApp.on_event(&mut frame, UiInputEvent::Up, &LocalElrsConfig::default()),
        ScriptsStep::Command(ElrsCommandMsg::SelectPrev)
    );
    assert_eq!(frame, before);
}

#[test]
fn finish_local_save_reports_and_shows() {
    let mut frame = UiFrame::default();
    frame.elrs.selected_idx = 1;
    let cfg = LocalElrsConfig { rf_output_enabled: false, wifi_manual_on: true, tx_power_mw: 500 };
    let fb = ScriptsApp.finish_local_save(&mut frame, 1, &cfg, true);
    assert_eq!(fb.message, "WiFi command armed");
    assert_eq!(fb.severity, UiFeedbackSeverity::Success);
    assert_eq!(fb.ttl_ms, 850);
    assert_eq!(fb.target, UiFeedbackTarget::FieldId("wifi_manual".to_string()));
    assert_eq!(frame.elrs.status_text, "WiFi command armed");
    assert_eq!(frame.elrs.tx_power, "500mW");
    assert!(frame.elrs.wifi_running);

    let fb = ScriptsApp.finish_local_save(&mut frame, 3, &cfg, false);
    assert_eq!(fb.message, "TX power save failed");
    assert_eq!(fb.motion, UiFeedbackMotion::ShakeX);
}

#[test]
fn scripts_detail_text() {
    let mut frame = UiFrame::default();
    apply_local_state(&mut frame.elrs, &LocalElrsConfig::default(), Some("ready"));
    frame.elrs.selected_idx = 3;
    let detail = ScriptsApp.render_terminal_detail(&frame);
    assert_eq!(
        detail,
        "Link: OFFLINE (READY)\nModule: ELRS\nDevice: Not Connected\nVersion: --\nPath: /\nStatus: ready\n  Bind: SERVICE\n> TX Power: 100mW\n  Link State: RF OFF\n  Signal: --\n\nUp/Down: select  Left/Right: adjust  Enter: open/apply  ]: refresh\nEsc Back"
    );
    let mut frame = UiFrame::default();
    frame.elrs.selected_idx = 0;
    let detail = ScriptsApp.render_terminal_detail(&frame);
    assert!(detail.contains("Status: \n\n\n\n\n\nUp/Down"));
}

#[test]
fn test_keyboard_submit_is_ignored() {
    let mut frame = UiFrame::default();

    assert!(!ScriptsApp.on_keyboard_submit(
        &mut frame,
        lintx::ui::keyboard::KeyboardField::BindPhrase,
        "ABC",
    ));
}

#[test]
fn normalize_power_level_picks_nearest_and_lower_on_tie() {
    assert_eq!(normalize_power_level(0), 10);
    assert_eq!(normalize_power_level(17), 10);
    assert_eq!(normalize_power_level(18), 25);
    assert_eq!(normalize_power_level(60), 25);
    assert_eq!(normalize_power_level(175), 100);
    assert_eq!(normalize_power_level(176), 250);
    assert_eq!(normalize_power_level(250), 250);
    assert_eq!(normalize_power_level(u16::MAX), 1000);
}

#[test]
fn shift_power_level_steps_and_stops_at_the_ends() {
    assert_eq!(shift_power_level(100, 1), 250);
    assert_eq!(shift_power_level(100, -1), 25);
    assert_eq!(shift_power_level(1000, 1), 1000);
    assert_eq!(shift_power_level(10, -1), 10);
    assert_eq!(shift_power_level(90, 1), 250);
    assert_eq!(shift_power_level(25, 1000), 1000);
    assert_eq!(shift_power_level(25, -1000), 10);
}

#[test]
fn power_step_up_then_down_returns() {
    for level in [10u16, 25, 100, 250, 500] {
        assert_eq!(shift_power_level(shift_power_level(level, 1), -1), level);
    }
}

#[test]
fn next_seq_wraps_and_starts_at_one() {
    assert_eq!(next_seq(None), 1);
    assert_eq!(next_seq(Some(7)), 8);
    assert_eq!(next_seq(Some(u32::MAX)), 0);
}

#[test]
fn local_feedback_ttl_and_targets() {
    let busy = local_feedback(Some(4), 9, UiFeedbackSeverity::Busy, UiFeedbackMotion::Pulse, "x");
    assert_eq!(busy.seq, 5);
    assert_eq!(busy.ttl_ms, 1200);
    assert_eq!(busy.target, UiFeedbackTarget::SelectedListRow);
    assert_eq!(busy.message, "x");
    let err = local_feedback(None, 0, UiFeedbackSeverity::Error, UiFeedbackMotion::ShakeX, "e");
    assert_eq!(err.ttl_ms, 900);
    assert_eq!(err.target, UiFeedbackTarget::FieldId("rf_output".to_string()));
    let ok = local_feedback(None, 2, UiFeedbackSeverity::Success, UiFeedbackMotion::Pulse, "s");
    assert_eq!(ok.ttl_ms, 850);
    assert_eq!(ok.target, UiFeedbackTarget::FieldId("bind".to_string()));
}

#[test]
fn navigation_clamps_to_editable_rows() {
    let mut frame = UiFrame::default();
    assert_eq!(handle_local_navigation(&mut frame.elrs, UiInputEvent::Up), LocalEvent::Moved);
    assert_eq!(frame.elrs.selected_idx, 0);
    for _ in 0..5 {
        handle_local_navigation(&mut frame.elrs, UiInputEvent::Down);
    }
    assert_eq!(frame.elrs.selected_idx, 3);
    assert_eq!(handle_local_navigation(&mut frame.elrs, UiInputEvent::Left), LocalEvent::Adjust(-1));
    assert_eq!(handle_local_navigation(&mut frame.elrs, UiInputEvent::PageNext), LocalEvent::Reload);
    assert_eq!(handle_local_navigation(&mut frame.elrs, UiInputEvent::Back), LocalEvent::Unhandled);
    assert_eq!(frame.elrs.selected_idx, 3);
}

#[test]
fn local_adjust_toggles_and_steps() {
    let cfg = LocalElrsConfig::default();
    assert_eq!(
        local_adjust(0, &cfg, 1),
        LocalAdjust::Save(LocalElrsConfig { rf_output_enabled: true, ..cfg })
    );
    assert_eq!(
        local_adjust(1, &cfg, -1),
        LocalAdjust::Save(LocalElrsConfig { wifi_manual_on: true, ..cfg })
    );
    assert_eq!(
        local_adjust(3, &cfg, -1),
        LocalAdjust::Save(LocalElrsConfig { tx_power_mw: 25, ..cfg })
    );
    assert_eq!(local_adjust(4, &cfg, 1), LocalAdjust::Redraw);
}

#[test]
fn adjust_status_texts() {
    let on = LocalElrsConfig { rf_output_enabled: true, wifi_manual_on: true, tx_power_mw: 100 };
    let off = LocalElrsConfig::default();
    assert_eq!(
        adjust_status(0, &on, true),
        ("RF output enabled", UiFeedbackSeverity::Success, UiFeedbackMotion::Pulse)
    );
    assert_eq!(adjust_status(0, &off, true).0, "RF output disabled");
    assert_eq!(
        adjust_status(0, &on, false),
        ("RF output save failed", UiFeedbackSeverity::Error, UiFeedbackMotion::ShakeX)
    );
    assert_eq!(adjust_status(1, &on, true).0, "WiFi command armed");
    assert_eq!(adjust_status(1, &off, true).0, "WiFi command cleared");
    assert_eq!(adjust_status(1, &off, false).0, "WiFi config save failed");
    assert_eq!(
        adjust_status(2, &on, true),
        ("Bind feedback requires rf_link_service", UiFeedbackSeverity::Error, UiFeedbackMotion::ShakeX)
    );
    assert_eq!(adjust_status(3, &on, true).0, "TX power updated");
    assert_eq!(adjust_status(3, &on, false).0, "TX power save failed");
}

#[test]
fn apply_local_state_fills_the_offline_page() {
    let mut frame = UiFrame::default();
    frame.elrs.status_text = "old".to_string();
    let cfg = LocalElrsConfig { rf_output_enabled: true, wifi_manual_on: false, tx_power_mw: 250 };
    apply_local_state(&mut frame.elrs, &cfg, None);
    assert_eq!(frame.elrs.status_text, "old");
    assert!(is_local_fallback(&frame.elrs));
    assert_eq!(frame.elrs.tx_power, "250mW");
    assert!(frame.elrs.rf_output_enabled);
    assert!(!frame.elrs.wifi_running);
    assert_eq!(frame.elrs.params.len(), 9);
    assert_eq!(frame.elrs.params[0].value, "ON");
    assert_eq!(frame.elrs.params[1].value, "OFF");
    assert_eq!(frame.elrs.params[3].value, "250mW");
    assert_eq!(frame.elrs.params[4].value, "SERVICE OFFLINE");
    assert!(!frame.elrs.params[4].selectable);
    assert_eq!(frame.elrs.params[8].id, "feedback");

    apply_local_state(&mut frame.elrs, &LocalElrsConfig::default(), Some("ELRS config reloaded"));
    assert_eq!(frame.elrs.status_text, "ELRS config reloaded");
    assert_eq!(frame.elrs.params[4].value, "RF OFF");
    assert_eq!(frame.elrs.tx_power, "100mW");
}

#[test]
fn online_events_become_commands() {
    assert_eq!(elrs_command_for(UiInputEvent::Back), Some(ElrsCommandMsg::Back));
    assert_eq!(elrs_command_for(UiInputEvent::PagePrev), Some(ElrsCommandMsg::Back));
    assert_eq!(elrs_command_for(UiInputEvent::Up), Some(ElrsCommandMsg::SelectPrev));
    assert_eq!(elrs_command_for(UiInputEvent::Down), Some(ElrsCommandMsg::SelectNext));
    assert_eq!(elrs_command_for(UiInputEvent::Left), Some(ElrsCommandMsg::ValueDec));
    assert_eq!(elrs_command_for(UiInputEvent::Right), Some(ElrsCommandMsg::ValueInc));
    assert_eq!(elrs_command_for(UiInputEvent::Open), Some(ElrsCommandMsg::Activate));
    assert_eq!(elrs_command_for(UiInputEvent::PageNext), Some(ElrsCommandMsg::Refresh));
    assert_eq!(elrs_command_for(UiInputEvent::Quit), None);
    assert_eq!(elrs_command_for(UiInputEvent::KeyboardSubmit), None);
}

#[test]
fn intercept_back_follows_can_leave() {
    let mut frame = UiFrame::default();
    frame.elrs.can_leave = true;
    assert!(!ScriptsApp.intercept_back(&frame));
    frame.elrs.can_leave = false;
    assert!(ScriptsApp.intercept_back(&frame));
}

#[test]
fn shift_power_level_takes_any_delta_that_does_not_overflow() {
    assert_eq!(shift_power_level(1000, isize::MAX - 5), 1000);
    assert_eq!(shift_power_level(25, isize::MAX - 1), 1000);
    assert_eq!(shift_power_level(10, isize::MIN), 10);
    assert_eq!(shift_power_level(500, isize::MIN + 10), 10);
}
