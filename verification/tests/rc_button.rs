use lintx::input::rc_button::{
    active_direction, RcButtonMapper, FIRST_REPEAT_DELAY_MS, GUI_CENTER, GUI_DOWN, GUI_LEFT,
    GUI_RIGHT, GUI_UP, LONG_PRESS_DURATION_MS, REPEAT_INTERVAL_MS,
};
use lintx::ui::input::UiInputEvent;

fn input(buttons: u16) -> u32 {
    buttons as u32
}

const NOW: u64 = 1_000_000;

#[test]
fn test_gui_five_way_direction_edges_emit_ui_events() {
    let now = NOW;
    let mut mapper = RcButtonMapper::new();

    assert_eq!(mapper.update(input(GUI_UP), now), vec![UiInputEvent::Up]);
    assert!(mapper.update(input(GUI_UP), now + 10).is_empty());
    assert_eq!(mapper.update(0, now + 20), Vec::new());
    assert_eq!(mapper.update(input(GUI_DOWN), now + 30), vec![UiInputEvent::Down]);
}

#[test]
fn test_gui_five_way_short_center_press_emits_open_on_release() {
    let now = NOW;
    let mut mapper = RcButtonMapper::new();

    assert!(mapper.update(input(GUI_CENTER), now).is_empty());
    assert_eq!(mapper.update(0, now + 120), vec![UiInputEvent::Open]);
}

#[test]
fn test_gui_five_way_long_center_press_emits_back_once() {
    let now = NOW;
    let mut mapper = RcButtonMapper::new();

    assert!(mapper.update(input(GUI_CENTER), now).is_empty());
    assert_eq!(
        mapper.update(input(GUI_CENTER), now + LONG_PRESS_DURATION_MS),
        vec![UiInputEvent::Back]
    );
    assert!(mapper
        .update(input(GUI_CENTER), now + LONG_PRESS_DURATION_MS + 20)
        .is_empty());
    assert!(mapper.update(0, now + LONG_PRESS_DURATION_MS + 40).is_empty());
}

#[test]
fn test_gui_five_way_left_center_combo_emits_back_without_open() {
    let now = NOW;
    let mut mapper = RcButtonMapper::new();

    assert_eq!(
        mapper.update(input(GUI_LEFT | GUI_CENTER), now),
        vec![UiInputEvent::Back]
    );
    assert!(mapper.update(0, now + 100).is_empty());
}

#[test]
fn test_gui_five_way_direction_repeats_after_delay() {
    let now = NOW;
    let mut mapper = RcButtonMapper::new();

    assert_eq!(mapper.update(input(GUI_RIGHT), now), vec![UiInputEvent::Right]);
    assert!(mapper
        .update(input(GUI_RIGHT), now + FIRST_REPEAT_DELAY_MS - 1)
        .is_empty());
    assert_eq!(
        mapper.update(input(GUI_RIGHT), now + FIRST_REPEAT_DELAY_MS),
        vec![UiInputEvent::Right]
    );
    assert!(mapper
        .update(
            input(GUI_RIGHT),
            now + FIRST_REPEAT_DELAY_MS + REPEAT_INTERVAL_MS - 1
        )
        .is_empty());
    assert_eq!(
        mapper.update(input(GUI_RIGHT), now + FIRST_REPEAT_DELAY_MS + REPEAT_INTERVAL_MS),
        vec![UiInputEvent::Right]
    );
}

#[test]
fn rc_button_ignores_bits_outside_the_gui_mask() {
    let mut mapper = RcButtonMapper::new();
    assert!(mapper.update(0x0003 | (1 << 20), NOW).is_empty());
    assert_eq!(mapper.previous_buttons, 0);
}

#[test]
fn rc_button_direction_priority_is_up_down_left_right() {
    assert_eq!(
        active_direction(GUI_RIGHT | GUI_UP),
        Some((GUI_UP, UiInputEvent::Up))
    );
    assert_eq!(
        active_direction(GUI_RIGHT | GUI_LEFT | GUI_DOWN),
        Some((GUI_DOWN, UiInputEvent::Down))
    );
    assert_eq!(
        active_direction(GUI_RIGHT | GUI_LEFT),
        Some((GUI_LEFT, UiInputEvent::Left))
    );
    assert_eq!(active_direction(GUI_RIGHT), Some((GUI_RIGHT, UiInputEvent::Right)));
    assert_eq!(active_direction(GUI_CENTER), None);
}

#[test]
fn rc_button_center_suppresses_directions() {
    let mut mapper = RcButtonMapper::new();
    assert_eq!(mapper.update(input(GUI_UP), NOW), vec![UiInputEvent::Up]);
    assert!(mapper.update(input(GUI_UP | GUI_CENTER), NOW + 10).is_empty());
    assert!(mapper.held_direction.is_none());
    assert_eq!(mapper.update(input(GUI_UP), NOW + 20), vec![UiInputEvent::Open, UiInputEvent::Up]);
}

#[test]
fn rc_button_changing_direction_fires_new_direction() {
    let mut mapper = RcButtonMapper::new();
    assert_eq!(mapper.update(input(GUI_LEFT), NOW), vec![UiInputEvent::Left]);
    assert_eq!(mapper.update(input(GUI_DOWN), NOW + 5), vec![UiInputEvent::Down]);
}

#[test]
fn long_press_then_release_emits_back_without_open() {
    let mut mapper = lintx::input::rc_button::RcButtonMapper::new();
    let center = lintx::input::rc_button::GUI_CENTER as u32;
    assert!(mapper.update(center, 1_000_000).is_empty());
    assert_eq!(mapper.update(center, 1_000_600), vec![lintx::ui::input::UiInputEvent::Back]);
    assert!(mapper.update(center, 1_001_200).is_empty());
    assert!(mapper.update(0, 1_001_300).is_empty());
}

#[test]
fn short_center_press_with_left_emits_only_back() {
    let mut mapper = lintx::input::rc_button::RcButtonMapper::new();
    let center = lintx::input::rc_button::GUI_CENTER as u32;
    let both = center | lintx::input::rc_button::GUI_LEFT as u32;
    assert!(mapper.update(center, 5_000).is_empty());
    assert_eq!(mapper.update(both, 5_100), vec![UiInputEvent::Back]);
    assert!(mapper.update(center, 5_200).is_empty());
    assert!(mapper.update(0, 5_250).is_empty());
    // The next short press opens again.
    assert!(mapper.update(center, 6_000).is_empty());
    assert_eq!(mapper.update(0, 6_100), vec![UiInputEvent::Open]);
}
