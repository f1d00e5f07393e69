use lintx::ui::keyboard::{
    validate_bind_phrase, KeyboardAction, KeyboardField, KeyboardFocus, KeyboardMode,
    KeyboardOverlay, KeyboardResult,
};

#[test]
fn keyboard_moves_selection_across_rows_and_clamps_column() {
    let mut keyboard = KeyboardOverlay::bind_phrase("");

    keyboard.move_right();
    keyboard.move_down();
    keyboard.move_down();
    keyboard.move_down();
    keyboard.move_right();
    keyboard.move_right();
    keyboard.move_right();
    keyboard.move_right();
    keyboard.move_right();

    assert_eq!(keyboard.selected_row, 3);
    assert_eq!(keyboard.selected_col, 4);
    assert_eq!(keyboard.selected_key().label, "done");
}

#[test]
fn keyboard_inserts_at_cursor_and_backspaces() {
    let mut keyboard = KeyboardOverlay::bind_phrase("ac");
    keyboard.cursor = 1;

    keyboard.activate(KeyboardAction::Insert('b'));
    keyboard.activate(KeyboardAction::Backspace);

    assert_eq!(keyboard.buffer, "ac");
    assert_eq!(keyboard.cursor, 1);
}

#[test]
fn keyboard_switches_modes_and_submit_returns_value() {
    let mut keyboard = KeyboardOverlay::bind_phrase("");

    keyboard.activate(KeyboardAction::Mode(KeyboardMode::Numbers));
    keyboard.activate(KeyboardAction::Insert('1'));
    let result = keyboard.activate(KeyboardAction::Submit);

    assert_eq!(keyboard.mode, KeyboardMode::Numbers);
    assert_eq!(
        result,
        KeyboardResult::Submitted {
            field: KeyboardField::BindPhrase,
            value: "1".to_string()
        }
    );
}

#[test]
fn bind_phrase_validation_rejects_invalid_text_without_changing_buffer() {
    let mut keyboard = KeyboardOverlay::bind_phrase("ABC");

    assert!(validate_bind_phrase(&keyboard.buffer).is_err());
    keyboard.mark_invalid();

    assert!(keyboard.invalid);
    assert_eq!(keyboard.buffer, "ABC");
}

#[test]
fn bind_phrase_validation_accepts_allowed_text() {
    assert_eq!(validate_bind_phrase("abc-123_def"), Ok(()));
}

#[test]
fn keyboard_navigation_can_focus_top_actions() {
    let mut keyboard = KeyboardOverlay::bind_phrase("");

    keyboard.move_up();
    assert_eq!(keyboard.focus, KeyboardFocus::Back);

    keyboard.move_right();
    assert_eq!(keyboard.focus, KeyboardFocus::Confirm);

    keyboard.move_down();
    assert_eq!(keyboard.focus, KeyboardFocus::Key { row: 0, col: 9 });
}

#[test]
fn letter_layout_offsets_and_wide_keys_match_visual_grid() {
    let keyboard = KeyboardOverlay::bind_phrase("");
    let rows = keyboard.layout_rows();

    assert_eq!(rows[1].offset_half_units, 1);
    assert_eq!(rows[2].keys[0].label, "ABC");
    assert_eq!(rows[2].keys[0].span_half_units, 3);
    assert_eq!(rows[2].keys.last().unwrap().label, "del");
    assert_eq!(rows[2].keys.last().unwrap().span_half_units, 3);
    assert_eq!(rows[3].offset_half_units, 2);
    assert_eq!(rows[3].keys[2].label, "space");
    assert_eq!(rows[3].keys[2].span_half_units, 6);
    assert_eq!(rows[3].keys[4].label, "done");
    assert_eq!(rows[3].keys[4].span_half_units, 4);
}

#[test]
fn number_layout_keeps_space_and_action_keys_wide() {
    let mut keyboard = KeyboardOverlay::bind_phrase("");
    keyboard.activate(KeyboardAction::Mode(KeyboardMode::Numbers));
    let rows = keyboard.layout_rows();

    assert_eq!(
        rows[1].keys.iter().map(|key| key.label).collect::<Vec<_>>(),
        vec!["+", "&", "/", "*", "=", "%", "!", "?", "#", "<", ">"]
    );
    assert_eq!(
        rows[2].keys.iter().map(|key| key.label).collect::<Vec<_>>(),
        vec!["\\", "@", "$", "(", ")", "{", "}", "[", "]", ";", "\"", "'"]
    );
    assert_eq!(rows[3].offset_half_units, 2);
    assert_eq!(rows[3].keys[0].label, "abc");
    assert_eq!(rows[3].keys[0].span_half_units, 3);
    assert_eq!(rows[3].keys[2].label, "space");
    assert_eq!(rows[3].keys[2].span_half_units, 6);
    assert_eq!(rows[3].keys[4].label, "done");
    assert_eq!(rows[3].keys[4].span_half_units, 4);
}

#[test]
fn keyboard_bind_phrase_starts_on_first_key() {
    let keyboard = KeyboardOverlay::bind_phrase("xyz");
    assert_eq!(keyboard.field, KeyboardField::BindPhrase);
    assert_eq!(keyboard.label, "Bind Phrase");
    assert_eq!(keyboard.buffer, "xyz");
    assert_eq!(keyboard.cursor, 0);
    assert_eq!(keyboard.mode, KeyboardMode::Lower);
    assert_eq!(keyboard.focus, KeyboardFocus::Key { row: 0, col: 0 });
    assert_eq!(keyboard.max_len, 32);
    assert!(!keyboard.invalid);
    assert_eq!(keyboard.selected_key().label, "q");
}

#[test]
fn keyboard_rows_list_letter_keys() {
    let keyboard = KeyboardOverlay::bind_phrase("");
    let rows = keyboard.rows();
    assert_eq!(rows.len(), 4);
    let labels: Vec<&str> = rows[0].iter().map(|k| k.label).collect();
    assert_eq!(labels, vec!["q", "w", "e", "r", "t", "y", "u", "i", "o", "p"]);
    let labels: Vec<&str> = rows[2].iter().map(|k| k.label).collect();
    assert_eq!(labels, vec!["ABC", "z", "x", "c", "v", "b", "n", "m", "del"]);
    assert_eq!(rows[1].len(), 9);
    assert_eq!(rows[3].len(), 5);
    assert_eq!(rows[0][3].action, KeyboardAction::Insert('r'));
}

#[test]
fn keyboard_shift_switches_case_and_back() {
    let mut keyboard = KeyboardOverlay::bind_phrase("");
    assert_eq!(keyboard.activate(KeyboardAction::Shift), KeyboardResult::Pending);
    assert_eq!(keyboard.mode, KeyboardMode::Upper);
    assert_eq!(keyboard.selected_key().label, "Q");
    keyboard.activate(KeyboardAction::Shift);
    assert_eq!(keyboard.mode, KeyboardMode::Lower);
    keyboard.activate(KeyboardAction::Mode(KeyboardMode::Numbers));
    keyboard.activate(KeyboardAction::Shift);
    assert_eq!(keyboard.mode, KeyboardMode::Upper);
}

#[test]
fn keyboard_mode_switch_clamps_selection() {
    let mut keyboard = KeyboardOverlay::bind_phrase("");
    keyboard.activate(KeyboardAction::Mode(KeyboardMode::Numbers));
    keyboard.select(2, 11);
    assert_eq!(keyboard.selected_key().label, "'");
    keyboard.activate(KeyboardAction::Mode(KeyboardMode::Lower));
    assert_eq!(keyboard.selected_row, 2);
    assert_eq!(keyboard.selected_col, 8);
    assert_eq!(keyboard.focus, KeyboardFocus::Key { row: 2, col: 8 });
    assert_eq!(keyboard.selected_key().label, "del");
}

#[test]
fn keyboard_select_clamps_out_of_range_taps() {
    let mut keyboard = KeyboardOverlay::bind_phrase("");
    keyboard.select(9, 99);
    assert_eq!(keyboard.selected_row, 3);
    assert_eq!(keyboard.selected_col, 4);
    assert_eq!(keyboard.focus, KeyboardFocus::Key { row: 3, col: 4 });
}

#[test]
fn keyboard_move_up_from_right_half_focuses_ok() {
    let mut keyboard = KeyboardOverlay::bind_phrase("");
    keyboard.select(0, 5);
    keyboard.move_up();
    assert_eq!(keyboard.focus, KeyboardFocus::Confirm);
    keyboard.move_left();
    assert_eq!(keyboard.focus, KeyboardFocus::Back);
    keyboard.move_left();
    assert_eq!(keyboard.focus, KeyboardFocus::Back);
    keyboard.move_down();
    assert_eq!(keyboard.focus, KeyboardFocus::Key { row: 0, col: 0 });
}

#[test]
fn keyboard_move_up_keeps_column_where_possible() {
    let mut keyboard = KeyboardOverlay::bind_phrase("");
    keyboard.select(1, 8);
    keyboard.move_up();
    assert_eq!(keyboard.focus, KeyboardFocus::Key { row: 0, col: 8 });
    keyboard.select(0, 9);
    keyboard.move_down();
    assert_eq!(keyboard.focus, KeyboardFocus::Key { row: 1, col: 8 });
    keyboard.move_left();
    assert_eq!(keyboard.focus, KeyboardFocus::Key { row: 1, col: 7 });
}

#[test]
fn keyboard_cursor_keys_stay_inside_buffer() {
    let mut keyboard = KeyboardOverlay::bind_phrase("ab");
    keyboard.activate(KeyboardAction::CursorLeft);
    assert_eq!(keyboard.cursor, 0);
    keyboard.activate(KeyboardAction::CursorRight);
    keyboard.activate(KeyboardAction::CursorRight);
    keyboard.activate(KeyboardAction::CursorRight);
    assert_eq!(keyboard.cursor, 2);
    keyboard.activate(KeyboardAction::Space);
    assert_eq!(keyboard.buffer, "ab ");
    assert_eq!(keyboard.cursor, 3);
}

#[test]
fn keyboard_backspace_at_start_does_nothing() {
    let mut keyboard = KeyboardOverlay::bind_phrase("abc");
    keyboard.activate(KeyboardAction::Backspace);
    assert_eq!(keyboard.buffer, "abc");
    assert_eq!(keyboard.cursor, 0);
}

#[test]
fn keyboard_insert_respects_max_len() {
    let mut keyboard = KeyboardOverlay::bind_phrase("0123456789012345678901234567890");
    keyboard.cursor = 31;
    keyboard.activate(KeyboardAction::Insert('x'));
    assert_eq!(keyboard.buffer.len(), 32);
    keyboard.activate(KeyboardAction::Insert('y'));
    assert_eq!(keyboard.buffer.len(), 32);
    assert!(keyboard.buffer.ends_with('x'));
    assert_eq!(keyboard.cursor, 32);
}

#[test]
fn keyboard_insert_multibyte_moves_cursor_past_it() {
    let mut keyboard = KeyboardOverlay::bind_phrase("ab");
    keyboard.cursor = 1;
    keyboard.activate(KeyboardAction::Insert('é'));
    assert_eq!(keyboard.buffer, "aéb");
    assert_eq!(keyboard.cursor, 3);
    keyboard.activate(KeyboardAction::CursorRight);
    keyboard.activate(KeyboardAction::Backspace);
    assert_eq!(keyboard.buffer, "aé");
    assert_eq!(keyboard.cursor, 3);
}

#[test]
fn keyboard_activate_selected_handles_back_ok_and_keys() {
    let mut keyboard = KeyboardOverlay::bind_phrase("");
    assert_eq!(keyboard.activate_selected(), KeyboardResult::Pending);
    assert_eq!(keyboard.buffer, "q");
    keyboard.select(2, 0);
    keyboard.activate_selected();
    assert_eq!(keyboard.mode, KeyboardMode::Upper);
    keyboard.select(0, 0);
    keyboard.activate_selected();
    assert_eq!(keyboard.buffer, "qQ");
    keyboard.move_up();
    assert_eq!(keyboard.activate_selected(), KeyboardResult::Cancelled);
    keyboard.move_right();
    assert_eq!(
        keyboard.activate_selected(),
        KeyboardResult::Submitted {
            field: KeyboardField::BindPhrase,
            value: "qQ".to_string()
        }
    );
}

#[test]
fn keyboard_activate_clears_invalid_mark() {
    let mut keyboard = KeyboardOverlay::bind_phrase("");
    keyboard.mark_invalid();
    keyboard.activate(KeyboardAction::CursorLeft);
    assert!(!keyboard.invalid);
}

#[test]
fn keyboard_unknown_char_key_is_labelled_question_mark() {
    let mut keyboard = KeyboardOverlay::bind_phrase("");
    keyboard.activate(KeyboardAction::Mode(KeyboardMode::Numbers));
    keyboard.select(1, 7);
    assert_eq!(keyboard.selected_key().label, "?");
    assert_eq!(keyboard.selected_key().action, KeyboardAction::Insert('?'));
}

#[test]
fn bind_phrase_validation_reports_each_error() {
    assert_eq!(validate_bind_phrase(""), Err("Bind phrase is empty"));
    assert_eq!(
        validate_bind_phrase("abcdefghijabcdefghijabcdefghijabc"),
        Err("Bind phrase is too long")
    );
    assert_eq!(
        validate_bind_phrase("abcdefghijabcdefghijabcdefghijab"),
        Ok(())
    );
    assert_eq!(validate_bind_phrase("ab c"), Err("Use a-z, 0-9, - or _"));
    assert_eq!(validate_bind_phrase("é"), Err("Use a-z, 0-9, - or _"));
}

#[test]
fn insert_counts_multibyte_characters_in_bytes() {
    let mut keyboard = KeyboardOverlay::bind_phrase("");
    keyboard.max_len = 7;
    keyboard.activate(KeyboardAction::Insert('é'));
    assert_eq!(keyboard.cursor, 2);
    keyboard.activate(KeyboardAction::Insert('中'));
    assert_eq!(keyboard.cursor, 5);
    assert_eq!(keyboard.buffer, "é中");
    // A four-byte character would pass the limit of 7 bytes: nothing changes.
    assert_eq!(keyboard.activate(KeyboardAction::Insert('😀')), KeyboardResult::Pending);
    assert_eq!(keyboard.buffer, "é中");
    assert_eq!(keyboard.cursor, 5);
    keyboard.activate(KeyboardAction::Insert('a'));
    assert_eq!(keyboard.buffer, "é中a");
    keyboard.activate(KeyboardAction::Backspace);
    assert_eq!(keyboard.buffer, "é中");
    assert_eq!(keyboard.cursor, 5);
}
