//! The AUX MAP page (in the launcher slot of the former trainer page): it
//! shows four of the AUX channels CH5..CH16 at a time, each with its source
//! and live mixer value, and edits the focused channel's source with the
//! keyboard overlay.
//!
//! Loading and saving the active model is the caller's part: the page reads
//! the model it is handed and, on a valid submit, updates it in place for
//! the caller to store and publish.

use vstd::prelude::*;

use crate::config::{
    is_aux_channel, lemma_normalize_aux_shape, normalize_aux, parse_source, source_name,
    AuxChannelMapping, AuxSource, ModelConfig, AUX_CHANNEL_COUNT, AUX_FIRST_CHANNEL,
};
use crate::messages::{
    UiFeedbackMotion, UiFeedbackSeverity, UiFeedbackSlot, UiFeedbackTarget, UiInteractionFeedback,
};
use crate::ui::apps::scripts::{following_seq, next_seq, shown_seq, shown_seq_of};
use crate::ui::apps::AppSpec;
use crate::ui::input::UiInputEvent;
use crate::ui::keyboard::{KeyboardField, KeyboardFocus, KeyboardMode, KeyboardOverlay};
use crate::ui::model::{AppId, UiFrame};
use crate::ui::text::{decimal, push_decimal, push_text, upper_ascii};

verus! {

/// The AUX MAP page in the launcher.
pub fn app_spec() -> (res: AppSpec)
    ensures
        res.id == AppId::Trainer,
        res.title@ == "AUX MAP"@,
        res.icon_text@ == "AUX"@,
        res.accent == (255u8, 123u8, 118u8),
{
    AppSpec { id: AppId::Trainer, title: "AUX MAP", icon_text: "AUX", accent: (255, 123, 118) }
}

/// The AUX MAP page module.
pub struct TrainerApp;

/// How many AUX rows the page shows at once.
pub const AUX_VISIBLE_ROWS: usize = 4;

/// One shown row: channel, source name, live mixer value, the values the
/// source can produce, and whether the row has the focus.
#[derive(Debug, Clone, PartialEq, Eq)]
pub struct VisibleAuxRow {
    pub channel: u8,
    pub source: String,
    pub value: u16,
    pub possible_outputs: &'static str,
    pub is_focused: bool,
}

/// The focused AUX slot (0 for CH5): the focus index, clamped to the last
/// channel.
pub open spec fn focus_slot(focus: usize) -> int {
    if focus < AUX_CHANNEL_COUNT - 1 {
        focus as int
    } else {
        AUX_CHANNEL_COUNT - 1
    }
}

/// The first shown slot: one above the focus, but no further down than
/// the last four channels.
pub open spec fn window_start(focus: usize) -> int {
    let f = focus_slot(focus);
    let above = if f >= 1 {
        f - 1
    } else {
        0
    };
    if above < AUX_CHANNEL_COUNT - AUX_VISIBLE_ROWS {
        above
    } else {
        AUX_CHANNEL_COUNT - AUX_VISIBLE_ROWS
    }
}

/// The number of AUX channels, CH5..CH16.
pub fn aux_count() -> (res: usize)
    ensures
        res == AUX_CHANNEL_COUNT,
{
    AUX_CHANNEL_COUNT
}

fn focus_index(frame: &UiFrame) -> (res: usize)
    ensures
        res == focus_slot(frame.aux_map_focus_idx),
{
    let last = aux_count() - 1;
    if frame.aux_map_focus_idx < last {
        frame.aux_map_focus_idx
    } else {
        last
    }
}

/// The channel number of the focused row.
pub fn focused_channel(frame: &UiFrame) -> (res: u8)
    ensures
        res == focus_slot(frame.aux_map_focus_idx) + AUX_FIRST_CHANNEL,
{
    AUX_FIRST_CHANNEL + focus_index(frame) as u8
}

/// The slot of the first shown row.
pub fn visible_start(frame: &UiFrame) -> (res: usize)
    ensures
        res == window_start(frame.aux_map_focus_idx),
{
    let focus = focus_index(frame);
    let above = if focus >= 1 {
        focus - 1
    } else {
        0
    };
    let last_start = aux_count() - AUX_VISIBLE_ROWS;
    if above < last_start {
        above
    } else {
        last_start
    }
}

/// The values a source can produce: `0` for none, `0/5000/10000` for a
/// three-position switch, `0/10000` for a two-position switch or a button.
pub open spec fn possible_outputs_text(source: AuxSource) -> Seq<char> {
    match source {
        AuxSource::Unmapped => "0"@,
        AuxSource::Switch3Pos(_) => "0/5000/10000"@,
        _ => "0/10000"@,
    }
}

/// The values a source can produce (see `possible_outputs_text`).
pub fn aux_source_possible_outputs(source: AuxSource) -> (res: &'static str)
    ensures
        res@ == possible_outputs_text(source),
{
    match source {
        AuxSource::Unmapped => "0",
        AuxSource::Switch3Pos(_) => "0/5000/10000",
        AuxSource::Switch2Pos(_) | AuxSource::Button(_) => "0/10000",
    }
}

/// `row` shows slot `slot` of the normalized map `map` for `frame`.
pub open spec fn row_shows(row: VisibleAuxRow, slot: int, frame: UiFrame, map: Seq<AuxChannelMapping>) -> bool {
    &&& row.channel == slot + AUX_FIRST_CHANNEL
    &&& row.source@ == source_name(map[slot].source)
    &&& row.value == frame.mixer_out.channels[slot + AUX_FIRST_CHANNEL - 1]
    &&& row.possible_outputs@ == possible_outputs_text(map[slot].source)
    &&& row.is_focused == (slot == focus_slot(frame.aux_map_focus_idx))
}

/// The four shown rows: slots `window_start` to `window_start + 3` of the
/// model's normalized AUX map.
pub fn visible_aux_rows(frame: &UiFrame, model: &ModelConfig) -> (res: Vec<VisibleAuxRow>)
    ensures
        res.len() == AUX_VISIBLE_ROWS,
        forall|i: int|
            0 <= i < AUX_VISIBLE_ROWS ==> row_shows(
                #[trigger] res[i],
                window_start(frame.aux_map_focus_idx) + i,
                *frame,
                normalize_aux(model.aux_mapping.channels@),
            ),
{
    let mappings = model.aux_mapping.normalized_channels();
    proof {
        lemma_normalize_aux_shape(model.aux_mapping.channels@);
    }
    let start = visible_start(frame);
    let focus = focus_index(frame);
    let end = if start + AUX_VISIBLE_ROWS < aux_count() {
        start + AUX_VISIBLE_ROWS
    } else {
        aux_count()
    };
    let mut rows: Vec<VisibleAuxRow> = Vec::new();
    let mut index = start;
    while index < end
        invariant
            start == window_start(frame.aux_map_focus_idx),
            focus == focus_slot(frame.aux_map_focus_idx),
            end == start + AUX_VISIBLE_ROWS,
            start <= index <= end,
            rows.len() == index - start,
            mappings@ == normalize_aux(model.aux_mapping.channels@),
            mappings@.len() == AUX_CHANNEL_COUNT,
            forall|k: int|
                0 <= k < AUX_CHANNEL_COUNT ==> (#[trigger] mappings@[k]).channel == k
                    + AUX_FIRST_CHANNEL,
            forall|i: int|
                0 <= i < rows.len() ==> row_shows(#[trigger] rows[i], start + i, *frame, mappings@),
        decreases end - index,
    {
        let mapping = mappings[index];
        let value = frame.mixer_out.channels[(mapping.channel - 1) as usize];
        let row = VisibleAuxRow {
            channel: mapping.channel,
            source: mapping.source.name(),
            value,
            possible_outputs: aux_source_possible_outputs(mapping.source),
            is_focused: index == focus,
        };
        rows.push(row);
        index = index + 1;
    }
    rows
}

/// The values the focused channel's source can produce.
pub fn focused_aux_possible_outputs(frame: &UiFrame, model: &ModelConfig) -> (res: &'static str)
    ensures
        res@ == possible_outputs_text(
            normalize_aux(model.aux_mapping.channels@)[focus_slot(frame.aux_map_focus_idx)].source,
        ),
{
    let rows = visible_aux_rows(frame, model);
    let ghost focus = focus_slot(frame.aux_map_focus_idx);
    let ghost start = window_start(frame.aux_map_focus_idx);
    assert(row_shows(rows[focus - start], focus, *frame, normalize_aux(model.aux_mapping.channels@)));
    let mut i: usize = 0;
    while i < rows.len()
        invariant
            rows.len() == AUX_VISIBLE_ROWS,
            start <= focus < start + AUX_VISIBLE_ROWS,
            forall|j: int|
                0 <= j < AUX_VISIBLE_ROWS ==> row_shows(
                    #[trigger] rows[j],
                    start + j,
                    *frame,
                    normalize_aux(model.aux_mapping.channels@),
                ),
            forall|j: int| 0 <= j < i ==> !(#[trigger] rows[j]).is_focused,
            i <= rows.len(),
            focus == focus_slot(frame.aux_map_focus_idx),
        decreases rows.len() - i,
    {
        if rows[i].is_focused {
            return rows[i].possible_outputs;
        }
        i = i + 1;
    }
    assert(rows[focus - start].is_focused);
    "0"
}

/// A feedback message about the focused row: errors shake, others pulse.
pub fn feedback(seq: u32, severity: UiFeedbackSeverity, message: String) -> (res: UiInteractionFeedback)
    ensures
        res.seq == seq,
        res.severity == severity,
        res.target == UiFeedbackTarget::SelectedListRow,
        res.motion == (if severity == UiFeedbackSeverity::Error {
            UiFeedbackMotion::ShakeX
        } else {
            UiFeedbackMotion::Pulse
        }),
        res.slot == UiFeedbackSlot::TopStatusBar,
        res.message@ == message@,
        res.ttl_ms == 900,
{
    UiInteractionFeedback {
        seq,
        severity,
        target: UiFeedbackTarget::SelectedListRow,
        motion: match severity {
            UiFeedbackSeverity::Error => UiFeedbackMotion::ShakeX,
            _ => UiFeedbackMotion::Pulse,
        },
        slot: UiFeedbackSlot::TopStatusBar,
        message,
        ttl_ms: 900,
    }
}

/// The sequence number for the next feedback message of the frame.
pub fn next_feedback_seq(frame: &UiFrame) -> (res: u32)
    ensures
        res == following_seq(shown_seq(*frame)),
{
    next_seq(shown_seq_of(frame))
}

/// The keyboard field for the focused channel is already armed.
pub open spec fn armed_on_focus(frame: UiFrame) -> bool {
    frame.keyboard_armed_field == Some(
        KeyboardField::AuxSource {
            channel: (focus_slot(frame.aux_map_focus_idx) + AUX_FIRST_CHANNEL) as u8,
        },
    )
}

/// The frame is unchanged but for focus, keyboard and armed field.
pub open spec fn same_content(after: UiFrame, before: UiFrame) -> bool {
    &&& after.mixer_out == before.mixer_out
    &&& after.input_frame == before.input_frame
    &&& after.input_status == before.input_status
    &&& after.elrs_feedback == before.elrs_feedback
    &&& after.usb_gamepad == before.usb_gamepad
    &&& after.elrs == before.elrs
    &&& after.interaction_feedback == before.interaction_feedback
}

/// The submitted AUX channel of a keyboard field, if it is an AUX source
/// field for one of CH5..CH16.
pub open spec fn submit_channel(field: KeyboardField) -> Option<u8> {
    match field {
        KeyboardField::AuxSource { channel } => if is_aux_channel(channel) {
            Some(channel)
        } else {
            None
        },
        _ => None,
    }
}

/// What a keyboard submission on the page did.
#[derive(Debug, Clone, PartialEq, Eq)]
pub enum AuxSubmit {
    /// The field is not an AUX source of CH5..CH16: nothing was done.
    Ignored,
    /// The text names no source: show this error; the model is unchanged.
    Rejected(UiInteractionFeedback),
    /// The model's map now has the source on this channel: store and
    /// publish it.
    Updated { channel: u8 },
}

/// The text of a submitted channel's save result.
pub open spec fn saved_text(channel: u8) -> Seq<char> {
    "CH"@ + decimal(channel as nat) + " source saved"@
}

impl TrainerApp {
    /// Up and down move the focus over CH5..CH16; the first open on a row
    /// arms its source field and says "Click to edit", the second opens the
    /// keyboard on the source's name; any other event disarms.
    pub fn on_event(&self, frame: &mut UiFrame, event: UiInputEvent, model: &ModelConfig) -> (res: Option<UiInteractionFeedback>)
        requires
            event == UiInputEvent::Down ==> old(frame).aux_map_focus_idx < usize::MAX,
        ensures
            final(frame).aux_map_focus_idx == (match event {
                UiInputEvent::Up => if old(frame).aux_map_focus_idx >= 1 {
                    (old(frame).aux_map_focus_idx - 1) as usize
                } else {
                    0
                },
                UiInputEvent::Down => if old(frame).aux_map_focus_idx + 1 < AUX_CHANNEL_COUNT - 1 {
                    (old(frame).aux_map_focus_idx + 1) as usize
                } else {
                    (AUX_CHANNEL_COUNT - 1) as usize
                },
                _ => old(frame).aux_map_focus_idx,
            }),
            same_content(*final(frame), *old(frame)),
            !(event is Open) ==> res is None && final(frame).keyboard_armed_field is None
                && final(frame).keyboard == old(frame).keyboard,
            event is Open && !armed_on_focus(*old(frame)) ==> {
                &&& final(frame).keyboard_armed_field == Some(
                    KeyboardField::AuxSource {
                        channel: (focus_slot(old(frame).aux_map_focus_idx) + AUX_FIRST_CHANNEL) as u8,
                    },
                )
                &&& final(frame).keyboard == old(frame).keyboard
                &&& res matches Some(fb)
                &&& fb.seq == following_seq(shown_seq(*old(frame)))
                &&& fb.severity == UiFeedbackSeverity::Busy
                &&& fb.target == UiFeedbackTarget::SelectedListRow
                &&& fb.motion == UiFeedbackMotion::Pulse
                &&& fb.message@ == "Click to edit"@
                &&& fb.ttl_ms == 900
            },
            event is Open && armed_on_focus(*old(frame)) ==> {
                &&& res is None
                &&& final(frame).keyboard_armed_field is None
                &&& final(frame).keyboard matches Some(kb)
                &&& kb.field == KeyboardField::AuxSource {
                    channel: (focus_slot(old(frame).aux_map_focus_idx) + AUX_FIRST_CHANNEL) as u8,
                }
                &&& kb.buffer@ == source_name(
                    normalize_aux(model.aux_mapping.channels@)[focus_slot(
                        old(frame).aux_map_focus_idx,
                    )].source,
                )
                &&& kb.label@ == seq!['C', 'H'] + decimal(
                    (focus_slot(old(frame).aux_map_focus_idx) + AUX_FIRST_CHANNEL) as nat,
                ) + seq![' ', 'S', 'o', 'u', 'r', 'c', 'e']
                &&& kb.cursor == 0
                &&& kb.selected_row == 0
                &&& kb.selected_col == 0
                &&& kb.focus == KeyboardFocus::Key { row: 0, col: 0 }
                &&& kb.mode == KeyboardMode::Upper
                &&& !kb.invalid
                &&& kb.max_len == 4
            },
    {
        match event {
            UiInputEvent::Up => {
                frame.aux_map_focus_idx = if frame.aux_map_focus_idx >= 1 {
                    frame.aux_map_focus_idx - 1
                } else {
                    0
                };
                frame.keyboard_armed_field = None;
                None
            },
            UiInputEvent::Down => {
                let last = aux_count() - 1;
                frame.aux_map_focus_idx = if frame.aux_map_focus_idx + 1 < last {
                    frame.aux_map_focus_idx + 1
                } else {
                    last
                };
                frame.keyboard_armed_field = None;
                None
            },
            UiInputEvent::Open => {
                let channel = focused_channel(frame);
                let armed = match frame.keyboard_armed_field {
                    Some(KeyboardField::AuxSource { channel: c }) => c == channel,
                    _ => false,
                };
                if !armed {
                    frame.keyboard_armed_field = Some(KeyboardField::AuxSource { channel });
                    proof {
                        reveal_strlit("Click to edit");
                    }
                    return Some(
                        feedback(
                            next_feedback_seq(frame),
                            UiFeedbackSeverity::Busy,
                            "Click to edit".to_owned(),
                        ),
                    );
                }
                let mappings = model.aux_mapping.normalized_channels();
                proof {
                    lemma_normalize_aux_shape(model.aux_mapping.channels@);
                }
                let source = mappings[(channel - AUX_FIRST_CHANNEL) as usize].source.name();
                frame.keyboard = Some(KeyboardOverlay::aux_source(channel, source.as_str()));
                frame.keyboard_armed_field = None;
                None
            },
            _ => {
                frame.keyboard_armed_field = None;
                None
            },
        }
    }

    /// A keyboard submission: for the AUX source field of CH5..CH16, a text
    /// that names a source sets that channel's source (not inverted) in the
    /// model; a text that names none is rejected with "Invalid source" and
    /// the text; other fields are ignored.
    pub fn on_keyboard_submit(
        &self,
        frame: &UiFrame,
        field: KeyboardField,
        value: &str,
        model: &mut ModelConfig,
    ) -> (res: AuxSubmit)
        ensures
            submit_channel(field) is None ==> res == AuxSubmit::Ignored && *final(model) == *old(
                model,
            ),
            submit_channel(field) is Some && parse_source(value@) is None ==> {
                &&& res matches AuxSubmit::Rejected(fb)
                &&& fb.seq == following_seq(shown_seq(*frame))
                &&& fb.severity == UiFeedbackSeverity::Error
                &&& fb.target == UiFeedbackTarget::SelectedListRow
                &&& fb.motion == UiFeedbackMotion::ShakeX
                &&& fb.message@ == "Invalid source "@ + value@
                &&& fb.ttl_ms == 900
                &&& *final(model) == *old(model)
            },
            submit_channel(field) matches Some(channel) ==> (parse_source(value@) matches Some(
                source,
            ) ==> {
                &&& res == AuxSubmit::Updated { channel }
                &&& final(model).mixer == old(model).mixer
                &&& final(model).aux_mapping.channels@ == normalize_aux(
                    old(model).aux_mapping.channels@,
                ).update(
                    channel - AUX_FIRST_CHANNEL,
                    AuxChannelMapping { channel, source, inverted: false },
                )
            }),
    {
        let channel = match field {
            KeyboardField::AuxSource { channel } => channel,
            _ => {
                return AuxSubmit::Ignored;
            },
        };
        if !(AUX_FIRST_CHANNEL <= channel && channel <= 16) {
            return AuxSubmit::Ignored;
        }
        match AuxSource::parse_name(value) {
            None => {
                let mut message = "Invalid source ".to_owned();
                push_text(&mut message, value);
                AuxSubmit::Rejected(
                    feedback(next_feedback_seq(frame), UiFeedbackSeverity::Error, message),
                )
            },
            Some(source) => {
                model.aux_mapping.set_source(channel, source);
                AuxSubmit::Updated { channel }
            },
        }
    }

    /// The page's text (see `aux_detail_text`).
    pub fn render_terminal_detail(&self, frame: &UiFrame, model: &ModelConfig) -> (res: String)
        ensures
            res@ == aux_detail_text(*frame, normalize_aux(model.aux_mapping.channels@)),
    {
        let mappings = model.aux_mapping.normalized_channels();
        proof {
            lemma_normalize_aux_shape(model.aux_mapping.channels@);
        }
        let start = visible_start(frame);
        let mut s = "AUX Channel Map\n".to_owned();
        push_aux_line(&mut s, frame, &mappings, start);
        push_text(&mut s, "\n");
        push_aux_line(&mut s, frame, &mappings, start + 1);
        push_text(&mut s, "\n");
        push_aux_line(&mut s, frame, &mappings, start + 2);
        push_text(&mut s, "\n");
        push_aux_line(&mut s, frame, &mappings, start + 3);
        push_text(&mut s, "\n\nUp/Down: focus CH5-CH16\nEnter: edit source\nEsc Back");
        s
    }
}

/// The text of a save result: "CH<n> source saved", or "AUX map save
/// failed: " and the store's error.
pub fn save_outcome(frame: &UiFrame, channel: u8, saved: Result<(), &str>) -> (res: (
    bool,
    UiInteractionFeedback,
))
    ensures
        res.0 == saved is Ok,
        res.1.seq == following_seq(shown_seq(*frame)),
        res.1.target == UiFeedbackTarget::SelectedListRow,
        res.1.ttl_ms == 900,
        saved is Ok ==> res.1.severity == UiFeedbackSeverity::Success && res.1.motion
            == UiFeedbackMotion::Pulse && res.1.message@ == saved_text(channel),
        saved matches Err(err) ==> res.1.severity == UiFeedbackSeverity::Error && res.1.motion
            == UiFeedbackMotion::ShakeX && res.1.message@ == "AUX map save failed: "@ + err@,
{
    let seq = next_feedback_seq(frame);
    match saved {
        Ok(()) => {
            let mut message = "CH".to_owned();
            push_decimal(&mut message, channel as u32);
            push_text(&mut message, " source saved");
            (true, feedback(seq, UiFeedbackSeverity::Success, message))
        },
        Err(err) => {
            let mut message = "AUX map save failed: ".to_owned();
            push_text(&mut message, err);
            (false, feedback(seq, UiFeedbackSeverity::Error, message))
        },
    }
}

/// One row of the page's text: a `>` on the focused row, the channel, the
/// source name in upper case in brackets, and the live mixer value, such as
/// `> CH5: [S1] 10000`.
pub open spec fn aux_line_text(frame: UiFrame, map: Seq<AuxChannelMapping>, slot: int) -> Seq<char> {
    (if slot == focus_slot(frame.aux_map_focus_idx) {
        ">"@
    } else {
        " "@
    }) + " CH"@ + decimal((slot + AUX_FIRST_CHANNEL) as nat) + ": ["@ + upper_ascii(
        source_name(map[slot].source),
    ) + "] "@ + decimal(frame.mixer_out.channels[slot + AUX_FIRST_CHANNEL - 1] as nat)
}

/// The page's text: a title, the four shown rows, and the key help.
pub open spec fn aux_detail_text(frame: UiFrame, map: Seq<AuxChannelMapping>) -> Seq<char> {
    let start = window_start(frame.aux_map_focus_idx);
    "AUX Channel Map\n"@ + aux_line_text(frame, map, start) + "\n"@ + aux_line_text(
        frame,
        map,
        start + 1,
    ) + "\n"@ + aux_line_text(frame, map, start + 2) + "\n"@ + aux_line_text(frame, map, start + 3)
        + "\n\nUp/Down: focus CH5-CH16\nEnter: edit source\nEsc Back"@
}

fn push_aux_line(s: &mut String, frame: &UiFrame, mappings: &Vec<AuxChannelMapping>, slot: usize)
    requires
        slot < AUX_CHANNEL_COUNT,
        mappings@.len() == AUX_CHANNEL_COUNT,
        forall|k: int|
            0 <= k < AUX_CHANNEL_COUNT ==> (#[trigger] mappings@[k]).channel == k + AUX_FIRST_CHANNEL,
    ensures
        final(s)@ == old(s)@ + aux_line_text(*frame, mappings@, slot as int),
{
    let ghost start = s@;
    let focused = slot == focus_index(frame);
    push_text(s, if focused { ">" } else { " " });
    push_text(s, " CH");
    let mapping = mappings[slot];
    push_decimal(s, mapping.channel as u32);
    push_text(s, ": [");
    let label = mapping.source.display_name();
    push_text(s, label.as_str());
    push_text(s, "] ");
    push_decimal(s, frame.mixer_out.channels[(mapping.channel - 1) as usize] as u32);
    assert(s@ =~= start + aux_line_text(*frame, mappings@, slot as int));
}


/// The focused row is always one of the four shown rows, and the shown
/// rows are channels of CH5..CH16.
pub proof fn lemma_focus_is_shown(focus: usize)
    ensures
        0 <= window_start(focus),
        window_start(focus) + AUX_VISIBLE_ROWS <= AUX_CHANNEL_COUNT,
        window_start(focus) <= focus_slot(focus) < window_start(focus) + AUX_VISIBLE_ROWS,
{
}

} // verus!
