//! The ELRS page. With the link service online its events become ELRS
//! commands; offline ("local fallback", path `/` of module `ELRS`) the page
//! edits the radio's local ELRS settings itself: RF output, module WiFi, and
//! TX power stepping through 10/25/100/250/500/1000 mW.

use vstd::prelude::*;

use crate::messages::{
    ElrsCommandMsg, UiFeedbackMotion, UiFeedbackSeverity, UiFeedbackSlot, UiFeedbackTarget,
    UiInteractionFeedback,
};
use crate::ui::apps::AppSpec;
use crate::ui::input::UiInputEvent;
use crate::ui::keyboard::KeyboardField;
use crate::ui::model::{AppId, ElrsParamEntry, ElrsUiState, UiFrame};
use crate::ui::text::{decimal, push_decimal, push_text};

verus! {

/// The ELRS page in the launcher.
pub fn app_spec() -> (res: AppSpec)
    ensures
        res.id == AppId::Scripts,
        res.title@ == "ELRS"@,
        res.icon_text@ == "ELR"@,
        res.accent == (255u8, 216u8, 109u8),
{
    AppSpec { id: AppId::Scripts, title: "ELRS", icon_text: "ELR", accent: (255, 216, 109) }
}

/// The ELRS page module.
pub struct ScriptsApp;

/// The local ELRS settings.
#[derive(Debug, Clone, Copy, PartialEq, Eq, Structural)]
pub struct LocalElrsConfig {
    pub rf_output_enabled: bool,
    pub wifi_manual_on: bool,
    pub tx_power_mw: u16,
}

impl Default for LocalElrsConfig {
    /// RF output and WiFi off, 100 mW.
    fn default() -> (res: Self)
        ensures
            res == (LocalElrsConfig { rf_output_enabled: false, wifi_manual_on: false, tx_power_mw: 100 }),
    {
        LocalElrsConfig { rf_output_enabled: false, wifi_manual_on: false, tx_power_mw: 100 }
    }
}

/// The TX power levels in mW, ascending.
pub open spec fn power_levels() -> Seq<u16> {
    seq![10u16, 25, 100, 250, 500, 1000]
}

/// The number of TX power levels.
pub const LOCAL_POWER_LEVEL_COUNT: usize = 6;

fn power_level(index: usize) -> (res: u16)
    requires
        index < LOCAL_POWER_LEVEL_COUNT,
    ensures
        res == power_levels()[index as int],
{
    match index {
        0 => 10,
        1 => 25,
        2 => 100,
        3 => 250,
        4 => 500,
        _ => 1000,
    }
}

/// The distance between two power values.
pub open spec fn power_distance(a: u16, b: u16) -> int {
    if a >= b {
        a - b
    } else {
        b - a
    }
}

/// `k` is the index of the level nearest to `raw`, the lowest such index
/// when two levels are equally near.
pub open spec fn is_nearest_level(raw: u16, k: int) -> bool {
    &&& 0 <= k < LOCAL_POWER_LEVEL_COUNT
    &&& forall|j: int|
        0 <= j < LOCAL_POWER_LEVEL_COUNT ==> power_distance(power_levels()[k], raw)
            <= power_distance(#[trigger] power_levels()[j], raw)
    &&& forall|j: int|
        0 <= j < k ==> power_distance(power_levels()[k], raw) < power_distance(
            #[trigger] power_levels()[j],
            raw,
        )
}

/// The index of the level nearest to a raw power value.
pub fn nearest_power_index(raw: u16) -> (res: usize)
    ensures
        is_nearest_level(raw, res as int),
{
    let mut best: usize = 0;
    let mut best_distance: u16 = if power_level(0) >= raw {
        power_level(0) - raw
    } else {
        raw - power_level(0)
    };
    let mut i: usize = 1;
    while i < LOCAL_POWER_LEVEL_COUNT
        invariant
            1 <= i <= LOCAL_POWER_LEVEL_COUNT,
            best < i,
            best_distance == power_distance(power_levels()[best as int], raw),
            forall|j: int| 0 <= j < i ==> best_distance <= power_distance(#[trigger] power_levels()[j], raw),
            forall|j: int| 0 <= j < best ==> best_distance < power_distance(#[trigger] power_levels()[j], raw),
        decreases LOCAL_POWER_LEVEL_COUNT - i,
    {
        let level = power_level(i);
        let distance = if level >= raw {
            level - raw
        } else {
            raw - level
        };
        if distance < best_distance {
            best = i;
            best_distance = distance;
        }
        i = i + 1;
    }
    best
}

/// The TX power level nearest to a raw value (the lower one on a tie).
pub fn normalize_power_level(raw: u16) -> (res: u16)
    ensures
        exists|k: int| is_nearest_level(raw, k) && res == #[trigger] power_levels()[k],
{
    let k = nearest_power_index(raw);
    power_level(k)
}

/// The level `delta` steps away from the level nearest to `current`,
/// stopping at the lowest and highest levels.
pub open spec fn shifted_level(k: int, delta: int) -> u16 {
    let next = if k + delta < 0 {
        0
    } else if k + delta > 5 {
        5
    } else {
        k + delta
    };
    power_levels()[next]
}

proof fn lemma_levels_distinct()
    ensures
        forall|i: int, j: int|
            0 <= i < 6 && 0 <= j < 6 && #[trigger] power_levels()[i] == #[trigger] power_levels()[j]
                ==> i == j,
{
}

/// Steps the TX power `delta` levels up or down from the level nearest to
/// `current`, stopping at 10 mW and 1000 mW.
pub fn shift_power_level(current: u16, delta: isize) -> (res: u16)
    requires
        // The step from the nearest level's index does not overflow.
        forall|k: int| is_nearest_level(current, k) ==> k + delta <= isize::MAX,
    ensures
        exists|k: int| is_nearest_level(current, k) && res == #[trigger] shifted_level(k, delta as int),
{
    // The position of the normalized level among the levels: the levels
    // are distinct, so it is the index of the nearest level.
    let idx = nearest_power_index(current);
    assert(idx < 6);
    let next = idx as isize + delta;
    let clamped: usize = if next < 0 {
        0
    } else if next > 5 {
        5
    } else {
        next as usize
    };
    let res = power_level(clamped);
    assert(res == shifted_level(idx as int, delta as int));
    res
}

/// The parameter id of editable row `selected_idx` (rows 0 to 3).
pub open spec fn local_field_id(selected_idx: usize) -> Seq<char> {
    if selected_idx == 0 {
        "rf_output"@
    } else if selected_idx == 1 {
        "wifi_manual"@
    } else if selected_idx == 2 {
        "bind"@
    } else {
        "tx_power"@
    }
}

/// The target of a local feedback message: the selected row's parameter
/// for the four editable rows, else the selected list row.
pub open spec fn is_local_target(target: UiFeedbackTarget, selected_idx: usize) -> bool {
    if selected_idx <= 3 {
        target matches UiFeedbackTarget::FieldId(id) && id@ == local_field_id(selected_idx)
    } else {
        target == UiFeedbackTarget::SelectedListRow
    }
}

/// The field a local feedback message points at: the selected row's
/// parameter, or the selected list row past the editable ones.
pub fn local_feedback_target(selected_idx: usize) -> (res: UiFeedbackTarget)
    ensures
        is_local_target(res, selected_idx),
{
    proof {
        reveal_strlit("rf_output");
        reveal_strlit("wifi_manual");
        reveal_strlit("bind");
        reveal_strlit("tx_power");
    }
    match selected_idx {
        0 => UiFeedbackTarget::FieldId("rf_output".to_owned()),
        1 => UiFeedbackTarget::FieldId("wifi_manual".to_owned()),
        2 => UiFeedbackTarget::FieldId("bind".to_owned()),
        3 => UiFeedbackTarget::FieldId("tx_power".to_owned()),
        _ => UiFeedbackTarget::SelectedListRow,
    }
}

/// The sequence number after the one currently shown (1 if none).
pub open spec fn following_seq(previous: Option<u32>) -> u32 {
    match previous {
        Some(seq) => if seq == u32::MAX {
            0
        } else {
            (seq + 1) as u32
        },
        None => 1,
    }
}

/// The sequence number of the message shown on the frame, if any.
pub open spec fn shown_seq(frame: UiFrame) -> Option<u32> {
    match frame.interaction_feedback {
        Some(fb) => Some(fb.seq),
        None => None,
    }
}

/// The sequence number of the message shown on the frame, if any.
pub fn shown_seq_of(frame: &UiFrame) -> (res: Option<u32>)
    ensures
        res == shown_seq(*frame),
{
    match &frame.interaction_feedback {
        Some(fb) => Some(fb.seq),
        None => None,
    }
}

/// The next feedback sequence number: one after the shown one, wrapping.
pub fn next_seq(previous: Option<u32>) -> (res: u32)
    ensures
        res == following_seq(previous),
{
    match previous {
        Some(seq) => seq.wrapping_add(1),
        None => 1,
    }
}

/// How long a local feedback message of a severity is shown.
pub open spec fn local_ttl(severity: UiFeedbackSeverity) -> u32 {
    match severity {
        UiFeedbackSeverity::Error => 900,
        UiFeedbackSeverity::Success => 850,
        UiFeedbackSeverity::Busy => 1200,
    }
}

/// `fb` is a local-mode feedback message for row `selected_idx`, numbered
/// after `previous_seq`, in the top status bar.
pub open spec fn is_local_feedback(
    fb: UiInteractionFeedback,
    previous_seq: Option<u32>,
    selected_idx: usize,
    severity: UiFeedbackSeverity,
    motion: UiFeedbackMotion,
    message: Seq<char>,
) -> bool {
    &&& fb.seq == following_seq(previous_seq)
    &&& fb.severity == severity
    &&& fb.motion == motion
    &&& fb.slot == UiFeedbackSlot::TopStatusBar
    &&& fb.message@ == message
    &&& fb.ttl_ms == local_ttl(severity)
    &&& is_local_target(fb.target, selected_idx)
}

/// A local-mode feedback message for the selected row, numbered after the
/// message currently shown.
pub fn local_feedback(
    previous_seq: Option<u32>,
    selected_idx: usize,
    severity: UiFeedbackSeverity,
    motion: UiFeedbackMotion,
    message: &str,
) -> (res: UiInteractionFeedback)
    ensures
        is_local_feedback(res, previous_seq, selected_idx, severity, motion, message@),
{
    UiInteractionFeedback {
        seq: next_seq(previous_seq),
        severity,
        target: local_feedback_target(selected_idx),
        motion,
        slot: UiFeedbackSlot::TopStatusBar,
        message: message.to_owned(),
        ttl_ms: match severity {
            UiFeedbackSeverity::Error => 900,
            UiFeedbackSeverity::Success => 850,
            UiFeedbackSeverity::Busy => 1200,
        },
    }
}

/// Whether two texts are equal.
fn text_is(text: &String, expected: &str) -> (res: bool)
    ensures
        res == (text@ == expected@),
{
    *text == expected.to_owned()
}

/// The page is in local mode: it shows path `/` of module `ELRS`, the
/// fallback while the link service is offline.
pub open spec fn local_mode(elrs: ElrsUiState) -> bool {
    elrs.path@ == "/"@ && elrs.module_name@ == "ELRS"@
}

/// The page shows the local fallback (see `local_mode`).
pub fn is_local_fallback(elrs: &ElrsUiState) -> (res: bool)
    ensures
        res == local_mode(*elrs),
{
    text_is(&elrs.path, "/") && text_is(&elrs.module_name, "ELRS")
}

/// What a local-mode event does.
#[derive(Debug, Clone, Copy, PartialEq, Eq, Structural)]
pub enum LocalEvent {
    /// The selection moved; nothing else to do.
    Moved,
    /// Adjust the selected setting by this step.
    Adjust(isize),
    /// Reload the settings from storage.
    Reload,
    /// Not a local-mode event.
    Unhandled,
}

/// Handles the navigation part of a local-mode event: up and down move the
/// selection over the four editable rows; left adjusts down, right and
/// open adjust up, page-next reloads; other events are not local.
pub fn handle_local_navigation(elrs: &mut ElrsUiState, event: UiInputEvent) -> (res: LocalEvent)
    ensures
        res == (match event {
            UiInputEvent::Up | UiInputEvent::Down => LocalEvent::Moved,
            UiInputEvent::Left => LocalEvent::Adjust(-1isize),
            UiInputEvent::Right | UiInputEvent::Open => LocalEvent::Adjust(1isize),
            UiInputEvent::PageNext => LocalEvent::Reload,
            _ => LocalEvent::Unhandled,
        }),
        final(elrs).selected_idx == (match event {
            UiInputEvent::Up => if old(elrs).selected_idx >= 1 {
                (old(elrs).selected_idx - 1) as usize
            } else {
                0
            },
            UiInputEvent::Down => if old(elrs).selected_idx < 3 {
                (old(elrs).selected_idx + 1) as usize
            } else {
                3
            },
            _ => old(elrs).selected_idx,
        }),
        *final(elrs) == (ElrsUiState { selected_idx: final(elrs).selected_idx, ..*old(elrs) }),
{
    match event {
        UiInputEvent::Up => {
            elrs.selected_idx = if elrs.selected_idx >= 1 {
                elrs.selected_idx - 1
            } else {
                0
            };
            LocalEvent::Moved
        },
        UiInputEvent::Down => {
            elrs.selected_idx = if elrs.selected_idx < 3 {
                elrs.selected_idx + 1
            } else {
                3
            };
            LocalEvent::Moved
        },
        UiInputEvent::Left => LocalEvent::Adjust(-1),
        UiInputEvent::Right | UiInputEvent::Open => LocalEvent::Adjust(1),
        UiInputEvent::PageNext => LocalEvent::Reload,
        _ => LocalEvent::Unhandled,
    }
}

/// The effect of adjusting the selected local setting.
#[derive(Debug, Clone, Copy, PartialEq, Eq, Structural)]
pub enum LocalAdjust {
    /// Save these settings.
    Save(LocalElrsConfig),
    /// Binding needs the link service.
    BindUnavailable,
    /// Nothing to adjust: just redraw the local state.
    Redraw,
}

/// `res` is what adjusting row `selected_idx` by `delta` does: row 0
/// toggles RF output, row 1 toggles WiFi, row 2 (bind) is unavailable
/// offline, row 3 steps the TX power by `delta` from the level nearest to
/// the current one, other rows only redraw.
pub open spec fn adjust_plan(selected_idx: usize, cfg: LocalElrsConfig, delta: int, res: LocalAdjust) -> bool {
    if selected_idx == 0 {
        res == LocalAdjust::Save(LocalElrsConfig { rf_output_enabled: !cfg.rf_output_enabled, ..cfg })
    } else if selected_idx == 1 {
        res == LocalAdjust::Save(LocalElrsConfig { wifi_manual_on: !cfg.wifi_manual_on, ..cfg })
    } else if selected_idx == 2 {
        res == LocalAdjust::BindUnavailable
    } else if selected_idx == 3 {
        &&& res matches LocalAdjust::Save(next)
        &&& next.rf_output_enabled == cfg.rf_output_enabled
        &&& next.wifi_manual_on == cfg.wifi_manual_on
        &&& exists|k: int|
            is_nearest_level(cfg.tx_power_mw, k) && next.tx_power_mw == #[trigger] shifted_level(
                k,
                delta,
            )
    } else {
        res == LocalAdjust::Redraw
    }
}

/// What adjusting row `selected_idx` does (see `adjust_plan`).
pub fn local_adjust(selected_idx: usize, cfg: &LocalElrsConfig, delta: isize) -> (res: LocalAdjust)
    requires
        selected_idx == 3 ==> forall|k: int| is_nearest_level(cfg.tx_power_mw, k) ==> k + delta
            <= isize::MAX,
    ensures
        adjust_plan(selected_idx, *cfg, delta as int, res),
{
    match selected_idx {
        0 => LocalAdjust::Save(LocalElrsConfig { rf_output_enabled: !cfg.rf_output_enabled, ..*cfg }),
        1 => LocalAdjust::Save(LocalElrsConfig { wifi_manual_on: !cfg.wifi_manual_on, ..*cfg }),
        2 => LocalAdjust::BindUnavailable,
        3 => LocalAdjust::Save(
            LocalElrsConfig { tx_power_mw: shift_power_level(cfg.tx_power_mw, delta), ..*cfg },
        ),
        _ => LocalAdjust::Redraw,
    }
}

/// The status text and feedback style after adjusting row `selected_idx`
/// (0, 1 or 3) to `cfg`, given whether saving succeeded; row 2 (bind) is
/// an error offline.
pub open spec fn adjust_result(selected_idx: usize, cfg: LocalElrsConfig, saved: bool) -> (
    Seq<char>,
    UiFeedbackSeverity,
    UiFeedbackMotion,
) {
    if selected_idx == 2 {
        (
            "Bind feedback requires rf_link_service"@,
            UiFeedbackSeverity::Error,
            UiFeedbackMotion::ShakeX,
        )
    } else if !saved {
        (
            if selected_idx == 0 {
                "RF output save failed"@
            } else if selected_idx == 1 {
                "WiFi config save failed"@
            } else {
                "TX power save failed"@
            },
            UiFeedbackSeverity::Error,
            UiFeedbackMotion::ShakeX,
        )
    } else {
        (
            if selected_idx == 0 {
                if cfg.rf_output_enabled {
                    "RF output enabled"@
                } else {
                    "RF output disabled"@
                }
            } else if selected_idx == 1 {
                if cfg.wifi_manual_on {
                    "WiFi command armed"@
                } else {
                    "WiFi command cleared"@
                }
            } else {
                "TX power updated"@
            },
            UiFeedbackSeverity::Success,
            UiFeedbackMotion::Pulse,
        )
    }
}

/// The status text and feedback style after adjusting row `selected_idx`
/// (see `adjust_result`).
pub fn adjust_status(selected_idx: usize, cfg: &LocalElrsConfig, saved: bool) -> (res: (
    &'static str,
    UiFeedbackSeverity,
    UiFeedbackMotion,
))
    requires
        selected_idx <= 3,
    ensures
        (res.0@, res.1, res.2) == adjust_result(selected_idx, *cfg, saved),
{
    match selected_idx {
        0 => {
            if saved {
                if cfg.rf_output_enabled {
                    ("RF output enabled", UiFeedbackSeverity::Success, UiFeedbackMotion::Pulse)
                } else {
                    ("RF output disabled", UiFeedbackSeverity::Success, UiFeedbackMotion::Pulse)
                }
            } else {
                ("RF output save failed", UiFeedbackSeverity::Error, UiFeedbackMotion::ShakeX)
            }
        },
        1 => {
            if saved {
                if cfg.wifi_manual_on {
                    ("WiFi command armed", UiFeedbackSeverity::Success, UiFeedbackMotion::Pulse)
                } else {
                    ("WiFi command cleared", UiFeedbackSeverity::Success, UiFeedbackMotion::Pulse)
                }
            } else {
                ("WiFi config save failed", UiFeedbackSeverity::Error, UiFeedbackMotion::ShakeX)
            }
        },
        2 => (
            "Bind feedback requires rf_link_service",
            UiFeedbackSeverity::Error,
            UiFeedbackMotion::ShakeX,
        ),
        _ => {
            if saved {
                ("TX power updated", UiFeedbackSeverity::Success, UiFeedbackMotion::Pulse)
            } else {
                ("TX power save failed", UiFeedbackSeverity::Error, UiFeedbackMotion::ShakeX)
            }
        },
    }
}

/// An entry of the ELRS parameter list.
pub open spec fn param_is(
    entry: ElrsParamEntry,
    id: Seq<char>,
    label: Seq<char>,
    value: Seq<char>,
    selectable: bool,
) -> bool {
    &&& entry.id@ == id
    &&& entry.label@ == label
    &&& entry.value@ == value
    &&& entry.selectable == selectable
}

fn param(id: &str, label: &str, value: &str, selectable: bool) -> (res: ElrsParamEntry)
    ensures
        param_is(res, id@, label@, value@, selectable),
{
    ElrsParamEntry {
        id: id.to_owned(),
        label: label.to_owned(),
        value: value.to_owned(),
        selectable,
    }
}

/// The power display, such as `100mW`.
pub open spec fn power_text(tx_power_mw: u16) -> Seq<char> {
    decimal(tx_power_mw as nat) + seq!['m', 'W']
}

fn power_string(tx_power_mw: u16) -> (res: String)
    ensures
        res@ == power_text(tx_power_mw),
{
    let mut s = String::new();
    push_decimal(&mut s, tx_power_mw as u32);
    proof {
        reveal_strlit("mW");
    }
    push_text(&mut s, "mW");
    assert(s@ =~= power_text(tx_power_mw));
    s
}

/// "ON" or "OFF".
pub open spec fn on_off(on: bool) -> Seq<char> {
    if on {
        "ON"@
    } else {
        "OFF"@
    }
}

fn on_off_str(on: bool) -> (res: &'static str)
    ensures
        res@ == on_off(on),
{
    if on {
        "ON"
    } else {
        "OFF"
    }
}

/// The status of the page, as text, if one is given.
pub open spec fn status_view(status: Option<&str>) -> Option<Seq<char>> {
    match status {
        Some(text) => Some(text@),
        None => None,
    }
}

/// `after` shows the local settings `cfg` on the ELRS page: an offline
/// module at path `/`, the settings' values, and the nine local parameter
/// rows; the status text is `status` when one is given and is otherwise
/// kept, as is whether the page can be left.
pub open spec fn local_state_shown(
    after: ElrsUiState,
    before: ElrsUiState,
    cfg: LocalElrsConfig,
    status: Option<Seq<char>>,
) -> bool {
    &&& after.module_name@ == "ELRS"@
    &&& after.device_name@ == "Not Connected"@
    &&& after.version@ == "--"@
    &&& after.path@ == "/"@
    &&& !after.connected
    &&& after.rf_output_enabled == cfg.rf_output_enabled
    &&& !after.link_active
    &&& !after.busy
    &&& after.packet_rate@ == "--"@
    &&& after.telemetry_ratio@ == "--"@
    &&& after.tx_power@ == power_text(cfg.tx_power_mw)
    &&& after.wifi_running == cfg.wifi_manual_on
    &&& after.status_text@ == (match status {
            Some(text) => text,
            None => before.status_text@,
        })
    &&& after.can_leave == before.can_leave
    &&& after.params@.len() == 9
    &&& param_is(
            after.params@[0],
            "rf_output"@,
            "RF Output"@,
            on_off(cfg.rf_output_enabled),
            true,
        )
    &&& param_is(
            after.params@[1],
            "wifi_manual"@,
            "Module WiFi"@,
            on_off(cfg.wifi_manual_on),
            true,
        )
    &&& param_is(after.params@[2], "bind"@, "Bind"@, "SERVICE"@, true)
    &&& param_is(
            after.params@[3],
            "tx_power"@,
            "TX Power"@,
            power_text(cfg.tx_power_mw),
            true,
        )
    &&& param_is(
            after.params@[4],
            "link_state"@,
            "Link State"@,
            if cfg.rf_output_enabled {
                "SERVICE OFFLINE"@
            } else {
                "RF OFF"@
            },
            false,
        )
    &&& param_is(after.params@[5], "signal"@, "Signal"@, "--"@, false)
    &&& param_is(after.params@[6], "aircraft_battery"@, "Aircraft Battery"@, "--"@, false)
    &&& param_is(after.params@[7], "telemetry_fresh"@, "Telemetry Fresh"@, "stale"@, false)
    &&& param_is(after.params@[8], "feedback"@, "Feedback"@, "start rf_link_service"@, false)
}

/// Shows the local settings on the ELRS page (see `local_state_shown`);
/// the selection stays.
pub fn apply_local_state(elrs: &mut ElrsUiState, cfg: &LocalElrsConfig, status: Option<&str>)
    ensures
        local_state_shown(*final(elrs), *old(elrs), *cfg, status_view(status)),
        final(elrs).selected_idx == old(elrs).selected_idx,
{
    elrs.module_name = "ELRS".to_owned();
    elrs.device_name = "Not Connected".to_owned();
    elrs.version = "--".to_owned();
    elrs.path = "/".to_owned();
    elrs.connected = false;
    elrs.rf_output_enabled = cfg.rf_output_enabled;
    elrs.link_active = false;
    elrs.busy = false;
    elrs.packet_rate = "--".to_owned();
    elrs.telemetry_ratio = "--".to_owned();
    elrs.tx_power = power_string(cfg.tx_power_mw);
    elrs.wifi_running = cfg.wifi_manual_on;

    if let Some(status) = status {
        elrs.status_text = status.to_owned();
    }
    let mut params: Vec<ElrsParamEntry> = Vec::new();
    params.push(param("rf_output", "RF Output", on_off_str(cfg.rf_output_enabled), true));
    params.push(param("wifi_manual", "Module WiFi", on_off_str(cfg.wifi_manual_on), true));
    params.push(param("bind", "Bind", "SERVICE", true));
    let power = power_string(cfg.tx_power_mw);
    params.push(param("tx_power", "TX Power", power.as_str(), true));
    params.push(
        param(
            "link_state",
            "Link State",
            if cfg.rf_output_enabled {
                "SERVICE OFFLINE"
            } else {
                "RF OFF"
            },
            false,
        ),
    );
    params.push(param("signal", "Signal", "--", false));
    params.push(param("aircraft_battery", "Aircraft Battery", "--", false));
    params.push(param("telemetry_fresh", "Telemetry Fresh", "stale", false));
    params.push(param("feedback", "Feedback", "start rf_link_service", false));
    elrs.params = params;
}

/// The link-service command for an event on the online ELRS page: back
/// and page-previous go back, up and down select, left and right change
/// the value, open activates, page-next refreshes.
pub open spec fn online_command(event: UiInputEvent) -> Option<ElrsCommandMsg> {
    match event {
        UiInputEvent::Back | UiInputEvent::PagePrev => Some(ElrsCommandMsg::Back),
        UiInputEvent::Up => Some(ElrsCommandMsg::SelectPrev),
        UiInputEvent::Down => Some(ElrsCommandMsg::SelectNext),
        UiInputEvent::Left => Some(ElrsCommandMsg::ValueDec),
        UiInputEvent::Right => Some(ElrsCommandMsg::ValueInc),
        UiInputEvent::Open => Some(ElrsCommandMsg::Activate),
        UiInputEvent::PageNext => Some(ElrsCommandMsg::Refresh),
        _ => None,
    }
}

/// The link-service command for an event on the online ELRS page (see
/// `online_command`).
pub fn elrs_command_for(event: UiInputEvent) -> (res: Option<ElrsCommandMsg>)
    ensures
        res == online_command(event),
{
    match event {
        UiInputEvent::Back | UiInputEvent::PagePrev => Some(ElrsCommandMsg::Back),
        UiInputEvent::Up => Some(ElrsCommandMsg::SelectPrev),
        UiInputEvent::Down => Some(ElrsCommandMsg::SelectNext),
        UiInputEvent::Left => Some(ElrsCommandMsg::ValueDec),
        UiInputEvent::Right => Some(ElrsCommandMsg::ValueInc),
        UiInputEvent::Open => Some(ElrsCommandMsg::Activate),
        UiInputEvent::PageNext => Some(ElrsCommandMsg::Refresh),
        UiInputEvent::Quit | UiInputEvent::KeyboardTap { .. } | UiInputEvent::KeyboardSubmit => None,
    }
}

/// The first of the four shown parameter rows: one above the selection,
/// but no further down than the last four rows.
pub open spec fn list_start(selected: usize, len: nat) -> int {
    let above = if selected >= 1 {
        selected - 1
    } else {
        0
    };
    let last = if len >= 4 {
        len - 4
    } else {
        0
    };
    if above < last {
        above
    } else {
        last
    }
}

/// Parameter row `i` as a line: a `>` on the selected row, the label and
/// the value, such as `> TX Power: 100mW`; empty past the last row.
pub open spec fn param_line(elrs: ElrsUiState, i: int) -> Seq<char> {
    if 0 <= i < elrs.params@.len() {
        (if i == elrs.selected_idx {
            ">"@
        } else {
            " "@
        }) + " "@ + elrs.params@[i].label@ + ": "@ + elrs.params@[i].value@
    } else {
        Seq::empty()
    }
}

/// Line `k` (0..4) of the shown parameter list.
pub open spec fn list_line(elrs: ElrsUiState, k: int) -> Seq<char> {
    param_line(elrs, list_start(elrs.selected_idx, elrs.params@.len()) + k)
}

fn push_list_line(s: &mut String, elrs: &ElrsUiState, k: usize)
    requires
        k < 4,
    ensures
        final(s)@ == old(s)@ + list_line(*elrs, k as int),
{
    let ghost start = s@;
    let len = elrs.params.len();
    let above = if elrs.selected_idx >= 1 {
        elrs.selected_idx - 1
    } else {
        0
    };
    let last = if len >= 4 {
        len - 4
    } else {
        0
    };
    let first = if above < last {
        above
    } else {
        last
    };
    if first < len && k < len - first {
        let i = first + k;
        push_text(s, if i == elrs.selected_idx { ">" } else { " " });
        push_text(s, " ");
        push_text(s, elrs.params[i].label.as_str());
        push_text(s, ": ");
        push_text(s, elrs.params[i].value.as_str());
        assert(s@ =~= start + list_line(*elrs, k as int));
    } else {
        assert(s@ =~= start + list_line(*elrs, k as int));
    }
}

/// The ELRS page's text: link and busy state, module, device, version,
/// menu path and status, four parameter rows, and the key help.
pub open spec fn scripts_detail_text(elrs: ElrsUiState) -> Seq<char> {
    "Link: "@ + (if elrs.connected {
        "CONNECTED"@
    } else {
        "OFFLINE"@
    }) + " ("@ + (if elrs.busy {
        "BUSY"@
    } else {
        "READY"@
    }) + ")\nModule: "@ + elrs.module_name@ + "\nDevice: "@ + elrs.device_name@ + "\nVersion: "@
        + elrs.version@ + "\nPath: "@ + elrs.path@ + "\nStatus: "@ + elrs.status_text@ + "\n"@
        + list_line(elrs, 0) + "\n"@ + list_line(elrs, 1) + "\n"@ + list_line(elrs, 2) + "\n"@
        + list_line(elrs, 3)
        + "\n\nUp/Down: select  Left/Right: adjust  Enter: open/apply  ]: refresh\nEsc Back"@
}

/// The status shown when the page switches to its local settings.
pub open spec fn local_mode_status() -> Seq<char> {
    "Local config mode (rf_link_service offline)"@
}

/// What the caller does after an event on the ELRS page.
#[derive(Debug, Clone, PartialEq, Eq)]
pub enum ScriptsStep {
    /// Nothing more.
    Done,
    /// Send this command to the link service.
    Command(ElrsCommandMsg),
    /// Store these local settings, then call `finish_local_save` with
    /// whether that worked.
    SaveLocal { selected_idx: usize, cfg: LocalElrsConfig },
    /// Show this feedback message.
    Feedback(UiInteractionFeedback),
    /// Load the local settings again and show them with the status
    /// "ELRS config reloaded".
    Reload,
}

/// The step for an event on the online page: its link-service command, if
/// any.
pub open spec fn online_step(event: UiInputEvent) -> ScriptsStep {
    match online_command(event) {
        Some(cmd) => ScriptsStep::Command(cmd),
        None => ScriptsStep::Done,
    }
}

/// The selection after a local up or down: one row up or down, within the
/// four editable rows.
pub open spec fn moved_selection(selected_idx: usize, event: UiInputEvent) -> usize {
    match event {
        UiInputEvent::Up => if selected_idx >= 1 {
            (selected_idx - 1) as usize
        } else {
            0
        },
        UiInputEvent::Down => if selected_idx < 3 {
            (selected_idx + 1) as usize
        } else {
            3
        },
        _ => selected_idx,
    }
}

/// The frame is unchanged but for the ELRS page state.
pub open spec fn same_but_elrs(after: UiFrame, before: UiFrame) -> bool {
    after == UiFrame { elrs: after.elrs, ..before }
}

/// An event on the page in local mode, with the stored settings `cfg`: the
/// page first shows the settings with the local-mode status; up and down
/// move the selection; left adjusts down and right and open adjust up
/// (saving for rows 0, 1 and 3, an error for the bind row, a redraw past
/// the editable rows); page-next reloads; any other event goes to the link
/// service as online.
pub open spec fn local_step(
    before: UiFrame,
    after: UiFrame,
    event: UiInputEvent,
    cfg: LocalElrsConfig,
    res: ScriptsStep,
) -> bool {
    let sel = before.elrs.selected_idx;
    let entered = Some(local_mode_status());
    match event {
        UiInputEvent::Up | UiInputEvent::Down => {
            &&& res == ScriptsStep::Done
            &&& local_state_shown(after.elrs, before.elrs, cfg, entered)
            &&& after.elrs.selected_idx == moved_selection(sel, event)
        },
        UiInputEvent::Left | UiInputEvent::Right | UiInputEvent::Open => {
            let delta: int = if event is Left {
                -1
            } else {
                1
            };
            &&& after.elrs.selected_idx == sel
            &&& if sel == 2 {
                let message = "Bind feedback requires rf_link_service"@;
                &&& res matches ScriptsStep::Feedback(fb)
                &&& is_local_feedback(
                    fb,
                    shown_seq(before),
                    sel,
                    UiFeedbackSeverity::Error,
                    UiFeedbackMotion::ShakeX,
                    message,
                )
                &&& local_state_shown(after.elrs, before.elrs, cfg, Some(message))
            } else if sel > 3 {
                &&& res == ScriptsStep::Done
                &&& local_state_shown(after.elrs, before.elrs, cfg, Some("ELRS"@))
            } else {
                &&& res matches ScriptsStep::SaveLocal { selected_idx, cfg: next }
                &&& selected_idx == sel
                &&& adjust_plan(sel, cfg, delta, LocalAdjust::Save(next))
                &&& local_state_shown(after.elrs, before.elrs, cfg, entered)
            }
        },
        UiInputEvent::PageNext => {
            &&& res == ScriptsStep::Reload
            &&& local_state_shown(after.elrs, before.elrs, cfg, entered)
            &&& after.elrs.selected_idx == sel
        },
        _ => {
            &&& res == online_step(event)
            &&& local_state_shown(after.elrs, before.elrs, cfg, entered)
            &&& after.elrs.selected_idx == sel
        },
    }
}

impl ScriptsApp {
    /// An event on the ELRS page. Online, it becomes a link-service command;
    /// in local mode (see `local_step`) the page edits the stored settings
    /// `cfg`, leaving storing to the caller.
    pub fn on_event(&self, frame: &mut UiFrame, event: UiInputEvent, stored: &LocalElrsConfig) -> (res: ScriptsStep)
        ensures
            same_but_elrs(*final(frame), *old(frame)),
            !local_mode(old(frame).elrs) ==> final(frame).elrs == old(frame).elrs && res
                == online_step(event),
            local_mode(old(frame).elrs) ==> local_step(*old(frame), *final(frame), event, *stored, res),
    {
        if is_local_fallback(&frame.elrs) {
            apply_local_state(
                &mut frame.elrs,
                stored,
                Some("Local config mode (rf_link_service offline)"),
            );
            match handle_local_navigation(&mut frame.elrs, event) {
                LocalEvent::Moved => {
                    return ScriptsStep::Done;
                },
                LocalEvent::Adjust(delta) => {
                    let sel = frame.elrs.selected_idx;
                    match local_adjust(sel, stored, delta) {
                        LocalAdjust::Save(cfg) => {
                            return ScriptsStep::SaveLocal { selected_idx: sel, cfg };
                        },
                        LocalAdjust::BindUnavailable => {
                            let (status, severity, motion) = adjust_status(2, stored, false);
                            let fb = local_feedback(shown_seq_of(frame), sel, severity, motion, status);
                            apply_local_state(&mut frame.elrs, stored, Some(status));
                            return ScriptsStep::Feedback(fb);
                        },
                        LocalAdjust::Redraw => {
                            apply_local_state(&mut frame.elrs, stored, Some("ELRS"));
                            return ScriptsStep::Done;
                        },
                    }
                },
                LocalEvent::Reload => {
                    return ScriptsStep::Reload;
                },
                LocalEvent::Unhandled => {},
            }
        }
        match elrs_command_for(event) {
            Some(cmd) => ScriptsStep::Command(cmd),
            None => ScriptsStep::Done,
        }
    }

    /// After storing the settings of a local adjustment: the status and
    /// feedback for the adjusted row (see `adjust_result`), and the page
    /// showing `cfg` with that status.
    pub fn finish_local_save(
        &self,
        frame: &mut UiFrame,
        selected_idx: usize,
        cfg: &LocalElrsConfig,
        saved: bool,
    ) -> (res: UiInteractionFeedback)
        requires
            selected_idx <= 3,
        ensures
            is_local_feedback(
                res,
                shown_seq(*old(frame)),
                selected_idx,
                adjust_result(selected_idx, *cfg, saved).1,
                adjust_result(selected_idx, *cfg, saved).2,
                adjust_result(selected_idx, *cfg, saved).0,
            ),
            local_state_shown(
                final(frame).elrs,
                old(frame).elrs,
                *cfg,
                Some(adjust_result(selected_idx, *cfg, saved).0),
            ),
            final(frame).elrs.selected_idx == old(frame).elrs.selected_idx,
            same_but_elrs(*final(frame), *old(frame)),
    {
        let (status, severity, motion) = adjust_status(selected_idx, cfg, saved);
        let fb = local_feedback(shown_seq_of(frame), selected_idx, severity, motion, status);
        apply_local_state(&mut frame.elrs, cfg, Some(status));
        fb
    }

    /// The page's text (see `scripts_detail_text`).
    pub fn render_terminal_detail(&self, frame: &UiFrame) -> (res: String)
        ensures
            res@ == scripts_detail_text(frame.elrs),
    {
        let elrs = &frame.elrs;
        let mut s = "Link: ".to_owned();
        push_text(&mut s, if elrs.connected { "CONNECTED" } else { "OFFLINE" });
        push_text(&mut s, " (");
        push_text(&mut s, if elrs.busy { "BUSY" } else { "READY" });
        push_text(&mut s, ")\nModule: ");
        push_text(&mut s, elrs.module_name.as_str());
        push_text(&mut s, "\nDevice: ");
        push_text(&mut s, elrs.device_name.as_str());
        push_text(&mut s, "\nVersion: ");
        push_text(&mut s, elrs.version.as_str());
        push_text(&mut s, "\nPath: ");
        push_text(&mut s, elrs.path.as_str());
        push_text(&mut s, "\nStatus: ");
        push_text(&mut s, elrs.status_text.as_str());
        push_text(&mut s, "\n");
        push_list_line(&mut s, elrs, 0);
        push_text(&mut s, "\n");
        push_list_line(&mut s, elrs, 1);
        push_text(&mut s, "\n");
        push_list_line(&mut s, elrs, 2);
        push_text(&mut s, "\n");
        push_list_line(&mut s, elrs, 3);
        push_text(
            &mut s,
            "\n\nUp/Down: select  Left/Right: adjust  Enter: open/apply  ]: refresh\nEsc Back",
        );
        s
    }

    /// The back key is kept by the page while the link service says it
    /// cannot be left.
    pub fn intercept_back(&self, frame: &UiFrame) -> (res: bool)
        ensures
            res == !frame.elrs.can_leave,
    {
        !frame.elrs.can_leave
    }

    /// The ELRS page takes no keyboard submissions: it reports none as
    /// handled and leaves the frame as it is.
    pub fn on_keyboard_submit(&self, frame: &mut UiFrame, field: KeyboardField, value: &str) -> (res: bool)
        ensures
            !res,
            *final(frame) == *old(frame),
    {
        false
    }
}

/// Stepping the TX power up and then down again lands on the level nearest
/// to where it started, unless that level was already the highest.
pub proof fn lemma_power_step_round_trip(current: u16, k: int)
    requires
        is_nearest_level(current, k),
        k < 5,
    ensures
        is_nearest_level(shifted_level(k, 1), k + 1),
        shifted_level(k + 1, -1) == power_levels()[k],
{
    let up = shifted_level(k, 1);
    assert(up == power_levels()[k + 1]);
    assert forall|j: int| 0 <= j < LOCAL_POWER_LEVEL_COUNT implies power_distance(
        power_levels()[k + 1],
        up,
    ) <= power_distance(#[trigger] power_levels()[j], up) by {}
    assert forall|j: int| 0 <= j < k + 1 implies power_distance(power_levels()[k + 1], up)
        < power_distance(#[trigger] power_levels()[j], up) by {
        lemma_levels_distinct();
    }
}

/// A power that already is a level is its own nearest level.
pub proof fn lemma_levels_are_nearest_to_themselves(k: int)
    requires
        0 <= k < LOCAL_POWER_LEVEL_COUNT,
    ensures
        is_nearest_level(power_levels()[k], k),
{
    lemma_levels_distinct();
    assert forall|j: int| 0 <= j < k implies power_distance(
        power_levels()[k],
        power_levels()[k],
    ) < power_distance(#[trigger] power_levels()[j], power_levels()[k]) by {}
}

} // verus!
