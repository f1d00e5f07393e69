//! The UI state that the app pages read and update.

use vstd::prelude::*;

use crate::control::mixer::{default_mixer_channels, MixerOutMsg};
use crate::messages::{
    InputFrameMsg, UiFeedbackMotion, UiFeedbackSeverity, UiFeedbackSlot, UiFeedbackTarget,
    UsbGamepadStateMsg,
};
use crate::ui::keyboard::{KeyboardField, KeyboardOverlay};

verus! {

/// One row of the ELRS parameter list.
#[derive(Debug, Clone, PartialEq, Eq)]
pub struct ElrsParamEntry {
    pub id: String,
    pub label: String,
    pub value: String,
    pub selectable: bool,
}

/// The ELRS page state.
#[derive(Debug, Clone, PartialEq, Eq)]
pub struct ElrsUiState {
    pub connected: bool,
    pub busy: bool,
    pub can_leave: bool,
    pub module_name: String,
    pub device_name: String,
    pub version: String,
    pub path: String,
    pub status_text: String,
    pub rf_output_enabled: bool,
    pub link_active: bool,
    pub packet_rate: String,
    pub telemetry_ratio: String,
    pub tx_power: String,
    pub wifi_running: bool,
    pub params: Vec<ElrsParamEntry>,
    pub selected_idx: usize,
}

/// The feedback message currently shown, with its age.
#[derive(Debug, Clone, PartialEq, Eq)]
pub struct UiFeedbackSnapshot {
    pub seq: u32,
    pub severity: UiFeedbackSeverity,
    pub target: UiFeedbackTarget,
    pub motion: UiFeedbackMotion,
    pub slot: UiFeedbackSlot,
    pub message: String,
    pub elapsed_ms: u32,
    pub ttl_ms: u32,
}

/// The pages of the UI.
#[derive(Debug, Clone, Copy, PartialEq, Eq, Structural)]
pub enum AppId {
    Control,
    Scripts,
    Trainer,
    UsbGamepad,
    About,
}

/// Where stick input comes from.
#[derive(Debug, Clone, Copy, PartialEq, Eq, Structural)]
pub enum InputSource {
    Stm32Serial,
    CrsfRc,
    Mock,
    Joydev,
}

/// The health of the input source.
#[derive(Debug, Clone, Copy, PartialEq, Eq, Structural)]
pub enum InputHealth {
    Starting,
    Running,
    Error,
}

/// The input source and its health.
#[derive(Debug, Clone, PartialEq, Eq)]
pub struct InputStatusMsg {
    pub source: InputSource,
    pub health: InputHealth,
    pub detail: String,
}

/// Link feedback reported by the ELRS module.
#[derive(Debug, Clone, PartialEq, Eq)]
pub struct ElrsFeedbackState {
    pub connected: bool,
    pub signal_strength_percent: Option<u8>,
    pub aircraft_battery_percent: Option<u8>,
    pub detail: String,
}

/// Everything a page needs to react to input and to render itself.
#[derive(Debug, Clone, PartialEq, Eq)]
pub struct UiFrame {
    pub mixer_out: MixerOutMsg,
    pub input_frame: InputFrameMsg,
    pub input_status: InputStatusMsg,
    pub elrs_feedback: ElrsFeedbackState,
    pub usb_gamepad: UsbGamepadStateMsg,
    pub elrs: ElrsUiState,
    pub aux_map_focus_idx: usize,
    pub keyboard_armed_field: Option<KeyboardField>,
    pub keyboard: Option<KeyboardOverlay>,
    pub interaction_feedback: Option<UiFeedbackSnapshot>,
}

impl InputSource {
    /// The display name of the source.
    pub fn label(&self) -> (res: &'static str)
        ensures
            res@ == input_source_label(*self),
    {
        proof {
            reveal_strlit("STM32");
            reveal_strlit("CRSF");
            reveal_strlit("MOCK");
            reveal_strlit("JOYDEV");
        }
        match self {
            InputSource::Stm32Serial => "STM32",
            InputSource::CrsfRc => "CRSF",
            InputSource::Mock => "MOCK",
            InputSource::Joydev => "JOYDEV",
        }
    }
}

/// The display name of an input source.
pub open spec fn input_source_label(source: InputSource) -> Seq<char> {
    match source {
        InputSource::Stm32Serial => seq!['S', 'T', 'M', '3', '2'],
        InputSource::CrsfRc => seq!['C', 'R', 'S', 'F'],
        InputSource::Mock => seq!['M', 'O', 'C', 'K'],
        InputSource::Joydev => seq!['J', 'O', 'Y', 'D', 'E', 'V'],
    }
}

impl InputHealth {
    /// The display name of the health.
    pub fn label(&self) -> (res: &'static str)
        ensures
            res@ == input_health_label(*self),
    {
        proof {
            reveal_strlit("STARTING");
            reveal_strlit("RUNNING");
            reveal_strlit("ERROR");
        }
        match self {
            InputHealth::Starting => "STARTING",
            InputHealth::Running => "RUNNING",
            InputHealth::Error => "ERROR",
        }
    }
}

/// The display name of an input health.
pub open spec fn input_health_label(health: InputHealth) -> Seq<char> {
    match health {
        InputHealth::Starting => seq!['S', 'T', 'A', 'R', 'T', 'I', 'N', 'G'],
        InputHealth::Running => seq!['R', 'U', 'N', 'N', 'I', 'N', 'G'],
        InputHealth::Error => seq!['E', 'R', 'R', 'O', 'R'],
    }
}

impl Default for UiFrame {
    /// A frame before any message arrived: default mixer output, no input,
    /// the ELRS page disconnected at the root `/` of module `ELRS` (so in
    /// local mode until the link service reports), nothing focused or armed.
    fn default() -> (res: Self)
        ensures
            res.mixer_out.channels@ == default_mixer_channels(),
            res.input_frame.channels@.len() == 0,
            !res.usb_gamepad.running,
            !res.usb_gamepad.hid_ready,
            res.usb_gamepad.detail@.len() == 0,
            res.elrs.selected_idx == 0,
            !res.elrs.connected,
            res.elrs.module_name@ == "ELRS"@,
            res.elrs.path@ == "/"@,
            res.elrs.can_leave,
            res.aux_map_focus_idx == 0,
            res.keyboard_armed_field is None,
            res.keyboard is None,
            res.interaction_feedback is None,
    {
        UiFrame {
            mixer_out: MixerOutMsg::default(),
            input_frame: InputFrameMsg::default(),
            input_status: InputStatusMsg {
                source: InputSource::Stm32Serial,
                health: InputHealth::Starting,
                detail: String::new(),
            },
            elrs_feedback: ElrsFeedbackState {
                connected: false,
                signal_strength_percent: None,
                aircraft_battery_percent: None,
                detail: String::new(),
            },
            usb_gamepad: UsbGamepadStateMsg {
                hid_ready: false,
                running: false,
                report_count: 0,
                generation: 0,
                detail: String::new(),
            },
            elrs: ElrsUiState {
                connected: false,
                busy: false,
                can_leave: true,
                module_name: "ELRS".to_owned(),
                device_name: String::new(),
                version: String::new(),
                path: "/".to_owned(),
                status_text: String::new(),
                rf_output_enabled: false,
                link_active: false,
                packet_rate: String::new(),
                telemetry_ratio: String::new(),
                tx_power: String::new(),
                wifi_running: false,
                params: Vec::new(),
                selected_idx: 0,
            },
            aux_map_focus_idx: 0,
            keyboard_armed_field: None,
            keyboard: None,
            interaction_feedback: None,
        }
    }
}

} // verus!
