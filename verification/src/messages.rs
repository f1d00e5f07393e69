//! Messages exchanged between the input, mixer and output stages.

use vstd::prelude::*;

verus! {

/// Decoded transmitter input: four stick axes, four three-position switches,
/// two two-position switches, the button word, and whether the switch fields
/// carry real data.
#[derive(Debug, Clone, Copy, PartialEq, Eq)]
pub struct RcInputRawMsg {
    pub axes: [i16; 4],
    pub switch_3pos: [u8; 4],
    pub switch_2pos: [bool; 2],
    pub buttons: u32,
    pub switches_present: bool,
}

impl Default for RcInputRawMsg {
    /// All axes, switches and buttons zero, and no switch data present.
    fn default() -> (res: Self)
        ensures
            res.axes@ == seq![0i16, 0, 0, 0],
            res.switch_3pos@ == seq![0u8, 0, 0, 0],
            res.switch_2pos@ == seq![false, false],
            res.buttons == 0,
            !res.switches_present,
    {
        let res = RcInputRawMsg {
            axes: [0i16; 4],
            switch_3pos: [0u8; 4],
            switch_2pos: [false; 2],
            buttons: 0,
            switches_present: false,
        };
        proof {
            assert(res.axes@ =~= seq![0i16, 0, 0, 0]);
            assert(res.switch_3pos@ =~= seq![0u8, 0, 0, 0]);
            assert(res.switch_2pos@ =~= seq![false, false]);
        }
        res
    }
}

/// One frame of raw stick channel samples.
#[derive(Debug, Clone, PartialEq, Eq)]
pub struct InputFrameMsg {
    pub channels: Vec<i16>,
}

/// The sample of channel `index`, or 0 where the frame has no such channel.
pub open spec fn frame_channel_value(channels: Seq<i16>, index: int) -> i16 {
    if 0 <= index < channels.len() {
        channels[index]
    } else {
        0
    }
}

impl InputFrameMsg {
    /// The sample of channel `index`, 0 for a channel the frame lacks.
    pub fn channel_value(&self, index: usize) -> (res: i16)
        ensures
            res == frame_channel_value(self.channels@, index as int),
    {
        if index < self.channels.len() {
            self.channels[index]
        } else {
            0
        }
    }
}

impl Default for InputFrameMsg {
    /// A frame without channels.
    fn default() -> (res: Self)
        ensures
            res.channels@.len() == 0,
    {
        InputFrameMsg { channels: Vec::new() }
    }
}

/// A request to the USB gamepad controller.
#[derive(Debug, Clone, Copy, PartialEq, Eq, Structural)]
pub enum UsbGamepadCommandMsg {
    Start,
    Stop,
    Toggle,
}

/// A command to a running USB gamepad driver; drivers ignore commands for
/// another generation.
#[derive(Debug, Clone, Copy, PartialEq, Eq, Structural)]
pub struct UsbGamepadDriverCommandMsg {
    pub generation: u32,
    pub stop: bool,
}

/// The published state of the USB gamepad output.
#[derive(Debug, Clone, PartialEq, Eq)]
pub struct UsbGamepadStateMsg {
    pub hid_ready: bool,
    pub running: bool,
    pub report_count: u32,
    pub generation: u32,
    pub detail: String,
}

/// How a UI feedback message is rated.
#[derive(Debug, Clone, Copy, PartialEq, Eq, Structural)]
pub enum UiFeedbackSeverity {
    Success,
    Error,
    Busy,
}

/// What a UI feedback message points at.
#[derive(Debug, Clone, PartialEq, Eq)]
pub enum UiFeedbackTarget {
    Page,
    SelectedListRow,
    FieldId(String),
}

/// How a UI feedback message moves.
#[derive(Debug, Clone, Copy, PartialEq, Eq, Structural)]
pub enum UiFeedbackMotion {
    Pulse,
    ShakeX,
}

/// Where a UI feedback message is shown.
#[derive(Debug, Clone, Copy, PartialEq, Eq, Structural)]
pub enum UiFeedbackSlot {
    TopStatusBar,
}

/// A transient UI feedback message.
#[derive(Debug, Clone, PartialEq, Eq)]
pub struct UiInteractionFeedback {
    pub seq: u32,
    pub severity: UiFeedbackSeverity,
    pub target: UiFeedbackTarget,
    pub motion: UiFeedbackMotion,
    pub slot: UiFeedbackSlot,
    pub message: String,
    pub ttl_ms: u32,
}

/// A request to the ELRS link service from the ELRS page.
#[derive(Debug, Clone, Copy, PartialEq, Eq, Structural)]
pub enum ElrsCommandMsg {
    Back,
    SelectPrev,
    SelectNext,
    ValueDec,
    ValueInc,
    Activate,
    Refresh,
}

} // verus!
