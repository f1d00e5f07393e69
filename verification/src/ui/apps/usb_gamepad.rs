//! The USB PAD page: toggles the USB HID gamepad output and shows its state.

use vstd::prelude::*;

use crate::messages::{
    UiFeedbackMotion, UiFeedbackSeverity, UiFeedbackSlot, UiFeedbackTarget, UiInteractionFeedback,
    UsbGamepadCommandMsg,
};
use crate::ui::apps::AppSpec;
use crate::ui::input::UiInputEvent;
use crate::ui::model::{input_health_label, input_source_label, AppId, UiFrame};
use crate::ui::text::{decimal, push_decimal, push_text};

verus! {

/// The USB PAD page in the launcher.
pub fn app_spec() -> (res: AppSpec)
    ensures
        res.id == AppId::UsbGamepad,
        res.title@ == "USB PAD"@,
        res.icon_text@ == "USB"@,
        res.accent == (88u8, 184u8, 120u8),
{
    AppSpec { id: AppId::UsbGamepad, title: "USB PAD", icon_text: "USB", accent: (88, 184, 120) }
}

/// The USB PAD page module.
pub struct UsbGamepadApp;

/// The sequence number of the page's toggle feedback.
pub const TOGGLE_FEEDBACK_SEQ: u32 = 0x7500;

/// A busy feedback message on the whole page.
pub fn feedback(seq: u32, message: &str) -> (res: UiInteractionFeedback)
    ensures
        res.seq == seq,
        res.severity == UiFeedbackSeverity::Busy,
        res.target == UiFeedbackTarget::Page,
        res.motion == UiFeedbackMotion::Pulse,
        res.slot == UiFeedbackSlot::TopStatusBar,
        res.message@ == message@,
        res.ttl_ms == 1200,
{
    UiInteractionFeedback {
        seq,
        severity: UiFeedbackSeverity::Busy,
        target: UiFeedbackTarget::Page,
        motion: UiFeedbackMotion::Pulse,
        slot: UiFeedbackSlot::TopStatusBar,
        message: message.to_owned(),
        ttl_ms: 1200,
    }
}

/// The events that toggle the output: open, left and right.
pub open spec fn toggles(event: UiInputEvent) -> bool {
    event is Open || event is Left || event is Right
}

/// The page's text: output state (the selected row), HID device state,
/// driver detail, input source and health, and mixer CH1..CH4.
pub open spec fn usb_detail_text(frame: UiFrame) -> Seq<char> {
    "USB HID Gamepad\n> Output: "@ + (if frame.usb_gamepad.running {
        "ON"@
    } else {
        "OFF"@
    }) + "\nDevice: /dev/hidg0 ["@ + (if frame.usb_gamepad.hid_ready {
        "ready"@
    } else {
        "missing"@
    }) + "]\nDetail: "@ + frame.usb_gamepad.detail@ + "\nInput: "@ + input_source_label(
        frame.input_status.source,
    ) + " ("@ + input_health_label(frame.input_status.health) + ")\nMixer: "@ + decimal(
        frame.mixer_out.channels[0] as nat,
    ) + "/"@ + decimal(frame.mixer_out.channels[1] as nat) + "/"@ + decimal(
        frame.mixer_out.channels[2] as nat,
    ) + "/"@ + decimal(frame.mixer_out.channels[3] as nat)
        + "\n\nEnter/Left/Right Toggle\nEsc Back"@
}

impl UsbGamepadApp {
    /// Open, left and right ask the USB gamepad service to toggle and show
    /// a busy "Toggling USB gamepad" message; other events do nothing.
    pub fn on_event(&self, frame: &mut UiFrame, event: UiInputEvent) -> (res: Option<
        (UsbGamepadCommandMsg, UiInteractionFeedback),
    >)
        ensures
            *final(frame) == *old(frame),
            toggles(event) <==> res is Some,
            res matches Some((cmd, fb)) ==> {
                &&& cmd == UsbGamepadCommandMsg::Toggle
                &&& fb.seq == TOGGLE_FEEDBACK_SEQ
                &&& fb.severity == UiFeedbackSeverity::Busy
                &&& fb.target == UiFeedbackTarget::Page
                &&& fb.motion == UiFeedbackMotion::Pulse
                &&& fb.slot == UiFeedbackSlot::TopStatusBar
                &&& fb.message@ == "Toggling USB gamepad"@
                &&& fb.ttl_ms == 1200
            },
    {
        match event {
            UiInputEvent::Open | UiInputEvent::Left | UiInputEvent::Right => Some(
                (UsbGamepadCommandMsg::Toggle, feedback(TOGGLE_FEEDBACK_SEQ, "Toggling USB gamepad")),
            ),
            _ => None,
        }
    }

    /// The page's text (see `usb_detail_text`).
    pub fn render_terminal_detail(&self, frame: &UiFrame) -> (res: String)
        ensures
            res@ == usb_detail_text(*frame),
    {
        let mut s = "USB HID Gamepad\n> Output: ".to_owned();
        push_text(&mut s, if frame.usb_gamepad.running { "ON" } else { "OFF" });
        push_text(&mut s, "\nDevice: /dev/hidg0 [");
        push_text(&mut s, if frame.usb_gamepad.hid_ready { "ready" } else { "missing" });
        push_text(&mut s, "]\nDetail: ");
        push_text(&mut s, frame.usb_gamepad.detail.as_str());
        push_text(&mut s, "\nInput: ");
        push_text(&mut s, frame.input_status.source.label());
        push_text(&mut s, " (");
        push_text(&mut s, frame.input_status.health.label());
        push_text(&mut s, ")\nMixer: ");
        push_decimal(&mut s, frame.mixer_out.channels[0] as u32);
        push_text(&mut s, "/");
        push_decimal(&mut s, frame.mixer_out.channels[1] as u32);
        push_text(&mut s, "/");
        push_decimal(&mut s, frame.mixer_out.channels[2] as u32);
        push_text(&mut s, "/");
        push_decimal(&mut s, frame.mixer_out.channels[3] as u32);
        push_text(&mut s, "\n\nEnter/Left/Right Toggle\nEsc Back");
        s
    }
}

} // verus!
