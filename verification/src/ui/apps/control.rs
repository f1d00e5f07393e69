//! The CONTROL page: the input chain at a glance, from the input source and
//! the raw stick channels to the mixer output of CH1..CH12.

use vstd::prelude::*;

use crate::messages::frame_channel_value;
use crate::ui::apps::AppSpec;
use crate::ui::input::UiInputEvent;
use crate::ui::model::{input_health_label, input_source_label, AppId, UiFrame};
use crate::ui::text::{decimal, push_decimal, push_signed, push_text, signed_decimal};

verus! {

/// The CONTROL page in the launcher.
pub fn app_spec() -> (res: AppSpec)
    ensures
        res.id == AppId::Control,
        res.title@ == "CONTROL"@,
        res.icon_text@ == "CTL"@,
        res.accent == (86u8, 214u8, 165u8),
{
    AppSpec { id: AppId::Control, title: "CONTROL", icon_text: "CTL", accent: (86, 214, 165) }
}

/// The CONTROL page module; it ignores input.
pub struct ControlApp;

/// A percentage as shown on the page: `NN%`, or `--` when unknown.
pub open spec fn percent_text(value: Option<u8>) -> Seq<char> {
    match value {
        Some(v) => decimal(v as nat) + "%"@,
        None => "--"@,
    }
}

fn push_percent(s: &mut String, value: Option<u8>)
    ensures
        final(s)@ == old(s)@ + percent_text(value),
{
    match value {
        Some(v) => {
            push_decimal(s, v as u32);
            push_text(s, "%");
            assert(old(s)@ + decimal(v as nat) + "%"@ =~= old(s)@ + percent_text(value));
        },
        None => push_text(s, "--"),
    }
}

/// The raw stick channels CH1..CH4 of the input frame, `0` for a channel
/// the frame lacks: `CH1-4: a/b/c/d`.
pub open spec fn raw_channels_text(channels: Seq<i16>) -> Seq<char> {
    "CH1-4: "@ + signed_decimal(frame_channel_value(channels, 0) as int) + "/"@ + signed_decimal(
        frame_channel_value(channels, 1) as int,
    ) + "/"@ + signed_decimal(frame_channel_value(channels, 2) as int) + "/"@ + signed_decimal(
        frame_channel_value(channels, 3) as int,
    )
}

fn push_raw_channels(s: &mut String, frame: &UiFrame)
    ensures
        final(s)@ == old(s)@ + raw_channels_text(frame.input_frame.channels@),
{
    let ghost start = s@;
    push_text(s, "CH1-4: ");
    push_signed(s, frame.input_frame.channel_value(0) as i32);
    push_text(s, "/");
    push_signed(s, frame.input_frame.channel_value(1) as i32);
    push_text(s, "/");
    push_signed(s, frame.input_frame.channel_value(2) as i32);
    push_text(s, "/");
    push_signed(s, frame.input_frame.channel_value(3) as i32);
    assert(s@ =~= start + raw_channels_text(frame.input_frame.channels@));
}

/// Four mixer channels starting at index `first`: `a/b/c/d`.
pub open spec fn mixer_group_text(channels: [u16; 16], first: int) -> Seq<char> {
    decimal(channels[first] as nat) + "/"@ + decimal(channels[first + 1] as nat) + "/"@ + decimal(
        channels[first + 2] as nat,
    ) + "/"@ + decimal(channels[first + 3] as nat)
}

fn push_mixer_group(s: &mut String, channels: &[u16; 16], first: usize)
    requires
        first + 4 <= 16,
    ensures
        final(s)@ == old(s)@ + mixer_group_text(*channels, first as int),
{
    let ghost start = s@;
    push_decimal(s, channels[first] as u32);
    push_text(s, "/");
    push_decimal(s, channels[first + 1] as u32);
    push_text(s, "/");
    push_decimal(s, channels[first + 2] as u32);
    push_text(s, "/");
    push_decimal(s, channels[first + 3] as u32);
    assert(s@ =~= start + mixer_group_text(*channels, first as int));
}

/// The page's text: input source and health, ELRS link feedback, the raw
/// stick channels, and the mixer output of CH1..CH12 in groups of four.
/// It shows no raw channel count.
pub open spec fn control_detail_text(frame: UiFrame) -> Seq<char> {
    "Input Source: "@ + input_source_label(frame.input_status.source) + "\nStatus: "@
        + input_health_label(frame.input_status.health) + " ("@ + frame.input_status.detail@
        + ")\nELRS Feedback: "@ + (if frame.elrs_feedback.connected {
        "connected"@
    } else {
        "disconnected"@
    }) + "  Signal:"@ + percent_text(frame.elrs_feedback.signal_strength_percent)
        + "  Aircraft Battery:"@ + percent_text(frame.elrs_feedback.aircraft_battery_percent)
        + "\nELRS Detail: "@ + frame.elrs_feedback.detail@ + "\nRaw Input\n"@ + raw_channels_text(
        frame.input_frame.channels@,
    ) + "\n\nMixer Out (0..10000)\nMixer CH1-4: "@ + mixer_group_text(frame.mixer_out.channels, 0)
        + "\nMixer CH5-8: "@ + mixer_group_text(frame.mixer_out.channels, 4) + "\nMixer CH9-12: "@
        + mixer_group_text(frame.mixer_out.channels, 8)
        + "\n\nUse this page to validate input chain.\nEsc Back"@
}

impl ControlApp {
    /// The CONTROL page ignores input.
    pub fn on_event(&self, frame: &mut UiFrame, event: UiInputEvent)
        ensures
            *final(frame) == *old(frame),
    {
    }

    /// The page's text (see `control_detail_text`).
    pub fn render_terminal_detail(&self, frame: &UiFrame) -> (res: String)
        ensures
            res@ == control_detail_text(*frame),
    {
        let mut s = "Input Source: ".to_owned();
        push_text(&mut s, frame.input_status.source.label());
        push_text(&mut s, "\nStatus: ");
        push_text(&mut s, frame.input_status.health.label());
        push_text(&mut s, " (");
        push_text(&mut s, frame.input_status.detail.as_str());
        push_text(&mut s, ")\nELRS Feedback: ");
        push_text(&mut s, if frame.elrs_feedback.connected { "connected" } else { "disconnected" });
        push_text(&mut s, "  Signal:");
        push_percent(&mut s, frame.elrs_feedback.signal_strength_percent);
        push_text(&mut s, "  Aircraft Battery:");
        push_percent(&mut s, frame.elrs_feedback.aircraft_battery_percent);
        push_text(&mut s, "\nELRS Detail: ");
        push_text(&mut s, frame.elrs_feedback.detail.as_str());
        push_text(&mut s, "\nRaw Input\n");
        push_raw_channels(&mut s, frame);
        push_text(&mut s, "\n\nMixer Out (0..10000)\nMixer CH1-4: ");
        push_mixer_group(&mut s, &frame.mixer_out.channels, 0);
        push_text(&mut s, "\nMixer CH5-8: ");
        push_mixer_group(&mut s, &frame.mixer_out.channels, 4);
        push_text(&mut s, "\nMixer CH9-12: ");
        push_mixer_group(&mut s, &frame.mixer_out.channels, 8);
        push_text(&mut s, "\n\nUse this page to validate input chain.\nEsc Back");
        s
    }
}

} // verus!
