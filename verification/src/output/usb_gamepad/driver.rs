//! The USB HID gamepad output: 7-byte reports in a PS4/PS5-style layout and
//! the driver's per-frame decisions.
//!
//! Report bytes: buttons 1-8, buttons 9-16, left X (rudder, CH4), left Y
//! (throttle, CH3), right X (aileron, CH1), right Y (elevator, CH2), padding.
//! Axes are -127..=127 with 0 at the centre.

use vstd::prelude::*;

use crate::control::mixer::{clamp_int, trunc_div, MixerOutMsg};
use crate::messages::{UsbGamepadDriverCommandMsg, UsbGamepadStateMsg};
use crate::ui::text::{decimal, push_decimal, push_text};

verus! {

/// The driver publishes its state at least this often while running.
pub const STATE_PUBLISH_INTERVAL_MS: u64 = 1000;

/// One HID gamepad report.
#[derive(Debug, Clone, Copy, PartialEq, Eq)]
pub struct HidGamepadReport {
    pub buttons_lo: u8,
    pub buttons_hi: u8,
    pub left_x: i8,
    pub left_y: i8,
    pub right_x: i8,
    pub right_y: i8,
    pub _reserved: u8,
}

impl HidGamepadReport {
    /// A neutral report: no buttons, sticks centred, throttle at its lowest.
    pub fn new() -> (res: Self)
        ensures
            res.buttons_lo == 0,
            res.buttons_hi == 0,
            res.left_x == 0,
            res.left_y == -127,
            res.right_x == 0,
            res.right_y == 0,
            res._reserved == 0,
    {
        Self {
            buttons_lo: 0,
            buttons_hi: 0,
            left_x: 0,
            left_y: -127,
            right_x: 0,
            right_y: 0,
            _reserved: 0,
        }
    }

    /// The report as sent on the wire; axes in two's complement.
    pub fn to_bytes(&self) -> (res: [u8; 7])
        ensures
            res@ == seq![
                self.buttons_lo,
                self.buttons_hi,
                self.left_x as u8,
                self.left_y as u8,
                self.right_x as u8,
                self.right_y as u8,
                self._reserved,
            ],
    {
        let res = [
            self.buttons_lo,
            self.buttons_hi,
            self.left_x as u8,
            self.left_y as u8,
            self.right_x as u8,
            self.right_y as u8,
            self._reserved,
        ];
        assert(res@ =~= seq![
            self.buttons_lo,
            self.buttons_hi,
            self.left_x as u8,
            self.left_y as u8,
            self.right_x as u8,
            self.right_y as u8,
            self._reserved,
        ]);
        res
    }
}

/// A mixer value (0..=10000, centre 5000) as a HID axis: (v - 5000) / 5000
/// scaled to 127, rounded toward zero and limited to -127..=127.
pub open spec fn hid_axis(mixer_value: u16) -> i8 {
    clamp_int(trunc_div((mixer_value - 5000) * 127, 5000), -127, 127) as i8
}

fn scale_to_axis(mixer_value: u16) -> (res: i8)
    ensures
        res == hid_axis(mixer_value),
        -127 <= res <= 127,
{
    let centered = mixer_value as i32 - 5000;
    let product = centered * 127;
    let scaled = if product >= 0 {
        product / 5000
    } else {
        -((-product) / 5000)
    };
    let clamped = if scaled < -127 {
        -127
    } else if scaled > 127 {
        127
    } else {
        scaled
    };
    clamped as i8
}

/// Converts a centred mixer channel to a HID axis.
pub fn mixer_to_hid_axis(mixer_value: u16) -> (res: i8)
    ensures
        res == hid_axis(mixer_value),
        -127 <= res <= 127,
{
    scale_to_axis(mixer_value)
}

/// Converts the throttle channel (0 lowest, 10000 highest) to a HID axis
/// (-127 lowest, 127 highest).
pub fn mixer_throttle_to_hid_axis(mixer_value: u16) -> (res: i8)
    ensures
        res == hid_axis(mixer_value),
        -127 <= res <= 127,
{
    scale_to_axis(mixer_value)
}

/// The report for one mixer frame: left stick rudder (CH4) and throttle
/// (CH3), right stick aileron (CH1) and elevator (CH2), no buttons.
pub fn report_for_mixer(msg: &MixerOutMsg) -> (res: HidGamepadReport)
    ensures
        res.buttons_lo == 0,
        res.buttons_hi == 0,
        res.left_x == hid_axis(msg.channels[3]),
        res.left_y == hid_axis(msg.channels[2]),
        res.right_x == hid_axis(msg.channels[0]),
        res.right_y == hid_axis(msg.channels[1]),
        res._reserved == 0,
{
    let mut report = HidGamepadReport::new();
    report.left_x = mixer_to_hid_axis(msg.channels[3]);
    report.left_y = mixer_throttle_to_hid_axis(msg.channels[2]);
    report.right_x = mixer_to_hid_axis(msg.channels[0]);
    report.right_y = mixer_to_hid_axis(msg.channels[1]);
    report._reserved = 0;
    report.buttons_lo = 0;
    report.buttons_hi = 0;
    report
}

/// Whether to publish progress after sending report number `report_count`:
/// after the first report, after every hundredth, and when a second or more
/// has passed since the last publication.
pub fn should_publish_report_progress(report_count: u32, elapsed_ms: u64) -> (res: bool)
    ensures
        res == (report_count == 1 || report_count % 100 == 0 || elapsed_ms
            >= STATE_PUBLISH_INTERVAL_MS),
{
    report_count == 1 || report_count % 100 == 0 || elapsed_ms >= STATE_PUBLISH_INTERVAL_MS
}

/// Whether a driver command stops the driver of `generation`.
pub fn is_stop_command(cmd: &UsbGamepadDriverCommandMsg, generation: u32) -> (res: bool)
    ensures
        res == (cmd.stop && cmd.generation == generation),
{
    cmd.stop && cmd.generation == generation
}

/// `a - b`, stopping at 0.
pub open spec fn elapsed_since(now_ms: u64, since_ms: u64) -> u64 {
    if now_ms >= since_ms {
        (now_ms - since_ms) as u64
    } else {
        0
    }
}

/// The driver's running counters: reports sent, and when its state was
/// last published.
#[derive(Debug, Clone, Copy, PartialEq, Eq)]
pub struct DriverProgress {
    pub counter: u32,
    pub last_publish_ms: u64,
}

impl DriverProgress {
    /// A driver that has sent nothing and has just published its state.
    pub fn new(now_ms: u64) -> (res: Self)
        ensures
            res.counter == 0,
            res.last_publish_ms == now_ms,
    {
        DriverProgress { counter: 0, last_publish_ms: now_ms }
    }

    /// A tick without mixer data: whether the running state is due to be
    /// published (a second has passed); if so the publication time resets.
    pub fn idle_tick(&mut self, now_ms: u64) -> (publish: bool)
        ensures
            publish == (elapsed_since(now_ms, old(self).last_publish_ms)
                >= STATE_PUBLISH_INTERVAL_MS),
            final(self).counter == old(self).counter,
            final(self).last_publish_ms == if publish {
                now_ms
            } else {
                old(self).last_publish_ms
            },
    {
        let elapsed = if now_ms >= self.last_publish_ms {
            now_ms - self.last_publish_ms
        } else {
            0
        };
        if elapsed >= STATE_PUBLISH_INTERVAL_MS {
            self.last_publish_ms = now_ms;
            true
        } else {
            false
        }
    }

    /// A mixer frame: counts it, builds its report bytes, and tells whether
    /// progress is due to be published (resetting the publication time if so).
    pub fn on_mixer_frame(&mut self, msg: &MixerOutMsg, now_ms: u64) -> (res: ([u8; 7], bool))
        requires
            old(self).counter < u32::MAX,
        ensures
            final(self).counter == old(self).counter + 1,
            res.0@ == seq![
                0u8,
                0u8,
                hid_axis(msg.channels[3]) as u8,
                hid_axis(msg.channels[2]) as u8,
                hid_axis(msg.channels[0]) as u8,
                hid_axis(msg.channels[1]) as u8,
                0u8,
            ],
            res.1 == (final(self).counter == 1 || final(self).counter % 100 == 0 || elapsed_since(
                now_ms,
                old(self).last_publish_ms,
            ) >= STATE_PUBLISH_INTERVAL_MS),
            final(self).last_publish_ms == if res.1 {
                now_ms
            } else {
                old(self).last_publish_ms
            },
    {
        self.counter = self.counter + 1;
        let report = report_for_mixer(msg);
        let bytes = report.to_bytes();
        let elapsed = if now_ms >= self.last_publish_ms {
            now_ms - self.last_publish_ms
        } else {
            0
        };
        let publish = should_publish_report_progress(self.counter, elapsed);
        if publish {
            self.last_publish_ms = now_ms;
        }
        (bytes, publish)
    }
}

/// The HID axis is 0 at the centre and spans the full range at the ends,
/// and it never decreases as the mixer value grows.
pub proof fn lemma_hid_axis_shape(a: u16, b: u16)
    ensures
        hid_axis(5000) == 0,
        hid_axis(0) == -127,
        hid_axis(10000) == 127,
        a <= b ==> hid_axis(a) <= hid_axis(b),
{
    assert(hid_axis(5000) == 0);
    assert(hid_axis(0) == -127);
    assert(hid_axis(10000) == 127);
    if a <= b {
        let pa = (a - 5000) * 127;
        let pb = (b - 5000) * 127;
        assert(pa <= pb) by (nonlinear_arith)
            requires
                a <= b,
                pa == (a - 5000) * 127,
                pb == (b - 5000) * 127,
        ;
        assert(trunc_div(pa, 5000) <= trunc_div(pb, 5000)) by (nonlinear_arith)
            requires
                pa <= pb,
        {
            if pa >= 0 {
                assert(pa / 5000 <= pb / 5000);
            } else if pb >= 0 {
                assert(-((-pa) / 5000) <= 0);
            } else {
                assert((-pb) / 5000 <= (-pa) / 5000);
            }
        }
    }
}


/// The driver's state for publication: whether the HID device exists,
/// whether the driver runs, the reports sent, its generation, and a detail.
pub fn driver_state(
    hid_ready: bool,
    running: bool,
    report_count: u32,
    generation: u32,
    detail: &str,
) -> (res: UsbGamepadStateMsg)
    ensures
        res.hid_ready == hid_ready,
        res.running == running,
        res.report_count == report_count,
        res.generation == generation,
        res.detail@ == detail@,
{
    UsbGamepadStateMsg { hid_ready, running, report_count, generation, detail: detail.to_owned() }
}

/// The progress detail after `count` reports: `sent <count> HID reports`.
pub open spec fn sent_reports_text(count: u32) -> Seq<char> {
    "sent "@ + decimal(count as nat) + " HID reports"@
}

/// The progress detail after `count` reports (see `sent_reports_text`).
pub fn sent_reports_detail(count: u32) -> (res: String)
    ensures
        res@ == sent_reports_text(count),
{
    let mut s = "sent ".to_owned();
    push_decimal(&mut s, count);
    push_text(&mut s, " HID reports");
    s
}


/// The detail of a failed device operation: `<action> <device> failed:
/// <error>`.
pub open spec fn failure_text(action: Seq<char>, device: Seq<char>, error: Seq<char>) -> Seq<char> {
    action + " "@ + device + " failed: "@ + error
}

/// The detail of a failed device operation (see `failure_text`).
pub fn failure_detail(action: &str, device: &str, error: &str) -> (res: String)
    ensures
        res@ == failure_text(action@, device@, error@),
{
    let mut s = action.to_owned();
    push_text(&mut s, " ");
    push_text(&mut s, device);
    push_text(&mut s, " failed: ");
    push_text(&mut s, error);
    s
}

/// A running USB gamepad driver: its generation and its progress.
#[derive(Debug, Clone, Copy, PartialEq, Eq)]
pub struct UsbGamepadDriver {
    pub generation: u32,
    pub progress: DriverProgress,
}

impl UsbGamepadDriver {
    /// A driver of `generation` that has opened its device at `now_ms`,
    /// with the running state it publishes first.
    pub fn start(generation: u32, now_ms: u64, hid_ready: bool) -> (res: (Self, UsbGamepadStateMsg))
        ensures
            res.0.generation == generation,
            res.0.progress == (DriverProgress { counter: 0, last_publish_ms: now_ms }),
            res.1.hid_ready == hid_ready,
            res.1.running,
            res.1.report_count == 0,
            res.1.generation == generation,
            res.1.detail@ == "USB gamepad running"@,
    {
        let driver = UsbGamepadDriver { generation, progress: DriverProgress::new(now_ms) };
        (driver, driver_state(hid_ready, true, 0, generation, "USB gamepad running"))
    }

    /// A driver command: a stop for this driver's generation ends it, with
    /// a stopped state carrying the reports sent; other commands are
    /// ignored.
    pub fn on_command(&self, cmd: &UsbGamepadDriverCommandMsg, hid_ready: bool) -> (res: Option<
        UsbGamepadStateMsg,
    >)
        ensures
            res is Some <==> (cmd.stop && cmd.generation == self.generation),
            res matches Some(state) ==> {
                &&& state.hid_ready == hid_ready
                &&& !state.running
                &&& state.report_count == self.progress.counter
                &&& state.generation == self.generation
                &&& state.detail@ == "USB gamepad stopped"@
            },
    {
        if is_stop_command(cmd, self.generation) {
            Some(
                driver_state(
                    hid_ready,
                    false,
                    self.progress.counter,
                    self.generation,
                    "USB gamepad stopped",
                ),
            )
        } else {
            None
        }
    }

    /// A pass without mixer data: the running state, once a second.
    pub fn on_idle(&mut self, now_ms: u64, hid_ready: bool) -> (res: Option<UsbGamepadStateMsg>)
        ensures
            final(self).generation == old(self).generation,
            final(self).progress.counter == old(self).progress.counter,
            res is Some <==> elapsed_since(now_ms, old(self).progress.last_publish_ms)
                >= STATE_PUBLISH_INTERVAL_MS,
            final(self).progress.last_publish_ms == (if res is Some {
                now_ms
            } else {
                old(self).progress.last_publish_ms
            }),
            res matches Some(state) ==> {
                &&& state.hid_ready == hid_ready
                &&& state.running
                &&& state.report_count == old(self).progress.counter
                &&& state.generation == old(self).generation
                &&& state.detail@ == "USB gamepad running"@
            },
    {
        if self.progress.idle_tick(now_ms) {
            Some(
                driver_state(
                    hid_ready,
                    true,
                    self.progress.counter,
                    self.generation,
                    "USB gamepad running",
                ),
            )
        } else {
            None
        }
    }

    /// A mixer frame: the report bytes to write, and the progress state
    /// (`sent <n> HID reports`) when it is due (see `on_mixer_frame`).
    pub fn on_frame(&mut self, msg: &MixerOutMsg, now_ms: u64, hid_ready: bool) -> (res: (
        [u8; 7],
        Option<UsbGamepadStateMsg>,
    ))
        requires
            old(self).progress.counter < u32::MAX,
        ensures
            final(self).generation == old(self).generation,
            final(self).progress.counter == old(self).progress.counter + 1,
            res.0@ == seq![
                0u8,
                0u8,
                hid_axis(msg.channels[3]) as u8,
                hid_axis(msg.channels[2]) as u8,
                hid_axis(msg.channels[0]) as u8,
                hid_axis(msg.channels[1]) as u8,
                0u8,
            ],
            res.1 is Some <==> (final(self).progress.counter == 1 || final(self).progress.counter
                % 100 == 0 || elapsed_since(now_ms, old(self).progress.last_publish_ms)
                >= STATE_PUBLISH_INTERVAL_MS),
            final(self).progress.last_publish_ms == (if res.1 is Some {
                now_ms
            } else {
                old(self).progress.last_publish_ms
            }),
            res.1 matches Some(state) ==> {
                &&& state.hid_ready == hid_ready
                &&& state.running
                &&& state.report_count == final(self).progress.counter
                &&& state.generation == old(self).generation
                &&& state.detail@ == sent_reports_text(final(self).progress.counter)
            },
    {
        let (bytes, publish) = self.progress.on_mixer_frame(msg, now_ms);
        if publish {
            let detail = sent_reports_detail(self.progress.counter);
            (
                bytes,
                Some(
                    driver_state(
                        hid_ready,
                        true,
                        self.progress.counter,
                        self.generation,
                        detail.as_str(),
                    ),
                ),
            )
        } else {
            (bytes, None)
        }
    }

    /// The state after a report could not be written: stopped, with the
    /// reports counted so far and `write <device> failed: <error>`.
    pub fn write_failed(&self, hid_ready: bool, device: &str, error: &str) -> (res: UsbGamepadStateMsg)
        ensures
            res.hid_ready == hid_ready,
            !res.running,
            res.report_count == self.progress.counter,
            res.generation == self.generation,
            res.detail@ == failure_text("write"@, device@, error@),
    {
        let detail = failure_detail("write", device, error);
        driver_state(hid_ready, false, self.progress.counter, self.generation, detail.as_str())
    }
}

} // verus!
