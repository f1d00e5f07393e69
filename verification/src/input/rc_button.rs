//! Maps the transmitter's five-way GUI button (bits 10..14 of the button
//! word) to UI events: a direction press emits its event at once and
//! repeats while held; a short center press emits `Open` on release; a long
//! center press, or center together with left, emits `Back` once.
//!
//! Times are milliseconds on a monotonic clock.

use vstd::prelude::*;

use crate::ui::input::UiInputEvent;

verus! {

pub const GUI_UP: u16 = 0x0400;

pub const GUI_DOWN: u16 = 0x0800;

pub const GUI_LEFT: u16 = 0x1000;

pub const GUI_RIGHT: u16 = 0x2000;

pub const GUI_CENTER: u16 = 0x4000;

pub const GUI_DIRECTION_MASK: u16 = 0x3C00;

pub const GUI_MASK: u16 = 0x7C00;

/// How long the center button must be held to mean `Back`.
pub const LONG_PRESS_DURATION_MS: u64 = 600;

/// How long a direction is held before it first repeats.
pub const FIRST_REPEAT_DELAY_MS: u64 = 350;

/// The interval of further repeats.
pub const REPEAT_INTERVAL_MS: u64 = 120;

/// A direction being held: its bit, its event, when it was pressed, and
/// when it last repeated.
#[derive(Debug, Clone, Copy, PartialEq, Eq, Structural)]
pub struct HeldDirection {
    pub bit: u16,
    pub event: UiInputEvent,
    pub pressed_at: u64,
    pub last_repeat_at: Option<u64>,
}

/// The button mapper's memory between samples.
#[derive(Debug, Clone, Copy, PartialEq, Eq)]
pub struct RcButtonMapper {
    pub previous_buttons: u16,
    pub held_direction: Option<HeldDirection>,
    pub center_pressed_at: Option<u64>,
    pub center_consumed: bool,
}

/// `a - b`, stopping at 0 (a saturating time difference).
pub open spec fn elapsed(now: u64, since: u64) -> int {
    if now >= since {
        now - since
    } else {
        0
    }
}

/// The direction a sample selects, by priority up, down, left, right.
pub open spec fn direction_of(buttons: u16) -> Option<(u16, UiInputEvent)> {
    if buttons & GUI_UP != 0 {
        Some((GUI_UP, UiInputEvent::Up))
    } else if buttons & GUI_DOWN != 0 {
        Some((GUI_DOWN, UiInputEvent::Down))
    } else if buttons & GUI_LEFT != 0 {
        Some((GUI_LEFT, UiInputEvent::Left))
    } else if buttons & GUI_RIGHT != 0 {
        Some((GUI_RIGHT, UiInputEvent::Right))
    } else {
        None
    }
}

/// The event sequence that is `event` when `emit` holds, empty otherwise.
pub open spec fn emit_if(emit: bool, event: UiInputEvent) -> Seq<UiInputEvent> {
    if emit {
        seq![event]
    } else {
        seq![]
    }
}

/// Whether a held direction is due to repeat at `now`.
pub open spec fn repeat_due(held: HeldDirection, now: u64) -> bool {
    match held.last_repeat_at {
        Some(last) => elapsed(now, last) >= REPEAT_INTERVAL_MS,
        None => elapsed(now, held.pressed_at) >= FIRST_REPEAT_DELAY_MS,
    }
}

impl RcButtonMapper {
    /// The GUI bits of a raw button word.
    pub open spec fn gui_bits(buttons: u32) -> u16 {
        (buttons as u16) & GUI_MASK
    }

    /// Whether the center-left combination emits `Back` for this sample.
    pub open spec fn combo_back(&self, buttons: u32) -> bool {
        let b = Self::gui_bits(buttons);
        b & GUI_CENTER != 0 && b & GUI_LEFT != 0 && !self.center_consumed
    }

    /// When the current center press started, after this sample.
    pub open spec fn press_start(&self, buttons: u32, now: u64) -> Option<u64> {
        let b = Self::gui_bits(buttons);
        if b & GUI_CENTER != 0 && self.previous_buttons & GUI_CENTER == 0 {
            Some(now)
        } else {
            self.center_pressed_at
        }
    }

    /// Whether a long center press emits `Back` for this sample.
    pub open spec fn long_back(&self, buttons: u32, now: u64) -> bool {
        let b = Self::gui_bits(buttons);
        &&& b & GUI_CENTER != 0
        &&& !(self.center_consumed || self.combo_back(buttons))
        &&& self.press_start(buttons, now) matches Some(pressed_at)
        &&& elapsed(now, pressed_at) >= LONG_PRESS_DURATION_MS
    }

    /// Whether releasing the center button emits `Open` for this sample.
    pub open spec fn release_open(&self, buttons: u32) -> bool {
        let b = Self::gui_bits(buttons);
        b & GUI_CENTER == 0 && self.previous_buttons & GUI_CENTER != 0 && !self.center_consumed
    }

    /// The direction events of this sample: a newly pressed direction fires
    /// at once, a held one when its repeat is due; none while center is down.
    pub open spec fn direction_events(&self, buttons: u32, now: u64) -> Seq<UiInputEvent> {
        let b = Self::gui_bits(buttons);
        if b & GUI_CENTER != 0 {
            seq![]
        } else {
            match direction_of(b) {
                None => seq![],
                Some((bit, event)) => match self.held_direction {
                    Some(held) if held.bit == bit => emit_if(repeat_due(held, now), held.event),
                    _ => seq![event],
                },
            }
        }
    }

    /// All events of this sample, in the order they are emitted.
    pub open spec fn events_for(&self, buttons: u32, now: u64) -> Seq<UiInputEvent> {
        emit_if(self.combo_back(buttons), UiInputEvent::Back) + emit_if(
            self.long_back(buttons, now),
            UiInputEvent::Back,
        ) + emit_if(self.release_open(buttons), UiInputEvent::Open) + self.direction_events(
            buttons,
            now,
        )
    }

    /// The mapper's memory after this sample: the GUI bits become the
    /// previous sample; a center press records when it started and whether
    /// it is consumed (both cleared on release); a direction is held, with
    /// its repeat time moved on when it repeats, until center or another
    /// direction replaces it.
    pub open spec fn step(&self, buttons: u32, now: u64) -> RcButtonMapper {
        let b = Self::gui_bits(buttons);
        let center_down = b & GUI_CENTER != 0;
        let center_was_down = self.previous_buttons & GUI_CENTER != 0;
        RcButtonMapper {
            previous_buttons: b,
            center_consumed: if center_down {
                self.center_consumed || self.combo_back(buttons) || self.long_back(buttons, now)
            } else if center_was_down {
                false
            } else {
                self.center_consumed
            },
            center_pressed_at: if center_down {
                self.press_start(buttons, now)
            } else if center_was_down {
                None
            } else {
                self.center_pressed_at
            },
            held_direction: if center_down {
                None
            } else {
                match direction_of(b) {
                    None => None,
                    Some((bit, event)) => match self.held_direction {
                        Some(held) if held.bit == bit => Some(
                            if repeat_due(held, now) {
                                HeldDirection { last_repeat_at: Some(now), ..held }
                            } else {
                                held
                            },
                        ),
                        _ => Some(
                            HeldDirection { bit, event, pressed_at: now, last_repeat_at: None },
                        ),
                    },
                }
            },
        }
    }

    /// `next` is the mapper's memory after this sample (see `step`).
    pub open spec fn next_state(&self, buttons: u32, now: u64, next: RcButtonMapper) -> bool {
        next == self.step(buttons, now)
    }

    /// A mapper with nothing pressed.
    pub fn new() -> (res: Self)
        ensures
            res.previous_buttons == 0,
            res.held_direction is None,
            res.center_pressed_at is None,
            !res.center_consumed,
    {
        RcButtonMapper {
            previous_buttons: 0,
            held_direction: None,
            center_pressed_at: None,
            center_consumed: false,
        }
    }

    /// Feeds one button sample taken at `now_ms` and returns the UI events
    /// it produces.
    pub fn update(&mut self, buttons: u32, now_ms: u64) -> (events: Vec<UiInputEvent>)
        ensures
            events@ == old(self).events_for(buttons, now_ms),
            old(self).next_state(buttons, now_ms, *final(self)),
            events@.len() <= 3,
    {
        let ghost start = *self;
        let masked = (#[verifier::truncate] (buttons as u16)) & GUI_MASK;
        let previous = self.previous_buttons;
        self.previous_buttons = masked;

        let mut events: Vec<UiInputEvent> = Vec::new();
        let center_down = masked & GUI_CENTER != 0;
        let center_was_down = previous & GUI_CENTER != 0;
        let left_down = masked & GUI_LEFT != 0;

        if center_down && left_down && !self.center_consumed {
            self.center_consumed = true;
            events.push(UiInputEvent::Back);
        }
        if center_down && !center_was_down {
            self.center_pressed_at = Some(now_ms);
        }
        if center_down {
            if let Some(pressed_at) = self.center_pressed_at {
                let held_for = if now_ms >= pressed_at {
                    now_ms - pressed_at
                } else {
                    0
                };
                if !self.center_consumed && held_for >= LONG_PRESS_DURATION_MS {
                    self.center_consumed = true;
                    events.push(UiInputEvent::Back);
                }
            }
        } else if center_was_down {
            if !self.center_consumed {
                events.push(UiInputEvent::Open);
            }
            self.center_pressed_at = None;
            self.center_consumed = false;
        }
        let ghost center_events = events@;
        assert(center_events =~= emit_if(start.combo_back(buttons), UiInputEvent::Back) + emit_if(
            start.long_back(buttons, now_ms),
            UiInputEvent::Back,
        ) + emit_if(start.release_open(buttons), UiInputEvent::Open));

        if center_down {
            self.held_direction = None;
            return events;
        }
        match active_direction(masked) {
            Some((bit, event)) => {
                match self.held_direction {
                    Some(held) => {
                        if held.bit == bit {
                            let mut held = held;
                            let due = match held.last_repeat_at {
                                Some(last) => {
                                    let since = if now_ms >= last {
                                        now_ms - last
                                    } else {
                                        0
                                    };
                                    since >= REPEAT_INTERVAL_MS
                                },
                                None => {
                                    let since = if now_ms >= held.pressed_at {
                                        now_ms - held.pressed_at
                                    } else {
                                        0
                                    };
                                    since >= FIRST_REPEAT_DELAY_MS
                                },
                            };
                            if due {
                                held.last_repeat_at = Some(now_ms);
                                events.push(held.event);
                            }
                            self.held_direction = Some(held);
                        } else {
                            self.held_direction = Some(
                                HeldDirection { bit, event, pressed_at: now_ms, last_repeat_at: None },
                            );
                            events.push(event);
                        }
                    },
                    None => {
                        self.held_direction = Some(
                            HeldDirection { bit, event, pressed_at: now_ms, last_repeat_at: None },
                        );
                        events.push(event);
                    },
                }
            },
            None => {
                self.held_direction = None;
            },
        }
        events
    }
}

/// The direction selected by a sample (up, down, left, right by priority),
/// with its bit and event.
pub fn active_direction(buttons: u16) -> (res: Option<(u16, UiInputEvent)>)
    ensures
        res == direction_of(buttons),
{
    if buttons & GUI_UP != 0 {
        Some((GUI_UP, UiInputEvent::Up))
    } else if buttons & GUI_DOWN != 0 {
        Some((GUI_DOWN, UiInputEvent::Down))
    } else if buttons & GUI_LEFT != 0 {
        Some((GUI_LEFT, UiInputEvent::Left))
    } else if buttons & GUI_RIGHT != 0 {
        Some((GUI_RIGHT, UiInputEvent::Right))
    } else {
        None
    }
}


/// A direction event: up, down, left or right.
pub open spec fn is_direction_event(event: UiInputEvent) -> bool {
    event is Up || event is Down || event is Left || event is Right
}

/// The held direction, if any, carries a direction event.
pub open spec fn holds_direction(m: RcButtonMapper) -> bool {
    m.held_direction matches Some(held) ==> is_direction_event(held.event)
}

/// A center press emits `Back` at most once and never both `Back` and
/// `Open`: a sample that emits `Back` leaves the press consumed, and while
/// the press is consumed no sample emits `Back` or `Open`, its release
/// included. Samples only ever hold direction events.
pub proof fn lemma_back_once_per_press(m: RcButtonMapper, buttons: u32, now: u64, next: RcButtonMapper)
    requires
        holds_direction(m),
        m.next_state(buttons, now, next),
    ensures
        holds_direction(next),
        m.events_for(buttons, now).contains(UiInputEvent::Back) ==> next.center_consumed,
        m.center_consumed ==> !m.events_for(buttons, now).contains(UiInputEvent::Back)
            && !m.events_for(buttons, now).contains(UiInputEvent::Open),
{
    let b = RcButtonMapper::gui_bits(buttons);
    let dirs = m.direction_events(buttons, now);
    assert forall|i: int| 0 <= i < dirs.len() implies is_direction_event(#[trigger] dirs[i]) by {}
    let center = emit_if(m.combo_back(buttons), UiInputEvent::Back) + emit_if(
        m.long_back(buttons, now),
        UiInputEvent::Back,
    ) + emit_if(m.release_open(buttons), UiInputEvent::Open);
    let events = m.events_for(buttons, now);
    assert(events == center + dirs);
    if events.contains(UiInputEvent::Back) {
        let i = choose|i: int| 0 <= i < events.len() && events[i] == UiInputEvent::Back;
        if i >= center.len() {
            assert(events[i] == dirs[i - center.len()]);
        }
        assert(m.combo_back(buttons) || m.long_back(buttons, now));
    }
    if m.center_consumed {
        assert(center =~= Seq::<UiInputEvent>::empty());
        assert(events =~= dirs);
    }
}


/// The memory after feeding `samples` (button word, time) one after
/// another.
pub open spec fn run_state(m: RcButtonMapper, samples: Seq<(u32, u64)>) -> RcButtonMapper
    decreases samples.len(),
{
    if samples.len() == 0 {
        m
    } else {
        run_state(m, samples.drop_last()).step(samples.last().0, samples.last().1)
    }
}

/// The events of feeding `samples` one after another, in order.
pub open spec fn run_events(m: RcButtonMapper, samples: Seq<(u32, u64)>) -> Seq<UiInputEvent>
    decreases samples.len(),
{
    if samples.len() == 0 {
        seq![]
    } else {
        run_events(m, samples.drop_last()) + run_state(m, samples.drop_last()).events_for(
            samples.last().0,
            samples.last().1,
        )
    }
}

/// The left button was down in one of the first `k` samples.
pub open spec fn left_seen(held: Seq<(u32, u64)>, k: int) -> bool {
    exists|j: int|
        0 <= j < k && #[trigger] RcButtonMapper::gui_bits(held[j].0) & GUI_LEFT != 0
}

/// Over the first `k` samples of a center press, `Back` is due: the left
/// button was down, or the center was held for `LONG_PRESS_DURATION_MS`.
pub open spec fn back_due(held: Seq<(u32, u64)>, k: int) -> bool {
    left_seen(held, k) || elapsed(held[k - 1].1, held[0].1) >= LONG_PRESS_DURATION_MS
}

/// The samples of a center press: the center is down in every one, and the
/// times do not go back.
pub open spec fn is_center_hold(held: Seq<(u32, u64)>) -> bool {
    &&& forall|j: int|
        0 <= j < held.len() ==> #[trigger] RcButtonMapper::gui_bits(held[j].0) & GUI_CENTER != 0
    &&& forall|i: int, j: int| 0 <= i <= j < held.len() ==> held[i].1 <= held[j].1
}

/// A state from which a center press starts: the center was up and no
/// press is consumed.
pub open spec fn center_idle(m: RcButtonMapper) -> bool {
    m.previous_buttons & GUI_CENTER == 0 && !m.center_consumed
}

proof fn lemma_hold_prefix(m: RcButtonMapper, held: Seq<(u32, u64)>, k: int)
    requires
        center_idle(m),
        is_center_hold(held),
        1 <= k <= held.len(),
    ensures
        run_state(m, held.take(k)).previous_buttons & GUI_CENTER != 0,
        run_state(m, held.take(k)).center_pressed_at == Some(held[0].1),
        run_state(m, held.take(k)).center_consumed == back_due(held, k),
        run_events(m, held.take(k)) == emit_if(back_due(held, k), UiInputEvent::Back),
    decreases k,
{
    let x = held[k - 1];
    assert(held.take(k).drop_last() =~= held.take(k - 1));
    assert(held.take(k).last() == x);
    assert(RcButtonMapper::gui_bits(x.0) & GUI_CENTER != 0);
    assert(held[0].1 <= x.1);
    if k == 1 {
        assert(held.take(0) =~= Seq::<(u32, u64)>::empty());
        assert(run_events(m, held.take(0)) == Seq::<UiInputEvent>::empty());
        assert(run_state(m, held.take(0)) == m);
        let s = m;
        let ev = s.events_for(x.0, x.1);
        if RcButtonMapper::gui_bits(x.0) & GUI_LEFT != 0 {
            assert(left_seen(held, 1));
        } else {
            assert(!left_seen(held, 1));
        }
        assert(s.direction_events(x.0, x.1) =~= Seq::<UiInputEvent>::empty());
        assert(run_events(m, held.take(1)) =~= Seq::<UiInputEvent>::empty() + ev);
        assert(ev =~= emit_if(back_due(held, 1), UiInputEvent::Back));
    } else {
        lemma_hold_prefix(m, held, k - 1);
        let s = run_state(m, held.take(k - 1));
        let ev = s.events_for(x.0, x.1);
        assert(held[k - 2].1 <= x.1);
        assert(s.direction_events(x.0, x.1) =~= Seq::<UiInputEvent>::empty());
        if RcButtonMapper::gui_bits(x.0) & GUI_LEFT != 0 {
            assert(left_seen(held, k));
        } else if left_seen(held, k - 1) {
            let j = choose|j: int|
                0 <= j < k - 1 && #[trigger] RcButtonMapper::gui_bits(held[j].0) & GUI_LEFT != 0;
            assert(left_seen(held, k));
        } else {
            assert(!left_seen(held, k)) by {
                if left_seen(held, k) {
                    let j = choose|j: int|
                        0 <= j < k && #[trigger] RcButtonMapper::gui_bits(held[j].0) & GUI_LEFT
                            != 0;
                    if j < k - 1 {
                        assert(left_seen(held, k - 1));
                    }
                }
            }
        }
        assert(run_events(m, held.take(k)) == emit_if(back_due(held, k - 1), UiInputEvent::Back)
            + ev);
        assert(emit_if(back_due(held, k - 1), UiInputEvent::Back) + ev =~= emit_if(
            back_due(held, k),
            UiInputEvent::Back,
        ));
    }
}

/// One press of the center button, from the sample that presses it to the
/// sample that releases it, produces exactly one of `Back` and `Open`:
/// while held, the samples give no events but a single `Back`, due as soon
/// as the left button is down or the center has been held for
/// `LONG_PRESS_DURATION_MS`; the release gives `Open` exactly when no
/// `Back` came, followed only by the direction events of that sample.
pub proof fn lemma_center_press(
    m: RcButtonMapper,
    held: Seq<(u32, u64)>,
    release: (u32, u64),
)
    requires
        center_idle(m),
        holds_direction(m),
        held.len() >= 1,
        is_center_hold(held),
        RcButtonMapper::gui_bits(release.0) & GUI_CENTER == 0,
    ensures
        run_events(m, held) == emit_if(back_due(held, held.len() as int), UiInputEvent::Back),
        run_state(m, held).events_for(release.0, release.1) == emit_if(
            !back_due(held, held.len() as int),
            UiInputEvent::Open,
        ) + run_state(m, held).direction_events(release.0, release.1),
        forall|i: int|
            0 <= i < run_state(m, held).direction_events(release.0, release.1).len()
                ==> is_direction_event(
                #[trigger] run_state(m, held).direction_events(release.0, release.1)[i],
            ),
        // After the release the next press can start.
        center_idle(run_state(m, held).step(release.0, release.1)),
        holds_direction(run_state(m, held).step(release.0, release.1)),
{
    let n = held.len() as int;
    lemma_hold_prefix(m, held, n);
    assert(held.take(n) =~= held);
    let s = run_state(m, held);
    assert(s.held_direction is None) by {
        assert(held.drop_last() =~= held.take(n - 1));
        assert(RcButtonMapper::gui_bits(held.last().0) & GUI_CENTER != 0);
    }
    lemma_back_once_per_press(s, release.0, release.1, s.step(release.0, release.1));
    let ev = s.events_for(release.0, release.1);
    assert(ev =~= emit_if(!back_due(held, n), UiInputEvent::Open) + s.direction_events(
        release.0,
        release.1,
    ));
}


/// A sample with the center and every direction up leaves no direction
/// held, so that the next sample pressing a direction (center still up)
/// emits that direction's event at once, and nothing else (up before down
/// before left before right when several are down).
pub proof fn lemma_fresh_direction_press(
    m: RcButtonMapper,
    released: u32,
    t0: u64,
    pressed: u32,
    t1: u64,
)
    requires
        RcButtonMapper::gui_bits(released) & GUI_DIRECTION_MASK == 0,
        RcButtonMapper::gui_bits(released) & GUI_CENTER == 0,
        RcButtonMapper::gui_bits(pressed) & GUI_DIRECTION_MASK != 0,
        RcButtonMapper::gui_bits(pressed) & GUI_CENTER == 0,
    ensures
        m.step(released, t0).held_direction is None,
        m.step(released, t0).events_for(pressed, t1) == seq![
            if RcButtonMapper::gui_bits(pressed) & GUI_UP != 0 {
                UiInputEvent::Up
            } else if RcButtonMapper::gui_bits(pressed) & GUI_DOWN != 0 {
                UiInputEvent::Down
            } else if RcButtonMapper::gui_bits(pressed) & GUI_LEFT != 0 {
                UiInputEvent::Left
            } else {
                UiInputEvent::Right
            },
        ],
{
    let r = RcButtonMapper::gui_bits(released);
    let p = RcButtonMapper::gui_bits(pressed);
    assert(r & 0x3C00u16 == 0 ==> (r & 0x0400u16 == 0 && r & 0x0800u16 == 0 && r & 0x1000u16 == 0
        && r & 0x2000u16 == 0)) by (bit_vector);
    assert(p & 0x3C00u16 != 0 ==> (p & 0x0400u16 != 0 || p & 0x0800u16 != 0 || p & 0x1000u16 != 0
        || p & 0x2000u16 != 0)) by (bit_vector);
    let s = m.step(released, t0);
    assert(s.previous_buttons == r);
    let ev = s.events_for(pressed, t1);
    assert(ev =~= s.direction_events(pressed, t1));
}

} // verus!
