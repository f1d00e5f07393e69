//! The mixer: calibrated sticks on CH1..CH4, AUX map on CH5..CH16, model
//! output profiles, and the throttle arm interlock.
//!
//! All channel values are in the 0..=10000 mixer range.

use vstd::prelude::*;

use crate::config::{
    aux_entries_well_formed, default_aux_channels, lemma_normalize_aux_shape,
    default_output, default_outputs, lemma_normalize_aux_well_formed, normalize_aux,
    source_well_formed, AuxChannelMapping, AuxSource, ControlRole, MixerOutput, ModelConfig,
    OutputLimits,
};
use crate::input::calibrate::{joystick_slot, CalibrationData, ChannelInfo, JoystickChannel};
use crate::messages::{frame_channel_value, InputFrameMsg, RcInputRawMsg};

verus! {

/// The sixteen output channels of one mixer pass.
#[derive(Debug, Clone, Copy, PartialEq, Eq)]
pub struct MixerOutMsg {
    pub channels: [u16; 16],
}

/// Sticks centred (CH1, CH2, CH4 at 5000), throttle and every AUX channel at 0.
pub open spec fn default_mixer_channels() -> Seq<u16> {
    Seq::new(
        16,
        |i: int|
            if i == 0 || i == 1 || i == 3 {
                5000u16
            } else {
                0u16
            },
    )
}

impl Default for MixerOutMsg {
    /// Sticks centred (CH1, CH2, CH4 at 5000), throttle and every AUX channel
    /// at 0.
    fn default() -> (res: Self)
        ensures
            res.channels@ == default_mixer_channels(),
    {
        let mut channels = [0u16; 16];
        channels[0] = 5000;
        channels[1] = 5000;
        channels[3] = 5000;
        let res = Self { channels };
        proof {
            assert(res.channels@ =~= default_mixer_channels());
        }
        res
    }
}

/// Throttle values above this keep the arm channel (CH5) at 0.
pub const THROTTLE_ARM_MAX: u16 = 500;

/// A two-position switch in the mixer range: off 0, on 10000.
pub open spec fn two_pos_value(value: bool) -> u16 {
    if value {
        10000
    } else {
        0
    }
}

/// A three-position switch in the mixer range: 0, 5000, and 10000 for any
/// position above 1.
pub open spec fn three_pos_value(value: u8) -> u16 {
    if value == 0 {
        0
    } else if value == 1 {
        5000
    } else {
        10000
    }
}

/// Maps a two-position switch to the mixer range.
pub fn two_pos_to_mixer(value: bool) -> (res: u16)
    ensures
        res == two_pos_value(value),
{
    if value {
        10000
    } else {
        0
    }
}

/// Maps a three-position switch to the mixer range.
pub fn three_pos_to_mixer(value: u8) -> (res: u16)
    ensures
        res == three_pos_value(value),
{
    match value {
        0 => 0,
        1 => 5000,
        _ => 10000,
    }
}

/// Whether bit `index` of the button word is set.
pub open spec fn button_pressed(buttons: u32, index: u8) -> bool {
    buttons & (1u32 << index) != 0
}

/// The value an AUX source reads from the input before inversion; a switch
/// index the input does not have reads 0.
pub open spec fn aux_source_value(source: AuxSource, input: RcInputRawMsg) -> u16 {
    match source {
        AuxSource::Unmapped => 0,
        AuxSource::Switch3Pos(index) => if index < 4 {
            three_pos_value(input.switch_3pos[index as int])
        } else {
            0
        },
        AuxSource::Switch2Pos(index) => if index < 2 {
            two_pos_value(input.switch_2pos[index as int])
        } else {
            0
        },
        AuxSource::Button(index) => two_pos_value(button_pressed(input.buttons, index)),
    }
}

/// Whether a source names something the input has: a three-position
/// switch 0..3, a two-position switch 0..1, or a button; no source and
/// switches the input lacks name nothing.
pub open spec fn source_available(source: AuxSource) -> bool {
    match source {
        AuxSource::Unmapped => false,
        AuxSource::Switch3Pos(index) => index < 4,
        AuxSource::Switch2Pos(index) => index < 2,
        AuxSource::Button(_) => true,
    }
}

/// The value an AUX source drives onto its channel: 0 for no source or a
/// switch the input lacks, whatever the inversion; otherwise the source's
/// value, inverted as 10000 - v.
pub open spec fn aux_output_value(source: AuxSource, inverted: bool, input: RcInputRawMsg) -> u16 {
    let value = aux_source_value(source, input);
    if !source_available(source) {
        0
    } else if inverted {
        (10000 - value) as u16
    } else {
        value
    }
}

/// The AUX value of slot `k` (channel `k + 5`): the mapped source when the
/// input carries switch data, 0 otherwise.
pub open spec fn aux_stage_value(
    rc_input: Option<RcInputRawMsg>,
    aux: Seq<AuxChannelMapping>,
    k: int,
) -> u16 {
    match rc_input {
        Some(input) => if input.switches_present {
            aux_output_value(aux[k].source, aux[k].inverted, input)
        } else {
            0
        },
        None => 0,
    }
}

/// The channels before output profiles: sticks on CH1..CH4, the AUX map on
/// CH5..CH16, and CH5 forced to 0 while the throttle (CH3) is above
/// `THROTTLE_ARM_MAX`.
pub open spec fn mixed_channels(
    primary: Seq<u16>,
    rc_input: Option<RcInputRawMsg>,
    aux: Seq<AuxChannelMapping>,
) -> Seq<u16> {
    Seq::new(
        16,
        |i: int|
            if i < 4 {
                primary[i]
            } else if i == 4 && primary[2] > THROTTLE_ARM_MAX {
                0
            } else {
                aux_stage_value(rc_input, aux, i - 4)
            },
    )
}

/// The input a reference points at, as a value.
pub open spec fn deref_input(rc_input: Option<&RcInputRawMsg>) -> Option<RcInputRawMsg> {
    match rc_input {
        Some(input) => Some(*input),
        None => None,
    }
}

fn aux_source_to_mixer(source: AuxSource, inverted: bool, input: &RcInputRawMsg) -> (res: u16)
    requires
        source_well_formed(source),
    ensures
        res == aux_output_value(source, inverted, *input),
{
    let value = match source {
        AuxSource::Unmapped => {
            return 0;
        },
        AuxSource::Switch3Pos(index) => {
            if (index as usize) < 4 {
                three_pos_to_mixer(input.switch_3pos[index as usize])
            } else {
                return 0;
            }
        },
        AuxSource::Switch2Pos(index) => {
            if (index as usize) < 2 {
                two_pos_to_mixer(input.switch_2pos[index as usize])
            } else {
                return 0;
            }
        },
        AuxSource::Button(index) => {
            let pressed = input.buttons & (1u32 << index) != 0;
            two_pos_to_mixer(pressed)
        },
    };
    if inverted {
        10000 - value
    } else {
        value
    }
}

/// An input frame with the given stick axes and everything else at its
/// default (no switch data).
pub fn rc_input_from_axes(axes: [i16; 4]) -> (res: RcInputRawMsg)
    ensures
        res.axes == axes,
        res.switch_3pos@ == seq![0u8, 0, 0, 0],
        res.switch_2pos@ == seq![false, false],
        res.buttons == 0,
        !res.switches_present,
{
    RcInputRawMsg { axes, ..RcInputRawMsg::default() }
}

/// The default model's AUX map has no button sources.
proof fn lemma_default_aux_well_formed()
    ensures
        aux_entries_well_formed(default_aux_channels()),
{
}

/// `build_model_mixer_out` with the default model (default AUX map).
pub fn build_default_mixer_out(primary_channels: [u16; 4], rc_input: Option<&RcInputRawMsg>) -> (res:
    MixerOutMsg)
    ensures
        res.channels@ == mixed_channels(
            primary_channels@,
            deref_input(rc_input),
            normalize_aux(default_aux_channels()),
        ),
{
    let model = ModelConfig::default();
    proof {
        lemma_default_aux_well_formed();
    }
    build_model_mixer_out(primary_channels, rc_input, &model)
}

/// CH1..CH4 from the sticks, CH5..CH16 from the model's AUX map when the
/// input carries switch data (0 otherwise), then CH5 forced to 0 while the
/// throttle is above `THROTTLE_ARM_MAX`.
pub fn build_model_mixer_out(
    primary_channels: [u16; 4],
    rc_input: Option<&RcInputRawMsg>,
    model: &ModelConfig,
) -> (res: MixerOutMsg)
    requires
        aux_entries_well_formed(model.aux_mapping.channels@),
    ensures
        res.channels@ == mixed_channels(
            primary_channels@,
            deref_input(rc_input),
            normalize_aux(model.aux_mapping.channels@),
        ),
        // Throttle interlock: with the throttle up, the arm channel is low.
        primary_channels[2] > THROTTLE_ARM_MAX ==> res.channels[4] == 0,
        // Without switch data every AUX channel stays low.
        (match deref_input(rc_input) {
            Some(input) => !input.switches_present,
            None => true,
        }) ==> forall|i: int| 4 <= i < 16 ==> #[trigger] res.channels[i] == 0,
{
    let ghost aux = normalize_aux(model.aux_mapping.channels@);
    let ghost input_value = deref_input(rc_input);
    let mut channels = [0u16; 16];
    channels[0] = primary_channels[0];
    channels[1] = primary_channels[1];
    channels[2] = primary_channels[2];
    channels[3] = primary_channels[3];
    proof {
        lemma_normalize_aux_shape(model.aux_mapping.channels@);
        lemma_normalize_aux_well_formed(model.aux_mapping.channels@);
    }
    match rc_input {
        Some(input) => {
            if input.switches_present {
                let mappings = model.aux_mapping.normalized_channels();
                let mut k: usize = 0;
                while k < mappings.len()
                    invariant
                        mappings@ == aux,
                        aux.len() == 12,
                        forall|j: int| 0 <= j < 12 ==> (#[trigger] aux[j]).channel == j + 5,
                        forall|j: int| 0 <= j < 12 ==> source_well_formed(#[trigger] aux[j].source),
                        k <= 12,
                        forall|i: int| 0 <= i < 4 ==> channels[i] == primary_channels[i],
                        forall|j: int|
                            0 <= j < k ==> #[trigger] channels[j + 4] == aux_output_value(
                                aux[j].source,
                                aux[j].inverted,
                                *input,
                            ),
                        forall|j: int| k <= j < 12 ==> #[trigger] channels[j + 4] == 0,
                    decreases mappings.len() - k,
                {
                    let mapping = mappings[k];
                    let index = mapping.channel as usize - 1;
                    assert(index == k + 4);
                    channels[index] = aux_source_to_mixer(mapping.source, mapping.inverted, input);
                    k = k + 1;
                }
            }
        },
        None => {},
    }
    if channels[2] > THROTTLE_ARM_MAX {
        channels[4] = 0;
    }
    let res = MixerOutMsg { channels };
    proof {
        let spec_channels = mixed_channels(primary_channels@, input_value, aux);
        assert forall|i: int| 0 <= i < 16 implies res.channels@[i] == spec_channels[i] by {
            if i >= 4 {
                let j = i - 4;
                assert(channels[j + 4] == res.channels@[i]);
            }
        }
        assert(res.channels@ =~= spec_channels);
    }
    res
}

/// `x` limited to `lo..=hi` (for `lo <= hi`).
pub open spec fn clamp_int(x: int, lo: int, hi: int) -> int {
    if x < lo {
        lo
    } else if x > hi {
        hi
    } else {
        x
    }
}

/// Integer division rounding toward zero, as Rust's `/` does, for `b > 0`.
pub open spec fn trunc_div(a: int, b: int) -> int {
    if a >= 0 {
        a / b
    } else {
        -((-a) / b)
    }
}

/// The calibrated value of one raw sample: clamped to the calibrated range,
/// scaled to 0..=10000 rounding down, and mirrored when reversed.
pub open spec fn calibrated_value(raw: i16, info: ChannelInfo) -> u16 {
    let v = clamp_int(raw as int, info.min as int, info.max as int);
    let scaled = (v - info.min) * 10000 / (info.max - info.min);
    if info.rev {
        (10000 - scaled) as u16
    } else {
        scaled as u16
    }
}

/// Whether the calibration entry of `channel` exists and has a non-empty range.
pub open spec fn calibration_usable(cal_data: CalibrationData, channel: JoystickChannel) -> bool {
    &&& joystick_slot(channel) < cal_data.channel_infos@.len()
    &&& cal_data.channel_infos@[joystick_slot(channel)].min
        < cal_data.channel_infos@[joystick_slot(channel)].max
}

/// The calibrated mixer value of a stick in a raw frame.
pub open spec fn stick_value(
    channel: JoystickChannel,
    raw: InputFrameMsg,
    cal_data: CalibrationData,
) -> u16 {
    let info = cal_data.channel_infos@[joystick_slot(channel)];
    calibrated_value(frame_channel_value(raw.channels@, info.index as int), info)
}

proof fn lemma_scaled_in_range(offset: int, span: int)
    requires
        0 <= offset <= span,
        0 < span,
    ensures
        0 <= offset * 10000 / span <= 10000,
{
    assert(0 <= offset * 10000 / span <= 10000) by (nonlinear_arith)
        requires
            0 <= offset <= span,
            0 < span,
    {
        assert(offset * 10000 <= span * 10000);
        assert((span * 10000) / span == 10000);
    }
}

/// Calibrates the stick `channel` from a raw frame: the raw sample (0 for a
/// missing input channel) clamped to the calibrated range and scaled to
/// 0..=10000, reversed when the calibration says so.
pub fn cal_mixout(channel: JoystickChannel, raw: &InputFrameMsg, cal_data: &CalibrationData) -> (res:
    u16)
    requires
        calibration_usable(*cal_data, channel),
    ensures
        res == stick_value(channel, *raw, *cal_data),
        res <= 10000,
{
    let channel_cal_info = &cal_data.channel_infos[channel.slot()];
    let sample = raw.channel_value(channel_cal_info.index as usize);
    let clamped = if sample < channel_cal_info.min {
        channel_cal_info.min
    } else if sample > channel_cal_info.max {
        channel_cal_info.max
    } else {
        sample
    };
    let raw_val = clamped as i32;
    let offset = (raw_val - channel_cal_info.min as i32) as u32;
    let span = (channel_cal_info.max as i32 - channel_cal_info.min as i32) as u32;
    proof {
        lemma_scaled_in_range(offset as int, span as int);
        assert(offset * 10000 <= 65535 * 10000) by (nonlinear_arith)
            requires
                offset <= 65535,
        ;
    }
    let mut ret = offset * 10000 / span;
    if channel_cal_info.rev {
        ret = 10000 - ret;
    }
    ret as u16
}

/// The first output profile of `role`, if the model has one.
pub open spec fn find_output(outputs: Seq<MixerOutput>, role: ControlRole) -> Option<MixerOutput>
    decreases outputs.len(),
{
    if outputs.len() == 0 {
        None
    } else if outputs[0].role == role {
        Some(outputs[0])
    } else {
        find_output(outputs.drop_first(), role)
    }
}

/// The result of `apply_limits`: subtrim (in 1/5 units), reversal about 0,
/// then clamping to the limits' range mapped from -1000..1000 to 0..=10000.
pub open spec fn limits_value(value: int, limits: OutputLimits) -> int {
    let trimmed = value + limits.subtrim * 5;
    let adjusted = if limits.reversed {
        10000 - trimmed
    } else {
        trimmed
    };
    let low = clamp_int((limits.min + 1000) * 5, 0, 10000);
    let high = clamp_int((limits.max + 1000) * 5, 0, 10000);
    clamp_int(adjusted, if low <= high { low } else { high }, if low <= high { high } else { low })
}

/// One output profile applied to a value: weight in percent about the
/// centre 5000 (rounding toward zero), plus the offset, then the limits,
/// then clamped to 0..=10000.
pub open spec fn profile_value(value: u16, output: MixerOutput) -> u16 {
    let weighted = trunc_div((value - 5000) * output.weight, 100);
    let adjusted = 5000 + weighted + output.offset * 5;
    clamp_int(limits_value(adjusted, output.limits), 0, 10000) as u16
}

/// The value after the model's profile for `role`; unchanged without one.
pub open spec fn output_profile(value: u16, outputs: Seq<MixerOutput>, role: ControlRole) -> u16 {
    match find_output(outputs, role) {
        Some(output) => profile_value(value, output),
        None => value,
    }
}

fn clamp_i32(x: i32, lo: i32, hi: i32) -> (res: i32)
    requires
        lo <= hi,
    ensures
        res == clamp_int(x as int, lo as int, hi as int),
{
    if x < lo {
        lo
    } else if x > hi {
        hi
    } else {
        x
    }
}

/// Applies output limits: subtrim, optional reversal about 0, and the
/// limits' range (either order of min and max).
pub fn apply_limits(value: i32, limits: &OutputLimits) -> (res: i32)
    requires
        // The trimmed value, and its reversal, stay within `i32`.
        i32::MIN <= value + limits.subtrim * 5 <= i32::MAX,
        limits.reversed ==> i32::MIN <= 10000 - (value + limits.subtrim * 5) <= i32::MAX,
    ensures
        res == limits_value(value as int, *limits),
        0 <= res <= 10000,
{
    let subtrim = limits.subtrim as i32 * 5;
    let mut adjusted = value + subtrim;
    if limits.reversed {
        adjusted = 10000 - adjusted;
    }
    let low = clamp_i32((limits.min as i32 + 1000) * 5, 0, 10000);
    let high = clamp_i32((limits.max as i32 + 1000) * 5, 0, 10000);
    let lo = if low <= high {
        low
    } else {
        high
    };
    let hi = if low <= high {
        high
    } else {
        low
    };
    clamp_i32(adjusted, lo, hi)
}

/// Applies the model's output profile for `role`; a model without a profile
/// for the role leaves the value unchanged.
pub fn apply_output_profile(value: u16, model: &ModelConfig, role: ControlRole) -> (res: u16)
    ensures
        res == output_profile(value, model.mixer.outputs@, role),
        value <= 10000 ==> res <= 10000,
{
    let outputs = &model.mixer.outputs;
    let mut i: usize = 0;
    assert(outputs@.skip(0) =~= outputs@);
    while i < outputs.len()
        invariant
            i <= outputs.len(),
            outputs@ == model.mixer.outputs@,
            find_output(outputs@, role) == find_output(outputs@.skip(i as int), role),
        decreases outputs.len() - i,
    {
        assert(outputs@.skip(i as int).drop_first() =~= outputs@.skip(i + 1));
        if outputs[i].role == role {
            let output = &outputs[i];
            let centered = value as i32 - 5000;
            let weight = output.weight as i32;
            proof {
                assert(-1_983_610_880 <= centered * weight <= 1_983_610_880) by (nonlinear_arith)
                    requires
                        -5000 <= centered <= 60535,
                        -32768 <= weight <= 32767,
                ;
            }
            let product = centered * weight;
            let weighted = if product >= 0 {
                product / 100
            } else {
                -((-product) / 100)
            };
            let offset = output.offset as i32 * 5;
            let adjusted = 5000 + weighted + offset;
            let limited = apply_limits(adjusted, &output.limits);
            let profiled = clamp_i32(limited, 0, 10000) as u16;
            proof {
                assert(outputs@.skip(i as int)[0] == outputs@[i as int]);
                assert(find_output(outputs@, role) == Some(outputs@[i as int]));
                assert(profiled == profile_value(value, outputs@[i as int]));
                assert(output_profile(value, outputs@, role) == profile_value(value, outputs@[i as int]));
            }
            return profiled;
        }
        i = i + 1;
    }
    assert(outputs@.skip(i as int) =~= Seq::<MixerOutput>::empty());
    value
}

/// The control role of AUX output `i` (0-based) that has a profile: CH5 arm,
/// CH6 flight mode, CH7 beeper, CH8 turtle, CH9 prearm, CH10 GPS rescue.
pub open spec fn aux_role(i: int) -> ControlRole {
    if i == 4 {
        ControlRole::Arm
    } else if i == 5 {
        ControlRole::FlightMode
    } else if i == 6 {
        ControlRole::Beeper
    } else if i == 7 {
        ControlRole::Turtle
    } else if i == 8 {
        ControlRole::Prearm
    } else {
        ControlRole::GpsRescue
    }
}

/// The calibrated and profiled stick values in AETR order
/// (aileron, elevator, thrust, direction).
pub open spec fn primary_channels(
    raw: InputFrameMsg,
    cal_data: CalibrationData,
    outputs: Seq<MixerOutput>,
) -> Seq<u16> {
    seq![
        output_profile(stick_value(JoystickChannel::Aileron, raw, cal_data), outputs, ControlRole::Aileron),
        output_profile(stick_value(JoystickChannel::Elevator, raw, cal_data), outputs, ControlRole::Elevator),
        output_profile(stick_value(JoystickChannel::Thrust, raw, cal_data), outputs, ControlRole::Thrust),
        output_profile(stick_value(JoystickChannel::Direction, raw, cal_data), outputs, ControlRole::Direction),
    ]
}

/// One full mixer pass: profiled sticks and AUX map, role profiles on
/// CH5..CH10, and the throttle interlock applied last.
pub open spec fn mixer_pass(
    raw: InputFrameMsg,
    cal_data: CalibrationData,
    model: ModelConfig,
    rc_input: Option<RcInputRawMsg>,
) -> Seq<u16> {
    let outputs = model.mixer.outputs@;
    let primary = primary_channels(raw, cal_data, outputs);
    let base = mixed_channels(primary, rc_input, normalize_aux(model.aux_mapping.channels@));
    let profiled = Seq::new(
        16,
        |i: int|
            if 4 <= i <= 9 {
                output_profile(base[i], outputs, aux_role(i))
            } else {
                base[i]
            },
    );
    Seq::new(
        16,
        |i: int|
            if i == 4 && profiled[2] > THROTTLE_ARM_MAX {
                0
            } else {
                profiled[i]
            },
    )
}

/// Every stick has usable calibration.
pub open spec fn calibration_complete(cal_data: CalibrationData) -> bool {
    &&& calibration_usable(cal_data, JoystickChannel::Thrust)
    &&& calibration_usable(cal_data, JoystickChannel::Direction)
    &&& calibration_usable(cal_data, JoystickChannel::Aileron)
    &&& calibration_usable(cal_data, JoystickChannel::Elevator)
}

proof fn lemma_aux_output_in_range(source: AuxSource, inverted: bool, input: RcInputRawMsg)
    ensures
        aux_output_value(source, inverted, input) <= 10000,
{
}

/// One mixer pass over a raw stick frame and the latest switch input: the
/// four sticks calibrated and profiled, the AUX map, role profiles on
/// CH5..CH10, and the throttle interlock.
pub fn mixer_output(
    raw: &InputFrameMsg,
    cal_data: &CalibrationData,
    model: &ModelConfig,
    rc_input: Option<&RcInputRawMsg>,
) -> (res: MixerOutMsg)
    requires
        calibration_complete(*cal_data),
        aux_entries_well_formed(model.aux_mapping.channels@),
    ensures
        res.channels@ == mixer_pass(*raw, *cal_data, *model, deref_input(rc_input)),
        // With the throttle above the arm limit, CH5 (arm) is always 0.
        res.channels[2] > THROTTLE_ARM_MAX ==> res.channels[4] == 0,
        // Every channel stays in the mixer range.
        forall|i: int| 0 <= i < 16 ==> #[trigger] res.channels[i] <= 10000,
{
    let thrust = apply_output_profile(
        cal_mixout(JoystickChannel::Thrust, raw, cal_data),
        model,
        ControlRole::Thrust,
    );
    let direction = apply_output_profile(
        cal_mixout(JoystickChannel::Direction, raw, cal_data),
        model,
        ControlRole::Direction,
    );
    let aileron = apply_output_profile(
        cal_mixout(JoystickChannel::Aileron, raw, cal_data),
        model,
        ControlRole::Aileron,
    );
    let elevator = apply_output_profile(
        cal_mixout(JoystickChannel::Elevator, raw, cal_data),
        model,
        ControlRole::Elevator,
    );
    let primary = [aileron, elevator, thrust, direction];
    let mut mixer_out = build_model_mixer_out(primary, rc_input, model);
    let ghost base = mixer_out.channels@;
    proof {
        assert(primary@ =~= primary_channels(*raw, *cal_data, model.mixer.outputs@));
        assert forall|i: int| 4 <= i < 16 implies #[trigger] base[i] <= 10000 by {
            let aux = normalize_aux(model.aux_mapping.channels@);
            match deref_input(rc_input) {
                Some(input) => {
                    lemma_aux_output_in_range(aux[i - 4].source, aux[i - 4].inverted, input);
                },
                None => {},
            }
        }
    }
    mixer_out.channels[4] = apply_output_profile(mixer_out.channels[4], model, ControlRole::Arm);
    mixer_out.channels[5] = apply_output_profile(
        mixer_out.channels[5],
        model,
        ControlRole::FlightMode,
    );
    mixer_out.channels[6] = apply_output_profile(mixer_out.channels[6], model, ControlRole::Beeper);
    mixer_out.channels[7] = apply_output_profile(mixer_out.channels[7], model, ControlRole::Turtle);
    mixer_out.channels[8] = apply_output_profile(mixer_out.channels[8], model, ControlRole::Prearm);
    mixer_out.channels[9] = apply_output_profile(
        mixer_out.channels[9],
        model,
        ControlRole::GpsRescue,
    );
    if mixer_out.channels[2] > THROTTLE_ARM_MAX {
        mixer_out.channels[4] = 0;
    }
    proof {
        let spec_channels = mixer_pass(*raw, *cal_data, *model, deref_input(rc_input));
        assert(mixer_out.channels@ =~= spec_channels);
    }
    mixer_out
}


/// The role profiles on CH5..CH10 keep 0 at 0.
pub open spec fn profiles_keep_aux_zero(outputs: Seq<MixerOutput>) -> bool {
    forall|i: int| 4 <= i <= 9 ==> #[trigger] output_profile(0, outputs, aux_role(i)) == 0
}

/// The default profile leaves every value of the mixer range unchanged.
pub proof fn lemma_default_profile_identity(value: u16, role: ControlRole)
    requires
        value <= 10000,
    ensures
        profile_value(value, default_output(role)) == value,
{
    let a = (value - 5000) * 100;
    assert(trunc_div(a, 100) == value - 5000) by (nonlinear_arith)
        requires
            a == (value - 5000) * 100,
            value <= 10000,
    {
        if a >= 0 {
            assert(a / 100 == value - 5000);
        } else {
            assert((-a) / 100 == 5000 - value);
        }
    }
}

/// The default model's profiles keep every value of the mixer range
/// unchanged, on every role.
pub proof fn lemma_default_profiles_identity(value: u16, role: ControlRole)
    requires
        value <= 10000,
    ensures
        output_profile(value, default_outputs(), role)
            == value,
{
    let outputs = default_outputs();
    assert(outputs.len() == 10);
    reveal_with_fuel(find_output, 11);
    assert(outputs.drop_first() =~= outputs.subrange(1, 10));
    assert(find_output(outputs, role) == Some(default_output(role))) by {
        assert(outputs[0].role == ControlRole::Thrust);
        assert(outputs.drop_first().drop_first() =~= outputs.subrange(2, 10));
        assert(outputs.subrange(2, 10).drop_first() =~= outputs.subrange(3, 10));
        assert(outputs.subrange(3, 10).drop_first() =~= outputs.subrange(4, 10));
        assert(outputs.subrange(4, 10).drop_first() =~= outputs.subrange(5, 10));
        assert(outputs.subrange(5, 10).drop_first() =~= outputs.subrange(6, 10));
        assert(outputs.subrange(6, 10).drop_first() =~= outputs.subrange(7, 10));
        assert(outputs.subrange(7, 10).drop_first() =~= outputs.subrange(8, 10));
        assert(outputs.subrange(8, 10).drop_first() =~= outputs.subrange(9, 10));
    }
    lemma_default_profile_identity(value, role);
}

/// The default model's profiles keep 0 at 0 on CH5..CH10.
pub proof fn lemma_default_profiles_keep_aux_zero()
    ensures
        profiles_keep_aux_zero(default_outputs()),
{
    assert forall|i: int| 4 <= i <= 9 implies #[trigger] output_profile(
        0,
        default_outputs(),
        aux_role(i),
    ) == 0 by {
        lemma_default_profiles_identity(0, aux_role(i));
    }
}

/// Without switch input (none received, or input without switch data), a
/// model whose CH5..CH10 profiles keep 0 at 0, such as the default model,
/// outputs 0 on every AUX channel CH5..CH16: arm, turtle and GPS rescue stay
/// off.
pub proof fn lemma_no_switch_input_keeps_aux_low(
    raw: InputFrameMsg,
    cal_data: CalibrationData,
    model: ModelConfig,
    rc_input: Option<RcInputRawMsg>,
)
    requires
        profiles_keep_aux_zero(model.mixer.outputs@),
        rc_input matches Some(input) ==> !input.switches_present,
    ensures
        forall|i: int| 4 <= i < 16 ==> #[trigger] mixer_pass(raw, cal_data, model, rc_input)[i] == 0,
{
    assert forall|i: int| 4 <= i < 16 implies #[trigger] mixer_pass(raw, cal_data, model, rc_input)[i]
        == 0 by {
        if 4 <= i <= 9 {
            assert(output_profile(0, model.mixer.outputs@, aux_role(i)) == 0);
        }
    }
}


/// The calibration law of one stick: the value stays in 0..=10000; a raw
/// sample at or beyond the calibrated minimum gives 0 (10000 reversed), at
/// or beyond the maximum 10000 (0 reversed); unreversed, a larger sample
/// never gives a smaller value; and reversing turns a value `r` into
/// `10000 - r`.
pub proof fn lemma_calibrated_value_law(a: i16, b: i16, info: ChannelInfo)
    requires
        info.min < info.max,
    ensures
        calibrated_value(a, info) <= 10000,
        a <= info.min ==> calibrated_value(a, info) == (if info.rev {
            10000u16
        } else {
            0u16
        }),
        a >= info.max ==> calibrated_value(a, info) == (if info.rev {
            0u16
        } else {
            10000u16
        }),
        !info.rev && a <= b ==> calibrated_value(a, info) <= calibrated_value(b, info),
        calibrated_value(a, ChannelInfo { rev: !info.rev, ..info }) == 10000 - calibrated_value(
            a,
            info,
        ),
{
    let span = info.max - info.min;
    let va = clamp_int(a as int, info.min as int, info.max as int);
    let vb = clamp_int(b as int, info.min as int, info.max as int);
    lemma_scaled_in_range(va - info.min, span);
    lemma_scaled_in_range(vb - info.min, span);
    assert((span * 10000) / span == 10000) by (nonlinear_arith)
        requires
            span > 0,
    ;
    assert(0int * 10000 / span == 0) by (nonlinear_arith)
        requires
            span > 0,
    ;
    if a <= b {
        assert((va - info.min) * 10000 <= (vb - info.min) * 10000) by (nonlinear_arith)
            requires
                va <= vb,
        ;
        vstd::arithmetic::div_mod::lemma_div_is_ordered(
            (va - info.min) * 10000,
            (vb - info.min) * 10000,
            span,
        );
    }
}


/// A button source reads bit `i` of the button word and nothing else: it
/// drives 10000 when that bit is set and 0 when it is clear (the other way
/// round when inverted), whatever the other bits are.
pub proof fn lemma_button_source_reads_its_bit(i: u8, inverted: bool, input: RcInputRawMsg)
    requires
        i < 32,
    ensures
        aux_output_value(AuxSource::Button(i), inverted, input) == (if ((input.buttons >> i)
            & 1u32 == 1u32) != inverted {
            10000u16
        } else {
            0u16
        }),
{
    let b = input.buttons;
    assert((b & (1u32 << i) != 0u32) == ((b >> i) & 1u32 == 1u32)) by (bit_vector)
        requires
            i < 32,
    ;
}

proof fn lemma_find_first_output(outputs: Seq<MixerOutput>, role: ControlRole, k: int)
    requires
        0 <= k < outputs.len(),
        outputs[k].role == role,
        forall|j: int| 0 <= j < k ==> (#[trigger] outputs[j]).role != role,
    ensures
        find_output(outputs, role) == Some(outputs[k]),
    decreases k,
{
    if k > 0 {
        let rest = outputs.drop_first();
        assert forall|j: int| 0 <= j < k - 1 implies (#[trigger] rest[j]).role != role by {
            assert(rest[j] == outputs[j + 1]);
        }
        assert(outputs[0].role != role);
        lemma_find_first_output(rest, role, k - 1);
    }
}

/// With weight 100, the full -1000..1000 range, no subtrim and no
/// reversal, the first profile of a role moves a value by 5 per unit of
/// its offset, clamped to 0..=10000: a centred stick (5000) goes to
/// 5000 + 5 * offset.
pub proof fn lemma_offset_moves_profile(
    value: u16,
    outputs: Seq<MixerOutput>,
    role: ControlRole,
    k: int,
)
    requires
        value <= 10000,
        0 <= k < outputs.len(),
        outputs[k].role == role,
        forall|j: int| 0 <= j < k ==> (#[trigger] outputs[j]).role != role,
        outputs[k].weight == 100,
        outputs[k].limits == (OutputLimits { subtrim: 0i16, min: -1000i16, max: 1000i16, reversed: false }),
    ensures
        output_profile(value, outputs, role) == (if value + 5 * outputs[k].offset < 0 {
            0
        } else if value + 5 * outputs[k].offset > 10000 {
            10000
        } else {
            value + 5 * outputs[k].offset
        }),
{
    lemma_find_first_output(outputs, role, k);
    let a = (value - 5000) * 100;
    assert(trunc_div(a, 100) == value - 5000) by (nonlinear_arith)
        requires
            a == (value - 5000) * 100,
            value <= 10000,
    {
        if a >= 0 {
            assert(a / 100 == value - 5000);
        } else {
            assert((-a) / 100 == 5000 - value);
        }
    }
}

} // verus!
