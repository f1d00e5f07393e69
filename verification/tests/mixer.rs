use lintx::config::{
    AuxChannelMapping, AuxMapping, AuxSource, ControlRole, ModelConfig, OutputLimits,
};
use lintx::control::mixer::{
    apply_limits, apply_output_profile, build_default_mixer_out, build_model_mixer_out,
    cal_mixout, mixer_output, rc_input_from_axes, three_pos_to_mixer, two_pos_to_mixer,
    MixerOutMsg,
};
use lintx::input::calibrate::{CalibrationData, ChannelInfo, JoystickChannel};
use lintx::messages::InputFrameMsg;
use rand::{thread_rng, Rng};

#[test]
fn test_cal_mixout() {
    let mut rng = thread_rng();
    let mut get_random_channel_value = || rng.gen_range(300..1400) as i16;
    let mut input_frame = InputFrameMsg {
        channels: vec![500, 100, 1600, get_random_channel_value()],
        ..InputFrameMsg::default()
    };
    let mut cal_data = CalibrationData {
        channel_infos: [
            ChannelInfo {
                name: "thrust".to_string(),
                index: 0,
                min: 200,
                max: 1500,
                rev: false,
            },
            ChannelInfo {
                name: "direction".to_string(),
                index: 1,
                min: 200,
                max: 1500,
                rev: false,
            },
            ChannelInfo {
                name: "aliron".to_string(),
                index: 2,
                min: 200,
                max: 1500,
                rev: false,
            },
            ChannelInfo {
                name: "ele".to_string(),
                index: 3,
                min: 200,
                max: 1500,
                rev: false,
            },
        ]
        .to_vec(),
        channel_indexs: [0; 4].to_vec(),
    };

    assert_eq!(
        cal_mixout(JoystickChannel::Thrust, &input_frame, &cal_data),
        ((500 - 200) as u32 * 10000 / (1500 - 200)) as u16
    );
    assert_eq!(
        cal_mixout(JoystickChannel::Direction, &input_frame, &cal_data),
        ((200 - 200) as u32 * 10000 / (1500 - 200)) as u16
    );
    assert_eq!(
        cal_mixout(JoystickChannel::Aileron, &input_frame, &cal_data),
        ((1500 - 200) as u32 * 10000 / (1500 - 200)) as u16
    );

    for _ in 0..1000 {
        assert!(cal_mixout(JoystickChannel::Elevator, &input_frame, &cal_data) <= 10000);
        input_frame.channels[3] = get_random_channel_value();
    }

    cal_data.channel_infos[0].rev = true;
    assert_eq!(
        cal_mixout(JoystickChannel::Thrust, &input_frame, &cal_data),
        10000 - ((500 - 200) as u32 * 10000 / (1500 - 200)) as u16
    );
}

fn unit_calibration() -> CalibrationData {
    CalibrationData {
        channel_infos: vec![
            ChannelInfo {
                name: "thrust".to_string(),
                index: 0,
                min: 0,
                max: 1000,
                rev: false,
            },
            ChannelInfo {
                name: "direction".to_string(),
                index: 1,
                min: 0,
                max: 1000,
                rev: false,
            },
            ChannelInfo {
                name: "aileron".to_string(),
                index: 2,
                min: 0,
                max: 1000,
                rev: false,
            },
            ChannelInfo {
                name: "elevator".to_string(),
                index: 3,
                min: 0,
                max: 1000,
                rev: false,
            },
        ],
        channel_indexs: vec![0, 1, 2, 3],
    }
}

#[test]
fn test_cal_mixout_uses_zero_for_missing_channels() {
    let cal_data = unit_calibration();
    let input_frame = InputFrameMsg {
        channels: vec![300, 400],
        ..InputFrameMsg::default()
    };

    assert_eq!(
        cal_mixout(JoystickChannel::Aileron, &input_frame, &cal_data),
        0
    );
}

#[test]
fn test_apply_output_profile_uses_model_settings() {
    let model = ModelConfig::default();
    let mut model = model;
    let elevator = model
        .mixer
        .outputs
        .iter_mut()
        .find(|output| output.role == ControlRole::Elevator)
        .unwrap();
    elevator.weight = 50;
    elevator.offset = 100;
    elevator.limits.reversed = true;

    let value = apply_output_profile(7000, &model, ControlRole::Elevator);
    assert!(value <= 10000);
    assert_ne!(value, 7000);
}

#[test]
fn test_two_position_switch_maps_to_channel_range() {
    assert_eq!(two_pos_to_mixer(false), 0);
    assert_eq!(two_pos_to_mixer(true), 10000);
}

#[test]
fn test_three_position_switch_maps_to_channel_range() {
    assert_eq!(three_pos_to_mixer(0), 0);
    assert_eq!(three_pos_to_mixer(1), 5000);
    assert_eq!(three_pos_to_mixer(2), 10000);
    assert_eq!(three_pos_to_mixer(3), 10000);
}

#[test]
fn test_default_without_switch_input_keeps_arm_safe() {
    let input = rc_input_from_axes([0, 0, 0, 0]);
    let output = build_default_mixer_out([5000, 5000, 0, 5000], Some(&input));

    assert_eq!(output.channels.len(), 16);
    assert_eq!(output.channels[4], 0);
}

#[test]
fn test_throttle_above_low_forces_disarm() {
    let mut input = rc_input_from_axes([0, 0, 0, 0]);
    input.switches_present = true;
    input.switch_2pos[0] = true;

    let output = build_default_mixer_out([5000, 5000, 1000, 5000], Some(&input));

    assert_eq!(output.channels[4], 0);
}

#[test]
fn test_mixer_out_default_mapping_outputs_16_channels() {
    let mut input = rc_input_from_axes([0, 0, 0, 0]);
    input.switches_present = true;
    input.switch_3pos = [1, 2, 0, 1];
    input.switch_2pos = [true, true];

    let output = build_default_mixer_out([6000, 4000, 0, 7000], Some(&input));

    assert_eq!(output.channels.len(), 16);
    assert_eq!(output.channels[0], 6000);
    assert_eq!(output.channels[1], 4000);
    assert_eq!(output.channels[2], 0);
    assert_eq!(output.channels[3], 7000);
    assert_eq!(output.channels[4], 10000);
    assert_eq!(output.channels[5], 5000);
    assert_eq!(output.channels[6], 10000);
    assert_eq!(output.channels[7], 0);
    assert_eq!(output.channels[8], 5000);
    assert_eq!(output.channels[9], 10000);
    assert_eq!(output.channels[10..], [0; 6]);
}

#[test]
fn test_configured_aux_mapping_can_reuse_source_across_channels() {
    let mut input = rc_input_from_axes([0, 0, 0, 0]);
    input.switches_present = true;
    input.switch_3pos[0] = 2;
    let mut model = ModelConfig::default();
    model.aux_mapping = AuxMapping {
        channels: vec![
            AuxChannelMapping {
                channel: 5,
                source: AuxSource::Switch3Pos(0),
                inverted: false,
            },
            AuxChannelMapping {
                channel: 16,
                source: AuxSource::Switch3Pos(0),
                inverted: false,
            },
        ],
    };

    let output = build_model_mixer_out([5000, 5000, 0, 5000], Some(&input), &model);

    assert_eq!(output.channels[4], 10000);
    assert_eq!(output.channels[15], 10000);
}

#[test]
fn test_configured_aux_mapping_supports_inverted_buttons() {
    let mut input = rc_input_from_axes([0, 0, 0, 0]);
    input.switches_present = true;
    input.buttons = 1 << 3;
    let mut model = ModelConfig::default();
    model.aux_mapping = AuxMapping {
        channels: vec![AuxChannelMapping {
            channel: 12,
            source: AuxSource::Button(3),
            inverted: true,
        }],
    };

    let output = build_model_mixer_out([5000, 5000, 0, 5000], Some(&input), &model);

    assert_eq!(output.channels[11], 0);
}

#[test]
fn mixer_out_default_centres_sticks() {
    let out = MixerOutMsg::default();
    assert_eq!(out.channels, [5000, 5000, 0, 5000, 0, 0, 0, 0, 0, 0, 0, 0, 0, 0, 0, 0]);
}

#[test]
fn aux_mapping_normalization_uses_last_entry_and_ignores_other_channels() {
    let mapping = AuxMapping {
        channels: vec![
            AuxChannelMapping { channel: 7, source: AuxSource::Button(1), inverted: false },
            AuxChannelMapping { channel: 4, source: AuxSource::Button(2), inverted: false },
            AuxChannelMapping { channel: 17, source: AuxSource::Button(2), inverted: false },
            AuxChannelMapping { channel: 7, source: AuxSource::Switch2Pos(1), inverted: true },
        ],
    };
    let channels = mapping.normalized_channels();
    assert_eq!(channels.len(), 12);
    for (k, m) in channels.iter().enumerate() {
        assert_eq!(m.channel as usize, k + 5);
    }
    assert_eq!(channels[2].source, AuxSource::Switch2Pos(1));
    assert!(channels[2].inverted);
    assert_eq!(channels[0].source, AuxSource::Switch2Pos(0));
    assert_eq!(channels[1].source, AuxSource::Switch3Pos(0));
    assert_eq!(channels[5].source, AuxSource::Switch2Pos(1));
    assert_eq!(channels[6].source, AuxSource::Unmapped);
    assert_eq!(AuxMapping::default().channels, AuxMapping { channels: vec![] }.normalized_channels());
}

#[test]
fn aux_mapping_inversion_of_three_position_keeps_middle() {
    let mut input = rc_input_from_axes([0, 0, 0, 0]);
    input.switches_present = true;
    input.switch_3pos = [1, 0, 2, 0];
    input.switch_2pos = [false, true];
    let mut model = ModelConfig::default();
    model.aux_mapping = AuxMapping {
        channels: vec![
            AuxChannelMapping { channel: 11, source: AuxSource::Switch3Pos(0), inverted: true },
            AuxChannelMapping { channel: 12, source: AuxSource::Switch3Pos(2), inverted: true },
            AuxChannelMapping { channel: 13, source: AuxSource::Switch2Pos(1), inverted: true },
            AuxChannelMapping { channel: 14, source: AuxSource::Switch3Pos(9), inverted: false },
            AuxChannelMapping { channel: 15, source: AuxSource::Unmapped, inverted: true },
            AuxChannelMapping { channel: 16, source: AuxSource::Switch2Pos(5), inverted: true },
            AuxChannelMapping { channel: 10, source: AuxSource::Switch3Pos(4), inverted: true },
        ],
    };
    let out = build_model_mixer_out([5000, 5000, 0, 5000], Some(&input), &model);
    assert_eq!(out.channels[10], 5000);
    assert_eq!(out.channels[11], 0);
    assert_eq!(out.channels[12], 0);
    assert_eq!(out.channels[13], 0);
    // No source, and switches the input lacks, stay at 0 even when inverted.
    assert_eq!(out.channels[14], 0);
    assert_eq!(out.channels[15], 0);
    assert_eq!(out.channels[9], 0);
}

#[test]
fn mixer_without_rc_input_keeps_aux_low() {
    let out = build_default_mixer_out([1, 2, 3, 4], None);
    assert_eq!(out.channels, [1, 2, 3, 4, 0, 0, 0, 0, 0, 0, 0, 0, 0, 0, 0, 0]);
}

#[test]
fn apply_limits_examples() {
    let limits = OutputLimits { subtrim: 0, min: -1000, max: 1000, reversed: false };
    assert_eq!(apply_limits(12000, &limits), 10000);
    assert_eq!(apply_limits(-5, &limits), 0);
    let limits = OutputLimits { subtrim: 100, min: -500, max: 500, reversed: true };
    assert_eq!(apply_limits(3000, &limits), 6500);
    assert_eq!(apply_limits(9000, &limits), 2500);
    let limits = OutputLimits { subtrim: 0, min: 800, max: -800, reversed: false };
    assert_eq!(apply_limits(100, &limits), 1000);
}

#[test]
fn apply_output_profile_weight_rounds_toward_zero() {
    let mut model = ModelConfig::default();
    for output in model.mixer.outputs.iter_mut() {
        output.weight = 33;
    }
    assert_eq!(apply_output_profile(4999, &model, ControlRole::Aileron), 5000);
    assert_eq!(apply_output_profile(0, &model, ControlRole::Aileron), 3350);
    assert_eq!(apply_output_profile(10000, &model, ControlRole::Aileron), 6650);
    let empty = ModelConfig {
        mixer: lintx::config::MixerConfig { outputs: vec![] },
        aux_mapping: AuxMapping::default(),
    };
    assert_eq!(apply_output_profile(1234, &empty, ControlRole::Thrust), 1234);
    assert_eq!(apply_output_profile(1234, &ModelConfig::default(), ControlRole::Thrust), 1234);
}

#[test]
fn mixer_output_full_pass_enforces_throttle_interlock() {
    let cal = unit_calibration();
    let model = ModelConfig::default();
    let mut input = rc_input_from_axes([0, 0, 0, 0]);
    input.switches_present = true;
    input.switch_2pos = [true, false];
    let low = InputFrameMsg { channels: vec![50, 500, 1000, 0] };
    let out = mixer_output(&low, &cal, &model, Some(&input));
    assert_eq!(out.channels[..4], [10000, 0, 500, 5000]);
    assert_eq!(out.channels[4], 10000);
    let high = InputFrameMsg { channels: vec![51, 500, 1000, 0] };
    let out = mixer_output(&high, &cal, &model, Some(&input));
    assert_eq!(out.channels[2], 510);
    assert_eq!(out.channels[4], 0);
}

#[test]
fn mixer_output_without_switch_data_keeps_every_aux_channel_low() {
    let cal = unit_calibration();
    let model = ModelConfig::default();
    let frame = InputFrameMsg { channels: vec![10, 900, 20, 700] };
    let mut input = rc_input_from_axes([0, 0, 0, 0]);
    input.switch_2pos = [true, true];
    input.switch_3pos = [2, 2, 2, 2];
    input.buttons = u32::MAX;
    input.switches_present = false;
    for rc in [None, Some(&input)] {
        let out = mixer_output(&frame, &cal, &model, rc);
        assert_eq!(out.channels[4..], [0; 12]);
    }
    input.switches_present = true;
    let out = mixer_output(&frame, &cal, &model, Some(&input));
    assert_eq!(out.channels[4], 10000);
    assert_eq!(out.channels[9], 10000);
}

#[test]
fn cal_mixout_range_ends_monotone_and_reversal() {
    let mut cal = unit_calibration();
    cal.channel_infos[0].min = -300;
    cal.channel_infos[0].max = 700;
    let mut previous = 0;
    for raw in [-1000i16, -300, -299, 0, 1, 350, 699, 700, 2000] {
        let frame = InputFrameMsg { channels: vec![raw] };
        let value = cal_mixout(JoystickChannel::Thrust, &frame, &cal);
        assert!(value <= 10000);
        assert!(value >= previous);
        previous = value;
        let mut reversed = cal.clone();
        reversed.channel_infos[0].rev = true;
        assert_eq!(cal_mixout(JoystickChannel::Thrust, &frame, &reversed), 10000 - value);
        if raw <= -300 {
            assert_eq!(value, 0);
        }
        if raw >= 700 {
            assert_eq!(value, 10000);
        }
    }
}

#[test]
fn apply_limits_at_the_ends_of_i32() {
    let plain = OutputLimits { subtrim: 0, min: -1000, max: 1000, reversed: false };
    assert_eq!(apply_limits(i32::MAX, &plain), 10000);
    assert_eq!(apply_limits(i32::MIN, &plain), 0);
    let trimmed = OutputLimits { subtrim: -100, min: -1000, max: 1000, reversed: true };
    assert_eq!(apply_limits(i32::MAX, &trimmed), 0);
    assert_eq!(apply_limits(-2_000_000_000, &trimmed), 10000);
}
