use crc::{Crc, CRC_8_DVB_S2};
use lintx::stm32_serial::{
    parse_joystick_channels, parse_joystick_input, Stm32FrameParser,
    STM32_JOYSTICK_CHANNEL_COUNT, STM32_JOYSTICK_LEGACY_PAYLOAD_LEN, STM32_JOYSTICK_MSG_TYPE,
    STM32_SYNC_BYTE,
};

const STM32_JOYSTICK_RESERVED_LEN: usize = 2;

fn build_frame(channels: [u16; STM32_JOYSTICK_CHANNEL_COUNT]) -> Vec<u8> {
    let crc_alg = Crc::<u8>::new(&CRC_8_DVB_S2);
    let mut frame = vec![
        STM32_SYNC_BYTE,
        STM32_JOYSTICK_LEGACY_PAYLOAD_LEN as u8,
        STM32_JOYSTICK_MSG_TYPE,
    ];
    for channel in channels {
        frame.extend_from_slice(&channel.to_le_bytes());
    }
    frame.extend_from_slice(&[0u8; STM32_JOYSTICK_RESERVED_LEN]);
    let crc = crc_alg.checksum(&frame[2..]);
    frame.push(crc);
    frame
}

fn build_frame_with_buttons(
    channels: [u16; STM32_JOYSTICK_CHANNEL_COUNT],
    switch_byte: u8,
    shoulder_byte: u8,
    buttons: u16,
) -> Vec<u8> {
    let crc_alg = Crc::<u8>::new(&CRC_8_DVB_S2);
    let mut frame = vec![STM32_SYNC_BYTE, 14, STM32_JOYSTICK_MSG_TYPE];
    for channel in channels {
        frame.extend_from_slice(&channel.to_le_bytes());
    }
    frame.push(switch_byte);
    frame.push(shoulder_byte);
    frame.extend_from_slice(&buttons.to_le_bytes());
    let crc = crc_alg.checksum(&frame[2..]);
    frame.push(crc);
    frame
}

#[test]
fn test_parse_joystick_channels_from_board_frame() {
    let frame = build_frame([2088, 1541, 2059, 2061]);

    assert_eq!(frame.len(), 14);
    assert_eq!(frame[1], STM32_JOYSTICK_LEGACY_PAYLOAD_LEN as u8);
    assert_eq!(
        parse_joystick_channels(&frame[2..]),
        Some([2088, 1541, 2059, 2061])
    );
}

#[test]
fn test_parse_joystick_input_decodes_switch_bitfields() {
    let mut frame = build_frame([2088, 1541, 2059, 2061]);
    frame[2 + 1 + STM32_JOYSTICK_CHANNEL_COUNT * 2] = 0b10_01_00_10;
    frame[2 + 1 + STM32_JOYSTICK_CHANNEL_COUNT * 2 + 1] = 0b0000_0011;
    let crc = Crc::<u8>::new(&CRC_8_DVB_S2).checksum(&frame[2..frame.len() - 1]);
    let last = frame.len() - 1;
    frame[last] = crc;

    let input = parse_joystick_input(&frame[2..]).unwrap();

    assert_eq!(input.axes, [2088, 1541, 2059, 2061]);
    assert_eq!(input.switch_3pos, [2, 0, 1, 2]);
    assert_eq!(input.switch_2pos, [true, true]);
    assert!(input.switches_present);
}

#[test]
fn test_parse_joystick_input_decodes_buttons_u16_from_extended_frame() {
    let buttons = (1 << 10) | (1 << 12) | (1 << 14);
    let frame = build_frame_with_buttons(
        [2088, 1541, 2059, 2061],
        0b10_01_00_10,
        0b0000_0011,
        buttons,
    );

    assert_eq!(frame.len(), 16);
    assert_eq!(frame[1], 14);

    let input = parse_joystick_input(&frame[2..]).unwrap();

    assert_eq!(input.axes, [2088, 1541, 2059, 2061]);
    assert_eq!(input.switch_3pos, [2, 0, 1, 2]);
    assert_eq!(input.switch_2pos, [true, true]);
    assert_eq!(input.buttons, buttons as u32);
}

#[test]
fn test_parser_accepts_bare_extended_frame_without_sync_byte() {
    let buttons = (1 << 10) | (1 << 14);
    let frame = build_frame_with_buttons([2048, 2048, 2048, 2048], 0x05, 0x00, buttons);
    let mut parser = Stm32FrameParser::new();

    parser.push_bytes(&frame[1..]);

    let input = parser.next_input().unwrap();
    assert_eq!(input.axes, [2048, 2048, 2048, 2048]);
    assert_eq!(input.switch_3pos, [1, 1, 0, 0]);
    assert_eq!(input.switch_2pos, [false, false]);
    assert_eq!(input.buttons, buttons as u32);
    assert_eq!(parser.next_input(), None);
}

#[test]
fn test_parser_accepts_board_observed_bare_frame() {
    let observed = [
        0x0e, 0x01, 0x00, 0x08, 0x00, 0x08, 0x00, 0x08, 0x00, 0x08, 0x05, 0x00, 0x00, 0x00,
        0x70,
    ];
    let mut parser = Stm32FrameParser::new();

    parser.push_bytes(&observed);

    let input = parser.next_input().unwrap();
    assert_eq!(input.axes, [2048, 2048, 2048, 2048]);
    assert_eq!(input.switch_3pos, [1, 1, 0, 0]);
    assert_eq!(input.switch_2pos, [false, false]);
    assert_eq!(input.buttons, 0);
}

#[test]
fn test_parse_joystick_channels_rejects_non_joystick_payload() {
    let mut frame = build_frame([2088, 1541, 2059, 2061]);
    frame[2] = 0x02;

    assert_eq!(parse_joystick_channels(&frame[2..]), None);
}

#[test]
fn test_parser_resynchronizes_after_noise_and_bad_crc() {
    let mut parser = Stm32FrameParser::new();
    let frame = build_frame([2088, 1541, 2059, 2061]);
    let mut corrupted = frame.clone();
    let last = corrupted.len() - 1;
    corrupted[last] ^= 0xFF;

    let mut input = vec![0x00, 0x11, 0x22, STM32_SYNC_BYTE];
    input.extend_from_slice(&corrupted);
    input.extend_from_slice(&frame);

    parser.push_bytes(&input);

    assert_eq!(
        parser.next_input().map(|input| input.axes),
        Some([2088, 1541, 2059, 2061])
    );
    assert_eq!(parser.next_input(), None);
}

#[test]
fn test_parser_handles_fragmented_frame() {
    let mut parser = Stm32FrameParser::new();
    let frame = build_frame([1000, 1200, 1400, 1600]);

    parser.push_bytes(&frame[..5]);
    assert_eq!(parser.next_input(), None);

    parser.push_bytes(&frame[5..]);
    assert_eq!(
        parser.next_input().map(|input| input.axes),
        Some([1000, 1200, 1400, 1600])
    );
}

#[test]
fn parse_rejects_wrong_lengths() {
    let frame = build_frame([1, 2, 3, 4]);
    assert!(parse_joystick_input(&frame[2..frame.len() - 1]).is_none());
    assert!(parse_joystick_input(&[]).is_none());
}

#[test]
fn parse_axes_are_signed_little_endian() {
    let frame = build_frame([0xFFFF, 0x8000, 0x7FFF, 0x0102]);
    assert_eq!(
        parse_joystick_channels(&frame[2..]),
        Some([-1, i16::MIN, i16::MAX, 0x0102])
    );
}

#[test]
fn parser_rejects_a_frame_whose_crc_byte_is_its_payload_echo() {
    // A checksum equal to the last data byte would pass a wrapper that
    // handed its input back; the real CRC-8/DVB-S2 rejects it.
    let mut frame = build_frame([5, 6, 7, 8]);
    let last = frame.len() - 1;
    frame[last] = frame[last - 1];
    let mut parser = Stm32FrameParser::new();
    parser.push_bytes(&frame);
    assert_eq!(parser.next_input(), None);
}

#[test]
fn crc8_dvb_s2_check_value_frame_is_accepted() {
    // CRC-8/DVB-S2 of "123456789" is 0xBC; a frame carrying that checksum
    // must be accepted when the data is a joystick payload.
    let data = [0x01u8, 0, 0, 0, 0, 0, 0, 0, 0, 0, 0];
    let crc = Crc::<u8>::new(&CRC_8_DVB_S2).checksum(&data);
    let mut frame = vec![STM32_SYNC_BYTE, 12];
    frame.extend_from_slice(&data);
    frame.push(crc);
    let mut parser = Stm32FrameParser::new();
    parser.push_bytes(&frame);
    assert_eq!(parser.next_input().map(|m| m.axes), Some([0, 0, 0, 0]));
    assert_eq!(Crc::<u8>::new(&CRC_8_DVB_S2).checksum(b"123456789"), 0xBC);
}

#[test]
fn parser_skips_valid_frames_of_other_message_types() {
    let mut other = build_frame([9, 9, 9, 9]);
    other[2] = 0x02;
    let last = other.len() - 1;
    other[last] = Crc::<u8>::new(&CRC_8_DVB_S2).checksum(&other[2..last]);
    let frame = build_frame([1, 2, 3, 4]);
    let mut parser = Stm32FrameParser::new();
    parser.push_bytes(&other);
    parser.push_bytes(&frame);
    assert_eq!(parser.next_input().map(|m| m.axes), Some([1, 2, 3, 4]));
    assert_eq!(parser.next_input(), None);
}

#[test]
fn parser_drops_sync_with_impossible_length() {
    let frame = build_frame([4, 3, 2, 1]);
    let mut bytes = vec![STM32_SYNC_BYTE, 200];
    bytes.extend_from_slice(&frame);
    let mut parser = Stm32FrameParser::new();
    parser.push_bytes(&bytes);
    assert_eq!(parser.next_input().map(|m| m.axes), Some([4, 3, 2, 1]));
}

#[test]
fn parser_bounds_its_buffer() {
    let mut parser = Stm32FrameParser::new();
    let noise = vec![0x00u8; 1000];
    parser.push_bytes(&noise);
    assert_eq!(parser.next_input(), None);
    let frame = build_frame([7, 7, 7, 7]);
    let mut big = vec![0x33u8; 470];
    big.extend_from_slice(&frame);
    parser.push_bytes(&big);
    assert_eq!(parser.next_input().map(|m| m.axes), Some([7, 7, 7, 7]));
}

/// CRC-8/DVB-S2 bit by bit, as the library's specification defines it.
fn bitwise_crc8_dvb_s2(data: &[u8]) -> u8 {
    let mut crc = 0u8;
    for byte in data {
        crc ^= byte;
        for _ in 0..8 {
            crc = if crc & 0x80 != 0 { (crc << 1) ^ 0xD5 } else { crc << 1 };
        }
    }
    crc
}

#[test]
fn crc_crate_matches_the_bitwise_definition() {
    let crc = crc::Crc::<u8>::new(&crc::CRC_8_DVB_S2);
    assert_eq!(bitwise_crc8_dvb_s2(b"123456789"), 0xBC);
    assert_eq!(crc.checksum(b"123456789"), 0xBC);
    let mut data = Vec::new();
    for i in 0..300u32 {
        assert_eq!(crc.checksum(&data), bitwise_crc8_dvb_s2(&data));
        data.push((i.wrapping_mul(97) ^ (i >> 3)) as u8);
    }
}
