//! The STM32 stick-board serial protocol.
//!
//! The board sends joystick payloads either framed as
//! `0x5A, len, payload[len]` or bare as `len, payload[len]` with `len` 12
//! (legacy) or 14 (extended). A payload is a message type byte (`0x01`),
//! four little-endian stick axes, a byte of four 2-bit three-position
//! switches, a byte of two 1-bit shoulder switches, in the extended form a
//! little-endian 16-bit button word, and finally a CRC-8/DVB-S2 over every
//! preceding payload byte.
//!
//! `Stm32FrameParser` buffers the byte stream and resynchronizes after noise
//! and corrupted frames.

use vstd::prelude::*;

use crate::messages::RcInputRawMsg;

verus! {

pub const STM32_SYNC_BYTE: u8 = 0x5A;

pub const STM32_JOYSTICK_MSG_TYPE: u8 = 0x01;

pub const STM32_JOYSTICK_LEGACY_PAYLOAD_LEN: usize = 12;

pub const STM32_JOYSTICK_EXTENDED_PAYLOAD_LEN: usize = 14;

pub const STM32_JOYSTICK_CHANNEL_COUNT: usize = 4;

pub const STM32_MAX_FRAME_LEN: usize = 60;

pub const STM32_MIN_FRAME_LEN: usize = 2;

/// The parser never keeps more than this many bytes buffered.
pub const STM32_MAX_BUFFERED_BYTES: usize = 480;

/// One bit step of CRC-8/DVB-S2: shift left, and xor in the polynomial
/// 0xD5 when the top bit was set.
pub open spec fn crc8_shift(v: u8) -> u8 {
    if v & 0x80u8 != 0 {
        (v << 1u8) ^ 0xD5u8
    } else {
        v << 1u8
    }
}

/// `n` bit steps of CRC-8/DVB-S2.
pub open spec fn crc8_shifts(v: u8, n: nat) -> u8
    decreases n,
{
    if n == 0 {
        v
    } else {
        crc8_shifts(crc8_shift(v), (n - 1) as nat)
    }
}

/// The CRC-8/DVB-S2 checksum of `data`: starting from 0, each byte is xored
/// into the register, which then takes eight bit steps (polynomial 0xD5, no
/// reflection, no final xor).
pub open spec fn crc8_dvb_s2(data: Seq<u8>) -> u8
    decreases data.len(),
{
    if data.len() == 0 {
        0
    } else {
        crc8_shifts(crc8_dvb_s2(data.drop_last()) ^ data.last(), 8)
    }
}

/// Computes the CRC-8/DVB-S2 checksum of `data` with `crc::Crc::<u8>::checksum`
/// on `crc::CRC_8_DVB_S2`.
///
/// Trusted: the contract claims that the crate computes the checksum as
/// `crc8_dvb_s2` defines it, from the algorithm's parameters (width 8,
/// polynomial 0xD5, initial value 0, no reflection, no final xor): a table
/// lookup per byte of the register xored with the byte, each entry being
/// eight such bit steps.
#[verifier::external_body]
fn crc8_dvb_s2_checksum(data: &[u8]) -> (res: u8)
    ensures
        res == crc8_dvb_s2(data@),
{
    crc::Crc::<u8>::new(&crc::CRC_8_DVB_S2).checksum(data)
}

/// The little-endian 16-bit value at `start`.
pub open spec fn le_u16(p: Seq<u8>, start: int) -> u16 {
    (p[start] + p[start + 1] * 256) as u16
}

/// A joystick payload: 12 or 14 bytes (CRC byte included) of message type 1.
pub open spec fn is_joystick_payload(p: Seq<u8>) -> bool {
    &&& (p.len() == STM32_JOYSTICK_LEGACY_PAYLOAD_LEN || p.len()
        == STM32_JOYSTICK_EXTENDED_PAYLOAD_LEN)
    &&& p[0] == STM32_JOYSTICK_MSG_TYPE
}

/// `m` is the decoding of the joystick payload `p`.
pub open spec fn decodes_joystick(p: Seq<u8>, m: RcInputRawMsg) -> bool {
    &&& m.axes@ == seq![
        le_u16(p, 1) as i16,
        le_u16(p, 3) as i16,
        le_u16(p, 5) as i16,
        le_u16(p, 7) as i16,
    ]
    &&& m.switch_3pos@ == seq![p[9] & 3u8, (p[9] >> 2u8) & 3u8, (p[9] >> 4u8) & 3u8, (p[9] >> 6u8) & 3u8]
    &&& m.switch_2pos@ == seq![p[10] & 1u8 != 0, p[10] & 2u8 != 0]
    &&& m.buttons == (if p.len() == STM32_JOYSTICK_EXTENDED_PAYLOAD_LEN {
        le_u16(p, 11) as u32
    } else {
        0u32
    })
    &&& m.switches_present
}

fn read_le_u16(payload: &[u8], start: usize) -> (res: u16)
    requires
        start + 1 < payload@.len(),
    ensures
        res == le_u16(payload@, start as int),
{
    payload[start] as u16 + (payload[start + 1] as u16) * 256
}

/// Decodes a joystick payload (CRC byte included, not checked here): `None`
/// unless it has 12 or 14 bytes and message type 1.
pub fn parse_joystick_input(payload: &[u8]) -> (res: Option<RcInputRawMsg>)
    ensures
        res is Some <==> is_joystick_payload(payload@),
        res matches Some(m) ==> decodes_joystick(payload@, m),
{
    if !(payload.len() == STM32_JOYSTICK_LEGACY_PAYLOAD_LEN || payload.len()
        == STM32_JOYSTICK_EXTENDED_PAYLOAD_LEN) || payload[0] != STM32_JOYSTICK_MSG_TYPE {
        return None;
    }
    let mut axes = [0i16; 4];
    axes[0] = read_le_u16(payload, 1) as i16;
    axes[1] = read_le_u16(payload, 3) as i16;
    axes[2] = read_le_u16(payload, 5) as i16;
    axes[3] = read_le_u16(payload, 7) as i16;

    let switch_byte = payload[1 + STM32_JOYSTICK_CHANNEL_COUNT * 2];
    let shoulder_byte = payload[1 + STM32_JOYSTICK_CHANNEL_COUNT * 2 + 1];
    let buttons = if payload.len() == STM32_JOYSTICK_EXTENDED_PAYLOAD_LEN {
        let start = 1 + STM32_JOYSTICK_CHANNEL_COUNT * 2 + 2;
        read_le_u16(payload, start) as u32
    } else {
        0
    };
    let msg = RcInputRawMsg {
        axes,
        switch_3pos: [
            switch_byte & 0b11,
            (switch_byte >> 2) & 0b11,
            (switch_byte >> 4) & 0b11,
            (switch_byte >> 6) & 0b11,
        ],
        switch_2pos: [shoulder_byte & 0b01 != 0, shoulder_byte & 0b10 != 0],
        buttons,
        switches_present: true,
    };
    proof {
        assert(msg.axes@ =~= seq![
            le_u16(payload@, 1) as i16,
            le_u16(payload@, 3) as i16,
            le_u16(payload@, 5) as i16,
            le_u16(payload@, 7) as i16,
        ]);
        assert(msg.switch_3pos@ =~= seq![
            payload@[9] & 3u8,
            (payload@[9] >> 2u8) & 3u8,
            (payload@[9] >> 4u8) & 3u8,
            (payload@[9] >> 6u8) & 3u8,
        ]);
        assert(msg.switch_2pos@ =~= seq![payload@[10] & 1u8 != 0, payload@[10] & 2u8 != 0]);
    }
    Some(msg)
}

/// The stick axes of a joystick payload, `None` for any other payload.
pub fn parse_joystick_channels(payload: &[u8]) -> (res: Option<[i16; 4]>)
    ensures
        res is Some <==> is_joystick_payload(payload@),
        res matches Some(axes) ==> axes@ == seq![
            le_u16(payload@, 1) as i16,
            le_u16(payload@, 3) as i16,
            le_u16(payload@, 5) as i16,
            le_u16(payload@, 7) as i16,
        ],
{
    match parse_joystick_input(payload) {
        Some(input) => Some(input.axes),
        None => None,
    }
}

/// A byte that can start a frame: the sync byte or a bare payload length.
pub open spec fn is_frame_marker(byte: u8) -> bool {
    byte == STM32_SYNC_BYTE || byte == STM32_JOYSTICK_LEGACY_PAYLOAD_LEN || byte
        == STM32_JOYSTICK_EXTENDED_PAYLOAD_LEN
}

/// The index of the first frame marker in `s`, or `s.len()` if there is none.
pub open spec fn first_marker(s: Seq<u8>) -> int
    decreases s.len(),
{
    if s.len() == 0 {
        0
    } else if is_frame_marker(s[0]) {
        0
    } else {
        1 + first_marker(s.drop_first())
    }
}

/// `first_marker` is the least marker index, or the length if none.
pub proof fn lemma_first_marker(s: Seq<u8>)
    ensures
        0 <= first_marker(s) <= s.len(),
        forall|j: int| 0 <= j < first_marker(s) ==> !is_frame_marker(#[trigger] s[j]),
        first_marker(s) < s.len() ==> is_frame_marker(s[first_marker(s)]),
    decreases s.len(),
{
    if s.len() > 0 && !is_frame_marker(s[0]) {
        lemma_first_marker(s.drop_first());
        assert forall|j: int| 0 <= j < first_marker(s) implies !is_frame_marker(#[trigger] s[j]) by {
            if j > 0 {
                assert(s[j] == s.drop_first()[j - 1]);
            }
        }
    }
}

/// The result of looking at the front of the buffer.
#[derive(Debug, Clone, Copy, PartialEq, Eq, Structural)]
pub enum Stm32Candidate {
    /// The front could still become a frame: wait for more bytes.
    NeedMore,
    /// Bytes that cannot start a frame were dropped.
    Dropped,
    /// A complete candidate frame: `buffer[payload_start..frame_len]` is the
    /// payload including its CRC byte.
    Payload { frame_len: usize, payload_start: usize },
}

/// What the front of `buf` is: a complete candidate frame, an incomplete
/// one, or bytes to drop.
pub open spec fn candidate_of(buf: Seq<u8>) -> Stm32Candidate {
    if buf.len() == 0 {
        Stm32Candidate::NeedMore
    } else if buf[0] == STM32_SYNC_BYTE {
        if buf.len() < 2 {
            Stm32Candidate::NeedMore
        } else if !(STM32_MIN_FRAME_LEN <= buf[1] <= STM32_MAX_FRAME_LEN) {
            Stm32Candidate::Dropped
        } else if buf.len() < 2 + buf[1] {
            Stm32Candidate::NeedMore
        } else {
            Stm32Candidate::Payload { frame_len: (2 + buf[1]) as usize, payload_start: 2 }
        }
    } else if buf[0] == STM32_JOYSTICK_LEGACY_PAYLOAD_LEN || buf[0]
        == STM32_JOYSTICK_EXTENDED_PAYLOAD_LEN {
        if buf.len() < 1 + buf[0] {
            Stm32Candidate::NeedMore
        } else {
            Stm32Candidate::Payload { frame_len: (1 + buf[0]) as usize, payload_start: 1 }
        }
    } else {
        Stm32Candidate::Dropped
    }
}

/// How many bytes a `Dropped` look drops: one byte after a sync byte with
/// an impossible length, otherwise everything up to the next frame marker
/// (at least one byte, the whole buffer if there is no marker).
pub open spec fn dropped_len(buf: Seq<u8>) -> int {
    if buf[0] == STM32_SYNC_BYTE {
        1
    } else if first_marker(buf) == 0 {
        1
    } else {
        first_marker(buf)
    }
}

/// The buffer after looking at its front.
pub open spec fn after_candidate(buf: Seq<u8>) -> Seq<u8> {
    match candidate_of(buf) {
        Stm32Candidate::Dropped => buf.skip(dropped_len(buf)),
        _ => buf,
    }
}

pub proof fn lemma_dropped_len(buf: Seq<u8>)
    requires
        candidate_of(buf) == Stm32Candidate::Dropped,
    ensures
        1 <= dropped_len(buf) <= buf.len(),
{
    lemma_first_marker(buf);
}

/// The outcome of `next_input` on a buffer: the payload (CRC byte included)
/// of the first complete, CRC-valid joystick frame, and the buffer that is
/// left. Corrupted candidates drop one byte; CRC-valid frames that are not
/// joystick payloads are dropped whole.
pub open spec fn next_frame(buf: Seq<u8>) -> (Option<Seq<u8>>, Seq<u8>)
    decreases buf.len(),
{
    match candidate_of(buf) {
        Stm32Candidate::NeedMore => (None, buf),
        Stm32Candidate::Dropped => {
            proof {
                lemma_dropped_len(buf);
            }
            next_frame(buf.skip(dropped_len(buf)))
        },
        Stm32Candidate::Payload { frame_len, payload_start } => {
            let payload = buf.subrange(payload_start as int, frame_len as int);
            if crc8_dvb_s2(payload.drop_last()) != payload.last() {
                next_frame(buf.skip(1))
            } else if is_joystick_payload(payload) {
                (Some(payload), buf.skip(frame_len as int))
            } else {
                next_frame(buf.skip(frame_len as int))
            }
        },
    }
}

/// The buffer kept after appending: at most `STM32_MAX_BUFFERED_BYTES`
/// bytes, starting at a frame marker when the oldest bytes had to go.
pub open spec fn trim_buffer(b: Seq<u8>) -> Seq<u8> {
    if b.len() <= STM32_MAX_BUFFERED_BYTES {
        b
    } else {
        let keep_from = b.len() - STM32_MAX_BUFFERED_BYTES;
        let p = first_marker(b.skip(keep_from));
        if p < STM32_MAX_BUFFERED_BYTES {
            b.skip(keep_from + p)
        } else {
            Seq::empty()
        }
    }
}

/// Streaming decoder of the STM32 serial protocol.
pub struct Stm32FrameParser {
    buffer: Vec<u8>,
}

impl View for Stm32FrameParser {
    type V = Seq<u8>;

    /// The bytes buffered and not yet consumed.
    closed spec fn view(&self) -> Seq<u8> {
        self.buffer@
    }
}

/// The index of the first frame marker at or after `from`, or the length.
fn find_frame_marker(buf: &Vec<u8>, from: usize) -> (res: usize)
    requires
        from <= buf@.len(),
    ensures
        res == from + first_marker(buf@.skip(from as int)),
{
    let mut i = from;
    while i < buf.len()
        invariant
            from <= i <= buf@.len(),
            first_marker(buf@.skip(from as int)) == (i - from) + first_marker(buf@.skip(i as int)),
        decreases buf.len() - i,
    {
        if buf[i] == STM32_SYNC_BYTE || buf[i] as usize == STM32_JOYSTICK_LEGACY_PAYLOAD_LEN
            || buf[i] as usize == STM32_JOYSTICK_EXTENDED_PAYLOAD_LEN {
            assert(buf@.skip(i as int)[0] == buf@[i as int]);
            return i;
        }
        assert(buf@.skip(i as int).drop_first() =~= buf@.skip(i + 1));
        i = i + 1;
    }
    i
}

/// Removes the first `n` bytes.
fn drop_front(buf: &mut Vec<u8>, n: usize)
    requires
        n <= old(buf)@.len(),
    ensures
        final(buf)@ == old(buf)@.skip(n as int),
{
    let rest = buf.split_off(n);
    *buf = rest;
}

impl Stm32FrameParser {
    #[verifier::type_invariant]
    spec fn buffer_bounded(&self) -> bool {
        self.buffer@.len() <= STM32_MAX_BUFFERED_BYTES
    }

    /// A parser with nothing buffered.
    pub fn new() -> (res: Self)
        ensures
            res@ == Seq::<u8>::empty(),
    {
        Stm32FrameParser { buffer: Vec::with_capacity(STM32_MAX_BUFFERED_BYTES) }
    }

    /// Appends received bytes, then drops the oldest bytes if more than
    /// `STM32_MAX_BUFFERED_BYTES` are buffered.
    pub fn push_bytes(&mut self, bytes: &[u8])
        ensures
            final(self)@ == trim_buffer(old(self)@ + bytes@),
            final(self)@.len() <= STM32_MAX_BUFFERED_BYTES,
    {
        proof {
            use_type_invariant(&*self);
        }
        if bytes.len() == 0 {
            assert(old(self)@ + bytes@ =~= old(self)@);
            return;
        }
        let mut buf: Vec<u8> = Vec::new();
        std::mem::swap(&mut buf, &mut self.buffer);
        let ghost joined = buf@ + bytes@;
        let mut i: usize = 0;
        while i < bytes.len()
            invariant
                i <= bytes@.len(),
                buf@ == joined.take(old(self)@.len() + i),
                joined == old(self)@ + bytes@,
            decreases bytes.len() - i,
        {
            buf.push(bytes[i]);
            assert(buf@ =~= joined.take(old(self)@.len() + i + 1));
            i = i + 1;
        }
        assert(buf@ =~= joined);
        Self::trim_buffer_tail(&mut buf);
        self.buffer = buf;
    }

    fn trim_buffer_tail(buf: &mut Vec<u8>)
        ensures
            final(buf)@ == trim_buffer(old(buf)@),
            final(buf)@.len() <= STM32_MAX_BUFFERED_BYTES,
    {
        if buf.len() <= STM32_MAX_BUFFERED_BYTES {
            return;
        }
        let keep_from = buf.len() - STM32_MAX_BUFFERED_BYTES;
        let marker = find_frame_marker(buf, keep_from);
        proof {
            lemma_first_marker(old(buf)@.skip(keep_from as int));
        }
        if marker < buf.len() {
            drop_front(buf, marker);
        } else {
            buf.clear();
        }
    }

    /// Decodes the next joystick frame, consuming it and everything before
    /// it; `None` when no complete CRC-valid joystick frame is buffered.
    pub fn next_input(&mut self) -> (res: Option<RcInputRawMsg>)
        ensures
            final(self)@ == next_frame(old(self)@).1,
            res is Some <==> next_frame(old(self)@).0 is Some,
            res matches Some(m) ==> decodes_joystick(next_frame(old(self)@).0->0, m),
    {
        loop
            invariant
                next_frame(self@) == next_frame(old(self)@),
            decreases self@.len(),
        {
            proof {
                use_type_invariant(&*self);
            }
            let ghost before = self@;
            let candidate = self.next_candidate();
            match candidate {
                Stm32Candidate::NeedMore => {
                    return None;
                },
                Stm32Candidate::Dropped => {
                    proof {
                        lemma_dropped_len(before);
                    }
                },
                Stm32Candidate::Payload { frame_len, payload_start } => {
                    let ghost payload_spec = before.subrange(payload_start as int, frame_len as int);
                    let payload = vstd::slice::slice_subrange(
                        self.buffer.as_slice(),
                        payload_start,
                        frame_len,
                    );
                    let data_len = payload.len();
                    let received_crc = payload[data_len - 1];
                    let data = vstd::slice::slice_subrange(payload, 0, data_len - 1);
                    assert(data@ =~= payload_spec.drop_last());
                    let computed_crc = crc8_dvb_s2_checksum(data);
                    if computed_crc != received_crc {
                        self.drop_buffered(1);
                    } else {
                        let parsed = parse_joystick_input(payload);
                        self.drop_buffered(frame_len);
                        if let Some(input) = parsed {
                            return Some(input);
                        }
                    }
                },
            }
        }
    }

    fn drop_buffered(&mut self, n: usize)
        requires
            n <= old(self)@.len(),
        ensures
            final(self)@ == old(self)@.skip(n as int),
    {
        proof {
            use_type_invariant(&*self);
        }
        let mut buf: Vec<u8> = Vec::new();
        std::mem::swap(&mut buf, &mut self.buffer);
        drop_front(&mut buf, n);
        self.buffer = buf;
    }

    fn next_candidate(&mut self) -> (res: Stm32Candidate)
        ensures
            res == candidate_of(old(self)@),
            final(self)@ == after_candidate(old(self)@),
            res matches Stm32Candidate::Payload { frame_len, payload_start } ==> payload_start
                < frame_len <= old(self)@.len(),
    {
        proof {
            use_type_invariant(&*self);
        }
        if self.buffer.len() == 0 {
            return Stm32Candidate::NeedMore;
        }
        if self.buffer[0] == STM32_SYNC_BYTE {
            if self.buffer.len() < 2 {
                return Stm32Candidate::NeedMore;
            }
            let payload_len = self.buffer[1] as usize;
            if !(STM32_MIN_FRAME_LEN <= payload_len && payload_len <= STM32_MAX_FRAME_LEN) {
                self.drop_buffered(1);
                return Stm32Candidate::Dropped;
            }
            let frame_len = 2 + payload_len;
            if self.buffer.len() < frame_len {
                return Stm32Candidate::NeedMore;
            }
            return Stm32Candidate::Payload { frame_len, payload_start: 2 };
        }
        if self.buffer[0] as usize == STM32_JOYSTICK_LEGACY_PAYLOAD_LEN || self.buffer[0] as usize
            == STM32_JOYSTICK_EXTENDED_PAYLOAD_LEN {
            let payload_len = self.buffer[0] as usize;
            let frame_len = 1 + payload_len;
            if self.buffer.len() < frame_len {
                return Stm32Candidate::NeedMore;
            }
            return Stm32Candidate::Payload { frame_len, payload_start: 1 };
        }
        self.discard_until_frame_marker();
        Stm32Candidate::Dropped
    }

    fn discard_until_frame_marker(&mut self)
        requires
            old(self)@.len() > 0,
            !is_frame_marker(old(self)@[0]),
        ensures
            final(self)@ == old(self)@.skip(dropped_len(old(self)@)),
    {
        proof {
            use_type_invariant(&*self);
            lemma_first_marker(old(self)@);
            assert(old(self)@.skip(0) =~= old(self)@);
        }
        let marker_pos = find_frame_marker(&self.buffer, 0);
        if marker_pos == 0 {
            self.drop_buffered(1);
        } else if marker_pos < self.buffer.len() {
            self.drop_buffered(marker_pos);
        } else {
            let mut buf: Vec<u8> = Vec::new();
            std::mem::swap(&mut buf, &mut self.buffer);
            buf.clear();
            self.buffer = buf;
            assert(old(self)@.skip(old(self)@.len() as int) =~= Seq::<u8>::empty());
        }
    }
}

/// `next_frame` only ever consumes bytes from the front of the buffer: what
/// is left is a suffix of what was there.
pub proof fn lemma_next_frame_leaves_suffix(buf: Seq<u8>)
    ensures
        next_frame(buf).1.len() <= buf.len(),
        next_frame(buf).1 == buf.skip(buf.len() - next_frame(buf).1.len()),
    decreases buf.len(),
{
    match candidate_of(buf) {
        Stm32Candidate::NeedMore => {
            assert(buf.skip(0) =~= buf);
        },
        Stm32Candidate::Dropped => {
            lemma_dropped_len(buf);
            let rest = buf.skip(dropped_len(buf));
            lemma_next_frame_leaves_suffix(rest);
            assert(rest.skip(rest.len() - next_frame(rest).1.len()) =~= buf.skip(
                buf.len() - next_frame(rest).1.len(),
            ));
        },
        Stm32Candidate::Payload { frame_len, payload_start } => {
            let payload = buf.subrange(payload_start as int, frame_len as int);
            let next = if crc8_dvb_s2(payload.drop_last()) != payload.last() {
                buf.skip(1)
            } else {
                buf.skip(frame_len as int)
            };
            lemma_next_frame_leaves_suffix(next);
            assert(next.skip(next.len() - next_frame(next).1.len()) =~= buf.skip(
                buf.len() - next_frame(next).1.len(),
            ));
        },
    }
}

/// Every payload `next_frame` yields is a joystick payload whose CRC byte
/// matches the CRC-8/DVB-S2 of the bytes before it.
pub proof fn lemma_next_frame_payload_checked(buf: Seq<u8>)
    ensures
        next_frame(buf).0 matches Some(p) ==> is_joystick_payload(p) && crc8_dvb_s2(p.drop_last())
            == p.last(),
    decreases buf.len(),
{
    match candidate_of(buf) {
        Stm32Candidate::NeedMore => {},
        Stm32Candidate::Dropped => {
            lemma_dropped_len(buf);
            lemma_next_frame_payload_checked(buf.skip(dropped_len(buf)));
        },
        Stm32Candidate::Payload { frame_len, payload_start } => {
            lemma_next_frame_payload_checked(buf.skip(1));
            lemma_next_frame_payload_checked(buf.skip(frame_len as int));
        },
    }
}

/// The payload of a joystick frame: message data followed by its CRC byte.
pub open spec fn with_crc(data: Seq<u8>) -> Seq<u8> {
    data.push(crc8_dvb_s2(data))
}

/// A sync-framed message: sync byte, payload length, payload with CRC.
pub open spec fn sync_frame(data: Seq<u8>) -> Seq<u8> {
    seq![STM32_SYNC_BYTE, (data.len() + 1) as u8] + with_crc(data)
}

/// A bare message: payload length, payload with CRC.
pub open spec fn bare_frame(data: Seq<u8>) -> Seq<u8> {
    seq![(data.len() + 1) as u8] + with_crc(data)
}

/// Message data that makes a joystick payload once its CRC is appended.
pub open spec fn is_joystick_data(data: Seq<u8>) -> bool {
    &&& (data.len() + 1 == STM32_JOYSTICK_LEGACY_PAYLOAD_LEN || data.len() + 1
        == STM32_JOYSTICK_EXTENDED_PAYLOAD_LEN)
    &&& data[0] == STM32_JOYSTICK_MSG_TYPE
}

/// A sync-framed joystick message at the front of the buffer is decoded
/// whole, whatever follows it, and exactly its bytes are consumed.
pub proof fn lemma_sync_frame_round_trip(data: Seq<u8>, rest: Seq<u8>)
    requires
        is_joystick_data(data),
    ensures
        next_frame(sync_frame(data) + rest) == (Some(with_crc(data)), rest),
{
    let buf = sync_frame(data) + rest;
    let n: int = data.len() as int + 1;
    assert(buf[0] == STM32_SYNC_BYTE);
    assert(buf[1] == n);
    assert(candidate_of(buf) == Stm32Candidate::Payload {
        frame_len: (2 + n) as usize,
        payload_start: 2,
    });
    assert(buf.subrange(2, 2 + n) =~= with_crc(data));
    assert(with_crc(data).drop_last() =~= data);
    assert(buf.skip(2 + n) =~= rest);
}

/// A bare joystick message at the front of the buffer is decoded whole,
/// whatever follows it, and exactly its bytes are consumed.
pub proof fn lemma_bare_frame_round_trip(data: Seq<u8>, rest: Seq<u8>)
    requires
        is_joystick_data(data),
    ensures
        next_frame(bare_frame(data) + rest) == (Some(with_crc(data)), rest),
{
    let buf = bare_frame(data) + rest;
    let n: int = data.len() as int + 1;
    assert(buf[0] == n);
    assert(candidate_of(buf) == Stm32Candidate::Payload {
        frame_len: (1 + n) as usize,
        payload_start: 1,
    });
    assert(buf.subrange(1, 1 + n) =~= with_crc(data));
    assert(with_crc(data).drop_last() =~= data);
    assert(buf.skip(1 + n) =~= rest);
}

/// Bytes that are not frame markers are skipped: noise in front of a frame
/// does not change what is decoded or what is left.
pub proof fn lemma_noise_is_skipped(noise: Seq<u8>, buf: Seq<u8>)
    requires
        forall|i: int| 0 <= i < noise.len() ==> !is_frame_marker(#[trigger] noise[i]),
        buf.len() > 0 ==> is_frame_marker(buf[0]),
    ensures
        next_frame(noise + buf) == next_frame(buf),
{
    if noise.len() > 0 {
        let all = noise + buf;
        assert(all[0] == noise[0]);
        assert(candidate_of(all) == Stm32Candidate::Dropped);
        lemma_first_marker(all);
        if first_marker(all) < noise.len() {
            assert(is_frame_marker(all[first_marker(all)]));
            assert(all[first_marker(all)] == noise[first_marker(all)]);
        }
        if first_marker(all) > noise.len() {
            assert(all[noise.len() as int] == buf[0]);
        }
        if buf.len() == 0 {
            assert(all.skip(dropped_len(all)) =~= buf);
        } else {
            assert(all[noise.len() as int] == buf[0]);
            assert(dropped_len(all) == noise.len());
            assert(all.skip(dropped_len(all)) =~= buf);
        }
    } else {
        assert(noise + buf =~= buf);
    }
}


/// A complete candidate frame at the front whose CRC byte does not match
/// costs only its first byte: decoding goes on from the very next byte, so
/// no frame that starts inside the corrupted candidate is lost.
pub proof fn lemma_bad_crc_drops_one_byte(buf: Seq<u8>)
    requires
        candidate_of(buf) matches Stm32Candidate::Payload { frame_len, payload_start }
            && crc8_dvb_s2(buf.subrange(payload_start as int, frame_len as int).drop_last())
            != buf.subrange(payload_start as int, frame_len as int).last(),
    ensures
        next_frame(buf) == next_frame(buf.skip(1)),
{
}

/// A corrupted candidate followed, after bytes that cannot start a frame,
/// by a sync-framed joystick message: the message is still decoded whole,
/// and exactly the bytes up to its end are consumed, even when the
/// corrupted candidate's claimed length reaches into it.
pub proof fn lemma_resync_after_bad_crc(
    first: u8,
    noise: Seq<u8>,
    data: Seq<u8>,
    rest: Seq<u8>,
)
    requires
        is_joystick_data(data),
        forall|i: int| 0 <= i < noise.len() ==> !is_frame_marker(#[trigger] noise[i]),
        ({
            let buf = seq![first] + noise + sync_frame(data) + rest;
            candidate_of(buf) matches Stm32Candidate::Payload { frame_len, payload_start }
                && crc8_dvb_s2(buf.subrange(payload_start as int, frame_len as int).drop_last())
                != buf.subrange(payload_start as int, frame_len as int).last()
        }),
    ensures
        next_frame(seq![first] + noise + sync_frame(data) + rest) == (Some(with_crc(data)), rest),
{
    let buf = seq![first] + noise + sync_frame(data) + rest;
    lemma_bad_crc_drops_one_byte(buf);
    let tail = sync_frame(data) + rest;
    assert(buf.skip(1) =~= noise + tail);
    assert(tail[0] == STM32_SYNC_BYTE);
    lemma_noise_is_skipped(noise, tail);
    lemma_sync_frame_round_trip(data, rest);
}

} // verus!
