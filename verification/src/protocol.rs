//! The packet decoder: turns one raw payload into a [`Packet`] and keeps the
//! tick of the packet before it, to tell duplicates and losses.
//!
//! Layout of a payload:
//!
//! | offset | field                                              |
//! |--------|----------------------------------------------------|
//! | 0      | tick, a counter that wraps from 255 to 0           |
//! | 1      | delay byte: high nibble minimum, low nibble maximum|
//! | 2..5   | gyroscope x, y, z                                  |
//! | 5..8   | accelerometer x, y, z                              |
//! | 8..    | samples, interleaved with the channel count as stride |

use vstd::prelude::*;
use crate::firmware::{
    MOTION_AXES, MOTION_CHANNELS, MOTION_OFFSET, PROTOCOL_HEADER_LEN, TICK_MODULUS,
};

verus! {

/// What has to be added to a raw sample byte to centre it on zero.
pub const SAMPLE_VALUE_OFFSET: i32 = -127;

/// The field that a payload is too short to hold.
#[derive(Clone, Copy, Debug, PartialEq, Eq, Structural)]
pub enum DecodeError {
    /// The payload is empty.
    MissingTick,
    /// The payload ends after the tick.
    MissingDelay,
    /// The payload ends before the sixth motion byte.
    MissingMotion,
}

impl DecodeError {
    /// The text that describes this error.
    pub open spec fn text(self) -> Seq<char> {
        match self {
            DecodeError::MissingTick => "Failed to decode packet, no Tick supplied"@,
            DecodeError::MissingDelay => "Failed to decode packet, no sampling delay byte supplied"@,
            DecodeError::MissingMotion =>
                "Failed to decode packet, no gyroscope/accelerometer data supplied"@,
        }
    }

    /// A description of the error for a log or a user.
    pub fn message(&self) -> (text: String)
        ensures
            text@ == self.text(),
    {
        match self {
            DecodeError::MissingTick => "Failed to decode packet, no Tick supplied".to_owned(),
            DecodeError::MissingDelay =>
                "Failed to decode packet, no sampling delay byte supplied".to_owned(),
            DecodeError::MissingMotion =>
                "Failed to decode packet, no gyroscope/accelerometer data supplied".to_owned(),
        }
    }
}

/// The minimum-delay code of a delay byte: its high nibble.
pub open spec fn min_delay_code(delay_byte: u8) -> int {
    delay_byte as int / 16
}

/// The maximum-delay code of a delay byte: its low nibble.
pub open spec fn max_delay_code(delay_byte: u8) -> int {
    delay_byte as int % 16
}

/// Splits the delay byte into its two four-bit codes, the minimum delay first.
/// Each code stands for the delay `exp((code - A) / B)`, with the two
/// calibration constants of the firmware.
pub fn split_delay_byte(delay_byte: u8) -> (codes: (u8, u8))
    ensures
        codes.0 == min_delay_code(delay_byte),
        codes.1 == max_delay_code(delay_byte),
        codes.0 < 16,
        codes.1 < 16,
{
    let min_code: u8 = (delay_byte & 0xf0) >> 4;
    let max_code: u8 = delay_byte & 0x0f;
    assert((delay_byte & 0xf0) >> 4 == delay_byte / 16) by (bit_vector);
    assert(delay_byte & 0x0f == delay_byte % 16) by (bit_vector);
    (min_code, max_code)
}

/// The number of packets that went missing between a packet with tick `last`
/// and the next one received, with tick `tick`; none before the first packet.
/// A tick below the last one is taken to have wrapped, once. The same tick
/// again has not wrapped: it is one step short of the next packet, and the
/// count, which never goes below zero, is zero.
pub open spec fn lost_between(last: Option<u8>, tick: u8) -> int {
    match last {
        None => 0,
        Some(prev) => {
            let effective = if tick >= prev {
                tick as int
            } else {
                tick as int + TICK_MODULUS
            };
            if effective - prev - 1 > 0 {
                effective - prev - 1
            } else {
                0
            }
        },
    }
}

/// Whether a packet with tick `tick` repeats the one before it.
pub open spec fn repeats(last: Option<u8>, tick: u8) -> bool {
    last == Some(tick)
}

/// Counts the packets lost before the one with tick `tick`.
fn count_lost(last: Option<u8>, tick: u8) -> (lost: i32)
    ensures
        lost == lost_between(last, tick),
        0 <= lost < TICK_MODULUS - 1,
{
    match last {
        None => 0,
        Some(prev) => {
            let effective: i32 = if tick >= prev {
                tick as i32
            } else {
                tick as i32 + TICK_MODULUS
            };
            let gap: i32 = effective - prev as i32 - 1;
            if gap > 0 {
                gap
            } else {
                0
            }
        },
    }
}

/// The number of samples that a payload of `len` bytes carries for each of
/// `channels` channels: the bytes behind the header, divided evenly, a last
/// incomplete round dropped.
pub open spec fn sample_count_of(len: int, channels: int) -> int {
    let data = if len > PROTOCOL_HEADER_LEN {
        len - PROTOCOL_HEADER_LEN
    } else {
        0
    };
    data / channels
}

/// The samples of sensor channel `channel`: behind the header every
/// `channels`-th byte, starting at the channel's own index.
pub open spec fn base_channel(payload: Seq<u8>, channels: int, channel: int) -> Seq<u8> {
    Seq::new(
        sample_count_of(payload.len() as int, channels) as nat,
        |t: int| payload[PROTOCOL_HEADER_LEN + channel + t * channels],
    )
}

/// The channel made from motion byte `axis` (0 to 2 the gyroscope, 3 to 5 the
/// accelerometer): the one reading of the packet at every time step where the
/// sensor is enabled, zero at every time step where it is not.
pub open spec fn motion_channel(payload: Seq<u8>, channels: int, axis: int, enabled: bool) -> Seq<
    u8,
> {
    Seq::new(
        sample_count_of(payload.len() as int, channels) as nat,
        |t: int|
            if enabled {
                payload[MOTION_OFFSET + axis]
            } else {
                0u8
            },
    )
}

/// All channels of a packet: the sensor channels, then the three gyroscope
/// channels, then the three accelerometer channels.
pub open spec fn decoded_samples(payload: Seq<u8>, channels: int, gyroscope: bool, accelerometer: bool) -> Seq<
    Seq<u8>,
> {
    Seq::new(
        (channels + MOTION_CHANNELS) as nat,
        |c: int|
            if c < channels {
                base_channel(payload, channels, c)
            } else if c < channels + MOTION_AXES {
                motion_channel(payload, channels, c - channels, gyroscope)
            } else {
                motion_channel(payload, channels, c - channels, accelerometer)
            },
    )
}

/// Lemma: `count` rounds of `channels` bytes fit behind the header, so every
/// sample index of every channel lies inside the payload.
proof fn lemma_sample_index_in_payload(len: int, channels: int, channel: int, t: int)
    requires
        PROTOCOL_HEADER_LEN <= len,
        0 <= channel < channels,
        0 <= t < sample_count_of(len, channels),
    ensures
        0 <= t * channels,
        PROTOCOL_HEADER_LEN + channel + t * channels < len,
{
    let data = len - PROTOCOL_HEADER_LEN;
    let count = data / channels;
    assert(count * channels <= data) by (nonlinear_arith)
        requires
            count == data / channels,
            channels > 0,
            data >= 0,
    ;
    assert((t + 1) * channels <= count * channels) by (nonlinear_arith)
        requires
            t + 1 <= count,
            channels > 0,
    ;
    assert((t + 1) * channels == t * channels + channels) by (nonlinear_arith);
    assert(0 <= t * channels) by (nonlinear_arith)
        requires
            0 <= t,
            0 < channels,
    ;
}

/// Picks the samples of one sensor channel out of the interleaved bytes.
fn deinterleave(payload: &Vec<u8>, channels: usize, channel: usize, count: usize) -> (samples: Vec<
    u8,
>)
    requires
        PROTOCOL_HEADER_LEN <= payload.len(),
        channel < channels <= i32::MAX,
        count == sample_count_of(payload.len() as int, channels as int),
    ensures
        samples@ == base_channel(payload@, channels as int, channel as int),
{
    let mut samples: Vec<u8> = Vec::new();
    let mut t: usize = 0;
    while t < count
        invariant
            PROTOCOL_HEADER_LEN <= payload.len(),
            channel < channels <= i32::MAX,
            count == sample_count_of(payload.len() as int, channels as int),
            t <= count,
            samples@.len() == t,
            forall|i: int|
                0 <= i < t ==> samples@[i] == payload@[PROTOCOL_HEADER_LEN + channel + i * channels],
        decreases count - t,
    {
        proof {
            lemma_sample_index_in_payload(
                payload.len() as int,
                channels as int,
                channel as int,
                t as int,
            );
        }
        let at: usize = PROTOCOL_HEADER_LEN + channel + t * channels;
        samples.push(payload[at]);
        t = t + 1;
    }
    assert(samples@ =~= base_channel(payload@, channels as int, channel as int));
    samples
}

/// A channel that holds `value` at each of `count` time steps.
fn repeated(value: u8, count: usize) -> (samples: Vec<u8>)
    ensures
        samples@ == Seq::new(count as nat, |t: int| value),
{
    let mut samples: Vec<u8> = Vec::new();
    let mut t: usize = 0;
    while t < count
        invariant
            t <= count,
            samples@.len() == t,
            forall|i: int| 0 <= i < t ==> samples@[i] == value,
        decreases count - t,
    {
        samples.push(value);
        t = t + 1;
    }
    assert(samples@ =~= Seq::new(count as nat, |t: int| value));
    samples
}

/// The decoder's state as plain values.
pub struct DecoderView {
    /// Number of sensor channels that the device reports.
    pub channel_count: int,
    /// Tick of the last packet decoded, `None` before the first one.
    pub last_tick: Option<u8>,
}

impl DecoderView {
    /// There is at least one sensor channel, and the channel count of a
    /// packet, which includes the motion channels, fits its field.
    pub open spec fn valid(self) -> bool {
        0 < self.channel_count <= i32::MAX - MOTION_CHANNELS
    }

    /// The state after a packet with tick `tick` has been decoded.
    pub open spec fn advance(self, tick: u8) -> DecoderView {
        DecoderView { channel_count: self.channel_count, last_tick: Some(tick) }
    }
}

/// A packet as plain values.
pub struct PacketView {
    pub channel_count: int,
    pub tick: int,
    pub min_delay_code: int,
    pub max_delay_code: int,
    pub sample_count: int,
    pub samples: Seq<Seq<u8>>,
    pub is_duplicate: bool,
    pub lost_packets: int,
}

/// One decoded packet.
#[derive(Debug)]
pub struct Packet {
    /// Number of channels in `samples`: the sensor channels and the six
    /// motion channels.
    pub channel_count: i32,
    /// The packet's value of the wrapping counter, 0 to 255.
    pub tick: i32,
    /// Four-bit code of the shortest delay between two samplings.
    pub min_delay_code: u8,
    /// Four-bit code of the longest delay between two samplings.
    pub max_delay_code: u8,
    /// Number of samples in each channel.
    pub sample_count: usize,
    /// `samples[channel][time step]`: the sensor channels first, then
    /// gyroscope x, y, z, then accelerometer x, y, z.
    pub samples: Vec<Vec<u8>>,
    /// Whether the packet before this one had the same tick.
    pub is_duplicate: bool,
    /// Estimate of the packets that went missing before this one.
    pub lost_packets: i32,
}

impl View for Packet {
    type V = PacketView;

    open spec fn view(&self) -> PacketView {
        PacketView {
            channel_count: self.channel_count as int,
            tick: self.tick as int,
            min_delay_code: self.min_delay_code as int,
            max_delay_code: self.max_delay_code as int,
            sample_count: self.sample_count as int,
            samples: self.samples.deep_view(),
            is_duplicate: self.is_duplicate,
            lost_packets: self.lost_packets as int,
        }
    }
}

/// The field that a payload of `len` bytes is too short for, if any.
pub open spec fn missing_field(len: int) -> Option<DecodeError> {
    if len < 1 {
        Some(DecodeError::MissingTick)
    } else if len < 2 {
        Some(DecodeError::MissingDelay)
    } else if len < PROTOCOL_HEADER_LEN {
        Some(DecodeError::MissingMotion)
    } else {
        None
    }
}

/// The packet that a decoder in state `state` reads from a payload of at
/// least eight bytes.
pub open spec fn decoded(state: DecoderView, payload: Seq<u8>, gyroscope: bool, accelerometer: bool) -> PacketView
    recommends
        payload.len() >= PROTOCOL_HEADER_LEN,
{
    PacketView {
        channel_count: state.channel_count + MOTION_CHANNELS,
        tick: payload[0] as int,
        min_delay_code: min_delay_code(payload[1]),
        max_delay_code: max_delay_code(payload[1]),
        sample_count: sample_count_of(payload.len() as int, state.channel_count),
        samples: decoded_samples(payload, state.channel_count, gyroscope, accelerometer),
        is_duplicate: repeats(state.last_tick, payload[0]),
        lost_packets: lost_between(state.last_tick, payload[0]),
    }
}

/// Decodes the packets of one device stream, in the order of their arrival.
pub struct Decoder {
    last_tick: Option<u8>,
    channel_count: i32,
}

impl View for Decoder {
    type V = DecoderView;

    closed spec fn view(&self) -> DecoderView {
        DecoderView { channel_count: self.channel_count as int, last_tick: self.last_tick }
    }
}

impl Decoder {
    #[verifier::type_invariant]
    spec fn well_formed(self) -> bool {
        0 < self.channel_count <= i32::MAX - MOTION_CHANNELS
    }

    /// A decoder for a device with `channel_count` sensor channels, which has
    /// seen no packet yet.
    pub fn new(channel_count: i32) -> (decoder: Decoder)
        requires
            0 < channel_count <= i32::MAX - MOTION_CHANNELS,
        ensures
            decoder@ == (DecoderView { channel_count: channel_count as int, last_tick: None }),
            decoder@.valid(),
    {
        Decoder { last_tick: None, channel_count }
    }

    /// Decodes one payload and remembers its tick. A payload of fewer than
    /// eight bytes is refused and leaves the decoder as it was.
    pub fn decode_packet(
        &mut self,
        raw_packet_payload: Vec<u8>,
        enable_gyroscope: bool,
        enable_accelerometer: bool,
    ) -> (result: Result<Packet, DecodeError>)
        ensures
            result is Ok <==> raw_packet_payload.len() >= PROTOCOL_HEADER_LEN,
            match result {
                Ok(packet) => {
                    &&& packet@ == decoded(
                        old(self)@,
                        raw_packet_payload@,
                        enable_gyroscope,
                        enable_accelerometer,
                    )
                    &&& final(self)@ == old(self)@.advance(raw_packet_payload[0])
                },
                Err(error) => {
                    &&& missing_field(raw_packet_payload.len() as int) == Some(error)
                    &&& final(self)@ == old(self)@
                },
            },
            old(self)@.valid(),
            final(self)@.valid(),
    {
        proof {
            use_type_invariant(&*self);
        }
        let len = raw_packet_payload.len();
        if len < 1 {
            return Err(DecodeError::MissingTick);
        }
        if len < 2 {
            return Err(DecodeError::MissingDelay);
        }
        if len < PROTOCOL_HEADER_LEN {
            return Err(DecodeError::MissingMotion);
        }
        let tick: u8 = raw_packet_payload[0];
        let (min_code, max_code) = split_delay_byte(raw_packet_payload[1]);
        let is_duplicate = match self.last_tick {
            Some(last_tick) => tick == last_tick,
            None => false,
        };
        let lost_packets = count_lost(self.last_tick, tick);
        let channels: usize = self.channel_count as usize;
        let sample_count: usize = (len - PROTOCOL_HEADER_LEN) / channels;
        self.last_tick = Some(tick);

        let mut samples: Vec<Vec<u8>> = Vec::new();
        let mut channel: usize = 0;
        while channel < channels
            invariant
                PROTOCOL_HEADER_LEN <= raw_packet_payload.len(),
                0 < channels <= i32::MAX,
                sample_count == sample_count_of(raw_packet_payload.len() as int, channels as int),
                channel <= channels,
                samples@.len() == channel,
                forall|c: int|
                    0 <= c < channel ==> (#[trigger] samples@[c])@ == decoded_samples(
                        raw_packet_payload@,
                        channels as int,
                        enable_gyroscope,
                        enable_accelerometer,
                    )[c],
            decreases channels - channel,
        {
            samples.push(deinterleave(&raw_packet_payload, channels, channel, sample_count));
            channel = channel + 1;
        }
        let mut axis: usize = 0;
        while axis < MOTION_CHANNELS
            invariant
                PROTOCOL_HEADER_LEN <= raw_packet_payload.len(),
                0 < channels <= i32::MAX,
                sample_count == sample_count_of(raw_packet_payload.len() as int, channels as int),
                axis <= MOTION_CHANNELS,
                samples@.len() == channels + axis,
                forall|c: int|
                    0 <= c < channels + axis ==> (#[trigger] samples@[c])@ == decoded_samples(
                        raw_packet_payload@,
                        channels as int,
                        enable_gyroscope,
                        enable_accelerometer,
                    )[c],
            decreases MOTION_CHANNELS - axis,
        {
            let enabled = if axis < MOTION_AXES {
                enable_gyroscope
            } else {
                enable_accelerometer
            };
            let value: u8 = if enabled {
                raw_packet_payload[MOTION_OFFSET + axis]
            } else {
                0
            };
            let filled = repeated(value, sample_count);
            assert(filled@ =~= motion_channel(
                raw_packet_payload@,
                channels as int,
                axis as int,
                enabled,
            ));
            samples.push(filled);
            axis = axis + 1;
        }
        assert(samples.deep_view() =~~= decoded_samples(
            raw_packet_payload@,
            channels as int,
            enable_gyroscope,
            enable_accelerometer,
        ));
        Ok(
            Packet {
                channel_count: self.channel_count + MOTION_CHANNELS as i32,
                tick: tick as i32,
                min_delay_code: min_code,
                max_delay_code: max_code,
                sample_count,
                samples,
                is_duplicate,
                lost_packets,
            },
        )
    }
}

} // verus!
