//! What holds of every decoding, stated over the functions that the decoder's
//! contract is written in.

use vstd::prelude::*;
use crate::firmware::{
    MOTION_AXES, MOTION_CHANNELS, MOTION_OFFSET, PROTOCOL_HEADER_LEN, TICK_MODULUS,
};
use crate::protocol::{
    base_channel, decoded, lost_between, max_delay_code, min_delay_code, missing_field, repeats,
    DecodeError, DecoderView,
};

verus! {

/// Decoding is a function of the decoder's state, the payload's bytes and the
/// two switches: payloads that agree byte for byte give the same packet, the
/// same refusal and the same next state.
pub proof fn lemma_decoding_is_deterministic(
    state: DecoderView,
    first: Seq<u8>,
    second: Seq<u8>,
    gyroscope: bool,
    accelerometer: bool,
)
    requires
        first.len() == second.len(),
        forall|i: int| 0 <= i < first.len() ==> first[i] == second[i],
    ensures
        missing_field(first.len() as int) == missing_field(second.len() as int),
        decoded(state, first, gyroscope, accelerometer) == decoded(
            state,
            second,
            gyroscope,
            accelerometer,
        ),
        state.advance(first[0]) == state.advance(second[0]),
{
    assert(first =~= second);
}

/// A payload is refused exactly when it has fewer than eight bytes, and the
/// refusal names the first field that is missing.
pub proof fn lemma_refused_iff_truncated(len: int)
    requires
        0 <= len,
    ensures
        missing_field(len) is Some <==> len < PROTOCOL_HEADER_LEN,
        len == 0 <==> missing_field(len) == Some(DecodeError::MissingTick),
        len == 1 <==> missing_field(len) == Some(DecodeError::MissingDelay),
        2 <= len < PROTOCOL_HEADER_LEN <==> missing_field(len) == Some(DecodeError::MissingMotion),
{
}

/// Both delay codes are four-bit values, and together they make up the delay
/// byte again.
pub proof fn lemma_delay_codes_split_the_byte(delay_byte: u8)
    ensures
        0 <= min_delay_code(delay_byte) < 16,
        0 <= max_delay_code(delay_byte) < 16,
        16 * min_delay_code(delay_byte) + max_delay_code(delay_byte) == delay_byte,
{
}

/// The loss count is never negative and stays below 255. Between two
/// different ticks it is the distance from the tick after `last` to `tick` on
/// the counter's circle of 256 values: a tick above the last one has not
/// wrapped, a tick below it has wrapped once, and a tick that follows
/// directly, also across the wrap from 255 to 0, counts no loss.
pub proof fn lemma_loss_is_counted_around_the_wrap(last: u8, tick: u8)
    ensures
        0 <= lost_between(Some(last), tick) < TICK_MODULUS - 1,
        tick != last ==> lost_between(Some(last), tick) == (tick - last - 1) % (
        TICK_MODULUS as int),
        tick == (last + 1) % (TICK_MODULUS as int) ==> lost_between(Some(last), tick) == 0,
        tick > last ==> lost_between(Some(last), tick) == tick - last - 1,
        tick < last ==> lost_between(Some(last), tick) == tick + TICK_MODULUS - last - 1,
        tick == last ==> lost_between(Some(last), tick) == 0,
{
}

/// A tick that repeats the last one counts no loss.
pub proof fn lemma_repeated_tick_counts_no_loss(last: Option<u8>, tick: u8)
    ensures
        repeats(last, tick) ==> lost_between(last, tick) == 0,
{
}

/// Two packets in a row with the same tick: the second is flagged as a
/// duplicate and counts no loss, whatever the decoder had seen before them.
pub proof fn lemma_duplicate_is_flagged_without_loss(
    state: DecoderView,
    first: Seq<u8>,
    second: Seq<u8>,
    gyroscope: bool,
    accelerometer: bool,
)
    requires
        first.len() >= PROTOCOL_HEADER_LEN,
        second.len() >= PROTOCOL_HEADER_LEN,
        first[0] == second[0],
    ensures
        decoded(state.advance(first[0]), second, gyroscope, accelerometer).is_duplicate,
        decoded(state.advance(first[0]), second, gyroscope, accelerometer).lost_packets == 0,
{
}

/// The first packet of a stream is no duplicate and counts no loss.
pub proof fn lemma_first_packet_is_clean(tick: u8)
    ensures
        !repeats(None, tick),
        lost_between(None, tick) == 0,
{
}

/// A packet is judged by the packet decoded just before it and by nothing
/// earlier: it is flagged as a duplicate exactly when the two ticks are the
/// same, and its loss count is the one between the two ticks.
pub proof fn lemma_packet_is_judged_by_its_predecessor(
    state: DecoderView,
    first: Seq<u8>,
    second: Seq<u8>,
    gyroscope: bool,
    accelerometer: bool,
)
    requires
        first.len() >= PROTOCOL_HEADER_LEN,
        second.len() >= PROTOCOL_HEADER_LEN,
    ensures
        decoded(state.advance(first[0]), second, gyroscope, accelerometer).is_duplicate <==> second[0]
            == first[0],
        decoded(state.advance(first[0]), second, gyroscope, accelerometer).lost_packets
            == lost_between(Some(first[0]), second[0]),
{
}

/// The two switches change what the motion channels hold and nothing else:
/// a packet always has the sensor channels and six motion channels, each of
/// them `sample_count` samples long, and the sensor channels, which are the
/// strided bytes behind the header, are the same under every setting.
pub proof fn lemma_layout_is_stable(
    state: DecoderView,
    payload: Seq<u8>,
    gyroscope: bool,
    accelerometer: bool,
    channel: int,
)
    requires
        state.valid(),
        payload.len() >= PROTOCOL_HEADER_LEN,
        0 <= channel < state.channel_count + MOTION_CHANNELS,
    ensures
        ({
            let packet = decoded(state, payload, gyroscope, accelerometer);
            &&& packet.channel_count == state.channel_count + MOTION_CHANNELS
            &&& packet.samples.len() == packet.channel_count
            &&& packet.sample_count >= 0
            &&& packet.samples[channel].len() == packet.sample_count
            &&& channel < state.channel_count ==> packet.samples[channel] == base_channel(
                payload,
                state.channel_count,
                channel,
            )
            &&& channel < state.channel_count ==> forall|t: int|
                0 <= t < packet.sample_count ==> #[trigger] packet.samples[channel][t]
                    == payload[PROTOCOL_HEADER_LEN + channel + t * state.channel_count]
        }),
{
    let count = state.channel_count;
    let data = payload.len() - PROTOCOL_HEADER_LEN;
    assert(data / count >= 0) by (nonlinear_arith)
        requires
            data >= 0,
            count > 0,
    ;
}

/// With its sensor switched off a motion channel is all zero; with it
/// switched on the channel repeats the packet's one reading of that axis.
/// Either way it is `sample_count` samples long.
pub proof fn lemma_motion_channels_follow_switches(
    state: DecoderView,
    payload: Seq<u8>,
    gyroscope: bool,
    accelerometer: bool,
    axis: int,
)
    requires
        state.valid(),
        payload.len() >= PROTOCOL_HEADER_LEN,
        0 <= axis < MOTION_AXES,
    ensures
        ({
            let packet = decoded(state, payload, gyroscope, accelerometer);
            let count = packet.sample_count as nat;
            let gyroscope_channel = packet.samples[state.channel_count + axis];
            let accelerometer_channel = packet.samples[state.channel_count + MOTION_AXES + axis];
            &&& gyroscope ==> gyroscope_channel == Seq::new(
                count,
                |t: int| payload[MOTION_OFFSET + axis],
            )
            &&& !gyroscope ==> gyroscope_channel == Seq::new(count, |t: int| 0u8)
            &&& accelerometer ==> accelerometer_channel == Seq::new(
                count,
                |t: int| payload[MOTION_OFFSET + MOTION_AXES + axis],
            )
            &&& !accelerometer ==> accelerometer_channel == Seq::new(count, |t: int| 0u8)
        }),
{
    let packet = decoded(state, payload, gyroscope, accelerometer);
    let count = packet.sample_count as nat;
    let gyroscope_channel = packet.samples[state.channel_count + axis];
    let accelerometer_channel = packet.samples[state.channel_count + MOTION_AXES + axis];
    if gyroscope {
        assert(gyroscope_channel =~= Seq::new(count, |t: int| payload[MOTION_OFFSET + axis]));
    } else {
        assert(gyroscope_channel =~= Seq::new(count, |t: int| 0u8));
    }
    if accelerometer {
        assert(accelerometer_channel =~= Seq::new(
            count,
            |t: int| payload[MOTION_OFFSET + MOTION_AXES + axis],
        ));
    } else {
        assert(accelerometer_channel =~= Seq::new(count, |t: int| 0u8));
    }
}

} // verus!
