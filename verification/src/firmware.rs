//! Constants of the wire protocol, which have to match the device's firmware.

use vstd::prelude::*;

verus! {

/// Offset of the first sample byte in a payload: the tick, the delay byte and
/// the six motion bytes come before it.
pub const PROTOCOL_HEADER_LEN: usize = 8;

/// Offset of the first motion byte in a payload.
pub const MOTION_OFFSET: usize = 2;

/// Number of motion readings in a payload: gyroscope x, y, z, then
/// accelerometer x, y, z.
pub const MOTION_CHANNELS: usize = 6;

/// Number of axes of each motion sensor.
pub const MOTION_AXES: usize = 3;

/// Number of values that the wrapping tick counter takes.
pub const TICK_MODULUS: i32 = 256;

} // verus!
