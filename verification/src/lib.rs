//! Decoder for the packets that a wearable biosignal sensor streams over its
//! wireless link, and the session dataset that collects decoded packets.

pub mod calibration;
pub mod firmware;
pub mod laws;
pub mod protocol;
