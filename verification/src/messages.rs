//! Messages of the device's RPC interface: the `accel/start` request and the
//! `accel/data` topic.
use vstd::prelude::*;

verus! {

/// One raw accelerometer reading, per axis.
#[derive(Clone, Copy, Debug, PartialEq, Eq, Structural)]
pub struct Acceleration {
    pub x: i16,
    pub y: i16,
    pub z: i16,
}

/// Request to start streaming readings every `interval_ms` milliseconds.
#[derive(Clone, Copy, Debug, PartialEq, Eq, Structural)]
pub struct StartAccel {
    pub interval_ms: u32,
}

} // verus!
