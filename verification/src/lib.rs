//! Verified core of the J1 accelerometer firmware and its host-side reader.
//!
//! * `lis302dl`  – register-level protocol of the LIS302DL accelerometer, run as a
//!   state machine that asks its caller for SPI transfers.
//! * `wire`      – the Protobuf wire format (varints, tags, fixed32) used by the
//!   telemetry link, with the encoder and decoder primitives of `micropb`.
//! * `telemetry` – the `Accel` telemetry message, its length-delimited frame in the
//!   64-byte USB packet buffer and the host-side decoder.
//! * `rtc`       – milliseconds since boot, computed by `chrono`.
//! * `tasks`     – decisions of the periodic firmware tasks (heartbeat, button, USB).
//! * `messages`  – the message types of the RPC interface.
use vstd::prelude::*;

pub mod lis302dl;
pub mod wire;
pub mod telemetry;
pub mod rtc;
pub mod tasks;
pub mod messages;

verus! {

} // verus!
