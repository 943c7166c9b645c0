//! A codec for Open Drone ID (ASTM F3411) Remote ID broadcast messages.
//!
//! A transmitter advertises one 25-byte message at a time, behind a two-byte
//! advertisement header. [`codec::decode::from_service_data`] turns such a frame
//! into a typed [`data::RemoteIDMessage`], and
//! [`codec::encode::to_service_data`] writes a message back into the 27 bytes
//! of a frame. Physical quantities are held as integers in the unit in which
//! the wire format counts them, so that every contract in this crate is exact.
use vstd::prelude::*;

pub mod codec;
pub mod data;
pub mod laws;

verus! {

/// Length of the identifier field of a Basic ID or Operator ID message.
pub const MAX_ID_BYTE_SIZE: usize = 20;

/// First byte of every Open Drone ID advertisement.
pub const OPEN_DRONE_ID_AD_CODE: u8 = 0x0D;

/// Remote ID Service Data Advertisement UUID: the 16-bit service UUID `fffa`
/// placed in the Bluetooth LE base UUID.
pub const REMOTE_ID_SERVICE_UUID: u128 = 0x0000fffa_0000_1000_8000_00805f9b34fb;

} // verus!
