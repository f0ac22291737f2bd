//! What the core asks of a CAN adapter: to send one payload under an
//! extended identifier, and to receive one within a given time.
//!
//! The adapters themselves belong to the platform. Nothing is promised of
//! what they do: a call may fail, and the core only passes the outcome on.

use crate::error::DiagError;
use embedded_can::ExtendedId;
use vstd::prelude::*;

verus! {

/// The greatest 29-bit identifier.
pub const MAX_EXTENDED_ID: u32 = 0x1FFF_FFFF;

/// The most bytes that one CAN payload holds.
pub const MAX_CAN_PAYLOAD: usize = 8;

/// The transmit half of an adapter.
pub trait CanSocketTx {
    /// Sends `data` as one frame under the extended identifier `id`. A
    /// failure is `ChannelError` or `HardwareError`.
    fn transmit(&mut self, id: u32, data: &[u8]) -> Result<(), DiagError>;
}

/// The receive half of an adapter.
pub trait CanSocketRx {
    /// Waits up to `timeout_ms` milliseconds for a frame that passes the
    /// adapter's filter and returns its payload. Where none comes in time
    /// the failure is `Timeout`; where the driver fails, `HardwareError`.
    fn receive_with_timeout(&mut self, timeout_ms: u64) -> Result<Vec<u8>, DiagError>;
}

/// Passes `raw` through `embedded_can::ExtendedId::new` and
/// `ExtendedId::as_raw`: the identifier comes back unchanged where it fits
/// 29 bits, and is refused where it does not.
#[verifier::external_body]
pub(crate) fn extended_id(raw: u32) -> (r: Option<u32>)
    ensures
        raw <= MAX_EXTENDED_ID ==> r == Some(raw),
        raw > MAX_EXTENDED_ID ==> r == None::<u32>,
{
    match ExtendedId::new(raw) {
        Some(id) => Some(id.as_raw()),
        None => None,
    }
}

} // verus!
