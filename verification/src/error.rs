//! Error taxonomy for PSU communications.

use vstd::prelude::*;

verus! {

/// Every failure a device operation can surface, as a typed result: callers
/// can tell "device unreachable" from "device returned garbage" from "value
/// out of range". No operation retries automatically and none panics.
#[derive(Debug, Clone, Copy, PartialEq, Eq, Structural)]
pub enum Error {
    /// I/O failure reported by the underlying transport; fatal, propagated.
    SerialError,
    /// The transport reported no data at all before its deadline.
    Timeout,
    /// A physical value cannot be represented in the register's integer width.
    InvalidRange,
    /// Malformed or CRC-failing response, or echo mismatch on a write.
    InvalidResponse,
    /// The fixed-capacity accumulation buffer filled before a frame completed.
    BufferError,
    /// A register value was too large for the requested narrower type.
    IntTooBig,
    /// The detected model has no confirmed conversion table and the caller
    /// supplied none.
    ScalingNotAvailable,
    /// Any other failure.
    Other,
}

} // verus!
