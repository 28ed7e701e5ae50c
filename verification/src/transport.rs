//! The byte-channel interface the transaction engine consumes. The physical
//! transport (a serial port, or the in-memory mock) implements this trait;
//! the engine only relies on the bounds stated here, never on any timing.

use vstd::prelude::*;

verus! {

/// How a transport call failed.
#[derive(Debug, Clone, Copy, PartialEq, Eq, Structural)]
pub enum TransportError {
    /// No data is currently available; non-fatal, the bus may simply be
    /// idle. Inside a response this signals end-of-frame.
    NoData,
    /// A genuine I/O failure; fatal, propagated to the caller.
    Failed,
}

/// A duplex byte channel with reads that may return fewer bytes than asked
/// for and writes that may be partial. All blocking and timeout behaviour
/// belongs to the implementation; the engine has no timer of its own.
pub trait Transport {
    /// Sends bytes down the channel, returning how many were accepted.
    fn send(&mut self, data: &[u8]) -> (r: Result<usize, TransportError>)
        ensures
            r matches Ok(n) ==> n <= data@.len(),
    ;

    /// Receives at most `max` bytes that have arrived on the channel.
    fn recv(&mut self, max: usize) -> (r: Result<Vec<u8>, TransportError>)
        ensures
            r matches Ok(v) ==> v@.len() <= max,
    ;
}

} // verus!
