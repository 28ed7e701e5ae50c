//! The fixed-capacity byte buffer the transaction engine accumulates
//! responses into. The storage is a `heapless::Vec<u8, 256>`, so the engine
//! never allocates; its contents are named by the uninterpreted function
//! [`frame_buffer_bytes`] and every operation the engine uses is a trusted
//! wrapper around one `heapless` method.

use vstd::prelude::*;

verus! {

/// A byte accumulation buffer with a hard capacity of 256 bytes, the most
/// one response frame plus its echo can occupy on this bus.
#[verifier::external_body]
pub struct FrameBuffer {
    inner: heapless::Vec<u8, 256>,
}

/// The bytes a [`FrameBuffer`] currently holds, oldest first.
pub uninterp spec fn frame_buffer_bytes(b: &FrameBuffer) -> Seq<u8>;

impl FrameBuffer {
    /// The hard capacity of the underlying storage.
    pub open spec fn spec_capacity() -> usize {
        256
    }

    /// Relies on `heapless::Vec::new`: a freshly constructed vector is
    /// empty.
    #[verifier::external_body]
    pub fn new() -> (r: FrameBuffer)
        ensures
            frame_buffer_bytes(&r) == Seq::<u8>::empty(),
    {
        FrameBuffer { inner: heapless::Vec::new() }
    }

    /// Relies on `heapless::Vec::extend_from_slice`: when the slice fits the
    /// remaining capacity it is appended in order and the call succeeds;
    /// otherwise the vector is left untouched and the call fails.
    #[verifier::external_body]
    pub fn extend_from_slice(&mut self, data: &[u8]) -> (r: Result<(), ()>)
        ensures
            frame_buffer_bytes(old(self)).len() + data@.len() <= 256 ==> r is Ok,
            r is Ok ==> frame_buffer_bytes(final(self)) == frame_buffer_bytes(old(self)) + data@,
            r is Err ==> frame_buffer_bytes(final(self)) == frame_buffer_bytes(old(self))
                && frame_buffer_bytes(old(self)).len() + data@.len() > 256,
    {
        self.inner.extend_from_slice(data).map_err(|_e| ())
    }

    /// Relies on `heapless::Vec::as_slice`: the returned slice is exactly
    /// the vector's contents in order.
    #[verifier::external_body]
    pub fn as_slice(&self) -> (r: &[u8])
        ensures
            r@ == frame_buffer_bytes(self),
    {
        self.inner.as_slice()
    }

    /// Relies on `heapless::Vec::len` (through the `Deref` slice): the
    /// length of the contents.
    #[verifier::external_body]
    pub fn len(&self) -> (r: usize)
        ensures
            r == frame_buffer_bytes(self).len(),
    {
        self.inner.len()
    }
}

} // verus!
