//! An in-memory transport that emulates the serial port: written bytes are
//! recorded, reads are served from queued response chunks, and either
//! direction can be made to fail on demand. One chunk answers one
//! transaction; a read call never crosses a chunk boundary, and an
//! exhausted queue reads as "no data", exactly the idle bus the engine
//! treats as end-of-frame.

use vstd::prelude::*;
use crate::transport::{Transport, TransportError};

verus! {

/// The capacity of the mock's write buffer and of each queued read chunk.
pub const MOCK_BUFFER_CAPACITY: usize = 256;

/// How a mock transport call failed.
#[derive(Debug, Clone, Copy, PartialEq, Eq, Structural)]
pub enum MockSerialError {
    /// Simulated timeout.
    Timeout,
    /// A buffer would have overflowed its fixed capacity.
    BufferOverflow,
    /// Simulated invalid data.
    InvalidData,
    /// Generic simulated failure.
    SimulatedError,
    /// No data is available to read.
    WouldBlock,
}

/// The mock serial port.
pub struct MockSerial {
    /// Everything written to the port, in order.
    write_buffer: Vec<u8>,
    /// Queued response data, one chunk per expected transaction.
    read_chunks: Vec<Vec<u8>>,
    /// The chunk the next read serves from.
    chunk_index: usize,
    /// The position of the next read within the current chunk.
    read_position: usize,
    /// Whether writes fail with a simulated error.
    should_error_on_write: bool,
    /// Whether reads fail with a simulated error.
    should_error_on_read: bool,
}

impl MockSerial {
    /// The bytes written to the port so far.
    pub closed spec fn spec_written(&self) -> Seq<u8> {
        self.write_buffer@
    }

    /// Whether writes are set to fail.
    pub closed spec fn spec_write_error(&self) -> bool {
        self.should_error_on_write
    }

    /// Whether reads are set to fail.
    pub closed spec fn spec_read_error(&self) -> bool {
        self.should_error_on_read
    }

    /// A fresh mock with empty buffers and no simulated errors.
    pub fn new() -> (r: MockSerial)
        ensures
            r.spec_written() == Seq::<u8>::empty(),
            !r.spec_write_error(),
            !r.spec_read_error(),
    {
        MockSerial {
            write_buffer: Vec::new(),
            read_chunks: Vec::new(),
            chunk_index: 0,
            read_position: 0,
            should_error_on_write: false,
            should_error_on_read: false,
        }
    }

    /// Replaces the queued response data with one chunk. Fails, changing
    /// nothing of the queue, when the chunk exceeds the fixed capacity.
    pub fn set_read_data(&mut self, data: &[u8]) -> (r: Result<(), MockSerialError>)
        ensures
            r is Ok <==> data@.len() <= MOCK_BUFFER_CAPACITY,
            r matches Err(e) ==> e == MockSerialError::BufferOverflow,
            final(self).spec_written() == old(self).spec_written(),
            final(self).spec_write_error() == old(self).spec_write_error(),
            final(self).spec_read_error() == old(self).spec_read_error(),
    {
        if data.len() > MOCK_BUFFER_CAPACITY {
            return Err(MockSerialError::BufferOverflow);
        }
        self.read_chunks = Vec::new();
        let mut chunk: Vec<u8> = Vec::new();
        let mut i: usize = 0;
        while i < data.len()
            invariant
                i <= data@.len(),
                chunk@ == data@.take(i as int),
            decreases data@.len() - i,
        {
            chunk.push(data[i]);
            proof {
                assert(chunk@ =~= data@.take(i + 1));
            }
            i = i + 1;
        }
        self.read_chunks.push(chunk);
        self.chunk_index = 0;
        self.read_position = 0;
        Ok(())
    }

    /// Queues one more response chunk behind whatever is already queued.
    /// Fails, changing nothing, when the chunk exceeds the fixed capacity.
    pub fn queue_read_chunk(&mut self, data: &[u8]) -> (r: Result<(), MockSerialError>)
        ensures
            r is Ok <==> data@.len() <= MOCK_BUFFER_CAPACITY,
            r matches Err(e) ==> e == MockSerialError::BufferOverflow,
            final(self).spec_written() == old(self).spec_written(),
            final(self).spec_write_error() == old(self).spec_write_error(),
            final(self).spec_read_error() == old(self).spec_read_error(),
    {
        if data.len() > MOCK_BUFFER_CAPACITY {
            return Err(MockSerialError::BufferOverflow);
        }
        let mut chunk: Vec<u8> = Vec::new();
        let mut i: usize = 0;
        while i < data.len()
            invariant
                i <= data@.len(),
                chunk@ == data@.take(i as int),
            decreases data@.len() - i,
        {
            chunk.push(data[i]);
            proof {
                assert(chunk@ =~= data@.take(i + 1));
            }
            i = i + 1;
        }
        self.read_chunks.push(chunk);
        Ok(())
    }

    /// Records bytes written to the port. Fails with a simulated error when
    /// set to, and with an overflow, recording nothing, when the write
    /// buffer's remaining capacity is too small.
    pub fn write(&mut self, buf: &[u8]) -> (r: Result<usize, MockSerialError>)
        ensures
            old(self).spec_write_error() ==> r == Err::<usize, MockSerialError>(
                MockSerialError::SimulatedError,
            ) && final(self).spec_written() == old(self).spec_written(),
            r matches Ok(n) ==> n == buf@.len() && final(self).spec_written() == old(
                self,
            ).spec_written() + buf@,
            !old(self).spec_write_error() && old(self).spec_written().len() + buf@.len()
                <= MOCK_BUFFER_CAPACITY ==> r is Ok,
            r is Err ==> final(self).spec_written() == old(self).spec_written(),
            final(self).spec_write_error() == old(self).spec_write_error(),
            final(self).spec_read_error() == old(self).spec_read_error(),
    {
        if self.should_error_on_write {
            return Err(MockSerialError::SimulatedError);
        }
        if buf.len() > MOCK_BUFFER_CAPACITY || self.write_buffer.len() > MOCK_BUFFER_CAPACITY
            - buf.len() {
            return Err(MockSerialError::BufferOverflow);
        }
        let mut i: usize = 0;
        while i < buf.len()
            invariant
                i <= buf@.len(),
                self.write_buffer@ == old(self).write_buffer@ + buf@.take(i as int),
                self.should_error_on_write == old(self).should_error_on_write,
                self.should_error_on_read == old(self).should_error_on_read,
                self.read_chunks == old(self).read_chunks,
                self.chunk_index == old(self).chunk_index,
                self.read_position == old(self).read_position,
            decreases buf@.len() - i,
        {
            self.write_buffer.push(buf[i]);
            proof {
                assert(self.write_buffer@ =~= old(self).write_buffer@ + buf@.take(i + 1));
            }
            i = i + 1;
        }
        proof {
            assert(self.write_buffer@ =~= old(self).write_buffer@ + buf@);
        }
        Ok(buf.len())
    }

    /// Flushes the port; a no-op that fails only with the simulated error.
    pub fn flush(&mut self) -> (r: Result<(), MockSerialError>)
        ensures
            r is Ok <==> !old(self).spec_write_error(),
            r matches Err(e) ==> e == MockSerialError::SimulatedError,
            final(self).spec_written() == old(self).spec_written(),
            final(self).spec_write_error() == old(self).spec_write_error(),
            final(self).spec_read_error() == old(self).spec_read_error(),
    {
        if self.should_error_on_write {
            return Err(MockSerialError::SimulatedError);
        }
        Ok(())
    }

    /// Serves up to `max` bytes from the queued response data, never
    /// crossing a chunk boundary in one call. An exhausted queue reads as
    /// would-block; the simulated read error takes precedence over data.
    pub fn read(&mut self, max: usize) -> (r: Result<Vec<u8>, MockSerialError>)
        ensures
            old(self).spec_read_error() ==> r == Err::<Vec<u8>, MockSerialError>(
                MockSerialError::SimulatedError,
            ),
            r matches Ok(v) ==> v@.len() <= max,
            r matches Err(e) ==> (e == MockSerialError::SimulatedError || e
                == MockSerialError::WouldBlock),
            final(self).spec_written() == old(self).spec_written(),
            final(self).spec_write_error() == old(self).spec_write_error(),
            final(self).spec_read_error() == old(self).spec_read_error(),
    {
        if self.should_error_on_read {
            return Err(MockSerialError::SimulatedError);
        }
        while self.chunk_index < self.read_chunks.len() && self.read_position
            >= self.read_chunks[self.chunk_index].len()
            invariant
                self.write_buffer == old(self).write_buffer,
                self.should_error_on_write == old(self).should_error_on_write,
                self.should_error_on_read == old(self).should_error_on_read,
                self.read_chunks == old(self).read_chunks,
            decreases self.read_chunks.len() - self.chunk_index,
        {
            self.chunk_index = self.chunk_index + 1;
            self.read_position = 0;
        }
        if self.chunk_index >= self.read_chunks.len() {
            return Err(MockSerialError::WouldBlock);
        }
        let chunk_len = self.read_chunks[self.chunk_index].len();
        let available = chunk_len - self.read_position;
        let count = if max < available {
            max
        } else {
            available
        };
        let mut out: Vec<u8> = Vec::new();
        let mut i: usize = 0;
        let mut j: usize = self.read_position;
        while i < count
            invariant
                i <= count,
                j == self.read_position + i,
                out@.len() == i,
                self.chunk_index < self.read_chunks@.len(),
                chunk_len == self.read_chunks[self.chunk_index as int]@.len(),
                self.read_position + count <= chunk_len,
                self.write_buffer == old(self).write_buffer,
                self.should_error_on_write == old(self).should_error_on_write,
                self.should_error_on_read == old(self).should_error_on_read,
                self.read_chunks == old(self).read_chunks,
            decreases count - i,
        {
            let b = self.read_chunks[self.chunk_index][j];
            out.push(b);
            i = i + 1;
            j = j + 1;
        }
        self.read_position = self.read_position + count;
        Ok(out)
    }

    /// The bytes written to this mock port so far.
    pub fn written_data(&self) -> (r: &[u8])
        ensures
            r@ == self.spec_written(),
    {
        self.write_buffer.as_slice()
    }

    /// Clears the record of written bytes.
    pub fn clear_written_data(&mut self)
        ensures
            final(self).spec_written() == Seq::<u8>::empty(),
            final(self).spec_write_error() == old(self).spec_write_error(),
            final(self).spec_read_error() == old(self).spec_read_error(),
    {
        self.write_buffer = Vec::new();
    }

    /// Rewinds reading to the start of the queued response data.
    pub fn reset_read_position(&mut self)
        ensures
            final(self).spec_written() == old(self).spec_written(),
            final(self).spec_write_error() == old(self).spec_write_error(),
            final(self).spec_read_error() == old(self).spec_read_error(),
    {
        self.chunk_index = 0;
        self.read_position = 0;
    }

    /// Makes write operations fail with a simulated error, or not.
    pub fn set_write_error(&mut self, should_error: bool)
        ensures
            final(self).spec_write_error() == should_error,
            final(self).spec_written() == old(self).spec_written(),
            final(self).spec_read_error() == old(self).spec_read_error(),
    {
        self.should_error_on_write = should_error;
    }

    /// Makes read operations fail with a simulated error, or not.
    pub fn set_read_error(&mut self, should_error: bool)
        ensures
            final(self).spec_read_error() == should_error,
            final(self).spec_written() == old(self).spec_written(),
            final(self).spec_write_error() == old(self).spec_write_error(),
    {
        self.should_error_on_read = should_error;
    }
}

impl Transport for MockSerial {
    /// Sending is recording into the write buffer; every mock failure is a
    /// genuine one.
    fn send(&mut self, data: &[u8]) -> (r: Result<usize, TransportError>) {
        match self.write(data) {
            Ok(n) => Ok(n),
            Err(_) => Err(TransportError::Failed),
        }
    }

    /// Receiving serves the queued chunks; would-block and timeouts are the
    /// idle-bus signal, everything else is a genuine failure.
    fn recv(&mut self, max: usize) -> (r: Result<Vec<u8>, TransportError>) {
        match self.read(max) {
            Ok(v) => Ok(v),
            Err(MockSerialError::WouldBlock) => Err(TransportError::NoData),
            Err(MockSerialError::Timeout) => Err(TransportError::NoData),
            Err(_) => Err(TransportError::Failed),
        }
    }
}

} // verus!
