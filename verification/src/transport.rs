//! The byte-stream capability that the connection depends on. The protocol
//! logic reaches all I/O through this trait and assumes nothing about the
//! outcome of any call, so it holds for every implementation: a TCP socket,
//! a serial line, or an in-memory test double.

use vstd::prelude::*;

verus! {

/// A bidirectional byte stream with buffered reads, as the connection
/// needs it: write/flush for outbound frames, peek/consume for inbound
/// bytes, a read timeout, a pacing hook for send retries, and shutdown.
///
/// None of the methods carries a contract: the connection's own
/// specifications state what holds whatever an implementation does.
pub trait Transport {
    /// Attempts to write the whole buffer; returns true on success.
    fn write_all(&mut self, data: &[u8]) -> bool;

    /// Flushes buffered writes towards the peer; returns true on success.
    fn flush(&mut self) -> bool;

    /// A copy of the bytes currently available to read, without consuming
    /// them: `None` on a hard I/O failure, an empty vector when nothing is
    /// pending within the read timeout.
    fn peek(&mut self) -> Option<Vec<u8>>;

    /// Marks `amt` bytes as consumed from the front of the readable bytes.
    fn consume(&mut self, amt: usize);

    /// Sets the timeout, in milliseconds, that later `peek` calls may wait
    /// for data.
    fn set_read_timeout(&mut self, timeout_ms: u64);

    /// Pauses briefly before a failed send is retried.
    fn retry_delay(&mut self);

    /// Shuts the stream down in both directions.
    fn shutdown(&mut self);
}

} // verus!
