//! The transport capability the framing engine drives.
//!
//! A transport is the duplex byte stream under the engine: reads hand back
//! chunks of bytes, writes accept some prefix of what they are offered, and
//! both may report that they cannot make progress yet. Users implement
//! these traits for their own streams, exactly as they would implement an
//! asynchronous read or write capability.

use crate::error::IoError;
use vstd::prelude::*;

verus! {

/// The outcome of one transport operation: ready with a result, or unable
/// to make progress yet.
#[derive(Debug)]
pub enum Poll<T> {
    /// The operation finished with this result.
    Ready(T),
    /// The operation could not make progress; try again once the transport
    /// is ready.
    Pending,
}

/// The readable half of a transport.
pub trait ReadTransport {
    /// Reads a chunk of at most `max` bytes. An empty chunk signals
    /// end-of-input.
    fn poll_read(&mut self, max: usize) -> (r: Poll<Result<Vec<u8>, IoError>>)
        ensures
            r matches Poll::Ready(Ok(chunk)) ==> chunk@.len() <= max,
    ;
}

/// The writable half of a transport.
pub trait WriteTransport {
    /// Writes a prefix of `buf`, returning how many bytes were accepted.
    fn poll_write(&mut self, buf: &[u8]) -> (r: Poll<Result<usize, IoError>>)
        ensures
            r matches Poll::Ready(Ok(n)) ==> n <= buf@.len(),
    ;

    /// Flushes whatever the transport itself buffers.
    fn poll_flush(&mut self) -> (r: Poll<Result<(), IoError>>);

    /// Closes the transport.
    fn poll_close(&mut self) -> (r: Poll<Result<(), IoError>>);
}

} // verus!
