//! Errors surfaced by the framing engine.

use vstd::prelude::*;

verus! {

/// A fatal transport condition.
#[derive(Clone, Copy, Debug, PartialEq, Eq, Structural)]
pub enum IoError {
    /// The transport accepted zero bytes while the write buffer still held
    /// bytes that had to be drained.
    WriteZero,
    /// Any other transport failure.
    Other,
}

/// An error from the framing engine: either the codec failed, or the
/// transport did.
#[derive(Debug)]
pub enum Error<C> {
    /// The codec failed to decode or encode a frame.
    Codec(C),
    /// The transport failed.
    Io(IoError),
}

} // verus!
