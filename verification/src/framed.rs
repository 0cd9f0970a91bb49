//! The framing wrappers over a transport, a codec and the buffer states.

mod inner;
mod read;
mod write;

pub use inner::{
    is_paused, lemma_paused_for_ever, lemma_paused_is_permanent, read_poll_rel, PollRead,
    ReadView, BACKPRESSURE_BOUNDARY, INITIAL_CAPACITY,
};
pub use read::FramedRead;
pub use write::FramedWrite;

use crate::buffer::BytesMut;
use crate::codec::{consumed_from, Decoder, Encoder};
use crate::error::Error;
use crate::framed::inner::{
    poll_close_inner, poll_flush_until, poll_next_inner, start_send_inner, ReadFrame, WriteFrame,
};
use crate::transport::{Poll, ReadTransport, WriteTransport};
use vstd::prelude::*;

verus! {

/// A transport framed in both directions: a stream of decoded frames and a
/// sink of encoded items over one duplex byte stream.
pub struct Framed<T, U> {
    io: T,
    codec: U,
    read: ReadFrame,
    write: WriteFrame,
}

impl<T, U> Framed<T, U> {
    /// The transport.
    pub closed spec fn transport(&self) -> T {
        self.io
    }

    /// The codec.
    pub closed spec fn spec_codec(&self) -> U {
        self.codec
    }

    /// The read-side state.
    pub closed spec fn read_view(&self) -> ReadView {
        self.read.rv()
    }

    /// The unflushed write-side bytes.
    pub closed spec fn write_view(&self) -> Seq<u8> {
        self.write.buffer@
    }

    /// Frames `inner` with `codec`, starting with empty buffers.
    pub fn new(inner: T, codec: U) -> (r: Framed<T, U>)
        ensures
            r.transport() == inner,
            r.spec_codec() == codec,
            r.read_view() == (ReadView {
                buffer: Seq::<u8>::empty(),
                eof: false,
                errored: false,
                readable: false,
            }),
            r.write_view() == Seq::<u8>::empty(),
    {
        Framed {
            io: inner,
            codec,
            read: ReadFrame::with_capacity(INITIAL_CAPACITY),
            write: WriteFrame::with_capacity(INITIAL_CAPACITY),
        }
    }

    /// As [`Framed::new`], with the read buffer sized for `capacity` bytes
    /// up front.
    pub fn with_capacity(inner: T, codec: U, capacity: usize) -> (r: Framed<T, U>)
        ensures
            r.transport() == inner,
            r.spec_codec() == codec,
            r.read_view() == (ReadView {
                buffer: Seq::<u8>::empty(),
                eof: false,
                errored: false,
                readable: false,
            }),
            r.write_view() == Seq::<u8>::empty(),
    {
        Framed {
            io: inner,
            codec,
            read: ReadFrame::with_capacity(capacity),
            write: WriteFrame::with_capacity(INITIAL_CAPACITY),
        }
    }

    /// Reassembles a framed transport from detached parts, keeping the
    /// unconsumed bytes of both buffers. A non-empty read buffer is decoded
    /// from before the transport is read again.
    pub fn from_parts(parts: FramedParts<T, U>) -> (r: Framed<T, U>)
        ensures
            r.transport() == parts.io,
            r.spec_codec() == parts.codec,
            r.read_view() == (ReadView {
                buffer: parts.read_buf@,
                eof: false,
                errored: false,
                readable: parts.read_buf@.len() > 0,
            }),
            r.write_view() == parts.write_buf@,
    {
        Framed {
            io: parts.io,
            codec: parts.codec,
            read: ReadFrame::from_buffer(parts.read_buf),
            write: WriteFrame { buffer: parts.write_buf },
        }
    }

    /// Borrows the transport.
    pub fn get_ref(&self) -> (r: &T)
        ensures
            *r == self.transport(),
    {
        &self.io
    }

    /// Mutably borrows the transport.
    pub fn get_mut(&mut self) -> (r: &mut T)
        ensures
            *r == old(self).transport(),
            final(self).transport() == *final(r),
            final(self).spec_codec() == old(self).spec_codec(),
            final(self).read_view() == old(self).read_view(),
            final(self).write_view() == old(self).write_view(),
    {
        &mut self.io
    }

    /// Borrows the codec.
    pub fn codec(&self) -> (r: &U)
        ensures
            *r == self.spec_codec(),
    {
        &self.codec
    }

    /// Mutably borrows the codec.
    pub fn codec_mut(&mut self) -> (r: &mut U)
        ensures
            *r == old(self).spec_codec(),
            final(self).spec_codec() == *final(r),
            final(self).transport() == old(self).transport(),
            final(self).read_view() == old(self).read_view(),
            final(self).write_view() == old(self).write_view(),
    {
        &mut self.codec
    }

    /// Borrows the unconsumed read buffer.
    pub fn read_buffer(&self) -> (r: &BytesMut)
        ensures
            r@ == self.read_view().buffer,
    {
        &self.read.buffer
    }

    /// Mutably borrows the unconsumed read buffer.
    pub fn read_buffer_mut(&mut self) -> (r: &mut BytesMut)
        ensures
            (*r)@ == old(self).read_view().buffer,
            final(self).read_view() == (ReadView {
                buffer: final(r)@,
                ..old(self).read_view()
            }),
            final(self).transport() == old(self).transport(),
            final(self).spec_codec() == old(self).spec_codec(),
            final(self).write_view() == old(self).write_view(),
    {
        &mut self.read.buffer
    }

    /// Consumes the framed transport, returning the transport alone.
    pub fn into_inner(self) -> (r: T)
        ensures
            r == self.transport(),
    {
        self.io
    }

    /// Detaches the transport, the codec and both buffers, so that they can
    /// be reassembled later — also around another codec — without losing
    /// buffered bytes.
    pub fn into_parts(self) -> (r: FramedParts<T, U>)
        ensures
            r.io == self.transport(),
            r.codec == self.spec_codec(),
            r.read_buf@ == self.read_view().buffer,
            r.write_buf@ == self.write_view(),
    {
        FramedParts {
            io: self.io,
            codec: self.codec,
            read_buf: self.read.buffer,
            write_buf: self.write.buffer,
        }
    }
}

impl<T: ReadTransport, U: Decoder> Framed<T, U> {
    /// One step of the read-side state machine: at most one decode attempt,
    /// then at most one transport read. See [`read_poll_rel`] for exactly
    /// how the step relates the states before and after it to its outcome.
    pub fn poll_next(&mut self) -> (r: PollRead<U::Item, U::Error>)
        ensures
            read_poll_rel(old(self).read_view(), final(self).read_view(), r),
            final(self).write_view() == old(self).write_view(),
    {
        poll_next_inner(&mut self.io, &mut self.codec, &mut self.read)
    }
}

impl<T: WriteTransport, U: Encoder> Framed<T, U> {
    /// Makes room for one more item: drains the write buffer below the
    /// backpressure boundary first, so that encoded but unflushed bytes
    /// stay bounded. Only a ready-and-successful outcome allows a send.
    pub fn poll_ready(&mut self) -> (r: Poll<Result<(), Error<U::Error>>>)
        ensures
            consumed_from(old(self).write_view(), final(self).write_view()),
            r matches Poll::Ready(res) ==> (res is Ok ==> final(self).write_view().len()
                < BACKPRESSURE_BOUNDARY),
            r matches Poll::Ready(res) ==> (res matches Err(e) ==> e is Io),
            old(self).write_view().len() < BACKPRESSURE_BOUNDARY ==> (r matches Poll::Ready(res)
                && res is Ok && final(self).write_view() == old(self).write_view()),
            final(self).read_view() == old(self).read_view(),
            final(self).spec_codec() == old(self).spec_codec(),
    {
        match poll_flush_until(&mut self.io, &mut self.write, BACKPRESSURE_BOUNDARY - 1) {
            Poll::Pending => Poll::Pending,
            Poll::Ready(Ok(())) => Poll::Ready(Ok(())),
            Poll::Ready(Err(e)) => Poll::Ready(Err(Error::Io(e))),
        }
    }

    /// Encodes one item onto the end of the write buffer, without touching
    /// the transport. Callers gate sends on [`Framed::poll_ready`], which
    /// enforces the backpressure boundary.
    pub fn start_send(&mut self, item: U::Item) -> (r: Result<(), Error<U::Error>>)
        ensures
            r is Ok ==> old(self).write_view().is_prefix_of(final(self).write_view()),
            r matches Err(e) ==> e is Codec && final(self).write_view() == old(self).write_view(),
            final(self).read_view() == old(self).read_view(),
            final(self).transport() == old(self).transport(),
    {
        start_send_inner(&mut self.codec, &mut self.write, item)
    }

    /// Drains the whole write buffer to the transport and flushes it.
    pub fn poll_flush(&mut self) -> (r: Poll<Result<(), Error<U::Error>>>)
        ensures
            consumed_from(old(self).write_view(), final(self).write_view()),
            r matches Poll::Ready(res) ==> (res is Ok ==> final(self).write_view().len() == 0),
            r matches Poll::Ready(res) ==> (res matches Err(e) ==> e is Io),
            final(self).read_view() == old(self).read_view(),
            final(self).spec_codec() == old(self).spec_codec(),
    {
        match poll_flush_until(&mut self.io, &mut self.write, 0) {
            Poll::Pending => Poll::Pending,
            Poll::Ready(Ok(())) => Poll::Ready(Ok(())),
            Poll::Ready(Err(e)) => Poll::Ready(Err(Error::Io(e))),
        }
    }

    /// Drains the whole write buffer, then closes the transport.
    pub fn poll_close(&mut self) -> (r: Poll<Result<(), Error<U::Error>>>)
        ensures
            consumed_from(old(self).write_view(), final(self).write_view()),
            r matches Poll::Ready(res) ==> (res is Ok ==> final(self).write_view().len() == 0),
            r matches Poll::Ready(res) ==> (res matches Err(e) ==> e is Io),
            final(self).read_view() == old(self).read_view(),
            final(self).spec_codec() == old(self).spec_codec(),
    {
        match poll_close_inner(&mut self.io, &mut self.write) {
            Poll::Pending => Poll::Pending,
            Poll::Ready(Ok(())) => Poll::Ready(Ok(())),
            Poll::Ready(Err(e)) => Poll::Ready(Err(Error::Io(e))),
        }
    }
}

/// The detached parts of a framed transport: the transport, the codec and
/// the two buffers, with their unconsumed bytes.
pub struct FramedParts<T, U> {
    /// The transport.
    pub io: T,
    /// The codec.
    pub codec: U,
    /// The bytes read from the transport but not yet decoded.
    pub read_buf: BytesMut,
    /// The bytes encoded but not yet written to the transport.
    pub write_buf: BytesMut,
}

impl<T, U> FramedParts<T, U> {
    /// Parts with empty buffers, ready to be assembled into a framed
    /// transport.
    pub fn new(io: T, codec: U) -> (r: FramedParts<T, U>) where U: Encoder
        ensures
            r.io == io,
            r.codec == codec,
            r.read_buf@ == Seq::<u8>::empty(),
            r.write_buf@ == Seq::<u8>::empty(),
    {
        FramedParts { io, codec, read_buf: BytesMut::new(), write_buf: BytesMut::new() }
    }
}

} // verus!
