//! The write-only framing wrapper.

use crate::codec::{consumed_from, Encoder};
use crate::error::Error;
use crate::framed::inner::{
    poll_close_inner, poll_flush_until, start_send_inner, WriteFrame, BACKPRESSURE_BOUNDARY,
    INITIAL_CAPACITY,
};
use crate::transport::{Poll, WriteTransport};
use vstd::prelude::*;

verus! {

/// A transport framed in the write direction only: a sink of encoded
/// items.
pub struct FramedWrite<T, E> {
    io: T,
    codec: E,
    write: WriteFrame,
}

impl<T, E> FramedWrite<T, E> {
    /// The transport.
    pub closed spec fn transport(&self) -> T {
        self.io
    }

    /// The encoder.
    pub closed spec fn spec_encoder(&self) -> E {
        self.codec
    }

    /// The unflushed write-side bytes.
    pub closed spec fn write_view(&self) -> Seq<u8> {
        self.write.buffer@
    }
}

impl<T: WriteTransport, E> FramedWrite<T, E> {
    /// Frames `inner` with `encoder`, starting with an empty buffer.
    pub fn new(inner: T, encoder: E) -> (r: FramedWrite<T, E>)
        ensures
            r.transport() == inner,
            r.spec_encoder() == encoder,
            r.write_view() == Seq::<u8>::empty(),
    {
        FramedWrite {
            io: inner,
            codec: encoder,
            write: WriteFrame::with_capacity(INITIAL_CAPACITY),
        }
    }
}

impl<T, E> FramedWrite<T, E> {
    /// Borrows the transport.
    pub fn get_ref(&self) -> (r: &T)
        ensures
            *r == self.transport(),
    {
        &self.io
    }

    /// Mutably borrows the transport.
    pub fn get_mut(&mut self) -> (r: &mut T)
        ensures
            *r == old(self).transport(),
            final(self).transport() == *final(r),
            final(self).spec_encoder() == old(self).spec_encoder(),
            final(self).write_view() == old(self).write_view(),
    {
        &mut self.io
    }

    /// Consumes the wrapper, returning the transport alone.
    pub fn into_inner(self) -> (r: T)
        ensures
            r == self.transport(),
    {
        self.io
    }

    /// Borrows the encoder.
    pub fn encoder(&self) -> (r: &E)
        ensures
            *r == self.spec_encoder(),
    {
        &self.codec
    }

    /// Mutably borrows the encoder.
    pub fn encoder_mut(&mut self) -> (r: &mut E)
        ensures
            *r == old(self).spec_encoder(),
            final(self).spec_encoder() == *final(r),
            final(self).transport() == old(self).transport(),
            final(self).write_view() == old(self).write_view(),
    {
        &mut self.codec
    }
}

impl<T: WriteTransport, E: Encoder> FramedWrite<T, E> {
    /// Makes room for one more item: drains the write buffer below the
    /// backpressure boundary first, so that encoded but unflushed bytes
    /// stay bounded. Only a ready-and-successful outcome allows a send.
    pub fn poll_ready(&mut self) -> (r: Poll<Result<(), Error<E::Error>>>)
        ensures
            consumed_from(old(self).write_view(), final(self).write_view()),
            r matches Poll::Ready(res) ==> (res is Ok ==> final(self).write_view().len()
                < BACKPRESSURE_BOUNDARY),
            r matches Poll::Ready(res) ==> (res matches Err(e) ==> e is Io),
            old(self).write_view().len() < BACKPRESSURE_BOUNDARY ==> (r matches Poll::Ready(res)
                && res is Ok && final(self).write_view() == old(self).write_view()),
            final(self).spec_encoder() == old(self).spec_encoder(),
    {
        match poll_flush_until(&mut self.io, &mut self.write, BACKPRESSURE_BOUNDARY - 1) {
            Poll::Pending => Poll::Pending,
            Poll::Ready(Ok(())) => Poll::Ready(Ok(())),
            Poll::Ready(Err(e)) => Poll::Ready(Err(Error::Io(e))),
        }
    }

    /// Encodes one item onto the end of the write buffer, without touching
    /// the transport. Callers gate sends on [`FramedWrite::poll_ready`],
    /// which enforces the backpressure boundary.
    pub fn start_send(&mut self, item: E::Item) -> (r: Result<(), Error<E::Error>>)
        ensures
            r is Ok ==> old(self).write_view().is_prefix_of(final(self).write_view()),
            r matches Err(e) ==> e is Codec && final(self).write_view() == old(self).write_view(),
            final(self).transport() == old(self).transport(),
    {
        start_send_inner(&mut self.codec, &mut self.write, item)
    }

    /// Drains the whole write buffer to the transport and flushes it.
    pub fn poll_flush(&mut self) -> (r: Poll<Result<(), Error<E::Error>>>)
        ensures
            consumed_from(old(self).write_view(), final(self).write_view()),
            r matches Poll::Ready(res) ==> (res is Ok ==> final(self).write_view().len() == 0),
            r matches Poll::Ready(res) ==> (res matches Err(e) ==> e is Io),
            final(self).spec_encoder() == old(self).spec_encoder(),
    {
        match poll_flush_until(&mut self.io, &mut self.write, 0) {
            Poll::Pending => Poll::Pending,
            Poll::Ready(Ok(())) => Poll::Ready(Ok(())),
            Poll::Ready(Err(e)) => Poll::Ready(Err(Error::Io(e))),
        }
    }

    /// Drains the whole write buffer, then closes the transport.
    pub fn poll_close(&mut self) -> (r: Poll<Result<(), Error<E::Error>>>)
        ensures
            consumed_from(old(self).write_view(), final(self).write_view()),
            r matches Poll::Ready(res) ==> (res is Ok ==> final(self).write_view().len() == 0),
            r matches Poll::Ready(res) ==> (res matches Err(e) ==> e is Io),
            final(self).spec_encoder() == old(self).spec_encoder(),
    {
        match poll_close_inner(&mut self.io, &mut self.write) {
            Poll::Pending => Poll::Pending,
            Poll::Ready(Ok(())) => Poll::Ready(Ok(())),
            Poll::Ready(Err(e)) => Poll::Ready(Err(Error::Io(e))),
        }
    }
}

} // verus!
