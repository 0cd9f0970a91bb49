//! The read-only framing wrapper.

use crate::buffer::BytesMut;
use crate::codec::Decoder;
use crate::framed::inner::{poll_next_inner, PollRead, ReadFrame, ReadView, INITIAL_CAPACITY};
use crate::framed::read_poll_rel;
use crate::transport::ReadTransport;
use vstd::prelude::*;

verus! {

/// A transport framed in the read direction only: a stream of decoded
/// frames.
pub struct FramedRead<T, D> {
    io: T,
    codec: D,
    read: ReadFrame,
}

impl<T, D> FramedRead<T, D> {
    /// The transport.
    pub closed spec fn transport(&self) -> T {
        self.io
    }

    /// The decoder.
    pub closed spec fn spec_decoder(&self) -> D {
        self.codec
    }

    /// The read-side state.
    pub closed spec fn read_view(&self) -> ReadView {
        self.read.rv()
    }
}

impl<T: ReadTransport, D: Decoder> FramedRead<T, D> {
    /// Frames `inner` with `decoder`, starting with an empty buffer.
    pub fn new(inner: T, decoder: D) -> (r: FramedRead<T, D>)
        ensures
            r.transport() == inner,
            r.spec_decoder() == decoder,
            r.read_view() == (ReadView {
                buffer: Seq::<u8>::empty(),
                eof: false,
                errored: false,
                readable: false,
            }),
    {
        FramedRead { io: inner, codec: decoder, read: ReadFrame::with_capacity(INITIAL_CAPACITY) }
    }

    /// As [`FramedRead::new`], with the read buffer sized for `capacity`
    /// bytes up front.
    pub fn with_capacity(inner: T, decoder: D, capacity: usize) -> (r: FramedRead<T, D>)
        ensures
            r.transport() == inner,
            r.spec_decoder() == decoder,
            r.read_view() == (ReadView {
                buffer: Seq::<u8>::empty(),
                eof: false,
                errored: false,
                readable: false,
            }),
    {
        FramedRead { io: inner, codec: decoder, read: ReadFrame::with_capacity(capacity) }
    }

    /// One step of the read-side state machine: at most one decode attempt,
    /// then at most one transport read. See [`read_poll_rel`] for exactly
    /// how the step relates the states before and after it to its outcome.
    pub fn poll_next(&mut self) -> (r: PollRead<D::Item, D::Error>)
        ensures
            read_poll_rel(old(self).read_view(), final(self).read_view(), r),
    {
        poll_next_inner(&mut self.io, &mut self.codec, &mut self.read)
    }
}

impl<T, D> FramedRead<T, D> {
    /// Borrows the transport.
    pub fn get_ref(&self) -> (r: &T)
        ensures
            *r == self.transport(),
    {
        &self.io
    }

    /// Mutably borrows the transport.
    pub fn get_mut(&mut self) -> (r: &mut T)
        ensures
            *r == old(self).transport(),
            final(self).transport() == *final(r),
            final(self).spec_decoder() == old(self).spec_decoder(),
            final(self).read_view() == old(self).read_view(),
    {
        &mut self.io
    }

    /// Consumes the wrapper, returning the transport alone.
    pub fn into_inner(self) -> (r: T)
        ensures
            r == self.transport(),
    {
        self.io
    }

    /// Borrows the decoder.
    pub fn decoder(&self) -> (r: &D)
        ensures
            *r == self.spec_decoder(),
    {
        &self.codec
    }

    /// Mutably borrows the decoder.
    pub fn decoder_mut(&mut self) -> (r: &mut D)
        ensures
            *r == old(self).spec_decoder(),
            final(self).spec_decoder() == *final(r),
            final(self).transport() == old(self).transport(),
            final(self).read_view() == old(self).read_view(),
    {
        &mut self.codec
    }

    /// Borrows the unconsumed read buffer.
    pub fn read_buffer(&self) -> (r: &BytesMut)
        ensures
            r@ == self.read_view().buffer,
    {
        &self.read.buffer
    }

    /// Mutably borrows the unconsumed read buffer.
    pub fn read_buffer_mut(&mut self) -> (r: &mut BytesMut)
        ensures
            (*r)@ == old(self).read_view().buffer,
            final(self).read_view() == (ReadView {
                buffer: final(r)@,
                ..old(self).read_view()
            }),
            final(self).transport() == old(self).transport(),
            final(self).spec_decoder() == old(self).spec_decoder(),
    {
        &mut self.read.buffer
    }
}

} // verus!
