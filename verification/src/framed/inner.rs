//! The framing engine: the read-side state machine and the write-side
//! backpressure and flush logic, shared by the framing wrappers.

use crate::buffer::BytesMut;
use crate::codec::{
    consumed_from, lemma_consumed_from_len, lemma_consumed_from_refl, lemma_consumed_from_trans,
    Decoder, Encoder,
};
use crate::error::{Error, IoError};
use crate::transport::{Poll, ReadTransport, WriteTransport};
use vstd::prelude::*;

verus! {

/// The initial capacity of a fresh read or write buffer, and the number of
/// bytes one transport read may hand back at most.
pub const INITIAL_CAPACITY: usize = 8 * 1024;

/// The write-side backpressure boundary: once at least this many unflushed
/// bytes are buffered, no further item is accepted until a flush drains the
/// buffer below it.
pub const BACKPRESSURE_BOUNDARY: usize = 8 * 1024;

/// The read-side state: the byte buffer and the engine's status flags.
pub(crate) struct ReadFrame {
    pub(crate) buffer: BytesMut,
    pub(crate) eof: bool,
    pub(crate) has_errored: bool,
    pub(crate) is_readable: bool,
}

/// What a read-side state holds, as plain values.
#[verifier::ext_equal]
pub struct ReadView {
    /// The buffered, not yet decoded bytes.
    pub buffer: Seq<u8>,
    /// Whether the transport has reported end-of-input.
    pub eof: bool,
    /// Whether the previous decode attempt failed.
    pub errored: bool,
    /// Whether a decode attempt against the current buffer is still owed.
    pub readable: bool,
}

impl ReadFrame {
    /// The state as plain values.
    pub(crate) open spec fn rv(&self) -> ReadView {
        ReadView {
            buffer: self.buffer@,
            eof: self.eof,
            errored: self.has_errored,
            readable: self.is_readable,
        }
    }

    /// A fresh state with an empty buffer.
    pub(crate) fn with_capacity(capacity: usize) -> (r: ReadFrame)
        ensures
            r.rv() == (ReadView {
                buffer: Seq::<u8>::empty(),
                eof: false,
                errored: false,
                readable: false,
            }),
    {
        ReadFrame {
            buffer: BytesMut::with_capacity(capacity),
            eof: false,
            has_errored: false,
            is_readable: false,
        }
    }

    /// Adopts a detached buffer, keeping its unconsumed bytes. A non-empty
    /// buffer is decoded from before the transport is read again.
    pub(crate) fn from_buffer(buffer: BytesMut) -> (r: ReadFrame)
        ensures
            r.rv() == (ReadView {
                buffer: buffer@,
                eof: false,
                errored: false,
                readable: buffer@.len() > 0,
            }),
    {
        let readable = !buffer.is_empty();
        ReadFrame { buffer, eof: false, has_errored: false, is_readable: readable }
    }
}

/// The write-side state: the bytes encoded but not yet written through.
pub(crate) struct WriteFrame {
    pub(crate) buffer: BytesMut,
}

impl WriteFrame {
    /// A fresh state with an empty buffer.
    pub(crate) fn with_capacity(capacity: usize) -> (r: WriteFrame)
        ensures
            r.buffer@ == Seq::<u8>::empty(),
    {
        WriteFrame { buffer: BytesMut::with_capacity(capacity) }
    }
}

/// The outcome of one read-side step.
#[derive(Debug)]
pub enum PollRead<I, E> {
    /// One decoded frame.
    Frame(I),
    /// The stream has ended: nothing is left to decode.
    End,
    /// The codec or the transport failed.
    Failed(Error<E>),
    /// The transport could not make progress; poll again once it is ready.
    Pending,
    /// The step made progress without reaching a frame or the end; poll
    /// again at once.
    Again,
}

/// A paused read side: end-of-input was decoded to the last frame and no
/// decode attempt is owed. Terminal unless the buffer gains bytes.
pub open spec fn is_paused(s: ReadView) -> bool {
    !s.readable && s.eof && !s.errored
}

/// How one read-side step relates the state before it, the state after it,
/// and its outcome. One step performs at most one decode attempt and at
/// most one transport read, in the priority order the state machine fixes:
/// a pending decode failure ends the stream first; then a decode attempt is
/// made while one is owed; only then is the transport read.
pub open spec fn read_poll_rel<I, E>(pre: ReadView, post: ReadView, r: PollRead<I, E>) -> bool {
    &&& (pre.errored ==> {
        &&& r is End
        &&& !post.errored
        &&& !post.readable
        &&& post.eof == pre.eof
        &&& post.buffer == pre.buffer
    })
    &&& (!pre.errored && pre.readable && pre.eof ==> {
        &&& consumed_from(pre.buffer, post.buffer)
        &&& post.eof
        &&& (r is Frame ==> post.readable && !post.errored)
        &&& (r is End ==> !post.readable && !post.errored)
        &&& (r matches PollRead::Failed(e) ==> e is Codec && post.errored && post.readable)
        &&& (r is Frame || r is End || r is Failed)
    })
    &&& (!pre.errored && pre.readable && !pre.eof ==> {
        &&& !(r is End)
        &&& (r is Frame ==> consumed_from(pre.buffer, post.buffer) && post.readable
            && !post.errored && !post.eof)
        &&& (r matches PollRead::Failed(e) ==> post.errored && !post.eof && consumed_from(
            pre.buffer,
            post.buffer,
        ) && (e is Codec ==> post.readable) && (e is Io ==> !post.readable))
        &&& (r is Pending ==> !post.readable && !post.errored && !post.eof && consumed_from(
            pre.buffer,
            post.buffer,
        ))
        &&& (r is Again ==> !post.errored && post.readable && exists|inter: Seq<u8>, chunk: Seq<
            u8,
        >|
            {
                &&& consumed_from(pre.buffer, inter)
                &&& post.buffer == inter + chunk
                &&& chunk.len() <= INITIAL_CAPACITY
                &&& (chunk.len() == 0 ==> post.eof)
                &&& (chunk.len() > 0 ==> !post.eof)
            })
    })
    &&& (!pre.errored && !pre.readable ==> {
        &&& !(r is Frame)
        &&& (r is Pending ==> post == pre)
        &&& (r matches PollRead::Failed(e) ==> e is Io && post.errored && !post.readable
            && post.eof == pre.eof && post.buffer == pre.buffer)
        &&& (r is End ==> pre.eof && post == pre)
        &&& (r is Again ==> !post.errored && post.readable && exists|chunk: Seq<u8>|
            {
                &&& post.buffer == pre.buffer + chunk
                &&& chunk.len() <= INITIAL_CAPACITY
                &&& (chunk.len() == 0 ==> post.eof && !pre.eof)
                &&& (chunk.len() > 0 ==> !post.eof)
            })
    })
}

/// Law: a paused read side never yields another frame, and any step in
/// which the transport reports end-of-input again returns the end of the
/// stream and leaves the state exactly as it was — so the stream reports
/// its end on every later poll, for ever.
pub proof fn lemma_paused_is_permanent<I, E>(pre: ReadView, post: ReadView, r: PollRead<I, E>)
    requires
        is_paused(pre),
        read_poll_rel(pre, post, r),
    ensures
        !(r is Frame),
        r is End ==> post == pre && is_paused(post),
        r is Pending ==> post == pre,
{
}

/// Law: pausing is permanent over any run of steps. Take a run that starts
/// paused, with `states[i]` the state before step `i`, `results[i]` its
/// outcome and `states[i + 1]` the state after it, in which the transport
/// never delivers bytes — every outcome is End or Pending, never Again. Then
/// the state never changes, every step that is ready reports the end of the
/// stream, and no frame is ever produced again.
pub proof fn lemma_paused_for_ever<I, E>(states: Seq<ReadView>, results: Seq<PollRead<I, E>>)
    requires
        states.len() == results.len() + 1,
        is_paused(states[0]),
        forall|i: int|
            0 <= i < results.len() ==> read_poll_rel(
                states[i],
                states[i + 1],
                #[trigger] results[i],
            ),
        forall|i: int| 0 <= i < results.len() ==> ((#[trigger] results[i]) is End || results[i]
            is Pending),
    ensures
        forall|i: int| 0 <= i < states.len() ==> #[trigger] states[i] == states[0],
        forall|i: int| 0 <= i < results.len() ==> !((#[trigger] results[i]) is Frame),
{
    assert forall|i: int| 0 <= i < states.len() implies #[trigger] states[i] == states[0] by {
        lemma_paused_run_prefix(states, results, i);
    }
}

/// The induction behind [`lemma_paused_for_ever`]: up to step `i`, a run of
/// End and Pending outcomes leaves a paused state untouched.
proof fn lemma_paused_run_prefix<I, E>(states: Seq<ReadView>, results: Seq<PollRead<I, E>>, i: int)
    requires
        states.len() == results.len() + 1,
        is_paused(states[0]),
        forall|j: int|
            0 <= j < results.len() ==> read_poll_rel(
                states[j],
                states[j + 1],
                #[trigger] results[j],
            ),
        forall|j: int| 0 <= j < results.len() ==> ((#[trigger] results[j]) is End || results[j]
            is Pending),
        0 <= i < states.len(),
    ensures
        states[i] == states[0],
        is_paused(states[i]),
    decreases i,
{
    if i > 0 {
        lemma_paused_run_prefix(states, results, i - 1);
        lemma_paused_is_permanent(states[i - 1], states[i], results[i - 1]);
    }
}

/// One step of the read-side state machine: at most one decode attempt,
/// then at most one transport read.
pub(crate) fn poll_next_inner<T: ReadTransport, U: Decoder>(
    io: &mut T,
    codec: &mut U,
    state: &mut ReadFrame,
) -> (r: PollRead<U::Item, U::Error>)
    ensures
        read_poll_rel(old(state).rv(), final(state).rv(), r),
{
    proof {
        lemma_consumed_from_refl(old(state).rv().buffer);
    }
    if state.has_errored {
        state.is_readable = false;
        state.has_errored = false;
        return PollRead::End;
    }
    if state.is_readable {
        if state.eof {
            match codec.decode_eof(&mut state.buffer) {
                Err(e) => {
                    state.has_errored = true;
                    return PollRead::Failed(Error::Codec(e));
                },
                Ok(Some(frame)) => {
                    return PollRead::Frame(frame);
                },
                Ok(None) => {
                    state.is_readable = false;
                    return PollRead::End;
                },
            }
        }
        match codec.decode(&mut state.buffer) {
            Err(e) => {
                state.has_errored = true;
                return PollRead::Failed(Error::Codec(e));
            },
            Ok(Some(frame)) => {
                return PollRead::Frame(frame);
            },
            Ok(None) => {
                state.is_readable = false;
            },
        }
    }
    let ghost inter = state.buffer@;
    match io.poll_read(INITIAL_CAPACITY) {
        Poll::Pending => PollRead::Pending,
        Poll::Ready(Err(e)) => {
            state.has_errored = true;
            PollRead::Failed(Error::Io(e))
        },
        Poll::Ready(Ok(chunk)) => {
            state.buffer.extend_from_slice(chunk.as_slice());
            if chunk.len() == 0 {
                if state.eof {
                    proof {
                        assert(state.buffer@ =~= inter + chunk@);
                        assert(state.buffer@ =~= inter);
                    }
                    return PollRead::End;
                }
                state.eof = true;
            } else {
                state.eof = false;
            }
            state.is_readable = true;
            proof {
                assert(state.buffer@ == inter + chunk@);
            }
            PollRead::Again
        },
    }
}

/// How a drain of the write buffer down to `limit` relates the buffered
/// bytes before it, the bytes after it, and its outcome. Bytes only ever
/// leave the front of the buffer, in order; success means the buffer was
/// already at or drained to the limit; a buffer already at the limit is
/// left untouched and nothing is written.
pub open spec fn write_flush_rel(
    pre: Seq<u8>,
    post: Seq<u8>,
    limit: int,
    r: Poll<Result<(), IoError>>,
) -> bool {
    &&& consumed_from(pre, post)
    &&& (r matches Poll::Ready(res) ==> (res is Ok ==> post.len() <= limit))
    &&& (pre.len() <= limit ==> (r matches Poll::Ready(res) && res is Ok && post == pre))
}

/// Drains the write buffer down to at most `limit` bytes through repeated
/// transport writes, then flushes the transport itself if anything was
/// written. A transport write that accepts zero bytes while bytes remain
/// to drain is the fatal `WriteZero` condition.
pub(crate) fn poll_flush_until<T: WriteTransport>(
    io: &mut T,
    state: &mut WriteFrame,
    limit: usize,
) -> (r: Poll<Result<(), IoError>>)
    ensures
        write_flush_rel(old(state).buffer@, final(state).buffer@, limit as int, r),
{
    proof {
        lemma_consumed_from_refl(old(state).buffer@);
    }
    let orig_len = state.buffer.len();
    while state.buffer.len() > limit
        invariant
            consumed_from(old(state).buffer@, state.buffer@),
            old(state).buffer@.len() <= limit ==> state.buffer@ == old(state).buffer@,
        decreases state.buffer@.len(),
    {
        proof {
            lemma_consumed_from_len(old(state).buffer@, state.buffer@);
        }
        let ghost prev = state.buffer@;
        match io.poll_write(state.buffer.as_slice()) {
            Poll::Pending => {
                return Poll::Pending;
            },
            Poll::Ready(Err(e)) => {
                return Poll::Ready(Err(e));
            },
            Poll::Ready(Ok(n)) => {
                if n == 0 {
                    return Poll::Ready(Err(IoError::WriteZero));
                }
                state.buffer.advance(n);
                proof {
                    lemma_consumed_from_trans(old(state).buffer@, prev, state.buffer@);
                }
            },
        }
    }
    proof {
        lemma_consumed_from_len(old(state).buffer@, state.buffer@);
    }
    if orig_len != state.buffer.len() {
        io.poll_flush()
    } else {
        Poll::Ready(Ok(()))
    }
}

/// Encodes one item onto the end of the write buffer through the codec.
/// The buffer only ever grows, and is untouched when the codec fails.
pub(crate) fn start_send_inner<U: Encoder>(
    codec: &mut U,
    state: &mut WriteFrame,
    item: U::Item,
) -> (r: Result<(), Error<U::Error>>)
    ensures
        r is Ok ==> old(state).buffer@.is_prefix_of(final(state).buffer@),
        r matches Err(e) ==> e is Codec && final(state).buffer@ == old(state).buffer@,
{
    match codec.encode(item, &mut state.buffer) {
        Ok(()) => Ok(()),
        Err(e) => Err(Error::Codec(e)),
    }
}

/// Fully drains the write buffer, then closes the transport.
pub(crate) fn poll_close_inner<T: WriteTransport>(io: &mut T, state: &mut WriteFrame) -> (r: Poll<
    Result<(), IoError>,
>)
    ensures
        consumed_from(old(state).buffer@, final(state).buffer@),
        r matches Poll::Ready(res) ==> (res is Ok ==> final(state).buffer@.len() == 0),
{
    match poll_flush_until(io, state, 0) {
        Poll::Ready(Ok(())) => io.poll_close(),
        other => other,
    }
}

} // verus!
