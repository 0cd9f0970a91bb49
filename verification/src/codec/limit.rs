//! A bounded-frame wrapper: limits how far the read buffer may grow for a
//! single frame and resynchronizes the stream by skipping bytes.

use crate::buffer::BytesMut;
use crate::codec::{
    consumed_from, lemma_consumed_from_refl, lemma_consumed_from_trans, Decoder, Encoder,
};
use vstd::prelude::*;

verus! {

/// A skip continuation failed; the wrapper becomes defunct.
#[derive(Clone, Copy, Debug, PartialEq, Eq, Structural)]
pub struct SkipAheadError;

/// A codec-supplied continuation that discards bytes to resynchronize the
/// stream after an oversized or malformed frame.
pub trait SkipAheadHandler: Sized {
    /// Inspects the buffered bytes and decides how many of them to discard
    /// next, returning the follow-up continuation when more discarding
    /// remains. A continuation that wants to go on must discard at least
    /// one byte, so that recovery makes progress.
    fn continue_skipping(self, src: &[u8]) -> (r: Result<(usize, Option<Self>), SkipAheadError>)
        ensures
            r matches Ok(step) ==> step.0 <= src@.len() && (step.1 is Some ==> step.0 > 0),
    ;
}

impl SkipAheadHandler for () {
    /// The trivial strategy: discard nothing and finish at once.
    fn continue_skipping(self, src: &[u8]) -> (r: Result<
        (usize, Option<()>),
        SkipAheadError,
    >)
        ensures
            r matches Ok(step) && step == (0usize, Option::<()>::None),
    {
        Ok((0, None))
    }
}

/// A decoder that can also prepare a skip-ahead continuation, so that
/// [`LimitCodec`] can wrap it.
pub trait DecoderWithSkipAhead: Decoder {
    /// The continuation type.
    type Handler: SkipAheadHandler;

    /// Builds a continuation seeded with the bytes of the frame judged
    /// oversized.
    fn prepare_skip_ahead(&mut self, src: &mut BytesMut) -> (r: Self::Handler)
        ensures
            consumed_from(old(src)@, final(src)@),
    ;
}

/// An error from a [`LimitCodec`].
#[derive(Debug)]
pub enum LimitError<E> {
    /// A frame would outgrow the size limit; detected with the given number
    /// of bytes buffered. Recoverable: keep polling and the wrapper skips
    /// ahead to resynchronize.
    LimitExceeded(usize),
    /// A skip continuation failed; this wrapper never parses this stream
    /// again.
    Defunct,
    /// The inner codec failed.
    Inner(E),
}

/// Wraps a decoder, enforcing a maximum buffered-frame size.
///
/// When the inner decoder cannot complete a frame and the buffer has
/// outgrown `max_frame_size`, the wrapper fails recoverably and discards
/// bytes through the inner decoder's skip-ahead continuation instead of
/// buffering without bound. Once a continuation fails, the wrapper is
/// defunct for good.
pub struct LimitCodec<C: DecoderWithSkipAhead> {
    inner: C,
    max_frame_size: usize,
    skip_ahead_state: Option<<C as DecoderWithSkipAhead>::Handler>,
    decoder_defunct: bool,
}

impl<C: DecoderWithSkipAhead> LimitCodec<C> {
    /// Whether a failed skip continuation has permanently shut this wrapper
    /// down.
    pub closed spec fn is_defunct(&self) -> bool {
        self.decoder_defunct
    }

    /// Whether a skip-ahead recovery is in progress.
    pub closed spec fn skipping(&self) -> bool {
        self.skip_ahead_state is Some
    }

    /// The frame size limit.
    pub closed spec fn max_size(&self) -> nat {
        self.max_frame_size as nat
    }

    /// The wrapped decoder.
    pub closed spec fn spec_inner(&self) -> C {
        self.inner
    }

    /// A defunct wrapper holds no pending skip continuation.
    pub open spec fn wf(&self) -> bool {
        self.is_defunct() ==> !self.skipping()
    }

    /// Wraps `inner`, allowing a buffered frame to reach at most
    /// `max_frame_size` bytes.
    pub fn new(inner: C, max_frame_size: usize) -> (r: Self)
        ensures
            r.wf(),
            !r.is_defunct(),
            !r.skipping(),
            r.max_size() == max_frame_size,
            r.spec_inner() == inner,
    {
        LimitCodec { inner, max_frame_size, skip_ahead_state: None, decoder_defunct: false }
    }
}

impl<C: Encoder + DecoderWithSkipAhead> Encoder for LimitCodec<C> {
    type Item = <C as Encoder>::Item;

    type Error = LimitError<<C as Encoder>::Error>;

    /// Encodes through the inner encoder into a scratch buffer first; the
    /// result is merged into `dst` only when it fits the frame size limit,
    /// so `dst` is untouched on any failure.
    fn encode(&mut self, item: Self::Item, dst: &mut BytesMut) -> (r: Result<(), Self::Error>)
        ensures
            r is Ok ==> old(dst)@.is_prefix_of(final(dst)@) && final(dst)@.len() - old(dst)@.len()
                <= old(self).max_size(),
            r is Err ==> final(dst)@ == old(dst)@,
            r matches Err(LimitError::LimitExceeded(m)) ==> m > old(self).max_size(),
            final(self).is_defunct() == old(self).is_defunct(),
            final(self).skipping() == old(self).skipping(),
            final(self).max_size() == old(self).max_size(),
            old(self).wf() ==> final(self).wf(),
    {
        let mut tmp = BytesMut::new();
        match self.inner.encode(item, &mut tmp) {
            Err(e) => Err(LimitError::Inner(e)),
            Ok(()) => {
                if tmp.len() > self.max_frame_size {
                    return Err(LimitError::LimitExceeded(tmp.len()));
                }
                dst.extend_from_slice(tmp.as_slice());
                Ok(())
            },
        }
    }
}

/// How one decode call on a [`LimitCodec`] relates the wrapper and the
/// buffer before it, the wrapper and the buffer after it, and its outcome.
pub open spec fn limit_decode_rel<C: DecoderWithSkipAhead>(
    pre: LimitCodec<C>,
    pre_buf: Seq<u8>,
    post: LimitCodec<C>,
    post_buf: Seq<u8>,
    r: Result<Option<<C as Decoder>::Item>, LimitError<<C as Decoder>::Error>>,
) -> bool {
    &&& (pre.wf() ==> post.wf())
    &&& consumed_from(pre_buf, post_buf)
    &&& post.max_size() == pre.max_size()
    &&& (pre.is_defunct() ==> post.is_defunct())
    &&& (pre.wf() ==> (post.is_defunct() <==> r matches Err(LimitError::Defunct)))
    &&& (pre.wf() && pre.is_defunct() ==> r matches Err(LimitError::Defunct))
    &&& (r matches Err(LimitError::Defunct) ==> post_buf.len() == 0)
    &&& (r matches Err(LimitError::LimitExceeded(m)) ==> m == post_buf.len() && pre_buf.len()
        > pre.max_size() && post.skipping() && !post.is_defunct())
    &&& (!pre.is_defunct() && !pre.skipping() && pre_buf.len() <= pre.max_size() ==> !(r matches Err(
        LimitError::LimitExceeded(m))))
    &&& (!pre.skipping() && r is Ok ==> !post.skipping())
    &&& (!pre.skipping() ==> post.is_defunct() == pre.is_defunct())
    &&& (r matches Ok(None) ==> post_buf.len() <= pre.max_size())
}

/// Law: once a skip continuation has signalled failure the wrapper is
/// defunct for good: this decode call and, since the state it leaves is
/// defunct and well-formed again, every later one fail with the terminal
/// error and leave the buffer empty, whatever further input was supplied.
pub proof fn lemma_defunct_is_permanent<C: DecoderWithSkipAhead>(
    pre: LimitCodec<C>,
    pre_buf: Seq<u8>,
    post: LimitCodec<C>,
    post_buf: Seq<u8>,
    r: Result<Option<<C as Decoder>::Item>, LimitError<<C as Decoder>::Error>>,
)
    requires
        pre.wf(),
        pre.is_defunct(),
        limit_decode_rel(pre, pre_buf, post, post_buf, r),
    ensures
        r matches Err(LimitError::Defunct),
        post_buf.len() == 0,
        post.wf(),
        post.is_defunct(),
{
}

/// Law: defunct-ness is permanent over any run of decode calls. Take a run
/// that starts well-formed and defunct, with `codecs[i]` the wrapper before
/// call `i`, `pre_bufs[i]` the buffer it is handed — holding whatever
/// further input arrived since the previous call — `results[i]` the
/// outcome, `post_bufs[i]` the buffer the call leaves, and `codecs[i + 1]`
/// the wrapper after it. Then every call fails with the terminal error,
/// every call clears the buffer, and the wrapper stays defunct throughout.
pub proof fn lemma_defunct_for_ever<C: DecoderWithSkipAhead>(
    codecs: Seq<LimitCodec<C>>,
    pre_bufs: Seq<Seq<u8>>,
    post_bufs: Seq<Seq<u8>>,
    results: Seq<Result<Option<<C as Decoder>::Item>, LimitError<<C as Decoder>::Error>>>,
)
    requires
        codecs.len() == results.len() + 1,
        pre_bufs.len() == results.len(),
        post_bufs.len() == results.len(),
        codecs[0].wf(),
        codecs[0].is_defunct(),
        forall|i: int|
            0 <= i < results.len() ==> limit_decode_rel(
                codecs[i],
                pre_bufs[i],
                codecs[i + 1],
                post_bufs[i],
                #[trigger] results[i],
            ),
    ensures
        forall|i: int| 0 <= i < codecs.len() ==> (#[trigger] codecs[i]).wf()
            && codecs[i].is_defunct(),
        forall|i: int| 0 <= i < results.len() ==> (#[trigger] results[i]) matches Err(
            LimitError::Defunct,
        ),
        forall|i: int| 0 <= i < post_bufs.len() ==> (#[trigger] post_bufs[i]).len() == 0,
{
    assert forall|i: int| 0 <= i < codecs.len() implies (#[trigger] codecs[i]).wf()
        && codecs[i].is_defunct() by {
        lemma_defunct_run_prefix(codecs, pre_bufs, post_bufs, results, i);
    }
    assert forall|i: int|
        0 <= i < results.len() implies (#[trigger] results[i]) matches Err(
        LimitError::Defunct,
    ) by {
        lemma_defunct_run_prefix(codecs, pre_bufs, post_bufs, results, i);
        lemma_defunct_is_permanent(codecs[i], pre_bufs[i], codecs[i + 1], post_bufs[i], results[i]);
    }
    assert forall|i: int| 0 <= i < post_bufs.len() implies (#[trigger] post_bufs[i]).len() == 0 by {
        lemma_defunct_run_prefix(codecs, pre_bufs, post_bufs, results, i);
        lemma_defunct_is_permanent(codecs[i], pre_bufs[i], codecs[i + 1], post_bufs[i], results[i]);
    }
}

/// The induction behind [`lemma_defunct_for_ever`]: up to call `i`, the
/// wrapper stays well-formed and defunct.
proof fn lemma_defunct_run_prefix<C: DecoderWithSkipAhead>(
    codecs: Seq<LimitCodec<C>>,
    pre_bufs: Seq<Seq<u8>>,
    post_bufs: Seq<Seq<u8>>,
    results: Seq<Result<Option<<C as Decoder>::Item>, LimitError<<C as Decoder>::Error>>>,
    i: int,
)
    requires
        codecs.len() == results.len() + 1,
        pre_bufs.len() == results.len(),
        post_bufs.len() == results.len(),
        codecs[0].wf(),
        codecs[0].is_defunct(),
        forall|j: int|
            0 <= j < results.len() ==> limit_decode_rel(
                codecs[j],
                pre_bufs[j],
                codecs[j + 1],
                post_bufs[j],
                #[trigger] results[j],
            ),
        0 <= i < codecs.len(),
    ensures
        codecs[i].wf(),
        codecs[i].is_defunct(),
    decreases i,
{
    if i > 0 {
        lemma_defunct_run_prefix(codecs, pre_bufs, post_bufs, results, i - 1);
        lemma_defunct_is_permanent(
            codecs[i - 1],
            pre_bufs[i - 1],
            codecs[i],
            post_bufs[i - 1],
            results[i - 1],
        );
    }
}

/// Law: the wrapper keeps the read buffer bounded, and fails terminally
/// only out of a failed recovery. A no-frame outcome never leaves more than
/// `max_frame_size` bytes buffered, so a buffer that has outgrown the limit
/// always surfaces a frame, an inner error, or `LimitExceeded` instead of
/// quietly growing on; and a wrapper with no recovery in progress keeps its
/// defunct flag as it was, so the terminal error can only ever follow a
/// failed skip continuation.
pub proof fn lemma_no_frame_leaves_buffer_bounded<C: DecoderWithSkipAhead>(
    pre: LimitCodec<C>,
    pre_buf: Seq<u8>,
    post: LimitCodec<C>,
    post_buf: Seq<u8>,
    r: Result<Option<<C as Decoder>::Item>, LimitError<<C as Decoder>::Error>>,
)
    requires
        pre.wf(),
        limit_decode_rel(pre, pre_buf, post, post_buf, r),
    ensures
        r matches Ok(None) ==> post_buf.len() <= pre.max_size(),
        !pre.skipping() ==> post.is_defunct() == pre.is_defunct(),
        !pre.skipping() && !pre.is_defunct() ==> !(r matches Err(LimitError::Defunct)),
{
}

/// Law: the size limit trips only after the buffer has outgrown it. A
/// well-formed wrapper with no recovery in progress never reports the limit
/// exceeded while the buffer is within `max_frame_size`; when it does
/// report it, the buffer had outgrown the limit and a skip-ahead recovery
/// is pending afterwards.
pub proof fn lemma_limit_trips_only_past_the_limit<C: DecoderWithSkipAhead>(
    pre: LimitCodec<C>,
    pre_buf: Seq<u8>,
    post: LimitCodec<C>,
    post_buf: Seq<u8>,
    r: Result<Option<<C as Decoder>::Item>, LimitError<<C as Decoder>::Error>>,
)
    requires
        pre.wf(),
        limit_decode_rel(pre, pre_buf, post, post_buf, r),
    ensures
        !pre.skipping() && pre_buf.len() <= pre.max_size() && !pre.is_defunct() ==> !(r matches Err(
            LimitError::LimitExceeded(m))),
        r matches Err(LimitError::LimitExceeded(m)) ==> pre_buf.len() > pre.max_size()
            && post.skipping() && !post.is_defunct(),
{
}

impl<C: DecoderWithSkipAhead> Decoder for LimitCodec<C> {
    type Item = <C as Decoder>::Item;

    type Error = LimitError<<C as Decoder>::Error>;

    /// Runs any pending skip continuation, then decodes through the inner
    /// decoder under the frame size limit.
    ///
    /// A defunct wrapper clears the buffer and fails terminally, on this
    /// and on every later call. Otherwise, when the inner decoder reports
    /// no frame while the buffer has outgrown the limit, the wrapper
    /// prepares a skip continuation and fails recoverably with the
    /// buffered length. See [`limit_decode_rel`] for the whole contract.
    fn decode(&mut self, src: &mut BytesMut) -> (r: Result<Option<Self::Item>, Self::Error>)
        ensures
            limit_decode_rel(*old(self), old(src)@, *final(self), final(src)@, r),
    {
        proof {
            lemma_consumed_from_refl(old(src)@);
        }
        while self.skip_ahead_state.is_some()
            invariant
                old(self).wf() ==> self.wf(),
                !old(self).skipping() ==> !self.skipping(),
                !old(self).skipping() ==> self.decoder_defunct == old(self).decoder_defunct,
                self.max_frame_size == old(self).max_frame_size,
                old(self).decoder_defunct ==> self.decoder_defunct,
                consumed_from(old(src)@, src@),
            decreases src@.len(), (if self.skip_ahead_state is Some {
                1int
            } else {
                0int
            }),
        {
            let mut taken: Option<<C as DecoderWithSkipAhead>::Handler> = None;
            core::mem::swap(&mut self.skip_ahead_state, &mut taken);
            // the loop runs only while a continuation is pending, so the
            // swap always hands one out
            let sas = match taken {
                Some(h) => h,
                None => {
                    proof {
                        assert(false);
                    }
                    return Err(LimitError::Defunct);
                },
            };
            match sas.continue_skipping(src.as_slice()) {
                Ok((amount, next)) => {
                    let ghost pre = src@;
                    self.skip_ahead_state = next;
                    src.advance(amount);
                    proof {
                        lemma_consumed_from_trans(old(src)@, pre, src@);
                    }
                    if src.is_empty() {
                        return Ok(None);
                    }
                },
                Err(_) => {
                    self.decoder_defunct = true;
                },
            }
        }

        if self.decoder_defunct {
            src.clear();
            proof {
                assert(src@ == old(src)@.skip(old(src)@.len() as int));
            }
            return Err(LimitError::Defunct);
        }
        let ghost pre_decode = src@;
        match self.inner.decode(src) {
            Ok(None) => {
                proof {
                    lemma_consumed_from_trans(old(src)@, pre_decode, src@);
                }
                if src.len() > self.max_frame_size {
                    let ghost pre_prepare = src@;
                    let handler = self.inner.prepare_skip_ahead(src);
                    self.skip_ahead_state = Some(handler);
                    proof {
                        lemma_consumed_from_trans(old(src)@, pre_prepare, src@);
                    }
                    Err(LimitError::LimitExceeded(src.len()))
                } else {
                    Ok(None)
                }
            },
            Ok(Some(item)) => {
                proof {
                    lemma_consumed_from_trans(old(src)@, pre_decode, src@);
                }
                Ok(Some(item))
            },
            Err(e) => {
                proof {
                    lemma_consumed_from_trans(old(src)@, pre_decode, src@);
                }
                Err(LimitError::Inner(e))
            },
        }
    }
}

} // verus!
