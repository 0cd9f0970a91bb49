//! The decoder / encoder capability implemented by every codec.

mod bytes;
mod cbor;
mod json;
mod length;
mod limit;
mod lines;

pub use bytes::BytesCodec;
pub use cbor::{cbor_scan, CborCodec, CborCodecError};
pub use json::{json_scan, JsonCodec, JsonCodecError};
pub use limit::{
    lemma_defunct_for_ever, lemma_defunct_is_permanent, lemma_limit_trips_only_past_the_limit,
    lemma_no_frame_leaves_buffer_bounded, limit_decode_rel, DecoderWithSkipAhead, LimitCodec,
    LimitError, SkipAheadError, SkipAheadHandler,
};
pub use lines::{is_first_newline, LinesCodec, LINE_DELIMITER};
pub use length::{
    be_bytes, be_value, lemma_be_value_of_be_bytes, lemma_length_partial_keeps_header,
    lemma_length_round_trip, lemma_pow256_values, length_declared, length_frame_complete, pow256,
    Length, LengthCodec, OverflowError,
};

use crate::buffer::BytesMut;
use vstd::prelude::*;

verus! {

/// How a scan of the buffer for one leading structured value comes out: a
/// whole value is there, the value is still incomplete, or the bytes are
/// malformed.
pub enum ScanOutcome {
    /// A whole value is buffered.
    Complete,
    /// More bytes are needed before the value is whole.
    Incomplete,
    /// The buffered bytes are malformed.
    Invalid,
}

/// Holds when `post` is what remains of `pre` after some prefix was
/// consumed. Codecs only ever take bytes off the front of the buffer.
pub open spec fn consumed_from(pre: Seq<u8>, post: Seq<u8>) -> bool {
    exists|k: int| 0 <= k <= pre.len() && post == pre.skip(k)
}

/// A buffer left as it is counts as consuming the empty prefix.
pub proof fn lemma_consumed_from_refl(a: Seq<u8>)
    ensures
        consumed_from(a, a),
{
    assert(a.skip(0) =~= a);
}

/// Consuming a prefix never grows the buffer, and consuming nothing leaves
/// it as it was.
pub proof fn lemma_consumed_from_len(pre: Seq<u8>, post: Seq<u8>)
    requires
        consumed_from(pre, post),
    ensures
        post.len() <= pre.len(),
        post.len() == pre.len() ==> post == pre,
{
    let k = choose|k: int| 0 <= k <= pre.len() && post == pre.skip(k);
    if k == 0 {
        assert(pre.skip(0) =~= pre);
    }
}

/// Consuming a prefix twice over still consumes only a prefix.
pub proof fn lemma_consumed_from_trans(a: Seq<u8>, b: Seq<u8>, c: Seq<u8>)
    requires
        consumed_from(a, b),
        consumed_from(b, c),
    ensures
        consumed_from(a, c),
{
    let k1 = choose|k: int| 0 <= k <= a.len() && b == a.skip(k);
    let k2 = choose|k: int| 0 <= k <= b.len() && c == b.skip(k);
    assert(a.skip(k1).skip(k2) =~= a.skip(k1 + k2));
    assert(c == a.skip(k1 + k2));
}

/// Decodes frames out of a byte buffer.
///
/// A decode call either produces one frame, consuming the frame's bytes off
/// the front of the buffer, or reports that no frame is complete yet, or
/// fails. A decoder never puts bytes back: the buffer after a call is always
/// a suffix of the buffer before it.
pub trait Decoder {
    /// The frame type this decoder produces.
    type Item;

    /// The decode failure type.
    type Error;

    /// Attempts to decode one frame from the front of `src`.
    fn decode(&mut self, src: &mut BytesMut) -> (r: Result<Option<Self::Item>, Self::Error>)
        ensures
            consumed_from(old(src)@, final(src)@),
    ;

    /// Attempts a terminal decode once the transport has reported
    /// end-of-input, allowing a codec to emit a final buffered item or to
    /// fail on undecodable leftover bytes. By default it decodes exactly as
    /// [`Decoder::decode`] does.
    fn decode_eof(&mut self, src: &mut BytesMut) -> (r: Result<Option<Self::Item>, Self::Error>)
        ensures
            consumed_from(old(src)@, final(src)@),
    {
        self.decode(src)
    }
}

/// Encodes items onto the end of a byte buffer.
pub trait Encoder {
    /// The item type this encoder accepts.
    type Item;

    /// The encode failure type.
    type Error;

    /// Appends the serialized form of `item` to the end of `dst`.
    ///
    /// The append is atomic: on failure `dst` is untouched.
    fn encode(&mut self, item: Self::Item, dst: &mut BytesMut) -> (r: Result<(), Self::Error>)
        ensures
            r is Ok ==> old(dst)@.is_prefix_of(final(dst)@),
            r is Err ==> final(dst)@ == old(dst)@,
    ;
}

} // verus!
