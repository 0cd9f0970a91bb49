//! Framing layer for byte-oriented transports.
//!
//! The crate turns a raw duplex byte stream into a sequence of discrete
//! frames and back. A codec (a [`Decoder`] / [`Encoder`] pair) translates
//! between buffered bytes and typed items; the framing engine drives
//! repeated decode and encode attempts against a growable byte buffer under
//! partial input and output, enforcing a backpressure boundary on the write
//! side. A bounded-frame wrapper limits how far the read buffer may grow for
//! a single frame and resynchronizes the stream by skipping bytes.

mod buffer;
mod codec;
mod error;
mod framed;
mod transport;

pub use buffer::{Bytes, BytesMut};
pub use error::{Error, IoError};
pub use transport::{Poll, ReadTransport, WriteTransport};

pub use framed::{
    is_paused, lemma_paused_for_ever, lemma_paused_is_permanent, read_poll_rel, Framed,
    FramedParts, FramedRead, FramedWrite, PollRead, ReadView, BACKPRESSURE_BOUNDARY,
    INITIAL_CAPACITY,
};

pub use codec::{
    be_bytes, be_value, cbor_scan, consumed_from, is_first_newline, json_scan,
    lemma_be_value_of_be_bytes, lemma_consumed_from_len, lemma_consumed_from_refl,
    lemma_consumed_from_trans, lemma_defunct_for_ever, lemma_defunct_is_permanent,
    lemma_length_partial_keeps_header,
    lemma_length_round_trip, lemma_limit_trips_only_past_the_limit,
    lemma_no_frame_leaves_buffer_bounded, lemma_pow256_values, length_declared,
    length_frame_complete, limit_decode_rel, pow256, BytesCodec, CborCodec, CborCodecError, Decoder,
    DecoderWithSkipAhead, Encoder, JsonCodec, JsonCodecError, Length, LengthCodec, LimitCodec,
    LimitError, LinesCodec, OverflowError, ScanOutcome, SkipAheadError, SkipAheadHandler,
    LINE_DELIMITER,
};
