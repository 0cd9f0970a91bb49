use async_codec_lite::{
    Bytes, BytesMut, Decoder, DecoderWithSkipAhead, Encoder, LimitCodec, LimitError,
    SkipAheadError, SkipAheadHandler,
};

/// A decoder that never completes a frame, with a skip strategy that
/// discards the whole buffer in one go.
struct NeverCompletes;

struct DiscardAll;

impl SkipAheadHandler for DiscardAll {
    fn continue_skipping(
        self,
        src: &[u8],
    ) -> Result<(usize, Option<DiscardAll>), SkipAheadError> {
        Ok((src.len(), None))
    }
}

impl Decoder for NeverCompletes {
    type Item = Bytes;
    type Error = std::string::FromUtf8Error;

    fn decode(&mut self, _src: &mut BytesMut) -> Result<Option<Bytes>, Self::Error> {
        Ok(None)
    }
}

impl DecoderWithSkipAhead for NeverCompletes {
    type Handler = DiscardAll;

    fn prepare_skip_ahead(&mut self, _src: &mut BytesMut) -> DiscardAll {
        DiscardAll
    }
}

/// A decoder whose skip strategy fails at once.
struct UnrecoverableDecoder;

struct FailingHandler;

impl SkipAheadHandler for FailingHandler {
    fn continue_skipping(
        self,
        _src: &[u8],
    ) -> Result<(usize, Option<FailingHandler>), SkipAheadError> {
        Err(SkipAheadError)
    }
}

impl Decoder for UnrecoverableDecoder {
    type Item = Bytes;
    type Error = std::string::FromUtf8Error;

    fn decode(&mut self, _src: &mut BytesMut) -> Result<Option<Bytes>, Self::Error> {
        Ok(None)
    }
}

impl DecoderWithSkipAhead for UnrecoverableDecoder {
    type Handler = FailingHandler;

    fn prepare_skip_ahead(&mut self, _src: &mut BytesMut) -> FailingHandler {
        FailingHandler
    }
}

/// An encoder wrapper for the size-limit check on the encode side.
struct RawEncoder;

impl Encoder for RawEncoder {
    type Item = Bytes;
    type Error = std::string::FromUtf8Error;

    fn encode(&mut self, item: Bytes, dst: &mut BytesMut) -> Result<(), Self::Error> {
        dst.extend_from_slice(item.as_slice());
        Ok(())
    }
}

impl Decoder for RawEncoder {
    type Item = Bytes;
    type Error = std::string::FromUtf8Error;

    fn decode(&mut self, _src: &mut BytesMut) -> Result<Option<Bytes>, Self::Error> {
        Ok(None)
    }
}

impl DecoderWithSkipAhead for RawEncoder {
    type Handler = DiscardAll;

    fn prepare_skip_ahead(&mut self, _src: &mut BytesMut) -> DiscardAll {
        DiscardAll
    }
}

#[test]
fn oversized_frame_is_detected_and_skipped() {
    let mut codec = LimitCodec::new(NeverCompletes, 16);
    let mut buf = BytesMut::new();

    buf.extend_from_slice(&[1u8; 16]);
    assert!(matches!(codec.decode(&mut buf), Ok(None)));
    assert_eq!(buf.len(), 16);

    buf.extend_from_slice(&[1u8; 1]);
    let err = codec.decode(&mut buf).unwrap_err();
    assert!(matches!(err, LimitError::LimitExceeded(17)));

    let mut fed: usize = 0;
    while fed < 160 {
        buf.extend_from_slice(&[1u8; 8]);
        fed += 8;
        let r = codec.decode(&mut buf);
        match r {
            Ok(None) => {}
            Err(LimitError::LimitExceeded(_)) => {}
            _ => panic!("no frame and no terminal failure are expected"),
        }
        assert!(buf.len() <= 2 * 16 + 8);
    }
}

#[test]
fn defunct_is_permanent_and_clears_the_buffer() {
    let mut codec = LimitCodec::new(UnrecoverableDecoder, 4);
    let mut buf = BytesMut::new();

    buf.extend_from_slice(&[9u8; 10]);
    let err = codec.decode(&mut buf).unwrap_err();
    assert!(matches!(err, LimitError::LimitExceeded(10)));

    let err = codec.decode(&mut buf).unwrap_err();
    assert!(matches!(err, LimitError::Defunct));
    assert_eq!(buf.len(), 0);

    for _ in 0..4 {
        buf.extend_from_slice(&[9u8; 3]);
        let err = codec.decode(&mut buf).unwrap_err();
        assert!(matches!(err, LimitError::Defunct));
        assert_eq!(buf.len(), 0);
    }
}

#[test]
fn trivial_handler_recovery_completes_without_discarding() {
    let mut buf = BytesMut::new();
    let handler = ();
    let (amount, next) = handler.continue_skipping(buf.as_slice()).unwrap();
    assert_eq!(amount, 0);
    assert!(next.is_none());
    assert_eq!(buf.len(), 0);
    buf.extend_from_slice(b"xy");
    let (amount, next) = ().continue_skipping(buf.as_slice()).unwrap();
    assert_eq!(amount, 0);
    assert!(next.is_none());
}

#[test]
fn encode_refuses_frames_over_the_limit() {
    let mut codec = LimitCodec::new(RawEncoder, 8);
    let mut dst = BytesMut::new();
    dst.extend_from_slice(b"keep");

    codec.encode(Bytes::copy_from_slice(b"12345678"), &mut dst).unwrap();
    assert_eq!(dst.as_slice(), b"keep12345678");

    let err = codec
        .encode(Bytes::copy_from_slice(b"123456789"), &mut dst)
        .unwrap_err();
    assert!(matches!(err, LimitError::LimitExceeded(9)));
    assert_eq!(dst.as_slice(), b"keep12345678");
}
