use async_codec_lite::{
    Bytes, BytesCodec, BytesMut, Decoder, Encoder, Framed, IoError, Poll, PollRead, ReadTransport,
};

/// A read transport over a fixed buffer, handing everything out at once
/// and then reporting end-of-input.
struct SliceReader {
    data: Vec<u8>,
    pos: usize,
}

impl ReadTransport for SliceReader {
    fn poll_read(&mut self, max: usize) -> Poll<Result<Vec<u8>, IoError>> {
        let end = self.data.len().min(self.pos + max);
        let chunk = self.data[self.pos..end].to_vec();
        self.pos = end;
        Poll::Ready(Ok(chunk))
    }
}

fn try_next(framed: &mut Framed<SliceReader, BytesCodec>) -> Option<Bytes> {
    loop {
        match framed.poll_next() {
            PollRead::Again => continue,
            PollRead::Frame(b) => return Some(b),
            PollRead::End => return None,
            PollRead::Failed(_) => panic!("codec failed"),
            PollRead::Pending => panic!("transport pended"),
        }
    }
}

#[test]
fn decodes() {
    let buf = [0u8; 32];
    let expected = buf;
    let cur = SliceReader { data: buf.to_vec(), pos: 0 };
    let mut framed = Framed::new(cur, BytesCodec {});

    let read = try_next(&mut framed).unwrap();
    assert_eq!(read.as_slice(), &expected[..]);

    assert!(try_next(&mut framed).is_none());
}

#[test]
fn encode_is_passthrough() {
    let mut codec = BytesCodec {};
    let mut buf = BytesMut::new();
    codec.encode(Bytes::copy_from_slice(b"abc"), &mut buf).unwrap();
    codec.encode(Bytes::copy_from_slice(b"def"), &mut buf).unwrap();
    assert_eq!(buf.as_slice(), b"abcdef");
    let frame = codec.decode(&mut buf).unwrap().unwrap();
    assert_eq!(frame.as_slice(), b"abcdef");
    assert_eq!(codec.decode(&mut buf).unwrap(), None);
}
