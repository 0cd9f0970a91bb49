use async_codec_lite::{
    Bytes, BytesMut, Decoder, Encoder, Error, Framed, IoError, LengthCodec, OverflowError, Poll,
    PollRead, ReadTransport, WriteTransport,
};

/// An in-memory duplex transport over one byte vector, with a cursor.
struct MockCursor {
    data: Vec<u8>,
    pos: usize,
}

impl ReadTransport for MockCursor {
    fn poll_read(&mut self, max: usize) -> Poll<Result<Vec<u8>, IoError>> {
        let end = self.data.len().min(self.pos + max);
        let chunk = self.data[self.pos..end].to_vec();
        self.pos = end;
        Poll::Ready(Ok(chunk))
    }
}

impl WriteTransport for MockCursor {
    fn poll_write(&mut self, buf: &[u8]) -> Poll<Result<usize, IoError>> {
        let room = self.data.len() - self.pos;
        let n = room.min(buf.len());
        self.data[self.pos..self.pos + n].copy_from_slice(&buf[..n]);
        self.pos += n;
        Poll::Ready(Ok(n))
    }

    fn poll_flush(&mut self) -> Poll<Result<(), IoError>> {
        Poll::Ready(Ok(()))
    }

    fn poll_close(&mut self) -> Poll<Result<(), IoError>> {
        Poll::Ready(Ok(()))
    }
}

fn next_frame(
    framed: &mut Framed<MockCursor, LengthCodec<u64>>,
) -> Option<Result<Bytes, Error<OverflowError>>> {
    loop {
        match framed.poll_next() {
            PollRead::Again => continue,
            PollRead::Frame(b) => return Some(Ok(b)),
            PollRead::Failed(e) => return Some(Err(e)),
            PollRead::End => return None,
            PollRead::Pending => panic!("transport never pends"),
        }
    }
}

fn send(framed: &mut Framed<MockCursor, LengthCodec<u64>>, payload: &[u8]) {
    match framed.poll_ready() {
        Poll::Ready(Ok(())) => {}
        _ => panic!("not ready"),
    }
    framed.start_send(Bytes::copy_from_slice(payload)).unwrap();
    match framed.poll_flush() {
        Poll::Ready(Ok(())) => {}
        _ => panic!("flush failed"),
    }
}

#[test]
fn it_returns_bytes_withouth_length_header() {
    let mut codec = LengthCodec::<u64>::new();

    let mut src = BytesMut::with_capacity(5);
    src.extend_from_slice(&[0, 0, 0, 0, 0, 0, 0, 3u8, 1, 2, 3, 4][..]);
    let item = codec.decode(&mut src).unwrap();

    assert!(item == Some(Bytes::copy_from_slice(&[1u8, 2, 3][..])));
}

#[test]
fn same_msgs_are_received_as_were_sent() {
    let cur = MockCursor { data: vec![0; 256], pos: 0 };
    let mut framed = Framed::new(cur, LengthCodec::<u64>::new());

    send(&mut framed, b"msg1");
    send(&mut framed, b"msg2");
    send(&mut framed, b"msg3");

    let mut parts = framed.into_parts();
    parts.io.pos = 0;
    let mut framed = Framed::new(parts.io, LengthCodec::<u64>::new());

    let mut msgs: Vec<String> = Vec::new();
    for _ in 0..3 {
        let buf = next_frame(&mut framed).unwrap().unwrap();
        msgs.push(String::from_utf8(buf.as_slice().to_vec()).unwrap());
    }

    assert!(msgs == vec!["msg1", "msg2", "msg3"]);
}

#[test]
fn header_is_not_consumed_on_partial_input() {
    let mut codec = LengthCodec::<u64>::new();

    let mut dst = BytesMut::new();
    codec.encode(Bytes::copy_from_slice(b"msg1"), &mut dst).unwrap();
    assert_eq!(
        dst.as_slice(),
        &[0x00, 0x00, 0x00, 0x00, 0x00, 0x00, 0x00, 0x04, 0x6d, 0x73, 0x67, 0x31][..]
    );

    let mut partial = dst.split_to(4);
    assert_eq!(codec.decode(&mut partial).unwrap(), None);
    assert_eq!(partial.len(), 4);

    let mut header_only = BytesMut::new();
    header_only.extend_from_slice(partial.as_slice());
    header_only.extend_from_slice(dst.split_to(4).as_slice());
    assert_eq!(codec.decode(&mut header_only).unwrap(), None);
    assert_eq!(header_only.len(), 8);

    header_only.extend_from_slice(dst.as_slice());
    let frame = codec.decode(&mut header_only).unwrap().unwrap();
    assert_eq!(frame.as_slice(), b"msg1");
    assert_eq!(header_only.len(), 0);
}

#[test]
fn round_trip_consumes_everything() {
    let mut codec = LengthCodec::<u16>::new();
    let mut buf = BytesMut::new();
    codec.encode(Bytes::copy_from_slice(b"hello"), &mut buf).unwrap();
    assert_eq!(buf.as_slice(), &[0x00, 0x05, b'h', b'e', b'l', b'l', b'o'][..]);
    let frame = codec.decode(&mut buf).unwrap().unwrap();
    assert_eq!(frame.as_slice(), b"hello");
    assert_eq!(buf.len(), 0);
}

#[test]
fn encode_fails_when_length_does_not_fit_width() {
    let mut codec = LengthCodec::<u8>::new();
    let mut buf = BytesMut::new();
    let payload = Bytes::copy_from_slice(&[7u8; 300]);
    let r = codec.encode(payload, &mut buf);
    assert!(matches!(r, Err(OverflowError)));
    assert_eq!(buf.len(), 0);
}

#[test]
fn empty_payload_round_trips() {
    let mut codec = LengthCodec::<u32>::new();
    let mut buf = BytesMut::new();
    codec.encode(Bytes::new(), &mut buf).unwrap();
    assert_eq!(buf.as_slice(), &[0, 0, 0, 0][..]);
    let frame = codec.decode(&mut buf).unwrap().unwrap();
    assert_eq!(frame.len(), 0);
    assert_eq!(buf.len(), 0);
}
