use async_codec_lite::{
    BytesMut, Decoder, Encoder, Error, Framed, IoError, LinesCodec, Poll, PollRead, ReadTransport,
};
use std::string::FromUtf8Error;

/// A read transport over a fixed byte string, handing everything out at
/// once and then reporting end-of-input.
struct StringReader {
    data: Vec<u8>,
    pos: usize,
}

impl ReadTransport for StringReader {
    fn poll_read(&mut self, max: usize) -> Poll<Result<Vec<u8>, IoError>> {
        let end = self.data.len().min(self.pos + max);
        let chunk = self.data[self.pos..end].to_vec();
        self.pos = end;
        Poll::Ready(Ok(chunk))
    }
}

/// A read transport that sends two lines in one burst and then never
/// becomes ready again.
struct MockBurstySender {
    sent: bool,
}

impl ReadTransport for MockBurstySender {
    fn poll_read(&mut self, max: usize) -> Poll<Result<Vec<u8>, IoError>> {
        const MESSAGES: &[u8] = b"one\ntwo\n";
        if !self.sent && max >= MESSAGES.len() {
            self.sent = true;
            Poll::Ready(Ok(MESSAGES.to_vec()))
        } else {
            Poll::Pending
        }
    }
}

fn try_next<T: ReadTransport>(
    framed: &mut Framed<T, LinesCodec>,
) -> Result<Option<String>, Error<FromUtf8Error>> {
    loop {
        match framed.poll_next() {
            PollRead::Again => continue,
            PollRead::Frame(s) => return Ok(Some(s)),
            PollRead::Failed(e) => return Err(e),
            PollRead::End => return Ok(None),
            PollRead::Pending => panic!("transport pended"),
        }
    }
}

#[test]
fn it_works() {
    let buf = "Hello\nWorld\nError".to_owned();
    let cur = StringReader { data: buf.into_bytes(), pos: 0 };
    let mut framed = Framed::new(cur, LinesCodec {});
    let next = try_next(&mut framed).unwrap();
    assert_eq!(next, Some(String::from("Hello\n")));
    let next = try_next(&mut framed).unwrap();
    assert_eq!(next, Some(String::from("World\n")));
    let next = try_next(&mut framed).unwrap();
    assert_eq!(next, None);
}

#[test]
fn line_read_multi() {
    let io = MockBurstySender { sent: false };
    let mut framed = Framed::new(io, LinesCodec {});
    let one = try_next(&mut framed).unwrap().unwrap();
    assert_eq!(one, "one\n");
    let two = try_next(&mut framed).unwrap().unwrap();
    assert_eq!(two, "two\n");
}

#[test]
fn undelimited_remainder_stays_buffered() {
    let mut codec = LinesCodec {};
    let mut buf = BytesMut::new();
    buf.extend_from_slice(b"no newline here");
    assert_eq!(codec.decode(&mut buf).unwrap(), None);
    assert_eq!(buf.as_slice(), b"no newline here");
    assert_eq!(codec.decode_eof(&mut buf).unwrap(), None);
    assert_eq!(buf.as_slice(), b"no newline here");
}

#[test]
fn encode_appends_utf8_bytes() {
    let mut codec = LinesCodec {};
    let mut buf = BytesMut::new();
    codec.encode(String::from("ab\n"), &mut buf).unwrap();
    codec.encode(String::from("c\n"), &mut buf).unwrap();
    assert_eq!(buf.as_slice(), b"ab\nc\n");
}

#[test]
fn invalid_utf8_line_fails() {
    let mut codec = LinesCodec {};
    let mut buf = BytesMut::new();
    buf.extend_from_slice(&[0xFF, 0xFE, b'\n', b'o', b'k', b'\n']);
    assert!(codec.decode(&mut buf).is_err());
    let next = codec.decode(&mut buf).unwrap();
    assert_eq!(next, Some(String::from("ok\n")));
    assert_eq!(buf.len(), 0);
}
