use async_codec_lite::{
    Bytes, BytesCodec, Framed, FramedParts, FramedRead, FramedWrite, IoError, LengthCodec,
    LinesCodec, Poll, PollRead, ReadTransport, WriteTransport,
};

/// An in-memory duplex transport over one byte vector, with a cursor.
struct MockCursor {
    data: Vec<u8>,
    pos: usize,
}

impl ReadTransport for MockCursor {
    fn poll_read(&mut self, max: usize) -> Poll<Result<Vec<u8>, IoError>> {
        let end = self.data.len().min(self.pos + max);
        let chunk = self.data[self.pos..end].to_vec();
        self.pos = end;
        Poll::Ready(Ok(chunk))
    }
}

impl WriteTransport for MockCursor {
    fn poll_write(&mut self, buf: &[u8]) -> Poll<Result<usize, IoError>> {
        let room = self.data.len() - self.pos;
        let n = room.min(buf.len());
        self.data[self.pos..self.pos + n].copy_from_slice(&buf[..n]);
        self.pos += n;
        Poll::Ready(Ok(n))
    }

    fn poll_flush(&mut self) -> Poll<Result<(), IoError>> {
        Poll::Ready(Ok(()))
    }

    fn poll_close(&mut self) -> Poll<Result<(), IoError>> {
        Poll::Ready(Ok(()))
    }
}

#[test]
fn framed_read_yields_lines() {
    let cur = MockCursor { data: b"ab\ncd\n".to_vec(), pos: 0 };
    let mut reader = FramedRead::new(cur, LinesCodec {});
    let mut lines: Vec<String> = Vec::new();
    loop {
        match reader.poll_next() {
            PollRead::Again => continue,
            PollRead::Frame(s) => lines.push(s),
            PollRead::End => break,
            _ => panic!("no failure is expected"),
        }
    }
    assert_eq!(lines, vec!["ab\n", "cd\n"]);
    assert_eq!(reader.read_buffer().len(), 0);
    assert_eq!(reader.into_inner().pos, 6);
}

#[test]
fn framed_write_sends_and_closes() {
    let cur = MockCursor { data: vec![0u8; 8], pos: 0 };
    let mut writer = FramedWrite::new(cur, BytesCodec {});
    assert!(matches!(writer.poll_ready(), Poll::Ready(Ok(()))));
    writer.start_send(Bytes::copy_from_slice(b"pq")).unwrap();
    writer.start_send(Bytes::copy_from_slice(b"rs")).unwrap();
    assert!(matches!(writer.poll_close(), Poll::Ready(Ok(()))));
    let cur = writer.into_inner();
    assert_eq!(&cur.data[0..4], b"pqrs");
    assert_eq!(cur.pos, 4);
}

#[test]
fn accessors_reach_codec_and_transport() {
    let cur = MockCursor { data: b"x\n".to_vec(), pos: 0 };
    let mut reader = FramedRead::with_capacity(cur, LinesCodec {}, 32);
    assert_eq!(reader.get_ref().pos, 0);
    assert_eq!(reader.decoder(), &LinesCodec {});
    let _ = reader.decoder_mut();
    reader.get_mut().pos = 1;
    loop {
        match reader.poll_next() {
            PollRead::Again => continue,
            PollRead::Frame(s) => {
                assert_eq!(s, "\n");
                break;
            }
            _ => panic!("one line is expected"),
        }
    }
}

#[test]
fn parts_swap_codec_without_losing_bytes() {
    // one length-prefixed record, then a line, arriving as one burst
    let mut wire: Vec<u8> = vec![0, 4];
    wire.extend_from_slice(b"abcd");
    wire.extend_from_slice(b"tail\n");
    let cur = MockCursor { data: wire, pos: 0 };

    let mut framed = Framed::new(cur, LengthCodec::<u16>::new());
    let first = loop {
        match framed.poll_next() {
            PollRead::Again => continue,
            PollRead::Frame(b) => break b,
            _ => panic!("one record is expected"),
        }
    };
    assert_eq!(first.as_slice(), b"abcd");

    let parts = framed.into_parts();
    assert_eq!(parts.read_buf.as_slice(), b"tail\n");
    let reassembled = FramedParts {
        io: parts.io,
        codec: LinesCodec {},
        read_buf: parts.read_buf,
        write_buf: parts.write_buf,
    };
    let mut framed = Framed::from_parts(reassembled);
    let line = loop {
        match framed.poll_next() {
            PollRead::Again => continue,
            PollRead::Frame(s) => break s,
            _ => panic!("one line is expected"),
        }
    };
    assert_eq!(line, "tail\n");
}

#[test]
fn buffer_accessors_reach_the_read_buffer() {
    let cur = MockCursor { data: b"one\n".to_vec(), pos: 0 };
    let mut framed = Framed::with_capacity(cur, LinesCodec {}, 64);
    assert_eq!(framed.read_buffer().len(), 0);
    assert_eq!(framed.codec(), &LinesCodec {});
    let _ = framed.codec_mut();
    assert_eq!(framed.get_ref().pos, 0);

    // bytes planted straight into the read buffer are decoded before any
    // transport read, once a decode attempt is owed again
    framed.read_buffer_mut().extend_from_slice(b"zero\n");
    let mut lines: Vec<String> = Vec::new();
    loop {
        match framed.poll_next() {
            PollRead::Again => continue,
            PollRead::Frame(s) => lines.push(s),
            PollRead::End => break,
            _ => panic!("no failure is expected"),
        }
    }
    assert_eq!(lines, vec!["zero\n", "one\n"]);
}

#[test]
fn fresh_parts_are_empty() {
    let cur = MockCursor { data: Vec::new(), pos: 0 };
    let parts = FramedParts::new(cur, BytesCodec {});
    assert_eq!(parts.read_buf.len(), 0);
    assert_eq!(parts.write_buf.len(), 0);
}
