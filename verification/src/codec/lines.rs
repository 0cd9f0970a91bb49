//! A delimiter codec: each frame is one newline-terminated line.

use crate::buffer::BytesMut;
use crate::codec::{consumed_from, Decoder, Encoder};
use core::convert::Infallible;
use vstd::prelude::*;
use vstd::utf8::{decode_utf8, encode_utf8, valid_utf8};

verus! {

/// The newline byte that ends each line.
pub const LINE_DELIMITER: u8 = 10;

/// Holds when `p` is the position of the first newline byte in `b`.
pub open spec fn is_first_newline(b: Seq<u8>, p: int) -> bool {
    &&& 0 <= p < b.len()
    &&& b[p] == LINE_DELIMITER
    &&& forall|j: int| 0 <= j < p ==> b[j] != LINE_DELIMITER
}

/// Finds the position of the first newline byte, if any.
fn find_newline(src: &[u8]) -> (r: Option<usize>)
    ensures
        match r {
            Some(p) => is_first_newline(src@, p as int),
            None => forall|j: int| 0 <= j < src@.len() ==> src@[j] != LINE_DELIMITER,
        },
{
    let mut i: usize = 0;
    while i < src.len()
        invariant
            i <= src@.len(),
            forall|j: int| 0 <= j < i ==> src@[j] != LINE_DELIMITER,
        decreases src@.len() - i,
    {
        if src[i] == LINE_DELIMITER {
            return Some(i);
        }
        i = i + 1;
    }
    None
}

#[verifier::external_type_specification]
#[verifier::external_body]
pub struct ExFromUtf8Error(std::string::FromUtf8Error);

/// Relies on `String::from_utf8`: it succeeds exactly when the bytes are
/// valid UTF-8, and then returns the string those bytes encode.
#[verifier::external_body]
fn string_from_utf8(bytes: Vec<u8>) -> (r: Result<String, std::string::FromUtf8Error>)
    ensures
        r is Ok <==> valid_utf8(bytes@),
        r matches Ok(s) ==> s@ == decode_utf8(bytes@),
{
    String::from_utf8(bytes)
}

/// Splits newline-terminated lines off the front of the buffer.
///
/// The terminal decode behaves exactly as the ordinary one: an undelimited
/// remainder stays in the buffer and yields no frame, so a stream that does
/// not end in a newline ends with those bytes unconsumed.
#[derive(Clone, Debug, Default, PartialEq)]
pub struct LinesCodec;

impl Encoder for LinesCodec {
    type Item = String;

    type Error = Infallible;

    /// Appends the item's UTF-8 bytes unchanged; no delimiter is added, so
    /// items should already end in a newline.
    fn encode(&mut self, item: String, dst: &mut BytesMut) -> (r: Result<(), Self::Error>)
        ensures
            r is Ok,
            final(dst)@ == old(dst)@ + encode_utf8(item@),
    {
        dst.extend_from_slice(item.as_str().as_bytes());
        Ok(())
    }
}

impl Decoder for LinesCodec {
    type Item = String;

    type Error = std::string::FromUtf8Error;

    /// Splits off everything up to and including the first newline and
    /// decodes it as UTF-8.
    ///
    /// With no newline buffered, nothing is consumed and no frame is
    /// reported. With a first newline at position `p`, the `p + 1` bytes up
    /// to it are consumed either way: they decode to the returned line when
    /// they are valid UTF-8 and fail the call otherwise.
    fn decode(&mut self, src: &mut BytesMut) -> (r: Result<Option<String>, Self::Error>)
        ensures
            consumed_from(old(src)@, final(src)@),
            (forall|j: int| 0 <= j < old(src)@.len() ==> old(src)@[j] != LINE_DELIMITER) ==> (
            r matches Ok(None) && final(src)@ == old(src)@),
            forall|p: int|
                #[trigger] is_first_newline(old(src)@, p) ==> {
                    let line = old(src)@.take(p + 1);
                    &&& final(src)@ == old(src)@.skip(p + 1)
                    &&& valid_utf8(line) ==> (r matches Ok(Some(s)) && s@ == decode_utf8(line))
                    &&& !valid_utf8(line) ==> r is Err
                },
    {
        match find_newline(src.as_slice()) {
            Some(p) => {
                let buffered = src.len();
                proof {
                    assert(p < buffered);
                }
                let line = src.split_to(p + 1);
                proof {
                    assert(forall|q: int|
                        is_first_newline(old(src)@, q) ==> q == p) by {
                        assert(is_first_newline(old(src)@, p as int));
                    }
                }
                match string_from_utf8(line.into_vec()) {
                    Ok(s) => Ok(Some(s)),
                    Err(e) => Err(e),
                }
            },
            None => {
                proof {
                    assert(src@ == old(src)@.skip(0));
                }
                Ok(None)
            },
        }
    }
}

} // verus!
