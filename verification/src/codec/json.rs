//! A structured-data codec: each frame is one JSON value.

use crate::buffer::BytesMut;
use crate::codec::{consumed_from, Decoder, Encoder, ScanOutcome};
use vstd::prelude::*;

verus! {

#[verifier::external_type_specification]
#[verifier::external_body]
pub struct ExJsonValue(serde_json::Value);

/// The JSON parser failed on malformed bytes, or a value could not be
/// rendered.
#[derive(Clone, Copy, Debug, PartialEq, Eq, Structural)]
pub struct JsonCodecError;

/// What scanning a buffer for one leading JSON value yields: how many
/// bytes the scan consumes, and whether a value is complete, still
/// incomplete, or malformed.
pub uninterp spec fn json_scan(b: Seq<u8>) -> (int, ScanOutcome);

/// Relies on serde_json's slice deserializer: it parses one leading JSON
/// value from the slice, `byte_offset` reports how many bytes were
/// consumed — never more than the slice holds, and none of an incomplete
/// value's own bytes — and an error classed end-of-file means the value is
/// incomplete rather than malformed.
#[verifier::external_body]
fn json_scan_slice(buf: &[u8]) -> (r: (
    usize,
    Result<Option<serde_json::Value>, JsonCodecError>,
))
    ensures
        r.0 == json_scan(buf@).0,
        r.0 <= buf@.len(),
        (r.1 matches Ok(Some(v))) == (json_scan(buf@).1 is Complete),
        (r.1 matches Ok(None)) == (json_scan(buf@).1 is Incomplete),
        (r.1 is Err) == (json_scan(buf@).1 is Invalid),
{
    let de = serde_json::Deserializer::from_slice(buf);
    let mut iter = de.into_iter::<serde_json::Value>();
    let res = match iter.next() {
        Some(Ok(v)) => Ok(Some(v)),
        Some(Err(ref e)) if e.is_eof() => Ok(None),
        Some(Err(_)) => Err(JsonCodecError),
        None => Ok(None),
    };
    (iter.byte_offset(), res)
}

/// Relies on serde_json::to_vec: it renders one JSON value, and no
/// rendering is empty.
#[verifier::external_body]
fn json_to_bytes(v: &serde_json::Value) -> (r: Result<Vec<u8>, JsonCodecError>)
    ensures
        r matches Ok(b) ==> b@.len() > 0,
{
    match serde_json::to_vec(v) {
        Ok(b) => Ok(b),
        Err(_) => Err(JsonCodecError),
    }
}

/// Frames JSON values: decoding parses one leading value off the buffer,
/// encoding appends one value's rendering.
#[derive(Clone, Debug, Default, PartialEq)]
pub struct JsonCodec;

impl JsonCodec {
    /// Creates the codec.
    pub fn new() -> (r: JsonCodec) {
        JsonCodec
    }
}

impl Decoder for JsonCodec {
    type Item = serde_json::Value;

    type Error = JsonCodecError;

    /// Parses one leading JSON value, consuming exactly the bytes the
    /// parser read: none while the value is still incomplete, so that a
    /// later call parses the grown buffer from the same place.
    fn decode(&mut self, src: &mut BytesMut) -> (r: Result<
        Option<serde_json::Value>,
        JsonCodecError,
    >)
        ensures
            consumed_from(old(src)@, final(src)@),
            final(src)@ == old(src)@.skip(json_scan(old(src)@).0),
            (r matches Ok(Some(v))) == (json_scan(old(src)@).1 is Complete),
            (r matches Ok(None)) == (json_scan(old(src)@).1 is Incomplete),
            (r is Err) == (json_scan(old(src)@).1 is Invalid),
    {
        let (offset, res) = json_scan_slice(src.as_slice());
        src.advance(offset);
        res
    }
}

impl Encoder for JsonCodec {
    type Item = serde_json::Value;

    type Error = JsonCodecError;

    /// Appends the item's rendering; the buffer is untouched on failure.
    fn encode(&mut self, item: serde_json::Value, dst: &mut BytesMut) -> (r: Result<
        (),
        JsonCodecError,
    >)
        ensures
            r is Ok ==> old(dst)@.is_prefix_of(final(dst)@) && final(dst)@.len() > old(
                dst,
            )@.len(),
            r is Err ==> final(dst)@ == old(dst)@,
    {
        match json_to_bytes(&item) {
            Err(e) => Err(e),
            Ok(b) => {
                dst.extend_from_slice(b.as_slice());
                proof {
                    assert((old(dst)@ + b@).take(old(dst)@.len() as int) =~= old(dst)@);
                }
                Ok(())
            },
        }
    }
}

} // verus!
