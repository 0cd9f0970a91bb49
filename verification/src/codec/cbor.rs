//! A structured-data codec: each frame is one CBOR value.

use crate::buffer::BytesMut;
use crate::codec::{consumed_from, Decoder, Encoder, ScanOutcome};
use vstd::prelude::*;

verus! {

#[verifier::external_type_specification]
#[verifier::external_body]
pub struct ExCborValue(serde_cbor::Value);

/// The CBOR parser failed on malformed bytes, or a value could not be
/// rendered.
#[derive(Clone, Copy, Debug, PartialEq, Eq, Structural)]
pub struct CborCodecError;

/// What scanning a buffer for one leading CBOR value yields: how many
/// bytes the scan consumes, and whether a value is complete, still
/// incomplete, or malformed.
pub uninterp spec fn cbor_scan(b: Seq<u8>) -> (int, ScanOutcome);

/// Relies on serde_cbor's slice deserializer: it parses one leading CBOR
/// value from the slice, `byte_offset` reports how many bytes were
/// consumed — never more than the slice holds — and an error classed
/// end-of-file means the value is incomplete rather than malformed. The
/// reader does not rewind on an incomplete value: the offset stays where
/// parsing stopped, so the value's already-scanned prefix counts as
/// consumed.
#[verifier::external_body]
fn cbor_scan_slice(buf: &[u8]) -> (r: (
    usize,
    Result<Option<serde_cbor::Value>, CborCodecError>,
))
    ensures
        r.0 == cbor_scan(buf@).0,
        r.0 <= buf@.len(),
        (r.1 matches Ok(Some(v))) == (cbor_scan(buf@).1 is Complete),
        (r.1 matches Ok(None)) == (cbor_scan(buf@).1 is Incomplete),
        (r.1 is Err) == (cbor_scan(buf@).1 is Invalid),
{
    let de = serde_cbor::Deserializer::from_slice(buf);
    let mut iter = de.into_iter::<serde_cbor::Value>();
    let res = match iter.next() {
        Some(Ok(v)) => Ok(Some(v)),
        Some(Err(ref e)) if e.is_eof() => Ok(None),
        Some(Err(_)) => Err(CborCodecError),
        None => Ok(None),
    };
    (iter.byte_offset(), res)
}

/// Relies on serde_cbor::to_vec: it renders one CBOR value, and no
/// rendering is empty.
#[verifier::external_body]
fn cbor_to_bytes(v: &serde_cbor::Value) -> (r: Result<Vec<u8>, CborCodecError>)
    ensures
        r matches Ok(b) ==> b@.len() > 0,
{
    match serde_cbor::to_vec(v) {
        Ok(b) => Ok(b),
        Err(_) => Err(CborCodecError),
    }
}

/// Frames CBOR values: decoding parses one leading value off the buffer,
/// encoding appends one value's rendering.
#[derive(Clone, Debug, Default, PartialEq)]
pub struct CborCodec;

impl CborCodec {
    /// Creates the codec.
    pub fn new() -> (r: CborCodec) {
        CborCodec
    }
}

impl Decoder for CborCodec {
    type Item = serde_cbor::Value;

    type Error = CborCodecError;

    /// Parses one leading CBOR value, consuming exactly the bytes the
    /// parser read. The parser does not rewind on an incomplete value, so
    /// that value's already-scanned prefix is consumed and lost: the codec
    /// suits transports that deliver a value's bytes together, and its
    /// tests feed it whole values.
    fn decode(&mut self, src: &mut BytesMut) -> (r: Result<
        Option<serde_cbor::Value>,
        CborCodecError,
    >)
        ensures
            consumed_from(old(src)@, final(src)@),
            final(src)@ == old(src)@.skip(cbor_scan(old(src)@).0),
            (r matches Ok(Some(v))) == (cbor_scan(old(src)@).1 is Complete),
            (r matches Ok(None)) == (cbor_scan(old(src)@).1 is Incomplete),
            (r is Err) == (cbor_scan(old(src)@).1 is Invalid),
    {
        let (offset, res) = cbor_scan_slice(src.as_slice());
        src.advance(offset);
        res
    }
}

impl Encoder for CborCodec {
    type Item = serde_cbor::Value;

    type Error = CborCodecError;

    /// Appends the item's rendering; the buffer is untouched on failure.
    fn encode(&mut self, item: serde_cbor::Value, dst: &mut BytesMut) -> (r: Result<
        (),
        CborCodecError,
    >)
        ensures
            r is Ok ==> old(dst)@.is_prefix_of(final(dst)@) && final(dst)@.len() > old(
                dst,
            )@.len(),
            r is Err ==> final(dst)@ == old(dst)@,
    {
        match cbor_to_bytes(&item) {
            Err(e) => Err(e),
            Ok(b) => {
                dst.extend_from_slice(b.as_slice());
                proof {
                    assert((old(dst)@ + b@).take(old(dst)@.len() as int) =~= old(dst)@);
                }
                Ok(())
            },
        }
    }
}

} // verus!
