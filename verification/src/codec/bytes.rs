//! A passthrough codec: every buffered byte is one frame.

use crate::buffer::{Bytes, BytesMut};
use crate::codec::{consumed_from, Decoder, Encoder};
use core::convert::Infallible;
use vstd::prelude::*;

verus! {

/// Decodes the entire buffer as one frame and encodes items verbatim.
#[derive(Clone, Debug, Default, PartialEq)]
pub struct BytesCodec;

impl Encoder for BytesCodec {
    type Item = Bytes;

    type Error = Infallible;

    /// Appends the item's bytes unchanged.
    fn encode(&mut self, item: Bytes, dst: &mut BytesMut) -> (r: Result<(), Self::Error>)
        ensures
            r is Ok,
            final(dst)@ == old(dst)@ + item@,
    {
        dst.extend_from_slice(item.as_slice());
        Ok(())
    }
}

impl Decoder for BytesCodec {
    type Item = Bytes;

    type Error = Infallible;

    /// Takes every buffered byte as one frame; an empty buffer holds no
    /// frame.
    fn decode(&mut self, src: &mut BytesMut) -> (r: Result<Option<Bytes>, Self::Error>)
        ensures
            consumed_from(old(src)@, final(src)@),
            old(src)@.len() > 0 ==> (r matches Ok(Some(b)) && b@ == old(src)@ && final(src)@.len()
                == 0),
            old(src)@.len() == 0 ==> (r matches Ok(None) && final(src)@ == old(src)@),
    {
        let len = src.len();
        if len > 0 {
            let frame = src.split_to(len);
            proof {
                assert(frame@ =~= old(src)@);
                assert(src@ =~= old(src)@.skip(len as int));
            }
            Ok(Some(frame.freeze()))
        } else {
            proof {
                assert(src@ =~= old(src)@.skip(0));
            }
            Ok(None)
        }
    }
}

} // verus!
