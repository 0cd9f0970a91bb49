//! The length-prefixed codec: `[W-byte big-endian length][payload]`.

use crate::buffer::{Bytes, BytesMut};
use crate::codec::{consumed_from, Decoder, Encoder};
use core::marker::PhantomData;
use vstd::arithmetic::div_mod::{lemma_fundamental_div_mod, lemma_multiply_divide_lt};
use vstd::arithmetic::mul::{lemma_mul_inequality, lemma_mul_is_commutative};
use vstd::prelude::*;

verus! {

/// `256^w`: the number of values a `w`-byte big-endian header can hold.
pub open spec fn pow256(w: nat) -> nat
    decreases w,
{
    if w == 0 {
        1
    } else {
        256 * pow256((w - 1) as nat)
    }
}

/// The `w`-byte big-endian encoding of `v`.
pub open spec fn be_bytes(w: nat, v: nat) -> Seq<u8>
    decreases w,
{
    if w == 0 {
        Seq::empty()
    } else {
        be_bytes((w - 1) as nat, v / 256) + seq![(v % 256) as u8]
    }
}

/// The value of a big-endian byte sequence.
pub open spec fn be_value(s: Seq<u8>) -> nat
    decreases s.len(),
{
    if s.len() == 0 {
        0
    } else {
        (256 * be_value(s.drop_last()) + s.last()) as nat
    }
}

/// The powers of 256 that the supported header widths use.
pub proof fn lemma_pow256_values()
    ensures
        pow256(0) == 1,
        pow256(1) == 0x100,
        pow256(2) == 0x10000,
        pow256(3) == 0x100_0000,
        pow256(4) == 0x1_0000_0000,
        pow256(7) == 0x100_0000_0000_0000,
        pow256(8) == 0x1_0000_0000_0000_0000,
{
    assert(pow256(0) == 1);
    assert(pow256(1) == 0x100);
    assert(pow256(2) == 0x10000);
    assert(pow256(3) == 0x100_0000);
    assert(pow256(4) == 0x1_0000_0000);
    assert(pow256(5) == 0x100_0000_0000);
    assert(pow256(6) == 0x1_0000_0000_0000);
    assert(pow256(7) == 0x100_0000_0000_0000);
    assert(pow256(8) == 0x1_0000_0000_0000_0000);
}

/// `pow256` grows with the width.
pub proof fn lemma_pow256_increases(i: nat, j: nat)
    requires
        i <= j,
    ensures
        pow256(i) <= pow256(j),
    decreases j,
{
    if i < j {
        lemma_pow256_increases(i, (j - 1) as nat);
        assert(pow256(j) == 256 * pow256((j - 1) as nat));
        lemma_mul_inequality(1, 256, pow256((j - 1) as nat) as int);
        assert(1 * pow256((j - 1) as nat) == pow256((j - 1) as nat));
    }
}

/// A `w`-byte big-endian encoding has exactly `w` bytes, and decoding it
/// yields the encoded value back.
pub proof fn lemma_be_value_of_be_bytes(w: nat, v: nat)
    requires
        v < pow256(w),
    ensures
        be_bytes(w, v).len() == w,
        be_value(be_bytes(w, v)) == v,
    decreases w,
{
    if w == 0 {
        assert(be_value(Seq::<u8>::empty()) == 0);
    } else {
        assert(pow256(w) == 256 * pow256((w - 1) as nat));
        lemma_multiply_divide_lt(v as int, 256, pow256((w - 1) as nat) as int);
        lemma_be_value_of_be_bytes((w - 1) as nat, v / 256);
        let s = be_bytes(w, v);
        assert(s == be_bytes((w - 1) as nat, v / 256) + seq![(v % 256) as u8]);
        assert(s.drop_last() =~= be_bytes((w - 1) as nat, v / 256));
        assert(s.last() == (v % 256) as u8);
        lemma_fundamental_div_mod(v as int, 256);
    }
}

/// Appends the `w`-byte big-endian encoding of `v` to `dst`.
fn push_be(w: usize, v: u64, dst: &mut BytesMut)
    requires
        w <= 8,
        (v as nat) < pow256(w as nat),
    ensures
        final(dst)@ == old(dst)@ + be_bytes(w as nat, v as nat),
    decreases w,
{
    if w == 0 {
        proof {
            assert(old(dst)@ + be_bytes(0, v as nat) =~= old(dst)@);
        }
    } else {
        proof {
            assert(pow256(w as nat) == 256 * pow256((w - 1) as nat));
            lemma_multiply_divide_lt(v as int, 256, pow256((w - 1) as nat) as int);
        }
        push_be(w - 1, v / 256, dst);
        dst.push((v % 256) as u8);
        proof {
            assert(dst@ =~= old(dst)@ + be_bytes(w as nat, v as nat));
        }
    }
}

/// Reads the first `w` bytes of `src` as a big-endian value.
fn read_be(src: &[u8], w: usize) -> (r: u64)
    requires
        w <= 8,
        src@.len() >= w,
    ensures
        r as nat == be_value(src@.take(w as int)),
{
    let mut acc: u64 = 0;
    let mut i: usize = 0;
    while i < w
        invariant
            i <= w,
            w <= 8,
            src@.len() >= w,
            acc as nat == be_value(src@.take(i as int)),
            (acc as nat) < pow256(i as nat),
        decreases w - i,
    {
        proof {
            lemma_pow256_values();
            lemma_pow256_increases(i as nat, 7);
            lemma_mul_inequality(acc as int, pow256(7) as int - 1, 256);
            lemma_mul_is_commutative(acc as int, 256);
            lemma_mul_is_commutative(pow256(7) as int - 1, 256);
        }
        let b = src[i];
        proof {
            lemma_mul_inequality(acc as int, pow256(i as nat) as int - 1, 256);
            lemma_mul_is_commutative(acc as int, 256);
            lemma_mul_is_commutative(pow256(i as nat) as int - 1, 256);
        }
        acc = acc * 256 + (b as u64);
        proof {
            assert(src@.take(i + 1).drop_last() =~= src@.take(i as int));
            assert(src@.take(i + 1).last() == src@[i as int]);
            assert(pow256((i + 1) as nat) == 256 * pow256(i as nat));
        }
        i = i + 1;
    }
    acc
}

/// Converts a parsed header value to a length, failing when the platform's
/// size type cannot hold it.
fn be_to_usize(v: u64) -> (r: Result<usize, OverflowError>)
    ensures
        r is Ok <==> v <= usize::MAX,
        r matches Ok(n) ==> n == v,
{
    if v > usize::MAX as u64 {
        Err(OverflowError)
    } else {
        Ok(v as usize)
    }
}

/// A length did not fit: either an item was too long for the configured
/// header width, or a decoded header declared a length beyond the
/// platform's size type.
#[derive(Clone, Copy, Debug, PartialEq, Eq, Structural)]
pub struct OverflowError;

/// A header width usable by [`LengthCodec`]: an unsigned integer type whose
/// byte width fixes the header size.
pub trait Length {
    /// The header width in bytes.
    spec fn width() -> nat;

    /// The header width in bytes, as a run-time value.
    fn header_len() -> (n: usize)
        ensures
            n == Self::width(),
            1 <= n <= 8,
    ;

    /// Appends the header encoding `x` to `dst`; fails without touching
    /// `dst` when `x` needs more than [`Length::width`] bytes.
    fn encode(x: usize, dst: &mut BytesMut) -> (r: Result<(), OverflowError>)
        ensures
            r is Ok <==> (x as nat) < pow256(Self::width()),
            r is Ok ==> final(dst)@ == old(dst)@ + be_bytes(Self::width(), x as nat),
            r is Err ==> final(dst)@ == old(dst)@,
    ;

    /// Parses the header at the front of `src`; fails when the declared
    /// length does not fit the platform's size type.
    fn start_decode(src: &[u8]) -> (r: Result<usize, OverflowError>)
        requires
            src@.len() >= Self::width(),
        ensures
            r is Ok <==> be_value(src@.take(Self::width() as int)) <= usize::MAX,
            r matches Ok(n) ==> n == be_value(src@.take(Self::width() as int)),
    ;
}

impl Length for u8 {
    open spec fn width() -> nat {
        1
    }

    fn header_len() -> usize {
        1
    }

    fn encode(x: usize, dst: &mut BytesMut) -> Result<(), OverflowError> {
        proof {
            lemma_pow256_values();
        }
        if x > 0xFF {
            Err(OverflowError)
        } else {
            push_be(1, x as u64, dst);
            Ok(())
        }
    }

    fn start_decode(src: &[u8]) -> Result<usize, OverflowError> {
        let v = read_be(src, 1);
        be_to_usize(v)
    }
}

impl Length for u16 {
    open spec fn width() -> nat {
        2
    }

    fn header_len() -> usize {
        2
    }

    fn encode(x: usize, dst: &mut BytesMut) -> Result<(), OverflowError> {
        proof {
            lemma_pow256_values();
        }
        if x > 0xFFFF {
            Err(OverflowError)
        } else {
            push_be(2, x as u64, dst);
            Ok(())
        }
    }

    fn start_decode(src: &[u8]) -> Result<usize, OverflowError> {
        let v = read_be(src, 2);
        be_to_usize(v)
    }
}

impl Length for u32 {
    open spec fn width() -> nat {
        4
    }

    fn header_len() -> usize {
        4
    }

    fn encode(x: usize, dst: &mut BytesMut) -> Result<(), OverflowError> {
        proof {
            lemma_pow256_values();
        }
        if x > 0xFFFF_FFFF {
            Err(OverflowError)
        } else {
            push_be(4, x as u64, dst);
            Ok(())
        }
    }

    fn start_decode(src: &[u8]) -> Result<usize, OverflowError> {
        let v = read_be(src, 4);
        be_to_usize(v)
    }
}

impl Length for u64 {
    open spec fn width() -> nat {
        8
    }

    fn header_len() -> usize {
        8
    }

    fn encode(x: usize, dst: &mut BytesMut) -> Result<(), OverflowError> {
        proof {
            lemma_pow256_values();
            assert((usize::MAX as nat) < pow256(8));
        }
        push_be(8, x as u64, dst);
        Ok(())
    }

    fn start_decode(src: &[u8]) -> Result<usize, OverflowError> {
        let v = read_be(src, 8);
        be_to_usize(v)
    }
}

/// The length the header at the front of `b` declares.
pub open spec fn length_declared(w: nat, b: Seq<u8>) -> nat {
    be_value(b.take(w as int))
}

/// Whether `b` starts with a full frame: a `w`-byte header followed by at
/// least as many bytes as the header declares.
pub open spec fn length_frame_complete(w: nat, b: Seq<u8>) -> bool {
    b.len() >= w && b.len() - w >= length_declared(w, b)
}

/// Length-prefixed framing with a header width chosen by `L`: each frame is
/// the payload's length in `L::width()` big-endian bytes, then the payload.
#[derive(Debug, Default, PartialEq)]
pub struct LengthCodec<L>(PhantomData<L>);

impl<L> LengthCodec<L> {
    /// Creates the codec.
    pub fn new() -> (r: LengthCodec<L>) {
        LengthCodec(PhantomData)
    }
}

impl<L: Length> Encoder for LengthCodec<L> {
    type Item = Bytes;

    type Error = OverflowError;

    /// Appends the item's length in `L::width()` big-endian bytes, then the
    /// item itself; fails without touching `dst` when the length needs more
    /// than `L::width()` bytes.
    fn encode(&mut self, item: Bytes, dst: &mut BytesMut) -> (r: Result<(), OverflowError>)
        ensures
            r is Ok <==> item@.len() < pow256(L::width()),
            r is Ok ==> final(dst)@ == old(dst)@ + be_bytes(L::width(), item@.len()) + item@,
            r is Err ==> final(dst)@ == old(dst)@,
    {
        match L::encode(item.len(), dst) {
            Err(e) => Err(e),
            Ok(()) => {
                dst.extend_from_slice(item.as_slice());
                Ok(())
            },
        }
    }
}

impl<L: Length> Decoder for LengthCodec<L> {
    type Item = Bytes;

    type Error = OverflowError;

    /// Decodes one length-prefixed frame off the front of `src`.
    ///
    /// Reports no frame, consuming nothing — in particular not the header —
    /// while the buffer holds less than a header or less payload than the
    /// header declares; fails, consuming nothing, when the declared length
    /// does not fit the platform's size type; and otherwise consumes the
    /// header and exactly the declared payload, returning the payload.
    fn decode(&mut self, src: &mut BytesMut) -> (r: Result<Option<Bytes>, OverflowError>)
        ensures
            consumed_from(old(src)@, final(src)@),
            ({
                let w = L::width();
                let b = old(src)@;
                let n = length_declared(w, b);
                &&& b.len() < w ==> (r matches Ok(None) && final(src)@ == b)
                &&& b.len() >= w && n > usize::MAX ==> (r matches Err(e) && final(src)@ == b)
                &&& b.len() >= w && n <= usize::MAX && !length_frame_complete(w, b) ==> (
                r matches Ok(None) && final(src)@ == b)
                &&& length_frame_complete(w, b) ==> (r matches Ok(Some(f)) && f@ == b.subrange(
                    w as int,
                    w + n as int,
                ) && final(src)@ == b.skip(w + n as int))
            }),
    {
        let w = L::header_len();
        if src.len() < w {
            proof {
                assert(src@ == old(src)@.skip(0));
            }
            return Ok(None);
        }
        let parsed = L::start_decode(src.as_slice());
        match parsed {
            Err(e) => {
                proof {
                    assert(src@ == old(src)@.skip(0));
                }
                Err(e)
            },
            Ok(len) => {
                if src.len() - w >= len {
                    src.advance(w);
                    let frame = src.split_to(len);
                    proof {
                        let b = old(src)@;
                        let n = length_declared(L::width(), b);
                        assert(frame@ =~= b.subrange(w as int, w + n));
                        assert(src@ =~= b.skip(w + n));
                    }
                    Ok(Some(frame.freeze()))
                } else {
                    proof {
                        assert(src@ == old(src)@.skip(0));
                    }
                    Ok(None)
                }
            },
        }
    }
}

/// Law: a frame encoded by the length-prefixed codec decodes back to the
/// payload it was built from, whatever follows it in the buffer. With
/// nothing following, the buffer is fully consumed; with further encoded
/// frames following, each later frame is decoded in turn, in order.
pub proof fn lemma_length_round_trip(w: nat, payload: Seq<u8>, rest: Seq<u8>)
    requires
        payload.len() < pow256(w),
    ensures
        ({
            let b = be_bytes(w, payload.len()) + payload + rest;
            &&& length_frame_complete(w, b)
            &&& length_declared(w, b) == payload.len()
            &&& b.subrange(w as int, w + payload.len() as int) == payload
            &&& b.skip(w + payload.len() as int) == rest
        }),
{
    lemma_be_value_of_be_bytes(w, payload.len());
    let h = be_bytes(w, payload.len());
    let b = h + payload + rest;
    assert(b.take(w as int) =~= h);
    assert(b.subrange(w as int, w + payload.len() as int) =~= payload);
    assert(b.skip(w + payload.len() as int) =~= rest);
}

/// Law: while only part of a frame has arrived — at least the header, but
/// not the whole payload — the decoder reports no frame and the header is
/// still at the front of the buffer, so a later call parses the same header
/// against the grown buffer.
pub proof fn lemma_length_partial_keeps_header(w: nat, payload: Seq<u8>, cut: int)
    requires
        payload.len() < pow256(w),
        w <= cut < w + payload.len(),
    ensures
        ({
            let b = (be_bytes(w, payload.len()) + payload).take(cut);
            &&& !length_frame_complete(w, b)
            &&& length_declared(w, b) == payload.len()
        }),
{
    lemma_be_value_of_be_bytes(w, payload.len());
    let h = be_bytes(w, payload.len());
    let b = (h + payload).take(cut);
    assert(b.take(w as int) =~= h);
}

} // verus!
