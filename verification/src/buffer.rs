//! Growable byte buffers.
//!
//! [`BytesMut`] is the mutable buffer the framing engine appends transport
//! bytes to and codecs consume from; [`Bytes`] is an immutable buffer split
//! off a [`BytesMut`]. Both are modelled as the sequence of bytes they hold.

use vstd::prelude::*;

verus! {

/// Compares two byte vectors element by element.
fn vec_u8_eq(a: &Vec<u8>, b: &Vec<u8>) -> (r: bool)
    ensures
        r == (a@ == b@),
{
    if a.len() != b.len() {
        proof {
            assert(a@ != b@) by {
                assert(a@.len() != b@.len());
            }
        }
        return false;
    }
    let mut i: usize = 0;
    while i < a.len()
        invariant
            i <= a.len(),
            a.len() == b.len(),
            forall|j: int| 0 <= j < i ==> a@[j] == b@[j],
        decreases a.len() - i,
    {
        if a[i] != b[i] {
            return false;
        }
        i = i + 1;
    }
    proof {
        assert(a@ =~= b@);
    }
    true
}

/// A mutable, growable byte buffer.
#[derive(Clone, Debug)]
pub struct BytesMut {
    data: Vec<u8>,
}

impl View for BytesMut {
    type V = Seq<u8>;

    closed spec fn view(&self) -> Seq<u8> {
        self.data@
    }
}

impl BytesMut {
    /// Creates an empty buffer.
    pub fn new() -> (r: BytesMut)
        ensures
            r@ == Seq::<u8>::empty(),
    {
        BytesMut { data: Vec::new() }
    }

    /// Creates an empty buffer with room for `capacity` bytes.
    pub fn with_capacity(capacity: usize) -> (r: BytesMut)
        ensures
            r@ == Seq::<u8>::empty(),
    {
        BytesMut { data: Vec::with_capacity(capacity) }
    }

    /// Creates a buffer holding a copy of `s`.
    pub fn copy_from_slice(s: &[u8]) -> (r: BytesMut)
        ensures
            r@ == s@,
    {
        let mut data: Vec<u8> = Vec::new();
        data.extend_from_slice(s);
        proof {
            assert(data@ =~= s@);
        }
        BytesMut { data }
    }

    /// The number of buffered bytes.
    pub fn len(&self) -> (r: usize)
        ensures
            r == self@.len(),
    {
        self.data.len()
    }

    /// Whether the buffer holds no bytes.
    pub fn is_empty(&self) -> (r: bool)
        ensures
            r == (self@.len() == 0),
    {
        self.data.len() == 0
    }

    /// Removes every buffered byte.
    pub fn clear(&mut self)
        ensures
            final(self)@ == Seq::<u8>::empty(),
    {
        self.data.clear();
    }

    /// Appends one byte.
    pub fn push(&mut self, b: u8)
        ensures
            final(self)@ == old(self)@ + seq![b],
    {
        self.data.push(b);
    }

    /// Appends a copy of `s` to the end of the buffer.
    pub fn extend_from_slice(&mut self, s: &[u8])
        ensures
            final(self)@ == old(self)@ + s@,
    {
        self.data.extend_from_slice(s);
        proof {
            assert(self.data@ =~= old(self).data@ + s@);
        }
    }

    /// Discards the first `cnt` bytes.
    pub fn advance(&mut self, cnt: usize)
        requires
            cnt <= old(self)@.len(),
        ensures
            final(self)@ == old(self)@.skip(cnt as int),
    {
        let rest = self.data.split_off(cnt);
        self.data = rest;
        proof {
            assert(self.data@ =~= old(self)@.skip(cnt as int));
        }
    }

    /// Removes and returns the first `at` bytes, keeping the rest.
    pub fn split_to(&mut self, at: usize) -> (r: BytesMut)
        requires
            at <= old(self)@.len(),
        ensures
            r@ == old(self)@.take(at as int),
            final(self)@ == old(self)@.skip(at as int),
    {
        let mut rest = self.data.split_off(at);
        core::mem::swap(&mut self.data, &mut rest);
        proof {
            assert(self.data@ =~= old(self)@.skip(at as int));
            assert(rest@ =~= old(self)@.take(at as int));
        }
        BytesMut { data: rest }
    }

    /// Takes the buffered bytes as a vector.
    pub fn into_vec(self) -> (r: Vec<u8>)
        ensures
            r@ == self@,
    {
        self.data
    }

    /// Freezes the buffer into an immutable one.
    pub fn freeze(self) -> (r: Bytes)
        ensures
            r@ == self@,
    {
        Bytes { data: self.data }
    }

    /// The buffered bytes as a slice.
    pub fn as_slice(&self) -> (r: &[u8])
        ensures
            r@ == self@,
    {
        self.data.as_slice()
    }
}

impl PartialEq for BytesMut {
    fn eq(&self, other: &BytesMut) -> (r: bool) {
        vec_u8_eq(&self.data, &other.data)
    }
}

impl vstd::std_specs::cmp::PartialEqSpecImpl for BytesMut {
    open spec fn obeys_eq_spec() -> bool {
        true
    }

    open spec fn eq_spec(&self, other: &BytesMut) -> bool {
        self@ == other@
    }
}

impl Eq for BytesMut {

}

/// An immutable byte buffer, usually split off a [`BytesMut`].
#[derive(Clone, Debug)]
pub struct Bytes {
    data: Vec<u8>,
}

impl View for Bytes {
    type V = Seq<u8>;

    closed spec fn view(&self) -> Seq<u8> {
        self.data@
    }
}

impl Bytes {
    /// Creates an empty buffer.
    pub fn new() -> (r: Bytes)
        ensures
            r@ == Seq::<u8>::empty(),
    {
        Bytes { data: Vec::new() }
    }

    /// Creates a buffer holding a copy of `s`.
    pub fn copy_from_slice(s: &[u8]) -> (r: Bytes)
        ensures
            r@ == s@,
    {
        BytesMut::copy_from_slice(s).freeze()
    }

    /// The number of bytes held.
    pub fn len(&self) -> (r: usize)
        ensures
            r == self@.len(),
    {
        self.data.len()
    }

    /// Whether no bytes are held.
    pub fn is_empty(&self) -> (r: bool)
        ensures
            r == (self@.len() == 0),
    {
        self.data.len() == 0
    }

    /// The held bytes as a slice.
    pub fn as_slice(&self) -> (r: &[u8])
        ensures
            r@ == self@,
    {
        self.data.as_slice()
    }
}

impl PartialEq for Bytes {
    fn eq(&self, other: &Bytes) -> (r: bool) {
        vec_u8_eq(&self.data, &other.data)
    }
}

impl vstd::std_specs::cmp::PartialEqSpecImpl for Bytes {
    open spec fn obeys_eq_spec() -> bool {
        true
    }

    open spec fn eq_spec(&self, other: &Bytes) -> bool {
        self@ == other@
    }
}

impl Eq for Bytes {

}

} // verus!
