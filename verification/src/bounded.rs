//! Fixed-capacity text and byte containers.
//!
//! Every value the driver sends to or receives from the modem lives in a
//! container whose capacity is fixed at the type level, so the driver can
//! run without a heap bound growing under it.  An assignment that exceeds
//! the capacity fails with `Error::CapacityExceeded`; partial writes are
//! never observable.

use vstd::prelude::*;

use crate::Error;

verus! {

/// Fixed-capacity ASCII/UTF-8 text with capacity `N` bytes.
///
/// Equality is by content.
#[derive(Debug)]
pub struct BoundedText<const N: usize> {
    bytes: Vec<u8>,
}

impl<const N: usize> BoundedText<N> {
    /// The text seen as the sequence of its bytes.
    pub closed spec fn view(&self) -> Seq<u8> {
        self.bytes@
    }

    /// The container never holds more than `N` bytes.
    pub open spec fn wf(&self) -> bool {
        self@.len() <= N
    }

    /// The empty text.
    pub fn new() -> (r: Self)
        ensures
            r@ == Seq::<u8>::empty(),
            r.wf(),
    {
        BoundedText { bytes: Vec::new() }
    }

    /// Copies `s` into a new text; fails if `s` exceeds the capacity.
    pub fn from_bytes(s: &[u8]) -> (r: Result<Self, Error>)
        ensures
            s@.len() <= N ==> (r matches Ok(t) && t@ == s@ && t.wf()),
            s@.len() > N ==> (r matches Err(e) && e == Error::CapacityExceeded),
    {
        if s.len() > N {
            Err(Error::CapacityExceeded)
        } else {
            let mut v: Vec<u8> = Vec::new();
            let mut i: usize = 0;
            while i < s.len()
                invariant
                    i <= s.len(),
                    v@ == s@.subrange(0, i as int),
                decreases s.len() - i,
            {
                v.push(s[i]);
                i = i + 1;
                proof {
                    assert(v@ =~= s@.subrange(0, i as int));
                }
            }
            proof {
                assert(v@ =~= s@);
            }
            Ok(BoundedText { bytes: v })
        }
    }

    /// Number of bytes held.
    pub fn len(&self) -> (r: usize)
        ensures
            r == self@.len(),
    {
        self.bytes.len()
    }

    /// The bytes held, for reading.
    pub fn as_bytes(&self) -> (r: &[u8])
        ensures
            r@ == self@,
    {
        self.bytes.as_slice()
    }

    /// Appends one byte; fails if the text is full.
    pub fn push(&mut self, b: u8) -> (r: Result<(), Error>)
        requires
            old(self).wf(),
        ensures
            final(self).wf(),
            old(self)@.len() < N ==> (r matches Ok(()) && final(self)@ == old(self)@.push(b)),
            old(self)@.len() >= N ==> (r matches Err(e) && e == Error::CapacityExceeded
                && final(self)@ == old(self)@),
    {
        if self.bytes.len() < N {
            self.bytes.push(b);
            Ok(())
        } else {
            Err(Error::CapacityExceeded)
        }
    }
}

impl<const N: usize> Clone for BoundedText<N> {
    fn clone(&self) -> (r: Self)
        ensures
            r@ == self@,
            self.wf() ==> r.wf(),
    {
        BoundedText { bytes: self.bytes.clone() }
    }
}

impl<const N: usize> PartialEq for BoundedText<N> {
    fn eq(&self, other: &Self) -> (r: bool)
    {
        crate::bounded::bytes_eq(self.bytes.as_slice(), other.bytes.as_slice())
    }
}

impl<const N: usize> vstd::std_specs::cmp::PartialEqSpecImpl for BoundedText<N> {
    open spec fn obeys_eq_spec() -> bool {
        true
    }

    open spec fn eq_spec(&self, other: &Self) -> bool {
        self@ == other@
    }
}

impl<const N: usize> Eq for BoundedText<N> {}

/// Fixed-capacity raw byte container with capacity `N`.
///
/// Equality is by content.
#[derive(Debug)]
pub struct BoundedBytes<const N: usize> {
    bytes: Vec<u8>,
}

impl<const N: usize> BoundedBytes<N> {
    /// The contained byte sequence.
    pub closed spec fn view(&self) -> Seq<u8> {
        self.bytes@
    }

    /// The container never holds more than `N` bytes.
    pub open spec fn wf(&self) -> bool {
        self@.len() <= N
    }

    /// The empty container.
    pub fn new() -> (r: Self)
        ensures
            r@ == Seq::<u8>::empty(),
            r.wf(),
    {
        BoundedBytes { bytes: Vec::new() }
    }

    /// Copies `s` into a new container; fails if `s` exceeds the capacity.
    pub fn from_bytes(s: &[u8]) -> (r: Result<Self, Error>)
        ensures
            s@.len() <= N ==> (r matches Ok(t) && t@ == s@ && t.wf()),
            s@.len() > N ==> (r matches Err(e) && e == Error::CapacityExceeded),
    {
        match BoundedText::<N>::from_bytes(s) {
            Ok(t) => Ok(BoundedBytes { bytes: t.into_vec() }),
            Err(e) => Err(e),
        }
    }

    /// Number of bytes held.
    pub fn len(&self) -> (r: usize)
        ensures
            r == self@.len(),
    {
        self.bytes.len()
    }

    /// The bytes held, for reading.
    pub fn as_bytes(&self) -> (r: &[u8])
        ensures
            r@ == self@,
    {
        self.bytes.as_slice()
    }

    /// Appends one byte; fails if the container is full.
    pub fn push(&mut self, b: u8) -> (r: Result<(), Error>)
        requires
            old(self).wf(),
        ensures
            final(self).wf(),
            old(self)@.len() < N ==> (r matches Ok(()) && final(self)@ == old(self)@.push(b)),
            old(self)@.len() >= N ==> (r matches Err(e) && e == Error::CapacityExceeded
                && final(self)@ == old(self)@),
    {
        if self.bytes.len() < N {
            self.bytes.push(b);
            Ok(())
        } else {
            Err(Error::CapacityExceeded)
        }
    }
}

impl<const N: usize> BoundedText<N> {
    /// Surrenders the underlying byte vector.
    pub fn into_vec(self) -> (r: Vec<u8>)
        ensures
            r@ == self@,
    {
        self.bytes
    }
}

impl<const N: usize> Clone for BoundedBytes<N> {
    fn clone(&self) -> (r: Self)
        ensures
            r@ == self@,
            self.wf() ==> r.wf(),
    {
        BoundedBytes { bytes: self.bytes.clone() }
    }
}

impl<const N: usize> PartialEq for BoundedBytes<N> {
    fn eq(&self, other: &Self) -> (r: bool)
    {
        crate::bounded::bytes_eq(self.bytes.as_slice(), other.bytes.as_slice())
    }
}

impl<const N: usize> vstd::std_specs::cmp::PartialEqSpecImpl for BoundedBytes<N> {
    open spec fn obeys_eq_spec() -> bool {
        true
    }

    open spec fn eq_spec(&self, other: &Self) -> bool {
        self@ == other@
    }
}

impl<const N: usize> Eq for BoundedBytes<N> {}

/// Content equality of two byte slices.
pub fn bytes_eq(a: &[u8], b: &[u8]) -> (r: bool)
    ensures
        r == (a@ == b@),
{
    if a.len() != b.len() {
        proof {
            assert(a@.len() != b@.len());
        }
        return false;
    }
    let mut i: usize = 0;
    while i < a.len()
        invariant
            i <= a.len(),
            a@.len() == b@.len(),
            forall|j: int| 0 <= j < i ==> a@[j] == b@[j],
        decreases a.len() - i,
    {
        if a[i] != b[i] {
            return false;
        }
        i = i + 1;
    }
    proof {
        assert(a@ =~= b@);
    }
    true
}

} // verus!
