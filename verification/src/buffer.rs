//! The byte buffer that backs every layer.
//!
//! An [`Mbuf`] owns a contiguous run of bytes with a fixed backing
//! capacity. It supports bounds-checked reads and writes at an offset,
//! insertion of zero bytes at an offset (shifting trailing data forward)
//! and removal of bytes at an offset (shifting trailing data backward).
//! Every operation that could step outside the occupied bytes or the
//! capacity fails explicitly with a [`BufferError`].

use crate::wire::be16;
use crate::wire::be16_bytes;
use crate::wire::removed;
use crate::wire::inserted;
use crate::wire::spliced;
use crate::wire::zero_bytes;
use vstd::prelude::*;

verus! {

/// Backing capacity of a freshly allocated buffer, in bytes.
pub const MBUF_CAPACITY: usize = 2048;

/// Error conditions reported by buffer and layer operations.
#[derive(Clone, Copy, Debug, PartialEq, Eq, Structural)]
pub enum BufferError {
    /// Parsing detected a header instance length exceeding the buffer's
    /// occupied length: `(required, available)`.
    OutOfBuffer(usize, usize),
    /// A grow request did not fit within the buffer's backing capacity.
    BufferCapacityExceeded,
    /// An offset or length fell outside the buffer's occupied bytes.
    BufferRangeInvalid,
}

/// A contiguous, growable and shrinkable byte region with a fixed backing
/// capacity. Its view is the sequence of occupied bytes.
#[derive(Debug)]
pub struct Mbuf {
    data: Vec<u8>,
    cap: usize,
}

impl View for Mbuf {
    type V = Seq<u8>;

    closed spec fn view(&self) -> Seq<u8> {
        self.data@
    }
}

/// A buffer's occupied length always fits in a `usize`: the bytes sit in
/// one contiguous allocation.
pub broadcast proof fn lemma_mbuf_len_fits(m: &Mbuf)
    ensures
        #[trigger] m@.len() <= usize::MAX,
{
    vstd::std_specs::vec::axiom_spec_len(&m.data);
}

impl Mbuf {
    /// Total bytes the buffer can hold.
    pub closed spec fn capacity_spec(self) -> int {
        self.cap as int
    }

    /// The occupied bytes fit within the backing capacity.
    pub open spec fn wf(self) -> bool {
        self@.len() <= self.capacity_spec() <= usize::MAX
    }

    /// A new, empty buffer with the default backing capacity.
    pub fn new() -> (r: Mbuf)
        ensures
            r@ == Seq::<u8>::empty(),
            r.capacity_spec() == MBUF_CAPACITY,
            r.wf(),
    {
        Mbuf { data: Vec::new(), cap: MBUF_CAPACITY }
    }

    /// A buffer holding a copy of `bytes`, with the default backing
    /// capacity. Fails if `bytes` does not fit.
    pub fn from_bytes(bytes: &[u8]) -> (r: Result<Mbuf, BufferError>)
        ensures
            (r is Ok) <==> bytes@.len() <= MBUF_CAPACITY,
            r matches Ok(m) ==> m@ == bytes@ && m.capacity_spec() == MBUF_CAPACITY && m.wf(),
            r is Err ==> r == Err::<Mbuf, BufferError>(BufferError::BufferCapacityExceeded),
    {
        if bytes.len() > MBUF_CAPACITY {
            return Err(BufferError::BufferCapacityExceeded);
        }
        let data = vstd::slice::slice_to_vec(bytes);
        Ok(Mbuf { data, cap: MBUF_CAPACITY })
    }

    /// Number of occupied bytes.
    pub fn data_len(&self) -> (r: usize)
        ensures
            r == self@.len(),
    {
        self.data.len()
    }

    /// Total bytes the buffer can hold.
    pub fn capacity(&self) -> (r: usize)
        ensures
            r == self.capacity_spec(),
    {
        self.cap
    }

    /// The byte at position `i`.
    pub fn read_u8(&self, i: usize) -> (r: u8)
        requires
            i < self@.len(),
        ensures
            r == self@[i as int],
    {
        self.data[i]
    }

    /// Overwrites the byte at position `i`.
    pub fn write_u8(&mut self, i: usize, b: u8)
        requires
            i < old(self)@.len(),
        ensures
            final(self)@ == old(self)@.update(i as int, b),
            final(self).capacity_spec() == old(self).capacity_spec(),
    {
        self.data[i] = b;
    }

    /// The big-endian 16-bit field at positions `i` and `i + 1`.
    pub fn read_u16_be(&self, i: usize) -> (r: u16)
        requires
            i + 2 <= self@.len(),
        ensures
            r == be16(self@, i as int),
    {
        let ghost len = self.data.len();
        let hi = self.data[i];
        let lo = self.data[i + 1];
        (hi as u16) * 256 + (lo as u16)
    }

    /// Writes `v` as a big-endian 16-bit field at positions `i` and `i + 1`.
    pub fn write_u16_be(&mut self, i: usize, v: u16)
        requires
            i + 2 <= old(self)@.len(),
        ensures
            final(self)@ == spliced(old(self)@, i as int, be16_bytes(v)),
            final(self).capacity_spec() == old(self).capacity_spec(),
    {
        let ghost len = self.data.len();
        self.data[i] = (v / 256) as u8;
        self.data[i + 1] = (v % 256) as u8;
        proof {
            assert(self@ =~= spliced(old(self)@, i as int, be16_bytes(v)));
        }
    }

    /// Inserts `n` zero bytes at `offset`, shifting trailing bytes forward.
    /// Fails if `offset` lies outside the occupied bytes, or if the grown
    /// length would exceed the backing capacity; the buffer is then
    /// unchanged.
    pub fn extend(&mut self, offset: usize, n: usize) -> (r: Result<(), BufferError>)
        requires
            old(self).wf(),
        ensures
            final(self).capacity_spec() == old(self).capacity_spec(),
            final(self).wf(),
            (r == Err::<(), BufferError>(BufferError::BufferRangeInvalid)) <==> offset > old(self)@.len(),
            (r == Err::<(), BufferError>(BufferError::BufferCapacityExceeded)) <==> (offset
                <= old(self)@.len() && old(self)@.len() + n > old(self).capacity_spec()),
            (r is Ok) <==> (offset <= old(self)@.len() && old(self)@.len() + n <= old(self).capacity_spec()),
            r is Ok ==> final(self)@ == inserted(old(self)@, offset as int, zero_bytes(n as int)),
            r is Err ==> final(self)@ == old(self)@,
    {
        if offset > self.data.len() {
            return Err(BufferError::BufferRangeInvalid);
        }
        if n > self.cap - self.data.len() {
            return Err(BufferError::BufferCapacityExceeded);
        }
        let mut k: usize = 0;
        while k < n
            invariant
                k <= n,
                offset <= old(self)@.len(),
                old(self)@.len() + n <= old(self).capacity_spec(),
                self.capacity_spec() == old(self).capacity_spec(),
                self@ == inserted(old(self)@, offset as int, zero_bytes(k as int)),
                self@.len() == old(self)@.len() + k,
            decreases n - k,
        {
            self.data.insert(offset, 0);
            k = k + 1;
            proof {
                assert(self@ =~= inserted(old(self)@, offset as int, zero_bytes(k as int)));
            }
        }
        Ok(())
    }

    /// Removes `n` bytes at `offset`, shifting trailing bytes backward.
    /// Fails if the range lies outside the occupied bytes; the buffer is
    /// then unchanged.
    pub fn shrink(&mut self, offset: usize, n: usize) -> (r: Result<(), BufferError>)
        requires
            old(self).wf(),
        ensures
            final(self).capacity_spec() == old(self).capacity_spec(),
            final(self).wf(),
            (r is Ok) <==> offset + n <= old(self)@.len(),
            r is Ok ==> final(self)@ == removed(old(self)@, offset as int, n as int),
            r is Err ==> r == Err::<(), BufferError>(BufferError::BufferRangeInvalid)
                && final(self)@ == old(self)@,
    {
        if offset > self.data.len() || n > self.data.len() - offset {
            return Err(BufferError::BufferRangeInvalid);
        }
        let mut k: usize = 0;
        while k < n
            invariant
                k <= n,
                offset + n <= old(self)@.len(),
                self.capacity_spec() == old(self).capacity_spec(),
                self@ == removed(old(self)@, offset as int, k as int),
                self@.len() == old(self)@.len() - k,
            decreases n - k,
        {
            self.data.remove(offset);
            k = k + 1;
            proof {
                assert(self@ =~= removed(old(self)@, offset as int, k as int));
            }
        }
        Ok(())
    }
}

} // verus!
