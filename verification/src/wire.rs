//! Byte-order and byte-splicing helpers over sequences of bytes.
//!
//! Every contract of the codec is stated over `Seq<u8>`, the view of a
//! buffer's occupied bytes. The functions here give those contracts their
//! vocabulary: big-endian 16-bit fields, runs of zero bytes, and the two
//! ways a buffer changes shape (bytes written over a range, bytes removed
//! from a range).

use vstd::prelude::*;

verus! {

/// The big-endian 16-bit value formed by the bytes at `i` and `i + 1`.
pub open spec fn be16(s: Seq<u8>, i: int) -> int
    recommends
        0 <= i,
        i + 2 <= s.len(),
{
    256 * (s[i] as int) + (s[i + 1] as int)
}

/// High byte of a 16-bit value in network byte order.
pub open spec fn be16_hi(v: u16) -> u8 {
    (v / 256) as u8
}

/// Low byte of a 16-bit value in network byte order.
pub open spec fn be16_lo(v: u16) -> u8 {
    (v % 256) as u8
}

/// The two bytes of a 16-bit value in network byte order.
pub open spec fn be16_bytes(v: u16) -> Seq<u8> {
    seq![be16_hi(v), be16_lo(v)]
}

/// A run of `n` zero bytes.
pub open spec fn zero_bytes(n: int) -> Seq<u8> {
    Seq::new(n as nat, |i: int| 0u8)
}

/// `s` with the bytes of `v` written over positions `at .. at + v.len()`.
pub open spec fn spliced(s: Seq<u8>, at: int, v: Seq<u8>) -> Seq<u8>
    recommends
        0 <= at,
        at + v.len() <= s.len(),
{
    s.subrange(0, at) + v + s.skip(at + v.len() as int)
}

/// `s` with the bytes of `v` inserted at `at`, trailing bytes shifted
/// forward.
pub open spec fn inserted(s: Seq<u8>, at: int, v: Seq<u8>) -> Seq<u8>
    recommends
        0 <= at <= s.len(),
{
    s.subrange(0, at) + v + s.skip(at)
}

/// `s` with `n` bytes removed at `at`, trailing bytes shifted back.
pub open spec fn removed(s: Seq<u8>, at: int, n: int) -> Seq<u8>
    recommends
        0 <= at,
        0 <= n,
        at + n <= s.len(),
{
    s.subrange(0, at) + s.skip(at + n)
}

/// Reading `spliced(s, at, v)` anywhere outside `at .. at + v.len()` gives
/// the byte of `s`, and inside it gives the byte of `v`.
pub proof fn lemma_spliced_index(s: Seq<u8>, at: int, v: Seq<u8>)
    requires
        0 <= at,
        at + v.len() <= s.len(),
    ensures
        spliced(s, at, v).len() == s.len(),
        forall|j: int| 0 <= j < at ==> spliced(s, at, v)[j] == s[j],
        forall|j: int| at <= j < at + v.len() ==> spliced(s, at, v)[j] == v[j - at],
        forall|j: int| at + v.len() <= j < s.len() ==> spliced(s, at, v)[j] == s[j],
{
}

} // verus!
