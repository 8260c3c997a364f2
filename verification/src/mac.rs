//! The 48-bit hardware address carried by an Ethernet frame.

use crate::buffer::Mbuf;
use crate::hex::hex_byte_chars;
use crate::hex::push_hex_byte;
use crate::wire::spliced;
use vstd::prelude::*;
use vstd::string::StringExecFns;

verus! {

broadcast use crate::buffer::lemma_mbuf_len_fits;

/// A 48-bit hardware address, kept byte for byte as it stands on the
/// wire; no byte-order conversion applies. Its view is the sequence of
/// its six bytes.
#[derive(Clone, Copy, Debug, PartialEq, Eq, Structural)]
pub struct MacAddr {
    pub b0: u8,
    pub b1: u8,
    pub b2: u8,
    pub b3: u8,
    pub b4: u8,
    pub b5: u8,
}

impl View for MacAddr {
    type V = Seq<u8>;

    open spec fn view(&self) -> Seq<u8> {
        seq![self.b0, self.b1, self.b2, self.b3, self.b4, self.b5]
    }
}

/// The canonical text of a six-byte address: pairs of lower-case
/// hexadecimal digits joined by colons.
pub open spec fn mac_chars(s: Seq<u8>) -> Seq<char>
    recommends
        s.len() == 6,
{
    hex_byte_chars(s[0]) + seq![':'] + hex_byte_chars(s[1]) + seq![':'] + hex_byte_chars(s[2])
        + seq![':'] + hex_byte_chars(s[3]) + seq![':'] + hex_byte_chars(s[4]) + seq![':']
        + hex_byte_chars(s[5])
}

impl MacAddr {
    /// An address from its six bytes, most significant first.
    pub fn new(b0: u8, b1: u8, b2: u8, b3: u8, b4: u8, b5: u8) -> (r: MacAddr)
        ensures
            r@ == seq![b0, b1, b2, b3, b4, b5],
    {
        MacAddr { b0, b1, b2, b3, b4, b5 }
    }

    /// The address read verbatim from the six bytes at `at`.
    pub fn read_at(buf: &Mbuf, at: usize) -> (r: MacAddr)
        requires
            at + 6 <= buf@.len(),
        ensures
            r@ == buf@.subrange(at as int, at as int + 6),
    {
        let r = MacAddr {
            b0: buf.read_u8(at),
            b1: buf.read_u8(at + 1),
            b2: buf.read_u8(at + 2),
            b3: buf.read_u8(at + 3),
            b4: buf.read_u8(at + 4),
            b5: buf.read_u8(at + 5),
        };
        proof {
            assert(r@ =~= buf@.subrange(at as int, at as int + 6));
        }
        r
    }

    /// Writes the address verbatim over the six bytes at `at`.
    pub fn write_at(&self, buf: &mut Mbuf, at: usize)
        requires
            at + 6 <= old(buf)@.len(),
        ensures
            final(buf)@ == spliced(old(buf)@, at as int, self@),
            final(buf).capacity_spec() == old(buf).capacity_spec(),
    {
        buf.write_u8(at, self.b0);
        buf.write_u8(at + 1, self.b1);
        buf.write_u8(at + 2, self.b2);
        buf.write_u8(at + 3, self.b3);
        buf.write_u8(at + 4, self.b4);
        buf.write_u8(at + 5, self.b5);
        proof {
            assert(buf@ =~= spliced(old(buf)@, at as int, self@));
        }
    }

    /// The canonical text of the address, such as `00:00:00:00:00:01`.
    pub fn to_hex_string(&self) -> (r: String)
        ensures
            r@ == mac_chars(self@),
    {
        let mut out = String::new();
        push_hex_byte(&mut out, self.b0);
        out.append(":");
        push_hex_byte(&mut out, self.b1);
        out.append(":");
        push_hex_byte(&mut out, self.b2);
        out.append(":");
        push_hex_byte(&mut out, self.b3);
        out.append(":");
        push_hex_byte(&mut out, self.b4);
        out.append(":");
        push_hex_byte(&mut out, self.b5);
        proof {
            reveal_strlit(":");
            assert(":"@ =~= seq![':']);
            assert(out@ =~= mac_chars(self@));
        }
        out
    }
}

} // verus!
