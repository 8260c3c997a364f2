//! The Ethernet II frame layer: the concrete header codec.
//!
//! An [`Ethernet`] value is a layer: a view of an Ethernet frame header
//! anchored at a byte offset of the buffer it owns. It is created by
//! [`Ethernet::parse`] (attaching to bytes already present, validating
//! length) or [`Ethernet::push`] (inserting a zero-initialized nominal
//! header, growing the buffer), and consumed by [`Ethernet::remove`]
//! (shrinking the buffer by the instance length) or [`Ethernet::deparse`]
//! (returning the buffer unchanged).
//!
//! The header's instance length is not fixed: the tag-protocol marker at
//! the chunk base decides whether one or two VLAN tags sit between the
//! addresses and the payload's protocol identifier. Every accessor
//! re-reads the marker before touching the chunk region, so outside
//! mutation of the marker bytes never leaves stale state behind.

use crate::buffer::BufferError;
use crate::buffer::Mbuf;
use crate::ether_type::EtherType;
use crate::ether_type::ether_type_chars;
use crate::mac::MacAddr;
use crate::mac::mac_chars;
use crate::vlan::Chunk802_1ad;
use crate::vlan::Chunk802_1q;
use crate::wire::be16;
use crate::wire::be16_bytes;
use crate::wire::inserted;
use crate::wire::lemma_spliced_index;
use crate::wire::removed;
use crate::wire::spliced;
use crate::wire::zero_bytes;
use vstd::prelude::*;
use vstd::string::StringExecFns;

verus! {

broadcast use crate::buffer::lemma_mbuf_len_fits;

/// Tag protocol identifier announcing a single 802.1Q tag.
pub const VLAN_802_1Q: u16 = 0x8100;

/// Tag protocol identifier announcing 802.1ad double tagging.
pub const VLAN_802_1AD: u16 = 0x88a8;

/// Nominal size of an Ethernet header: the minimum, without any tags.
pub const ETHERNET_NOMINAL_SIZE: usize = 14;

/// Size of one VLAN tag: tag protocol identifier and tag control
/// information.
pub const VLAN_TAG_SIZE: usize = 4;

/// Whether a 16-bit value is one of the two tag-protocol markers.
pub open spec fn is_tag_marker(v: int) -> bool {
    v == VLAN_802_1Q as int || v == VLAN_802_1AD as int
}

/// The tag-protocol marker of the frame at `off`: the big-endian value of
/// the two bytes at the chunk base, `off + 12`.
pub open spec fn marker_of(s: Seq<u8>, off: int) -> int
    recommends
        0 <= off,
        off + 14 <= s.len(),
{
    be16(s, off + 12)
}

/// Bytes the header instance at `off` occupies: 14 untagged, 18 with one
/// 802.1Q tag, 22 with 802.1ad double tagging.
pub open spec fn header_len_of(s: Seq<u8>, off: int) -> int {
    if marker_of(s, off) == VLAN_802_1Q as int {
        18
    } else if marker_of(s, off) == VLAN_802_1AD as int {
        22
    } else {
        14
    }
}

/// Position of the payload protocol identifier of the frame at `off`:
/// the last two bytes of the header instance.
pub open spec fn ether_type_offset(s: Seq<u8>, off: int) -> int {
    off + header_len_of(s, off) - 2
}

/// The payload protocol identifier of the frame at `off`, read past any
/// tags the marker announces.
pub open spec fn ether_type_of(s: Seq<u8>, off: int) -> int {
    be16(s, ether_type_offset(s, off))
}

/// `s` with the source and destination addresses of the frame at `off`
/// exchanged; every other byte keeps its value.
pub open spec fn addresses_swapped(s: Seq<u8>, off: int) -> Seq<u8>
    recommends
        0 <= off,
        off + 12 <= s.len(),
{
    Seq::new(
        s.len(),
        |j: int|
            if off <= j < off + 6 {
                s[j + 6]
            } else if off + 6 <= j < off + 12 {
                s[j - 6]
            } else {
                s[j]
            },
    )
}

/// Bytes a parse at the start of `s` requires before it can succeed: the
/// nominal 14 until the marker is readable, then the instance length the
/// marker announces.
pub open spec fn parse_required_len(s: Seq<u8>) -> int {
    if s.len() < 14 {
        14
    } else {
        header_len_of(s, 0)
    }
}

/// The nominal fixed-layout Ethernet header as a value: destination
/// address, source address and the payload's protocol identifier, the
/// last converted to host order. Tags, when present, are part of the
/// instance, not of this nominal value.
#[derive(Clone, Copy, Debug, PartialEq, Eq, Structural)]
pub struct EthernetHeader {
    /// Destination address.
    pub dst: MacAddr,
    /// Source address.
    pub src: MacAddr,
    /// Payload protocol identifier, host order.
    pub ether_type: u16,
}

impl EthernetHeader {
    /// Nominal size of the header in bytes. The instance length of a
    /// parsed frame may be larger when the marker announces tags;
    /// [`Ethernet::header_len`] reports that length.
    pub fn size_of() -> (r: usize)
        ensures
            r == ETHERNET_NOMINAL_SIZE,
    {
        ETHERNET_NOMINAL_SIZE
    }

    /// The 14 bytes of the nominal header in wire order.
    pub open spec fn bytes(self) -> Seq<u8> {
        self.dst@ + self.src@ + be16_bytes(self.ether_type)
    }

    /// The nominal header decoded from the 14 bytes at `at`.
    pub fn read_at(buf: &Mbuf, at: usize) -> (r: EthernetHeader)
        requires
            at + 14 <= buf@.len(),
        ensures
            r.dst@ == buf@.subrange(at as int, at as int + 6),
            r.src@ == buf@.subrange(at as int + 6, at as int + 12),
            r.ether_type == be16(buf@, at as int + 12),
    {
        EthernetHeader {
            dst: MacAddr::read_at(buf, at),
            src: MacAddr::read_at(buf, at + 6),
            ether_type: buf.read_u16_be(at + 12),
        }
    }

    /// Writes the 14 bytes of the nominal header over the bytes at `at`.
    pub fn write_at(&self, buf: &mut Mbuf, at: usize)
        requires
            at + 14 <= old(buf)@.len(),
        ensures
            final(buf)@ == spliced(old(buf)@, at as int, self.bytes()),
            final(buf).capacity_spec() == old(buf).capacity_spec(),
    {
        self.dst.write_at(buf, at);
        self.src.write_at(buf, at + 6);
        buf.write_u16_be(at + 12, self.ether_type);
        proof {
            let s0 = old(buf)@;
            let s1 = spliced(s0, at as int, self.dst@);
            let s2 = spliced(s1, at as int + 6, self.src@);
            lemma_spliced_index(s0, at as int, self.dst@);
            lemma_spliced_index(s1, at as int + 6, self.src@);
            lemma_spliced_index(s2, at as int + 12, be16_bytes(self.ether_type));
            lemma_spliced_index(s0, at as int, self.bytes());
            assert(buf@ =~= spliced(s0, at as int, self.bytes()));
        }
    }
}

impl Default for EthernetHeader {
    /// The all-zero header that a fresh push writes.
    fn default() -> (r: EthernetHeader)
        ensures
            r.bytes() == zero_bytes(14),
    {
        let r = EthernetHeader {
            dst: MacAddr::new(0, 0, 0, 0, 0, 0),
            src: MacAddr::new(0, 0, 0, 0, 0, 0),
            ether_type: 0,
        };
        proof {
            assert(r.bytes() =~= zero_bytes(14));
        }
        r
    }
}

/// An Ethernet II frame layer: a header view anchored at a byte offset of
/// the buffer it owns. The payload may have a size up to the MTU; the
/// frame check sequence that follows the payload is handled below this
/// layer and is not included.
#[derive(Debug)]
pub struct Ethernet {
    mbuf: Mbuf,
    offset: usize,
}

impl Ethernet {
    /// The occupied bytes of the underlying buffer.
    pub closed spec fn buf(self) -> Seq<u8> {
        self.mbuf@
    }

    /// The byte offset the header is anchored at.
    pub closed spec fn off(self) -> int {
        self.offset as int
    }

    /// Backing capacity of the underlying buffer.
    pub closed spec fn buf_capacity(self) -> int {
        self.mbuf.capacity_spec()
    }

    /// The underlying buffer is well formed.
    pub closed spec fn mbuf_wf(self) -> bool {
        self.mbuf.wf()
    }

    /// Bytes this header instance occupies, as the marker announces them.
    pub open spec fn header_len_spec(self) -> int {
        header_len_of(self.buf(), self.off())
    }

    /// Well-formed: the whole header instance, tags included, lies within
    /// the occupied bytes. Established by `parse` and `push`, preserved by
    /// every accessor.
    pub open spec fn wf(self) -> bool {
        &&& self.mbuf_wf()
        &&& 0 <= self.off()
        &&& self.off() + self.header_len_spec() <= self.buf().len()
    }

    /// The tag-protocol marker at the chunk base.
    fn vlan_marker(&self) -> (r: u16)
        requires
            self.off() + 14 <= self.buf().len(),
        ensures
            r == marker_of(self.buf(), self.off()),
    {
        self.mbuf.read_u16_be(self.offset + 12)
    }

    /// Whether the frame carries a single 802.1Q tag.
    pub fn is_vlan_802_1q(&self) -> (r: bool)
        requires
            self.off() + 14 <= self.buf().len(),
        ensures
            r == (marker_of(self.buf(), self.off()) == VLAN_802_1Q as int),
    {
        self.vlan_marker() == VLAN_802_1Q
    }

    /// Whether the frame is 802.1ad double tagged.
    pub fn is_vlan_802_1ad(&self) -> (r: bool)
        requires
            self.off() + 14 <= self.buf().len(),
        ensures
            r == (marker_of(self.buf(), self.off()) == VLAN_802_1AD as int),
    {
        self.vlan_marker() == VLAN_802_1AD
    }

    /// Bytes this header instance occupies: computed from the marker on
    /// every call, never stored. 14 untagged, 18 single tagged, 22 double
    /// tagged.
    pub fn header_len(&self) -> (r: usize)
        requires
            self.off() + 14 <= self.buf().len(),
        ensures
            r == self.header_len_spec(),
    {
        if self.is_vlan_802_1q() {
            ETHERNET_NOMINAL_SIZE + VLAN_TAG_SIZE
        } else if self.is_vlan_802_1ad() {
            ETHERNET_NOMINAL_SIZE + 2 * VLAN_TAG_SIZE
        } else {
            ETHERNET_NOMINAL_SIZE
        }
    }

    /// The byte offset the header is anchored at.
    pub fn offset(&self) -> (r: usize)
        ensures
            r == self.off(),
    {
        self.offset
    }

    /// Occupied bytes from the header's anchor to the end of the buffer:
    /// the header instance and everything it encapsulates.
    pub fn len(&self) -> (r: usize)
        requires
            self.wf(),
        ensures
            r == self.buf().len() - self.off(),
    {
        self.mbuf.data_len() - self.offset
    }

    /// A view of the underlying buffer.
    pub fn envelope(&self) -> (r: &Mbuf)
        ensures
            r@ == self.buf(),
            r.capacity_spec() == self.buf_capacity(),
    {
        &self.mbuf
    }

    /// The nominal header decoded at the anchor: addresses and the raw
    /// chunk base field. When the frame is tagged, the last field is the
    /// tag-protocol marker, not the payload's protocol identifier;
    /// [`Ethernet::ether_type`] resolves the overlay.
    pub fn header(&self) -> (r: EthernetHeader)
        requires
            self.wf(),
        ensures
            r.dst@ == self.buf().subrange(self.off(), self.off() + 6),
            r.src@ == self.buf().subrange(self.off() + 6, self.off() + 12),
            r.ether_type == marker_of(self.buf(), self.off()),
    {
        EthernetHeader::read_at(&self.mbuf, self.offset)
    }

    /// Parses the frame at the start of `envelope`. After the nominal
    /// header is established, the instance length is re-derived from the
    /// tag-protocol marker, and the parse fails with `OutOfBuffer`
    /// (required, available) whenever the occupied bytes end before the
    /// instance does — acting on the tag overlay without this check could
    /// read past the initialized bytes.
    pub fn parse(envelope: Mbuf) -> (r: Result<Ethernet, BufferError>)
        requires
            envelope.wf(),
        ensures
            (r is Ok) <==> parse_required_len(envelope@) <= envelope@.len(),
            r matches Ok(l) ==> l.buf() == envelope@ && l.off() == 0 && l.wf()
                && l.buf_capacity() == envelope.capacity_spec(),
            r is Err ==> r == Err::<Ethernet, BufferError>(
                BufferError::OutOfBuffer(
                    parse_required_len(envelope@) as usize,
                    envelope@.len() as usize,
                ),
            ),
    {
        let available = envelope.data_len();
        if available < 14 {
            return Err(BufferError::OutOfBuffer(14, available));
        }
        let layer = Ethernet { mbuf: envelope, offset: 0 };
        let required = layer.header_len();
        if available < required {
            return Err(BufferError::OutOfBuffer(required, available));
        }
        Ok(layer)
    }

    /// Pushes a new frame onto the front of `envelope`: grows the buffer
    /// by the nominal size and writes an all-zero header there. Pushing
    /// never creates VLAN tags; the new instance length is the nominal 14.
    /// Fails with `BufferCapacityExceeded` when the grown length would not
    /// fit the backing capacity.
    pub fn push(envelope: Mbuf) -> (r: Result<Ethernet, BufferError>)
        requires
            envelope.wf(),
        ensures
            (r is Ok) <==> envelope@.len() + 14 <= envelope.capacity_spec(),
            r matches Ok(l) ==> l.buf() == inserted(envelope@, 0, zero_bytes(14)) && l.off() == 0
                && l.wf() && l.header_len_spec() == 14 && l.buf_capacity()
                == envelope.capacity_spec(),
            r is Err ==> r == Err::<Ethernet, BufferError>(BufferError::BufferCapacityExceeded),
    {
        let mut mbuf = envelope;
        match mbuf.extend(0, 14) {
            Ok(()) => {}
            Err(e) => {
                return Err(e);
            }
        }
        let header = EthernetHeader::default();
        header.write_at(&mut mbuf, 0);
        let layer = Ethernet { mbuf, offset: 0 };
        proof {
            let grown = inserted(envelope@, 0, zero_bytes(14));
            lemma_spliced_index(grown, 0, header.bytes());
            assert(layer.buf() =~= grown);
            assert(marker_of(layer.buf(), 0) == 0);
        }
        Ok(layer)
    }

    /// Removes this header from the buffer: shrinks it by exactly the
    /// instance length at the anchor and returns the buffer. Cannot fail
    /// while the layer is well formed.
    pub fn remove(self) -> (r: Result<Mbuf, BufferError>)
        requires
            self.wf(),
        ensures
            r is Ok,
            r matches Ok(m) ==> m@ == removed(self.buf(), self.off(), self.header_len_spec())
                && m.capacity_spec() == self.buf_capacity() && m.wf(),
    {
        let len = self.header_len();
        let offset = self.offset;
        let Ethernet { mbuf: mut mbuf, offset: _ } = self;
        match mbuf.shrink(offset, len) {
            Ok(()) => Ok(mbuf),
            Err(e) => Err(e),
        }
    }

    /// Detaches the layer, returning the buffer without changing a byte.
    pub fn deparse(self) -> (r: Mbuf)
        ensures
            r@ == self.buf(),
            r.capacity_spec() == self.buf_capacity(),
            self.wf() ==> r.wf(),
    {
        self.mbuf
    }

    /// The destination address: the six bytes at the anchor, verbatim.
    pub fn dst(&self) -> (r: MacAddr)
        requires
            self.wf(),
        ensures
            r@ == self.buf().subrange(self.off(), self.off() + 6),
    {
        MacAddr::read_at(&self.mbuf, self.offset)
    }

    /// The source address: the six bytes after the destination, verbatim.
    pub fn src(&self) -> (r: MacAddr)
        requires
            self.wf(),
        ensures
            r@ == self.buf().subrange(self.off() + 6, self.off() + 12),
    {
        MacAddr::read_at(&self.mbuf, self.offset + 6)
    }

    /// Overwrites the destination address. No other byte changes, so the
    /// marker, the instance length and well-formedness are preserved.
    pub fn set_dst(&mut self, dst: MacAddr)
        requires
            old(self).wf(),
        ensures
            final(self).wf(),
            final(self).off() == old(self).off(),
            final(self).buf_capacity() == old(self).buf_capacity(),
            final(self).buf() == spliced(old(self).buf(), old(self).off(), dst@),
            final(self).header_len_spec() == old(self).header_len_spec(),
    {
        let at = self.offset;
        dst.write_at(&mut self.mbuf, at);
        proof {
            lemma_spliced_index(old(self).buf(), old(self).off(), dst@);
            assert(marker_of(self.buf(), self.off()) == marker_of(
                old(self).buf(),
                old(self).off(),
            ));
        }
    }

    /// Overwrites the source address. No other byte changes, so the
    /// marker, the instance length and well-formedness are preserved.
    pub fn set_src(&mut self, src: MacAddr)
        requires
            old(self).wf(),
        ensures
            final(self).wf(),
            final(self).off() == old(self).off(),
            final(self).buf_capacity() == old(self).buf_capacity(),
            final(self).buf() == spliced(old(self).buf(), old(self).off() + 6, src@),
            final(self).header_len_spec() == old(self).header_len_spec(),
    {
        let at = self.offset + 6;
        src.write_at(&mut self.mbuf, at);
        proof {
            lemma_spliced_index(old(self).buf(), old(self).off() + 6, src@);
            assert(marker_of(self.buf(), self.off()) == marker_of(
                old(self).buf(),
                old(self).off(),
            ));
        }
    }

    /// Exchanges the source and destination addresses, as a response
    /// frame is addressed from a received one.
    pub fn swap_addresses(&mut self)
        requires
            old(self).wf(),
        ensures
            final(self).wf(),
            final(self).off() == old(self).off(),
            final(self).buf_capacity() == old(self).buf_capacity(),
            final(self).buf() == addresses_swapped(old(self).buf(), old(self).off()),
            final(self).header_len_spec() == old(self).header_len_spec(),
    {
        let src = self.src();
        let dst = self.dst();
        self.set_src(dst);
        self.set_dst(src);
        proof {
            let s0 = old(self).buf();
            let off = old(self).off();
            lemma_spliced_index(s0, off + 6, s0.subrange(off, off + 6));
            lemma_spliced_index(
                spliced(s0, off + 6, s0.subrange(off, off + 6)),
                off,
                s0.subrange(off + 6, off + 12),
            );
            assert(self.buf() =~= addresses_swapped(s0, off));
            assert(marker_of(self.buf(), off) == marker_of(s0, off));
        }
    }

    /// The payload's protocol identifier, read from behind any tags the
    /// marker announces: the marker is re-read on every call, and the
    /// matching chunk layout decoded from explicit byte offsets.
    pub fn ether_type(&self) -> (r: EtherType)
        requires
            self.wf(),
        ensures
            r.0 == ether_type_of(self.buf(), self.off()),
    {
        let marker = self.vlan_marker();
        let raw: u16 = if marker == VLAN_802_1Q {
            let chunk = Chunk802_1q::read_at(&self.mbuf, self.offset + 12);
            chunk.ether_type
        } else if marker == VLAN_802_1AD {
            let chunk = Chunk802_1ad::read_at(&self.mbuf, self.offset + 12);
            chunk.ether_type
        } else {
            marker
        };
        EtherType::new(raw)
    }

    /// Writes the payload's protocol identifier into the sub-field the
    /// current marker selects. On an untagged frame the value lands on
    /// the marker bytes themselves, so writing a tag-protocol marker
    /// value there changes the frame's layout; every guarantee past the
    /// raw byte change therefore holds only when the frame is tagged or
    /// the value is not a marker.
    pub fn set_ether_type(&mut self, ether_type: EtherType)
        requires
            old(self).wf(),
        ensures
            final(self).off() == old(self).off(),
            final(self).buf_capacity() == old(self).buf_capacity(),
            final(self).buf() == spliced(
                old(self).buf(),
                ether_type_offset(old(self).buf(), old(self).off()),
                be16_bytes(ether_type.0),
            ),
            final(self).buf().subrange(old(self).off(), old(self).off() + 12)
                == old(self).buf().subrange(old(self).off(), old(self).off() + 12),
            is_tag_marker(marker_of(old(self).buf(), old(self).off())) || !is_tag_marker(
                ether_type.0 as int,
            ) ==> final(self).wf() && final(self).header_len_spec() == old(self).header_len_spec()
                && ether_type_of(final(self).buf(), final(self).off()) == ether_type.0,
    {
        let marker = self.vlan_marker();
        let at: usize = if marker == VLAN_802_1Q {
            self.offset + 16
        } else if marker == VLAN_802_1AD {
            self.offset + 20
        } else {
            self.offset + 12
        };
        self.mbuf.write_u16_be(at, ether_type.0);
        proof {
            let s0 = old(self).buf();
            let off = old(self).off();
            lemma_spliced_index(s0, at as int, be16_bytes(ether_type.0));
            assert(self.buf().subrange(off, off + 12) =~= s0.subrange(off, off + 12));
            assert(256 * (be16_bytes(ether_type.0)[0] as int) + (be16_bytes(ether_type.0)[1] as int)
                == ether_type.0);
            if is_tag_marker(marker_of(s0, off)) {
                assert(marker_of(self.buf(), off) == marker_of(s0, off));
            }
        }
    }

    /// A one-line description of the frame: addresses, payload protocol
    /// and whether the frame is tagged.
    pub fn describe(&self) -> (r: String)
        requires
            self.wf(),
        ensures
            r@ == description_chars(self.buf(), self.off()),
    {
        let mut out = String::from_str("ethernet { src: ");
        let src = self.src().to_hex_string();
        out.append(src.as_str());
        out.append(", dst: ");
        let dst = self.dst().to_hex_string();
        out.append(dst.as_str());
        out.append(", ether_type: ");
        let name = self.ether_type().name();
        out.append(name.as_str());
        out.append(", vlan: ");
        if self.is_vlan_802_1q() || self.is_vlan_802_1ad() {
            out.append("true");
        } else {
            out.append("false");
        }
        out.append(" }");
        out
    }
}

/// The text of a bool.
pub open spec fn bool_chars(b: bool) -> Seq<char> {
    if b {
        "true"@
    } else {
        "false"@
    }
}

/// The text [`Ethernet::describe`] renders for the frame at `off`.
pub open spec fn description_chars(s: Seq<u8>, off: int) -> Seq<char> {
    "ethernet { src: "@ + mac_chars(s.subrange(off + 6, off + 12)) + ", dst: "@ + mac_chars(
        s.subrange(off, off + 6),
    ) + ", ether_type: "@ + ether_type_chars(ether_type_of(s, off) as u16) + ", vlan: "@
        + bool_chars(is_tag_marker(marker_of(s, off))) + " }"@
}

/// Law: an untagged frame occupies the nominal 14 bytes and its payload
/// protocol identifier is the big-endian field at the chunk base itself,
/// 12 bytes past the anchor.
pub proof fn lemma_untagged_layout(s: Seq<u8>, off: int)
    requires
        !is_tag_marker(marker_of(s, off)),
    ensures
        header_len_of(s, off) == 14,
        ether_type_of(s, off) == be16(s, off + 12),
{
}

/// Law: a frame whose marker is the 802.1Q tag protocol identifier
/// occupies 18 bytes and its payload protocol identifier is the
/// big-endian field 16 bytes past the anchor, behind the single tag.
pub proof fn lemma_802_1q_layout(s: Seq<u8>, off: int)
    requires
        marker_of(s, off) == VLAN_802_1Q as int,
    ensures
        header_len_of(s, off) == 18,
        ether_type_of(s, off) == be16(s, off + 16),
{
}

/// Law: a frame whose marker is the 802.1ad tag protocol identifier
/// occupies 22 bytes and its payload protocol identifier is the
/// big-endian field 20 bytes past the anchor, behind both tags.
pub proof fn lemma_802_1ad_layout(s: Seq<u8>, off: int)
    requires
        marker_of(s, off) == VLAN_802_1AD as int,
    ensures
        header_len_of(s, off) == 22,
        ether_type_of(s, off) == be16(s, off + 20),
{
}

/// Law: exchanging the source and destination addresses is its own
/// inverse — swapping twice restores every byte.
pub proof fn lemma_swap_addresses_involutive(s: Seq<u8>, off: int)
    requires
        0 <= off,
        off + 12 <= s.len(),
    ensures
        addresses_swapped(addresses_swapped(s, off), off) == s,
{
    assert(addresses_swapped(addresses_swapped(s, off), off) =~= s);
}

/// Law: pushing a nominal header onto a buffer and removing it restores
/// the original bytes — the all-zero chunk carries no marker, so the
/// instance length of the pushed header is the nominal 14.
pub proof fn lemma_push_then_remove(s: Seq<u8>)
    ensures
        header_len_of(inserted(s, 0, zero_bytes(14)), 0) == 14,
        removed(inserted(s, 0, zero_bytes(14)), 0, header_len_of(inserted(s, 0, zero_bytes(14)), 0))
            == s,
{
    let t = inserted(s, 0, zero_bytes(14));
    assert(t[12] == 0);
    assert(t[13] == 0);
    assert(marker_of(t, 0) == 0);
    assert(removed(t, 0, 14) =~= s);
}

} // verus!
