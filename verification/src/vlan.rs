//! VLAN tags and the overlays of the chunk region of a tagged frame.
//!
//! The two bytes that follow the source address of an Ethernet frame are
//! its chunk region's base. Read as a big-endian value they are either
//! the payload's protocol identifier (untagged frame) or a tag-protocol
//! marker that announces one (802.1Q) or two (802.1ad) VLAN tags before
//! the protocol identifier. Only one layout is ever active; the types
//! here are the decoded values of each layout, read from explicit byte
//! offsets after the marker has been checked.

use crate::buffer::Mbuf;
use crate::wire::be16;
use vstd::prelude::*;

verus! {

broadcast use crate::buffer::lemma_mbuf_len_fits;

/// A VLAN tag: the tag protocol identifier and the tag control
/// information, both converted to host order.
#[derive(Clone, Copy, Debug, Default, PartialEq, Eq, Structural)]
pub struct VlanTag {
    /// Tag protocol identifier, either the 802.1Q or the 802.1ad marker.
    pub tpid: u16,
    /// Tag control information: 3-bit priority (bits 15 to 13), 1-bit
    /// drop-eligibility (bit 12) and 12-bit VLAN identifier (bits 11 to 0).
    pub tci: u16,
}

impl VlanTag {
    /// A tag from its protocol identifier and control information.
    pub fn new(tpid: u16, tci: u16) -> (r: VlanTag)
        ensures
            r.tpid == tpid,
            r.tci == tci,
    {
        VlanTag { tpid, tci }
    }

    /// The tag protocol identifier, either 802.1Q or 802.1ad.
    pub fn tag_id(&self) -> (r: u16)
        ensures
            r == self.tpid,
    {
        self.tpid
    }

    /// The priority code point.
    pub fn priority(&self) -> (r: u8)
        ensures
            r == self.tci >> 13,
    {
        let tci = self.tci;
        proof {
            assert(tci >> 13 < 256) by (bit_vector);
        }
        (tci >> 13) as u8
    }

    /// Whether the frame is eligible to be dropped in the presence of
    /// congestion.
    pub fn drop_eligible(&self) -> (r: bool)
        ensures
            r == (self.tci & 0x1000 > 0),
    {
        self.tci & 0x1000 > 0
    }

    /// The VLAN identifier.
    pub fn identifier(&self) -> (r: u16)
        ensures
            r == self.tci & 0x0fff,
    {
        self.tci & 0x0fff
    }

    /// The tag decoded from the four bytes at `at`: protocol identifier,
    /// then control information, both big-endian.
    pub fn read_at(buf: &Mbuf, at: usize) -> (r: VlanTag)
        requires
            at + 4 <= buf@.len(),
        ensures
            r.tpid == be16(buf@, at as int),
            r.tci == be16(buf@, at as int + 2),
    {
        VlanTag { tpid: buf.read_u16_be(at), tci: buf.read_u16_be(at + 2) }
    }
}

/// Layout of the chunk region when the marker announces one 802.1Q tag:
/// the tag, then the payload's protocol identifier.
#[derive(Clone, Copy, Debug, Default, PartialEq, Eq, Structural)]
pub struct Chunk802_1q {
    /// The single tag.
    pub tag: VlanTag,
    /// The payload's protocol identifier, converted to host order.
    pub ether_type: u16,
}

impl Chunk802_1q {
    /// The chunk decoded from the six bytes at `at`.
    pub fn read_at(buf: &Mbuf, at: usize) -> (r: Chunk802_1q)
        requires
            at + 6 <= buf@.len(),
        ensures
            r.tag.tpid == be16(buf@, at as int),
            r.tag.tci == be16(buf@, at as int + 2),
            r.ether_type == be16(buf@, at as int + 4),
    {
        Chunk802_1q { tag: VlanTag::read_at(buf, at), ether_type: buf.read_u16_be(at + 4) }
    }
}

/// Layout of the chunk region when the marker announces 802.1ad double
/// tagging: the outer service tag, the inner customer tag, then the
/// payload's protocol identifier.
#[derive(Clone, Copy, Debug, Default, PartialEq, Eq, Structural)]
pub struct Chunk802_1ad {
    /// The outer service tag.
    pub stag: VlanTag,
    /// The inner customer tag.
    pub ctag: VlanTag,
    /// The payload's protocol identifier, converted to host order.
    pub ether_type: u16,
}

impl Chunk802_1ad {
    /// The chunk decoded from the ten bytes at `at`.
    pub fn read_at(buf: &Mbuf, at: usize) -> (r: Chunk802_1ad)
        requires
            at + 10 <= buf@.len(),
        ensures
            r.stag.tpid == be16(buf@, at as int),
            r.stag.tci == be16(buf@, at as int + 2),
            r.ctag.tpid == be16(buf@, at as int + 4),
            r.ctag.tci == be16(buf@, at as int + 6),
            r.ether_type == be16(buf@, at as int + 8),
    {
        Chunk802_1ad {
            stag: VlanTag::read_at(buf, at),
            ctag: VlanTag::read_at(buf, at + 4),
            ether_type: buf.read_u16_be(at + 8),
        }
    }
}

} // verus!
