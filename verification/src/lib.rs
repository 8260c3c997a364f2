//! Zero-copy codec for wire-format protocol headers.
//!
//! Protocol headers are parsed, constructed and mutated in place inside a
//! mutable byte buffer ([`buffer::Mbuf`]), without copying payload data.
//! A parsed or pushed header is held as a layer ([`ethernet::Ethernet`]):
//! a view anchored at a byte offset of the buffer it owns, with accessors
//! that read and write the header's fields in network byte order.
//!
//! The concrete codec is an Ethernet II frame with optional single
//! (802.1Q) or double (802.1ad) VLAN tagging: a variable-length header
//! whose instance length is decided at run time by a tag-protocol marker.

pub mod buffer;
pub mod ether_type;
pub mod ethernet;
pub mod hex;
pub mod mac;
pub mod vlan;
pub mod wire;

pub use buffer::BufferError;
pub use buffer::Mbuf;
pub use ether_type::EtherType;
pub use ethernet::Ethernet;
pub use ethernet::EthernetHeader;
pub use mac::MacAddr;
pub use vlan::Chunk802_1ad;
pub use vlan::Chunk802_1q;
pub use vlan::VlanTag;
