//! The 16-bit protocol identifier of an Ethernet frame's payload.

use crate::hex::hex_byte_chars;
use crate::hex::push_hex_byte;
use vstd::prelude::*;
use vstd::string::StringExecFns;

verus! {

/// Address Resolution Protocol.
pub const ETHER_TYPE_ARP: u16 = 0x0806;

/// Internet Protocol version 4.
pub const ETHER_TYPE_IPV4: u16 = 0x0800;

/// Internet Protocol version 6.
pub const ETHER_TYPE_IPV6: u16 = 0x86DD;

/// The protocol identifier of the Ethernet frame payload.
#[derive(Clone, Copy, Debug, Default, PartialEq, Eq, Hash, Structural)]
pub struct EtherType(pub u16);

/// The display text of a protocol identifier: a name for the known
/// protocols, otherwise `0x` and four lower-case hexadecimal digits.
pub open spec fn ether_type_chars(v: u16) -> Seq<char> {
    if v == 0x0806 {
        "ARP"@
    } else if v == 0x0800 {
        "IPv4"@
    } else if v == 0x86DD {
        "IPv6"@
    } else {
        "0x"@ + hex_byte_chars((v / 256) as u8) + hex_byte_chars((v % 256) as u8)
    }
}

impl EtherType {
    /// A protocol identifier from its 16-bit value.
    pub fn new(value: u16) -> (r: EtherType)
        ensures
            r.0 == value,
    {
        EtherType(value)
    }

    /// The display text of the identifier, such as `ARP` or `0x0000`.
    pub fn name(&self) -> (r: String)
        ensures
            r@ == ether_type_chars(self.0),
    {
        if self.0 == ETHER_TYPE_ARP {
            String::from_str("ARP")
        } else if self.0 == ETHER_TYPE_IPV4 {
            String::from_str("IPv4")
        } else if self.0 == ETHER_TYPE_IPV6 {
            String::from_str("IPv6")
        } else {
            let mut out = String::from_str("0x");
            push_hex_byte(&mut out, (self.0 / 256) as u8);
            push_hex_byte(&mut out, (self.0 % 256) as u8);
            proof {
                assert(out@ =~= ether_type_chars(self.0));
            }
            out
        }
    }
}

} // verus!
