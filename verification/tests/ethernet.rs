use etherframe::ether_type::ETHER_TYPE_ARP;
use etherframe::ether_type::ETHER_TYPE_IPV4;
use etherframe::ether_type::ETHER_TYPE_IPV6;
use etherframe::BufferError;
use etherframe::EtherType;
use etherframe::Ethernet;
use etherframe::EthernetHeader;
use etherframe::MacAddr;
use etherframe::Mbuf;

/// A 64-byte untagged IPv4 frame: dst 00:00:00:00:00:01, src
/// 00:00:00:00:00:02, EtherType 0x0800, zero payload.
fn ipv4_frame() -> Vec<u8> {
    let mut bytes = vec![
        0x00, 0x00, 0x00, 0x00, 0x00, 0x01, // dst
        0x00, 0x00, 0x00, 0x00, 0x00, 0x02, // src
        0x08, 0x00, // ether type
    ];
    bytes.resize(64, 0x00);
    bytes
}

/// A 64-byte 802.1Q tagged ARP frame: one tag (TCI 0x007b), inner
/// EtherType 0x0806.
fn vlan_802_1q_frame() -> Vec<u8> {
    let mut bytes = vec![
        0x00, 0x00, 0x00, 0x00, 0x00, 0x01, // dst
        0x00, 0x00, 0x00, 0x00, 0x00, 0x02, // src
        0x81, 0x00, // tpid
        0x00, 0x7b, // tci
        0x08, 0x06, // ether type
        0x00, 0x01, 0x08, 0x00, 0x06, 0x04, 0x00, 0x02, 0x00, 0x19, 0x06, 0xea, 0xb8, 0xc1, 0xc0,
        0xa8, 0x7b, 0x01, 0xff, 0xff, 0xff, 0xff, 0xff, 0xff, 0xc0, 0xa8, 0x7b, 0x01,
    ];
    bytes.resize(64, 0x00);
    bytes
}

/// A 68-byte 802.1ad double-tagged ARP frame: outer tag 0x88a8 (TCI
/// 0x001e), inner tag 0x8100 (TCI 0x2065), EtherType 0x0806.
fn vlan_802_1ad_frame() -> Vec<u8> {
    let mut bytes = vec![
        0x00, 0x00, 0x00, 0x00, 0x00, 0x01, // dst
        0x00, 0x00, 0x00, 0x00, 0x00, 0x02, // src
        0x88, 0xa8, // outer tpid
        0x00, 0x1e, // outer tci
        0x81, 0x00, // inner tpid
        0x20, 0x65, // inner tci
        0x08, 0x06, // ether type
        0x00, 0x01, 0x08, 0x00, 0x06, 0x04, 0x00, 0x02, 0x00, 0x19, 0x06, 0xea, 0xb8, 0xc1, 0xc0,
        0xa8, 0x7b, 0x01, 0xff, 0xff, 0xff, 0xff, 0xff, 0xff, 0xc0, 0xa8, 0x7b, 0x01,
    ];
    bytes.resize(68, 0x00);
    bytes
}

#[test]
fn size_of_ethernet_header() {
    assert_eq!(14, EthernetHeader::size_of());
}

#[test]
fn ether_type_to_string() {
    assert_eq!("ARP", EtherType::new(ETHER_TYPE_ARP).name());
    assert_eq!("IPv4", EtherType::new(ETHER_TYPE_IPV4).name());
    assert_eq!("IPv6", EtherType::new(ETHER_TYPE_IPV6).name());
    assert_eq!("0x0000", EtherType::new(0).name());
}

#[test]
fn parse_ethernet_packet() {
    let packet = Mbuf::from_bytes(&ipv4_frame()).unwrap();
    let ethernet = Ethernet::parse(packet).unwrap();

    assert_eq!("00:00:00:00:00:01", ethernet.dst().to_hex_string());
    assert_eq!("00:00:00:00:00:02", ethernet.src().to_hex_string());
    assert_eq!(EtherType::new(0x0800), ethernet.ether_type());
}

#[test]
fn parse_vlan_802_1q_packet() {
    let packet = Mbuf::from_bytes(&vlan_802_1q_frame()).unwrap();
    let ethernet = Ethernet::parse(packet).unwrap();

    assert_eq!("00:00:00:00:00:01", ethernet.dst().to_hex_string());
    assert_eq!("00:00:00:00:00:02", ethernet.src().to_hex_string());
    assert!(ethernet.is_vlan_802_1q());
    assert_eq!(EtherType::new(0x0806), ethernet.ether_type());
    assert_eq!(18, ethernet.header_len());
}

#[test]
fn parse_vlan_802_1ad_packet() {
    let packet = Mbuf::from_bytes(&vlan_802_1ad_frame()).unwrap();
    let ethernet = Ethernet::parse(packet).unwrap();

    assert_eq!("00:00:00:00:00:01", ethernet.dst().to_hex_string());
    assert_eq!("00:00:00:00:00:02", ethernet.src().to_hex_string());
    assert!(ethernet.is_vlan_802_1ad());
    assert_eq!(EtherType::new(0x0806), ethernet.ether_type());
    assert_eq!(22, ethernet.header_len());
}

#[test]
fn swap_addresses() {
    let packet = Mbuf::from_bytes(&ipv4_frame()).unwrap();
    let mut ethernet = Ethernet::parse(packet).unwrap();
    ethernet.swap_addresses();

    assert_eq!("00:00:00:00:00:02", ethernet.dst().to_hex_string());
    assert_eq!("00:00:00:00:00:01", ethernet.src().to_hex_string());
}

#[test]
fn push_ethernet_packet() {
    let packet = Mbuf::new();
    let ethernet = Ethernet::push(packet).unwrap();

    assert_eq!(EthernetHeader::size_of(), ethernet.len());
}

#[test]
fn parse_arp_packet() {
    let mut bytes = ipv4_frame();
    bytes[12] = 0x08;
    bytes[13] = 0x06;
    let packet = Mbuf::from_bytes(&bytes).unwrap();
    let ethernet = Ethernet::parse(packet).unwrap();

    assert_eq!("00:00:00:00:00:01", ethernet.dst().to_hex_string());
    assert_eq!("00:00:00:00:00:02", ethernet.src().to_hex_string());
    assert_eq!(EtherType::new(0x0806), ethernet.ether_type());
    assert_eq!("ARP", ethernet.ether_type().name());
    assert_eq!(14, ethernet.header_len());
    assert!(!ethernet.is_vlan_802_1q());
    assert!(!ethernet.is_vlan_802_1ad());
}

#[test]
fn push_yields_all_zero_nominal_header() {
    let packet = Mbuf::new();
    let ethernet = Ethernet::push(packet).unwrap();

    assert_eq!(14, ethernet.len());
    assert_eq!(14, ethernet.header_len());
    assert_eq!(0, ethernet.offset());
    assert_eq!("00:00:00:00:00:00", ethernet.dst().to_hex_string());
    assert_eq!("00:00:00:00:00:00", ethernet.src().to_hex_string());
    assert_eq!(EtherType::new(0), ethernet.ether_type());
    assert!(!ethernet.is_vlan_802_1q());
    assert!(!ethernet.is_vlan_802_1ad());
}

#[test]
fn push_then_remove_restores_buffer() {
    let payload: Vec<u8> = vec![0xde, 0xad, 0xbe, 0xef, 0x55];
    let packet = Mbuf::from_bytes(&payload).unwrap();
    let ethernet = Ethernet::push(packet).unwrap();
    assert_eq!(19, ethernet.len());

    let restored = ethernet.remove().unwrap();
    assert_eq!(5, restored.data_len());
    for i in 0..5 {
        assert_eq!(payload[i], restored.read_u8(i));
    }
}

#[test]
fn swap_addresses_twice_restores() {
    let packet = Mbuf::from_bytes(&ipv4_frame()).unwrap();
    let mut ethernet = Ethernet::parse(packet).unwrap();
    ethernet.swap_addresses();
    ethernet.swap_addresses();

    assert_eq!("00:00:00:00:00:01", ethernet.dst().to_hex_string());
    assert_eq!("00:00:00:00:00:02", ethernet.src().to_hex_string());
}

#[test]
fn parse_fails_short_untagged() {
    let packet = Mbuf::from_bytes(&[0u8; 10]).unwrap();
    let err = Ethernet::parse(packet).unwrap_err();
    assert_eq!(BufferError::OutOfBuffer(14, 10), err);
}

#[test]
fn parse_fails_short_802_1q() {
    let mut bytes = vec![0u8; 16];
    bytes[12] = 0x81;
    bytes[13] = 0x00;
    let packet = Mbuf::from_bytes(&bytes).unwrap();
    let err = Ethernet::parse(packet).unwrap_err();
    assert_eq!(BufferError::OutOfBuffer(18, 16), err);
}

#[test]
fn parse_fails_short_802_1ad() {
    let mut bytes = vec![0u8; 20];
    bytes[12] = 0x88;
    bytes[13] = 0xa8;
    let packet = Mbuf::from_bytes(&bytes).unwrap();
    let err = Ethernet::parse(packet).unwrap_err();
    assert_eq!(BufferError::OutOfBuffer(22, 20), err);
}

#[test]
fn set_addresses() {
    let packet = Mbuf::from_bytes(&ipv4_frame()).unwrap();
    let mut ethernet = Ethernet::parse(packet).unwrap();
    ethernet.set_dst(MacAddr::new(0xaa, 0xbb, 0xcc, 0xdd, 0xee, 0xff));
    ethernet.set_src(MacAddr::new(0x01, 0x02, 0x03, 0x04, 0x05, 0x06));

    assert_eq!("aa:bb:cc:dd:ee:ff", ethernet.dst().to_hex_string());
    assert_eq!("01:02:03:04:05:06", ethernet.src().to_hex_string());
    assert_eq!(EtherType::new(0x0800), ethernet.ether_type());
}

#[test]
fn set_ether_type_untagged() {
    let packet = Mbuf::from_bytes(&ipv4_frame()).unwrap();
    let mut ethernet = Ethernet::parse(packet).unwrap();
    ethernet.set_ether_type(EtherType::new(0x86DD));

    assert_eq!(EtherType::new(0x86DD), ethernet.ether_type());
    assert_eq!(14, ethernet.header_len());
}

#[test]
fn set_ether_type_802_1q() {
    let packet = Mbuf::from_bytes(&vlan_802_1q_frame()).unwrap();
    let mut ethernet = Ethernet::parse(packet).unwrap();
    ethernet.set_ether_type(EtherType::new(0x0800));

    assert!(ethernet.is_vlan_802_1q());
    assert_eq!(EtherType::new(0x0800), ethernet.ether_type());
    assert_eq!(18, ethernet.header_len());
}

#[test]
fn set_ether_type_802_1ad() {
    let packet = Mbuf::from_bytes(&vlan_802_1ad_frame()).unwrap();
    let mut ethernet = Ethernet::parse(packet).unwrap();
    ethernet.set_ether_type(EtherType::new(0x0800));

    assert!(ethernet.is_vlan_802_1ad());
    assert_eq!(EtherType::new(0x0800), ethernet.ether_type());
    assert_eq!(22, ethernet.header_len());
}

#[test]
fn remove_vlan_packet() {
    let packet = Mbuf::from_bytes(&vlan_802_1q_frame()).unwrap();
    let ethernet = Ethernet::parse(packet).unwrap();
    let remainder = ethernet.remove().unwrap();

    assert_eq!(46, remainder.data_len());
    // the first remaining byte is the old payload's first byte
    assert_eq!(0x00, remainder.read_u8(0));
    assert_eq!(0x01, remainder.read_u8(1));
}

#[test]
fn deparse_returns_buffer_unchanged() {
    let bytes = vlan_802_1q_frame();
    let packet = Mbuf::from_bytes(&bytes).unwrap();
    let ethernet = Ethernet::parse(packet).unwrap();
    let buffer = ethernet.deparse();

    assert_eq!(64, buffer.data_len());
    for i in 0..64 {
        assert_eq!(bytes[i], buffer.read_u8(i));
    }
}

#[test]
fn envelope_views_buffer() {
    let packet = Mbuf::from_bytes(&ipv4_frame()).unwrap();
    let ethernet = Ethernet::parse(packet).unwrap();
    assert_eq!(64, ethernet.envelope().data_len());
}

#[test]
fn describe_renders_frame() {
    let packet = Mbuf::from_bytes(&vlan_802_1q_frame()).unwrap();
    let ethernet = Ethernet::parse(packet).unwrap();
    assert_eq!(
        "ethernet { src: 00:00:00:00:00:02, dst: 00:00:00:00:00:01, ether_type: ARP, vlan: true }",
        ethernet.describe()
    );
}

#[test]
fn ether_type_hex_name() {
    assert_eq!("0x1234", EtherType::new(0x1234).name());
    assert_eq!("0xabcd", EtherType::new(0xabcd).name());
}
