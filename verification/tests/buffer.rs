use etherframe::BufferError;
use etherframe::Chunk802_1ad;
use etherframe::Chunk802_1q;
use etherframe::MacAddr;
use etherframe::Mbuf;
use etherframe::VlanTag;

#[test]
fn new_buffer_is_empty() {
    let buffer = Mbuf::new();
    assert_eq!(0, buffer.data_len());
    assert_eq!(2048, buffer.capacity());
}

#[test]
fn from_bytes_copies_bytes() {
    let buffer = Mbuf::from_bytes(&[1, 2, 3]).unwrap();
    assert_eq!(3, buffer.data_len());
    assert_eq!(1, buffer.read_u8(0));
    assert_eq!(2, buffer.read_u8(1));
    assert_eq!(3, buffer.read_u8(2));
}

#[test]
fn from_bytes_fails_beyond_capacity() {
    let bytes = vec![0u8; 3000];
    let err = Mbuf::from_bytes(&bytes).unwrap_err();
    assert_eq!(BufferError::BufferCapacityExceeded, err);
}

#[test]
fn extend_inserts_zero_bytes() {
    let mut buffer = Mbuf::from_bytes(&[7, 8]).unwrap();
    buffer.extend(1, 3).unwrap();
    assert_eq!(5, buffer.data_len());
    assert_eq!(7, buffer.read_u8(0));
    assert_eq!(0, buffer.read_u8(1));
    assert_eq!(0, buffer.read_u8(2));
    assert_eq!(0, buffer.read_u8(3));
    assert_eq!(8, buffer.read_u8(4));
}

#[test]
fn extend_fails_outside_occupied_bytes() {
    let mut buffer = Mbuf::new();
    let err = buffer.extend(5, 1).unwrap_err();
    assert_eq!(BufferError::BufferRangeInvalid, err);
}

#[test]
fn extend_fails_beyond_capacity() {
    let mut buffer = Mbuf::from_bytes(&vec![0u8; 2040]).unwrap();
    let err = buffer.extend(0, 14).unwrap_err();
    assert_eq!(BufferError::BufferCapacityExceeded, err);
    assert_eq!(2040, buffer.data_len());
}

#[test]
fn shrink_removes_bytes() {
    let mut buffer = Mbuf::from_bytes(&[1, 2, 3, 4, 5]).unwrap();
    buffer.shrink(1, 3).unwrap();
    assert_eq!(2, buffer.data_len());
    assert_eq!(1, buffer.read_u8(0));
    assert_eq!(5, buffer.read_u8(1));
}

#[test]
fn shrink_fails_outside_occupied_bytes() {
    let mut buffer = Mbuf::from_bytes(&[1, 2, 3]).unwrap();
    let err = buffer.shrink(2, 5).unwrap_err();
    assert_eq!(BufferError::BufferRangeInvalid, err);
    assert_eq!(3, buffer.data_len());
}

#[test]
fn u16_fields_are_big_endian() {
    let mut buffer = Mbuf::from_bytes(&[0x12, 0x34]).unwrap();
    assert_eq!(0x1234, buffer.read_u16_be(0));
    buffer.write_u16_be(0, 0xbeef);
    assert_eq!(0xbe, buffer.read_u8(0));
    assert_eq!(0xef, buffer.read_u8(1));
}

#[test]
fn mac_addr_to_hex_string() {
    let addr = MacAddr::new(0xaa, 0xbb, 0xcc, 0xdd, 0xee, 0xff);
    assert_eq!("aa:bb:cc:dd:ee:ff", addr.to_hex_string());
    let addr = MacAddr::new(0, 0, 0, 0, 0, 1);
    assert_eq!("00:00:00:00:00:01", addr.to_hex_string());
}

#[test]
fn vlan_tag_fields() {
    let tag = VlanTag::new(0x8100, 0x2065);
    assert_eq!(0x8100, tag.tag_id());
    assert_eq!(1, tag.priority());
    assert!(!tag.drop_eligible());
    assert_eq!(0x065, tag.identifier());

    let tag = VlanTag::new(0x88a8, 0x107b);
    assert_eq!(0x88a8, tag.tag_id());
    assert_eq!(0, tag.priority());
    assert!(tag.drop_eligible());
    assert_eq!(0x07b, tag.identifier());

    let tag = VlanTag::new(0x8100, 0xe000);
    assert_eq!(7, tag.priority());
    assert!(!tag.drop_eligible());
    assert_eq!(0, tag.identifier());
}

#[test]
fn chunk_802_1q_reads_tag_and_ether_type() {
    let buffer = Mbuf::from_bytes(&[0x81, 0x00, 0x00, 0x7b, 0x08, 0x06]).unwrap();
    let chunk = Chunk802_1q::read_at(&buffer, 0);
    assert_eq!(0x8100, chunk.tag.tag_id());
    assert_eq!(0x07b, chunk.tag.identifier());
    assert_eq!(0x0806, chunk.ether_type);
}

#[test]
fn chunk_802_1ad_reads_both_tags() {
    let buffer =
        Mbuf::from_bytes(&[0x88, 0xa8, 0x00, 0x1e, 0x81, 0x00, 0x20, 0x65, 0x08, 0x06]).unwrap();
    let chunk = Chunk802_1ad::read_at(&buffer, 0);
    assert_eq!(0x88a8, chunk.stag.tag_id());
    assert_eq!(0x01e, chunk.stag.identifier());
    assert_eq!(0x8100, chunk.ctag.tag_id());
    assert_eq!(1, chunk.ctag.priority());
    assert_eq!(0x065, chunk.ctag.identifier());
    assert_eq!(0x0806, chunk.ether_type);
}
