use acpcap::assets::asset_names;
use acpcap::discord::{SnowflakeError, check_fetch_ids, is_valid_snowflake};
use acpcap::pcap::{CaptureError, parse_capture_header};
use acpcap::strfmt::{dec_string, hex04_string, hex_encode, hex_string};
use acpcap::transport::{
    Direction, TransportError, classify_direction, classify_with_server_port,
    parse_fragment_header, parse_transport, strip_link_headers,
};
use acpcap::weenie::{PropertyKey, PropertyValue, SELF_OBJECT_ID, WeenieDatabase, WeenieUpdate};

#[test]
fn snowflake_validation() {
    assert!(is_valid_snowflake("123456789012345678"));
    assert!(!is_valid_snowflake("12345678901234567"));
    assert!(!is_valid_snowflake("1234567890123456789"));
    assert!(!is_valid_snowflake("12345678901234567a"));
    assert!(!is_valid_snowflake(""));
}

#[test]
fn fetch_id_checks_report_which_id_is_bad() {
    assert_eq!(
        check_fetch_ids("bad", "123456789012345678"),
        Err(SnowflakeError::BadChannelId)
    );
    assert_eq!(
        check_fetch_ids("123456789012345678", "bad"),
        Err(SnowflakeError::BadMessageId)
    );
    assert_eq!(check_fetch_ids("123456789012345678", "876543210987654321"), Ok(()));
}

#[test]
fn hex_and_decimal_formatting() {
    assert_eq!(hex_string(0), "0");
    assert_eq!(hex_string(0xBEEF), "BEEF");
    assert_eq!(hex04_string(0x9), "0009");
    assert_eq!(hex04_string(0x2CE), "02CE");
    assert_eq!(hex04_string(0x9999), "9999");
    assert_eq!(hex04_string(0x12345), "12345");
    assert_eq!(dec_string(0), "0");
    assert_eq!(dec_string(240), "240");
    assert_eq!(dec_string(4294967295), "4294967295");
}

#[test]
fn hex_encode_is_lowercase_two_digits_per_byte() {
    assert_eq!(hex_encode(&[]), "");
    assert_eq!(hex_encode(&[0x00, 0xAB, 0x0F, 0xF0]), "00ab0ff0");
}

#[test]
fn asset_names_use_first_sixteen_digest_digits() {
    // The digest of the empty input is well known.
    let (js, wasm) = asset_names(&[]);
    assert_eq!(js, "web.d41d8cd98f00b204.js");
    assert_eq!(wasm, "web_bg.d41d8cd98f00b204.wasm");
}

#[test]
fn transport_header_fields_and_payload_offset() {
    let mut t: Vec<u8> = Vec::new();
    t.extend_from_slice(&9u32.to_le_bytes());
    t.extend_from_slice(&0x4000u32.to_le_bytes()); // ack block present
    t.extend_from_slice(&0xDEADu32.to_le_bytes());
    t.extend_from_slice(&5u16.to_le_bytes());
    t.extend_from_slice(&6u16.to_le_bytes());
    t.extend_from_slice(&77u32.to_le_bytes()); // acked sequence
    t.extend_from_slice(&[1, 2, 3]);
    let (h, start) = parse_transport(&t).unwrap();
    assert_eq!(h.sequence, 9);
    assert_eq!(h.flags, 0x4000);
    assert_eq!(h.checksum, 0xDEAD);
    assert_eq!(h.session_id, 5);
    assert_eq!(h.time, 6);
    assert_eq!(start, 20);
}

#[test]
fn transport_retransmission_block_is_skipped() {
    let mut t: Vec<u8> = Vec::new();
    t.extend_from_slice(&1u32.to_le_bytes());
    t.extend_from_slice(&0x1000u32.to_le_bytes());
    t.extend_from_slice(&0u32.to_le_bytes());
    t.extend_from_slice(&0u16.to_le_bytes());
    t.extend_from_slice(&0u16.to_le_bytes());
    t.extend_from_slice(&2u32.to_le_bytes()); // two requested sequences
    t.extend_from_slice(&11u32.to_le_bytes());
    t.extend_from_slice(&12u32.to_le_bytes());
    t.extend_from_slice(&[0xAA]);
    let (_, start) = parse_transport(&t).unwrap();
    assert_eq!(start, 28);
}

#[test]
fn transport_unknown_flag_is_reported() {
    let mut t: Vec<u8> = Vec::new();
    t.extend_from_slice(&1u32.to_le_bytes());
    t.extend_from_slice(&0x8000_0000u32.to_le_bytes());
    t.extend_from_slice(&0u32.to_le_bytes());
    t.extend_from_slice(&0u32.to_le_bytes());
    assert_eq!(parse_transport(&t), Err(TransportError::UnknownFlag));
}

#[test]
fn fragment_header_parse() {
    let mut r: Vec<u8> = Vec::new();
    r.extend_from_slice(&7u32.to_le_bytes());
    r.extend_from_slice(&2u16.to_le_bytes());
    r.extend_from_slice(&1u16.to_le_bytes());
    r.extend_from_slice(&3u32.to_le_bytes());
    r.extend_from_slice(&[5, 6]);
    let (fh, data) = parse_fragment_header(&r).unwrap();
    assert_eq!(fh.group_id, 7);
    assert_eq!(fh.fragment_count, 2);
    assert_eq!(fh.fragment_index, 1);
    assert_eq!(fh.queue_id, 3);
    assert_eq!(data, vec![5, 6]);
    assert_eq!(parse_fragment_header(&[1, 2, 3]), Err(TransportError::TruncatedHeader));
}

#[test]
fn direction_is_classified_by_higher_port() {
    assert_eq!(classify_direction(9004, 1234), Direction::ServerToClient);
    assert_eq!(classify_direction(1234, 9004), Direction::ClientToServer);
    assert_eq!(classify_direction(5, 5), Direction::ClientToServer);
}

#[test]
fn direction_follows_a_named_server_port() {
    assert_eq!(classify_with_server_port(1234, 9004, Some(1234)), Direction::ServerToClient);
    assert_eq!(classify_with_server_port(9004, 1234, Some(1234)), Direction::ClientToServer);
    assert_eq!(classify_with_server_port(9004, 1234, None), Direction::ServerToClient);
}

#[test]
fn ethernet_frames_are_stripped() {
    let mut frame: Vec<u8> = Vec::new();
    frame.extend_from_slice(&[0u8; 12]); // mac addresses
    frame.extend_from_slice(&[0x08, 0x00]); // ipv4 ethertype
    let mut ip = [0u8; 20];
    ip[0] = 0x45;
    ip[9] = 17;
    frame.extend_from_slice(&ip);
    frame.extend_from_slice(&9004u16.to_be_bytes());
    frame.extend_from_slice(&1234u16.to_be_bytes());
    frame.extend_from_slice(&[0u8; 4]);
    frame.extend_from_slice(&[0xAB]);
    let (src, dst, off) = strip_link_headers(&frame, 1).unwrap();
    assert_eq!(src, 9004);
    assert_eq!(dst, 1234);
    assert_eq!(off, 42);
    assert_eq!(frame[off], 0xAB);
}

#[test]
fn unsupported_link_layer_and_ethertype_are_refused() {
    assert_eq!(strip_link_headers(&[0u8; 64], 7), Err(TransportError::UnsupportedFrame));
    let mut frame: Vec<u8> = Vec::new();
    frame.extend_from_slice(&[0u8; 12]);
    frame.extend_from_slice(&[0x08, 0x06]); // not an IPv4 frame
    frame.extend_from_slice(&[0u8; 40]);
    assert_eq!(strip_link_headers(&frame, 1), Err(TransportError::UnsupportedFrame));
}

#[test]
fn capture_header_fields() {
    let mut c: Vec<u8> = Vec::new();
    c.extend_from_slice(&0xA1B2_C3D4u32.to_le_bytes());
    c.extend_from_slice(&2u16.to_le_bytes());
    c.extend_from_slice(&4u16.to_le_bytes());
    c.extend_from_slice(&(-3600i32).to_le_bytes());
    c.extend_from_slice(&1u32.to_le_bytes());
    c.extend_from_slice(&65535u32.to_le_bytes());
    c.extend_from_slice(&1u32.to_le_bytes());
    let h = parse_capture_header(&c).unwrap();
    assert_eq!(h.version_major, 2);
    assert_eq!(h.version_minor, 4);
    assert_eq!(h.thiszone, -3600);
    assert_eq!(h.sigfigs, 1);
    assert_eq!(h.snaplen, 65535);
    assert_eq!(h.linktype, 1);
    let bad = vec![0u8; 24];
    assert_eq!(parse_capture_header(&bad), Err(CaptureError::ContainerCorrupt));
}

#[test]
fn weenie_updates_overwrite_without_losing_keys() {
    let mut db = WeenieDatabase::new();
    db.add_or_update(WeenieUpdate::SetInt { object_id: 1, key: 0x11, value: 10 }, 100);
    db.add_or_update(WeenieUpdate::SetInt { object_id: 1, key: 0x05, value: 30 }, 101);
    db.add_or_update(WeenieUpdate::SetInt { object_id: 1, key: 0x11, value: 20 }, 102);
    assert_eq!(db.count(), 1);
    let w = db.get(1).unwrap();
    assert_eq!(w.properties.len(), 2);
    assert_eq!(w.properties[0].0, PropertyKey::Int(0x11));
    match w.properties[0].1 {
        PropertyValue::Int(v) => assert_eq!(v, 20),
        _ => panic!("wrong value kind"),
    }
    assert_eq!(w.properties[1].0, PropertyKey::Int(0x05));
    assert_eq!(w.last_seen_ts, 102);
}

#[test]
fn private_updates_land_on_the_local_player() {
    let mut db = WeenieDatabase::new();
    db.add_or_update(WeenieUpdate::SetPrivateInt { key: 0x11, value: 9 }, 50);
    let w = db.get(SELF_OBJECT_ID).unwrap();
    assert_eq!(w.id, SELF_OBJECT_ID);
    assert_eq!(w.properties.len(), 1);
}

#[test]
fn dispel_removes_matching_layers_only() {
    let mut db = WeenieDatabase::new();
    db.add_or_update(
        WeenieUpdate::DispelEnchantment { object_id: 4, spell_id: 100, layer: 1 },
        10,
    );
    // Dispelling on a fresh entity upserts it with nothing to remove.
    let w = db.get(4).unwrap();
    assert!(w.enchantments.is_empty());
    assert!(w.properties.is_empty());
}
