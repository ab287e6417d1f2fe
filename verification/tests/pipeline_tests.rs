use acpcap::parser::PacketParser;
use acpcap::pcap::CaptureError;
use acpcap::transport::Direction;
use acpcap::weenie::{PropertyKey, PropertyValue};

fn capture_header(linktype: u32) -> Vec<u8> {
    let mut c: Vec<u8> = Vec::new();
    c.extend_from_slice(&0xA1B2_C3D4u32.to_le_bytes());
    c.extend_from_slice(&2u16.to_le_bytes());
    c.extend_from_slice(&4u16.to_le_bytes());
    c.extend_from_slice(&0u32.to_le_bytes());
    c.extend_from_slice(&0u32.to_le_bytes());
    c.extend_from_slice(&65535u32.to_le_bytes());
    c.extend_from_slice(&linktype.to_le_bytes());
    c
}

fn add_record(capture: &mut Vec<u8>, ts_sec: u32, ts_usec: u32, frame: &[u8]) {
    capture.extend_from_slice(&ts_sec.to_le_bytes());
    capture.extend_from_slice(&ts_usec.to_le_bytes());
    capture.extend_from_slice(&(frame.len() as u32).to_le_bytes());
    capture.extend_from_slice(&(frame.len() as u32).to_le_bytes());
    capture.extend_from_slice(frame);
}

/// A loopback frame: family word, minimal IPv4 header, UDP header.
fn udp_frame(src: u16, dst: u16, transport: &[u8]) -> Vec<u8> {
    let mut f: Vec<u8> = vec![2, 0, 0, 0];
    let mut ip = [0u8; 20];
    ip[0] = 0x45;
    ip[9] = 17;
    f.extend_from_slice(&ip);
    f.extend_from_slice(&src.to_be_bytes());
    f.extend_from_slice(&dst.to_be_bytes());
    f.extend_from_slice(&0u16.to_be_bytes());
    f.extend_from_slice(&0u16.to_be_bytes());
    f.extend_from_slice(transport);
    f
}

fn transport_packet(seq: u32, flags: u32, region: &[u8]) -> Vec<u8> {
    let mut t: Vec<u8> = Vec::new();
    t.extend_from_slice(&seq.to_le_bytes());
    t.extend_from_slice(&flags.to_le_bytes());
    t.extend_from_slice(&0u32.to_le_bytes());
    t.extend_from_slice(&7u16.to_le_bytes());
    t.extend_from_slice(&0u16.to_le_bytes());
    t.extend_from_slice(region);
    t
}

fn update_int_payload() -> Vec<u8> {
    let mut p: Vec<u8> = Vec::new();
    p.extend_from_slice(&0x02CEu32.to_le_bytes());
    p.push(1);
    p.extend_from_slice(&0xA000_0001u32.to_le_bytes());
    p.extend_from_slice(&0x11u32.to_le_bytes());
    p.extend_from_slice(&50i32.to_le_bytes());
    p
}

fn fragment_region(group: u32, count: u16, index: u16, data: &[u8]) -> Vec<u8> {
    let mut r: Vec<u8> = Vec::new();
    r.extend_from_slice(&group.to_le_bytes());
    r.extend_from_slice(&count.to_le_bytes());
    r.extend_from_slice(&index.to_le_bytes());
    r.extend_from_slice(&0u32.to_le_bytes());
    r.extend_from_slice(data);
    r
}

#[test]
fn empty_capture() {
    let capture = capture_header(0);
    let mut parser = PacketParser::new();
    let (packets, messages, db, _tally) = parser.parse_pcap_bytes(&capture).unwrap();
    assert!(packets.is_empty());
    assert!(messages.is_empty());
    assert_eq!(db.count(), 0);
}

#[test]
fn bad_magic_is_container_corrupt() {
    let mut capture = capture_header(0);
    capture[0] = 0x00;
    let mut parser = PacketParser::new();
    assert_eq!(parser.parse_pcap_bytes(&capture).err(), Some(CaptureError::ContainerCorrupt));
}

#[test]
fn short_file_is_container_corrupt() {
    let mut parser = PacketParser::new();
    assert_eq!(parser.parse_pcap_bytes(&[1, 2, 3]).err(), Some(CaptureError::ContainerCorrupt));
}

#[test]
fn truncated_record_is_reported() {
    let mut capture = capture_header(0);
    capture.extend_from_slice(&[0u8; 10]);
    let mut parser = PacketParser::new();
    assert_eq!(parser.parse_pcap_bytes(&capture).err(), Some(CaptureError::TruncatedRecord));
}

#[test]
fn unsupported_link_layer_is_reported() {
    let capture = capture_header(101);
    let mut parser = PacketParser::new();
    assert_eq!(parser.parse_pcap_bytes(&capture).err(), Some(CaptureError::UnsupportedLinkLayer));
}

#[test]
fn single_non_fragmented_update_int() {
    let payload = update_int_payload();
    let packet = transport_packet(1, 0, &payload);
    let frame = udp_frame(9004, 1234, &packet);
    let mut capture = capture_header(0);
    add_record(&mut capture, 1000, 500, &frame);
    let mut parser = PacketParser::new();
    let (packets, messages, db, tally) = parser.parse_pcap_bytes(&capture).unwrap();
    assert_eq!(packets.len(), 1);
    assert_eq!(messages.len(), 1);
    let m = &messages[0];
    assert_eq!(m.id, 0);
    assert_eq!(m.msg.message_type, "Qualities_UpdateInt");
    assert_eq!(m.direction, Direction::ServerToClient);
    assert_eq!(m.ts_sec, 1000);
    assert_eq!(m.ts_usec, 500);
    assert_eq!(packets[0].message_ids, vec![0]);
    // The entity database holds Level = 50 on the entity.
    let w = db.get(0xA000_0001).expect("entity present");
    assert_eq!(w.properties.len(), 1);
    assert_eq!(w.properties[0].0, PropertyKey::Int(0x11));
    match w.properties[0].1 {
        PropertyValue::Int(v) => assert_eq!(v, 50),
        _ => panic!("wrong value kind"),
    }
    assert_eq!(w.last_seen_ts, 1000);
    assert_eq!(tally.packets_seen, 1);
    assert_eq!(tally.packets_skipped, 0);
}

#[test]
fn two_fragment_assembly_emits_after_second() {
    let payload = update_int_payload();
    let (first_half, second_half) = payload.split_at(9);
    // Fragment index 1 arrives first; no message may be emitted yet.
    let pkt1 = transport_packet(1, 0x4, &fragment_region(7, 2, 1, second_half));
    let pkt2 = transport_packet(2, 0x4, &fragment_region(7, 2, 0, first_half));
    let mut capture = capture_header(0);
    add_record(&mut capture, 10, 0, &udp_frame(9004, 1234, &pkt1));
    let mut parser = PacketParser::new();
    let (_, messages1, _, _) = parser.parse_pcap_bytes(&capture).unwrap();
    assert_eq!(messages1.len(), 0);
    add_record(&mut capture, 11, 0, &udp_frame(9004, 1234, &pkt2));
    let (packets, messages, db, _) = parser.parse_pcap_bytes(&capture).unwrap();
    assert_eq!(messages.len(), 1);
    assert_eq!(messages[0].msg.message_type, "Qualities_UpdateInt");
    assert!(db.get(0xA000_0001).is_some());
    assert_eq!(packets.len(), 1);
    let fi = packets[0].fragment.as_ref().expect("fragment info");
    assert_eq!(fi.count, 2);
    assert_eq!(fi.received, 2);
}

#[test]
fn stale_partial_is_evicted_and_counted() {
    let pkt1 = transport_packet(1, 0x4, &fragment_region(5, 3, 0, &[1, 2, 3]));
    let pkt2 = transport_packet(2, 0, &[]);
    let mut capture = capture_header(0);
    add_record(&mut capture, 100, 0, &udp_frame(9004, 1234, &pkt1));
    add_record(&mut capture, 200, 0, &udp_frame(9004, 1234, &pkt2));
    let mut parser = PacketParser::new();
    let (packets, messages, _, tally) = parser.parse_pcap_bytes(&capture).unwrap();
    assert!(messages.is_empty());
    assert!(packets.is_empty());
    assert_eq!(tally.stale_partials, 1);
}

#[test]
fn unknown_flag_packet_is_skipped() {
    let pkt = transport_packet(1, 0x4000_0000, &update_int_payload());
    let mut capture = capture_header(0);
    add_record(&mut capture, 1, 0, &udp_frame(9004, 1234, &pkt));
    let mut parser = PacketParser::new();
    let (packets, messages, _, tally) = parser.parse_pcap_bytes(&capture).unwrap();
    assert!(packets.is_empty());
    assert!(messages.is_empty());
    assert_eq!(tally.unknown_flag, 1);
    assert_eq!(tally.packets_skipped, 1);
}

#[test]
fn non_udp_record_is_skipped() {
    let mut frame: Vec<u8> = vec![2, 0, 0, 0];
    let mut ip = [0u8; 20];
    ip[0] = 0x45;
    ip[9] = 6; // a stream protocol, not UDP
    frame.extend_from_slice(&ip);
    frame.extend_from_slice(&[0; 30]);
    let mut capture = capture_header(0);
    add_record(&mut capture, 1, 0, &frame);
    let mut parser = PacketParser::new();
    let (_, messages, _, tally) = parser.parse_pcap_bytes(&capture).unwrap();
    assert!(messages.is_empty());
    assert_eq!(tally.packets_skipped, 1);
}

#[test]
fn client_to_server_direction_by_ports() {
    let pkt = transport_packet(1, 0, &update_int_payload());
    let frame = udp_frame(1234, 9004, &pkt);
    let mut capture = capture_header(0);
    add_record(&mut capture, 1, 0, &frame);
    let mut parser = PacketParser::new();
    let (_, messages, _, _) = parser.parse_pcap_bytes(&capture).unwrap();
    assert_eq!(messages[0].direction, Direction::ClientToServer);
}

#[test]
fn tally_counts_per_type() {
    let pkt = transport_packet(1, 0, &update_int_payload());
    let mut capture = capture_header(0);
    add_record(&mut capture, 1, 0, &udp_frame(9004, 1234, &pkt));
    add_record(&mut capture, 2, 0, &udp_frame(9004, 1234, &pkt));
    let mut parser = PacketParser::new();
    let (_, messages, _, tally) = parser.parse_pcap_bytes(&capture).unwrap();
    assert_eq!(messages.len(), 2);
    assert_eq!(messages[1].id, 1);
    let e = tally
        .entries
        .iter()
        .find(|e| e.message_type == "Qualities_UpdateInt")
        .expect("tally entry");
    assert_eq!(e.seen, 2);
    assert_eq!(e.extracted, 2);
}

#[test]
fn replaying_the_same_capture_rebuilds_the_same_database() {
    let pkt = transport_packet(1, 0, &update_int_payload());
    let mut capture = capture_header(0);
    add_record(&mut capture, 1, 0, &udp_frame(9004, 1234, &pkt));
    let mut parser = PacketParser::new();
    let (_, _, db1, _) = parser.parse_pcap_bytes(&capture).unwrap();
    let (_, _, db2, _) = parser.parse_pcap_bytes(&capture).unwrap();
    assert_eq!(db1.count(), db2.count());
    let w1 = db1.get(0xA000_0001).unwrap();
    let w2 = db2.get(0xA000_0001).unwrap();
    assert_eq!(w1.id, w2.id);
    assert_eq!(w1.properties.len(), w2.properties.len());
    assert_eq!(w1.last_seen_ts, w2.last_seen_ts);
}
