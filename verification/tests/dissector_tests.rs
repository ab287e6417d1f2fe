use acpcap::dissector::{DissectedMessage, MessageBody, dissect_payload};
use acpcap::s2c::GameEventBody;

fn one(payload: &[u8]) -> DissectedMessage {
    let mut msgs = dissect_payload(payload);
    assert_eq!(msgs.len(), 1);
    msgs.remove(0)
}

#[test]
fn empty_payload_yields_no_messages() {
    assert_eq!(dissect_payload(&[]).len(), 0);
}

#[test]
fn single_qualities_update_int_payload() {
    let mut payload: Vec<u8> = Vec::new();
    payload.extend_from_slice(&0x02CEu32.to_le_bytes());
    payload.push(1);
    payload.extend_from_slice(&0xA000_0001u32.to_le_bytes());
    payload.extend_from_slice(&0x11u32.to_le_bytes());
    payload.extend_from_slice(&50i32.to_le_bytes());
    let m = one(&payload);
    assert_eq!(m.opcode, 0x02CE);
    assert_eq!(m.message_type, "Qualities_UpdateInt");
    assert!(m.trailing.is_empty());
    match m.body {
        MessageBody::UpdateInt(x) => {
            assert_eq!(x.object_id, 0xA000_0001);
            assert_eq!(x.key, "Level");
            assert_eq!(x.value, 50);
        },
        _ => panic!("wrong body"),
    }
}

#[test]
fn unknown_opcode_preserves_tail() {
    let mut payload: Vec<u8> = Vec::new();
    payload.extend_from_slice(&0x9999u32.to_le_bytes());
    let tail: Vec<u8> = vec![1, 2, 3, 4, 5, 6, 7, 8, 9, 10];
    payload.extend_from_slice(&tail);
    let m = one(&payload);
    assert_eq!(m.opcode, 0x9999);
    assert_eq!(m.message_type, "Message_9999");
    assert!(m.trailing.is_empty());
    match m.body {
        MessageBody::Unknown { raw } => assert_eq!(raw, tail),
        _ => panic!("wrong body"),
    }
}

#[test]
fn payload_shorter_than_opcode_is_malformed() {
    let m = one(&[0xAB, 0xCD]);
    assert_eq!(m.opcode, 0);
    assert_eq!(m.message_type, "Malformed");
    match m.body {
        MessageBody::Failed { raw } => assert_eq!(raw, vec![0xAB, 0xCD]),
        _ => panic!("wrong body"),
    }
}

#[test]
fn known_opcode_too_short_is_failed_with_name() {
    let mut payload: Vec<u8> = Vec::new();
    payload.extend_from_slice(&0x02CEu32.to_le_bytes());
    payload.push(1);
    let m = one(&payload);
    assert_eq!(m.message_type, "Qualities_UpdateInt");
    match m.body {
        MessageBody::Failed { raw } => assert_eq!(raw, vec![1]),
        _ => panic!("wrong body"),
    }
}

#[test]
fn ordered_envelope_wear_item() {
    let mut payload: Vec<u8> = Vec::new();
    payload.extend_from_slice(&0xF7B0u32.to_le_bytes());
    payload.extend_from_slice(&0x0Bu32.to_le_bytes()); // ordered object id
    payload.extend_from_slice(&0x03u32.to_le_bytes()); // ordered sequence
    payload.extend_from_slice(&0x0023u32.to_le_bytes()); // event type
    payload.extend_from_slice(&0x0Cu32.to_le_bytes()); // object id
    payload.extend_from_slice(&0x01u32.to_le_bytes()); // location
    let m = one(&payload);
    assert_eq!(m.opcode, 0xF7B0);
    assert_eq!(m.message_type, "Item_WearItem");
    match m.body {
        MessageBody::GameEvent(GameEventBody::WearItem(w)) => {
            assert_eq!(w.ordered_object_id, 0x0B);
            assert_eq!(w.ordered_sequence, 3);
            assert_eq!(w.object_id, 0x0C);
            assert_eq!(w.location, 0x01);
        },
        _ => panic!("wrong body"),
    }
}

#[test]
fn decoder_trailing_bytes_are_kept() {
    let mut payload: Vec<u8> = Vec::new();
    payload.extend_from_slice(&0xF74Au32.to_le_bytes());
    payload.extend_from_slice(&0x1234u32.to_le_bytes());
    payload.extend_from_slice(&3u16.to_le_bytes());
    payload.extend_from_slice(&4u16.to_le_bytes());
    payload.extend_from_slice(&[0xEE, 0xFF]);
    let m = one(&payload);
    assert_eq!(m.message_type, "Inventory_PickupEvent");
    assert_eq!(m.trailing, vec![0xEE, 0xFF]);
}

#[test]
fn byte_accounting_across_message_kinds() {
    // For several payload shapes: opcode + declared fields + raw +
    // trailing account for every byte.
    let payloads: Vec<Vec<u8>> = vec![
        {
            let mut p: Vec<u8> = Vec::new();
            p.extend_from_slice(&0x9999u32.to_le_bytes());
            p.extend_from_slice(&[9; 10]);
            p
        },
        {
            let mut p: Vec<u8> = Vec::new();
            p.extend_from_slice(&0x02CDu32.to_le_bytes());
            p.push(0);
            p.extend_from_slice(&0x05u32.to_le_bytes());
            p.extend_from_slice(&7i32.to_le_bytes());
            p.extend_from_slice(&[1, 2, 3]);
            p
        },
    ];
    let declared: Vec<usize> = vec![0, 9];
    for (p, fields) in payloads.iter().zip(declared.iter()) {
        let m = one(p);
        let raw_len = match &m.body {
            MessageBody::Unknown { raw } => raw.len(),
            MessageBody::Failed { raw } => raw.len(),
            _ => *fields,
        };
        let consumed = match &m.body {
            MessageBody::Unknown { .. } | MessageBody::Failed { .. } => 4 + raw_len,
            _ => 4 + raw_len + m.trailing.len(),
        };
        assert_eq!(consumed, p.len());
    }
}
