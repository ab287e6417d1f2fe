use acpcap::reader::BinaryReader;
use acpcap::s2c::{
    CommunicationTextboxString, EffectsSoundEvent, GameEventBody, GameEventType,
    InventoryPickupEvent, ItemObjDescEvent, ItemServerSaysContainId, ItemSetAppraiseInfo,
    ItemWearItem, MagicDispelEnchantment, MovementData, MovementSetObjectMovement,
    QualitiesPrivateUpdateAttribute2ndLevel, QualitiesPrivateUpdateInt, QualitiesUpdateInstanceId,
    QualitiesUpdateInt, parse_game_event, property_instance_id_name, property_int_name,
    vital_name,
};

#[test]
fn game_event_type_from_u32_known() {
    assert_eq!(GameEventType::from_u32(0x0023), GameEventType::Item_WearItem);
    assert_eq!(GameEventType::from_u32(0x00C9), GameEventType::Item_SetAppraiseInfo);
    assert_eq!(GameEventType::from_u32(0x02C7), GameEventType::Magic_DispelEnchantment);
    assert_eq!(GameEventType::from_u32(0x0315), GameEventType::Social_SendClientContractTracker);
}

#[test]
fn game_event_type_from_u32_unknown() {
    assert_eq!(GameEventType::from_u32(0xBEEF), GameEventType::Unknown);
}

#[test]
fn game_event_type_names() {
    assert_eq!(GameEventType::Item_WearItem.name(), "Item_WearItem");
    assert_eq!(GameEventType::Login_PlayerDescription.name(), "Login_PlayerDescription");
    assert_eq!(GameEventType::Unknown.name(), "Unknown");
}

#[test]
fn property_names_known_and_formatted() {
    assert_eq!(property_int_name(0x05), "Age");
    assert_eq!(property_int_name(0x10), "ArmorLevel");
    assert_eq!(property_int_name(0x11), "Level");
    assert_eq!(property_int_name(0x6F), "Value");
    assert_eq!(property_int_name(240), "PropertyInt_240");
    assert_eq!(vital_name(1), "Health");
    assert_eq!(vital_name(2), "Stamina");
    assert_eq!(vital_name(3), "Mana");
    assert_eq!(vital_name(9), "Vital_9");
    assert_eq!(property_instance_id_name(1), "Owner");
    assert_eq!(property_instance_id_name(2), "Container");
    assert_eq!(property_instance_id_name(3), "Wielder");
    assert_eq!(property_instance_id_name(12), "PropertyInstanceId_12");
}

#[test]
fn qualities_private_update_int_read() {
    let mut data: Vec<u8> = Vec::new();
    data.push(3);
    data.extend_from_slice(&0x11u32.to_le_bytes());
    data.extend_from_slice(&(-7i32).to_le_bytes());
    let mut r = BinaryReader::new(&data);
    let m = QualitiesPrivateUpdateInt::read(&mut r).unwrap();
    assert_eq!(m.sequence, 3);
    assert_eq!(m.key, "Level");
    assert_eq!(m.key_raw, 0x11);
    assert_eq!(m.value, -7);
    assert_eq!(m.opcode, 0x02CD);
    assert_eq!(m.message_type, "Qualities_PrivateUpdateInt");
    assert_eq!(m.message_direction, "ServerToClient");
}

#[test]
fn qualities_private_update_attribute_read() {
    let mut data: Vec<u8> = Vec::new();
    data.push(9);
    data.extend_from_slice(&2u32.to_le_bytes());
    data.extend_from_slice(&144u32.to_le_bytes());
    let mut r = BinaryReader::new(&data);
    let m = QualitiesPrivateUpdateAttribute2ndLevel::read(&mut r).unwrap();
    assert_eq!(m.key, "Stamina");
    assert_eq!(m.value, 144);
    assert_eq!(m.opcode, 0x02E9);
}

#[test]
fn qualities_update_int_read() {
    let mut data: Vec<u8> = Vec::new();
    data.push(1);
    data.extend_from_slice(&0xA000_0001u32.to_le_bytes());
    data.extend_from_slice(&0x11u32.to_le_bytes());
    data.extend_from_slice(&50i32.to_le_bytes());
    let mut r = BinaryReader::new(&data);
    let m = QualitiesUpdateInt::read(&mut r).unwrap();
    assert_eq!(m.sequence, 1);
    assert_eq!(m.object_id, 0xA000_0001);
    assert_eq!(m.key, "Level");
    assert_eq!(m.value, 50);
    assert_eq!(m.opcode, 0x02CE);
}

#[test]
fn qualities_update_int_truncated() {
    let data = vec![1u8, 2, 3];
    let mut r = BinaryReader::new(&data);
    assert!(QualitiesUpdateInt::read(&mut r).is_err());
}

#[test]
fn qualities_update_instance_id_read() {
    let mut data: Vec<u8> = Vec::new();
    data.push(4);
    data.extend_from_slice(&0xBEEFu32.to_le_bytes());
    data.extend_from_slice(&2u32.to_le_bytes());
    data.extend_from_slice(&0xCAFEu32.to_le_bytes());
    let mut r = BinaryReader::new(&data);
    let m = QualitiesUpdateInstanceId::read(&mut r).unwrap();
    assert_eq!(m.key, "Container");
    assert_eq!(m.value, 0xCAFE);
    assert_eq!(m.opcode, 0x02DA);
}

#[test]
fn movement_set_object_movement_read() {
    let mut data: Vec<u8> = Vec::new();
    data.extend_from_slice(&0x42u32.to_le_bytes());
    data.extend_from_slice(&7u16.to_le_bytes());
    data.extend_from_slice(&11u16.to_le_bytes()); // movement sequence
    data.extend_from_slice(&12u16.to_le_bytes()); // server control sequence
    data.push(1); // autonomous
    data.push(9); // Jump
    let mut r = BinaryReader::new(&data);
    let m = MovementSetObjectMovement::read(&mut r).unwrap();
    assert_eq!(m.object_id, 0x42);
    assert_eq!(m.object_instance_sequence, 7);
    assert_eq!(m.movement_data.object_movement_sequence, 11);
    assert_eq!(m.movement_data.object_server_control_sequence, 12);
    assert_eq!(m.movement_data.autonomous, 1);
    assert_eq!(m.movement_data.movement_type, "Jump");
    assert_eq!(m.opcode, 0xF74C);
}

#[test]
fn movement_data_unknown_type() {
    let data = vec![0u8, 0, 0, 0, 0, 0xAA];
    let mut r = BinaryReader::new(&data);
    let m = MovementData::read(&mut r).unwrap();
    assert_eq!(m.movement_type, "Unknown");
}

#[test]
fn inventory_pickup_event_read() {
    let mut data: Vec<u8> = Vec::new();
    data.extend_from_slice(&0x1234u32.to_le_bytes());
    data.extend_from_slice(&3u16.to_le_bytes());
    data.extend_from_slice(&4u16.to_le_bytes());
    let mut r = BinaryReader::new(&data);
    let m = InventoryPickupEvent::read(&mut r).unwrap();
    assert_eq!(m.object_id, 0x1234);
    assert_eq!(m.object_instance_sequence, 3);
    assert_eq!(m.object_position_sequence, 4);
    assert_eq!(m.opcode, 0xF74A);
}

#[test]
fn effects_sound_event_keeps_volume_bits() {
    let mut data: Vec<u8> = Vec::new();
    data.extend_from_slice(&0x55u32.to_le_bytes());
    data.extend_from_slice(&13u32.to_le_bytes());
    data.extend_from_slice(&1.0f32.to_bits().to_le_bytes());
    let mut r = BinaryReader::new(&data);
    let m = EffectsSoundEvent::read(&mut r).unwrap();
    assert_eq!(m.object_id, 0x55);
    assert_eq!(m.sound_type, 13);
    assert_eq!(f32::from_bits(m.volume_bits), 1.0);
    assert_eq!(m.opcode, 0xF750);
}

#[test]
fn communication_textbox_string_read() {
    let mut data: Vec<u8> = Vec::new();
    acpcap::codec::put_string16l(&mut data, "hello");
    data.extend_from_slice(&5u32.to_le_bytes());
    let mut r = BinaryReader::new(&data);
    let m = CommunicationTextboxString::read(&mut r).unwrap();
    assert_eq!(m.text, "hello");
    assert_eq!(m.chat_type, "Magic");
    assert_eq!(m.chat_type_raw, 5);
    assert_eq!(m.opcode, 0xF7E0);
}

#[test]
fn item_obj_desc_event_reads_last_two_words() {
    let mut data: Vec<u8> = Vec::new();
    data.extend_from_slice(&0x77u32.to_le_bytes());
    data.extend_from_slice(&[0xAA; 10]); // deferred description
    data.extend_from_slice(&21u16.to_le_bytes());
    data.extend_from_slice(&22u16.to_le_bytes());
    let mut r = BinaryReader::new(&data);
    let m = ItemObjDescEvent::read(&mut r).unwrap();
    assert_eq!(m.object_id, 0x77);
    assert_eq!(m.instance_sequence, 21);
    assert_eq!(m.visual_desc_sequence, 22);
    assert_eq!(m.opcode, 0xF625);
}

#[test]
fn item_wear_item_read() {
    let mut data: Vec<u8> = Vec::new();
    data.extend_from_slice(&0x0Cu32.to_le_bytes());
    data.extend_from_slice(&0x01u32.to_le_bytes());
    let mut r = BinaryReader::new(&data);
    let m = ItemWearItem::read(&mut r, 0x0B, 3).unwrap();
    assert_eq!(m.object_id, 0x0C);
    assert_eq!(m.location, 0x01);
    assert_eq!(m.ordered_object_id, 0x0B);
    assert_eq!(m.ordered_sequence, 3);
    assert_eq!(m.event_type, "Item_WearItem");
    assert_eq!(m.opcode, 0xF7B0);
    assert_eq!(m.message_type, "Ordered_GameEvent");
}

#[test]
fn item_set_appraise_info_read() {
    let mut data: Vec<u8> = Vec::new();
    data.extend_from_slice(&0x99u32.to_le_bytes());
    data.extend_from_slice(&0x03u32.to_le_bytes());
    data.push(1);
    let mut r = BinaryReader::new(&data);
    let m = ItemSetAppraiseInfo::read(&mut r, 5, 6).unwrap();
    assert_eq!(m.object_id, 0x99);
    assert_eq!(m.flags, 3);
    assert!(m.success);
}

#[test]
fn item_server_says_contain_id_read() {
    let mut data: Vec<u8> = Vec::new();
    data.extend_from_slice(&1u32.to_le_bytes());
    data.extend_from_slice(&2u32.to_le_bytes());
    data.extend_from_slice(&3u32.to_le_bytes());
    data.extend_from_slice(&4u32.to_le_bytes());
    let mut r = BinaryReader::new(&data);
    let m = ItemServerSaysContainId::read(&mut r, 7, 8).unwrap();
    assert_eq!(m.object_id, 1);
    assert_eq!(m.container_id, 2);
    assert_eq!(m.slot_index, 3);
    assert_eq!(m.container_type, 4);
}

#[test]
fn magic_dispel_enchantment_read() {
    let mut data: Vec<u8> = Vec::new();
    data.extend_from_slice(&1234u16.to_le_bytes());
    data.extend_from_slice(&2u16.to_le_bytes());
    let mut r = BinaryReader::new(&data);
    let m = MagicDispelEnchantment::read(&mut r, 0xAA, 1).unwrap();
    assert_eq!(m.spell_id.id, 1234);
    assert_eq!(m.spell_id.layer, 2);
    assert_eq!(m.ordered_object_id, 0xAA);
}

#[test]
fn parse_game_event_wear_item() {
    let mut data: Vec<u8> = Vec::new();
    data.extend_from_slice(&0x0Cu32.to_le_bytes());
    data.extend_from_slice(&0x01u32.to_le_bytes());
    let mut r = BinaryReader::new(&data);
    let (name, body) = parse_game_event(&mut r, 0x0B, 3, 0x0023).unwrap();
    assert_eq!(name, "Item_WearItem");
    match body {
        GameEventBody::WearItem(w) => {
            assert_eq!(w.object_id, 0x0C);
            assert_eq!(w.location, 0x01);
        },
        _ => panic!("wrong body"),
    }
}

#[test]
fn parse_game_event_unknown_keeps_raw_and_hex() {
    let data = vec![0xABu8, 0x01, 0xFF];
    let mut r = BinaryReader::new(&data);
    let (name, body) = parse_game_event(&mut r, 1, 2, 0xBEEF).unwrap();
    assert_eq!(name, "GameEvent_BEEF");
    match &body {
        GameEventBody::Other { ordered_object_id, ordered_sequence, event_type_raw, raw_data } => {
            assert_eq!(*ordered_object_id, 1);
            assert_eq!(*ordered_sequence, 2);
            assert_eq!(*event_type_raw, 0xBEEF);
            assert_eq!(raw_data, &vec![0xAB, 0x01, 0xFF]);
        },
        _ => panic!("wrong body"),
    }
    assert_eq!(body.raw_data_hex(), "ab01ff");
}

#[test]
fn parse_game_event_known_without_decoder_uses_name() {
    let data = vec![1u8, 2, 3, 4];
    let mut r = BinaryReader::new(&data);
    let (name, body) = parse_game_event(&mut r, 1, 2, 0x0013).unwrap();
    assert_eq!(name, "Login_PlayerDescription");
    match body {
        GameEventBody::Other { raw_data, .. } => assert_eq!(raw_data, vec![1, 2, 3, 4]),
        _ => panic!("wrong body"),
    }
}
