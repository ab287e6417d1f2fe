//! The message dissector: reads the opcode of an application payload,
//! dispatches to the typed decoder, and captures whatever is not decoded
//! as raw or trailing bytes, so that every payload byte is accounted for.

use vstd::prelude::*;
use crate::codec::{u32_le_bytes, lemma_u32_bytes_id};
use crate::reader::{BinaryReader, le32};
use crate::s2c::{
    CommunicationTextboxString, EffectsPlayScriptType, EffectsSoundEvent, GameEventBody,
    InventoryPickupEvent, ItemObjDescEvent, MovementSetObjectMovement, QualitiesPrivateUpdateInt,
    QualitiesPrivateUpdateAttribute2ndLevel, QualitiesUpdateInstanceId, QualitiesUpdateInt,
    game_event_body_matches, game_event_consumed, game_event_result_name, obj_desc_event_end,
    obj_desc_event_matches, parse_game_event, pickup_event_matches, play_script_type_matches,
    private_update_attribute_matches, private_update_int_matches, set_object_movement_matches,
    sound_event_matches, textbox_end, textbox_ok, textbox_string_matches, update_instance_id_matches,
    update_int_matches,
};
use crate::strfmt::{hex04_chars, hex04_string};

verus! {

/// The decoded body of one message, or the undecoded remainder.
#[derive(Debug, Clone)]
pub enum MessageBody {
    PrivateUpdateInt(QualitiesPrivateUpdateInt),
    PrivateUpdateAttribute2ndLevel(QualitiesPrivateUpdateAttribute2ndLevel),
    UpdateInt(QualitiesUpdateInt),
    UpdateInstanceId(QualitiesUpdateInstanceId),
    SetObjectMovement(MovementSetObjectMovement),
    PickupEvent(InventoryPickupEvent),
    SoundEvent(EffectsSoundEvent),
    PlayScriptType(EffectsPlayScriptType),
    TextboxString(CommunicationTextboxString),
    ObjDescEvent(ItemObjDescEvent),
    GameEvent(GameEventBody),
    /// An opcode outside the dispatch table; the rest of the payload.
    Unknown { raw: Vec<u8> },
    /// A known opcode whose decoder failed, or a payload too short for an
    /// opcode; the undecoded bytes.
    Failed { raw: Vec<u8> },
}

/// One message cut out of an application payload.
#[derive(Debug, Clone)]
pub struct DissectedMessage {
    pub opcode: u32,
    pub message_type: String,
    pub body: MessageBody,
    pub trailing: Vec<u8>,
}

/// The raw remainder held by an undecoded body, empty for decoded ones.
pub open spec fn raw_of(b: MessageBody) -> Seq<u8> {
    match b {
        MessageBody::Unknown { raw } => raw@,
        MessageBody::Failed { raw } => raw@,
        _ => Seq::empty(),
    }
}

/// The message records a decoder failure on `d`, under the name `name`.
pub open spec fn failed_with(m: DissectedMessage, d: Seq<u8>, name: Seq<char>) -> bool {
    &&& m.message_type@ == name
    &&& (m.body matches MessageBody::Failed { raw } && raw@ == d.subrange(4, d.len() as int))
    &&& m.trailing@.len() == 0
}

/// The one message dissected from payload `d`: its opcode, its name from
/// the dispatch table, its fields decoded at offset 4, and the undecoded
/// remainder as trailing or raw bytes.
pub open spec fn dissected_ok(m: DissectedMessage, d: Seq<u8>) -> bool {
    if d.len() < 4 {
        &&& m.opcode == 0
        &&& m.message_type@ == "Malformed"@
        &&& (m.body matches MessageBody::Failed { raw } && raw@ == d)
        &&& m.trailing@.len() == 0
    } else {
        let op = le32(d, 0);
        &&& m.opcode == op
        &&& if op == 0x02CD {
            if d.len() >= 13 {
                &&& m.message_type@ == "Qualities_PrivateUpdateInt"@
                &&& (m.body matches MessageBody::PrivateUpdateInt(x) && private_update_int_matches(
                    x,
                    d,
                    4,
                ))
                &&& m.trailing@ == d.subrange(13, d.len() as int)
            } else {
                failed_with(m, d, "Qualities_PrivateUpdateInt"@)
            }
        } else if op == 0x02E9 {
            if d.len() >= 13 {
                &&& m.message_type@ == "Qualities_PrivateUpdateAttribute2ndLevel"@
                &&& (m.body matches MessageBody::PrivateUpdateAttribute2ndLevel(x)
                    && private_update_attribute_matches(x, d, 4))
                &&& m.trailing@ == d.subrange(13, d.len() as int)
            } else {
                failed_with(m, d, "Qualities_PrivateUpdateAttribute2ndLevel"@)
            }
        } else if op == 0x02CE {
            if d.len() >= 17 {
                &&& m.message_type@ == "Qualities_UpdateInt"@
                &&& (m.body matches MessageBody::UpdateInt(x) && update_int_matches(x, d, 4))
                &&& m.trailing@ == d.subrange(17, d.len() as int)
            } else {
                failed_with(m, d, "Qualities_UpdateInt"@)
            }
        } else if op == 0x02DA {
            if d.len() >= 17 {
                &&& m.message_type@ == "Qualities_UpdateInstanceId"@
                &&& (m.body matches MessageBody::UpdateInstanceId(x) && update_instance_id_matches(
                    x,
                    d,
                    4,
                ))
                &&& m.trailing@ == d.subrange(17, d.len() as int)
            } else {
                failed_with(m, d, "Qualities_UpdateInstanceId"@)
            }
        } else if op == 0xF74C {
            if d.len() >= 16 {
                &&& m.message_type@ == "Movement_SetObjectMovement"@
                &&& (m.body matches MessageBody::SetObjectMovement(x) && set_object_movement_matches(
                    x,
                    d,
                    4,
                ))
                &&& m.trailing@ == d.subrange(16, d.len() as int)
            } else {
                failed_with(m, d, "Movement_SetObjectMovement"@)
            }
        } else if op == 0xF74A {
            if d.len() >= 12 {
                &&& m.message_type@ == "Inventory_PickupEvent"@
                &&& (m.body matches MessageBody::PickupEvent(x) && pickup_event_matches(x, d, 4))
                &&& m.trailing@ == d.subrange(12, d.len() as int)
            } else {
                failed_with(m, d, "Inventory_PickupEvent"@)
            }
        } else if op == 0xF750 {
            if d.len() >= 16 {
                &&& m.message_type@ == "Effects_SoundEvent"@
                &&& (m.body matches MessageBody::SoundEvent(x) && sound_event_matches(x, d, 4))
                &&& m.trailing@ == d.subrange(16, d.len() as int)
            } else {
                failed_with(m, d, "Effects_SoundEvent"@)
            }
        } else if op == 0xF755 {
            if d.len() >= 16 {
                &&& m.message_type@ == "Effects_PlayScriptType"@
                &&& (m.body matches MessageBody::PlayScriptType(x) && play_script_type_matches(
                    x,
                    d,
                    4,
                ))
                &&& m.trailing@ == d.subrange(16, d.len() as int)
            } else {
                failed_with(m, d, "Effects_PlayScriptType"@)
            }
        } else if op == 0xF7E0 {
            if textbox_ok(d, 4) {
                &&& m.message_type@ == "Communication_TextboxString"@
                &&& (m.body matches MessageBody::TextboxString(x) && textbox_string_matches(
                    x,
                    d,
                    4,
                ))
                &&& m.trailing@ == d.subrange(textbox_end(d, 4), d.len() as int)
            } else {
                failed_with(m, d, "Communication_TextboxString"@)
            }
        } else if op == 0xF625 {
            if d.len() >= 8 {
                &&& m.message_type@ == "Item_ObjDescEvent"@
                &&& (m.body matches MessageBody::ObjDescEvent(x) && obj_desc_event_matches(x, d, 4))
                &&& m.trailing@ == d.subrange(obj_desc_event_end(d, 4), d.len() as int)
            } else {
                failed_with(m, d, "Item_ObjDescEvent"@)
            }
        } else if op == 0xF7B0 {
            if d.len() >= 16 {
                let et = le32(d, 12);
                if d.len() - 16 >= game_event_consumed(d, 16, et) {
                    &&& m.message_type@ == game_event_result_name(et)
                    &&& (m.body matches MessageBody::GameEvent(b) && game_event_body_matches(
                        b,
                        d,
                        16,
                        et,
                        le32(d, 4),
                        le32(d, 8),
                    ))
                    &&& m.trailing@ == d.subrange(
                        16 + game_event_consumed(d, 16, et),
                        d.len() as int,
                    )
                } else {
                    failed_with(m, d, game_event_result_name(et))
                }
            } else {
                failed_with(m, d, "Ordered_GameEvent"@)
            }
        } else {
            &&& m.message_type@ == "Message_"@ + hex04_chars(op as int)
            &&& (m.body matches MessageBody::Unknown { raw } && raw@ == d.subrange(
                4,
                d.len() as int,
            ))
            &&& m.trailing@.len() == 0
        }
    }
}

/// Everything from the cursor to the end of the data.
fn take_rest(r: &mut BinaryReader) -> (out: Vec<u8>)
    requires
        old(r).wf(),
    ensures
        final(r).wf(),
        final(r).data() == old(r).data(),
        final(r).pos() == old(r).data().len(),
        out@ == old(r).data().subrange(old(r).pos(), old(r).data().len() as int),
{
    let n = r.remaining();
    match r.read_bytes(n) {
        Ok(v) => v,
        Err(_) => Vec::new(),
    }
}

/// The message recording a decoder failure: the name, and everything
/// after the opcode as raw bytes.
fn failed_msg(r: &mut BinaryReader, op: u32, name: String) -> (m: DissectedMessage)
    requires
        old(r).wf(),
        old(r).data().len() >= 4,
    ensures
        final(r).wf(),
        final(r).data() == old(r).data(),
        m.opcode == op,
        failed_with(m, old(r).data(), name@),
{
    r.seek(4);
    let raw = take_rest(r);
    DissectedMessage {
        opcode: op,
        message_type: name,
        body: MessageBody::Failed { raw },
        trailing: Vec::new(),
    }
}

/// Dissect one application payload. A non-empty payload always yields
/// exactly one message; every payload byte lands in the opcode, the
/// declared fields, or the message's raw or trailing bytes.
pub fn dissect_payload(payload: &[u8]) -> (msgs: Vec<DissectedMessage>)
    ensures
        payload@.len() == 0 ==> msgs@.len() == 0,
        payload@.len() > 0 ==> msgs@.len() == 1 && dissected_ok(msgs@[0], payload@),
{
    let mut msgs: Vec<DissectedMessage> = Vec::new();
    if payload.len() == 0 {
        return msgs;
    }
    let mut r = BinaryReader::new(payload);
    let op = match r.read_u32() {
        Ok(v) => v,
        Err(_) => {
            let raw = take_rest(&mut r);
            assert(raw@ =~= payload@);
            msgs.push(
                DissectedMessage {
                    opcode: 0,
                    message_type: String::from_str("Malformed"),
                    body: MessageBody::Failed { raw },
                    trailing: Vec::new(),
                },
            );
            return msgs;
        },
    };
    let m = match op {
        0x02CD => match QualitiesPrivateUpdateInt::read(&mut r) {
            Ok(x) => {
                let trailing = take_rest(&mut r);
                let message_type = x.message_type.clone();
                DissectedMessage { opcode: op, message_type, body: MessageBody::PrivateUpdateInt(x), trailing }
            },
            Err(_) => failed_msg(&mut r, op, String::from_str("Qualities_PrivateUpdateInt")),
        },
        0x02E9 => match QualitiesPrivateUpdateAttribute2ndLevel::read(&mut r) {
            Ok(x) => {
                let trailing = take_rest(&mut r);
                let message_type = x.message_type.clone();
                DissectedMessage {
                    opcode: op,
                    message_type,
                    body: MessageBody::PrivateUpdateAttribute2ndLevel(x),
                    trailing,
                }
            },
            Err(_) => failed_msg(
                &mut r,
                op,
                String::from_str("Qualities_PrivateUpdateAttribute2ndLevel"),
            ),
        },
        0x02CE => match QualitiesUpdateInt::read(&mut r) {
            Ok(x) => {
                let trailing = take_rest(&mut r);
                let message_type = x.message_type.clone();
                DissectedMessage { opcode: op, message_type, body: MessageBody::UpdateInt(x), trailing }
            },
            Err(_) => failed_msg(&mut r, op, String::from_str("Qualities_UpdateInt")),
        },
        0x02DA => match QualitiesUpdateInstanceId::read(&mut r) {
            Ok(x) => {
                let trailing = take_rest(&mut r);
                let message_type = x.message_type.clone();
                DissectedMessage { opcode: op, message_type, body: MessageBody::UpdateInstanceId(x), trailing }
            },
            Err(_) => failed_msg(&mut r, op, String::from_str("Qualities_UpdateInstanceId")),
        },
        0xF74C => match MovementSetObjectMovement::read(&mut r) {
            Ok(x) => {
                let trailing = take_rest(&mut r);
                let message_type = x.message_type.clone();
                DissectedMessage { opcode: op, message_type, body: MessageBody::SetObjectMovement(x), trailing }
            },
            Err(_) => failed_msg(&mut r, op, String::from_str("Movement_SetObjectMovement")),
        },
        0xF74A => match InventoryPickupEvent::read(&mut r) {
            Ok(x) => {
                let trailing = take_rest(&mut r);
                let message_type = x.message_type.clone();
                DissectedMessage { opcode: op, message_type, body: MessageBody::PickupEvent(x), trailing }
            },
            Err(_) => failed_msg(&mut r, op, String::from_str("Inventory_PickupEvent")),
        },
        0xF750 => match EffectsSoundEvent::read(&mut r) {
            Ok(x) => {
                let trailing = take_rest(&mut r);
                let message_type = x.message_type.clone();
                DissectedMessage { opcode: op, message_type, body: MessageBody::SoundEvent(x), trailing }
            },
            Err(_) => failed_msg(&mut r, op, String::from_str("Effects_SoundEvent")),
        },
        0xF755 => match EffectsPlayScriptType::read(&mut r) {
            Ok(x) => {
                let trailing = take_rest(&mut r);
                let message_type = x.message_type.clone();
                DissectedMessage { opcode: op, message_type, body: MessageBody::PlayScriptType(x), trailing }
            },
            Err(_) => failed_msg(&mut r, op, String::from_str("Effects_PlayScriptType")),
        },
        0xF7E0 => match CommunicationTextboxString::read(&mut r) {
            Ok(x) => {
                let trailing = take_rest(&mut r);
                let message_type = x.message_type.clone();
                DissectedMessage { opcode: op, message_type, body: MessageBody::TextboxString(x), trailing }
            },
            Err(_) => failed_msg(&mut r, op, String::from_str("Communication_TextboxString")),
        },
        0xF625 => match ItemObjDescEvent::read(&mut r) {
            Ok(x) => {
                let trailing = take_rest(&mut r);
                let message_type = x.message_type.clone();
                DissectedMessage { opcode: op, message_type, body: MessageBody::ObjDescEvent(x), trailing }
            },
            Err(_) => failed_msg(&mut r, op, String::from_str("Item_ObjDescEvent")),
        },
        0xF7B0 => {
            let oid = match r.read_u32() {
                Ok(v) => v,
                Err(_) => { return push_one(msgs, failed_msg(&mut r, op, String::from_str("Ordered_GameEvent"))); },
            };
            let seq = match r.read_u32() {
                Ok(v) => v,
                Err(_) => { return push_one(msgs, failed_msg(&mut r, op, String::from_str("Ordered_GameEvent"))); },
            };
            let et = match r.read_u32() {
                Ok(v) => v,
                Err(_) => { return push_one(msgs, failed_msg(&mut r, op, String::from_str("Ordered_GameEvent"))); },
            };
            match parse_game_event(&mut r, oid, seq, et) {
                Ok((name, body)) => {
                    let trailing = take_rest(&mut r);
                    DissectedMessage { opcode: op, message_type: name, body: MessageBody::GameEvent(body), trailing }
                },
                Err(_) => failed_msg(&mut r, op, crate::s2c::event_result_name(et)),
            }
        },
        _ => {
            let raw = take_rest(&mut r);
            let mut name = String::from_str("Message_");
            let h = hex04_string(op);
            name.append(h.as_str());
            DissectedMessage { opcode: op, message_type: name, body: MessageBody::Unknown { raw }, trailing: Vec::new() }
        },
    };
    msgs.push(m);
    msgs
}

/// Append the message and hand the vector back.
fn push_one(msgs: Vec<DissectedMessage>, m: DissectedMessage) -> (out: Vec<DissectedMessage>)
    ensures
        out@ == msgs@.push(m),
{
    let mut msgs = msgs;
    msgs.push(m);
    msgs
}

/// Dissector byte accounting, for every payload: with at least four
/// bytes, the opcode bytes, the declared field region, and the message's
/// raw and trailing bytes cover the payload exactly, in that order; a
/// shorter payload is carried whole in the message's raw bytes.
pub proof fn lemma_dissect_accounting(m: DissectedMessage, d: Seq<u8>)
    requires
        dissected_ok(m, d),
    ensures
        ({
            let tail = raw_of(m.body) + m.trailing@;
            if d.len() >= 4 {
                &&& tail.len() <= d.len() - 4
                &&& d =~= u32_le_bytes(le32(d, 0)) + d.subrange(4, d.len() - tail.len()) + tail
            } else {
                tail =~= d
            }
        }),
{
    let tail = raw_of(m.body) + m.trailing@;
    if d.len() >= 4 {
        lemma_u32_bytes_id(d, 0);
        assert(tail =~= d.subrange(d.len() - tail.len(), d.len() as int));
    } else {
        assert(tail =~= d);
    }
}

/// Unknown-opcode preservation: the four opcode bytes followed by the
/// message's raw bytes are exactly the original payload.
pub proof fn lemma_unknown_opcode_preserves(m: DissectedMessage, d: Seq<u8>)
    requires
        d.len() >= 4,
        dissected_ok(m, d),
        m.body matches MessageBody::Unknown { .. },
    ensures
        u32_le_bytes(m.opcode) + raw_of(m.body) =~= d,
{
    lemma_u32_bytes_id(d, 0);
}

} // verus!
