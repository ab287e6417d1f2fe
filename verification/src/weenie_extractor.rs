//! Per-message-type extraction rules: which entity updates a dissected
//! message contributes to the database.

use vstd::prelude::*;
use crate::dissector::{DissectedMessage, MessageBody};
use crate::s2c::GameEventBody;
use crate::weenie::WeenieUpdate;

verus! {

/// The updates a message contributes: integer and instance-id property
/// updates land on their entity, private integer updates on the
/// local-player entity, a dispel removes its enchantment layer, and
/// every other message — unknown, failed, or schema-deferred — produces
/// nothing.
pub open spec fn updates_of(b: MessageBody) -> Seq<WeenieUpdate> {
    match b {
        MessageBody::UpdateInt(x) => seq![
            WeenieUpdate::SetInt { object_id: x.object_id, key: x.key_raw, value: x.value },
        ],
        MessageBody::UpdateInstanceId(x) => seq![
            WeenieUpdate::SetInstanceId { object_id: x.object_id, key: x.key_raw, value: x.value },
        ],
        MessageBody::PrivateUpdateInt(x) => seq![
            WeenieUpdate::SetPrivateInt { key: x.key_raw, value: x.value },
        ],
        MessageBody::GameEvent(ge) => match ge {
            GameEventBody::DispelEnchantment(d) => seq![
                WeenieUpdate::DispelEnchantment {
                    object_id: d.ordered_object_id,
                    spell_id: d.spell_id.id,
                    layer: d.spell_id.layer,
                },
            ],
            _ => Seq::empty(),
        },
        _ => Seq::empty(),
    }
}

/// The updates one dissected message contributes, in order.
pub fn extract_weenie_updates(m: &DissectedMessage) -> (r: Vec<WeenieUpdate>)
    ensures
        r@ == updates_of(m.body),
{
    let mut out: Vec<WeenieUpdate> = Vec::new();
    match &m.body {
        MessageBody::UpdateInt(x) => {
            out.push(
                WeenieUpdate::SetInt { object_id: x.object_id, key: x.key_raw, value: x.value },
            );
        },
        MessageBody::UpdateInstanceId(x) => {
            out.push(
                WeenieUpdate::SetInstanceId {
                    object_id: x.object_id,
                    key: x.key_raw,
                    value: x.value,
                },
            );
        },
        MessageBody::PrivateUpdateInt(x) => {
            out.push(WeenieUpdate::SetPrivateInt { key: x.key_raw, value: x.value });
        },
        MessageBody::GameEvent(ge) => match ge {
            GameEventBody::DispelEnchantment(d) => {
                out.push(
                    WeenieUpdate::DispelEnchantment {
                        object_id: d.ordered_object_id,
                        spell_id: d.spell_id.id,
                        layer: d.spell_id.layer,
                    },
                );
            },
            _ => {},
        },
        _ => {},
    }
    proof {
        assert(out@ =~= updates_of(m.body));
    }
    out
}

} // verus!
