//! The entity ("weenie") database: a keyed bag of in-world objects, each
//! carrying a property bag and an enchantment list, upserted as the
//! message stream is folded over it.

use vstd::prelude::*;
use crate::s2c::LayeredSpellId;

verus! {

/// A categorized property key on an entity.
#[derive(Clone, Copy, Debug, PartialEq, Eq, Structural)]
pub enum PropertyKey {
    Int(u32),
    Float(u32),
    Bool(u32),
    InstanceId(u32),
    Text(u32),
    DataId(u32),
    Vital(u32),
}

/// A property value, typed per key category. Float values keep their
/// raw bits.
#[derive(Clone, Debug)]
pub enum PropertyValue {
    Int(i32),
    UInt(u32),
    FloatBits(u64),
    Flag(bool),
    Text(String),
    Id(u32),
}

/// One in-world entity.
#[derive(Debug, Clone)]
pub struct Weenie {
    pub id: u32,
    pub properties: Vec<(PropertyKey, PropertyValue)>,
    pub enchantments: Vec<LayeredSpellId>,
    pub last_seen_ts: u32,
}

/// Property keys are unique within one entity.
pub open spec fn weenie_wf(w: Weenie) -> bool {
    forall|i: int, j: int|
        0 <= i < j < w.properties@.len() ==> w.properties@[i].0 != w.properties@[j].0
}

/// The first position of `k` in `props`, or the length when absent.
pub open spec fn find_key(props: Seq<(PropertyKey, PropertyValue)>, k: PropertyKey) -> int
    decreases props.len(),
{
    if props.len() == 0 {
        0
    } else if props[0].0 == k {
        0
    } else {
        1 + find_key(props.drop_first(), k)
    }
}

/// Overwrite the value under `k`, or append the pair when `k` is new:
/// keys observed earlier are never lost.
pub open spec fn set_prop(
    props: Seq<(PropertyKey, PropertyValue)>,
    k: PropertyKey,
    v: PropertyValue,
) -> Seq<(PropertyKey, PropertyValue)> {
    if find_key(props, k) < props.len() {
        props.update(find_key(props, k), (k, v))
    } else {
        props.push((k, v))
    }
}

proof fn lemma_find_key(props: Seq<(PropertyKey, PropertyValue)>, k: PropertyKey)
    ensures
        0 <= find_key(props, k) <= props.len(),
        find_key(props, k) < props.len() ==> props[find_key(props, k)].0 == k,
        forall|j: int| 0 <= j < find_key(props, k) ==> props[j].0 != k,
    decreases props.len(),
{
    if props.len() > 0 && props[0].0 != k {
        lemma_find_key(props.drop_first(), k);
        assert forall|j: int| 0 <= j < find_key(props, k) implies props[j].0 != k by {
            if j > 0 {
                assert(props.drop_first()[j - 1].0 != k);
            }
        };
        if find_key(props, k) < props.len() {
            assert(props.drop_first()[find_key(props.drop_first(), k)].0 == k);
        }
    }
}

/// The database: entities in the order first observed.
#[derive(Debug, Clone)]
pub struct WeenieDatabase {
    weenies: Vec<Weenie>,
}

/// The first position of entity `id`, or the length when absent.
pub open spec fn find_id(ws: Seq<Weenie>, id: u32) -> int
    decreases ws.len(),
{
    if ws.len() == 0 {
        0
    } else if ws[0].id == id {
        0
    } else {
        1 + find_id(ws.drop_first(), id)
    }
}

proof fn lemma_find_id(ws: Seq<Weenie>, id: u32)
    ensures
        0 <= find_id(ws, id) <= ws.len(),
        find_id(ws, id) < ws.len() ==> ws[find_id(ws, id)].id == id,
        forall|j: int| 0 <= j < find_id(ws, id) ==> ws[j].id != id,
    decreases ws.len(),
{
    if ws.len() > 0 && ws[0].id != id {
        lemma_find_id(ws.drop_first(), id);
        assert forall|j: int| 0 <= j < find_id(ws, id) implies ws[j].id != id by {
            if j > 0 {
                assert(ws.drop_first()[j - 1].id != id);
            }
        };
        if find_id(ws, id) < ws.len() {
            assert(ws.drop_first()[find_id(ws.drop_first(), id)].id == id);
        }
    }
}

impl WeenieDatabase {
    /// The entities in first-observed order.
    pub closed spec fn view_spec(self) -> Seq<Weenie> {
        self.weenies@
    }

    /// Entity ids unique; each entity's property keys unique.
    pub closed spec fn wf(self) -> bool {
        &&& forall|i: int, j: int|
            0 <= i < j < self.weenies@.len() ==> self.weenies@[i].id != self.weenies@[j].id
        &&& forall|i: int|
            0 <= i < self.weenies@.len() ==> weenie_wf(#[trigger] self.weenies@[i])
    }

    pub fn new() -> (r: Self)
        ensures
            r.wf(),
            r.view_spec() == Seq::<Weenie>::empty(),
    {
        WeenieDatabase { weenies: Vec::new() }
    }

    /// How many entities have been observed.
    pub fn count(&self) -> (r: usize)
        ensures
            r == self.view_spec().len(),
    {
        self.weenies.len()
    }

    /// The entity with this id, if one was observed.
    pub fn get(&self, id: u32) -> (r: Option<&Weenie>)
        requires
            self.wf(),
        ensures
            find_id(self.view_spec(), id) < self.view_spec().len() ==> (r is Some && *r->0
                == self.view_spec()[find_id(self.view_spec(), id)]),
            find_id(self.view_spec(), id) >= self.view_spec().len() ==> r is None,
    {
        proof {
            lemma_find_id(self.weenies@, id);
        }
        let mut i: usize = 0;
        while i < self.weenies.len()
            invariant
                self.wf(),
                i <= self.weenies@.len(),
                forall|j: int| 0 <= j < i ==> self.weenies@[j].id != id,
            decreases self.weenies@.len() - i,
        {
            if self.weenies[i].id == id {
                proof {
                    lemma_find_id(self.weenies@, id);
                    assert(find_id(self.weenies@, id) == i) by {
                        if find_id(self.weenies@, id) < i {
                            assert(self.weenies@[find_id(self.weenies@, id)].id != id);
                        }
                    };
                }
                return Some(&self.weenies[i]);
            }
            i = i + 1;
        }
        None
    }
}

/// The local-player entity's id: private updates land on it.
pub const SELF_OBJECT_ID: u32 = 0;

/// One decoded entity update.
#[derive(Clone, Copy, Debug, PartialEq, Eq, Structural)]
pub enum WeenieUpdate {
    /// Set an integer property on an entity.
    SetInt { object_id: u32, key: u32, value: i32 },
    /// Set an instance-id property on an entity.
    SetInstanceId { object_id: u32, key: u32, value: u32 },
    /// Set an integer property on the local-player entity.
    SetPrivateInt { key: u32, value: i32 },
    /// Remove one enchantment layer from an entity.
    DispelEnchantment { object_id: u32, spell_id: u32, layer: u16 },
}

/// The mathematical state of one entity.
pub struct WeenieModel {
    pub id: u32,
    pub props: Seq<(PropertyKey, PropertyValue)>,
    pub ench: Seq<LayeredSpellId>,
    pub last_seen: u32,
}

/// The model of one stored entity.
pub open spec fn wmodel(w: Weenie) -> WeenieModel {
    WeenieModel {
        id: w.id,
        props: w.properties@,
        ench: w.enchantments@,
        last_seen: w.last_seen_ts,
    }
}

/// An entity first observed through this update.
pub open spec fn fresh_weenie(id: u32) -> WeenieModel {
    WeenieModel { id, props: Seq::empty(), ench: Seq::empty(), last_seen: 0 }
}

/// The entity an update lands on.
pub open spec fn target_id(u: WeenieUpdate) -> u32 {
    match u {
        WeenieUpdate::SetInt { object_id, .. } => object_id,
        WeenieUpdate::SetInstanceId { object_id, .. } => object_id,
        WeenieUpdate::SetPrivateInt { .. } => SELF_OBJECT_ID,
        WeenieUpdate::DispelEnchantment { object_id, .. } => object_id,
    }
}

/// The enchantment list without the `(spell, layer)` entries.
pub open spec fn remove_ench(e: Seq<LayeredSpellId>, spell: u32, layer: u16) -> Seq<
    LayeredSpellId,
>
    decreases e.len(),
{
    if e.len() == 0 {
        Seq::empty()
    } else {
        let rest = remove_ench(e.drop_first(), spell, layer);
        if e[0].id == spell && e[0].layer == layer {
            rest
        } else {
            seq![e[0]] + rest
        }
    }
}

/// One update applied to one entity: properties are overwritten by key
/// and never deleted; a dispel removes the named enchantment layer; the
/// entity's last-seen time moves to `ts`.
pub open spec fn apply_to(w: WeenieModel, u: WeenieUpdate, ts: u32) -> WeenieModel {
    match u {
        WeenieUpdate::SetInt { key, value, .. } => WeenieModel {
            props: set_prop(w.props, PropertyKey::Int(key), PropertyValue::Int(value)),
            last_seen: ts,
            ..w
        },
        WeenieUpdate::SetInstanceId { key, value, .. } => WeenieModel {
            props: set_prop(w.props, PropertyKey::InstanceId(key), PropertyValue::UInt(value)),
            last_seen: ts,
            ..w
        },
        WeenieUpdate::SetPrivateInt { key, value } => WeenieModel {
            props: set_prop(w.props, PropertyKey::Int(key), PropertyValue::Int(value)),
            last_seen: ts,
            ..w
        },
        WeenieUpdate::DispelEnchantment { spell_id, layer, .. } => WeenieModel {
            ench: remove_ench(w.ench, spell_id, layer),
            last_seen: ts,
            ..w
        },
    }
}

/// The first position of entity `id` in the model, or the length.
pub open spec fn find_mid(db: Seq<WeenieModel>, id: u32) -> int
    decreases db.len(),
{
    if db.len() == 0 {
        0
    } else if db[0].id == id {
        0
    } else {
        1 + find_mid(db.drop_first(), id)
    }
}

proof fn lemma_find_mid(db: Seq<WeenieModel>, id: u32)
    ensures
        0 <= find_mid(db, id) <= db.len(),
        find_mid(db, id) < db.len() ==> db[find_mid(db, id)].id == id,
        forall|j: int| 0 <= j < find_mid(db, id) ==> db[j].id != id,
    decreases db.len(),
{
    if db.len() > 0 && db[0].id != id {
        lemma_find_mid(db.drop_first(), id);
        assert forall|j: int| 0 <= j < find_mid(db, id) implies db[j].id != id by {
            if j > 0 {
                assert(db.drop_first()[j - 1].id != id);
            }
        };
        if find_mid(db, id) < db.len() {
            assert(db.drop_first()[find_mid(db.drop_first(), id)].id == id);
        }
    }
}

/// One update applied to the database: the target entity is updated in
/// place, or appended when first observed. Entities are never deleted.
pub open spec fn apply_update_model(db: Seq<WeenieModel>, u: WeenieUpdate, ts: u32) -> Seq<
    WeenieModel,
> {
    let id = target_id(u);
    let i = find_mid(db, id);
    if i < db.len() {
        db.update(i, apply_to(db[i], u, ts))
    } else {
        db.push(apply_to(fresh_weenie(id), u, ts))
    }
}

/// A stream of updates folded over the database in order.
pub open spec fn apply_updates_model(
    db: Seq<WeenieModel>,
    us: Seq<(WeenieUpdate, u32)>,
) -> Seq<WeenieModel>
    decreases us.len(),
{
    if us.len() == 0 {
        db
    } else {
        apply_updates_model(apply_update_model(db, us[0].0, us[0].1), us.drop_first())
    }
}

/// Extractor determinism: extraction is a pure fold over the delivery-
/// ordered update stream, so folding the concatenation of two streams is
/// folding the first and then folding the second from where it left off
/// — and replaying the same stream rebuilds the identical database.
pub proof fn lemma_extract_concat(
    db: Seq<WeenieModel>,
    a: Seq<(WeenieUpdate, u32)>,
    b: Seq<(WeenieUpdate, u32)>,
)
    ensures
        apply_updates_model(db, a + b) == apply_updates_model(apply_updates_model(db, a), b),
    decreases a.len(),
{
    if a.len() == 0 {
        assert(a + b =~= b);
    } else {
        assert((a + b)[0] == a[0]);
        assert((a + b).drop_first() =~= a.drop_first() + b);
        lemma_extract_concat(apply_update_model(db, a[0].0, a[0].1), a.drop_first(), b);
    }
}

impl WeenieDatabase {
    /// The database as a sequence of entity models, in first-observed
    /// order.
    pub open spec fn model(self) -> Seq<WeenieModel> {
        self.view_spec().map_values(|w: Weenie| wmodel(w))
    }

    /// Apply one update stamped with the capture time `ts`, exactly as
    /// [`apply_update_model`] says.
    pub fn add_or_update(&mut self, u: WeenieUpdate, ts: u32)
        requires
            old(self).wf(),
        ensures
            final(self).wf(),
            final(self).model() =~= apply_update_model(old(self).model(), u, ts),
    {
        let id: u32 = match u {
            WeenieUpdate::SetInt { object_id, .. } => object_id,
            WeenieUpdate::SetInstanceId { object_id, .. } => object_id,
            WeenieUpdate::SetPrivateInt { .. } => SELF_OBJECT_ID,
            WeenieUpdate::DispelEnchantment { object_id, .. } => object_id,
        };
        proof {
            lemma_find_mid(self.model(), id);
            assert(self.model().len() == self.weenies@.len());
        }
        let mut i: usize = 0;
        let mut found: usize = self.weenies.len();
        let n = self.weenies.len();
        while i < n
            invariant
                self.wf(),
                n == self.weenies@.len(),
                i <= n,
                found <= n,
                found == n ==> forall|j: int| 0 <= j < i ==> self.weenies@[j].id != id,
                found < n ==> self.weenies@[found as int].id == id,
            decreases n - i,
        {
            if found == n && self.weenies[i].id == id {
                found = i;
            }
            i = i + 1;
        }
        if found < n {
            proof {
                assert(find_mid(self.model(), id) == found) by {
                    lemma_find_mid(self.model(), id);
                    assert(self.model()[found as int].id == id);
                    if find_mid(self.model(), id) < found {
                        assert(self.weenies@[find_mid(self.model(), id)].id != id);
                        assert(self.model()[find_mid(self.model(), id)].id != id);
                    }
                };
            }
            let w = self.weenies.remove(found);
            let w2 = apply_weenie_update(w, u, ts);
            self.weenies.insert(found, w2);
            proof {
                assert(self.weenies@ =~= old(self).view_spec().update(
                    found as int,
                    self.weenies@[found as int],
                ));
            }
        } else {
            proof {
                assert(find_mid(self.model(), id) == self.model().len()) by {
                    lemma_find_mid(self.model(), id);
                    if find_mid(self.model(), id) < self.model().len() {
                        assert(self.weenies@[find_mid(self.model(), id)].id != id);
                        assert(self.model()[find_mid(self.model(), id)].id != id);
                    }
                };
            }
            let w = Weenie { id, properties: Vec::new(), enchantments: Vec::new(), last_seen_ts: 0 };
            proof {
                assert(wmodel(w) =~= fresh_weenie(id)) by {
                    assert(w.properties@ =~= Seq::<(PropertyKey, PropertyValue)>::empty());
                    assert(w.enchantments@ =~= Seq::<LayeredSpellId>::empty());
                };
            }
            let w2 = apply_weenie_update(w, u, ts);
            self.weenies.push(w2);
        }
    }
}

/// One update applied to one stored entity, exactly as [`apply_to`]
/// says.
fn apply_weenie_update(w: Weenie, u: WeenieUpdate, ts: u32) -> (r: Weenie)
    requires
        weenie_wf(w),
    ensures
        weenie_wf(r),
        wmodel(r) == apply_to(wmodel(w), u, ts),
        r.id == w.id,
{
    let mut w = w;
    w.last_seen_ts = ts;
    match u {
        WeenieUpdate::SetInt { key, value, .. } => {
            set_property(&mut w.properties, PropertyKey::Int(key), PropertyValue::Int(value));
        },
        WeenieUpdate::SetInstanceId { key, value, .. } => {
            set_property(
                &mut w.properties,
                PropertyKey::InstanceId(key),
                PropertyValue::UInt(value),
            );
        },
        WeenieUpdate::SetPrivateInt { key, value } => {
            set_property(&mut w.properties, PropertyKey::Int(key), PropertyValue::Int(value));
        },
        WeenieUpdate::DispelEnchantment { spell_id, layer, .. } => {
            remove_enchantment(&mut w.enchantments, spell_id, layer);
        },
    }
    w
}

/// Overwrite the value under `k`, or append it, exactly as [`set_prop`]
/// says; unique keys stay unique.
fn set_property(props: &mut Vec<(PropertyKey, PropertyValue)>, k: PropertyKey, v: PropertyValue)
    requires
        forall|i: int, j: int|
            0 <= i < j < old(props)@.len() ==> old(props)@[i].0 != old(props)@[j].0,
    ensures
        final(props)@ == set_prop(old(props)@, k, v),
        forall|i: int, j: int|
            0 <= i < j < final(props)@.len() ==> final(props)@[i].0 != final(props)@[j].0,
{
    proof {
        lemma_find_key(props@, k);
    }
    let n = props.len();
    let mut i: usize = 0;
    let mut found: usize = n;
    while i < n
        invariant
            n == props@.len(),
            i <= n,
            found <= n,
            found == n ==> forall|j: int| 0 <= j < i ==> props@[j].0 != k,
            found < n ==> props@[found as int].0 == k,
        decreases n - i,
    {
        if found == n && props[i].0 == k {
            found = i;
        }
        i = i + 1;
    }
    if found < n {
        proof {
            assert(find_key(props@, k) == found) by {
                lemma_find_key(props@, k);
                if find_key(props@, k) < found {
                    assert(props@[find_key(props@, k)].0 != k);
                } else if find_key(props@, k) > found {
                    assert(props@[found as int].0 != k);
                }
            };
        }
        props[found] = (k, v);
    } else {
        proof {
            assert(find_key(props@, k) == props@.len()) by {
                lemma_find_key(props@, k);
                if find_key(props@, k) < props@.len() {
                    assert(props@[find_key(props@, k)].0 != k);
                }
            };
        }
        props.push((k, v));
    }
}

/// Remove every `(spell, layer)` entry, exactly as [`remove_ench`] says.
fn remove_enchantment(ench: &mut Vec<LayeredSpellId>, spell: u32, layer: u16)
    ensures
        final(ench)@ == remove_ench(old(ench)@, spell, layer),
{
    let mut out: Vec<LayeredSpellId> = Vec::new();
    proof {
        assert(ench@.skip(0) =~= ench@);
    }
    let mut i: usize = 0;
    while i < ench.len()
        invariant
            i <= ench@.len(),
            out@ + remove_ench(ench@.skip(i as int), spell, layer) == remove_ench(
                ench@,
                spell,
                layer,
            ),
        decreases ench@.len() - i,
    {
        let e = ench[i];
        proof {
            assert(ench@.skip(i as int).drop_first() =~= ench@.skip(i + 1));
            assert(ench@.skip(i as int)[0] == ench@[i as int]);
        }
        if !(e.id == spell && e.layer == layer) {
            out.push(e);
            proof {
                assert(out@ + remove_ench(ench@.skip(i + 1), spell, layer) =~= out@.drop_last()
                    + (seq![ench@[i as int]] + remove_ench(ench@.skip(i + 1), spell, layer)));
            }
        }
        i = i + 1;
    }
    proof {
        assert(ench@.skip(ench@.len() as int) =~= Seq::<LayeredSpellId>::empty());
        assert(out@ =~= out@ + remove_ench(ench@.skip(ench@.len() as int), spell, layer));
    }
    *ench = out;
}

} // verus!
