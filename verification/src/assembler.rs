//! Per-stream reassembly of fragmented application messages: groups are
//! keyed by `(stream, group id)`, filled slot by slot, and emitted as one
//! payload the moment the last slot arrives.

use vstd::prelude::*;
use vstd::map::*;

verus! {

/// Errors and diagnostics raised while pushing fragments.
#[derive(Clone, Copy, Debug, PartialEq, Eq, Structural)]
pub enum AsmError {
    /// A fragment count of zero, or an index at or past the count.
    InvalidFragment,
    /// A retransmission that contradicts what the group already holds.
    FragmentConflict,
    /// A fragment larger than the configured per-fragment byte bound.
    FragmentTooLarge,
}

/// Identifies the reassembly group of a fragment: the direction of the
/// session it belongs to and the group id from its sub-header.
#[derive(Clone, Copy, Debug, PartialEq, Eq, Structural)]
pub struct FragmentKey {
    pub stream_id: u8,
    pub group_id: u32,
}

/// The mathematical state of one group: its fragment count, the slots
/// received so far, and the capture timestamps that staleness goes by.
pub struct GroupModel {
    pub count: int,
    pub slots: Map<int, Seq<u8>>,
    pub created_at: int,
    pub last_update: int,
}

/// All slots `0 .. count` are present.
pub open spec fn group_complete(g: GroupModel) -> bool {
    forall|i: int| 0 <= i < g.count ==> g.slots.contains_key(i)
}

/// The slots `0 .. n` concatenated in index order.
pub open spec fn assemble_upto(slots: Map<int, Seq<u8>>, n: int) -> Seq<u8>
    decreases n,
{
    if n <= 0 {
        Seq::empty()
    } else {
        assemble_upto(slots, n - 1) + slots[n - 1]
    }
}

/// The whole group concatenated in index order.
pub open spec fn assemble(g: GroupModel) -> Seq<u8> {
    assemble_upto(g.slots, g.count)
}

/// What one fragment did to the assembler.
pub enum PushOutcome {
    /// A complete payload came out.
    Emitted(Seq<u8>),
    /// The fragment was stored; the group is still incomplete.
    Buffered,
    /// An identical retransmission; nothing changed.
    Duplicate,
    /// The fragment was invalid or contradicted the group.
    Rejected,
}

/// The assembler's transition on one fragment: a single-fragment message
/// is emitted directly; otherwise the slot is written idempotently, and
/// the group is retired the moment every slot is present. A conflicting
/// retransmission or count drops the group.
pub open spec fn push_step(
    s: Map<FragmentKey, GroupModel>,
    k: FragmentKey,
    count: int,
    index: int,
    data: Seq<u8>,
    now: int,
) -> (Map<FragmentKey, GroupModel>, PushOutcome) {
    if count == 1 && index == 0 {
        (s, PushOutcome::Emitted(data))
    } else if count < 1 || index < 0 || index >= count {
        (s, PushOutcome::Rejected)
    } else if !s.contains_key(k) {
        (
            s.insert(
                k,
                GroupModel {
                    count,
                    slots: Map::empty().insert(index, data),
                    created_at: now,
                    last_update: now,
                },
            ),
            PushOutcome::Buffered,
        )
    } else {
        let g = s[k];
        if g.count != count {
            (s.remove(k), PushOutcome::Rejected)
        } else if g.slots.contains_key(index) {
            if g.slots[index] == data {
                (s, PushOutcome::Duplicate)
            } else {
                (s.remove(k), PushOutcome::Rejected)
            }
        } else {
            let g2 = GroupModel {
                count,
                slots: g.slots.insert(index, data),
                created_at: g.created_at,
                last_update: now,
            };
            if group_complete(g2) {
                (s.remove(k), PushOutcome::Emitted(assemble(g2)))
            } else {
                (s.insert(k, g2), PushOutcome::Buffered)
            }
        }
    }
}

/// The executable result agrees with the model's outcome.
pub open spec fn outcome_matches(o: PushOutcome, r: Result<Option<Vec<u8>>, AsmError>) -> bool {
    match o {
        PushOutcome::Emitted(b) => r is Ok && r->Ok_0 is Some && r->Ok_0->0@ == b,
        PushOutcome::Buffered => r is Ok && r->Ok_0 is None,
        PushOutcome::Duplicate => r is Ok && r->Ok_0 is None,
        PushOutcome::Rejected => r is Err,
    }
}

/// One tracked reassembly group.
pub struct FragmentGroup {
    pub key: FragmentKey,
    pub total_count: u16,
    pub received: Vec<bool>,
    pub buffer: Vec<Vec<u8>>,
    pub created_at: u32,
    pub last_update: u32,
}

/// The group's slot vectors cover its count.
pub open spec fn group_wf(g: FragmentGroup) -> bool {
    &&& g.received@.len() == g.total_count
    &&& g.buffer@.len() == g.total_count
    &&& g.total_count >= 2
}

/// The model of one tracked group.
pub open spec fn gmodel(g: FragmentGroup) -> GroupModel {
    GroupModel {
        count: g.total_count as int,
        slots: Map::new(
            |i: int| 0 <= i < g.total_count && g.received@[i],
            |i: int| g.buffer@[i]@,
        ),
        created_at: g.created_at as int,
        last_update: g.last_update as int,
    }
}

/// The map that a sequence of tracked groups stands for.
pub open spec fn seq_view(gs: Seq<FragmentGroup>) -> Map<FragmentKey, GroupModel>
    decreases gs.len(),
{
    if gs.len() == 0 {
        Map::empty()
    } else {
        seq_view(gs.drop_last()).insert(gs.last().key, gmodel(gs.last()))
    }
}

/// No two tracked groups share a key.
pub open spec fn keys_distinct(gs: Seq<FragmentGroup>) -> bool {
    forall|i: int, j: int| 0 <= i < j < gs.len() ==> gs[i].key != gs[j].key
}

proof fn lemma_seq_view_index(gs: Seq<FragmentGroup>, i: int)
    requires
        keys_distinct(gs),
        0 <= i < gs.len(),
    ensures
        seq_view(gs).contains_key(gs[i].key),
        seq_view(gs)[gs[i].key] == gmodel(gs[i]),
    decreases gs.len(),
{
    if i == gs.len() - 1 {
    } else {
        assert(keys_distinct(gs.drop_last()));
        lemma_seq_view_index(gs.drop_last(), i);
        assert(gs.drop_last()[i] == gs[i]);
        assert(gs[i].key != gs.last().key);
    }
}

proof fn lemma_seq_view_absent(gs: Seq<FragmentGroup>, k: FragmentKey)
    requires
        forall|i: int| 0 <= i < gs.len() ==> gs[i].key != k,
    ensures
        !seq_view(gs).contains_key(k),
    decreases gs.len(),
{
    if gs.len() > 0 {
        lemma_seq_view_absent(gs.drop_last(), k);
    }
}

proof fn lemma_seq_view_remove(gs: Seq<FragmentGroup>, i: int)
    requires
        keys_distinct(gs),
        0 <= i < gs.len(),
    ensures
        seq_view(gs.remove(i)) =~= seq_view(gs).remove(gs[i].key),
    decreases gs.len(),
{
    let k = gs[i].key;
    if i == gs.len() - 1 {
        assert(gs.remove(i) =~= gs.drop_last());
        assert(forall|j: int| 0 <= j < gs.drop_last().len() ==> gs.drop_last()[j].key != k);
        lemma_seq_view_absent(gs.drop_last(), k);
        assert(seq_view(gs.drop_last()) =~= seq_view(gs.drop_last()).insert(k, gmodel(gs[i])).remove(
            k,
        ));
    } else {
        assert(keys_distinct(gs.drop_last()));
        lemma_seq_view_remove(gs.drop_last(), i);
        assert(gs.remove(i).drop_last() =~= gs.drop_last().remove(i));
        assert(gs.remove(i).last() == gs.last());
        assert(gs.remove(i).len() == gs.len() - 1);
        assert(seq_view(gs.remove(i)) =~= seq_view(gs.drop_last().remove(i)).insert(
            gs.last().key,
            gmodel(gs.last()),
        ));
        assert(gs[i].key != gs.last().key);
    }
}

proof fn lemma_seq_view_dom(gs: Seq<FragmentGroup>)
    requires
        keys_distinct(gs),
    ensures
        seq_view(gs).dom().finite(),
        seq_view(gs).dom().len() == gs.len(),
    decreases gs.len(),
{
    if gs.len() > 0 {
        assert(keys_distinct(gs.drop_last()));
        lemma_seq_view_dom(gs.drop_last());
        assert(forall|j: int|
            0 <= j < gs.drop_last().len() ==> gs.drop_last()[j].key != gs.last().key);
        lemma_seq_view_absent(gs.drop_last(), gs.last().key);
        assert(seq_view(gs).dom() =~= seq_view(gs.drop_last()).dom().insert(gs.last().key));
    }
}

/// The standard bounds: sixty seconds of capture time, plenty of
/// groups, and a generous fragment bound.
pub open spec fn standard_config() -> AssemblerConfig {
    AssemblerConfig { ttl_secs: 60, max_groups: 1024, max_fragment_bytes: 0x10000 }
}

/// Configured bounds: staleness, tracked-group, and fragment-size limits.
#[derive(Clone, Copy, Debug)]
pub struct AssemblerConfig {
    /// Groups untouched for longer than this many seconds of capture time
    /// are dropped as stale.
    pub ttl_secs: u32,
    /// At most this many groups are tracked at once; the oldest is
    /// evicted to make room.
    pub max_groups: usize,
    /// Fragments larger than this are rejected, which bounds a group's
    /// buffered bytes by `count` times this.
    pub max_fragment_bytes: usize,
}

impl AssemblerConfig {
    /// Sixty seconds of capture time, plenty of groups, and a generous
    /// fragment bound.
    pub fn standard() -> (r: AssemblerConfig)
        ensures
            r == standard_config(),
    {
        AssemblerConfig { ttl_secs: 60, max_groups: 1024, max_fragment_bytes: 0x10000 }
    }
}

/// The fragment assembler: the tracked groups and the configured bounds.
pub struct FragmentAssembler {
    groups: Vec<FragmentGroup>,
    pub config: AssemblerConfig,
}

impl FragmentAssembler {
    /// The tracked groups as a map from key to group model.
    pub closed spec fn view_spec(self) -> Map<FragmentKey, GroupModel> {
        seq_view(self.groups@)
    }

    /// Distinct keys and well-formed slot vectors.
    pub closed spec fn wf(self) -> bool {
        &&& keys_distinct(self.groups@)
        &&& forall|i: int| 0 <= i < self.groups@.len() ==> group_wf(#[trigger] self.groups@[i])
    }

    /// The configured bounds.
    pub closed spec fn config_spec(self) -> AssemblerConfig {
        self.config
    }

    /// How many groups are tracked.
    pub closed spec fn tracked_groups(self) -> int {
        self.groups@.len() as int
    }

    pub fn new(config: AssemblerConfig) -> (r: Self)
        ensures
            r.wf(),
            r.view_spec() == Map::<FragmentKey, GroupModel>::empty(),
            r.config_spec() == config,
    {
        FragmentAssembler { groups: Vec::new(), config }
    }

    pub fn group_count(&self) -> (r: usize)
        ensures
            r == self.tracked_groups(),
    {
        self.groups.len()
    }

    /// The number of tracked groups is the size of the view's domain.
    pub proof fn lemma_tracked_groups(self)
        requires
            self.wf(),
        ensures
            self.view_spec().dom().finite(),
            self.tracked_groups() == self.view_spec().dom().len(),
    {
        lemma_seq_view_dom(self.groups@);
    }

    /// The configured cap on concurrently tracked groups.
    pub fn max_groups(&self) -> (r: usize)
        ensures
            r == self.config_spec().max_groups,
    {
        self.config.max_groups
    }
}

fn vecs_equal(a: &Vec<u8>, b: &Vec<u8>) -> (r: bool)
    ensures
        r == (a@ == b@),
{
    if a.len() != b.len() {
        proof {
            assert(a@ != b@);
        }
        return false;
    }
    let mut i: usize = 0;
    while i < a.len()
        invariant
            i <= a@.len(),
            a@.len() == b@.len(),
            forall|j: int| 0 <= j < i ==> a@[j] == b@[j],
        decreases a@.len() - i,
    {
        if a[i] != b[i] {
            proof {
                assert(a@ != b@);
            }
            return false;
        }
        i = i + 1;
    }
    proof {
        assert(a@ =~= b@);
    }
    true
}

fn all_received(g: &FragmentGroup) -> (r: bool)
    requires
        group_wf(*g),
    ensures
        r == group_complete(gmodel(*g)),
{
    let mut i: usize = 0;
    while i < g.received.len()
        invariant
            group_wf(*g),
            i <= g.received@.len(),
            forall|j: int| 0 <= j < i ==> g.received@[j],
        decreases g.received@.len() - i,
    {
        if !g.received[i] {
            proof {
                assert(!gmodel(*g).slots.contains_key(i as int));
            }
            return false;
        }
        i = i + 1;
    }
    proof {
        assert forall|j: int| 0 <= j < gmodel(*g).count implies gmodel(*g).slots.contains_key(
            j,
        ) by {
            assert(g.received@[j]);
        };
    }
    true
}

fn assemble_group(g: &FragmentGroup) -> (out: Vec<u8>)
    requires
        group_wf(*g),
        group_complete(gmodel(*g)),
    ensures
        out@ == assemble(gmodel(*g)),
{
    let mut out: Vec<u8> = Vec::new();
    let count = g.total_count as usize;
    let mut i: usize = 0;
    while i < count
        invariant
            group_wf(*g),
            group_complete(gmodel(*g)),
            count == g.total_count,
            i <= count,
            out@ == assemble_upto(gmodel(*g).slots, i as int),
        decreases count - i,
    {
        let piece = &g.buffer[i];
        let mut j: usize = 0;
        while j < piece.len()
            invariant
                j <= piece@.len(),
                out@ == assemble_upto(gmodel(*g).slots, i as int) + piece@.subrange(0, j as int),
            decreases piece@.len() - j,
        {
            out.push(piece[j]);
            j = j + 1;
            assert(out@ =~= assemble_upto(gmodel(*g).slots, i as int) + piece@.subrange(
                0,
                j as int,
            ));
        }
        proof {
            assert(gmodel(*g).slots.contains_key(i as int));
            assert(g.received@[i as int]);
            assert(gmodel(*g).slots[i as int] == g.buffer@[i as int]@);
            assert(piece@.subrange(0, piece@.len() as int) =~= piece@);
            assert(out@ =~= assemble_upto(gmodel(*g).slots, i + 1));
        }
        i = i + 1;
    }
    out
}

impl FragmentAssembler {
    /// Feed one fragment, stamped with the capture time `now`. The state
    /// and the result follow [`push_step`] exactly; a fragment over the
    /// configured size bound is rejected with nothing changed.
    pub fn push_fragment(
        &mut self,
        stream_id: u8,
        group_id: u32,
        count: u16,
        index: u16,
        data: Vec<u8>,
        now: u32,
    ) -> (r: Result<Option<Vec<u8>>, AsmError>)
        requires
            old(self).wf(),
        ensures
            final(self).wf(),
            final(self).config_spec() == old(self).config_spec(),
            data@.len() > old(self).config_spec().max_fragment_bytes ==> {
                &&& final(self).view_spec() == old(self).view_spec()
                &&& r == Err::<Option<Vec<u8>>, AsmError>(AsmError::FragmentTooLarge)
            },
            data@.len() <= old(self).config_spec().max_fragment_bytes ==> {
                let (s2, o) = push_step(
                    old(self).view_spec(),
                    FragmentKey { stream_id, group_id },
                    count as int,
                    index as int,
                    data@,
                    now as int,
                );
                &&& final(self).view_spec() =~= s2
                &&& outcome_matches(o, r)
            },
    {
        if data.len() > self.config.max_fragment_bytes {
            return Err(AsmError::FragmentTooLarge);
        }
        if count == 1 && index == 0 {
            return Ok(Some(data));
        }
        if count < 1 || index >= count {
            return Err(AsmError::InvalidFragment);
        }
        let key = FragmentKey { stream_id, group_id };
        let ghost s0 = self.view_spec();
        let n = self.groups.len();
        let mut found: usize = n;
        let mut i: usize = 0;
        while i < n
            invariant
                self.wf(),
                n == self.groups@.len(),
                i <= n,
                found <= n,
                found == n ==> forall|j: int| 0 <= j < i ==> self.groups@[j].key != key,
                found < n ==> self.groups@[found as int].key == key,
            decreases n - i,
        {
            if found == n && self.groups[i].key == key {
                found = i;
            }
            i = i + 1;
        }
        if found == n {
            proof {
                lemma_seq_view_absent(self.groups@, key);
            }
            let mut received: Vec<bool> = Vec::new();
            let mut buffer: Vec<Vec<u8>> = Vec::new();
            let mut j: usize = 0;
            while j < count as usize
                invariant
                    j <= count,
                    received@.len() == j,
                    buffer@.len() == j,
                    forall|t: int| 0 <= t < j ==> received@[t] == (t == index as int),
                    forall|t: int|
                        0 <= t < j && t == index as int ==> buffer@[t]@ == data@,
                decreases count as int - j,
            {
                if j == index as usize {
                    received.push(true);
                    buffer.push(clone_bytes(&data));
                } else {
                    received.push(false);
                    buffer.push(Vec::new());
                }
                j = j + 1;
            }
            let g = FragmentGroup {
                key,
                total_count: count,
                received,
                buffer,
                created_at: now,
                last_update: now,
            };
            proof {
                assert(group_wf(g));
                assert(gmodel(g).slots =~= Map::<int, Seq<u8>>::empty().insert(
                    index as int,
                    data@,
                ));
                assert(self.groups@.push(g).drop_last() =~= self.groups@);
            }
            self.groups.push(g);
            return Ok(None);
        }
        proof {
            lemma_seq_view_index(self.groups@, found as int);
        }
        if self.groups[found].total_count != count {
            proof {
                lemma_seq_view_remove(self.groups@, found as int);
            }
            self.groups.remove(found);
            return Err(AsmError::FragmentConflict);
        }
        if self.groups[found].received[index as usize] {
            if vecs_equal(&self.groups[found].buffer[index as usize], &data) {
                proof {
                    assert(gmodel(self.groups@[found as int]).slots[index as int] == data@);
                }
                return Ok(None);
            } else {
                proof {
                    assert(gmodel(self.groups@[found as int]).slots[index as int] != data@);
                    lemma_seq_view_remove(self.groups@, found as int);
                }
                self.groups.remove(found);
                return Err(AsmError::FragmentConflict);
            }
        }
        proof {
            lemma_seq_view_remove(self.groups@, found as int);
        }
        let ghost g_old = gmodel(self.groups@[found as int]);
        let mut g = self.groups.remove(found);
        g.received[index as usize] = true;
        g.buffer[index as usize] = data;
        g.last_update = now;
        proof {
            assert(gmodel(g).slots =~= g_old.slots.insert(index as int, data@));
        }
        if all_received(&g) {
            let payload = assemble_group(&g);
            proof {
                assert(self.view_spec() =~= s0.remove(key));
            }
            return Ok(Some(payload));
        }
        proof {
            assert(self.groups@.push(g).drop_last() =~= self.groups@);
            assert(keys_distinct(self.groups@));
            assert(forall|j: int|
                0 <= j < self.groups@.len() ==> group_wf(#[trigger] self.groups@[j]));
            assert(forall|j: int| 0 <= j < self.groups@.len() ==> self.groups@[j].key != key);
            assert(group_wf(g));
        }
        self.groups.push(g);
        return Ok(None);
    }
}

/// A copy of the bytes.
fn clone_bytes(v: &Vec<u8>) -> (out: Vec<u8>)
    ensures
        out@ == v@,
{
    let mut out: Vec<u8> = Vec::new();
    let mut i: usize = 0;
    while i < v.len()
        invariant
            i <= v@.len(),
            out@ == v@.subrange(0, i as int),
        decreases v@.len() - i,
    {
        out.push(v[i]);
        i = i + 1;
        assert(out@ =~= v@.subrange(0, i as int));
    }
    assert(out@ =~= v@);
    out
}

proof fn lemma_seq_view_contains(gs: Seq<FragmentGroup>, k: FragmentKey)
    requires
        seq_view(gs).contains_key(k),
    ensures
        exists|j: int| 0 <= j < gs.len() && gs[j].key == k,
    decreases gs.len(),
{
    if gs.len() > 0 {
        if gs.last().key == k {
            assert(gs[gs.len() - 1].key == k);
        } else {
            lemma_seq_view_contains(gs.drop_last(), k);
            let j = choose|j: int| 0 <= j < gs.drop_last().len() && gs.drop_last()[j].key == k;
            assert(gs[j].key == k);
        }
    }
}

impl FragmentAssembler {
    /// Drop every group that has not been touched for longer than the
    /// configured staleness interval, and say how many were dropped.
    /// Fresh groups are untouched.
    pub fn evict_stale(&mut self, now: u32) -> (evicted: usize)
        requires
            old(self).wf(),
        ensures
            final(self).wf(),
            final(self).config_spec() == old(self).config_spec(),
            forall|k: FragmentKey|
                final(self).view_spec().contains_key(k) <==> (old(self).view_spec().contains_key(k)
                    && old(self).view_spec()[k].last_update + old(self).config_spec().ttl_secs
                    >= now),
            forall|k: FragmentKey|
                final(self).view_spec().contains_key(k) ==> final(self).view_spec()[k] == old(
                    self,
                ).view_spec()[k],
            evicted == old(self).tracked_groups() - final(self).tracked_groups(),
    {
        let ghost s0 = self.view_spec();
        let initial_len = self.groups.len();
        let ghost n0 = initial_len as int;
        let ttl = self.config.ttl_secs;
        let mut evicted: usize = 0;
        let mut i: usize = 0;
        while i < self.groups.len()
            invariant
                self.wf(),
                self.config_spec() == old(self).config_spec(),
                ttl == self.config_spec().ttl_secs,
                i <= self.groups@.len(),
                evicted + self.groups@.len() == n0,
                n0 <= usize::MAX,
                evicted <= n0,
                forall|j: int|
                    0 <= j < i ==> (#[trigger] self.groups@[j]).last_update + ttl >= now,
                forall|k: FragmentKey|
                    #[trigger] self.view_spec().contains_key(k) ==> s0.contains_key(k)
                        && self.view_spec()[k] == s0[k],
                forall|k: FragmentKey|
                    s0.contains_key(k) && s0[k].last_update + ttl >= now
                        ==> #[trigger] self.view_spec().contains_key(k),
            decreases self.groups@.len() - i,
        {
            let stale = (self.groups[i].last_update as u64) + (ttl as u64) < (now as u64);
            if stale {
                let ghost v0 = self.view_spec();
                let ghost k0 = self.groups@[i as int].key;
                proof {
                    lemma_seq_view_index(self.groups@, i as int);
                    lemma_seq_view_remove(self.groups@, i as int);
                }
                self.groups.remove(i);
                evicted = evicted + 1;
                proof {
                    assert(self.view_spec() =~= v0.remove(k0));
                    assert(v0[k0].last_update + ttl < now);
                    assert forall|k: FragmentKey| #[trigger] self.view_spec().contains_key(k)
                        implies s0.contains_key(k) && self.view_spec()[k] == s0[k] by {
                        assert(v0.contains_key(k));
                    };
                    assert forall|k: FragmentKey|
                        s0.contains_key(k) && s0[k].last_update + ttl >= now implies #[trigger] self.view_spec().contains_key(k) by {
                        assert(v0.contains_key(k));
                        assert(v0[k] == s0[k]);
                        assert(k != k0);
                    };
                }
            } else {
                i = i + 1;
            }
        }
        proof {
            assert forall|k: FragmentKey| #[trigger] self.view_spec().contains_key(k) implies s0.contains_key(
                k,
            ) && s0[k].last_update + ttl >= now by {
                lemma_seq_view_contains(self.groups@, k);
                let j = choose|j: int| 0 <= j < self.groups@.len() && self.groups@[j].key == k;
                lemma_seq_view_index(self.groups@, j);
            };
        }
        evicted
    }

    /// Drop the group that has gone longest without an update, to make
    /// room; the key of the dropped group comes back. With nothing
    /// tracked, nothing changes.
    pub fn evict_oldest(&mut self) -> (r: Option<FragmentKey>)
        requires
            old(self).wf(),
        ensures
            final(self).wf(),
            final(self).config_spec() == old(self).config_spec(),
            old(self).tracked_groups() == 0 ==> r is None && final(self).view_spec() == old(
                self,
            ).view_spec(),
            old(self).tracked_groups() > 0 ==> {
                &&& r is Some
                &&& old(self).view_spec().contains_key(r->0)
                &&& final(self).view_spec() =~= old(self).view_spec().remove(r->0)
                &&& forall|k2: FragmentKey|
                    old(self).view_spec().contains_key(k2) ==> old(self).view_spec()[k2].last_update
                        >= old(self).view_spec()[r->0].last_update
            },
    {
        if self.groups.len() == 0 {
            return None;
        }
        let mut best: usize = 0;
        let mut i: usize = 1;
        while i < self.groups.len()
            invariant
                self.wf(),
                self.groups@.len() > 0,
                best < i <= self.groups@.len(),
                forall|j: int|
                    0 <= j < i ==> (#[trigger] self.groups@[j]).last_update
                        >= self.groups@[best as int].last_update,
            decreases self.groups@.len() - i,
        {
            if self.groups[i].last_update < self.groups[best].last_update {
                best = i;
            }
            i = i + 1;
        }
        let key = self.groups[best].key;
        proof {
            lemma_seq_view_index(self.groups@, best as int);
            lemma_seq_view_remove(self.groups@, best as int);
            assert forall|k2: FragmentKey| old(self).view_spec().contains_key(k2) implies old(
                self,
            ).view_spec()[k2].last_update >= old(self).view_spec()[key].last_update by {
                lemma_seq_view_contains(self.groups@, k2);
                let j = choose|j: int| 0 <= j < self.groups@.len() && self.groups@[j].key == k2;
                lemma_seq_view_index(self.groups@, j);
            };
        }
        self.groups.remove(best);
        Some(key)
    }
}

/// One fragment offered to the assembler, with the capture time stamped
/// on it.
pub struct FragmentEvent {
    pub key: FragmentKey,
    pub count: int,
    pub index: int,
    pub data: Seq<u8>,
    pub now: int,
}

/// [`push_step`] on one event.
pub open spec fn step_ev(s: Map<FragmentKey, GroupModel>, e: FragmentEvent) -> (
    Map<FragmentKey, GroupModel>,
    PushOutcome,
) {
    push_step(s, e.key, e.count, e.index, e.data, e.now)
}

/// The outcomes of the events with key `k`, in order, when `evs` is fed
/// to the assembler starting from `s`.
pub open spec fn key_outcomes(
    s: Map<FragmentKey, GroupModel>,
    evs: Seq<FragmentEvent>,
    k: FragmentKey,
) -> Seq<PushOutcome>
    decreases evs.len(),
{
    if evs.len() == 0 {
        Seq::empty()
    } else {
        let rest = key_outcomes(step_ev(s, evs[0]).0, evs.drop_first(), k);
        if evs[0].key == k {
            seq![step_ev(s, evs[0]).1] + rest
        } else {
            rest
        }
    }
}

/// The events with key `k`, in order.
pub open spec fn filter_key(evs: Seq<FragmentEvent>, k: FragmentKey) -> Seq<FragmentEvent>
    decreases evs.len(),
{
    if evs.len() == 0 {
        Seq::empty()
    } else if evs[0].key == k {
        seq![evs[0]] + filter_key(evs.drop_first(), k)
    } else {
        filter_key(evs.drop_first(), k)
    }
}

/// The two states hold the same thing under `k`.
pub open spec fn agree_at(
    s1: Map<FragmentKey, GroupModel>,
    s2: Map<FragmentKey, GroupModel>,
    k: FragmentKey,
) -> bool {
    &&& s1.contains_key(k) <==> s2.contains_key(k)
    &&& s1.contains_key(k) ==> s1[k] == s2[k]
}

proof fn lemma_push_frame(s: Map<FragmentKey, GroupModel>, e: FragmentEvent, k: FragmentKey)
    requires
        e.key != k,
    ensures
        agree_at(step_ev(s, e).0, s, k),
{
}

proof fn lemma_push_local(
    s1: Map<FragmentKey, GroupModel>,
    s2: Map<FragmentKey, GroupModel>,
    e: FragmentEvent,
)
    requires
        agree_at(s1, s2, e.key),
    ensures
        step_ev(s1, e).1 == step_ev(s2, e).1,
        agree_at(step_ev(s1, e).0, step_ev(s2, e).0, e.key),
{
}

proof fn lemma_isolation_general(
    s1: Map<FragmentKey, GroupModel>,
    s2: Map<FragmentKey, GroupModel>,
    evs: Seq<FragmentEvent>,
    k: FragmentKey,
)
    requires
        agree_at(s1, s2, k),
    ensures
        key_outcomes(s1, evs, k) == key_outcomes(s2, filter_key(evs, k), k),
    decreases evs.len(),
{
    if evs.len() > 0 {
        let e = evs[0];
        if e.key == k {
            lemma_push_local(s1, s2, e);
            lemma_isolation_general(step_ev(s1, e).0, step_ev(s2, e).0, evs.drop_first(), k);
            let fk = filter_key(evs, k);
            assert(fk == seq![e] + filter_key(evs.drop_first(), k));
            assert(fk[0] == e);
            assert(fk.drop_first() =~= filter_key(evs.drop_first(), k));
        } else {
            lemma_push_frame(s1, e, k);
            lemma_isolation_general(step_ev(s1, e).0, s2, evs.drop_first(), k);
        }
    }
}

/// Fragment isolation: the outcomes for one group's key — and so the
/// payloads emitted for it — are the same whether its fragments arrive
/// interleaved with other groups' fragments or alone, in the same
/// relative order.
pub proof fn lemma_fragment_isolation(
    s: Map<FragmentKey, GroupModel>,
    evs: Seq<FragmentEvent>,
    k: FragmentKey,
)
    ensures
        key_outcomes(s, evs, k) == key_outcomes(s, filter_key(evs, k), k),
{
    lemma_isolation_general(s, s, evs, k);
}

/// The slots written by the first `t` fragments of a permuted group:
/// slot `perm[j]` holds `data(perm[j])`.
pub open spec fn slots_of(perm: Seq<int>, data: spec_fn(int) -> Seq<u8>, t: int) -> Map<
    int,
    Seq<u8>,
>
    decreases t,
{
    if t <= 0 {
        Map::empty()
    } else {
        slots_of(perm, data, t - 1).insert(perm[t - 1], data(perm[t - 1]))
    }
}

/// The values of the first `t` entries of `perm`.
pub open spec fn vals_of(perm: Seq<int>, t: int) -> Set<int>
    decreases t,
{
    if t <= 0 {
        Set::empty()
    } else {
        vals_of(perm, t - 1).insert(perm[t - 1])
    }
}

/// Some entry of `perm` is `v`.
pub open spec fn covers(perm: Seq<int>, v: int) -> bool {
    exists|i: int| 0 <= i < perm.len() && (#[trigger] perm[i]) == v
}

/// `perm` is a permutation of `0 .. count`.
pub open spec fn is_permutation(perm: Seq<int>, count: int) -> bool {
    &&& perm.len() == count
    &&& forall|i: int| 0 <= i < count ==> 0 <= #[trigger] perm[i] < count
    &&& forall|i: int, j: int| 0 <= i < j < count ==> perm[i] != perm[j]
    &&& forall|v: int| 0 <= v < count ==> #[trigger] covers(perm, v)
}

/// The fragments in index order, concatenated.
pub open spec fn concat_all(data: spec_fn(int) -> Seq<u8>, n: int) -> Seq<u8>
    decreases n,
{
    if n <= 0 {
        Seq::empty()
    } else {
        concat_all(data, n - 1) + data(n - 1)
    }
}

proof fn lemma_slots_dom(perm: Seq<int>, data: spec_fn(int) -> Seq<u8>, t: int)
    requires
        0 <= t <= perm.len(),
    ensures
        forall|v: int|
            slots_of(perm, data, t).contains_key(v) <==> vals_of(perm, t).contains(v),
        forall|v: int|
            slots_of(perm, data, t).contains_key(v) ==> slots_of(perm, data, t)[v] == data(v),
        vals_of(perm, t).finite(),
    decreases t,
{
    if t > 0 {
        lemma_slots_dom(perm, data, t - 1);
        assert forall|v: int| slots_of(perm, data, t).contains_key(v) implies slots_of(
            perm,
            data,
            t,
        )[v] == data(v) by {
            if v != perm[t - 1] {
                assert(slots_of(perm, data, t - 1).contains_key(v));
            }
        };
    }
}

proof fn lemma_vals_len(perm: Seq<int>, count: int, t: int)
    requires
        0 <= t <= count,
        is_permutation(perm, count),
    ensures
        vals_of(perm, t).finite(),
        vals_of(perm, t).len() == t,
        forall|j: int| 0 <= j < t ==> vals_of(perm, t).contains(perm[j]),
        forall|v: int| vals_of(perm, t).contains(v) ==> exists|j: int| 0 <= j < t && (#[trigger] perm[j]) == v,
    decreases t,
{
    if t > 0 {
        lemma_vals_len(perm, count, t - 1);
        assert(!vals_of(perm, t - 1).contains(perm[t - 1])) by {
            if vals_of(perm, t - 1).contains(perm[t - 1]) {
                let j = choose|j: int| 0 <= j < t - 1 && (#[trigger] perm[j]) == perm[t - 1];
                assert(perm[j] == perm[t - 1]);
            }
        };
    }
}

proof fn lemma_incomplete(perm: Seq<int>, data: spec_fn(int) -> Seq<u8>, count: int, t: int)
    requires
        is_permutation(perm, count),
        0 <= t < count,
    ensures
        !group_complete(
            GroupModel {
                count,
                slots: slots_of(perm, data, t),
                created_at: 0,
                last_update: 0,
            },
        ),
{
    lemma_slots_dom(perm, data, t);
    lemma_vals_len(perm, count, t);
    let g = GroupModel { count, slots: slots_of(perm, data, t), created_at: 0, last_update: 0 };
    if group_complete(g) {
        let rng = vstd::set_lib::set_int_range(0, count);
        assert(rng.subset_of(vals_of(perm, t))) by {
            assert forall|v: int| rng.contains(v) implies vals_of(perm, t).contains(v) by {
                assert(g.slots.contains_key(v));
            };
        };
        vstd::set_lib::lemma_int_range(0, count);
        vstd::set_lib::lemma_len_subset(rng, vals_of(perm, t));
        assert(count <= t);
    }
}

proof fn lemma_assemble_full(perm: Seq<int>, data: spec_fn(int) -> Seq<u8>, count: int, n: int)
    requires
        is_permutation(perm, count),
        0 <= n <= count,
    ensures
        assemble_upto(slots_of(perm, data, count), n) == concat_all(data, n),
    decreases n,
{
    lemma_slots_dom(perm, data, count);
    lemma_vals_len(perm, count, count);
    if n > 0 {
        lemma_assemble_full(perm, data, count, n - 1);
        assert(covers(perm, n - 1));
        let i = choose|i: int| 0 <= i < perm.len() && (#[trigger] perm[i]) == n - 1;
        assert(vals_of(perm, count).contains(perm[i]));
        assert(slots_of(perm, data, count).contains_key(n - 1));
        assert(slots_of(perm, data, count)[n - 1] == data(n - 1));
    }
}

/// The events of one permuted group: event `i` carries fragment
/// `perm[i]`.
pub open spec fn group_events(
    k: FragmentKey,
    count: int,
    perm: Seq<int>,
    data: spec_fn(int) -> Seq<u8>,
    times: spec_fn(int) -> int,
) -> Seq<FragmentEvent> {
    Seq::new(
        count as nat,
        |i: int|
            FragmentEvent {
                key: k,
                count,
                index: perm[i],
                data: data(perm[i]),
                now: times(i),
            },
    )
}

proof fn lemma_fill_from(
    s: Map<FragmentKey, GroupModel>,
    k: FragmentKey,
    count: int,
    perm: Seq<int>,
    data: spec_fn(int) -> Seq<u8>,
    times: spec_fn(int) -> int,
    t: int,
)
    requires
        is_permutation(perm, count),
        count >= 2,
        1 <= t < count,
        s.contains_key(k),
        s[k].count == count,
        s[k].slots == slots_of(perm, data, t),
    ensures
        ({
            let evs = Seq::new((count - t) as nat, |i: int| group_events(k, count, perm, data, times)[t + i]);
            let outs = key_outcomes(s, evs, k);
            &&& outs.len() == count - t
            &&& forall|i: int| 0 <= i < count - t - 1 ==> outs[i] == PushOutcome::Buffered
            &&& outs[count - t - 1] == PushOutcome::Emitted(concat_all(data, count))
        }),
    decreases count - t,
{
    reveal_with_fuel(key_outcomes, 3);
    reveal_with_fuel(slots_of, 3);
    reveal_with_fuel(concat_all, 3);
    let all = group_events(k, count, perm, data, times);
    let evs = Seq::new((count - t) as nat, |i: int| all[t + i]);
    let e = evs[0];
    assert(e == all[t]);
    assert(e.key == k && e.count == count && e.index == perm[t] && e.data == data(perm[t]));
    assert(0 <= perm[t] < count);
    assert(!(count == 1 && perm[t] == 0));
    lemma_slots_dom(perm, data, t);
    lemma_vals_len(perm, count, t);
    assert(!s[k].slots.contains_key(perm[t])) by {
        if s[k].slots.contains_key(perm[t]) {
            assert(slots_of(perm, data, t).contains_key(perm[t]));
            assert(vals_of(perm, t).contains(perm[t]));
            let j = choose|j: int| 0 <= j < t && (#[trigger] perm[j]) == perm[t];
            assert(perm[j] == perm[t]);
            assert(false);
        }
    };
    let g2 = GroupModel {
        count,
        slots: s[k].slots.insert(perm[t], data(perm[t])),
        created_at: s[k].created_at,
        last_update: e.now,
    };
    assert(g2.slots =~= slots_of(perm, data, t + 1));
    if t + 1 == count {
        assert(group_complete(g2)) by {
            lemma_slots_dom(perm, data, count);
            lemma_vals_len(perm, count, count);
            assert forall|v: int| 0 <= v < count implies g2.slots.contains_key(v) by {
                assert(covers(perm, v));
                let i = choose|i: int| 0 <= i < perm.len() && (#[trigger] perm[i]) == v;
                assert(vals_of(perm, count).contains(perm[i]));
            };
        };
        assert(step_ev(s, e).1 == PushOutcome::Emitted(assemble(g2)));
        assert(assemble(g2) == concat_all(data, count)) by {
            lemma_assemble_full(perm, data, count, count);
        };
        assert(evs.drop_first() =~= Seq::<FragmentEvent>::empty());
        assert(key_outcomes(s, evs, k) =~= seq![PushOutcome::Emitted(concat_all(data, count))]);
    } else {
        lemma_incomplete(perm, data, count, t + 1);
        assert(!group_complete(g2)) by {
            assert(g2.slots =~= slots_of(perm, data, t + 1));
        };
        let s2 = step_ev(s, e).0;
        assert(s2 == s.insert(k, g2));
        assert(step_ev(s, e).1 == PushOutcome::Buffered);
        lemma_fill_from(s2, k, count, perm, data, times, t + 1);
        let evs2 = Seq::new((count - t - 1) as nat, |i: int| all[t + 1 + i]);
        assert(evs.drop_first() =~= evs2);
        let outs2 = key_outcomes(s2, evs2, k);
        assert(key_outcomes(s, evs, k) =~= seq![PushOutcome::Buffered] + outs2);
    }
}

/// Fragment completeness: feed the fragments of one fresh group in any
/// permuted order, and the assembler buffers all but the last, then on
/// the last emits exactly one payload: the in-order concatenation of the
/// fragments.
pub proof fn lemma_fragment_completeness(
    s: Map<FragmentKey, GroupModel>,
    k: FragmentKey,
    count: int,
    perm: Seq<int>,
    data: spec_fn(int) -> Seq<u8>,
    times: spec_fn(int) -> int,
)
    requires
        !s.contains_key(k),
        count >= 1,
        is_permutation(perm, count),
    ensures
        ({
            let outs = key_outcomes(s, group_events(k, count, perm, data, times), k);
            &&& outs.len() == count
            &&& forall|i: int| 0 <= i < count - 1 ==> outs[i] == PushOutcome::Buffered
            &&& outs[count - 1] == PushOutcome::Emitted(concat_all(data, count))
        }),
{
    reveal_with_fuel(key_outcomes, 3);
    reveal_with_fuel(slots_of, 3);
    reveal_with_fuel(concat_all, 3);
    let all = group_events(k, count, perm, data, times);
    let e = all[0];
    if count == 1 {
        assert(perm[0] == 0);
        assert(step_ev(s, e).1 == PushOutcome::Emitted(data(0)));
        assert(concat_all(data, 1) =~= Seq::<u8>::empty() + data(0));
        assert(all.drop_first() =~= Seq::<FragmentEvent>::empty());
        assert(key_outcomes(s, all, k) =~= seq![PushOutcome::Emitted(concat_all(data, 1))]);
    } else {
        assert(0 <= perm[0] < count);
        assert(!(count == 1 && perm[0] == 0));
        let g1 = GroupModel {
            count,
            slots: Map::empty().insert(perm[0], data(perm[0])),
            created_at: times(0),
            last_update: times(0),
        };
        let s1 = step_ev(s, e).0;
        assert(s1 == s.insert(k, g1));
        assert(step_ev(s, e).1 == PushOutcome::Buffered);
        assert(g1.slots =~= slots_of(perm, data, 1));
        lemma_fill_from(s1, k, count, perm, data, times, 1);
        let evs2 = Seq::new((count - 1) as nat, |i: int| all[1 + i]);
        assert(all.drop_first() =~= evs2);
        let outs2 = key_outcomes(s1, evs2, k);
        assert(key_outcomes(s, all, k) =~= seq![PushOutcome::Buffered] + outs2);
    }
}

} // verus!
