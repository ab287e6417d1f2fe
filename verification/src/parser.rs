//! The pipeline driver: walk the capture's records, strip framing,
//! reassemble fragments, dissect messages, and fold the entity updates
//! into the database, with a per-type tally on the side.

use vstd::prelude::*;
use crate::assembler::{
    AssemblerConfig, FragmentAssembler, FragmentKey, GroupModel, PushOutcome, push_step,
    standard_config,
};
use crate::dissector::{DissectedMessage, dissect_payload, dissected_ok};
use crate::pcap::{
    CaptureError, CaptureRecord, CaptureRecordModel, header_ok, parse_capture_header,
    parse_records, records_from, records_wf, rmodel,
};
use crate::reader::le32;
use crate::transport::{
    Direction, FLAG_BLOB_FRAGMENTS, TransportError, TransportHeader, classify_direction,
    frame_ok, parse_fragment_header, parse_transport, payload_region_start, strip_link_headers,
    transport_ok, udp_off,
};
use crate::weenie::{WeenieDatabase, WeenieUpdate, apply_updates_model, lemma_extract_concat, WeenieModel};
use crate::weenie_extractor::{extract_weenie_updates, updates_of};

verus! {

/// Viewer tab selection.
#[derive(Default, PartialEq, Eq, Clone, Copy, Structural)]
pub enum Tab {
    #[default]
    Messages,
    Weenies,
}

/// Viewer rendering mode.
#[derive(Default, PartialEq, Eq, Clone, Copy, Structural)]
pub enum ViewMode {
    #[default]
    Tree,
    JSON,
    Binary,
}

/// Viewer sort field.
#[derive(Default, PartialEq, Eq, Clone, Copy, Structural)]
pub enum SortField {
    #[default]
    Id,
    Type,
    Direction,
    OpCode,
}

/// Fragment bookkeeping attached to a packet that carried a fragment.
#[derive(Debug, Clone)]
pub struct FragmentInfo {
    pub data: Vec<u8>,
    pub count: u16,
    pub received: usize,
    pub length: usize,
    pub sequence: u32,
}

/// One dissected message with its delivery metadata.
#[derive(Debug, Clone)]
pub struct ParsedMessage {
    pub id: u64,
    pub msg: DissectedMessage,
    pub direction: Direction,
    pub ts_sec: u32,
    pub ts_usec: u32,
}

/// One packet that delivered messages, with the ids of the messages it
/// completed.
#[derive(Debug, Clone)]
pub struct ParsedPacket {
    pub header: TransportHeader,
    pub direction: Direction,
    pub message_ids: Vec<u64>,
    pub fragment: Option<FragmentInfo>,
    pub id: u64,
    pub ts_sec: u32,
    pub ts_usec: u32,
}

/// One line of the per-type tally.
#[derive(Debug, Clone)]
pub struct TallyEntry {
    pub message_type: String,
    pub seen: u64,
    pub extracted: u64,
}

/// The diagnostic tally: per-type counts, and the packets that were
/// skipped or dropped along the way.
#[derive(Debug, Clone)]
pub struct Tally {
    pub entries: Vec<TallyEntry>,
    pub packets_seen: u64,
    pub packets_skipped: u64,
    pub unknown_flag: u64,
    pub truncated_header: u64,
    pub fragment_conflicts: u64,
    pub stale_partials: u64,
}

/// The tally's per-type lines as `(name, seen, extracted)`.
pub open spec fn tally_model(entries: Seq<TallyEntry>) -> Seq<(Seq<char>, int, int)> {
    entries.map_values(|e: TallyEntry| (e.message_type@, e.seen as int, e.extracted as int))
}

/// The first position of `name` in the model, or the length.
pub open spec fn find_tally(m: Seq<(Seq<char>, int, int)>, name: Seq<char>) -> int
    decreases m.len(),
{
    if m.len() == 0 {
        0
    } else if m[0].0 == name {
        0
    } else {
        1 + find_tally(m.drop_first(), name)
    }
}

/// `x + 1`, held at the `u64` ceiling.
pub open spec fn sat_inc(x: int) -> int {
    if x < u64::MAX {
        x + 1
    } else {
        x
    }
}

/// `x + y`, held at the `u64` ceiling.
pub open spec fn sat_add(x: int, y: int) -> int {
    if x + y <= u64::MAX {
        x + y
    } else {
        u64::MAX as int
    }
}

/// One message of type `name` counted: its line's `seen` goes up by one
/// and its `extracted` by `n`, both saturating; a first-seen type gets a
/// fresh line at the end.
pub open spec fn bump_model(m: Seq<(Seq<char>, int, int)>, name: Seq<char>, n: int) -> Seq<
    (Seq<char>, int, int),
> {
    let i = find_tally(m, name);
    if i < m.len() {
        m.update(i, (m[i].0, sat_inc(m[i].1), sat_add(m[i].2, n)))
    } else {
        m.push((name, 1, n))
    }
}

proof fn lemma_find_tally(m: Seq<(Seq<char>, int, int)>, name: Seq<char>)
    ensures
        0 <= find_tally(m, name) <= m.len(),
        find_tally(m, name) < m.len() ==> m[find_tally(m, name)].0 == name,
        forall|j: int| 0 <= j < find_tally(m, name) ==> m[j].0 != name,
    decreases m.len(),
{
    if m.len() > 0 && m[0].0 != name {
        lemma_find_tally(m.drop_first(), name);
        assert forall|j: int| 0 <= j < find_tally(m, name) implies m[j].0 != name by {
            if j > 0 {
                assert(m.drop_first()[j - 1].0 != name);
            }
        };
        if find_tally(m, name) < m.len() {
            assert(m.drop_first()[find_tally(m.drop_first(), name)].0 == name);
        }
    }
}

impl Tally {
    pub fn new() -> (r: Tally)
        ensures
            r.entries@.len() == 0,
            r.packets_seen == 0,
            r.packets_skipped == 0,
            r.unknown_flag == 0,
            r.truncated_header == 0,
            r.fragment_conflicts == 0,
            r.stale_partials == 0,
    {
        Tally {
            entries: Vec::new(),
            packets_seen: 0,
            packets_skipped: 0,
            unknown_flag: 0,
            truncated_header: 0,
            fragment_conflicts: 0,
            stale_partials: 0,
        }
    }

    /// Count one message of this type as seen, with how many updates
    /// were extracted from it; counts saturate rather than wrap.
    pub fn bump(&mut self, message_type: &String, extracted: usize)
        ensures
            tally_model(final(self).entries@) =~= bump_model(
                tally_model(old(self).entries@),
                message_type@,
                extracted as int,
            ),
            final(self).packets_seen == old(self).packets_seen,
            final(self).packets_skipped == old(self).packets_skipped,
            final(self).unknown_flag == old(self).unknown_flag,
            final(self).truncated_header == old(self).truncated_header,
            final(self).fragment_conflicts == old(self).fragment_conflicts,
            final(self).stale_partials == old(self).stale_partials,
    {
        let ghost m0 = tally_model(self.entries@);
        proof {
            lemma_find_tally(m0, message_type@);
        }
        let n = self.entries.len();
        let mut i: usize = 0;
        let mut found: usize = n;
        while i < n
            invariant
                n == self.entries@.len(),
                i <= n,
                found <= n,
                m0 == tally_model(self.entries@),
                found == n ==> forall|j: int|
                    0 <= j < i ==> self.entries@[j].message_type@ != message_type@,
                found < n ==> self.entries@[found as int].message_type@ == message_type@
                    && (forall|j: int|
                    0 <= j < found ==> self.entries@[j].message_type@ != message_type@),
            decreases n - i,
        {
            if found == n {
                if self.entries[i].message_type.eq(message_type) {
                    found = i;
                }
            }
            i = i + 1;
        }
        if found < n {
            proof {
                assert(find_tally(m0, message_type@) == found) by {
                    lemma_find_tally(m0, message_type@);
                    assert(m0[found as int].0 == message_type@);
                    if find_tally(m0, message_type@) < found {
                        assert(self.entries@[find_tally(m0, message_type@)].message_type@
                            != message_type@);
                        assert(m0[find_tally(m0, message_type@)].0 != message_type@);
                    }
                };
            }
            let seen = self.entries[found].seen;
            let ex = self.entries[found].extracted;
            let seen2 = if seen < u64::MAX {
                seen + 1
            } else {
                seen
            };
            let add = extracted as u64;
            let ex2 = if ex <= u64::MAX - add {
                ex + add
            } else {
                u64::MAX
            };
            let entry = TallyEntry {
                message_type: clone_string(&self.entries[found].message_type),
                seen: seen2,
                extracted: ex2,
            };
            self.entries[found] = entry;
            proof {
                assert(tally_model(self.entries@) =~= bump_model(m0, message_type@, extracted as int));
            }
        } else {
            proof {
                assert(find_tally(m0, message_type@) == m0.len()) by {
                    lemma_find_tally(m0, message_type@);
                    if find_tally(m0, message_type@) < m0.len() {
                        assert(m0[find_tally(m0, message_type@)].0 != message_type@);
                    }
                };
            }
            self.entries.push(
                TallyEntry {
                    message_type: clone_string(message_type),
                    seen: 1,
                    extracted: extracted as u64,
                },
            );
            proof {
                assert(tally_model(self.entries@) =~= bump_model(m0, message_type@, extracted as int));
            }
        }
    }
}

/// A copy of the string with the same characters.
fn clone_string(s: &String) -> (r: String)
    ensures
        r@ == s@,
{
    s.clone()
}

/// The updates one parsed message contributes, stamped with its capture
/// second.
pub open spec fn msg_updates(m: ParsedMessage) -> Seq<(WeenieUpdate, u32)> {
    updates_of(m.msg.body).map_values(|u: WeenieUpdate| (u, m.ts_sec))
}

/// The updates of a message stream, in delivery order.
pub open spec fn stream_updates(s: Seq<ParsedMessage>) -> Seq<(WeenieUpdate, u32)>
    decreases s.len(),
{
    if s.len() == 0 {
        Seq::empty()
    } else {
        msg_updates(s[0]) + stream_updates(s.drop_first())
    }
}

proof fn lemma_stream_updates_push(s: Seq<ParsedMessage>, m: ParsedMessage)
    ensures
        stream_updates(s.push(m)) =~= stream_updates(s) + msg_updates(m),
    decreases s.len(),
{
    reveal_with_fuel(stream_updates, 3);
    if s.len() == 0 {
        assert(s.push(m).drop_first() =~= Seq::<ParsedMessage>::empty());
    } else {
        assert(s.push(m).drop_first() =~= s.drop_first().push(m));
        lemma_stream_updates_push(s.drop_first(), m);
    }
}

/// The transport packet inside one captured frame: the UDP payload.
pub open spec fn transport_bytes(rec: CaptureRecordModel, linktype: u32) -> Seq<u8> {
    rec.data.subrange(udp_off(rec.data, linktype) + 8, rec.data.len() as int)
}

/// The record carries a fragment for the assembler.
pub open spec fn is_fragmented(rec: CaptureRecordModel, linktype: u32) -> bool {
    &&& frame_ok(rec.data, linktype)
    &&& transport_ok(transport_bytes(rec, linktype))
    &&& le32(transport_bytes(rec, linktype), 4) & FLAG_BLOB_FRAGMENTS != 0
}

/// No record of the capture carries a fragment: every application
/// payload is self-contained.
pub open spec fn capture_unfragmented(records: Seq<CaptureRecordModel>, linktype: u32) -> bool {
    forall|i: int| 0 <= i < records.len() ==> !is_fragmented(#[trigger] records[i], linktype)
}

/// The record's direction under the default port rule.
pub open spec fn record_direction(rec: CaptureRecordModel, linktype: u32) -> Direction {
    let d = rec.data;
    if crate::transport::be16(d, udp_off(d, linktype)) > crate::transport::be16(
        d,
        udp_off(d, linktype) + 2,
    ) {
        Direction::ServerToClient
    } else {
        Direction::ClientToServer
    }
}

/// The record's self-contained application payload, when it has one: an
/// IPv4/UDP frame whose transport header parses, carries no fragment,
/// and leaves a non-empty payload region.
pub open spec fn direct_payload_of(rec: CaptureRecordModel, linktype: u32) -> Option<Seq<u8>> {
    let pkt = transport_bytes(rec, linktype);
    if !frame_ok(rec.data, linktype) {
        Option::None
    } else if !transport_ok(pkt) {
        Option::None
    } else if le32(pkt, 4) & FLAG_BLOB_FRAGMENTS != 0 {
        Option::None
    } else {
        let region = pkt.subrange(payload_region_start(pkt), pkt.len() as int);
        if region.len() == 0 {
            Option::None
        } else {
            Option::Some(region)
        }
    }
}

/// The payloads of an unfragmented capture, in file order, each with its
/// direction and timestamp.
pub open spec fn direct_stream(records: Seq<CaptureRecordModel>, linktype: u32) -> Seq<
    (Seq<u8>, Direction, u32, u32),
>
    decreases records.len(),
{
    if records.len() == 0 {
        Seq::empty()
    } else {
        let head = match direct_payload_of(records[0], linktype) {
            Option::Some(p) => seq![
                (p, record_direction(records[0], linktype), records[0].ts_sec, records[0].ts_usec),
            ],
            Option::None => Seq::empty(),
        };
        head + direct_stream(records.drop_first(), linktype)
    }
}

proof fn lemma_direct_stream_snoc(records: Seq<CaptureRecordModel>, r: CaptureRecordModel, linktype: u32)
    ensures
        direct_stream(records.push(r), linktype) =~= direct_stream(records, linktype) + (
        match direct_payload_of(r, linktype) {
            Option::Some(p) => seq![(p, record_direction(r, linktype), r.ts_sec, r.ts_usec)],
            Option::None => Seq::empty(),
        }),
    decreases records.len(),
{
    reveal_with_fuel(direct_stream, 3);
    if records.len() == 0 {
        assert(records.push(r).drop_first() =~= Seq::<CaptureRecordModel>::empty());
    } else {
        assert(records.push(r).drop_first() =~= records.drop_first().push(r));
        lemma_direct_stream_snoc(records.drop_first(), r, linktype);
    }
}

/// The assembler state with its stale groups dropped: groups untouched
/// for longer than `ttl` seconds before `now` are gone, the rest stay.
pub open spec fn stale_filtered(
    s: Map<FragmentKey, GroupModel>,
    now: u32,
    ttl: u32,
) -> Map<FragmentKey, GroupModel> {
    Map::new(|k: FragmentKey| s.contains_key(k) && s[k].last_update + ttl >= now, |k: FragmentKey| s[k])
}

/// The stream a direction's fragments belong to.
pub open spec fn stream_id_of(d: Direction) -> u8 {
    match d {
        Direction::ClientToServer => 0,
        Direction::ServerToClient => 1,
    }
}

/// One record through the whole pipeline: stale groups are evicted at
/// the record's capture time; a self-contained payload region comes out
/// directly; a fragmented one goes through the assembler, and whatever
/// payload completes comes out. The emission is the application payload
/// the record delivers, if it delivers one.
pub open spec fn pipe_step(
    s: Map<FragmentKey, GroupModel>,
    rec: CaptureRecordModel,
    linktype: u32,
    cfg: AssemblerConfig,
) -> (Map<FragmentKey, GroupModel>, Option<Seq<u8>>) {
    let s1 = stale_filtered(s, rec.ts_sec, cfg.ttl_secs);
    let pkt = transport_bytes(rec, linktype);
    if !frame_ok(rec.data, linktype) {
        (s1, Option::None)
    } else if !transport_ok(pkt) {
        (s1, Option::None)
    } else {
        let region = pkt.subrange(payload_region_start(pkt), pkt.len() as int);
        if le32(pkt, 4) & FLAG_BLOB_FRAGMENTS == 0 {
            if region.len() == 0 {
                (s1, Option::None)
            } else {
                (s1, Option::Some(region))
            }
        } else {
            if region.len() < 12 {
                (s1, Option::None)
            } else {
                let data = region.subrange(12, region.len() as int);
                if data.len() > cfg.max_fragment_bytes {
                    (s1, Option::None)
                } else {
                    let k = FragmentKey {
                        stream_id: stream_id_of(record_direction(rec, linktype)),
                        group_id: le32(region, 0),
                    };
                    let (s2, o) = push_step(
                        s1,
                        k,
                        crate::reader::le16(region, 4) as int,
                        crate::reader::le16(region, 6) as int,
                        data,
                        rec.ts_sec as int,
                    );
                    (
                        s2,
                        match o {
                            PushOutcome::Emitted(p) => if p.len() > 0 {
                                Option::Some(p)
                            } else {
                                Option::None
                            },
                            _ => Option::None,
                        },
                    )
                }
            }
        }
    }
}

/// The whole capture through the pipeline: the final assembler state and
/// every delivered payload in order, with its direction and timestamp.
pub open spec fn pipe_fold(
    s: Map<FragmentKey, GroupModel>,
    records: Seq<CaptureRecordModel>,
    linktype: u32,
    cfg: AssemblerConfig,
) -> (Map<FragmentKey, GroupModel>, Seq<(Seq<u8>, Direction, u32, u32)>)
    decreases records.len(),
{
    if records.len() == 0 {
        (s, Seq::empty())
    } else {
        let (s1, e) = pipe_step(s, records[0], linktype, cfg);
        let head = match e {
            Option::Some(p) => seq![
                (p, record_direction(records[0], linktype), records[0].ts_sec, records[0].ts_usec),
            ],
            Option::None => Seq::empty(),
        };
        let (sf, rest) = pipe_fold(s1, records.drop_first(), linktype, cfg);
        (sf, head + rest)
    }
}

/// The capture never tracks more groups than the configured cap: after
/// each record the assembler state stays within bounds, so nothing is
/// ever evicted to make room.
pub open spec fn pipe_bounded(
    s: Map<FragmentKey, GroupModel>,
    records: Seq<CaptureRecordModel>,
    linktype: u32,
    cfg: AssemblerConfig,
) -> bool
    decreases records.len(),
{
    if records.len() == 0 {
        true
    } else {
        let (s1, _) = pipe_step(s, records[0], linktype, cfg);
        &&& s1.dom().finite()
        &&& s1.dom().len() <= cfg.max_groups
        &&& pipe_bounded(s1, records.drop_first(), linktype, cfg)
    }
}

proof fn lemma_pipe_fold_snoc(
    s: Map<FragmentKey, GroupModel>,
    records: Seq<CaptureRecordModel>,
    r: CaptureRecordModel,
    linktype: u32,
    cfg: AssemblerConfig,
)
    ensures
        ({
            let (sf, stream) = pipe_fold(s, records, linktype, cfg);
            let (s2, e) = pipe_step(sf, r, linktype, cfg);
            let head = match e {
                Option::Some(p) => seq![(p, record_direction(r, linktype), r.ts_sec, r.ts_usec)],
                Option::None => Seq::empty(),
            };
            &&& pipe_fold(s, records.push(r), linktype, cfg).0 == s2
            &&& pipe_fold(s, records.push(r), linktype, cfg).1 =~= stream + head
        }),
    decreases records.len(),
{
    reveal_with_fuel(pipe_fold, 3);
    if records.len() == 0 {
        assert(records.push(r).drop_first() =~= Seq::<CaptureRecordModel>::empty());
    } else {
        assert(records.push(r).drop_first() =~= records.drop_first().push(r));
        lemma_pipe_fold_snoc(
            pipe_step(s, records[0], linktype, cfg).0,
            records.drop_first(),
            r,
            linktype,
            cfg,
        );
    }
}

/// The messages agree, entry by entry, with a stream of payloads: the
/// message dissected from each payload, stamped with its direction and
/// timestamp.
pub open spec fn messages_match_stream(
    messages: Seq<ParsedMessage>,
    stream: Seq<(Seq<u8>, Direction, u32, u32)>,
) -> bool {
    &&& messages.len() == stream.len()
    &&& forall|i: int|
        0 <= i < stream.len() ==> {
            &&& dissected_ok((#[trigger] messages[i]).msg, stream[i].0)
            &&& messages[i].direction == stream[i].1
            &&& messages[i].ts_sec == stream[i].2
            &&& messages[i].ts_usec == stream[i].3
        }
}

/// The parser over one capture.
pub struct PacketParser {}

impl PacketParser {
    pub fn new() -> Self {
        PacketParser {  }
    }

    /// Parse a whole in-memory capture: the packets that delivered
    /// messages, every message in delivery order with sequential ids,
    /// the entity database that the message stream folds to, and the
    /// diagnostic tally. Fails only on container-level problems: a bad
    /// or short header, a truncated record, or an unsupported link
    /// layer.
    pub fn parse_pcap_bytes(&mut self, buffer: &[u8]) -> (r: Result<
        (Vec<ParsedPacket>, Vec<ParsedMessage>, WeenieDatabase, Tally),
        CaptureError,
    >)
        ensures
            !header_ok(buffer@) ==> r == Err::<
                (Vec<ParsedPacket>, Vec<ParsedMessage>, WeenieDatabase, Tally),
                CaptureError,
            >(CaptureError::ContainerCorrupt),
            header_ok(buffer@) && !records_wf(buffer@, 24) ==> r == Err::<
                (Vec<ParsedPacket>, Vec<ParsedMessage>, WeenieDatabase, Tally),
                CaptureError,
            >(CaptureError::TruncatedRecord),
            header_ok(buffer@) && records_wf(buffer@, 24) && crate::reader::le32(buffer@, 20) != 0
                && crate::reader::le32(buffer@, 20) != 1 ==> r == Err::<
                (Vec<ParsedPacket>, Vec<ParsedMessage>, WeenieDatabase, Tally),
                CaptureError,
            >(CaptureError::UnsupportedLinkLayer),
            header_ok(buffer@) && records_wf(buffer@, 24) && (crate::reader::le32(buffer@, 20) == 0
                || crate::reader::le32(buffer@, 20) == 1) ==> r is Ok,
            r is Ok ==> {
                let (packets, messages, db, tally) = r->Ok_0;
                &&& forall|i: int| 0 <= i < messages@.len() ==> (#[trigger] messages@[i]).id == i
                &&& forall|i: int| 0 <= i < packets@.len() ==> (#[trigger] packets@[i]).id == i
                &&& forall|i: int, j: int|
                    0 <= i < packets@.len() && 0 <= j < packets@[i].message_ids@.len() ==> (
                    #[trigger] packets@[i].message_ids@[j]) < messages@.len()
                &&& db.wf()
                &&& db.model() =~= apply_updates_model(
                    Seq::<WeenieModel>::empty(),
                    stream_updates(messages@),
                )
                &&& capture_unfragmented(records_from(buffer@, 24), le32(buffer@, 20))
                    ==> messages_match_stream(
                    messages@,
                    direct_stream(records_from(buffer@, 24), le32(buffer@, 20)),
                )
                &&& pipe_bounded(
                    Map::<FragmentKey, GroupModel>::empty(),
                    records_from(buffer@, 24),
                    le32(buffer@, 20),
                    standard_config(),
                ) ==> messages_match_stream(
                    messages@,
                    pipe_fold(
                        Map::<FragmentKey, GroupModel>::empty(),
                        records_from(buffer@, 24),
                        le32(buffer@, 20),
                        standard_config(),
                    ).1,
                )
            },
    {
        let header = match parse_capture_header(buffer) {
            Ok(h) => h,
            Err(e) => { return Err(e); },
        };
        let records = match parse_records(buffer) {
            Ok(v) => v,
            Err(e) => { return Err(e); },
        };
        let ghost recs_model = records@.map_values(|x: CaptureRecord| rmodel(x));
        proof {
            assert(recs_model =~= records_from(buffer@, 24));
        }
        let linktype = header.linktype;
        if linktype != 0 && linktype != 1 {
            return Err(CaptureError::UnsupportedLinkLayer);
        }
        let mut assembler = FragmentAssembler::new(AssemblerConfig::standard());
        let mut db = WeenieDatabase::new();
        let mut tally = Tally::new();
        let mut packets: Vec<ParsedPacket> = Vec::new();
        let mut messages: Vec<ParsedMessage> = Vec::new();
        proof {
            assert(stream_updates(messages@) =~= Seq::<(WeenieUpdate, u32)>::empty());
            assert(recs_model.subrange(0, 0) =~= Seq::<CaptureRecordModel>::empty());
            assert(recs_model.skip(0) =~= recs_model);
        }
        let mut ri: usize = 0;
        while ri < records.len()
            invariant
                assembler.wf(),
                db.wf(),
                ri <= records@.len(),
                linktype == le32(buffer@, 20),
                recs_model == records@.map_values(|x: CaptureRecord| rmodel(x)),
                capture_unfragmented(recs_model, linktype) ==> messages_match_stream(
                    messages@,
                    direct_stream(recs_model.subrange(0, ri as int), linktype),
                ),
                assembler.config_spec() == standard_config(),
                pipe_bounded(
                    Map::<FragmentKey, GroupModel>::empty(),
                    recs_model,
                    linktype,
                    standard_config(),
                ) ==> {
                    &&& assembler.view_spec() == pipe_fold(
                        Map::<FragmentKey, GroupModel>::empty(),
                        recs_model.subrange(0, ri as int),
                        linktype,
                        standard_config(),
                    ).0
                    &&& messages_match_stream(
                        messages@,
                        pipe_fold(
                            Map::<FragmentKey, GroupModel>::empty(),
                            recs_model.subrange(0, ri as int),
                            linktype,
                            standard_config(),
                        ).1,
                    )
                    &&& pipe_bounded(
                        assembler.view_spec(),
                        recs_model.skip(ri as int),
                        linktype,
                        standard_config(),
                    )
                },
                forall|i: int| 0 <= i < messages@.len() ==> (#[trigger] messages@[i]).id == i,
                forall|i: int| 0 <= i < packets@.len() ==> (#[trigger] packets@[i]).id == i,
                forall|i: int, j: int|
                    0 <= i < packets@.len() && 0 <= j < packets@[i].message_ids@.len() ==> (
                    #[trigger] packets@[i].message_ids@[j]) < messages@.len(),
                db.model() =~= apply_updates_model(
                    Seq::<WeenieModel>::empty(),
                    stream_updates(messages@),
                ),
            decreases records@.len() - ri,
        {
            let rec: &CaptureRecord = &records[ri];
            let ghost s_pre = assembler.view_spec();
            let ghost msgs_entry = messages@;
            proof {
                assert(recs_model.skip(ri as int)[0] == recs_model[ri as int]);
                assert(recs_model.skip(ri as int).drop_first() =~= recs_model.skip(ri + 1));
            }
            tally.packets_seen = if tally.packets_seen < u64::MAX {
                tally.packets_seen + 1
            } else {
                tally.packets_seen
            };
            let stale = assembler.evict_stale(rec.ts_sec);
            proof {
                assert(assembler.view_spec() =~= stale_filtered(
                    s_pre,
                    rec.ts_sec,
                    standard_config().ttl_secs,
                ));
            }
            let ghost s1 = assembler.view_spec();
            if stale > 0 {
                let add = stale as u64;
                tally.stale_partials = if tally.stale_partials <= u64::MAX - add {
                    tally.stale_partials + add
                } else {
                    u64::MAX
                };
            }
            let frame = rec.data.as_slice();
            let ghost rm = recs_model[ri as int];
            proof {
                assert(rm.data == frame@);
            }
            let (src_port, dst_port, udp_payload_off) = match strip_link_headers(frame, linktype) {
                Ok(t) => t,
                Err(_) => {
                    tally.packets_skipped = if tally.packets_skipped < u64::MAX {
                        tally.packets_skipped + 1
                    } else {
                        tally.packets_skipped
                    };
                    proof {
                        assert(direct_payload_of(rm, linktype) is None);
                        assert(pipe_step(s_pre, rm, linktype, standard_config()) == (
                            s1,
                            Option::<Seq<u8>>::None,
                        ));
                    }
                    proof {
                        lemma_direct_stream_snoc(
                            recs_model.subrange(0, ri as int),
                            rm,
                            linktype,
                        );
                        lemma_pipe_fold_snoc(
                            Map::<FragmentKey, GroupModel>::empty(),
                            recs_model.subrange(0, ri as int),
                            rm,
                            linktype,
                            standard_config(),
                        );
                        assert(recs_model.subrange(0, ri + 1) =~= recs_model.subrange(
                            0,
                            ri as int,
                        ).push(rm));
                    }
                    ri = ri + 1;
                    continue ;
                },
            };
            let direction = classify_direction(src_port, dst_port);
            let pkt = &frame[udp_payload_off..frame.len()];
            proof {
                assert(pkt@ =~= transport_bytes(rm, linktype));
                assert(direction == record_direction(rm, linktype));
            }
            let (theader, region_start) = match parse_transport(pkt) {
                Ok(t) => t,
                Err(e) => {
                    if e == TransportError::UnknownFlag {
                        tally.unknown_flag = if tally.unknown_flag < u64::MAX {
                            tally.unknown_flag + 1
                        } else {
                            tally.unknown_flag
                        };
                    } else {
                        tally.truncated_header = if tally.truncated_header < u64::MAX {
                            tally.truncated_header + 1
                        } else {
                            tally.truncated_header
                        };
                    }
                    tally.packets_skipped = if tally.packets_skipped < u64::MAX {
                        tally.packets_skipped + 1
                    } else {
                        tally.packets_skipped
                    };
                    proof {
                        assert(direct_payload_of(rm, linktype) is None);
                        assert(pipe_step(s_pre, rm, linktype, standard_config()) == (
                            s1,
                            Option::<Seq<u8>>::None,
                        ));
                    }
                    proof {
                        lemma_direct_stream_snoc(
                            recs_model.subrange(0, ri as int),
                            rm,
                            linktype,
                        );
                        lemma_pipe_fold_snoc(
                            Map::<FragmentKey, GroupModel>::empty(),
                            recs_model.subrange(0, ri as int),
                            rm,
                            linktype,
                            standard_config(),
                        );
                        assert(recs_model.subrange(0, ri + 1) =~= recs_model.subrange(
                            0,
                            ri as int,
                        ).push(rm));
                    }
                    ri = ri + 1;
                    continue ;
                },
            };
            let region = &pkt[region_start..pkt.len()];
            proof {
                assert(region@ =~= transport_bytes(rm, linktype).subrange(
                    payload_region_start(transport_bytes(rm, linktype)),
                    transport_bytes(rm, linktype).len() as int,
                ));
            }
            let mut fragment_info: Option<FragmentInfo> = None;
            let mut payload: Option<Vec<u8>> = None;
            if theader.flags & FLAG_BLOB_FRAGMENTS != 0 {
                proof {
                    assert(is_fragmented(rm, linktype));
                    assert(!capture_unfragmented(recs_model, linktype));
                }
                let (fh, fdata) = match parse_fragment_header(region) {
                    Ok(t) => t,
                    Err(_) => {
                        tally.truncated_header = if tally.truncated_header < u64::MAX {
                            tally.truncated_header + 1
                        } else {
                            tally.truncated_header
                        };
                        tally.packets_skipped = if tally.packets_skipped < u64::MAX {
                            tally.packets_skipped + 1
                        } else {
                            tally.packets_skipped
                        };
                        proof {
                            assert(pipe_step(s_pre, rm, linktype, standard_config()) == (
                                s1,
                                Option::<Seq<u8>>::None,
                            ));
                            lemma_direct_stream_snoc(
                                recs_model.subrange(0, ri as int),
                                rm,
                                linktype,
                            );
                            lemma_pipe_fold_snoc(
                                Map::<FragmentKey, GroupModel>::empty(),
                                recs_model.subrange(0, ri as int),
                                rm,
                                linktype,
                                standard_config(),
                            );
                            assert(recs_model.subrange(0, ri + 1) =~= recs_model.subrange(
                                0,
                                ri as int,
                            ).push(rm));
                        }
                        ri = ri + 1;
                        continue ;
                    },
                };
                let stream_id: u8 = match direction {
                    Direction::ClientToServer => 0,
                    Direction::ServerToClient => 1,
                };
                let flen = fdata.len();
                let fcopy = copy_slice(fdata.as_slice());
                let ghost kspec = FragmentKey {
                    stream_id: stream_id_of(record_direction(rm, linktype)),
                    group_id: le32(region@, 0),
                };
                proof {
                    assert(stream_id == kspec.stream_id);
                    assert(fh.group_id == kspec.group_id);
                    assert(fdata@ =~= region@.subrange(12, region@.len() as int));
                }
                let pr = assembler.push_fragment(
                    stream_id,
                    fh.group_id,
                    fh.fragment_count,
                    fh.fragment_index,
                    fdata,
                    rec.ts_sec,
                );
                proof {
                    assert(assembler.view_spec() =~= pipe_step(
                        s_pre,
                        rm,
                        linktype,
                        standard_config(),
                    ).0);
                }
                match pr {
                    Ok(Some(complete)) => {
                        fragment_info = Some(
                            FragmentInfo {
                                data: fcopy,
                                count: fh.fragment_count,
                                received: fh.fragment_count as usize,
                                length: flen,
                                sequence: theader.sequence,
                            },
                        );
                        payload = Some(complete);
                    },
                    Ok(None) => {},
                    Err(_) => {
                        tally.fragment_conflicts = if tally.fragment_conflicts < u64::MAX {
                            tally.fragment_conflicts + 1
                        } else {
                            tally.fragment_conflicts
                        };
                    },
                }
                proof {
                    let st = pipe_step(s_pre, rm, linktype, standard_config());
                    assert(payload matches Some(b) ==> st.1 == (if b@.len() > 0 {
                        Option::Some(b@)
                    } else {
                        Option::<Seq<u8>>::None
                    }));
                    assert(payload is None ==> st.1 is None);
                }
                if assembler.group_count() > assembler.max_groups() {
                    proof {
                        if pipe_bounded(
                            Map::<FragmentKey, GroupModel>::empty(),
                            recs_model,
                            linktype,
                            standard_config(),
                        ) {
                            assert(pipe_bounded(
                                s_pre,
                                recs_model.skip(ri as int),
                                linktype,
                                standard_config(),
                            ));
                            assembler.lemma_tracked_groups();
                            assert(false);
                        }
                    }
                    let _ = assembler.evict_oldest();
                    tally.stale_partials = if tally.stale_partials < u64::MAX {
                        tally.stale_partials + 1
                    } else {
                        tally.stale_partials
                    };
                }
            } else {
                if region.len() > 0 {
                    proof {
                        assert(direct_payload_of(rm, linktype) == Option::Some(region@));
                        assert(pipe_step(s_pre, rm, linktype, standard_config()) == (
                            s1,
                            Option::Some(region@),
                        ));
                    }
                    payload = Some(copy_slice(region));
                } else {
                    proof {
                        assert(direct_payload_of(rm, linktype) is None);
                        assert(pipe_step(s_pre, rm, linktype, standard_config()) == (
                            s1,
                            Option::<Seq<u8>>::None,
                        ));
                    }
                }
            }
            match payload {
                Some(bytes) => {
                    let mut msgs = dissect_payload(bytes.as_slice());
                    let ghost pre_msgs = messages@;
                    let ghost dis = msgs@;
                    let mut message_ids: Vec<u64> = Vec::new();
                    while msgs.len() > 0
                        invariant
                            db.wf(),
                            msgs@.len() <= dis.len(),
                            msgs@ =~= dis.subrange(
                                dis.len() - msgs@.len(),
                                dis.len() as int,
                            ),
                            messages@.len() == pre_msgs.len() + dis.len() - msgs@.len(),
                            forall|k: int|
                                0 <= k < pre_msgs.len() ==> #[trigger] messages@[k]
                                    == pre_msgs[k],
                            forall|k: int|
                                pre_msgs.len() <= k < messages@.len() ==> {
                                    &&& (#[trigger] messages@[k]).msg == dis[k - pre_msgs.len()]
                                    &&& messages@[k].direction == direction
                                    &&& messages@[k].ts_sec == rec.ts_sec
                                    &&& messages@[k].ts_usec == rec.ts_usec
                                },
                            forall|i: int|
                                0 <= i < messages@.len() ==> (#[trigger] messages@[i]).id == i,
                            forall|j: int|
                                0 <= j < message_ids@.len() ==> (#[trigger] message_ids@[j])
                                    < messages@.len(),
                            forall|i: int, j: int|
                                0 <= i < packets@.len() && 0 <= j < packets@[i].message_ids@.len()
                                    ==> (#[trigger] packets@[i].message_ids@[j])
                                    < messages@.len(),
                            db.model() =~= apply_updates_model(
                                Seq::<WeenieModel>::empty(),
                                stream_updates(messages@),
                            ),
                        decreases msgs@.len(),
                    {
                        let m = msgs.remove(0);
                        let updates = extract_weenie_updates(&m);
                        tally.bump(&m.message_type, updates.len());
                        let pm = ParsedMessage {
                            id: messages.len() as u64,
                            msg: m,
                            direction,
                            ts_sec: rec.ts_sec,
                            ts_usec: rec.ts_usec,
                        };
                        message_ids.push(pm.id);
                        let ghost pre_messages = messages@;
                        let ghost pre_model = db.model();
                        messages.push(pm);
                        proof {
                            lemma_stream_updates_push(pre_messages, messages@.last());
                        }
                        let mut ui: usize = 0;
                        let ghost pairs = msg_updates(messages@.last());
                        proof {
                            assert(pairs =~= updates@.map_values(
                                |u: WeenieUpdate| (u, rec.ts_sec),
                            ));
                        }
                        while ui < updates.len()
                            invariant
                                db.wf(),
                                ui <= updates@.len(),
                                pairs == updates@.map_values(|u: WeenieUpdate| (u, rec.ts_sec)),
                                db.model() =~= apply_updates_model(
                                    pre_model,
                                    pairs.subrange(0, ui as int),
                                ),
                            decreases updates@.len() - ui,
                        {
                            let ghost done = pairs.subrange(0, ui as int);
                            db.add_or_update(updates[ui], rec.ts_sec);
                            proof {
                                reveal_with_fuel(apply_updates_model, 3);
                                lemma_extract_concat(pre_model, done, seq![pairs[ui as int]]);
                                assert(pairs.subrange(0, ui + 1) =~= done + seq![
                                    pairs[ui as int],
                                ]);
                            }
                            ui = ui + 1;
                        }
                        proof {
                            assert(pairs.subrange(0, pairs.len() as int) =~= pairs);
                            assert(stream_updates(messages@) =~= stream_updates(pre_messages)
                                + pairs);
                            lemma_extract_concat(
                                Seq::<WeenieModel>::empty(),
                                stream_updates(pre_messages),
                                pairs,
                            );
                        }
                    }
                    if message_ids.len() > 0 {
                        let pp = ParsedPacket {
                            header: theader,
                            direction,
                            message_ids,
                            fragment: fragment_info,
                            id: packets.len() as u64,
                            ts_sec: rec.ts_sec,
                            ts_usec: rec.ts_usec,
                        };
                        packets.push(pp);
                    }
                },
                None => {},
            }
            proof {
                lemma_direct_stream_snoc(recs_model.subrange(0, ri as int), rm, linktype);
                lemma_pipe_fold_snoc(
                    Map::<FragmentKey, GroupModel>::empty(),
                    recs_model.subrange(0, ri as int),
                    rm,
                    linktype,
                    standard_config(),
                );
                assert(recs_model.subrange(0, ri + 1) =~= recs_model.subrange(0, ri as int).push(
                    rm,
                ));
            }
            ri = ri + 1;
        }
        proof {
            assert(recs_model.subrange(0, recs_model.len() as int) =~= recs_model);
        }
        Ok((packets, messages, db, tally))
    }
}

/// A copy of the slice's bytes.
fn copy_slice(s: &[u8]) -> (out: Vec<u8>)
    ensures
        out@ == s@,
{
    let mut out: Vec<u8> = Vec::new();
    let mut i: usize = 0;
    while i < s.len()
        invariant
            i <= s@.len(),
            out@ == s@.subrange(0, i as int),
        decreases s@.len() - i,
    {
        out.push(s[i]);
        i = i + 1;
        assert(out@ =~= s@.subrange(0, i as int));
    }
    assert(out@ =~= s@);
    out
}

} // verus!
