//! The capture container: a 24-byte little-endian file header followed
//! by records of `(ts_sec, ts_usec, incl_len, orig_len, bytes)`.

use vstd::prelude::*;
use crate::reader::{BinaryReader, le16, le32};

verus! {

/// The container's little-endian magic number.
pub const CAPTURE_MAGIC: u32 = 0xA1B2_C3D4;

/// Container-level errors; all of them abort the capture.
#[derive(Clone, Copy, Debug, PartialEq, Eq, Structural)]
pub enum CaptureError {
    /// Fewer than 24 bytes, or a magic number that is not the format's.
    ContainerCorrupt,
    /// A record header or body past the end of the file.
    TruncatedRecord,
    /// A link type other than loopback or Ethernet-II.
    UnsupportedLinkLayer,
}

/// The container's file header.
#[derive(Clone, Copy, Debug, PartialEq, Eq, Structural)]
pub struct CaptureHeader {
    pub version_major: u16,
    pub version_minor: u16,
    pub thiszone: i32,
    pub sigfigs: u32,
    pub snaplen: u32,
    pub linktype: u32,
}

/// One record: its timestamp and its raw link-layer bytes.
#[derive(Debug, Clone)]
pub struct CaptureRecord {
    pub ts_sec: u32,
    pub ts_usec: u32,
    pub data: Vec<u8>,
}

/// The mathematical content of one record.
pub struct CaptureRecordModel {
    pub ts_sec: u32,
    pub ts_usec: u32,
    pub data: Seq<u8>,
}

/// The model of one record.
pub open spec fn rmodel(r: CaptureRecord) -> CaptureRecordModel {
    CaptureRecordModel { ts_sec: r.ts_sec, ts_usec: r.ts_usec, data: r.data@ }
}

/// The container starts with the magic number and a whole header.
pub open spec fn header_ok(d: Seq<u8>) -> bool {
    d.len() >= 24 && le32(d, 0) == CAPTURE_MAGIC
}

/// The records from offset `off` chain cleanly to the end of the file.
pub open spec fn records_wf(d: Seq<u8>, off: int) -> bool
    decreases d.len() - off,
{
    if off >= d.len() {
        off == d.len()
    } else if d.len() - off < 16 {
        false
    } else if d.len() - off - 16 < le32(d, off + 8) {
        false
    } else {
        records_wf(d, off + 16 + le32(d, off + 8))
    }
}

/// The records from offset `off`, as far as they chain.
pub open spec fn records_from(d: Seq<u8>, off: int) -> Seq<CaptureRecordModel>
    decreases d.len() - off,
{
    if off < 0 || off + 16 > d.len() || d.len() - off - 16 < le32(d, off + 8) {
        Seq::empty()
    } else {
        let incl = le32(d, off + 8) as int;
        seq![
            CaptureRecordModel {
                ts_sec: le32(d, off),
                ts_usec: le32(d, off + 4),
                data: d.subrange(off + 16, off + 16 + incl),
            },
        ] + records_from(d, off + 16 + incl)
    }
}

/// Parse the file header.
pub fn parse_capture_header(data: &[u8]) -> (r: Result<CaptureHeader, CaptureError>)
    ensures
        header_ok(data@) ==> {
            &&& r is Ok
            &&& r->Ok_0 == (CaptureHeader {
                version_major: le16(data@, 4),
                version_minor: le16(data@, 6),
                thiszone: le32(data@, 8) as i32,
                sigfigs: le32(data@, 12),
                snaplen: le32(data@, 16),
                linktype: le32(data@, 20),
            })
        },
        !header_ok(data@) ==> r == Err::<CaptureHeader, CaptureError>(
            CaptureError::ContainerCorrupt,
        ),
{
    if data.len() < 24 {
        return Err(CaptureError::ContainerCorrupt);
    }
    let mut rd = BinaryReader::new(data);
    let magic = match rd.read_u32() {
        Ok(v) => v,
        Err(_) => { return Err(CaptureError::ContainerCorrupt); },
    };
    if magic != CAPTURE_MAGIC {
        return Err(CaptureError::ContainerCorrupt);
    }
    let version_major = match rd.read_u16() {
        Ok(v) => v,
        Err(_) => { return Err(CaptureError::ContainerCorrupt); },
    };
    let version_minor = match rd.read_u16() {
        Ok(v) => v,
        Err(_) => { return Err(CaptureError::ContainerCorrupt); },
    };
    let thiszone = match rd.read_i32() {
        Ok(v) => v,
        Err(_) => { return Err(CaptureError::ContainerCorrupt); },
    };
    let sigfigs = match rd.read_u32() {
        Ok(v) => v,
        Err(_) => { return Err(CaptureError::ContainerCorrupt); },
    };
    let snaplen = match rd.read_u32() {
        Ok(v) => v,
        Err(_) => { return Err(CaptureError::ContainerCorrupt); },
    };
    let linktype = match rd.read_u32() {
        Ok(v) => v,
        Err(_) => { return Err(CaptureError::ContainerCorrupt); },
    };
    Ok(CaptureHeader { version_major, version_minor, thiszone, sigfigs, snaplen, linktype })
}

/// Walk the whole container and hand the records out in file order; a
/// bad magic or a record that runs past the end aborts.
pub fn parse_records(data: &[u8]) -> (r: Result<Vec<CaptureRecord>, CaptureError>)
    ensures
        !header_ok(data@) ==> r == Err::<Vec<CaptureRecord>, CaptureError>(
            CaptureError::ContainerCorrupt,
        ),
        header_ok(data@) && !records_wf(data@, 24) ==> r == Err::<Vec<CaptureRecord>, CaptureError>(
            CaptureError::TruncatedRecord,
        ),
        header_ok(data@) && records_wf(data@, 24) ==> {
            &&& r is Ok
            &&& r->Ok_0@.map_values(|x: CaptureRecord| rmodel(x)) =~= records_from(data@, 24)
        },
{
    if data.len() < 24 {
        return Err(CaptureError::ContainerCorrupt);
    }
    let mut rd = BinaryReader::new(data);
    let magic = match rd.read_u32() {
        Ok(v) => v,
        Err(_) => { return Err(CaptureError::ContainerCorrupt); },
    };
    if magic != CAPTURE_MAGIC {
        return Err(CaptureError::ContainerCorrupt);
    }
    rd.seek(24);
    let mut out: Vec<CaptureRecord> = Vec::new();
    while rd.remaining() > 0
        invariant
            rd.wf(),
            rd.data() == data@,
            header_ok(data@),
            24 <= rd.pos(),
            records_wf(data@, 24) <==> records_wf(data@, rd.pos()),
            records_wf(data@, rd.pos()) ==> records_from(data@, 24) =~= out@.map_values(
                |x: CaptureRecord| rmodel(x),
            ) + records_from(data@, rd.pos()),
        decreases rd.remaining_spec(),
    {
        let ghost off = rd.pos();
        let ts_sec = match rd.read_u32() {
            Ok(v) => v,
            Err(_) => { return Err(CaptureError::TruncatedRecord); },
        };
        let ts_usec = match rd.read_u32() {
            Ok(v) => v,
            Err(_) => { return Err(CaptureError::TruncatedRecord); },
        };
        let incl_len = match rd.read_u32() {
            Ok(v) => v,
            Err(_) => { return Err(CaptureError::TruncatedRecord); },
        };
        let _orig_len = match rd.read_u32() {
            Ok(v) => v,
            Err(_) => { return Err(CaptureError::TruncatedRecord); },
        };
        if (rd.remaining() as u64) < (incl_len as u64) {
            proof {
                assert(!records_wf(data@, off));
            }
            return Err(CaptureError::TruncatedRecord);
        }
        let bytes = match rd.read_bytes(incl_len as usize) {
            Ok(v) => v,
            Err(_) => { return Err(CaptureError::TruncatedRecord); },
        };
        let rec = CaptureRecord { ts_sec, ts_usec, data: bytes };
        out.push(rec);
        proof {
            assert(records_wf(data@, off) <==> records_wf(data@, rd.pos()));
            if records_wf(data@, rd.pos()) {
                assert(records_from(data@, off) =~= seq![
                    CaptureRecordModel {
                        ts_sec: le32(data@, off),
                        ts_usec: le32(data@, off + 4),
                        data: data@.subrange(off + 16, off + 16 + le32(data@, off + 8)),
                    },
                ] + records_from(data@, rd.pos()));
                assert(out@.map_values(|x: CaptureRecord| rmodel(x)) =~= out@.drop_last()
                    .map_values(|x: CaptureRecord| rmodel(x)) + seq![rmodel(rec)]);
            }
        }
    }
    proof {
        assert(records_wf(data@, rd.pos()));
        assert(records_from(data@, rd.pos()) =~= Seq::<CaptureRecordModel>::empty());
    }
    Ok(out)
}

} // verus!
