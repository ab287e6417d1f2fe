//! The transport framer: strips link, IP and UDP headers, classifies the
//! packet's direction by its ports, parses the protocol's own header and
//! its flag-selected optional blocks, and locates the payload region.

use vstd::prelude::*;
use crate::reader::{le16, le32};

verus! {

/// Which way across the session a packet travelled.
#[derive(Clone, Copy, Debug, PartialEq, Eq, Structural)]
pub enum Direction {
    ClientToServer,
    ServerToClient,
}

/// Framing errors; a packet that raises one is skipped.
#[derive(Clone, Copy, Debug, PartialEq, Eq, Structural)]
pub enum TransportError {
    /// The frame ends before a header it promises.
    TruncatedHeader,
    /// A flag bit outside the understood set.
    UnknownFlag,
    /// Not an IPv4/UDP frame on a supported link layer.
    UnsupportedFrame,
}

/// The checksum of received payloads is obscured with the session key.
pub const FLAG_ENCRYPTED_CHECKSUM: u32 = 0x0000_0002;

/// The payload region carries an application-message fragment.
pub const FLAG_BLOB_FRAGMENTS: u32 = 0x0000_0004;

/// An optional block asking for retransmissions: a count, then that many
/// sequence numbers.
pub const FLAG_RETRANSMISSION_REQUEST: u32 = 0x0000_1000;

/// An optional block acknowledging a sequence number.
pub const FLAG_ACK_SEQUENCE: u32 = 0x0000_4000;

/// Every flag bit the framer understands.
pub const KNOWN_FLAGS: u32 = FLAG_ENCRYPTED_CHECKSUM | FLAG_BLOB_FRAGMENTS
    | FLAG_RETRANSMISSION_REQUEST | FLAG_ACK_SEQUENCE;

/// The fixed transport header.
#[derive(Clone, Copy, Debug, PartialEq, Eq, Structural)]
pub struct TransportHeader {
    pub sequence: u32,
    pub flags: u32,
    pub checksum: u32,
    pub session_id: u16,
    pub time: u16,
}

/// The fragment sub-header at the start of a fragmented payload region.
#[derive(Clone, Copy, Debug, PartialEq, Eq, Structural)]
pub struct FragmentHeader {
    pub group_id: u32,
    pub fragment_count: u16,
    pub fragment_index: u16,
    pub queue_id: u32,
}

/// The big-endian `u16` at offset `i` (network byte order).
pub open spec fn be16(b: Seq<u8>, i: int) -> u16 {
    (b[i] * 0x100 + b[i + 1]) as u16
}

/// Bytes of the retransmission-request block, if its flag is set.
pub open spec fn retrans_block_len(d: Seq<u8>, flags: u32) -> int {
    if flags & FLAG_RETRANSMISSION_REQUEST != 0 {
        4 + 4 * le32(d, 16)
    } else {
        0
    }
}

/// Bytes of the ack block, if its flag is set.
pub open spec fn ack_block_len(flags: u32) -> int {
    if flags & FLAG_ACK_SEQUENCE != 0 {
        4
    } else {
        0
    }
}

/// Where the payload region starts: after the fixed header and the
/// optional blocks in flag-bit order.
pub open spec fn payload_region_start(d: Seq<u8>) -> int {
    16 + retrans_block_len(d, le32(d, 4)) + ack_block_len(le32(d, 4))
}

/// The frame parses: the fixed header is present, every flag bit is
/// understood, and the optional blocks fit.
pub open spec fn transport_ok(d: Seq<u8>) -> bool {
    &&& d.len() >= 16
    &&& le32(d, 4) & !KNOWN_FLAGS == 0
    &&& (le32(d, 4) & FLAG_RETRANSMISSION_REQUEST != 0 ==> d.len() >= 20)
    &&& payload_region_start(d) <= d.len()
}

/// Parse the transport header and skip its optional blocks; give back
/// the header and the offset of the payload region.
pub fn parse_transport(data: &[u8]) -> (r: Result<(TransportHeader, usize), TransportError>)
    ensures
        transport_ok(data@) ==> {
            &&& r is Ok
            &&& r->Ok_0.0 == (TransportHeader {
                sequence: le32(data@, 0),
                flags: le32(data@, 4),
                checksum: le32(data@, 8),
                session_id: le16(data@, 12),
                time: le16(data@, 14),
            })
            &&& r->Ok_0.1 == payload_region_start(data@)
        },
        !transport_ok(data@) ==> {
            &&& r is Err
            &&& (data@.len() >= 16 && le32(data@, 4) & !KNOWN_FLAGS != 0 ==> r
                == Err::<(TransportHeader, usize), TransportError>(TransportError::UnknownFlag))
        },
{
    let total = data.len();
    let mut rd = crate::reader::BinaryReader::new(data);
    let sequence = match rd.read_u32() {
        Ok(v) => v,
        Err(_) => { return Err(TransportError::TruncatedHeader); },
    };
    let flags = match rd.read_u32() {
        Ok(v) => v,
        Err(_) => { return Err(TransportError::TruncatedHeader); },
    };
    let checksum = match rd.read_u32() {
        Ok(v) => v,
        Err(_) => { return Err(TransportError::TruncatedHeader); },
    };
    let session_id = match rd.read_u16() {
        Ok(v) => v,
        Err(_) => { return Err(TransportError::TruncatedHeader); },
    };
    let time = match rd.read_u16() {
        Ok(v) => v,
        Err(_) => { return Err(TransportError::TruncatedHeader); },
    };
    if flags & !KNOWN_FLAGS != 0 {
        return Err(TransportError::UnknownFlag);
    }
    if flags & FLAG_RETRANSMISSION_REQUEST != 0 {
        let n = match rd.read_u32() {
            Ok(v) => v,
            Err(_) => { return Err(TransportError::TruncatedHeader); },
        };
        let block: u64 = (n as u64) * 4;
        if block > usize::MAX as u64 {
            proof {
                if transport_ok(data@) {
                    assert(data@.len() == total);
                    assert(payload_region_start(data@) <= data@.len());
                    assert(false);
                }
            }
            return Err(TransportError::TruncatedHeader);
        }
        match rd.skip(block as usize) {
            Ok(()) => (),
            Err(_) => { return Err(TransportError::TruncatedHeader); },
        };
    }
    if flags & FLAG_ACK_SEQUENCE != 0 {
        match rd.read_u32() {
            Ok(_) => (),
            Err(_) => { return Err(TransportError::TruncatedHeader); },
        };
    }
    let start = rd.position();
    Ok((TransportHeader { sequence, flags, checksum, session_id, time }, start))
}

/// Parse the fragment sub-header at the start of a payload region; give
/// back the header and the fragment's data (the rest of the region).
pub fn parse_fragment_header(region: &[u8]) -> (r: Result<(FragmentHeader, Vec<u8>), TransportError>)
    ensures
        region@.len() >= 12 ==> {
            &&& r is Ok
            &&& r->Ok_0.0 == (FragmentHeader {
                group_id: le32(region@, 0),
                fragment_count: le16(region@, 4),
                fragment_index: le16(region@, 6),
                queue_id: le32(region@, 8),
            })
            &&& r->Ok_0.1@ == region@.subrange(12, region@.len() as int)
        },
        region@.len() < 12 ==> r == Err::<(FragmentHeader, Vec<u8>), TransportError>(
            TransportError::TruncatedHeader,
        ),
{
    let mut rd = crate::reader::BinaryReader::new(region);
    let group_id = match rd.read_u32() {
        Ok(v) => v,
        Err(_) => { return Err(TransportError::TruncatedHeader); },
    };
    let fragment_count = match rd.read_u16() {
        Ok(v) => v,
        Err(_) => { return Err(TransportError::TruncatedHeader); },
    };
    let fragment_index = match rd.read_u16() {
        Ok(v) => v,
        Err(_) => { return Err(TransportError::TruncatedHeader); },
    };
    let queue_id = match rd.read_u32() {
        Ok(v) => v,
        Err(_) => { return Err(TransportError::TruncatedHeader); },
    };
    let n = rd.remaining();
    let data = match rd.read_bytes(n) {
        Ok(v) => v,
        Err(_) => { return Err(TransportError::TruncatedHeader); },
    };
    Ok((FragmentHeader { group_id, fragment_count, fragment_index, queue_id }, data))
}

/// By default the higher-numbered port is the server's side: a packet
/// from the higher port travels server-to-client.
pub fn classify_direction(src_port: u16, dst_port: u16) -> (r: Direction)
    ensures
        r == (if src_port > dst_port {
            Direction::ServerToClient
        } else {
            Direction::ClientToServer
        }),
{
    if src_port > dst_port {
        Direction::ServerToClient
    } else {
        Direction::ClientToServer
    }
}

/// The caller-supplied port rule: packets sent from the named server
/// port travel server-to-client; without a named port, the
/// higher-numbered side is the server.
pub fn classify_with_server_port(src_port: u16, dst_port: u16, server_port: Option<u16>) -> (r:
    Direction)
    ensures
        r == (match server_port {
            Option::Some(p) => if src_port == p {
                Direction::ServerToClient
            } else {
                Direction::ClientToServer
            },
            Option::None => if src_port > dst_port {
                Direction::ServerToClient
            } else {
                Direction::ClientToServer
            },
        }),
{
    match server_port {
        Option::Some(p) => {
            if src_port == p {
                Direction::ServerToClient
            } else {
                Direction::ClientToServer
            }
        },
        Option::None => classify_direction(src_port, dst_port),
    }
}

/// Bytes of the link-layer header: a 4-byte family word on the loopback
/// link, a 14-byte header on Ethernet-II.
pub open spec fn link_header_len(linktype: u32) -> int {
    if linktype == 0 {
        4
    } else {
        14
    }
}

/// The frame is IPv4 over UDP on the given link layer, with every
/// header complete.
pub open spec fn frame_ok(d: Seq<u8>, linktype: u32) -> bool {
    let lo = link_header_len(linktype);
    &&& linktype == 0 || linktype == 1
    &&& d.len() >= lo + 20
    &&& (linktype == 1 ==> d[12] == 0x08 && d[13] == 0x00)
    &&& d[lo] / 16 == 4
    &&& (d[lo] % 16) >= 5
    &&& d[lo + 9] == 17
    &&& d.len() >= lo + (d[lo] % 16) * 4 + 8
}

/// Where the UDP header starts.
pub open spec fn udp_off(d: Seq<u8>, linktype: u32) -> int {
    link_header_len(linktype) + (d[link_header_len(linktype)] % 16) * 4
}

/// Strip the link, IP and UDP headers of one captured frame; give back
/// the source port, the destination port, and the offset where the UDP
/// payload — the transport packet — starts.
pub fn strip_link_headers(frame: &[u8], linktype: u32) -> (r: Result<
    (u16, u16, usize),
    TransportError,
>)
    ensures
        frame_ok(frame@, linktype) ==> {
            &&& r is Ok
            &&& r->Ok_0.0 == be16(frame@, udp_off(frame@, linktype))
            &&& r->Ok_0.1 == be16(frame@, udp_off(frame@, linktype) + 2)
            &&& r->Ok_0.2 == udp_off(frame@, linktype) + 8
        },
        !frame_ok(frame@, linktype) ==> r is Err,
{
    if linktype != 0 && linktype != 1 {
        return Err(TransportError::UnsupportedFrame);
    }
    let lo: usize = if linktype == 0 {
        4
    } else {
        14
    };
    if frame.len() < lo + 20 {
        return Err(TransportError::TruncatedHeader);
    }
    if linktype == 1 {
        if !(frame[12] == 0x08 && frame[13] == 0x00) {
            return Err(TransportError::UnsupportedFrame);
        }
    }
    let vi = frame[lo];
    if vi / 16 != 4 {
        return Err(TransportError::UnsupportedFrame);
    }
    let ihl = (vi % 16) as usize;
    if ihl < 5 {
        return Err(TransportError::UnsupportedFrame);
    }
    if frame[lo + 9] != 17 {
        return Err(TransportError::UnsupportedFrame);
    }
    let uo = lo + ihl * 4;
    if frame.len() < uo + 8 {
        return Err(TransportError::TruncatedHeader);
    }
    let src = (frame[uo] as u16) * 0x100 + frame[uo + 1] as u16;
    let dst = (frame[uo + 2] as u16) * 0x100 + frame[uo + 3] as u16;
    Ok((src, dst, uo + 8))
}

} // verus!
