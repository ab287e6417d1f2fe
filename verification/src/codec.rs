//! Little-endian encoders for the reader's primitive types, and the laws
//! that decoding an encoded value gives the value back.

use vstd::prelude::*;
use crate::reader::{le_at, le16, le32, le64, round_up4, ascii_chars};

verus! {

/// The two little-endian bytes of `v`.
pub open spec fn u16_le_bytes(v: u16) -> Seq<u8> {
    seq![(v % 0x100) as u8, ((v / 0x100) % 0x100) as u8]
}

/// The four little-endian bytes of `v`.
pub open spec fn u32_le_bytes(v: u32) -> Seq<u8> {
    seq![
        (v % 0x100) as u8,
        ((v / 0x100) % 0x100) as u8,
        ((v / 0x1_0000) % 0x100) as u8,
        ((v / 0x100_0000) % 0x100) as u8,
    ]
}

/// The eight little-endian bytes of `v`.
pub open spec fn u64_le_bytes(v: u64) -> Seq<u8> {
    u32_le_bytes((v % 0x1_0000_0000) as u32) + u32_le_bytes((v / 0x1_0000_0000) as u32)
}

/// The wire form of a length-prefixed string whose prefix starts at
/// offset `origin` of the data: length, ASCII bytes, zero padding up to a
/// 4-byte boundary measured from the start of the data.
pub open spec fn string16l_bytes(s: Seq<char>, origin: int) -> Seq<u8> {
    let end = origin + 2 + s.len();
    u16_le_bytes(s.len() as u16) + Seq::new(s.len(), |i: int| s[i] as u8) + Seq::new(
        (round_up4(end) - end) as nat,
        |i: int| 0u8,
    )
}

/// Decoding the two little-endian bytes of `v` gives `v` back.
pub proof fn lemma_u16_round_trip(v: u16)
    ensures
        le16(u16_le_bytes(v), 0) == v,
{
    reveal_with_fuel(le_at, 3);
}

/// Decoding the four little-endian bytes of `v` gives `v` back.
pub proof fn lemma_u32_round_trip(v: u32)
    ensures
        le32(u32_le_bytes(v), 0) == v,
{
    reveal_with_fuel(le_at, 5);
}

/// Decoding the eight little-endian bytes of `v` gives `v` back.
pub proof fn lemma_u64_round_trip(v: u64)
    ensures
        le64(u64_le_bytes(v), 0) == v,
{
    reveal_with_fuel(le_at, 9);
    lemma_u32_round_trip((v % 0x1_0000_0000) as u32);
    lemma_u32_round_trip((v / 0x1_0000_0000) as u32);
}

/// Re-encoding the `u16` read at offset `i` reproduces the two bytes
/// there.
pub proof fn lemma_u16_bytes_id(b: Seq<u8>, i: int)
    requires
        0 <= i,
        i + 2 <= b.len(),
    ensures
        u16_le_bytes(le16(b, i)) =~= b.subrange(i, i + 2),
{
    reveal_with_fuel(le_at, 3);
}

/// Re-encoding the `u32` read at offset `i` reproduces the four bytes
/// there.
pub proof fn lemma_u32_bytes_id(b: Seq<u8>, i: int)
    requires
        0 <= i,
        i + 4 <= b.len(),
    ensures
        u32_le_bytes(le32(b, i)) =~= b.subrange(i, i + 4),
{
    reveal_with_fuel(le_at, 5);
}

/// Re-encoding the `u64` read at offset `i` reproduces the eight bytes
/// there.
pub proof fn lemma_u64_bytes_id(b: Seq<u8>, i: int)
    requires
        0 <= i,
        i + 8 <= b.len(),
    ensures
        u64_le_bytes(le64(b, i)) =~= b.subrange(i, i + 8),
{
    reveal_with_fuel(le_at, 9);
    lemma_u32_bytes_id(b, i);
    lemma_u32_bytes_id(b, i + 4);
    assert(le64(b, i) % 0x1_0000_0000 == le_at(b, i, 4)) by {
        reveal_with_fuel(le_at, 9);
    };
    assert(le64(b, i) / 0x1_0000_0000 == le_at(b, i + 4, 4)) by {
        reveal_with_fuel(le_at, 9);
    };
}

/// Decoding an encoded string gives the characters back; the whole
/// encoding is `2 + len + pad` bytes, the padding filling up to a 4-byte
/// boundary.
pub proof fn lemma_string16l_round_trip(s: Seq<char>, origin: int)
    requires
        0 <= origin,
        s.len() <= 0xFFFF,
        forall|i: int| 0 <= i < s.len() ==> (s[i] as u32) < 0x80,
    ensures
        ({
            let b = string16l_bytes(s, origin);
            &&& le16(b, 0) == s.len()
            &&& ascii_chars(b.subrange(2, 2 + s.len() as int)) =~= s
            &&& b.len() == round_up4(origin + 2 + s.len()) - origin
        }),
{
    lemma_u16_round_trip(s.len() as u16);
    let b = string16l_bytes(s, origin);
    assert(b.subrange(0, 2) =~= u16_le_bytes(s.len() as u16));
    assert(le16(b, 0) == le16(b.subrange(0, 2), 0)) by {
        reveal_with_fuel(le_at, 3);
    };
    assert(b.subrange(2, 2 + s.len() as int) =~= Seq::new(s.len(), |i: int| s[i] as u8));
    assert forall|i: int| 0 <= i < s.len() implies ((s[i] as u8) as char) == s[i] by {
        vstd::utf8::char_u32_cast(s[i], s[i] as u32);
    };
    assert(ascii_chars(b.subrange(2, 2 + s.len() as int)) =~= s);
}

fn encode_u16(v: u16) -> (r: Vec<u8>)
    ensures
        r@ == u16_le_bytes(v),
{
    let mut out: Vec<u8> = Vec::new();
    out.push((v % 0x100) as u8);
    out.push(((v / 0x100) % 0x100) as u8);
    assert(out@ =~= u16_le_bytes(v));
    out
}

fn encode_u32(v: u32) -> (r: Vec<u8>)
    ensures
        r@ == u32_le_bytes(v),
{
    let mut out: Vec<u8> = Vec::new();
    out.push((v % 0x100) as u8);
    out.push(((v / 0x100) % 0x100) as u8);
    out.push(((v / 0x1_0000) % 0x100) as u8);
    out.push(((v / 0x100_0000) % 0x100) as u8);
    assert(out@ =~= u32_le_bytes(v));
    out
}

/// Append the two little-endian bytes of `v`.
pub fn put_u16(out: &mut Vec<u8>, v: u16)
    ensures
        final(out)@ == old(out)@ + u16_le_bytes(v),
{
    let enc = encode_u16(v);
    let mut i: usize = 0;
    while i < enc.len()
        invariant
            i <= enc@.len(),
            out@ == old(out)@ + enc@.subrange(0, i as int),
        decreases enc@.len() - i,
    {
        out.push(enc[i]);
        i = i + 1;
        assert(out@ =~= old(out)@ + enc@.subrange(0, i as int));
    }
    assert(out@ =~= old(out)@ + enc@);
}

/// Append the four little-endian bytes of `v`.
pub fn put_u32(out: &mut Vec<u8>, v: u32)
    ensures
        final(out)@ == old(out)@ + u32_le_bytes(v),
{
    let enc = encode_u32(v);
    let mut i: usize = 0;
    while i < enc.len()
        invariant
            i <= enc@.len(),
            out@ == old(out)@ + enc@.subrange(0, i as int),
        decreases enc@.len() - i,
    {
        out.push(enc[i]);
        i = i + 1;
        assert(out@ =~= old(out)@ + enc@.subrange(0, i as int));
    }
    assert(out@ =~= old(out)@ + enc@);
}

/// Append the eight little-endian bytes of `v`.
pub fn put_u64(out: &mut Vec<u8>, v: u64)
    ensures
        final(out)@ == old(out)@ + u64_le_bytes(v),
{
    put_u32(out, (v % 0x1_0000_0000) as u32);
    put_u32(out, (v / 0x1_0000_0000) as u32);
    assert(out@ =~= old(out)@ + u64_le_bytes(v));
}

/// Append the wire form of `s` as a length-prefixed string whose prefix
/// begins at the current end of `out`.
pub fn put_string16l(out: &mut Vec<u8>, s: &str)
    requires
        s@.len() <= 0xFFFF,
        vstd::string::is_ascii(s),
        old(out)@.len() + 2 + s@.len() + 4 <= usize::MAX,
    ensures
        final(out)@ == old(out)@ + string16l_bytes(s@, old(out)@.len() as int),
{
    proof {
        broadcast use vstd::string::is_ascii_spec_bytes;

    }
    let origin = out.len();
    let bytes = s.as_bytes();
    put_u16(out, bytes.len() as u16);
    let mut i: usize = 0;
    while i < bytes.len()
        invariant
            i <= bytes@.len(),
            out@ == old(out)@ + u16_le_bytes(bytes@.len() as u16) + bytes@.subrange(0, i as int),
        decreases bytes@.len() - i,
    {
        out.push(bytes[i]);
        i = i + 1;
        assert(out@ =~= old(out)@ + u16_le_bytes(bytes@.len() as u16) + bytes@.subrange(
            0,
            i as int,
        ));
    }
    let ghost end = origin + 2 + bytes@.len();
    let total = out.len();
    let pad_n = (4 - (total % 4)) % 4;
    assert(pad_n as int == round_up4(end as int) - end);
    let mut pad: usize = 0;
    while pad < pad_n
        invariant
            pad <= pad_n,
            out@ == old(out)@ + u16_le_bytes(bytes@.len() as u16) + bytes@ + Seq::new(
                pad as nat,
                |i: int| 0u8,
            ),
        decreases pad_n - pad,
    {
        out.push(0u8);
        pad = pad + 1;
        assert(out@ =~= old(out)@ + u16_le_bytes(bytes@.len() as u16) + bytes@ + Seq::new(
            pad as nat,
            |i: int| 0u8,
        ));
    }
    proof {
        assert(bytes@ =~= Seq::new(s@.len(), |i: int| s@[i] as u8));
        assert(out@ =~= old(out)@ + string16l_bytes(s@, old(out)@.len() as int));
    }
}

} // verus!
