//! Cursor over a byte slice with little-endian primitive reads, bounds
//! checking, and the protocol's string and alignment conventions.

use vstd::prelude::*;

verus! {

/// Error kinds raised by cursor operations.
#[derive(Clone, Copy, Debug, PartialEq, Eq, Structural)]
pub enum ReadError {
    /// Fewer bytes remain than the operation needs.
    TruncatedInput,
    /// A length-prefixed string holds bytes outside the ASCII range.
    InvalidUtf8,
    /// Aligning the cursor would move it past the end of the data.
    BadAlignment,
}

/// The value of the `n`-byte little-endian integer at offset `i` of `b`.
pub open spec fn le_at(b: Seq<u8>, i: int, n: int) -> int
    decreases n,
{
    if n <= 0 {
        0
    } else {
        b[i] + 0x100 * le_at(b, i + 1, n - 1)
    }
}

/// Little-endian `u16` at offset `i`.
pub open spec fn le16(b: Seq<u8>, i: int) -> u16 {
    le_at(b, i, 2) as u16
}

/// Little-endian `u32` at offset `i`.
pub open spec fn le32(b: Seq<u8>, i: int) -> u32 {
    le_at(b, i, 4) as u32
}

/// Little-endian `u64` at offset `i`.
pub open spec fn le64(b: Seq<u8>, i: int) -> u64 {
    le_at(b, i, 8) as u64
}

/// `pos` rounded up to the next multiple of 4 (the string padding rule,
/// with the origin at the start of the data).
pub open spec fn round_up4(pos: int) -> int {
    if pos % 4 == 0 {
        pos
    } else {
        pos + (4 - pos % 4)
    }
}

/// Every byte is in the ASCII range.
pub open spec fn ascii_ok(b: Seq<u8>) -> bool {
    forall|i: int| 0 <= i < b.len() ==> b[i] < 0x80
}

/// The characters with the same code points as the bytes.
pub open spec fn ascii_chars(b: Seq<u8>) -> Seq<char> {
    Seq::new(b.len(), |i: int| b[i] as char)
}

/// The value of the protocol's variable-length integer at offset `i`, and
/// its width in bytes: a first byte under `0x80` is the value itself; a
/// top bit of `10` starts a 2-byte value; `11` starts a 4-byte value. The
/// extension bytes follow most significant first.
pub open spec fn compressed_u32_at(b: Seq<u8>, i: int) -> (u32, int) {
    if b[i] < 0x80 {
        (b[i] as u32, 1)
    } else if b[i] < 0xC0 {
        (((b[i] - 0x80) * 0x100 + b[i + 1]) as u32, 2)
    } else {
        let v = (b[i] - 0xC0) * 0x100_0000 + b[i + 1] * 0x1_0000 + b[i + 2] * 0x100 + b[i + 3];
        (v as u32, 4)
    }
}

/// A cursor over a byte slice. All reads are little-endian; every
/// operation leaves the underlying bytes unchanged and never moves the
/// cursor backwards.
pub struct BinaryReader<'a> {
    data: &'a [u8],
    pos: usize,
}

impl<'a> BinaryReader<'a> {
    /// The underlying bytes.
    pub closed spec fn data(self) -> Seq<u8> {
        self.data@
    }

    /// The cursor position.
    pub closed spec fn pos(self) -> int {
        self.pos as int
    }

    /// Cursor within bounds.
    pub open spec fn wf(self) -> bool {
        0 <= self.pos() <= self.data().len()
    }

    /// Bytes left from the cursor to the end.
    pub open spec fn remaining_spec(self) -> int {
        self.data().len() - self.pos()
    }

    pub fn new(data: &'a [u8]) -> (r: Self)
        ensures
            r.wf(),
            r.data() == data@,
            r.pos() == 0,
    {
        BinaryReader { data, pos: 0 }
    }

    pub fn remaining(&self) -> (r: usize)
        requires
            self.wf(),
        ensures
            r == self.remaining_spec(),
    {
        self.data.len() - self.pos
    }

    pub fn position(&self) -> (r: usize)
        ensures
            r == self.pos(),
    {
        self.pos
    }

    /// Move the cursor to `p`; used to restore a snapshot taken earlier.
    pub fn seek(&mut self, p: usize)
        requires
            p <= old(self).data().len(),
        ensures
            final(self).wf(),
            final(self).data() == old(self).data(),
            final(self).pos() == p,
    {
        self.pos = p;
    }

    pub fn read_u8(&mut self) -> (r: Result<u8, ReadError>)
        requires
            old(self).wf(),
        ensures
            final(self).wf(),
            final(self).data() == old(self).data(),
            old(self).remaining_spec() >= 1 ==> {
                &&& r == Ok::<u8, ReadError>(final(self).data()[old(self).pos()])
                &&& final(self).pos() == old(self).pos() + 1
            },
            old(self).remaining_spec() < 1 ==> {
                &&& r == Err::<u8, ReadError>(ReadError::TruncatedInput)
                &&& final(self).pos() == old(self).pos()
            },
    {
        if self.pos < self.data.len() {
            let b = self.data[self.pos];
            self.pos = self.pos + 1;
            Ok(b)
        } else {
            Err(ReadError::TruncatedInput)
        }
    }

    pub fn read_u16(&mut self) -> (r: Result<u16, ReadError>)
        requires
            old(self).wf(),
        ensures
            final(self).wf(),
            final(self).data() == old(self).data(),
            old(self).remaining_spec() >= 2 ==> {
                &&& r == Ok::<u16, ReadError>(le16(final(self).data(), old(self).pos()))
                &&& final(self).pos() == old(self).pos() + 2
            },
            old(self).remaining_spec() < 2 ==> {
                &&& r == Err::<u16, ReadError>(ReadError::TruncatedInput)
                &&& final(self).pos() == old(self).pos()
            },
    {
        if self.data.len() - self.pos >= 2 {
            let b0 = self.data[self.pos] as u16;
            let b1 = self.data[self.pos + 1] as u16;
            self.pos = self.pos + 2;
            let r = b0 + b1 * 0x100;
            assert(r == le16(self.data(), old(self).pos())) by {
                reveal_with_fuel(le_at, 3);
            };
            Ok(r)
        } else {
            Err(ReadError::TruncatedInput)
        }
    }

    pub fn read_u32(&mut self) -> (r: Result<u32, ReadError>)
        requires
            old(self).wf(),
        ensures
            final(self).wf(),
            final(self).data() == old(self).data(),
            old(self).remaining_spec() >= 4 ==> {
                &&& r == Ok::<u32, ReadError>(le32(final(self).data(), old(self).pos()))
                &&& final(self).pos() == old(self).pos() + 4
            },
            old(self).remaining_spec() < 4 ==> {
                &&& r == Err::<u32, ReadError>(ReadError::TruncatedInput)
                &&& final(self).pos() == old(self).pos()
            },
    {
        if self.data.len() - self.pos >= 4 {
            let b0 = self.data[self.pos] as u32;
            let b1 = self.data[self.pos + 1] as u32;
            let b2 = self.data[self.pos + 2] as u32;
            let b3 = self.data[self.pos + 3] as u32;
            self.pos = self.pos + 4;
            let r = b0 + b1 * 0x100 + b2 * 0x1_0000 + b3 * 0x100_0000;
            assert(r == le32(self.data(), old(self).pos())) by {
                reveal_with_fuel(le_at, 5);
            };
            Ok(r)
        } else {
            Err(ReadError::TruncatedInput)
        }
    }

    pub fn read_u64(&mut self) -> (r: Result<u64, ReadError>)
        requires
            old(self).wf(),
        ensures
            final(self).wf(),
            final(self).data() == old(self).data(),
            old(self).remaining_spec() >= 8 ==> {
                &&& r == Ok::<u64, ReadError>(le64(final(self).data(), old(self).pos()))
                &&& final(self).pos() == old(self).pos() + 8
            },
            old(self).remaining_spec() < 8 ==> {
                &&& r == Err::<u64, ReadError>(ReadError::TruncatedInput)
                &&& final(self).pos() == old(self).pos()
            },
    {
        if self.data.len() - self.pos >= 8 {
            let lo = match self.read_u32() {
                Ok(v) => v,
                Err(e) => { return Err(e); },
            };
            let hi = match self.read_u32() {
                Ok(v) => v,
                Err(e) => { return Err(e); },
            };
            let r = lo as u64 + (hi as u64) * 0x1_0000_0000;
            assert(r == le64(self.data(), old(self).pos())) by {
                reveal_with_fuel(le_at, 9);
            };
            Ok(r)
        } else {
            Err(ReadError::TruncatedInput)
        }
    }

    pub fn read_i32(&mut self) -> (r: Result<i32, ReadError>)
        requires
            old(self).wf(),
        ensures
            final(self).wf(),
            final(self).data() == old(self).data(),
            old(self).remaining_spec() >= 4 ==> {
                &&& r == Ok::<i32, ReadError>(le32(final(self).data(), old(self).pos()) as i32)
                &&& final(self).pos() == old(self).pos() + 4
            },
            old(self).remaining_spec() < 4 ==> {
                &&& r == Err::<i32, ReadError>(ReadError::TruncatedInput)
                &&& final(self).pos() == old(self).pos()
            },
    {
        match self.read_u32() {
            Ok(v) => Ok(v as i32),
            Err(e) => Err(e),
        }
    }

    /// Single byte, nonzero meaning true.
    pub fn read_bool(&mut self) -> (r: Result<bool, ReadError>)
        requires
            old(self).wf(),
        ensures
            final(self).wf(),
            final(self).data() == old(self).data(),
            old(self).remaining_spec() >= 1 ==> {
                &&& r == Ok::<bool, ReadError>(final(self).data()[old(self).pos()] != 0)
                &&& final(self).pos() == old(self).pos() + 1
            },
            old(self).remaining_spec() < 1 ==> {
                &&& r == Err::<bool, ReadError>(ReadError::TruncatedInput)
                &&& final(self).pos() == old(self).pos()
            },
    {
        match self.read_u8() {
            Ok(v) => Ok(v != 0),
            Err(e) => Err(e),
        }
    }

    /// The raw bits of a 4-byte float; the caller interprets them.
    pub fn read_f32_bits(&mut self) -> (r: Result<u32, ReadError>)
        requires
            old(self).wf(),
        ensures
            final(self).wf(),
            final(self).data() == old(self).data(),
            old(self).remaining_spec() >= 4 ==> {
                &&& r == Ok::<u32, ReadError>(le32(final(self).data(), old(self).pos()))
                &&& final(self).pos() == old(self).pos() + 4
            },
            old(self).remaining_spec() < 4 ==> {
                &&& r == Err::<u32, ReadError>(ReadError::TruncatedInput)
                &&& final(self).pos() == old(self).pos()
            },
    {
        self.read_u32()
    }

    /// The raw bits of an 8-byte float; the caller interprets them.
    pub fn read_f64_bits(&mut self) -> (r: Result<u64, ReadError>)
        requires
            old(self).wf(),
        ensures
            final(self).wf(),
            final(self).data() == old(self).data(),
            old(self).remaining_spec() >= 8 ==> {
                &&& r == Ok::<u64, ReadError>(le64(final(self).data(), old(self).pos()))
                &&& final(self).pos() == old(self).pos() + 8
            },
            old(self).remaining_spec() < 8 ==> {
                &&& r == Err::<u64, ReadError>(ReadError::TruncatedInput)
                &&& final(self).pos() == old(self).pos()
            },
    {
        self.read_u64()
    }

    pub fn read_bytes(&mut self, n: usize) -> (r: Result<Vec<u8>, ReadError>)
        requires
            old(self).wf(),
        ensures
            final(self).wf(),
            final(self).data() == old(self).data(),
            old(self).remaining_spec() >= n ==> {
                &&& r is Ok
                &&& r->Ok_0@ == final(self).data().subrange(old(self).pos(), old(self).pos() + n)
                &&& final(self).pos() == old(self).pos() + n
            },
            old(self).remaining_spec() < n ==> {
                &&& r == Err::<Vec<u8>, ReadError>(ReadError::TruncatedInput)
                &&& final(self).pos() == old(self).pos()
            },
    {
        if self.data.len() - self.pos >= n {
            let mut out: Vec<u8> = Vec::new();
            let mut i: usize = 0;
            while i < n
                invariant
                    self.wf(),
                    self.pos + n <= self.data@.len(),
                    self.pos + n <= usize::MAX,
                    i <= n,
                    out@ == self.data@.subrange(self.pos as int, self.pos + i),
                decreases n - i,
            {
                out.push(self.data[self.pos + i]);
                i = i + 1;
                assert(out@ =~= self.data@.subrange(self.pos as int, self.pos + i));
            }
            self.pos = self.pos + n;
            Ok(out)
        } else {
            Err(ReadError::TruncatedInput)
        }
    }

    /// Copy of the next `n` bytes without moving the cursor.
    pub fn peek(&mut self, n: usize) -> (r: Result<Vec<u8>, ReadError>)
        requires
            old(self).wf(),
        ensures
            final(self).wf(),
            final(self).data() == old(self).data(),
            final(self).pos() == old(self).pos(),
            old(self).remaining_spec() >= n ==> {
                &&& r is Ok
                &&& r->Ok_0@ == final(self).data().subrange(old(self).pos(), old(self).pos() + n)
            },
            old(self).remaining_spec() < n ==> r == Err::<Vec<u8>, ReadError>(
                ReadError::TruncatedInput,
            ),
    {
        let saved = self.pos;
        let r = self.read_bytes(n);
        self.pos = saved;
        r
    }

    pub fn skip(&mut self, n: usize) -> (r: Result<(), ReadError>)
        requires
            old(self).wf(),
        ensures
            final(self).wf(),
            final(self).data() == old(self).data(),
            old(self).remaining_spec() >= n ==> {
                &&& r is Ok
                &&& final(self).pos() == old(self).pos() + n
            },
            old(self).remaining_spec() < n ==> {
                &&& r == Err::<(), ReadError>(ReadError::TruncatedInput)
                &&& final(self).pos() == old(self).pos()
            },
    {
        if self.data.len() - self.pos >= n {
            self.pos = self.pos + n;
            Ok(())
        } else {
            Err(ReadError::TruncatedInput)
        }
    }

    /// Round the cursor up to the next multiple of `n`, with the origin at
    /// the start of the data. Fails if that would pass the end.
    pub fn align(&mut self, n: usize) -> (r: Result<(), ReadError>)
        requires
            old(self).wf(),
            1 <= n <= 8,
        ensures
            final(self).wf(),
            final(self).data() == old(self).data(),
            ({
                let target = if old(self).pos() % (n as int) == 0 {
                    old(self).pos()
                } else {
                    old(self).pos() + ((n as int) - old(self).pos() % (n as int))
                };
                if target <= old(self).data().len() {
                    r is Ok && final(self).pos() == target
                } else {
                    r == Err::<(), ReadError>(ReadError::BadAlignment) && final(self).pos()
                        == old(self).pos()
                }
            }),
    {
        let rem = self.pos % n;
        if rem == 0 {
            Ok(())
        } else {
            let pad = n - rem;
            if self.data.len() - self.pos >= pad {
                self.pos = self.pos + pad;
                Ok(())
            } else {
                Err(ReadError::BadAlignment)
            }
        }
    }

    /// Length-prefixed string: a little-endian `u16` length, that many
    /// ASCII bytes, then padding up to a 4-byte boundary measured from the
    /// start of the data.
    pub fn read_string16l(&mut self) -> (r: Result<String, ReadError>)
        requires
            old(self).wf(),
        ensures
            final(self).wf(),
            final(self).data() == old(self).data(),
            ({
                let d = old(self).data();
                let p = old(self).pos();
                let len = le16(d, p) as int;
                let body = d.subrange(p + 2, p + 2 + len);
                if old(self).remaining_spec() < 2 {
                    r == Err::<String, ReadError>(ReadError::TruncatedInput) && final(self).pos()
                        == p
                } else if old(self).remaining_spec() < 2 + len {
                    r == Err::<String, ReadError>(ReadError::TruncatedInput) && final(self).pos()
                        == p + 2
                } else if !ascii_ok(body) {
                    r == Err::<String, ReadError>(ReadError::InvalidUtf8) && final(self).pos() == p
                        + 2 + len
                } else if round_up4(p + 2 + len) <= d.len() {
                    &&& r is Ok
                    &&& r->Ok_0@ == ascii_chars(body)
                    &&& final(self).pos() == round_up4(p + 2 + len)
                } else {
                    r == Err::<String, ReadError>(ReadError::BadAlignment) && final(self).pos()
                        == p + 2 + len
                }
            }),
    {
        let len = match self.read_u16() {
            Ok(v) => v,
            Err(e) => { return Err(e); },
        };
        let bytes = match self.read_bytes(len as usize) {
            Ok(v) => v,
            Err(e) => { return Err(e); },
        };
        let mut ok = true;
        let mut i: usize = 0;
        while i < bytes.len()
            invariant
                i <= bytes@.len(),
                ok <==> (forall|j: int| 0 <= j < i ==> bytes@[j] < 0x80),
            decreases bytes@.len() - i,
        {
            if bytes[i] >= 0x80 {
                ok = false;
            }
            i = i + 1;
        }
        if !ok {
            return Err(ReadError::InvalidUtf8);
        }
        let s = ascii_to_string(bytes);
        match self.align(4) {
            Ok(()) => Ok(s),
            Err(_) => Err(ReadError::BadAlignment),
        }
    }

    /// The protocol's variable-length integer; see [`compressed_u32_at`].
    pub fn read_compressed_u32(&mut self) -> (r: Result<u32, ReadError>)
        requires
            old(self).wf(),
        ensures
            final(self).wf(),
            final(self).data() == old(self).data(),
            ({
                let d = old(self).data();
                let p = old(self).pos();
                if old(self).remaining_spec() < 1 {
                    r == Err::<u32, ReadError>(ReadError::TruncatedInput) && final(self).pos() == p
                } else if old(self).remaining_spec() >= compressed_u32_at(d, p).1 {
                    &&& r == Ok::<u32, ReadError>(compressed_u32_at(d, p).0)
                    &&& final(self).pos() == p + compressed_u32_at(d, p).1
                } else {
                    r == Err::<u32, ReadError>(ReadError::TruncatedInput) && final(self).pos() == p
                        + 1
                }
            }),
    {
        let b0 = match self.read_u8() {
            Ok(v) => v,
            Err(e) => { return Err(e); },
        };
        if b0 < 0x80 {
            Ok(b0 as u32)
        } else if b0 < 0xC0 {
            let b1 = match self.read_u8() {
                Ok(v) => v,
                Err(e) => { return Err(e); },
            };
            Ok((b0 - 0x80) as u32 * 0x100 + b1 as u32)
        } else {
            let ext = match self.read_bytes(3) {
                Ok(v) => v,
                Err(e) => { return Err(e); },
            };
            Ok(
                (b0 - 0xC0) as u32 * 0x100_0000 + ext[0] as u32 * 0x1_0000 + ext[1] as u32 * 0x100
                    + ext[2] as u32,
            )
        }
    }

    /// Length-prefixed `(key, value)` pairs of `u32`s, preceded by the
    /// table's bucket-count hint: `count(u16) | buckets(u16)` then `count`
    /// little-endian pairs.
    pub fn read_packable_hashtable_u32(&mut self) -> (r: Result<Vec<(u32, u32)>, ReadError>)
        requires
            old(self).wf(),
        ensures
            final(self).wf(),
            final(self).data() == old(self).data(),
            ({
                let d = old(self).data();
                let p = old(self).pos();
                let count = le16(d, p) as int;
                if old(self).remaining_spec() < 4 {
                    r == Err::<Vec<(u32, u32)>, ReadError>(ReadError::TruncatedInput)
                        && final(self).pos() == p
                } else if old(self).remaining_spec() < 4 + 8 * count {
                    r == Err::<Vec<(u32, u32)>, ReadError>(ReadError::TruncatedInput)
                        && final(self).pos() == p + 4
                } else {
                    &&& r is Ok
                    &&& r->Ok_0@.len() == count
                    &&& forall|k: int|
                        0 <= k < count ==> r->Ok_0@[k] == (
                            le32(d, p + 4 + 8 * k),
                            le32(d, p + 8 + 8 * k),
                        )
                    &&& final(self).pos() == p + 4 + 8 * count
                }
            }),
    {
        let p0 = self.position();
        let count = match self.read_u16() {
            Ok(v) => v,
            Err(e) => { return Err(e); },
        };
        let _buckets = match self.read_u16() {
            Ok(v) => v,
            Err(e) => {
                self.seek(p0);
                return Err(e);
            },
        };
        if (self.data.len() - self.pos) / 8 < count as usize {
            return Err(ReadError::TruncatedInput);
        }
        let mut out: Vec<(u32, u32)> = Vec::new();
        let mut k: usize = 0;
        while k < count as usize
            invariant
                self.wf(),
                self.data() == old(self).data(),
                k <= count,
                self.pos() == old(self).pos() + 4 + 8 * k,
                self.remaining_spec() >= 8 * ((count as int) - k),
                out@.len() == k,
                forall|j: int|
                    0 <= j < k ==> out@[j] == (
                        le32(self.data(), old(self).pos() + 4 + 8 * j),
                        le32(self.data(), old(self).pos() + 8 + 8 * j),
                    ),
            decreases count as int - k,
        {
            let key = match self.read_u32() {
                Ok(v) => v,
                Err(_) => { return Err(ReadError::TruncatedInput); },
            };
            let value = match self.read_u32() {
                Ok(v) => v,
                Err(_) => { return Err(ReadError::TruncatedInput); },
            };
            out.push((key, value));
            k = k + 1;
        }
        Ok(out)
    }
}

/// Relies on `String::from_utf8`: ASCII bytes are valid UTF-8 and decode
/// to the characters with the same code points.
#[verifier::external_body]
fn ascii_to_string(b: Vec<u8>) -> (r: String)
    requires
        ascii_ok(b@),
    ensures
        r@ == ascii_chars(b@),
{
    String::from_utf8(b).unwrap_or_default()
}

} // verus!
