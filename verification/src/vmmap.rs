//! Decoding of fixed-layout kernel region records from a raw byte stream.
//!
//! One platform's kernel answers an address-space query with a packed
//! stream of region records. Each record declares its own length in a
//! little-endian doubleword at its start and is decoded by fixed byte
//! offsets: the region's start, end and file offset as little-endian
//! quadwords at offsets eight, sixteen and twenty-four, the region flags
//! at offset forty-four, the protection bits at offset fifty-six, and a
//! NUL-terminated backing path from offset one hundred thirty-six. The
//! cursor advances by each record's declared length; a record too short to
//! hold its fixed fields, or whose declared length overruns the stream,
//! surfaces as a decode error, never a crash.

use vstd::prelude::*;
use vstd::slice::slice_subrange;
use vstd::slice::slice_to_vec;
use vstd::utf8::decode_utf8;
use vstd::utf8::encode_utf8_decode_utf8;
use vstd::utf8::valid_utf8;
use crate::areas::AreaView;
use crate::areas::MemoryArea;
use crate::error::DecodeKind;
use crate::error::Error;
use crate::flags::Protection;
use crate::flags::ShareMode;
use crate::maps::item_view;
use crate::maps::items_view;
use crate::protmap;
use crate::sys;

verus! {

/// The number the four bytes at `o` denote, least significant byte first.
pub open spec fn le32(s: Seq<u8>, o: int) -> nat {
    s[o] as nat + s[o + 1] as nat * 256 + s[o + 2] as nat * 65536 + s[o + 3] as nat * 16777216
}

/// The number the eight bytes at `o` denote, least significant byte first.
pub open spec fn le64(s: Seq<u8>, o: int) -> nat {
    le32(s, o) + le32(s, o + 4) * 4294967296
}

/// The first position at or after `i` that holds a NUL byte, or the end of
/// `s`.
pub open spec fn nul_end(s: Seq<u8>, i: int) -> int
    decreases s.len() - i,
{
    if i < 0 || i >= s.len() || s[i] == 0 {
        i
    } else {
        nul_end(s, i + 1)
    }
}

/// How one region record decodes: the protection bits grant read, write
/// and execute in their three lowest bits; the lowest region flag marks a
/// copy-on-write region; the backing path runs from the end of the fixed
/// fields to the first NUL, empty for an anonymous region.
pub open spec fn spec_decode_entry(rec: Seq<u8>) -> Result<AreaView, Error> {
    let start = le64(rec, 8);
    let end = le64(rec, 16);
    let off = le64(rec, 24);
    let flags = le32(rec, 44) as u32;
    let prot = le32(rec, 56) as u32;
    let pe = nul_end(rec, 136);
    if end > usize::MAX as nat || start > end {
        Err(Error::Decode(DecodeKind::Number))
    } else if pe >= rec.len() {
        Err(Error::Decode(DecodeKind::Truncated))
    } else if pe == 136 {
        Ok(
            AreaView {
                start: start as usize,
                end: end as usize,
                protection: Protection {
                    read: prot & 1 == 1,
                    write: prot & 2 == 2,
                    execute: prot & 4 == 4,
                },
                share_mode: if flags & 1 == 1 {
                    ShareMode::CopyOnWrite
                } else {
                    ShareMode::Private
                },
                path: None,
            },
        )
    } else if !valid_utf8(rec.subrange(136, pe)) {
        Err(Error::Decode(DecodeKind::Text))
    } else {
        Ok(
            AreaView {
                start: start as usize,
                end: end as usize,
                protection: Protection {
                    read: prot & 1 == 1,
                    write: prot & 2 == 2,
                    execute: prot & 4 == 4,
                },
                share_mode: if flags & 1 == 1 {
                    ShareMode::CopyOnWrite
                } else {
                    ShareMode::Private
                },
                path: Some((decode_utf8(rec.subrange(136, pe)), off as u64)),
            },
        )
    }
}

/// A record decoded from the stream never runs backwards.
pub proof fn lemma_spec_decode_entry_wf(rec: Seq<u8>)
    ensures
        spec_decode_entry(rec) matches Ok(v) ==> v.wf(),
{
}

/// How a whole record stream decodes, from position `i` on: each record
/// declares its own length, the cursor advances by it, and a length too
/// short for the fixed fields or past the end of the stream ends the
/// sequence with one truncation error.
pub open spec fn spec_decode_records(s: Seq<u8>, i: int) -> Seq<Result<AreaView, Error>>
    decreases s.len() - i,
{
    if i < 0 || i >= s.len() {
        Seq::empty()
    } else if s.len() - i < 4 {
        seq![Err(Error::Decode(DecodeKind::Truncated))]
    } else {
        let len = le32(s, i);
        if len < 137 || len > s.len() - i {
            seq![Err(Error::Decode(DecodeKind::Truncated))]
        } else {
            seq![spec_decode_entry(s.subrange(i, i + len))] + spec_decode_records(s, i + len)
        }
    }
}

/// The number the four bytes at `o` denote, least significant byte first.
fn read_le32(s: &[u8], o: usize) -> (r: u32)
    requires
        o + 4 <= s@.len(),
    ensures
        r as nat == le32(s@, o as int),
{
    s[o] as u32 + s[o + 1] as u32 * 256 + s[o + 2] as u32 * 65536 + s[o + 3] as u32 * 16777216
}

/// The number the eight bytes at `o` denote, least significant byte first.
fn read_le64(s: &[u8], o: usize) -> (r: u64)
    requires
        o + 8 <= s@.len(),
    ensures
        r as nat == le64(s@, o as int),
{
    let n = s.len();
    proof {
        assert(o + 8 <= n);
    }
    let lo = read_le32(s, o);
    let hi = read_le32(s, o + 4);
    lo as u64 + hi as u64 * 4294967296
}

/// The first NUL byte at or after `from`, or the end of the bytes.
fn scan_nul(s: &[u8], from: usize) -> (r: usize)
    requires
        from <= s@.len(),
    ensures
        r == nul_end(s@, from as int),
        from <= r <= s@.len(),
{
    let len = s.len();
    let mut i = from;
    loop
        invariant
            from <= i <= len,
            len == s@.len(),
            nul_end(s@, from as int) == nul_end(s@, i as int),
        decreases len - i,
    {
        if i >= len || s[i] == 0 {
            return i;
        }
        proof {
            assert(nul_end(s@, i as int) == nul_end(s@, i + 1 as int));
        }
        i = i + 1;
    }
}

/// Decodes one region record, exactly as [`spec_decode_entry`] says.
pub fn decode_entry(rec: &[u8]) -> (r: Result<MemoryArea, Error>)
    requires
        rec@.len() >= 137,
    ensures
        match (r, spec_decode_entry(rec@)) {
            (Ok(a), Ok(v)) => a@ == v,
            (Err(e), Err(f)) => e == f,
            _ => false,
        },
{
    let start = read_le64(rec, 8);
    let end = read_le64(rec, 16);
    let off = read_le64(rec, 24);
    let flags = read_le32(rec, 44);
    let prot = read_le32(rec, 56);
    if end > usize::MAX as u64 || start > end {
        return Err(Error::Decode(DecodeKind::Number));
    }
    let pe = scan_nul(rec, 136);
    if pe >= rec.len() {
        return Err(Error::Decode(DecodeKind::Truncated));
    }
    let protection = protmap::protection_from_bits(prot);
    let share_mode = protmap::share_mode_from_cow(flags & 1 == 1);
    if pe == 136 {
        return Ok(
            MemoryArea::from_parts(start as usize, end as usize, protection, share_mode, None),
        );
    }
    let path_bytes = slice_to_vec(slice_subrange(rec, 136, pe));
    match sys::string_from_bytes(path_bytes) {
        Ok(s) => {
            proof {
                encode_utf8_decode_utf8(s@);
            }
            Ok(
                MemoryArea::from_parts(
                    start as usize,
                    end as usize,
                    protection,
                    share_mode,
                    Some((s, off)),
                ),
            )
        },
        Err(()) => Err(Error::Decode(DecodeKind::Text)),
    }
}

/// Decodes a whole record stream, exactly as [`spec_decode_records`]
/// says: one record or decode error per declared-length step, in stream
/// order, never merging records.
pub fn decode_records(bytes: &[u8]) -> (r: Vec<Result<MemoryArea, Error>>)
    ensures
        items_view(r@) == spec_decode_records(bytes@, 0),
        forall|k: int|
            0 <= k < r@.len() ==> ((#[trigger] r@[k]) matches Ok(a) ==> a@.wf()),
{
    let len = bytes.len();
    let mut out: Vec<Result<MemoryArea, Error>> = Vec::new();
    let mut i: usize = 0;
    proof {
        assert(items_view(out@) =~= Seq::<Result<AreaView, Error>>::empty());
    }
    while i < len
        invariant
            i <= len,
            len == bytes@.len(),
            spec_decode_records(bytes@, 0) == items_view(out@) + spec_decode_records(
                bytes@,
                i as int,
            ),
            forall|k: int|
                0 <= k < out@.len() ==> ((#[trigger] out@[k]) matches Ok(a) ==> a@.wf()),
        decreases len - i,
    {
        let ghost before = out@;
        if len - i < 4 {
            let item: Result<MemoryArea, Error> = Err(Error::Decode(DecodeKind::Truncated));
            proof {
                assert(items_view(before.push(item)) =~= items_view(before).push(item_view(item)));
                assert(spec_decode_records(bytes@, i as int) =~= seq![
                    Err::<AreaView, Error>(Error::Decode(DecodeKind::Truncated)),
                ]);
            }
            out.push(item);
            i = len;
        } else {
            let remaining = len - i;
            let rec_len = read_le32(bytes, i) as usize;
            if rec_len < 137 || rec_len > remaining {
                let item: Result<MemoryArea, Error> = Err(Error::Decode(DecodeKind::Truncated));
                proof {
                    assert(items_view(before.push(item)) =~= items_view(before).push(
                        item_view(item),
                    ));
                    assert(spec_decode_records(bytes@, i as int) =~= seq![
                        Err::<AreaView, Error>(Error::Decode(DecodeKind::Truncated)),
                    ]);
                }
                out.push(item);
                i = len;
            } else {
                let rec = slice_subrange(bytes, i, i + rec_len);
                let item = decode_entry(rec);
                proof {
                    lemma_spec_decode_entry_wf(rec@);
                    assert(items_view(before.push(item)) =~= items_view(before).push(
                        item_view(item),
                    ));
                    assert(spec_decode_records(bytes@, i as int) =~= seq![
                        spec_decode_entry(bytes@.subrange(i as int, i as int + rec_len as int)),
                    ] + spec_decode_records(bytes@, i as int + rec_len as int));
                }
                out.push(item);
                i = i + rec_len;
            }
        }
    }
    proof {
        assert(spec_decode_records(bytes@, i as int) =~= Seq::<Result<AreaView, Error>>::empty());
        assert(items_view(out@) =~= spec_decode_records(bytes@, 0));
    }
    out
}

} // verus!
