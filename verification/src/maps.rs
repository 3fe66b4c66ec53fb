//! Line-oriented decoding of the kernel's textual region table.
//!
//! The kernel exposes one line per live region. A line holds, separated by
//! single spaces: the half-open address range as two hexadecimal numbers
//! joined by a dash, four permission characters (read, write, execute, then
//! share mode), the hexadecimal byte offset into the backing file, the
//! device field, the inode field, and — after any run of spaces — the
//! backing path up to the end of the line, absent for anonymous regions.
//! [`spec_parse_line`] is the specification of how one line decodes and
//! [`parse_line`] the executable decoder proved equal to it; a malformed
//! line surfaces as a decode error, never a crash.

use vstd::prelude::*;
use vstd::slice::slice_subrange;
use vstd::slice::slice_to_vec;
use vstd::utf8::decode_utf8;
use vstd::utf8::encode_utf8_decode_utf8;
use vstd::utf8::valid_utf8;
use crate::areas::AreaView;
use crate::areas::MemoryArea;
use crate::error::DecodeKind;
use crate::error::Error;
use crate::flags::Protection;
use crate::flags::ShareMode;
use crate::sys;

verus! {

/// Whether `b` is the code of a hexadecimal digit.
pub open spec fn is_hex_digit(b: u8) -> bool {
    (48 <= b && b <= 57) || (97 <= b && b <= 102) || (65 <= b && b <= 70)
}

/// The numeric value of the hexadecimal digit with code `b`.
pub open spec fn hex_digit_value(b: u8) -> nat {
    if 48 <= b && b <= 57 {
        (b - 48) as nat
    } else if 97 <= b && b <= 102 {
        (b - 87) as nat
    } else if 65 <= b && b <= 70 {
        (b - 55) as nat
    } else {
        0
    }
}

/// The number the digit codes `s` denote in base sixteen.
pub open spec fn hex_value(s: Seq<u8>) -> nat
    decreases s.len(),
{
    if s.len() == 0 {
        0
    } else {
        hex_value(s.drop_last()) * 16 + hex_digit_value(s.last())
    }
}

/// The first position at or after `i` that holds no hexadecimal digit, or
/// the end of `s`.
pub open spec fn hex_end(s: Seq<u8>, i: int) -> int
    decreases s.len() - i,
{
    if i < 0 || i >= s.len() || !is_hex_digit(s[i]) {
        i
    } else {
        hex_end(s, i + 1)
    }
}

/// The first position at or after `i` that holds a space, or the end of
/// `s`: the end of the field starting at `i`.
pub open spec fn token_end(s: Seq<u8>, i: int) -> int
    decreases s.len() - i,
{
    if i < 0 || i >= s.len() || s[i] == 32 {
        i
    } else {
        token_end(s, i + 1)
    }
}

/// The first position at or after `i` that holds no space, or the end of
/// `s`: where the field after a run of spaces starts.
pub open spec fn skip_spaces(s: Seq<u8>, i: int) -> int
    decreases s.len() - i,
{
    if i < 0 || i >= s.len() || s[i] != 32 {
        i
    } else {
        skip_spaces(s, i + 1)
    }
}

/// The first position at or after `i` that holds a line break, or the end
/// of `s`.
pub open spec fn line_end(s: Seq<u8>, i: int) -> int
    decreases s.len() - i,
{
    if i < 0 || i >= s.len() || s[i] == 10 {
        i
    } else {
        line_end(s, i + 1)
    }
}

/// Whether the four permission characters at `p` are well formed: read,
/// write and execute each either granted or a dash, and the share mode
/// either private or shared.
pub open spec fn perms_wf(l: Seq<u8>, p: int) -> bool {
    &&& (l[p] == 114 || l[p] == 45)
    &&& (l[p + 1] == 119 || l[p + 1] == 45)
    &&& (l[p + 2] == 120 || l[p + 2] == 45)
    &&& (l[p + 3] == 112 || l[p + 3] == 115)
}

/// The protection the permission characters at `p` denote.
pub open spec fn perms_protection(l: Seq<u8>, p: int) -> Protection {
    Protection { read: l[p] == 114, write: l[p + 1] == 119, execute: l[p + 2] == 120 }
}

/// The share mode the fourth permission character at `p` denotes.
pub open spec fn perms_share(l: Seq<u8>, p: int) -> ShareMode {
    if l[p + 3] == 115 {
        ShareMode::Shared
    } else {
        ShareMode::Private
    }
}

/// How one line of the kernel's region table decodes: either the record it
/// denotes, or the decode error a malformed line surfaces as.
pub open spec fn spec_parse_line(l: Seq<u8>) -> Result<AreaView, Error> {
    let e1 = hex_end(l, 0);
    let s2 = e1 + 1;
    let e2 = hex_end(l, s2);
    let p = e2 + 1;
    let o = p + 5;
    let e3 = hex_end(l, o);
    let d = e3 + 1;
    let t1 = token_end(l, d);
    let n = t1 + 1;
    let t2 = token_end(l, n);
    let ps = skip_spaces(l, t2);
    if e1 == 0 || hex_value(l.subrange(0, e1)) > usize::MAX as nat {
        Err(Error::Decode(DecodeKind::Number))
    } else if e1 >= l.len() || l[e1] != 45 {
        Err(Error::Decode(DecodeKind::Number))
    } else if e2 == s2 || hex_value(l.subrange(s2, e2)) > usize::MAX as nat {
        Err(Error::Decode(DecodeKind::Number))
    } else if hex_value(l.subrange(0, e1)) > hex_value(l.subrange(s2, e2)) {
        Err(Error::Decode(DecodeKind::Number))
    } else if e2 >= l.len() || l[e2] != 32 {
        Err(Error::Decode(DecodeKind::Number))
    } else if p + 4 > l.len() || !perms_wf(l, p) {
        Err(Error::Decode(DecodeKind::Text))
    } else if p + 4 >= l.len() || l[p + 4] != 32 {
        Err(Error::Decode(DecodeKind::Text))
    } else if e3 == o || hex_value(l.subrange(o, e3)) > usize::MAX as nat {
        Err(Error::Decode(DecodeKind::Number))
    } else if e3 >= l.len() || l[e3] != 32 {
        Err(Error::Decode(DecodeKind::Number))
    } else if t1 == d || t1 >= l.len() {
        Err(Error::Decode(DecodeKind::Number))
    } else if t2 == n {
        Err(Error::Decode(DecodeKind::Number))
    } else if ps >= l.len() {
        Ok(
            AreaView {
                start: hex_value(l.subrange(0, e1)) as usize,
                end: hex_value(l.subrange(s2, e2)) as usize,
                protection: perms_protection(l, p),
                share_mode: perms_share(l, p),
                path: None,
            },
        )
    } else if !valid_utf8(l.subrange(ps, l.len() as int)) {
        Err(Error::Decode(DecodeKind::Text))
    } else {
        Ok(
            AreaView {
                start: hex_value(l.subrange(0, e1)) as usize,
                end: hex_value(l.subrange(s2, e2)) as usize,
                protection: perms_protection(l, p),
                share_mode: perms_share(l, p),
                path: Some(
                    (
                        decode_utf8(l.subrange(ps, l.len() as int)),
                        hex_value(l.subrange(o, e3)) as u64,
                    ),
                ),
            },
        )
    }
}

/// A record decoded from a line never runs backwards.
pub proof fn lemma_spec_parse_line_wf(l: Seq<u8>)
    ensures
        spec_parse_line(l) matches Ok(v) ==> v.wf(),
{
}

proof fn lemma_hex_end_bounds(s: Seq<u8>, i: int)
    requires
        0 <= i <= s.len(),
    ensures
        i <= hex_end(s, i) <= s.len(),
        forall|j: int| i <= j < hex_end(s, i) ==> is_hex_digit(s[j]),
    decreases s.len() - i,
{
    if i < s.len() && is_hex_digit(s[i]) {
        lemma_hex_end_bounds(s, i + 1);
    }
}

proof fn lemma_line_end_bounds(s: Seq<u8>, i: int)
    requires
        0 <= i <= s.len(),
    ensures
        i <= line_end(s, i) <= s.len(),
    decreases s.len() - i,
{
    if i < s.len() && s[i] != 10 {
        lemma_line_end_bounds(s, i + 1);
    }
}

/// Appending digit codes never makes the denoted number smaller.
proof fn lemma_hex_value_monotone(s: Seq<u8>, from: int, i: int, j: int)
    requires
        0 <= from <= i <= j <= s.len(),
    ensures
        hex_value(s.subrange(from, i)) <= hex_value(s.subrange(from, j)),
    decreases j - i,
{
    if i < j {
        lemma_hex_value_monotone(s, from, i, j - 1);
        assert(s.subrange(from, j).drop_last() =~= s.subrange(from, j - 1));
        assert(hex_value(s.subrange(from, j)) == hex_value(s.subrange(from, j - 1)) * 16
            + hex_digit_value(s.subrange(from, j).last()));
    }
}

/// The exact value and extent of the run of hexadecimal digits starting at
/// `from`, or nothing where no digit stands there or the denoted number
/// does not fit the machine.
pub fn scan_hex(s: &[u8], from: usize) -> (r: Option<(usize, usize)>)
    requires
        from <= s@.len(),
    ensures
        r matches Some(v) ==> from < v.1 <= s@.len() && v.1 == hex_end(s@, from as int) && v.0
            as nat == hex_value(s@.subrange(from as int, v.1 as int)),
        r is None ==> hex_end(s@, from as int) == from || hex_value(
            s@.subrange(from as int, hex_end(s@, from as int)),
        ) > usize::MAX as nat,
{
    let len = s.len();
    let mut i = from;
    let mut acc: usize = 0;
    proof {
        lemma_hex_end_bounds(s@, from as int);
        assert(s@.subrange(from as int, from as int) =~= Seq::<u8>::empty());
    }
    loop
        invariant
            from <= i <= len,
            len == s@.len(),
            hex_end(s@, from as int) == hex_end(s@, i as int),
            acc as nat == hex_value(s@.subrange(from as int, i as int)),
        ensures
            from <= i <= len,
            hex_end(s@, from as int) == hex_end(s@, i as int),
            acc as nat == hex_value(s@.subrange(from as int, i as int)),
            i == len || !is_hex_digit(s@[i as int]),
        decreases len - i,
    {
        if i >= len {
            break ;
        }
        let d = match hex_digit(s[i]) {
            Some(d) => d,
            None => {
                break ;
            },
        };
        proof {
            assert(hex_end(s@, i as int) == hex_end(s@, i + 1 as int));
            lemma_hex_end_bounds(s@, i as int + 1);
        }
        if acc > (usize::MAX - d as usize) / 16 {
            proof {
                let full = hex_end(s@, from as int);
                assert(s@.subrange(from as int, i + 1 as int).drop_last() =~= s@.subrange(
                    from as int,
                    i as int,
                ));
                assert(hex_value(s@.subrange(from as int, i + 1 as int)) == acc as nat * 16
                    + d as nat);
                assert(acc as nat * 16 + d as nat > usize::MAX as nat) by (nonlinear_arith)
                    requires
                        acc > (usize::MAX - d as usize) / 16,
                        d as usize <= usize::MAX,
                ;
                lemma_hex_value_monotone(s@, from as int, i + 1 as int, full);
            }
            return None;
        }
        proof {
            assert(acc * 16 + d as usize <= usize::MAX) by (nonlinear_arith)
                requires
                    acc <= (usize::MAX - d as usize) / 16,
                    d as usize <= usize::MAX,
            ;
            assert(s@.subrange(from as int, i + 1 as int).drop_last() =~= s@.subrange(
                from as int,
                i as int,
            ));
        }
        acc = acc * 16 + d as usize;
        i = i + 1;
    }
    proof {
        assert(hex_end(s@, i as int) == i as int);
    }
    if i == from {
        None
    } else {
        Some((acc, i))
    }
}

/// The value of one hexadecimal digit code, or nothing for any other byte.
fn hex_digit(b: u8) -> (r: Option<u8>)
    ensures
        r matches Some(v) ==> is_hex_digit(b) && v as nat == hex_digit_value(b),
        r is None ==> !is_hex_digit(b),
{
    if b >= 48 && b <= 57 {
        Some(b - 48)
    } else if b >= 97 && b <= 102 {
        Some(b - 87)
    } else if b >= 65 && b <= 70 {
        Some(b - 55)
    } else {
        None
    }
}

/// The end of the field starting at `from`: the first space at or after
/// it, or the end of the bytes.
fn scan_token(s: &[u8], from: usize) -> (r: usize)
    requires
        from <= s@.len(),
    ensures
        r == token_end(s@, from as int),
        from <= r <= s@.len(),
        r < s@.len() ==> s@[r as int] == 32,
{
    let len = s.len();
    let mut i = from;
    loop
        invariant
            from <= i <= len,
            len == s@.len(),
            token_end(s@, from as int) == token_end(s@, i as int),
        decreases len - i,
    {
        if i >= len || s[i] == 32 {
            return i;
        }
        proof {
            assert(token_end(s@, i as int) == token_end(s@, i + 1 as int));
        }
        i = i + 1;
    }
}

/// The first position at or after `from` that holds no space, or the end
/// of the bytes.
fn scan_skip_spaces(s: &[u8], from: usize) -> (r: usize)
    requires
        from <= s@.len(),
    ensures
        r == skip_spaces(s@, from as int),
        from <= r <= s@.len(),
{
    let len = s.len();
    let mut i = from;
    loop
        invariant
            from <= i <= len,
            len == s@.len(),
            skip_spaces(s@, from as int) == skip_spaces(s@, i as int),
        decreases len - i,
    {
        if i >= len || s[i] != 32 {
            return i;
        }
        proof {
            assert(skip_spaces(s@, i as int) == skip_spaces(s@, i + 1 as int));
        }
        i = i + 1;
    }
}

/// The first line break at or after `from`, or the end of the bytes.
fn scan_line_end(s: &[u8], from: usize) -> (r: usize)
    requires
        from <= s@.len(),
    ensures
        r == line_end(s@, from as int),
        from <= r <= s@.len(),
{
    let len = s.len();
    let mut i = from;
    loop
        invariant
            from <= i <= len,
            len == s@.len(),
            line_end(s@, from as int) == line_end(s@, i as int),
        decreases len - i,
    {
        if i >= len || s[i] == 10 {
            return i;
        }
        proof {
            assert(line_end(s@, i as int) == line_end(s@, i + 1 as int));
        }
        i = i + 1;
    }
}

/// Decodes one line of the kernel's region table, exactly as
/// [`spec_parse_line`] says.
pub fn parse_line(l: &[u8]) -> (r: Result<MemoryArea, Error>)
    ensures
        match (r, spec_parse_line(l@)) {
            (Ok(a), Ok(v)) => a@ == v,
            (Err(e), Err(f)) => e == f,
            _ => false,
        },
{
    let len = l.len();
    let (v1, e1) = match scan_hex(l, 0) {
        Some(x) => x,
        None => {
            return Err(Error::Decode(DecodeKind::Number));
        },
    };
    if e1 >= len || l[e1] != 45 {
        return Err(Error::Decode(DecodeKind::Number));
    }
    let (v2, e2) = match scan_hex(l, e1 + 1) {
        Some(x) => x,
        None => {
            return Err(Error::Decode(DecodeKind::Number));
        },
    };
    if v1 > v2 {
        return Err(Error::Decode(DecodeKind::Number));
    }
    if e2 >= len || l[e2] != 32 {
        return Err(Error::Decode(DecodeKind::Number));
    }
    let p = e2 + 1;
    if len - p < 4 {
        return Err(Error::Decode(DecodeKind::Text));
    }
    let ok_perms = (l[p] == 114 || l[p] == 45) && (l[p + 1] == 119 || l[p + 1] == 45) && (l[p
        + 2] == 120 || l[p + 2] == 45) && (l[p + 3] == 112 || l[p + 3] == 115);
    if !ok_perms {
        return Err(Error::Decode(DecodeKind::Text));
    }
    if p + 4 >= len || l[p + 4] != 32 {
        return Err(Error::Decode(DecodeKind::Text));
    }
    let o = p + 5;
    let (v3, e3) = match scan_hex(l, o) {
        Some(x) => x,
        None => {
            return Err(Error::Decode(DecodeKind::Number));
        },
    };
    if e3 >= len || l[e3] != 32 {
        return Err(Error::Decode(DecodeKind::Number));
    }
    let d = e3 + 1;
    let t1 = scan_token(l, d);
    if t1 == d || t1 >= len {
        return Err(Error::Decode(DecodeKind::Number));
    }
    let n = t1 + 1;
    let t2 = scan_token(l, n);
    if t2 == n {
        return Err(Error::Decode(DecodeKind::Number));
    }
    let protection = Protection { read: l[p] == 114, write: l[p + 1] == 119, execute: l[p + 2]
        == 120 };
    let share_mode = if l[p + 3] == 115 {
        ShareMode::Shared
    } else {
        ShareMode::Private
    };
    let ps = scan_skip_spaces(l, t2);
    if ps >= len {
        return Ok(MemoryArea::from_parts(v1, v2, protection, share_mode, None));
    }
    let path_bytes = slice_to_vec(slice_subrange(l, ps, len));
    match sys::string_from_bytes(path_bytes) {
        Ok(s) => {
            proof {
                encode_utf8_decode_utf8(s@);
            }
            Ok(MemoryArea::from_parts(v1, v2, protection, share_mode, Some((s, v3 as u64))))
        },
        Err(()) => Err(Error::Decode(DecodeKind::Text)),
    }
}

/// The record view a decoded item denotes: the record's view, or the error
/// unchanged.
pub open spec fn item_view(it: Result<MemoryArea, Error>) -> Result<AreaView, Error> {
    match it {
        Ok(a) => Ok(a@),
        Err(e) => Err(e),
    }
}

/// The views of a sequence of decoded items.
pub open spec fn items_view(s: Seq<Result<MemoryArea, Error>>) -> Seq<Result<AreaView, Error>> {
    s.map_values(|it: Result<MemoryArea, Error>| item_view(it))
}

/// How a whole region table decodes, from position `i` on: one decoded
/// item per line, skipping empty lines.
pub open spec fn spec_parse_from(s: Seq<u8>, i: int) -> Seq<Result<AreaView, Error>>
    decreases s.len() - i,
    via spec_parse_from_decreases
{
    if i < 0 || i >= s.len() {
        Seq::empty()
    } else {
        let e = line_end(s, i);
        let this = if e == i {
            Seq::empty()
        } else {
            seq![spec_parse_line(s.subrange(i, e))]
        };
        if e >= s.len() {
            this
        } else {
            this + spec_parse_from(s, e + 1)
        }
    }
}

#[via_fn]
proof fn spec_parse_from_decreases(s: Seq<u8>, i: int) {
    if 0 <= i < s.len() {
        lemma_line_end_bounds(s, i);
    }
}

/// Decodes a whole region table, exactly as [`spec_parse_from`] says: one
/// record or decode error per line, in the order the kernel wrote them,
/// never merging records.
pub fn parse_maps(bytes: &[u8]) -> (r: Vec<Result<MemoryArea, Error>>)
    ensures
        items_view(r@) == spec_parse_from(bytes@, 0),
        forall|k: int|
            0 <= k < r@.len() ==> ((#[trigger] r@[k]) matches Ok(a) ==> a@.wf()),
{
    let len = bytes.len();
    let mut out: Vec<Result<MemoryArea, Error>> = Vec::new();
    let mut i: usize = 0;
    proof {
        assert(items_view(out@) =~= Seq::<Result<AreaView, Error>>::empty());
    }
    while i < len
        invariant
            i <= len,
            len == bytes@.len(),
            spec_parse_from(bytes@, 0) == items_view(out@) + spec_parse_from(bytes@, i as int),
            forall|k: int|
                0 <= k < out@.len() ==> ((#[trigger] out@[k]) matches Ok(a) ==> a@.wf()),
        decreases len - i,
    {
        let e = scan_line_end(bytes, i);
        let ghost before = out@;
        if e > i {
            let line = slice_subrange(bytes, i, e);
            let item = parse_line(line);
            proof {
                lemma_spec_parse_line_wf(line@);
                assert(items_view(before.push(item)) =~= items_view(before).push(item_view(item)));
            }
            out.push(item);
        }
        if e >= len {
            proof {
                if e > i {
                    assert(spec_parse_from(bytes@, i as int) =~= seq![
                        spec_parse_line(bytes@.subrange(i as int, e as int)),
                    ]);
                } else {
                    assert(spec_parse_from(bytes@, i as int) =~= Seq::<
                        Result<AreaView, Error>,
                    >::empty());
                }
            }
            i = len;
        } else {
            proof {
                if e > i {
                    assert(spec_parse_from(bytes@, i as int) =~= seq![
                        spec_parse_line(bytes@.subrange(i as int, e as int)),
                    ] + spec_parse_from(bytes@, e as int + 1));
                } else {
                    assert(spec_parse_from(bytes@, i as int) == spec_parse_from(
                        bytes@,
                        e as int + 1,
                    ));
                }
            }
            i = e + 1;
        }
    }
    proof {
        assert(spec_parse_from(bytes@, i as int) =~= Seq::<Result<AreaView, Error>>::empty());
        assert(items_view(out@) =~= spec_parse_from(bytes@, 0));
    }
    out
}

/// The decimal digit codes of `n`, most significant first.
pub open spec fn dec_digits(n: nat) -> Seq<u8>
    decreases n,
{
    if n < 10 {
        seq![(48 + n) as u8]
    } else {
        dec_digits(n / 10).push((48 + n % 10) as u8)
    }
}

/// The path of the kernel's region table for the given process: the
/// calling process's own table where no id is given.
pub open spec fn maps_path_spec(pid: Option<u32>) -> Seq<u8> {
    match pid {
        None => seq![47u8, 112, 114, 111, 99, 47, 115, 101, 108, 102, 47, 109, 97, 112, 115],
        Some(p) => seq![47u8, 112, 114, 111, 99, 47] + dec_digits(p as nat) + seq![
            47u8,
            109,
            97,
            112,
            115,
        ],
    }
}

/// Appends the decimal digit codes of `n`.
fn push_decimal(out: &mut Vec<u8>, n: u32)
    ensures
        final(out)@ == old(out)@ + dec_digits(n as nat),
    decreases n,
{
    if n < 10 {
        out.push(48 + n as u8);
        proof {
            assert(final(out)@ =~= old(out)@ + dec_digits(n as nat));
        }
    } else {
        push_decimal(out, n / 10);
        out.push(48 + (n % 10) as u8);
        proof {
            assert(final(out)@ =~= old(out)@ + dec_digits(n as nat));
        }
    }
}

/// Builds the path of the kernel's region table for the given process.
pub(crate) fn maps_path(pid: Option<u32>) -> (r: Vec<u8>)
    ensures
        r@ == maps_path_spec(pid),
{
    let mut out: Vec<u8> = Vec::new();
    match pid {
        None => {
            out.push(47);
            out.push(112);
            out.push(114);
            out.push(111);
            out.push(99);
            out.push(47);
            out.push(115);
            out.push(101);
            out.push(108);
            out.push(102);
            out.push(47);
            out.push(109);
            out.push(97);
            out.push(112);
            out.push(115);
            proof {
                assert(out@ =~= maps_path_spec(pid));
            }
        },
        Some(p) => {
            out.push(47);
            out.push(112);
            out.push(114);
            out.push(111);
            out.push(99);
            out.push(47);
            push_decimal(&mut out, p);
            out.push(47);
            out.push(109);
            out.push(97);
            out.push(112);
            out.push(115);
            proof {
                assert(out@ =~= maps_path_spec(pid));
            }
        },
    }
    out
}

} // verus!
