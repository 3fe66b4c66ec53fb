//! Memory area records and the enumerator over the live regions of a
//! process.
//!
//! [`MemoryAreas::open`] reads the kernel's region table for a process and
//! decodes it, one [`MemoryArea`] record per raw kernel entry — adjacent
//! records with equal attributes are never merged. The enumerator yields
//! regions in the order the kernel reports them; a record that cannot be
//! decoded surfaces as an [`Error`] item in the sequence rather than ending
//! it. [`MemoryAreas::query`] finds the single region holding an address,
//! and [`MemoryAreas::query_range`] the ordered sub-sequence of regions
//! whose true extents intersect a range.

use vstd::prelude::*;
use core::ops::Range;
use crate::error::Error;
use crate::flags::Protection;
use crate::flags::ShareMode;
use crate::maps;
use crate::sys;

verus! {

/// The abstract state of one memory area record: its half-open address
/// range, its protection, its share mode, and the path and byte offset of
/// its backing file, if it has one.
pub struct AreaView {
    /// The start address of the area.
    pub start: usize,
    /// The end address of the area; the range is half-open, so this is the
    /// first address past it.
    pub end: usize,
    /// The protection with which the area is mapped.
    pub protection: Protection,
    /// The share mode of the area.
    pub share_mode: ShareMode,
    /// The path of the backing file and the byte offset within it, for a
    /// file-backed area.
    pub path: Option<(Seq<char>, u64)>,
}

impl AreaView {
    /// The record is well formed: its range does not run backwards.
    pub open spec fn wf(self) -> bool {
        self.start <= self.end
    }

    /// Whether the record's extent holds `address`.
    pub open spec fn holds(self, address: usize) -> bool {
        self.start <= address < self.end
    }

    /// Whether the record's extent intersects the half-open range
    /// `[qs, qe)`.
    pub open spec fn intersects(self, qs: usize, qe: usize) -> bool {
        self.start < qe && qs < self.end
    }
}

/// Describes one memory area of a process: an immutable snapshot record,
/// not a live link to the process.
#[derive(Debug)]
pub struct MemoryArea {
    start: usize,
    end: usize,
    protection: Protection,
    share_mode: ShareMode,
    path: Option<(String, u64)>,
}

impl View for MemoryArea {
    type V = AreaView;

    closed spec fn view(&self) -> AreaView {
        AreaView {
            start: self.start,
            end: self.end,
            protection: self.protection,
            share_mode: self.share_mode,
            path: match self.path {
                Some((p, o)) => Some((p@, o)),
                None => None,
            },
        }
    }
}

impl MemoryArea {
    /// Builds a record from its decoded parts.
    pub(crate) fn from_parts(
        start: usize,
        end: usize,
        protection: Protection,
        share_mode: ShareMode,
        path: Option<(String, u64)>,
    ) -> (r: MemoryArea)
        requires
            start <= end,
        ensures
            r@ == (AreaView {
                start,
                end,
                protection,
                share_mode,
                path: match path {
                    Some((p, o)) => Some((p@, o)),
                    None => None::<(Seq<char>, u64)>,
                },
            }),
            r@.wf(),
    {
        MemoryArea { start, end, protection, share_mode, path }
    }

    /// The address range of the memory area.
    pub fn range(&self) -> (r: Range<usize>)
        ensures
            r.start == self@.start,
            r.end == self@.end,
    {
        Range { start: self.start, end: self.end }
    }

    /// The start address of the area.
    pub fn start(&self) -> (r: usize)
        ensures
            r == self@.start,
    {
        self.start
    }

    /// The end address of the area; the first address past its extent.
    pub fn end(&self) -> (r: usize)
        ensures
            r == self@.end,
    {
        self.end
    }

    /// The protection with which the memory area has been mapped.
    pub fn protection(&self) -> (r: Protection)
        ensures
            r == self@.protection,
    {
        self.protection
    }

    /// The share mode of the memory area.
    pub fn share_mode(&self) -> (r: ShareMode)
        ensures
            r == self@.share_mode,
    {
        self.share_mode
    }

    /// The path of the file backing this memory area, if there is one.
    pub fn path(&self) -> (r: Option<&String>)
        ensures
            match r {
                Some(p) => self@.path matches Some(q) && p@ == q.0,
                None => self@.path is None,
            },
    {
        match &self.path {
            Some((p, _)) => Some(p),
            None => None,
        }
    }

    /// The byte offset into the backing file, if the area is file-backed.
    pub fn file_offset(&self) -> (r: Option<u64>)
        ensures
            match r {
                Some(o) => self@.path matches Some(q) && o == q.1,
                None => self@.path is None,
            },
    {
        match &self.path {
            Some((_, o)) => Some(*o),
            None => None,
        }
    }
}

/// The first record in `s` whose extent holds `address`, skipping records
/// that failed to decode.
pub open spec fn spec_find(s: Seq<Result<MemoryArea, Error>>, address: usize) -> Option<
    MemoryArea,
>
    decreases s.len(),
{
    if s.len() == 0 {
        None
    } else {
        match s.first() {
            Ok(a) => if a@.holds(address) {
                Some(a)
            } else {
                spec_find(s.drop_first(), address)
            },
            Err(_) => spec_find(s.drop_first(), address),
        }
    }
}

/// Whatever record `spec_find` picks does hold the queried address.
pub proof fn lemma_spec_find_holds(s: Seq<Result<MemoryArea, Error>>, address: usize)
    ensures
        spec_find(s, address) matches Some(a) ==> a@.holds(address),
    decreases s.len(),
{
    if s.len() > 0 {
        lemma_spec_find_holds(s.drop_first(), address);
    }
}

/// The decoded records of `s` that intersect the half-open range
/// `[qs, qe)`, in their original order and with their true extents;
/// records that failed to decode are left out.
pub open spec fn spec_keep(s: Seq<Result<MemoryArea, Error>>, qs: usize, qe: usize) -> Seq<
    Result<MemoryArea, Error>,
>
    decreases s.len(),
{
    if s.len() == 0 {
        Seq::empty()
    } else {
        let rest = spec_keep(s.drop_first(), qs, qe);
        match s.first() {
            Ok(a) => if a@.intersects(qs, qe) {
                seq![s.first()] + rest
            } else {
                rest
            },
            Err(_) => rest,
        }
    }
}

/// Every item kept by `spec_keep` is a decoded record that intersects the
/// queried range.
pub proof fn lemma_spec_keep_intersects(
    s: Seq<Result<MemoryArea, Error>>,
    qs: usize,
    qe: usize,
)
    ensures
        forall|k: int|
            0 <= k < spec_keep(s, qs, qe).len() ==> ((#[trigger] spec_keep(s, qs, qe)[k]) matches Ok(
                a,
            ) && a@.intersects(qs, qe)),
    decreases s.len(),
{
    if s.len() > 0 {
        lemma_spec_keep_intersects(s.drop_first(), qs, qe);
    }
}

/// Every item kept by `spec_keep` stands unchanged in the original
/// sequence: a range query reports true extents, never records clipped to
/// the query bounds.
pub proof fn lemma_spec_keep_membership(
    s: Seq<Result<MemoryArea, Error>>,
    qs: usize,
    qe: usize,
)
    ensures
        forall|k: int|
            0 <= k < spec_keep(s, qs, qe).len() ==> #[trigger] s.contains(
                spec_keep(s, qs, qe)[k],
            ),
    decreases s.len(),
{
    if s.len() > 0 {
        lemma_spec_keep_membership(s.drop_first(), qs, qe);
        assert forall|k: int| 0 <= k < spec_keep(s, qs, qe).len() implies #[trigger] s.contains(
            spec_keep(s, qs, qe)[k],
        ) by {
            let kept = spec_keep(s, qs, qe);
            let rest = spec_keep(s.drop_first(), qs, qe);
            if kept.len() == rest.len() {
                assert(s.drop_first().contains(rest[k]));
                let j = choose|j: int| 0 <= j < s.drop_first().len() && s.drop_first()[j] == rest[k];
                assert(s[j + 1] == rest[k]);
            } else {
                if k == 0 {
                    assert(s[0] == kept[0]);
                } else {
                    assert(s.drop_first().contains(rest[k - 1]));
                    let j = choose|j: int|
                        0 <= j < s.drop_first().len() && s.drop_first()[j] == rest[k - 1];
                    assert(s[j + 1] == kept[k]);
                }
            }
        }
    }
}

/// Whether two decoded records, in this order, are disjoint and ascending:
/// the first ends no later than the second starts. A record that failed to
/// decode constrains nothing.
pub open spec fn in_order(x: Result<MemoryArea, Error>, y: Result<MemoryArea, Error>) -> bool {
    match (x, y) {
        (Ok(a), Ok(b)) => a@.end <= b@.start,
        _ => true,
    }
}

/// The regions in `s` are disjoint and in ascending address order: each
/// decoded record ends no later than any later one starts.
pub open spec fn spec_ascending(s: Seq<Result<MemoryArea, Error>>) -> bool {
    forall|i: int, j: int| 0 <= i < j < s.len() ==> in_order(#[trigger] s[i], #[trigger] s[j])
}

/// A range query preserves order: when the enumerated regions are disjoint
/// and ascending, the kept sub-sequence is disjoint and ascending too.
pub proof fn lemma_spec_keep_ordered(s: Seq<Result<MemoryArea, Error>>, qs: usize, qe: usize)
    requires
        spec_ascending(s),
    ensures
        spec_ascending(spec_keep(s, qs, qe)),
    decreases s.len(),
{
    if s.len() > 0 {
        assert(spec_ascending(s.drop_first())) by {
            assert forall|i: int, j: int|
                0 <= i < j < s.drop_first().len() implies in_order(
                #[trigger] s.drop_first()[i],
                #[trigger] s.drop_first()[j],
            ) by {
                assert(s.drop_first()[i] == s[i + 1]);
                assert(s.drop_first()[j] == s[j + 1]);
                assert(in_order(s[i + 1], s[j + 1]));
            }
        }
        lemma_spec_keep_ordered(s.drop_first(), qs, qe);
        let kept = spec_keep(s, qs, qe);
        let rest = spec_keep(s.drop_first(), qs, qe);
        if kept.len() != rest.len() {
            lemma_spec_keep_membership(s.drop_first(), qs, qe);
            assert forall|i: int, j: int| 0 <= i < j < kept.len() implies in_order(
                #[trigger] kept[i],
                #[trigger] kept[j],
            ) by {
                if i == 0 {
                    assert(kept[0] == s[0]);
                    assert(s.drop_first().contains(rest[j - 1]));
                    let m = choose|m: int|
                        0 <= m < s.drop_first().len() && s.drop_first()[m] == rest[j - 1];
                    assert(s[m + 1] == kept[j]);
                    assert(in_order(s[0], s[m + 1]));
                } else {
                    assert(kept[i] == rest[i - 1]);
                    assert(kept[j] == rest[j - 1]);
                    assert(in_order(rest[i - 1], rest[j - 1]));
                }
            }
        }
    }
}

/// Decides [`spec_ascending`] of a decoded snapshot.
pub fn is_ascending(items: &Vec<Result<MemoryArea, Error>>) -> (r: bool)
    ensures
        r == spec_ascending(items@),
{
    let n = items.len();
    let mut i: usize = 0;
    while i < n
        invariant
            i <= n,
            n == items@.len(),
            forall|a: int, b: int|
                0 <= a < b < items@.len() && a < i ==> in_order(
                    #[trigger] items@[a],
                    #[trigger] items@[b],
                ),
        decreases n - i,
    {
        match &items[i] {
            Ok(first) => {
                let first_end = first.end();
                let mut j = i + 1;
                while j < n
                    invariant
                        i < j <= n,
                        i < n,
                        n == items@.len(),
                        items@[i as int] matches Ok(x) && x@.end == first_end,
                        forall|b: int|
                            i < b < j ==> ((#[trigger] items@[b]) matches Ok(y) ==> first_end
                                <= y@.start),
                    decreases n - j,
                {
                    match &items[j] {
                        Ok(second) => {
                            if second.start() < first_end {
                                proof {
                                    assert(!spec_ascending(items@)) by {
                                        if spec_ascending(items@) {
                                            assert(in_order(items@[i as int], items@[j as int]));
                                        }
                                    }
                                }
                                return false;
                            }
                        },
                        Err(_) => {},
                    }
                    j = j + 1;
                }
                proof {
                    assert forall|a: int, b: int|
                        0 <= a < b < items@.len() && a < i + 1 implies in_order(
                        #[trigger] items@[a],
                        #[trigger] items@[b],
                    ) by {
                        if a == i {
                            assert((items@[b]) matches Ok(y) ==> first_end <= y@.start);
                        }
                    }
                }
            },
            Err(_) => {
                proof {
                    assert(items@[i as int] is Err);
                }
            },
        }
        i = i + 1;
    }
    true
}

/// The memory areas of a process: a finite, non-restartable sequence of
/// decoded region records, consumed from the front by [`MemoryAreas::next`].
#[derive(Debug)]
pub struct MemoryAreas {
    items: Vec<Result<MemoryArea, Error>>,
}

impl View for MemoryAreas {
    type V = Seq<Result<MemoryArea, Error>>;

    closed spec fn view(&self) -> Seq<Result<MemoryArea, Error>> {
        self.items@
    }
}

impl MemoryAreas {
    /// Every record still to be yielded has a well-formed range.
    pub open spec fn all_wf(self) -> bool {
        forall|k: int|
            0 <= k < self@.len() ==> ((#[trigger] self@[k]) matches Ok(a) ==> a@.wf())
    }

    /// Opens the memory areas of the process with the given id, or of the
    /// calling process when none is given.
    ///
    /// The kernel's region table is read through the platform's
    /// per-process map file and decoded line by line; what regions it
    /// holds depends on the state of that process, so the contract
    /// promises of the records only that each one that decodes is well
    /// formed, and that the decoded regions stand disjoint and in
    /// ascending address order — a table out of that order is no region
    /// table and is reported as a platform fault rather than handed on.
    pub fn open(pid: Option<u32>) -> (r: Result<MemoryAreas, Error>)
        ensures
            r matches Ok(a) ==> a.all_wf() && spec_ascending(a@),
            r matches Err(e) ==> (e matches Error::Io(_) || e == Error::PlatformFault(0)),
    {
        let path = maps::maps_path(pid);
        let bytes = match sys::read_file_bytes(path.as_slice()) {
            Ok(b) => b,
            Err(e) => {
                return Err(Error::Io(e));
            },
        };
        let items = maps::parse_maps(bytes.as_slice());
        if !is_ascending(&items) {
            return Err(Error::PlatformFault(0));
        }
        Ok(MemoryAreas { items })
    }

    /// Yields the next record, or `None` once the sequence is exhausted.
    /// A record that failed to decode is an `Err` item, not the end of
    /// the sequence.
    pub fn next(&mut self) -> (r: Option<Result<MemoryArea, Error>>)
        ensures
            old(self)@.len() == 0 ==> r is None && *final(self) == *old(self),
            old(self)@.len() > 0 ==> r == Some(old(self)@.first()) && final(self)@ == old(
                self,
            )@.drop_first(),
    {
        if self.items.len() == 0 {
            return None;
        }
        let item = self.items.remove(0);
        proof {
            assert(final(self)@ =~= old(self)@.drop_first());
        }
        Some(item)
    }

    /// The single region of the calling process that holds `address`, or
    /// none. Records that fail to decode are skipped.
    pub fn query(address: usize) -> (r: Result<Option<MemoryArea>, Error>)
        ensures
            r matches Ok(Some(a)) ==> a@.holds(address) && a@.wf(),
            r matches Err(e) ==> (e matches Error::Io(_) || e == Error::PlatformFault(0)),
    {
        let areas = match MemoryAreas::open(None) {
            Ok(a) => a,
            Err(e) => {
                return Err(e);
            },
        };
        proof {
            lemma_spec_find_holds(areas@, address);
        }
        let found = area_containing(areas.items, address);
        Ok(found)
    }

    /// The regions of the calling process whose extents intersect `range`,
    /// in ascending order and with their true extents — a region that only
    /// partly overlaps the range is reported whole, and the caller detects
    /// the partial overlap. Records that fail to decode are left out.
    pub fn query_range(range: Range<usize>) -> (r: Result<MemoryAreas, Error>)
        ensures
            r matches Ok(a) ==> forall|k: int|
                0 <= k < a@.len() ==> ((#[trigger] a@[k]) matches Ok(area) && area@.intersects(
                    range.start,
                    range.end,
                ) && area@.wf()),
            r matches Ok(a) ==> spec_ascending(a@),
            r matches Err(e) ==> (e matches Error::Io(_) || e == Error::PlatformFault(0)),
    {
        let areas = match MemoryAreas::open(None) {
            Ok(a) => a,
            Err(e) => {
                return Err(e);
            },
        };
        proof {
            lemma_spec_keep_intersects(areas@, range.start, range.end);
            lemma_spec_keep_membership(areas@, range.start, range.end);
            lemma_spec_keep_ordered(areas@, range.start, range.end);
            let kept_s = spec_keep(areas@, range.start, range.end);
            assert forall|k: int|
                0 <= k < kept_s.len() implies ((#[trigger] kept_s[k]) matches Ok(area)
                ==> area@.wf()) by {
                assert(areas@.contains(kept_s[k]));
                let j = choose|j: int| 0 <= j < areas@.len() && areas@[j] == kept_s[k];
                assert((areas@[j]) matches Ok(a) ==> a@.wf());
            }
        }
        let kept = keep_intersecting(areas.items, range.start, range.end);
        Ok(MemoryAreas { items: kept })
    }
}

/// The first decoded record of `items` whose extent holds `address`.
pub fn area_containing(items: Vec<Result<MemoryArea, Error>>, address: usize) -> (r: Option<
    MemoryArea,
>)
    ensures
        r == spec_find(items@, address),
{
    let mut rest = items;
    loop
        invariant
            spec_find(items@, address) == spec_find(rest@, address),
        decreases rest@.len(),
    {
        if rest.len() == 0 {
            return None;
        }
        let item = rest.remove(0);
        match item {
            Ok(a) => {
                let keep = a.start() <= address && address < a.end();
                if keep {
                    return Some(a);
                }
            },
            Err(_) => {},
        }
    }
}

/// The decoded records of `items` that intersect the half-open range
/// `[qs, qe)`, in their original order and with their true extents.
pub fn keep_intersecting(items: Vec<Result<MemoryArea, Error>>, qs: usize, qe: usize) -> (r:
    Vec<Result<MemoryArea, Error>>)
    ensures
        r@ == spec_keep(items@, qs, qe),
{
    let mut rest = items;
    let mut out: Vec<Result<MemoryArea, Error>> = Vec::new();
    loop
        invariant
            spec_keep(items@, qs, qe) == out@ + spec_keep(rest@, qs, qe),
        decreases rest@.len(),
    {
        if rest.len() == 0 {
            proof {
                assert(spec_keep(items@, qs, qe) =~= out@);
            }
            return out;
        }
        let item = rest.remove(0);
        match item {
            Ok(a) => {
                let keep = a.start() < qe && qs < a.end();
                if keep {
                    out.push(Ok(a));
                }
            },
            Err(_) => {},
        }
    }
}

} // verus!
