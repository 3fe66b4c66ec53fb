//! The step decisions of the platform region walkers whose query
//! primitives this target cannot call.
//!
//! Two platforms walk a process's address space by repeated queries. One
//! asks region by region and is told by a distinguished status that no
//! mappings remain at or above the queried address; any other non-success
//! status is a fatal platform fault. The other fills a fixed information
//! record per call, ends when the reply is shorter than one full record,
//! and must skip regions that are not in the committed state while still
//! advancing past them; its protection arrives as a single page-protection
//! constant, and a backing file's offset is the region's base minus its
//! allocation base. The functions here take one query's reported values
//! and decide, exactly, what the walk does next; a shell that can make the
//! platform call performs it and hands the reported values here.

use vstd::prelude::*;
use crate::areas::MemoryArea;
use crate::error::DecodeKind;
use crate::error::Error;
use crate::flags::Protection;
use crate::flags::ShareMode;
use crate::protmap;
use crate::protmap::spec_page_constant_is_cow;
use crate::protmap::spec_protection_from_page_constant;

verus! {

/// One step of a region walk: the walk ends, skips ahead to a new cursor,
/// yields a record together with the cursor just past it, or stops on a
/// report that cannot be a region.
#[derive(Debug)]
pub enum RegionStep {
    /// No more regions: the walk is over.
    End,
    /// The reported extent is not part of the live set; continue at the
    /// given cursor.
    Skip(usize),
    /// One region record, and the cursor just past its extent.
    Region(MemoryArea, usize),
    /// The report cannot be a region: the error to surface.
    Broken(Error),
}

/// The status with which the region-query primitive reports that no
/// mappings remain at or above the queried address.
pub const NO_MORE_REGIONS: i32 = 1;

/// Decides one step of the walker whose primitive reports one region per
/// call. The distinguished status ends the walk; any other non-success
/// status is a fatal platform fault; success yields the region starting at
/// the reported address, with its protection decoded from per-right bits
/// and its share mode from the shared flag, and advances the cursor past
/// it. A reported extent that leaves the address space cannot be a region
/// and surfaces as a decode error.
pub fn region_step(
    status: i32,
    address: usize,
    size: usize,
    protection_bits: u32,
    shared: bool,
    path: Option<(String, u64)>,
) -> (r: RegionStep)
    ensures
        status == NO_MORE_REGIONS ==> r == RegionStep::End,
        status != 0 && status != NO_MORE_REGIONS ==> r == RegionStep::Broken(
            Error::PlatformFault(status),
        ),
        status == 0 && address + size > usize::MAX ==> r == RegionStep::Broken(
            Error::Decode(DecodeKind::Number),
        ),
        status == 0 && address + size <= usize::MAX ==> (r matches RegionStep::Region(a, next)
            && a@.start == address && a@.end == address + size && a@.protection == (Protection {
            read: protection_bits & 1 == 1,
            write: protection_bits & 2 == 2,
            execute: protection_bits & 4 == 4,
        }) && a@.share_mode == (if shared {
            ShareMode::Shared
        } else {
            ShareMode::Private
        }) && a@.path == (match path {
            Some((p, o)) => Some((p@, o)),
            None => None::<(Seq<char>, u64)>,
        }) && next == address + size),
{
    if status == NO_MORE_REGIONS {
        return RegionStep::End;
    }
    if status != 0 {
        return RegionStep::Broken(Error::PlatformFault(status));
    }
    if size > usize::MAX - address {
        return RegionStep::Broken(Error::Decode(DecodeKind::Number));
    }
    let end = address + size;
    let protection = protmap::protection_from_bits(protection_bits);
    let share_mode = protmap::share_mode_from_shared(shared);
    RegionStep::Region(MemoryArea::from_parts(address, end, protection, share_mode, path), end)
}

/// Decides one step of the walker whose primitive fills a fixed
/// information record per call. A reply shorter than one full record ends
/// the walk; a region not in the committed state is skipped, the cursor
/// still advancing past it; otherwise the region is yielded with its
/// protection and share mode decoded from the single page-protection
/// constant, and — where a backing name was found — the file offset
/// computed as the region's base minus its allocation base. A reported
/// extent that leaves the address space, or a base below its own
/// allocation base, cannot be a region and surfaces as a decode error.
pub fn query_step(
    reply_len: usize,
    record_len: usize,
    committed: bool,
    base: usize,
    size: usize,
    allocation_base: usize,
    protection_constant: u32,
    private: bool,
    path: Option<String>,
) -> (r: RegionStep)
    ensures
        reply_len < record_len ==> r == RegionStep::End,
        reply_len >= record_len && base + size > usize::MAX ==> r == RegionStep::Broken(
            Error::Decode(DecodeKind::Number),
        ),
        reply_len >= record_len && base + size <= usize::MAX && !committed ==> r
            == RegionStep::Skip((base + size) as usize),
        reply_len >= record_len && base + size <= usize::MAX && committed && base
            < allocation_base ==> r == RegionStep::Broken(Error::Decode(DecodeKind::Number)),
        reply_len >= record_len && base + size <= usize::MAX && committed && base
            >= allocation_base ==> (r matches RegionStep::Region(a, next) && a@.start == base
            && a@.end == base + size && a@.protection == spec_protection_from_page_constant(
            protection_constant,
        ) && a@.share_mode == (if private {
            ShareMode::Private
        } else if spec_page_constant_is_cow(protection_constant) {
            ShareMode::CopyOnWrite
        } else {
            ShareMode::Shared
        }) && a@.path == (match path {
            Some(p) => Some((p@, (base - allocation_base) as u64)),
            None => None::<(Seq<char>, u64)>,
        }) && next == base + size),
{
    if reply_len < record_len {
        return RegionStep::End;
    }
    if size > usize::MAX - base {
        return RegionStep::Broken(Error::Decode(DecodeKind::Number));
    }
    let end = base + size;
    if !committed {
        return RegionStep::Skip(end);
    }
    if base < allocation_base {
        return RegionStep::Broken(Error::Decode(DecodeKind::Number));
    }
    let protection = protmap::protection_from_page_constant(protection_constant);
    let share_mode = protmap::share_mode_from_page_constant(private, protection_constant);
    let offset = (base - allocation_base) as u64;
    let backing = match path {
        Some(p) => Some((p, offset)),
        None => None,
    };
    RegionStep::Region(MemoryArea::from_parts(base, end, protection, share_mode, backing), end)
}

} // verus!
