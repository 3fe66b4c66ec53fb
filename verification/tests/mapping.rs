//! Scenario tests for the mapping lifecycle: builder, terminal operations,
//! protection transitions, and how the enumerator sees the results.

use mmap_rs::{Error, MemoryAreas, MmapFlags, MmapOptions, PageSize, Protection, UnsafeMmapFlags};

fn page() -> usize {
    MmapOptions::page_size()
}

#[test]
fn page_size_is_sane() {
    let ps = MmapOptions::page_size();
    assert!(ps >= 1);
    // Every platform this runs on uses a power-of-two page size.
    assert_eq!(ps & (ps - 1), 0);
    assert_eq!(MmapOptions::allocation_granularity(), ps);
}

#[test]
fn map_mut_page_aligned_sizes() {
    // For page-aligned sizes, mapping succeeds, the address is not null,
    // and the size is exactly what was asked for.
    for pages in 1..=4usize {
        let n = pages * page();
        let mapping = MmapOptions::new(n).unwrap().map_mut().unwrap();
        assert!(mapping.as_ptr() != 0);
        assert_eq!(mapping.size(), n);
        assert_eq!(mapping.len(), n);
        assert_eq!(mapping.as_slice().len(), n);
    }
}

#[test]
fn map_mut_zero_size_is_empty() {
    // Zero is page-aligned, so the mapping succeeds; it just holds nothing.
    let mapping = MmapOptions::new(0).unwrap().map_mut().unwrap();
    assert!(mapping.as_ptr() != 0);
    assert_eq!(mapping.size(), 0);
    assert_eq!(mapping.as_slice().len(), 0);
}

#[test]
fn map() {
    let mapping = MmapOptions::new(page()).unwrap().map().unwrap();

    assert!(mapping.as_ptr() != 0);

    let region = MemoryAreas::query(mapping.as_ptr()).unwrap().unwrap();

    assert!(region.protection().contains(Protection::read()));
    assert!(!region.protection().contains(Protection::write()));
    assert!(!region.protection().contains(Protection::execute()));
}

#[test]
fn map_mut() {
    let mut mapping = MmapOptions::new(page()).unwrap().map_mut().unwrap();

    mapping.as_mut_slice()[0] = 0x42;

    assert!(mapping.as_ptr() != 0);
    assert_eq!(mapping.as_mut_ptr(), mapping.as_ptr());
    assert_eq!(mapping.as_slice()[0], 0x42);

    let region = MemoryAreas::query(mapping.as_ptr()).unwrap().unwrap();

    assert!(region.protection().contains(Protection::read()));
    assert!(region.protection().contains(Protection::write()));
    assert!(!region.protection().contains(Protection::execute()));
}

#[test]
fn map_exec_reports_read_execute() {
    let mapping = MmapOptions::new(page()).unwrap().map_exec().unwrap();

    let region = MemoryAreas::query(mapping.as_ptr()).unwrap().unwrap();

    assert!(region.protection().contains(Protection::read()));
    assert!(!region.protection().contains(Protection::write()));
    assert!(region.protection().contains(Protection::execute()));
}

#[test]
fn fresh_mapping_is_zeroed() {
    let mapping = MmapOptions::new(page()).unwrap().map_mut().unwrap();
    assert!(mapping.as_slice().iter().all(|&b| b == 0));
}

#[test]
fn write_then_make_read_only_preserves_bytes() {
    let n = page();
    let mut mapping = MmapOptions::new(n).unwrap().map_mut().unwrap();
    let addr = mapping.as_ptr();

    {
        let s = mapping.as_mut_slice();
        s[0] = 0xab;
        s[1] = 0xcd;
        s[n - 1] = 0xef;
    }

    let ro = mapping.make_read_only().unwrap();

    // The transition changes protection in place: same address, same size,
    // same bytes.
    assert_eq!(ro.as_ptr(), addr);
    assert_eq!(ro.size(), n);
    assert_eq!(ro.as_slice()[0], 0xab);
    assert_eq!(ro.as_slice()[1], 0xcd);
    assert_eq!(ro.as_slice()[n - 1], 0xef);

    let region = MemoryAreas::query(ro.as_ptr()).unwrap().unwrap();
    assert!(region.protection().contains(Protection::read()));
    assert!(!region.protection().contains(Protection::write()));
}

#[test]
fn transitions_round_trip() {
    let n = page();
    let mut mapping = MmapOptions::new(n).unwrap().map_mut().unwrap();
    mapping.as_mut_slice()[7] = 0x11;
    let addr = mapping.as_ptr();

    let ro = mapping.make_read_only().unwrap();
    let exec = ro.make_exec().unwrap();
    assert_eq!(exec.as_ptr(), addr);
    assert_eq!(exec.as_slice()[7], 0x11);

    let region = MemoryAreas::query(addr).unwrap().unwrap();
    assert!(region.protection().contains(Protection::read_execute()));

    let mut rw = exec.make_mut().unwrap();
    assert_eq!(rw.as_ptr(), addr);
    assert_eq!(rw.as_slice()[7], 0x11);
    rw.as_mut_slice()[7] = 0x22;
    assert_eq!(rw.as_slice()[7], 0x22);
}

#[test]
fn make_exec_no_flush_is_make_exec_here() {
    let mapping = MmapOptions::new(page()).unwrap().map_mut().unwrap();
    let addr = mapping.as_ptr();
    let exec = mapping.make_exec_no_flush().unwrap();
    assert_eq!(exec.as_ptr(), addr);
    let region = MemoryAreas::query(addr).unwrap().unwrap();
    assert!(region.protection().contains(Protection::execute()));
}

#[test]
fn map_exec_mut_demands_jit() {
    // Without the attestation, the call reports exactly which flag is
    // missing.
    let err = MmapOptions::new(page()).unwrap().map_exec_mut().unwrap_err();
    assert_eq!(err, Error::UnsafeFlagNeeded(UnsafeMmapFlags::jit()));

    // With the attestation given, this backend has no safe primitive for a
    // writable-and-executable mapping and refuses the request as
    // unsupported rather than mapping with weaker protection.
    let err = MmapOptions::new(page())
        .unwrap()
        .with_unsafe_flags(UnsafeMmapFlags::jit())
        .map_exec_mut()
        .unwrap_err();
    assert!(matches!(err, Error::Io(_)));
}

#[test]
fn make_exec_mut_demands_jit() {
    let mapping = MmapOptions::new(page()).unwrap().map_mut().unwrap();
    let err = match mapping.make_exec_mut() {
        Ok(_) => panic!("the call must fail without the attestation"),
        Err(e) => e,
    };
    assert_eq!(err, Error::UnsafeFlagNeeded(UnsafeMmapFlags::jit()));
}

#[test]
fn map_fixed_demand_is_refused_not_misplaced() {
    // A fixed-address demand that the backend cannot honor fails instead
    // of silently mapping elsewhere.
    let err = MmapOptions::new(page())
        .unwrap()
        .with_address(0x7000_0000_0000)
        .with_unsafe_flags(UnsafeMmapFlags::map_fixed())
        .map_mut()
        .unwrap_err();
    assert!(matches!(err, Error::Io(_)));
}

#[test]
fn lock_and_unlock() {
    let mut mapping = MmapOptions::new(page()).unwrap().map_mut().unwrap();
    mapping.lock().unwrap();
    mapping.unlock().unwrap();
}

#[test]
fn locked_flag_applies_at_map_time() {
    let flags = MmapFlags {
        locked: true,
        ..MmapFlags::empty()
    };
    let mapping = MmapOptions::new(page())
        .unwrap()
        .with_flags(flags)
        .map_mut()
        .unwrap();
    assert_eq!(mapping.size(), page());
}

#[test]
fn flush_range_rules() {
    let n = page();
    let mapping = MmapOptions::new(n).unwrap().map_mut().unwrap();

    // A backwards or empty range is a no-op, not an error.
    assert!(mapping.flush(5..5).is_ok());
    assert!(mapping.flush(7..3).is_ok());
    assert!(mapping.flush_async(9..2).is_ok());

    // A range past the end of the mapping is refused.
    assert!(matches!(mapping.flush(0..n + 1), Err(Error::Io(_))));
    assert!(matches!(mapping.flush_async(0..n + 1), Err(Error::Io(_))));

    // The whole mapping can be flushed.
    assert!(mapping.flush(0..n).is_ok());
    assert!(mapping.flush_async(0..n).is_ok());

    // The instruction cache flush always succeeds on this target.
    assert!(mapping.flush_icache().is_ok());
}

#[test]
fn split_plan_validates_offsets() {
    let p = 4096usize;

    // Splitting two pages at one page yields two ascending halves of one
    // page each, covering the whole region.
    assert_eq!(mmap_rs::split_plan(2 * p, p, p).unwrap(), (p, p));

    // A non-page-aligned offset is refused.
    assert!(matches!(mmap_rs::split_plan(2 * p, 1, p), Err(Error::Io(_))));

    // Offsets at or past the edges are refused.
    assert!(mmap_rs::split_plan(2 * p, 0, p).is_err());
    assert!(mmap_rs::split_plan(2 * p, 2 * p, p).is_err());
    assert!(mmap_rs::split_plan(2 * p, 3 * p, p).is_err());

    // An uneven split at a page boundary is fine.
    assert_eq!(mmap_rs::split_plan(4 * p, p, p).unwrap(), (p, 3 * p));
}

#[test]
fn query_range() {
    let p = page();

    // Allocate a batch of single pages and pick three whose addresses are
    // contiguous and ascending; the kernel hands out neighboring pages for
    // consecutive requests, so a small batch is enough.
    let mut pool = Vec::new();
    for _ in 0..16 {
        pool.push(MmapOptions::new(p).unwrap().map_mut().unwrap());
    }

    let mut triple = None;
    'outer: for a in 0..pool.len() {
        for b in 0..pool.len() {
            for c in 0..pool.len() {
                if pool[a].as_ptr() + p == pool[b].as_ptr()
                    && pool[b].as_ptr() + p == pool[c].as_ptr()
                {
                    triple = Some((a, b, c));
                    break 'outer;
                }
            }
        }
    }
    let (a, b, c) = triple.expect("no three contiguous pages in the batch");

    let left_addr = pool[a].as_ptr();
    let middle_addr = pool[b].as_ptr();
    let right_addr = pool[c].as_ptr();

    // Keep left, middle and right; drop the rest of the pool.
    let mut keep = Vec::new();
    for (i, m) in pool.into_iter().enumerate() {
        if i == a || i == b || i == c {
            keep.push((i, m));
        }
    }

    // Drop the middle page, leaving a one-page hole.
    keep.retain(|(i, _)| *i != b);
    assert_eq!(keep.len(), 2);

    // Query the full three-page span: exactly two disjoint regions, in
    // ascending order; one ends where the dropped page began, one begins
    // where the dropped page ended.
    let start = left_addr;
    let end = right_addr + p;

    let mut areas = MemoryAreas::query_range(start..end).unwrap();

    let region = areas.next().unwrap().unwrap();
    assert_eq!(region.end(), middle_addr);
    let mut region = areas.next().unwrap().unwrap();

    if region.start() != right_addr {
        region = areas.next().unwrap().unwrap();
    }

    assert_eq!(region.start(), right_addr);
    assert!(areas.next().is_none());
}

#[test]
fn flags_applied_at_map_time() {
    let flags = MmapFlags {
        populate: true,
        stack: true,
        no_reserve: true,
        no_core_dump: true,
        ..MmapFlags::empty()
    };
    let mapping = MmapOptions::new(2 * page())
        .unwrap()
        .with_flags(flags)
        .map_mut()
        .unwrap();
    assert_eq!(mapping.size(), 2 * page());
    assert!(mapping.as_slice().iter().all(|&b| b == 0));
}

#[test]
fn transparent_huge_pages_request_is_forwarded() {
    let flags = MmapFlags {
        transparent_huge_pages: true,
        ..MmapFlags::empty()
    };
    // A kernel built without the feature refuses the advice; one with it
    // accepts. Either way the outcome is the contract's.
    match MmapOptions::new(2 * page()).unwrap().with_flags(flags).map_mut() {
        Ok(mapping) => assert_eq!(mapping.size(), 2 * page()),
        Err(e) => assert!(matches!(e, Error::Io(_))),
    }
}

#[test]
fn explicit_page_size_is_validated() {
    // A page size whose log2 cannot be a machine page size is refused
    // before anything is allocated.
    let err = MmapOptions::new(page())
        .unwrap()
        .with_page_size(PageSize(99))
        .map_mut()
        .unwrap_err();
    assert_eq!(err, Error::Io(22));

    // A plausible huge page size is forwarded; whether the platform offers
    // it decides between success and a platform error.
    match MmapOptions::new(1 << 21)
        .unwrap()
        .with_page_size(PageSize::of_2m())
        .map_mut()
    {
        Ok(mapping) => assert_eq!(mapping.size(), 1 << 21),
        Err(e) => assert!(matches!(e, Error::Io(_))),
    }
}

#[test]
fn redundant_transitions_keep_the_mapping() {
    let mapping = MmapOptions::new(page()).unwrap().map().unwrap();
    let addr = mapping.as_ptr();

    // Already non-executable: returned unchanged, with no platform call
    // that could fail.
    let mapping = mapping.make_read_only().unwrap();
    assert_eq!(mapping.as_ptr(), addr);

    // Already executable: likewise unchanged.
    let exec = mapping.make_exec().unwrap();
    let exec = exec.make_exec().unwrap();
    let exec = exec.make_exec_no_flush().unwrap();
    assert_eq!(exec.as_ptr(), addr);
}
