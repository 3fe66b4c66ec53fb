//! Tests for the flag model, the error type, and the enumerator's cursor
//! and query helpers.

use mmap_rs::{
    area_containing, keep_intersecting, parse_line, DecodeKind, Error, MemoryArea, MemoryAreas,
    MmapFlags, MmapOptions, PageSize, Protection, ShareMode, UnsafeMmapFlags,
};

#[test]
fn protection_contains_and_union() {
    let rw = Protection::read_write();
    assert!(rw.contains(Protection::read()));
    assert!(rw.contains(Protection::write()));
    assert!(rw.contains(Protection::none()));
    assert!(!rw.contains(Protection::execute()));
    assert!(!Protection::read().contains(rw));

    let rwx = rw.union(Protection::execute());
    assert!(rwx.contains(rw));
    assert!(rwx.contains(Protection::read_execute()));
    assert_eq!(Protection::none().union(rw), rw);
}

#[test]
fn mmap_flags_union() {
    let locked = MmapFlags {
        locked: true,
        ..MmapFlags::empty()
    };
    let populate = MmapFlags {
        populate: true,
        ..MmapFlags::empty()
    };
    let both = locked.union(populate);
    assert!(both.locked);
    assert!(both.populate);
    assert!(!both.stack);
    assert_eq!(MmapFlags::empty().union(MmapFlags::empty()), MmapFlags::empty());
}

#[test]
fn unsafe_flags_union_and_values() {
    assert!(UnsafeMmapFlags::jit().jit);
    assert!(!UnsafeMmapFlags::jit().map_fixed);
    assert!(UnsafeMmapFlags::map_fixed().map_fixed);
    let both = UnsafeMmapFlags::jit().union(UnsafeMmapFlags::map_fixed());
    assert!(both.jit && both.map_fixed);
    assert_eq!(
        UnsafeMmapFlags::empty(),
        UnsafeMmapFlags {
            map_fixed: false,
            jit: false
        }
    );
}

#[test]
fn page_size_values() {
    assert_eq!(PageSize::of_4k().log2(), 12);
    assert_eq!(PageSize::of_2m().log2(), 21);
    assert_eq!(PageSize::of_1g().log2(), 30);
    assert_eq!(PageSize(16).log2(), 16);
}

#[test]
fn error_values_compare() {
    assert_eq!(Error::Io(22), Error::Io(22));
    assert_ne!(Error::Io(22), Error::Io(95));
    assert_ne!(
        Error::Decode(DecodeKind::Number),
        Error::Decode(DecodeKind::Text)
    );
    assert_eq!(
        Error::UnsafeFlagNeeded(UnsafeMmapFlags::jit()),
        Error::UnsafeFlagNeeded(UnsafeMmapFlags::jit())
    );
    assert_ne!(Error::PlatformFault(1), Error::PlatformFault(2));
    assert_ne!(Error::PlatformFault(22), Error::Io(22));
}

fn synthetic_areas() -> Vec<Result<MemoryArea, Error>> {
    vec![
        parse_line(b"1000-2000 r--p 0 0:0 0"),
        Err(Error::Decode(DecodeKind::Number)),
        parse_line(b"3000-4000 rw-p 0 0:0 0 /x"),
        parse_line(b"4000-6000 r-xs 0 0:0 0"),
    ]
}

#[test]
fn area_containing_picks_holder() {
    let hit = area_containing(synthetic_areas(), 0x1800).unwrap();
    assert_eq!(hit.start(), 0x1000);

    let hit = area_containing(synthetic_areas(), 0x3000).unwrap();
    assert_eq!(hit.start(), 0x3000);

    // The end of a half-open range is outside it.
    let hit = area_containing(synthetic_areas(), 0x2000);
    assert!(hit.is_none());

    assert!(area_containing(synthetic_areas(), 0x2800).is_none());
    assert!(area_containing(synthetic_areas(), 0x6000).is_none());
}

#[test]
fn keep_intersecting_reports_true_extents() {
    // A query across the first two regions keeps both whole, in order,
    // and leaves the undecodable record out.
    let kept = keep_intersecting(synthetic_areas(), 0x1800, 0x3800);
    assert_eq!(kept.len(), 2);
    let first = kept[0].as_ref().unwrap();
    assert_eq!(first.start(), 0x1000);
    assert_eq!(first.end(), 0x2000);
    let second = kept[1].as_ref().unwrap();
    assert_eq!(second.start(), 0x3000);
    assert_eq!(second.end(), 0x4000);

    // A query of the gap between regions, touching both boundaries of the
    // half-open ranges, intersects nothing.
    let kept = keep_intersecting(synthetic_areas(), 0x2000, 0x3000);
    assert_eq!(kept.len(), 0);

    // A query wholly inside one region keeps it with its true extents.
    let kept = keep_intersecting(synthetic_areas(), 0x4800, 0x4900);
    assert_eq!(kept.len(), 1);
    let only = kept[0].as_ref().unwrap();
    assert_eq!(only.start(), 0x4000);
    assert_eq!(only.end(), 0x6000);
}

#[test]
fn enumerator_open_yields_regions() {
    let mut areas = MemoryAreas::open(None).unwrap();
    let mut count = 0usize;
    let mut last_start = 0usize;
    let mut ascending = true;
    while let Some(item) = areas.next() {
        let area = item.unwrap();
        assert!(area.start() <= area.end());
        if area.start() < last_start {
            ascending = false;
        }
        last_start = area.start();
        count += 1;
    }
    // A living process always has regions, the kernel reports them in
    // ascending order, and the sequence stays exhausted.
    assert!(count > 0);
    assert!(ascending);
    assert!(areas.next().is_none());
    assert!(areas.next().is_none());
}

#[test]
fn enumerator_open_unknown_process_fails_with_io() {
    let err = MemoryAreas::open(Some(u32::MAX)).unwrap_err();
    assert!(matches!(err, Error::Io(_)));
}

#[test]
fn query_outside_any_region() {
    // The null page is never mapped.
    let hit = MemoryAreas::query(0).unwrap();
    assert!(hit.is_none());
}

#[test]
fn share_mode_values_are_distinct() {
    assert_ne!(ShareMode::Private, ShareMode::Shared);
    assert_ne!(ShareMode::Private, ShareMode::CopyOnWrite);
    assert_ne!(ShareMode::CopyOnWrite, ShareMode::Shared);
}

#[test]
fn builder_accumulates_flags() {
    let locked = MmapFlags {
        locked: true,
        ..MmapFlags::empty()
    };
    let stack = MmapFlags {
        stack: true,
        ..MmapFlags::empty()
    };
    let options = MmapOptions::new(4096)
        .unwrap()
        .with_flags(locked)
        .with_flags(stack)
        .with_unsafe_flags(UnsafeMmapFlags::jit())
        .with_address(0x1000)
        .with_page_size(PageSize::of_2m());

    assert_eq!(options.size, 4096);
    assert!(options.flags.locked);
    assert!(options.flags.stack);
    assert!(!options.flags.populate);
    assert!(options.unsafe_flags.jit);
    assert!(!options.unsafe_flags.map_fixed);
    assert_eq!(options.address, Some(0x1000));
    assert_eq!(options.page_size, Some(PageSize::of_2m()));
}
