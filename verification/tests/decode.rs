//! Unit tests for the region record decoders: the line-oriented table, the
//! fixed-layout byte-stream records, and the protection-constant tables.

use mmap_rs::{
    decode_entry, decode_records, parse_line, parse_maps, plan_view_protection,
    protection_from_bits, protection_from_page_constant, query_step, region_step,
    share_mode_from_cow, share_mode_from_page_constant, share_mode_from_shared, DecodeKind,
    Error, Protection, RegionStep, ShareMode, NO_MORE_REGIONS,
};

#[test]
fn parse_line_file_backed() {
    let line = b"00400000-00452000 r-xp 0001a000 08:02 173521 /usr/bin/daemon";
    let area = parse_line(line).unwrap();

    assert_eq!(area.start(), 0x00400000);
    assert_eq!(area.end(), 0x00452000);
    assert_eq!(area.range().start, 0x00400000);
    assert_eq!(area.range().end, 0x00452000);
    assert_eq!(area.protection(), Protection::read_execute());
    assert_eq!(area.share_mode(), ShareMode::Private);
    assert_eq!(area.path().unwrap(), "/usr/bin/daemon");
    assert_eq!(area.file_offset(), Some(0x1a000));
}

#[test]
fn parse_line_anonymous() {
    let line = b"7fff0000-7fff8000 rw-s 00000000 00:00 0";
    let area = parse_line(line).unwrap();

    assert_eq!(area.start(), 0x7fff0000);
    assert_eq!(area.end(), 0x7fff8000);
    assert_eq!(area.protection(), Protection::read_write());
    assert_eq!(area.share_mode(), ShareMode::Shared);
    assert!(area.path().is_none());
    assert_eq!(area.file_offset(), None);
}

#[test]
fn parse_line_path_with_spaces() {
    let line = b"1000-2000 r--p 00000000 00:10 42      /tmp/a b (deleted)";
    let area = parse_line(line).unwrap();

    assert_eq!(area.path().unwrap(), "/tmp/a b (deleted)");
    assert_eq!(area.file_offset(), Some(0));
    assert_eq!(area.protection(), Protection::read());
}

#[test]
fn parse_line_uppercase_hex() {
    let line = b"7FFF-8A00 ---p 1A 0:0 5";
    let area = parse_line(line).unwrap();

    assert_eq!(area.start(), 0x7fff);
    assert_eq!(area.end(), 0x8a00);
    assert_eq!(area.protection(), Protection::none());
}

#[test]
fn parse_line_rejects_missing_hex() {
    assert!(matches!(
        parse_line(b"hello"),
        Err(Error::Decode(DecodeKind::Number))
    ));
    assert!(matches!(
        parse_line(b""),
        Err(Error::Decode(DecodeKind::Number))
    ));
}

#[test]
fn parse_line_rejects_backwards_range() {
    let line = b"500000-400000 rw-p 00000000 00:00 0";
    assert!(matches!(parse_line(line), Err(Error::Decode(DecodeKind::Number))));
}

#[test]
fn parse_line_rejects_bad_permissions() {
    let line = b"400000-500000 rq-p 00000000 00:00 0";
    assert!(matches!(parse_line(line), Err(Error::Decode(DecodeKind::Text))));
}

#[test]
fn parse_line_rejects_truncated_fields() {
    assert!(matches!(
        parse_line(b"400000-500000 rw-p"),
        Err(Error::Decode(DecodeKind::Text))
    ));
    assert!(matches!(
        parse_line(b"400000-500000 rw-p 0 0:0"),
        Err(Error::Decode(DecodeKind::Number))
    ));
}

#[test]
fn parse_line_rejects_malformed_path_text() {
    let mut line: Vec<u8> = b"1000-2000 r--p 0 0:0 7 /bin/".to_vec();
    line.push(0xff);
    assert!(matches!(
        parse_line(line.as_slice()),
        Err(Error::Decode(DecodeKind::Text))
    ));
}

#[test]
fn parse_maps_splits_lines_in_order() {
    let table = b"1000-2000 r--p 00000000 00:00 0\n3000-4000 rw-p 00000000 00:00 0 /x\n\n";
    let items = parse_maps(table);

    assert_eq!(items.len(), 2);
    let first = items[0].as_ref().unwrap();
    assert_eq!(first.start(), 0x1000);
    assert_eq!(first.protection(), Protection::read());
    let second = items[1].as_ref().unwrap();
    assert_eq!(second.start(), 0x3000);
    assert_eq!(second.path().unwrap(), "/x");
}

#[test]
fn parse_maps_keeps_bad_lines_as_errors() {
    let table = b"1000-2000 r--p 0 0:0 0\nbroken\n3000-4000 rw-p 0 0:0 0\n";
    let items = parse_maps(table);

    assert_eq!(items.len(), 3);
    assert!(items[0].is_ok());
    assert!(matches!(items[1], Err(Error::Decode(DecodeKind::Number))));
    assert!(items[2].is_ok());
}

#[test]
fn parse_maps_accepts_missing_final_newline() {
    let table = b"1000-2000 r--p 0 0:0 0";
    let items = parse_maps(table);
    assert_eq!(items.len(), 1);
    assert!(items[0].is_ok());
}

fn record(
    len: u32,
    start: u64,
    end: u64,
    offset: u64,
    flags: u32,
    prot: u32,
    path: &[u8],
) -> Vec<u8> {
    let mut rec = vec![0u8; len as usize];
    rec[0..4].copy_from_slice(&len.to_le_bytes());
    rec[8..16].copy_from_slice(&start.to_le_bytes());
    rec[16..24].copy_from_slice(&end.to_le_bytes());
    rec[24..32].copy_from_slice(&offset.to_le_bytes());
    rec[44..48].copy_from_slice(&flags.to_le_bytes());
    rec[56..60].copy_from_slice(&prot.to_le_bytes());
    rec[136..136 + path.len()].copy_from_slice(path);
    rec
}

#[test]
fn decode_entry_reads_fixed_offsets() {
    let rec = record(140, 0x1000, 0x2000, 0x3000, 1, 3, b"ab\0");
    let area = decode_entry(rec.as_slice()).unwrap();

    assert_eq!(area.start(), 0x1000);
    assert_eq!(area.end(), 0x2000);
    assert_eq!(area.protection(), Protection::read_write());
    assert_eq!(area.share_mode(), ShareMode::CopyOnWrite);
    assert_eq!(area.path().unwrap(), "ab");
    assert_eq!(area.file_offset(), Some(0x3000));
}

#[test]
fn decode_entry_anonymous_and_private() {
    let rec = record(137, 0x4000, 0x4000, 0, 0, 5, b"\0");
    let area = decode_entry(rec.as_slice()).unwrap();

    assert_eq!(area.start(), 0x4000);
    assert_eq!(area.end(), 0x4000);
    assert_eq!(area.protection(), Protection::read_execute());
    assert_eq!(area.share_mode(), ShareMode::Private);
    assert!(area.path().is_none());
    assert_eq!(area.file_offset(), None);
}

#[test]
fn decode_entry_rejects_backwards_range() {
    let rec = record(137, 0x2000, 0x1000, 0, 0, 0, b"\0");
    assert!(matches!(
        decode_entry(rec.as_slice()),
        Err(Error::Decode(DecodeKind::Number))
    ));
}

#[test]
fn decode_entry_rejects_unterminated_path() {
    let rec = record(138, 0x1000, 0x2000, 0, 0, 0, b"ab");
    assert!(matches!(
        decode_entry(rec.as_slice()),
        Err(Error::Decode(DecodeKind::Truncated))
    ));
}

#[test]
fn decode_records_walks_declared_lengths() {
    let mut stream = record(140, 0x1000, 0x2000, 0, 0, 1, b"xy\0\0");
    stream.extend_from_slice(&record(137, 0x5000, 0x6000, 0, 1, 7, b"\0"));
    let items = decode_records(stream.as_slice());

    assert_eq!(items.len(), 2);
    let first = items[0].as_ref().unwrap();
    assert_eq!(first.start(), 0x1000);
    assert_eq!(first.path().unwrap(), "xy");
    let second = items[1].as_ref().unwrap();
    assert_eq!(second.start(), 0x5000);
    assert_eq!(second.share_mode(), ShareMode::CopyOnWrite);
    assert_eq!(
        second.protection(),
        Protection::read_write().union(Protection::execute())
    );
}

#[test]
fn decode_records_surfaces_truncation() {
    // A declared length shorter than the fixed fields ends the sequence
    // with one truncation error.
    let mut short = record(137, 0x1000, 0x2000, 0, 0, 0, b"\0");
    short[0] = 100;
    short[1] = 0;
    let items = decode_records(short.as_slice());
    assert_eq!(items.len(), 1);
    assert!(matches!(items[0], Err(Error::Decode(DecodeKind::Truncated))));

    // Trailing bytes too short to hold a length are a truncation error
    // after the decoded records.
    let mut stream = record(137, 0x1000, 0x2000, 0, 0, 0, b"\0");
    stream.extend_from_slice(b"xy");
    let items = decode_records(stream.as_slice());
    assert_eq!(items.len(), 2);
    assert!(items[0].is_ok());
    assert!(matches!(items[1], Err(Error::Decode(DecodeKind::Truncated))));

    // A declared length past the end of the stream is a truncation error.
    let mut overrun = record(137, 0x1000, 0x2000, 0, 0, 0, b"\0");
    overrun[0] = 200;
    let items = decode_records(overrun.as_slice());
    assert_eq!(items.len(), 1);
    assert!(matches!(items[0], Err(Error::Decode(DecodeKind::Truncated))));
}

#[test]
fn decode_records_empty_stream_is_empty() {
    let items = decode_records(b"");
    assert_eq!(items.len(), 0);
}

#[test]
fn protection_bit_sets() {
    assert_eq!(protection_from_bits(0), Protection::none());
    assert_eq!(protection_from_bits(1), Protection::read());
    assert_eq!(protection_from_bits(3), Protection::read_write());
    assert_eq!(protection_from_bits(5), Protection::read_execute());
    assert_eq!(
        protection_from_bits(7),
        Protection::read_write().union(Protection::execute())
    );
}

#[test]
fn protection_page_constant_table() {
    assert_eq!(protection_from_page_constant(0x10), Protection::execute());
    assert_eq!(
        protection_from_page_constant(0x20),
        Protection::read_execute()
    );
    assert_eq!(
        protection_from_page_constant(0x40),
        Protection::read_write().union(Protection::execute())
    );
    assert_eq!(
        protection_from_page_constant(0x80),
        Protection::read_write().union(Protection::execute())
    );
    assert_eq!(protection_from_page_constant(0x02), Protection::read());
    assert_eq!(protection_from_page_constant(0x04), Protection::read_write());
    assert_eq!(protection_from_page_constant(0x08), Protection::read_write());
    assert_eq!(protection_from_page_constant(0x01), Protection::none());
    assert_eq!(protection_from_page_constant(0x1234), Protection::none());
}

#[test]
fn share_mode_tables() {
    assert_eq!(share_mode_from_shared(true), ShareMode::Shared);
    assert_eq!(share_mode_from_shared(false), ShareMode::Private);
    assert_eq!(share_mode_from_cow(true), ShareMode::CopyOnWrite);
    assert_eq!(share_mode_from_cow(false), ShareMode::Private);

    assert_eq!(
        share_mode_from_page_constant(true, 0x08),
        ShareMode::Private
    );
    assert_eq!(
        share_mode_from_page_constant(false, 0x08),
        ShareMode::CopyOnWrite
    );
    assert_eq!(
        share_mode_from_page_constant(false, 0x80),
        ShareMode::CopyOnWrite
    );
    assert_eq!(
        share_mode_from_page_constant(false, 0x20),
        ShareMode::Shared
    );
}

#[test]
fn view_protection_planning_table() {
    // Reading is always requested; writing and executing are added exactly
    // when the probe showed them obtainable.
    assert_eq!(plan_view_protection(true, true), (0x26, 0x40));
    assert_eq!(plan_view_protection(true, false), (0x06, 0x04));
    assert_eq!(plan_view_protection(false, true), (0x24, 0x20));
    assert_eq!(plan_view_protection(false, false), (0x04, 0x02));
}

#[test]
fn region_walk_steps() {
    // The distinguished status ends the walk.
    assert!(matches!(
        region_step(NO_MORE_REGIONS, 0, 0, 0, false, None),
        RegionStep::End
    ));

    // Any other non-success status is a fatal platform fault.
    match region_step(-5, 0, 0, 0, false, None) {
        RegionStep::Broken(e) => assert_eq!(e, Error::PlatformFault(-5)),
        _ => panic!("a failing status must surface as a fault"),
    }

    // Success yields the region and advances the cursor past it.
    match region_step(0, 0x1000, 0x2000, 5, true, Some(("/lib/x".to_string(), 64))) {
        RegionStep::Region(a, next) => {
            assert_eq!(a.start(), 0x1000);
            assert_eq!(a.end(), 0x3000);
            assert_eq!(a.protection(), Protection::read_execute());
            assert_eq!(a.share_mode(), ShareMode::Shared);
            assert_eq!(a.path().unwrap(), "/lib/x");
            assert_eq!(a.file_offset(), Some(64));
            assert_eq!(next, 0x3000);
        }
        _ => panic!("a successful query must yield the region"),
    }

    // An extent past the address space cannot be a region.
    match region_step(0, usize::MAX, 2, 0, false, None) {
        RegionStep::Broken(e) => assert_eq!(e, Error::Decode(DecodeKind::Number)),
        _ => panic!("an overflowing extent must surface as a decode error"),
    }
}

#[test]
fn query_walk_steps() {
    // A reply shorter than one full record ends the walk.
    assert!(matches!(
        query_step(10, 48, true, 0, 0, 0, 0, true, None),
        RegionStep::End
    ));

    // An uncommitted region is skipped, the cursor still advancing.
    match query_step(48, 48, false, 0x1000, 0x1000, 0x1000, 0, true, None) {
        RegionStep::Skip(next) => assert_eq!(next, 0x2000),
        _ => panic!("an uncommitted region must be skipped"),
    }

    // A committed region decodes through the constant table, its file
    // offset the base minus the allocation base.
    match query_step(48, 48, true, 0x5000, 0x1000, 0x4000, 0x08, false, Some("/x".to_string())) {
        RegionStep::Region(a, next) => {
            assert_eq!(a.start(), 0x5000);
            assert_eq!(a.end(), 0x6000);
            assert_eq!(a.protection(), Protection::read_write());
            assert_eq!(a.share_mode(), ShareMode::CopyOnWrite);
            assert_eq!(a.path().unwrap(), "/x");
            assert_eq!(a.file_offset(), Some(0x1000));
            assert_eq!(next, 0x6000);
        }
        _ => panic!("a committed region must be yielded"),
    }

    // A base below its own allocation base cannot be a region.
    match query_step(48, 48, true, 0x1000, 0x1000, 0x2000, 0, true, None) {
        RegionStep::Broken(e) => assert_eq!(e, Error::Decode(DecodeKind::Number)),
        _ => panic!("a base below its allocation base must surface as a decode error"),
    }
}
