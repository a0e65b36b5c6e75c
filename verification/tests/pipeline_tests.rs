//! End-to-end pipeline tests: synthetic MFT buffers through decoding,
//! path resolution, timeline assembly and CSV rendering.

use std::io::Write;
use tl::container::ContainerExtractor;
use tl::mft::MftParser;
use tl::output::OutputWriter;
use tl::simd_optimize::{apply_fixups_simd, find_signatures_scalar, scan_record_boundaries_simd};
use tl::types::TimestampType;

const FILETIME_UNIX_EPOCH: u64 = 116444736000000000;

fn le16(b: &mut [u8], off: usize, v: u16) {
    b[off..off + 2].copy_from_slice(&v.to_le_bytes());
}

fn le32(b: &mut [u8], off: usize, v: u32) {
    b[off..off + 4].copy_from_slice(&v.to_le_bytes());
}

fn le64(b: &mut [u8], off: usize, v: u64) {
    b[off..off + 8].copy_from_slice(&v.to_le_bytes());
}

struct FnAttr {
    namespace: u8,
    name: &'static str,
    parent: u64,
    logical_size: u64,
}

/// Build one 1024-byte MFT record: FILE signature, no update sequence
/// array, an optional $STANDARD_INFORMATION quadruple and the given
/// $FILE_NAME attributes.
fn mft_record(flags: u16, si: Option<[u64; 4]>, fns: &[FnAttr]) -> Vec<u8> {
    let mut b = vec![0u8; 1024];
    b[0..4].copy_from_slice(b"FILE");
    le16(&mut b, 4, 48); // update sequence array offset
    le16(&mut b, 6, 0); // no update sequence entries
    le16(&mut b, 16, 1); // sequence number
    le16(&mut b, 18, 1); // hard link count
    le16(&mut b, 20, 56); // first attribute offset
    le16(&mut b, 22, flags);
    let mut off = 56usize;
    if let Some(ts) = si {
        le32(&mut b, off, 0x10);
        le32(&mut b, off + 4, 56); // attribute length: 24 header + 32 content
        b[off + 8] = 0; // resident
        le16(&mut b, off + 20, 24); // content offset
        for (i, ft) in ts.iter().enumerate() {
            le64(&mut b, off + 24 + 8 * i, *ft);
        }
        off += 56;
    }
    for f in fns {
        let name_utf16: Vec<u16> = f.name.encode_utf16().collect();
        let body = 66 + 2 * name_utf16.len();
        let mut alen = 24 + body;
        if alen % 8 != 0 {
            alen += 8 - alen % 8;
        }
        le32(&mut b, off, 0x30);
        le32(&mut b, off + 4, alen as u32);
        b[off + 8] = 0;
        le16(&mut b, off + 20, 24);
        let c = off + 24;
        le64(&mut b, c, f.parent);
        le64(&mut b, c + 40, f.logical_size);
        le64(&mut b, c + 48, f.logical_size);
        b[c + 64] = name_utf16.len() as u8;
        b[c + 65] = f.namespace;
        for (i, u) in name_utf16.iter().enumerate() {
            le16(&mut b, c + 66 + 2 * i, *u);
        }
        off += alen;
    }
    le32(&mut b, off, 0xFFFFFFFF);
    b
}

fn place(buf: &mut Vec<u8>, idx: usize, rec: &[u8]) {
    buf[idx * 1024..idx * 1024 + 1024].copy_from_slice(rec);
}

fn ft_of_unix(secs: u64) -> u64 {
    FILETIME_UNIX_EPOCH + secs * 10_000_000
}

/// Minimal synthetic MFT: a root record and one file with a creation
/// time gives exactly the specified CSV row.
#[test]
fn minimal_synthetic_mft() {
    let mut buf = vec![0u8; 7 * 1024];
    let root = mft_record(0x03, None, &[]);
    // 2024-01-01 00:00:00 UTC
    let created = ft_of_unix(1704067200);
    let file = mft_record(
        0x01,
        Some([created, 0, 0, 0]),
        &[FnAttr { namespace: 1, name: "a.txt", parent: 5, logical_size: 42 }],
    );
    place(&mut buf, 5, &root);
    place(&mut buf, 6, &file);
    let mut parser = MftParser::new();
    let records = parser.parse_mft_data(&buf).unwrap();
    assert_eq!(records.len(), 2);
    let csv = OutputWriter::render_timeline(&records, 0);
    assert_eq!(
        csv,
        "\"a.txt\",\"Mon 2024-01-01 00:00:00 UTC\",\"File/folder created ($STANDARD_INFORMATION)\",42,\"a.txt\"\n"
    );
}

/// A two-level directory resolves to a joined path.
#[test]
fn two_level_directory() {
    let mut buf = vec![0u8; 8 * 1024];
    place(&mut buf, 5, &mft_record(0x03, None, &[]));
    place(
        &mut buf,
        6,
        &mft_record(0x03, None, &[FnAttr { namespace: 1, name: "dir", parent: 5, logical_size: 0 }]),
    );
    place(
        &mut buf,
        7,
        &mft_record(
            0x01,
            None,
            &[FnAttr { namespace: 1, name: "b.bin", parent: 6, logical_size: 7 }],
        ),
    );
    let mut parser = MftParser::new();
    let records = parser.parse_mft_data(&buf).unwrap();
    let rec7 = records.iter().find(|r| r.record_number == 7).unwrap();
    assert_eq!(rec7.location.as_deref(), Some("dir/b.bin"));
}

/// A parent cycle is tagged on both records.
#[test]
fn cycle_is_tagged() {
    let mut buf = vec![0u8; 8 * 1024];
    place(
        &mut buf,
        6,
        &mft_record(0x03, None, &[FnAttr { namespace: 1, name: "x", parent: 7, logical_size: 0 }]),
    );
    place(
        &mut buf,
        7,
        &mft_record(0x03, None, &[FnAttr { namespace: 1, name: "y", parent: 6, logical_size: 0 }]),
    );
    let mut parser = MftParser::new();
    let records = parser.parse_mft_data(&buf).unwrap();
    for r in &records {
        assert!(r.location.as_deref().unwrap().contains("[Cycle-"));
    }
}

/// The Win32 long name wins over the POSIX short name.
#[test]
fn namespace_selection() {
    let mut buf = vec![0u8; 9 * 1024];
    let rec = mft_record(
        0x01,
        None,
        &[
            FnAttr { namespace: 0, name: "FOO~1", parent: 5, logical_size: 0 },
            FnAttr { namespace: 1, name: "Foo Document.txt", parent: 5, logical_size: 0 },
        ],
    );
    place(&mut buf, 8, &rec);
    let mut parser = MftParser::new();
    let records = parser.parse_mft_data(&buf).unwrap();
    let rec8 = records.iter().find(|r| r.record_number == 8).unwrap();
    assert_eq!(rec8.filename.as_deref(), Some("Foo Document.txt"));
}

/// Two events at one instant order by timestamp kind: Created first.
#[test]
fn multi_timestamp_sort_tie_break() {
    let mut buf = vec![0u8; 6 * 1024];
    let t = ft_of_unix(1700000000);
    let rec = mft_record(
        0x01,
        Some([t, t, 0, 0]),
        &[FnAttr { namespace: 1, name: "tie.txt", parent: 5, logical_size: 1 }],
    );
    place(&mut buf, 5, &rec);
    let mut parser = MftParser::new();
    let records = parser.parse_mft_data(&buf).unwrap();
    let events = tl::output::extract_events(&records);
    assert_eq!(events.len(), 2);
    assert_eq!(events[0].timestamp, events[1].timestamp);
    assert_eq!(events[0].timestamp_type, TimestampType::Created);
    assert_eq!(events[1].timestamp_type, TimestampType::Modified);
}

/// The CSV escape of a field with a comma, quotes and a newline.
#[test]
fn csv_escape_scenario() {
    let escaped = OutputWriter::escape_csv_field("odd,\"name\"\n");
    assert_eq!(escaped, "\"odd,\"\"name\"\"\n\"");
}

/// A record with `k` present timestamps yields exactly `k` events.
#[test]
fn event_explosion_counts() {
    let t = ft_of_unix(1700000100);
    for k in 0..5u32 {
        let mut ts = [0u64; 4];
        for i in 0..k as usize {
            ts[i] = t + i as u64;
        }
        let mut buf = vec![0u8; 6 * 1024];
        let rec = mft_record(
            0x01,
            Some(ts),
            &[FnAttr { namespace: 1, name: "n.txt", parent: 5, logical_size: 1 }],
        );
        place(&mut buf, 5, &rec);
        let mut parser = MftParser::new();
        let records = parser.parse_mft_data(&buf).unwrap();
        let events = tl::output::extract_events(&records);
        assert_eq!(events.len(), k as usize);
    }
}

/// Two runs over the same records give byte-identical CSV.
#[test]
fn sort_determinism_byte_identical() {
    let mut buf = vec![0u8; 8 * 1024];
    place(&mut buf, 5, &mft_record(0x03, None, &[]));
    let t = ft_of_unix(1690000000);
    place(
        &mut buf,
        6,
        &mft_record(
            0x01,
            Some([t + 3, t + 1, t + 2, t]),
            &[FnAttr { namespace: 1, name: "d1.txt", parent: 5, logical_size: 11 }],
        ),
    );
    place(
        &mut buf,
        7,
        &mft_record(
            0x01,
            Some([t + 1, t + 4, 0, 0]),
            &[FnAttr { namespace: 1, name: "d2.txt", parent: 5, logical_size: 22 }],
        ),
    );
    let mut p1 = MftParser::new();
    let r1 = p1.parse_mft_data(&buf).unwrap();
    let c1 = OutputWriter::render_timeline(&r1, 8);
    let mut p2 = MftParser::new();
    let r2 = p2.parse_mft_data(&buf).unwrap();
    let c2 = OutputWriter::render_timeline(&r2, 8);
    assert_eq!(c1, c2);
    assert!(!c1.is_empty());
}

/// Extracting an MFT from a ZIP and parsing it equals parsing the
/// embedded bytes directly.
#[test]
fn container_idempotence() {
    let mut buf = vec![0u8; 7 * 1024];
    // A leading record keeps the buffer recognisable by the signature
    // heuristic; the root sits at its canonical record number.
    place(&mut buf, 0, &mft_record(0x01, None, &[]));
    place(&mut buf, 5, &mft_record(0x03, None, &[]));
    let created = ft_of_unix(1704067200);
    place(
        &mut buf,
        6,
        &mft_record(
            0x01,
            Some([created, 0, 0, 0]),
            &[FnAttr { namespace: 1, name: "a.txt", parent: 5, logical_size: 42 }],
        ),
    );
    let mut cursor = std::io::Cursor::new(Vec::new());
    {
        let mut writer = zip::ZipWriter::new(&mut cursor);
        let options = zip::write::SimpleFileOptions::default();
        writer.start_file("$MFT", options).unwrap();
        writer.write_all(&buf).unwrap();
        writer.finish().unwrap();
    }
    let zip_bytes = cursor.into_inner();
    let extracted = ContainerExtractor::extract_mft_data(&zip_bytes, "evidence.zip", None).unwrap();
    assert_eq!(extracted, buf);
    let mut p1 = MftParser::new();
    let direct = OutputWriter::render_timeline(&p1.parse_mft_data(&buf).unwrap(), 0);
    let mut p2 = MftParser::new();
    let via_zip = OutputWriter::render_timeline(&p2.parse_mft_data(&extracted).unwrap(), 0);
    assert_eq!(direct, via_zip);
}

/// A gzipped MFT inside a ZIP is inflated back to the source bytes.
#[test]
fn gzipped_mft_in_zip() {
    let mut buf = vec![0u8; 3 * 1024];
    place(&mut buf, 0, &mft_record(0x01, None, &[]));
    place(
        &mut buf,
        1,
        &mft_record(0x01, None, &[FnAttr { namespace: 1, name: "g.txt", parent: 5, logical_size: 3 }]),
    );
    place(&mut buf, 2, &mft_record(0x01, None, &[]));
    let mut gz = flate2::write::GzEncoder::new(Vec::new(), flate2::Compression::default());
    gz.write_all(&buf).unwrap();
    let gz_bytes = gz.finish().unwrap();
    let mut cursor = std::io::Cursor::new(Vec::new());
    {
        let mut writer = zip::ZipWriter::new(&mut cursor);
        let options = zip::write::SimpleFileOptions::default();
        writer.start_file("$MFT.gz", options).unwrap();
        writer.write_all(&gz_bytes).unwrap();
        writer.finish().unwrap();
    }
    let zip_bytes = cursor.into_inner();
    let extracted = ContainerExtractor::extract_mft_data(&zip_bytes, "evidence.zip", None).unwrap();
    assert_eq!(extracted, buf);
}

/// Percent-encoded jumplist source paths decode before the Users portion
/// is kept.
#[test]
fn jumplist_path_cleaning() {
    let cleaned = MftParser::clean_jumplist_path("uploads/auto/C%3A/Users/test/file.automaticDestinations-ms");
    assert_eq!(cleaned, "Users/test/file.automaticDestinations-ms");
    let plain = MftParser::clean_jumplist_path("just-a-file.bin");
    assert_eq!(plain, "just-a-file.bin");
}

/// The dense scanner emits exactly the FILE-signed stride offsets.
#[test]
fn scanner_signature_discipline() {
    let mut data = vec![0u8; 8192];
    data[0..4].copy_from_slice(b"FILE");
    data[2048..2052].copy_from_slice(b"FILE");
    data[3072..3076].copy_from_slice(b"BAAD");
    data[5000..5004].copy_from_slice(b"FILE"); // unaligned: not a boundary
    let positions = scan_record_boundaries_simd(&data);
    assert_eq!(positions, vec![0, 2048]);
}

/// The 4-byte sweep finds FILE and BAAD signatures.
#[test]
fn test_simd_signature_detection() {
    let mut data = vec![0u8; 8192];
    data[1024..1028].copy_from_slice(b"FILE");
    data[4096..4100].copy_from_slice(b"BAAD");
    let positions = find_signatures_scalar(&data);
    assert_eq!(positions.len(), 2);
    assert!(positions.contains(&1024));
    assert!(positions.contains(&4096));
}

/// Fixup application writes the update sequence array entries over each
/// sub-sector's last two bytes and validates the sentinels.
#[test]
fn fixup_correctness() {
    let mut buf = vec![0u8; 1024];
    le16(&mut buf, 48, 0xCDAB); // update sequence number
    le16(&mut buf, 50, 0x1111); // entry for sub-sector 0
    le16(&mut buf, 52, 0x2222); // entry for sub-sector 1
    le16(&mut buf, 510, 0xCDAB);
    le16(&mut buf, 1022, 0xCDAB);
    let valid = apply_fixups_simd(&mut buf, 48, 3, 0);
    assert!(valid);
    assert_eq!(&buf[510..512], &0x1111u16.to_le_bytes());
    assert_eq!(&buf[1022..1024], &0x2222u16.to_le_bytes());

    let mut bad = vec![0u8; 1024];
    le16(&mut bad, 48, 0xCDAB);
    le16(&mut bad, 510, 0x9999); // wrong sentinel
    le16(&mut bad, 1022, 0xCDAB);
    let valid2 = apply_fixups_simd(&mut bad, 48, 3, 0);
    assert!(!valid2);
}

/// A fixed-up record decodes through the fixed bytes.
#[test]
fn fixup_feeds_decoder() {
    let mut buf = vec![0u8; 2 * 1024];
    let rec = mft_record(0x01, None, &[FnAttr {
        namespace: 1,
        name: "fixed.txt",
        parent: 5,
        logical_size: 9,
    }]);
    place(&mut buf, 0, &rec);
    // Protect the record with an update sequence array at offset 48.
    le16(&mut buf, 48, 0x55AA);
    let saved0 = u16::from_le_bytes([buf[510], buf[511]]);
    let saved1 = u16::from_le_bytes([buf[1022], buf[1023]]);
    le16(&mut buf, 50, saved0);
    le16(&mut buf, 52, saved1);
    le16(&mut buf, 510, 0x55AA);
    le16(&mut buf, 1022, 0x55AA);
    le16(&mut buf, 6, 3); // three update sequence entries
    let mut parser = MftParser::new();
    let records = parser.parse_mft_data(&buf).unwrap();
    assert_eq!(records.len(), 1);
    assert_eq!(records[0].filename.as_deref(), Some("fixed.txt"));
}

/// Unescaping undoes escaping on concrete fields.
#[test]
fn unescape_round_trip() {
    for s in ["", "plain", "a,b", "q\"q", "line\nbreak", " padded "] {
        let escaped = OutputWriter::escape_csv_field(s);
        let back = OutputWriter::unescape_csv_field(&escaped).unwrap();
        assert_eq!(back, s);
    }
}

/// The unnamed non-resident $DATA stream size is read at attribute byte 48.
#[test]
fn nonresident_data_size_at_byte_48() {
    let mut b = vec![0u8; 1024];
    b[0..4].copy_from_slice(b"FILE");
    le16(&mut b, 4, 48);
    le16(&mut b, 6, 0);
    le16(&mut b, 16, 1);
    le16(&mut b, 18, 1);
    le16(&mut b, 20, 56);
    le16(&mut b, 22, 0x01);
    let off = 56usize;
    le32(&mut b, off, 0x80);
    le32(&mut b, off + 4, 72);
    b[off + 8] = 1; // non-resident
    b[off + 9] = 0; // unnamed stream
    le64(&mut b, off + 40, 4096); // allocated size
    le64(&mut b, off + 48, 1234); // real size
    le32(&mut b, off + 72, 0xFFFFFFFF);
    let mut parser = MftParser::new();
    let recs = parser.parse_mft_data(&b).unwrap();
    assert_eq!(recs.len(), 1);
    assert_eq!(recs[0].file_size, Some(1234));
}

/// A record whose update sequence array would overflow the buffer is
/// dropped with no output.
#[test]
fn usa_overflow_record_is_dropped() {
    let good = mft_record(
        0x01,
        None,
        &[FnAttr { namespace: 1, name: "x.txt", parent: 5, logical_size: 1 }],
    );
    let mut bad = good.clone();
    le16(&mut bad, 4, 1000);
    le16(&mut bad, 6, 40); // 1000 + 80 > 1024
    let mut parser = MftParser::new();
    assert_eq!(parser.parse_mft_data(&good).unwrap().len(), 1);
    let mut parser2 = MftParser::new();
    assert_eq!(parser2.parse_mft_data(&bad).unwrap().len(), 0);
    assert_eq!(parser2.fixup_error_count(), 0);
}

/// A record whose fixup check fails is kept and counted as a soft error.
#[test]
fn failing_fixup_is_counted_not_dropped() {
    let mut rec = mft_record(
        0x01,
        None,
        &[FnAttr { namespace: 1, name: "y.txt", parent: 5, logical_size: 1 }],
    );
    le16(&mut rec, 4, 48);
    le16(&mut rec, 6, 3); // two protected sub-sectors
    le16(&mut rec, 48, 0xAAAA); // update sequence number
    le16(&mut rec, 50, 0x1111);
    le16(&mut rec, 52, 0x2222);
    le16(&mut rec, 510, 0xBBBB); // does not match the sequence number
    le16(&mut rec, 1022, 0xCCCC);
    let mut parser = MftParser::new();
    let recs = parser.parse_mft_data(&rec).unwrap();
    assert_eq!(recs.len(), 1);
    assert_eq!(parser.fixup_error_count(), 1);
}
