//! Per-module tests: timestamps, classification, artifact decoders,
//! formatting helpers and metrics.

use chrono::{Datelike, Timelike};
use tl::benchmark::{MemoryTracker, MftBenchmark, PerformanceMetrics, Timer};
use tl::cli::{detect_input_type, InputType};
use tl::container::{BootSector, ContainerExtractor};
use tl::datetime::{convert_filetime_secs_ticks, parse_date_filter, parse_timezone,
    timestamp_in_range, format_timestamp_full_precision, format_timestamp_human};
use tl::formatter::format_number_with_commas;
use tl::jumplist::{calculate_crc64, get_known_app_ids, get_mru_locations, JumplistParser};
use tl::live_registry::LiveRegistryAccess;
use tl::lnk_parser::{LnkParser, LNK_FILETIME_EPOCH};
use tl::ole::{OleEntryType, DIFSECT, ENDOFCHAIN, FATSECT, FREESECT};
use tl::output::OutputWriter;
use tl::property_store::{format_guid, get_type_size, make_property_key};
use tl::registry::RegistryParser;
use tl::registry_old::{get_ntuser_mru_locations, HiveType, RegistryHive, RegistryValueType};
use tl::shell_item::{ShellItem, ShellItemType};
use tl::simd_optimize::{AlignedBuffer, StringPool};
use tl::types::{TimelineEvent, TimestampSource, TimestampType};

fn ticks_to_utc(ticks: u64) -> chrono::DateTime<chrono::Utc> {
    chrono::DateTime::from_timestamp((ticks / 10_000_000) as i64, 0).unwrap()
}

#[test]
fn test_parse_timezone() {
    assert!(parse_timezone("UTC").is_ok());
    assert!(parse_timezone("UTC+8").is_ok());
    assert!(parse_timezone("UTC-5").is_ok());
    assert!(parse_timezone("UTC+0").is_ok());
    assert!(parse_timezone("Invalid/Timezone").is_err());
    assert!(parse_timezone("America/New_York").is_err());
    assert!(parse_timezone("UTC+25").is_err());
    assert!(parse_timezone("UTC-10").is_ok());
    assert!(parse_timezone("UTC-9").is_err());
}

#[test]
fn test_parse_date_filter() {
    let result = parse_date_filter("2023-12-25");
    assert!(result.is_ok());
    let dt = ticks_to_utc(result.unwrap());
    assert_eq!(dt.format("%Y-%m-%d %H:%M:%S").to_string(), "2023-12-25 00:00:00");

    let result = parse_date_filter("2023-12-25 15:30:45");
    assert!(result.is_ok());
    let dt = ticks_to_utc(result.unwrap());
    assert_eq!(dt.format("%Y-%m-%d %H:%M:%S").to_string(), "2023-12-25 15:30:45");

    assert!(parse_date_filter("invalid-date").is_err());
    assert!(parse_date_filter("2023/12/25").is_err());
}

#[test]
fn test_timestamp_in_range() {
    let ts = Some(parse_date_filter("2023-12-25 12:00:00").unwrap());
    let after = Some(parse_date_filter("2023-12-20").unwrap());
    let before = Some(parse_date_filter("2023-12-30").unwrap());
    assert!(timestamp_in_range(&ts, &after, &before));
    let early_after = Some(parse_date_filter("2023-12-26").unwrap());
    assert!(!timestamp_in_range(&ts, &early_after, &before));
}

#[test]
fn test_format_timestamp_full_precision() {
    // 2023-12-25 12:30:45.123456700 UTC, on the 100 ns tick scale.
    let ticks = parse_date_filter("2023-12-25 12:30:45").unwrap() + 1234567;
    let formatted = format_timestamp_full_precision(ticks, 0);
    assert!(formatted.contains("2023-12-25 12:30:45.123456700"));
    assert!(formatted.contains("UTC   "));
}

#[test]
fn test_format_timestamp_zero_nanoseconds() {
    let ticks = parse_date_filter("2023-12-25 12:30:45").unwrap();
    let formatted = format_timestamp_full_precision(ticks, 0);
    assert!(formatted.contains("2023-12-25 12:30:45.000000000"));
    assert!(formatted.contains("UTC   "));
    let ny = format_timestamp_human(ticks, -5 * 3600);
    assert!(ny.contains(".000000000"));
    assert!(ny.contains("UTC-5 "));
}

#[test]
fn test_format_matches_new_reference() {
    // 2024-04-01 08:43:34.364272500 UTC viewed at UTC+8.
    let ticks = parse_date_filter("2024-04-01 08:43:34").unwrap() + 3642725;
    let formatted = format_timestamp_human(ticks, 8 * 3600);
    assert!(formatted.contains("Mon"));
    assert!(formatted.contains("16:43:34.364272500"));
    assert!(formatted.contains("UTC+8 "));
}

#[test]
fn test_utc_offset_formatting() {
    let ticks = parse_date_filter("2024-01-01 12:00:00").unwrap();
    let utc = format_timestamp_full_precision(ticks, 0);
    assert!(utc.ends_with("UTC   "));
    let hk = format_timestamp_full_precision(ticks, 8 * 3600);
    assert!(hk.ends_with("UTC+8 "));
    let hawaii = format_timestamp_full_precision(ticks, -10 * 3600);
    assert!(hawaii.ends_with("UTC-10"));
}

#[test]
fn test_utc_offset_parsing() {
    assert!(parse_timezone("UTC+8").is_ok());
    assert!(parse_timezone("UTC-5").is_ok());
    assert!(parse_timezone("UTC").is_ok());
    assert!(parse_timezone("UTC+0").is_ok());
    let hk = parse_timezone("UTC+8").unwrap();
    let ticks = parse_date_filter("2024-01-01 12:00:00").unwrap();
    let formatted = format_timestamp_full_precision(ticks, hk * 3600);
    assert!(formatted.contains("20:00:00"));
    assert!(formatted.ends_with("UTC+8 "));
}

#[test]
fn jumplist_test_filetime_conversion() {
    // 2020-01-01 00:00:00 UTC as a FILETIME.
    let filetime = 132470073600000000u64;
    assert!(convert_filetime_secs_ticks(filetime).is_some());
    assert!(convert_filetime_secs_ticks(0).is_none());
}

#[test]
fn test_app_ids() {
    let app_ids = get_known_app_ids();
    assert!(app_ids.contains_key("39CE6EDE51235EDE"));
    assert_eq!(app_ids["39CE6EDE51235EDE"], "Notepad++");
}

#[test]
fn test_mru_locations() {
    let locations = get_mru_locations();
    assert!(locations
        .contains(&"Software\\Microsoft\\Windows\\CurrentVersion\\Explorer\\RecentDocs"));
    assert!(locations.len() > 10);
}

#[test]
fn test_lnk_parser_creation() {
    let parser = LnkParser::new();
    assert_eq!(parser.filetime_epoch_diff, 116444736000000000);
    assert_eq!(LNK_FILETIME_EPOCH, 116444736000000000);
}

#[test]
fn lnk_parser_test_filetime_conversion() {
    let parser = LnkParser::new();
    assert!(parser.filetime_to_datetime(0).is_none());
    // January 1, 2000 00:00:00 UTC.
    let filetime = 125911584000000000u64;
    if let Some(ticks) = parser.filetime_to_datetime(filetime) {
        let dt = ticks_to_utc(ticks);
        assert_eq!(dt.year(), 2000);
        assert_eq!(dt.month(), 1);
        assert_eq!(dt.day(), 1);
    }
}

#[test]
fn test_invalid_lnk_data() {
    let parser = LnkParser::new();
    assert!(parser.parse_lnk_data(&[]).is_err());
    let small_data = vec![0u8; 50];
    assert!(parser.parse_lnk_data(&small_data).is_err());
}

#[test]
fn test_ole_entry_type_conversion() {
    assert_eq!(OleEntryType::from(1), OleEntryType::Storage);
    assert_eq!(OleEntryType::from(2), OleEntryType::Stream);
    assert_eq!(OleEntryType::from(5), OleEntryType::Root);
    assert_eq!(OleEntryType::from(99), OleEntryType::Empty);
}

#[test]
fn test_special_sector_values() {
    assert_eq!(FREESECT, 0xFFFFFFFF);
    assert_eq!(ENDOFCHAIN, 0xFFFFFFFE);
    assert_eq!(FATSECT, 0xFFFFFFFD);
    assert_eq!(DIFSECT, 0xFFFFFFFC);
}

#[test]
fn test_registry_parser_creation() {
    let parser = RegistryParser::new();
    assert_eq!(parser.filetime_epoch_diff, 116444736000000000);
}

#[test]
fn registry_test_filetime_conversion() {
    let parser = RegistryParser::new();
    assert!(parser.filetime_to_datetime(0).is_none());
    let filetime = 125911584000000000u64;
    if let Some(ticks) = parser.filetime_to_datetime(filetime) {
        assert_eq!(ticks_to_utc(ticks).year(), 2000);
    }
}

#[test]
fn test_invalid_registry_data() {
    let parser = RegistryParser::new();
    assert!(parser.parse_registry_data(&[], "test.dat").is_err());
    let small_data = vec![0u8; 10];
    assert!(parser.parse_registry_data(&small_data, "test.dat").is_err());
}

#[test]
fn test_registry_value_type_conversion() {
    assert!(matches!(RegistryValueType::from(1), RegistryValueType::RegSz));
    assert!(matches!(RegistryValueType::from(3), RegistryValueType::Binary));
    assert!(matches!(RegistryValueType::from(999), RegistryValueType::Unrecognised(999)));
}

#[test]
fn test_hive_type_detection() {
    assert!(matches!(
        RegistryHive::determine_hive_type("C:\\Users\\user\\NTUSER.DAT"),
        HiveType::NtUser
    ));
    assert!(matches!(
        RegistryHive::determine_hive_type("C:\\Windows\\System32\\config\\SYSTEM"),
        HiveType::System
    ));
}

#[test]
fn test_dos_datetime_conversion() {
    // January 1, 2000, 12:30:45 (two-second resolution keeps 44).
    let dos_date = ((2000 - 1980) << 9) | (1 << 5) | 1;
    let dos_time = (12 << 11) | (30 << 5) | (45 / 2);
    let secs = ShellItem::dos_datetime_to_utc(dos_date as u16, dos_time as u16);
    assert!(secs.is_some());
    let dt = chrono::DateTime::from_timestamp(secs.unwrap() as i64, 0).unwrap();
    assert_eq!(dt.year(), 2000);
    assert_eq!(dt.month(), 1);
    assert_eq!(dt.day(), 1);
    assert_eq!(dt.hour(), 12);
    assert_eq!(dt.minute(), 30);
    assert_eq!(dt.second(), 44);
}

#[test]
fn test_shell_item_type_detection() {
    assert!(matches!(ShellItemType::from_type_indicator(0x1F), ShellItemType::RootFolder));
    assert!(matches!(ShellItemType::from_type_indicator(0x2F), ShellItemType::Volume));
    assert!(matches!(ShellItemType::from_type_indicator(0x32), ShellItemType::File));
    assert!(matches!(ShellItemType::from_type_indicator(0x99), ShellItemType::Unknown(0x99)));
}

#[test]
fn test_format_guid() {
    let guid: [u8; 16] = [
        0x30, 0xF1, 0x25, 0xB7, 0xEF, 0x47, 0x1A, 0x10, 0xA5, 0xF1, 0x02, 0x60, 0x8C, 0x9E,
        0xEB, 0xAC,
    ];
    assert_eq!(format_guid(&guid), "B725F130-47EF-101A-A5F1-02608C9EEBAC");
}

#[test]
fn test_property_key_generation() {
    let guid: [u8; 16] = [
        0x30, 0xF1, 0x25, 0xB7, 0xEF, 0x47, 0x1A, 0x10, 0xA5, 0xF1, 0x02, 0x60, 0x8C, 0x9E,
        0xEB, 0xAC,
    ];
    assert_eq!(make_property_key(&guid, 10), "B725F130-47EF-101A-A5F1-02608C9EEBAC\\10");
}

#[test]
fn test_type_sizes() {
    assert_eq!(get_type_size(2), 2); // two-byte integer
    assert_eq!(get_type_size(3), 4); // four-byte integer
    assert_eq!(get_type_size(64), 8); // FILETIME
    assert_eq!(get_type_size(72), 16); // class identifier
}

#[test]
fn test_unicode_string_parsing() {
    let data = b"H\x00e\x00l\x00l\x00o\x00";
    let s = LiveRegistryAccess::parse_unicode_string(data);
    assert_eq!(s.as_deref(), Some("Hello"));
}

#[test]
fn test_ansi_string_parsing() {
    let data = b"Hello\x00";
    let s = LiveRegistryAccess::parse_ansi_string(data);
    assert_eq!(s.as_deref(), Some("Hello"));
}

#[test]
fn test_metrics() {
    let mut metrics = PerformanceMetrics::new();
    metrics.record_timing("test", 100_000_000);
    metrics.record_timing("test", 200_000_000);
    let avg = metrics.avg_timing("test").unwrap();
    assert_eq!(avg, 150_000_000);
}

#[test]
fn test_memory_tracker() {
    let tracker = MemoryTracker::new(1000);
    assert_eq!(tracker.current_usage(1500), 1500);
    assert_eq!(tracker.delta(1500), 500);
    assert_eq!(tracker.delta(400), -600);
}

#[test]
fn test_timer() {
    let mut metrics = PerformanceMetrics::new();
    let timer = Timer::new("test_operation", 0);
    assert_eq!(timer.elapsed(10_000_000), 10_000_000);
    let elapsed = timer.stop(10_000_000, &mut metrics);
    assert!(elapsed >= 10_000_000);
    let _ = MftBenchmark::new();
}

#[test]
fn test_aligned_buffer() {
    let mut buffer = AlignedBuffer::new(1024, 32);
    assert!(buffer.is_aligned());
    assert_eq!(buffer.as_slice().len(), 1024);
    buffer.as_mut_slice()[0] = 0xFF;
    assert_eq!(buffer.as_slice()[0], 0xFF);
}

#[test]
fn input_classification() {
    assert_eq!(detect_input_type("evidence.zip").unwrap(), InputType::ZipContainer);
    assert_eq!(detect_input_type("disk.dd").unwrap(), InputType::RawContainer);
    assert_eq!(detect_input_type("image.e01").unwrap(), InputType::E01Container);
    assert_eq!(detect_input_type("mft.bin").unwrap(), InputType::Mft);
    assert_eq!(detect_input_type("link.lnk").unwrap(), InputType::Lnk);
    assert_eq!(detect_input_type("NTUSER.DAT").unwrap(), InputType::Registry);
    assert_eq!(detect_input_type("C:").unwrap(), InputType::LiveSystem);
    assert_eq!(
        detect_input_type("1b4dd67f29cb1962.automaticDestinations-ms").unwrap(),
        InputType::AutomaticDestinations
    );
    assert!(detect_input_type("strange.ms").is_err());
    assert!(tl::container::is_container_format("evidence.zip"));
    assert!(!tl::container::is_container_format("plain.mft"));
}

#[test]
fn drive_letter_parsing() {
    assert_eq!(tl::parse_drive_letter("c:"), Some('C'));
    assert_eq!(tl::parse_drive_letter("D:"), Some('D'));
    assert_eq!(tl::parse_drive_letter("DD:"), None);
    assert_eq!(tl::parse_drive_letter("c"), None);
}

#[test]
fn boot_sector_and_raw_image() {
    // A raw image: boot sector naming an MFT at cluster 1 with 512-byte
    // sectors, one sector per cluster.
    let mut image = vec![0u8; 4096];
    image[3..11].copy_from_slice(b"NTFS    ");
    image[11..13].copy_from_slice(&512u16.to_le_bytes());
    image[13] = 1;
    image[48..56].copy_from_slice(&1u64.to_le_bytes());
    image[512..516].copy_from_slice(b"FILE");
    let bs = BootSector::parse(&image).unwrap();
    assert_eq!(bs.bytes_per_sector, 512);
    assert_eq!(bs.sectors_per_cluster, 1);
    assert_eq!(bs.mft_cluster_number, 1);
    let mft = ContainerExtractor::extract_from_raw(&image).unwrap();
    assert_eq!(&mft[0..4], b"FILE");
    assert_eq!(mft.len(), 4096 - 512);
    // A non-NTFS image is rejected.
    let junk = vec![0u8; 4096];
    assert!(ContainerExtractor::extract_from_raw(&junk).is_err());
}

#[test]
fn mft_signature_heuristic() {
    let mut ok = vec![0u8; 1024];
    ok[0..4].copy_from_slice(b"FILE");
    assert!(ContainerExtractor::validate_mft_signature(&ok));
    let mut shifted = vec![0u8; 4096];
    shifted[2048..2052].copy_from_slice(b"FILE");
    assert!(ContainerExtractor::validate_mft_signature(&shifted));
    let mut sparse = vec![0u8; 8192];
    for idx in [4, 5, 6] {
        sparse[idx * 1024..idx * 1024 + 4].copy_from_slice(b"FILE");
    }
    assert!(ContainerExtractor::validate_mft_signature(&sparse));
    assert!(!ContainerExtractor::validate_mft_signature(&vec![0u8; 8192]));
    assert!(!ContainerExtractor::validate_mft_signature(&vec![0u8; 100]));
}

#[test]
fn crc64_of_known_inputs() {
    // The empty input folds the all-ones register to zero.
    assert_eq!(calculate_crc64(b""), 0);
    // Stability over a fixed input.
    assert_eq!(calculate_crc64(b"abc"), calculate_crc64(b"abc"));
    assert_ne!(calculate_crc64(b"abc"), calculate_crc64(b"abd"));
}

#[test]
fn comma_grouping() {
    assert_eq!(format_number_with_commas(0), "0");
    assert_eq!(format_number_with_commas(999), "999");
    assert_eq!(format_number_with_commas(1000), "1,000");
    assert_eq!(format_number_with_commas(1234567), "1,234,567");
}

#[test]
fn ntuser_mru_locations() {
    let locations = get_ntuser_mru_locations();
    assert_eq!(locations.len(), 20);
    assert!(locations
        .contains(&"Software\\Microsoft\\Windows\\CurrentVersion\\Explorer\\RecentDocs"));
}

#[test]
fn custom_destinations_placeholder() {
    let parser = JumplistParser::new();
    let entries = parser.parse_custom_destinations(&vec![7u8; 64]).unwrap();
    assert_eq!(entries.len(), 1);
    assert_eq!(
        entries[0].target_path.as_deref(),
        Some("Custom Destinations (unknown format)")
    );
}

#[test]
fn csv_field_errors_and_escapes() {
    assert_eq!(OutputWriter::escape_csv_field("simple.txt"), "\"simple.txt\"");
    assert_eq!(OutputWriter::unescape_csv_field("no quotes"), None);
}

#[test]
fn test_csv_escaping() {
    assert_eq!(OutputWriter::escape_csv_field("simple.txt"), "\"simple.txt\"");
    assert_eq!(
        OutputWriter::escape_csv_field("file,with,commas.txt"),
        "\"file,with,commas.txt\""
    );
    assert_eq!(
        OutputWriter::escape_csv_field("file\"with\"quotes.txt"),
        "\"file\"\"with\"\"quotes.txt\""
    );
    assert_eq!(
        OutputWriter::escape_csv_field("file\nwith\nnewlines.txt"),
        "\"file\nwith\nnewlines.txt\""
    );
    assert_eq!(OutputWriter::escape_csv_field(" spaced file.txt "), "\" spaced file.txt \"");
    assert_eq!(
        OutputWriter::escape_csv_field("complex,file\"name\nwith\rspecial.txt"),
        "\"complex,file\"\"name\nwith\rspecial.txt\""
    );
    assert_eq!(
        OutputWriter::escape_csv_field("C:\\Users\\Test\\file.txt"),
        "\"C:\\Users\\Test\\file.txt\""
    );
    assert_eq!(
        OutputWriter::escape_csv_field("[Orphaned]...\\(Record#105710)\\Extensions\\test.txt"),
        "\"[Orphaned]...\\(Record#105710)\\Extensions\\test.txt\""
    );
}

#[test]
fn filetime_round_trip_seconds() {
    // A FILETIME lying s whole seconds past the epoch converts to s.
    for s in [0u64, 1, 42, 1_700_000_000] {
        let ft = 116444736000000000u64 + s * 10_000_000;
        assert_eq!(tl::datetime::convert_filetime_secs(ft), Some(s));
    }
    assert_eq!(tl::datetime::convert_filetime(116444736000000000), None);
}

#[test]
fn test_string_pool() {
    let mut pool = StringPool::new();
    let str1 = pool.intern(b"test.txt");
    let str2 = pool.intern(b"test.txt");
    assert_eq!(str1, str2);
    assert_eq!(str1.as_str(), "test.txt");
}

#[test]
fn utf16_intern_drops_odd_buffers() {
    let mut pool = StringPool::new();
    assert_eq!(pool.intern_utf16(&[0x41, 0x00, 0x42]), "");
    assert_eq!(pool.intern_utf16(&[0x41, 0x00]), "A");
}

#[test]
fn aligned_buffer_zero_initialised() {
    let buffer = AlignedBuffer::new(64, 16);
    assert!(buffer.as_slice().iter().all(|&b| b == 0));
}

#[test]
fn bare_hive_names_route_to_registry() {
    assert_eq!(detect_input_type("SYSTEM").unwrap(), InputType::Registry);
    assert_eq!(detect_input_type("SOFTWARE").unwrap(), InputType::Registry);
    assert_eq!(detect_input_type("somefile").unwrap(), InputType::Mft);
}

#[test]
fn e01_reports_unsupported() {
    let data = vec![0u8; 16];
    let err = ContainerExtractor::extract_mft_data(&data, "image.e01", None).unwrap_err();
    assert_eq!(err.category(), "Unsupported");
}

#[test]
fn known_app_pairs_match_map() {
    let pairs = tl::jumplist::known_app_id_pairs();
    assert_eq!(pairs.len(), 43);
    let map = get_known_app_ids();
    for (k, v) in &pairs {
        assert_eq!(map.get(k.as_str()).map(|s| s.as_str()), Some(v.as_str()));
    }
}

#[test]
fn non_mft_rows_carry_no_provenance() {
    let e = TimelineEvent {
        filename: "key".to_string(),
        timestamp: 0,
        timestamp_type: TimestampType::Created,
        timestamp_source: TimestampSource::StandardInformation,
        mft_record_number: 0,
        location: "key".to_string(),
        file_size: Some(1),
        is_directory: false,
        event_source: Some("Registry".to_string()),
    };
    let row = OutputWriter::format_timeline_row(&e, 0);
    assert!(row.contains("Registry key created"));
    assert!(!row.contains("$STANDARD_INFORMATION"));
}
