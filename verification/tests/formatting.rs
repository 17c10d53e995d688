use smart_stock_insider::sizefmt::{format_file_size, file_size_unit, u64_to_string, FileSizeUnit};
use smart_stock_insider::url::is_valid_url;

#[test]
fn test_format_file_size() {
    assert_eq!(format_file_size(512), "512 B");
    assert_eq!(format_file_size(1024), "1.00 KB");
    assert_eq!(format_file_size(1536), "1.50 KB");
    assert_eq!(format_file_size(1048576), "1.00 MB");
}

#[test]
fn test_is_valid_url() {
    assert!(is_valid_url("https://example.com"));
    assert!(is_valid_url("http://localhost:8000"));
    assert!(!is_valid_url("ftp://example.com"));
    assert!(!is_valid_url("example.com"));
}

#[test]
fn format_file_size_unit_boundaries() {
    assert_eq!(format_file_size(0), "0 B");
    assert_eq!(format_file_size(1023), "1023 B");
    assert_eq!(format_file_size(1073741824), "1.00 GB");
    assert_eq!(format_file_size(1099511627776), "1.00 TB");
}

#[test]
fn format_file_size_never_passes_tb() {
    assert_eq!(format_file_size(1125899906842624), "1024.00 TB");
    assert_eq!(format_file_size(u64::MAX), "16777216.00 TB");
}

#[test]
fn format_file_size_rounds_to_two_decimals() {
    assert_eq!(format_file_size(1124), "1.10 KB");
    assert_eq!(format_file_size(1048575), "1024.00 KB");
    assert_eq!(format_file_size(1587), "1.55 KB");
}

#[test]
fn file_size_unit_matches_ladder() {
    assert_eq!(file_size_unit(512), FileSizeUnit::B);
    assert_eq!(file_size_unit(1024), FileSizeUnit::KB);
    assert_eq!(file_size_unit(1048576), FileSizeUnit::MB);
    assert_eq!(file_size_unit(1073741824), FileSizeUnit::GB);
    assert_eq!(file_size_unit(1099511627776), FileSizeUnit::TB);
    assert_eq!(file_size_unit(u64::MAX), FileSizeUnit::TB);
}

#[test]
fn u64_to_string_renders_decimal() {
    assert_eq!(u64_to_string(0), "0");
    assert_eq!(u64_to_string(10), "10");
    assert_eq!(u64_to_string(18446744073709551615), "18446744073709551615");
}

#[test]
fn is_valid_url_checks_only_the_scheme_prefix() {
    assert!(is_valid_url("http://"));
    assert!(is_valid_url("https://"));
    assert!(!is_valid_url(""));
    assert!(!is_valid_url("HTTP://example.com"));
    assert!(!is_valid_url("htt"));
}
