use rusty_backup::formatter::Formatter;
use rusty_backup::text::{format_i64, format_padded, format_u128};

#[test]
fn formats_plain_numbers() {
    assert_eq!(format_u128(0), "0");
    assert_eq!(format_u128(7), "7");
    assert_eq!(format_u128(1234567890123456789), "1234567890123456789");
}

#[test]
fn formats_signed_numbers() {
    assert_eq!(format_i64(42), "42");
    assert_eq!(format_i64(-42), "-42");
    assert_eq!(format_i64(i64::MIN), "-9223372036854775808");
}

#[test]
fn pads_numbers_to_width() {
    assert_eq!(format_padded(7, 4), "0007");
    assert_eq!(format_padded(123, 2), "123");
    assert_eq!(format_padded(0, 2), "00");
}

#[test]
fn formats_small_sizes_in_bytes() {
    assert_eq!(Formatter::format_size(0, 2), "0.00 B");
    assert_eq!(Formatter::format_size(512, 2), "512.00 B");
    // Exactly one kilobyte still counts as bytes; only more moves on.
    assert_eq!(Formatter::format_size(1024, 2), "1024.00 B");
    assert_eq!(Formatter::format_size(1025, 2), "1.00 KB");
}

#[test]
fn formats_larger_sizes_with_fraction() {
    assert_eq!(Formatter::format_size(1536, 2), "1.50 KB");
    assert_eq!(Formatter::format_size(2048, 2), "2.00 KB");
    assert_eq!(Formatter::format_size(3 * 1024 * 1024, 1), "3.0 MB");
    assert_eq!(Formatter::format_size(5 * 1024 * 1024 * 1024, 0), "5 GB");
    assert_eq!(Formatter::format_size(2 * 1024 * 1024 * 1024 * 1024 + 1, 2), "2.00 TB");
}

#[test]
fn rounds_half_up_at_zero_precision() {
    // One and a half kilobytes rounds up to two whole kilobytes.
    assert_eq!(Formatter::format_size(1536, 0), "2 KB");
}
