use file_manager::formatting::{format_size, format_time, format_time_ago};
use file_manager::text::{u64_to_decimal, u64_to_padded_decimal};

#[test]
fn decimal_rendering() {
    assert_eq!(u64_to_decimal(0), "0");
    assert_eq!(u64_to_decimal(7), "7");
    assert_eq!(u64_to_decimal(1234567890), "1234567890");
    assert_eq!(u64_to_decimal(u64::MAX), "18446744073709551615");
}

#[test]
fn padded_decimal_rendering() {
    assert_eq!(u64_to_padded_decimal(3, 2), "03");
    assert_eq!(u64_to_padded_decimal(1970, 4), "1970");
    assert_eq!(u64_to_padded_decimal(12345, 4), "12345");
    assert_eq!(u64_to_padded_decimal(0, 2), "00");
}

#[test]
fn sizes_carry_one_decimal_and_a_unit() {
    assert_eq!(format_size(0), "0 B");
    assert_eq!(format_size(1), "1.0 B");
    assert_eq!(format_size(512), "512.0 B");
    assert_eq!(format_size(1024), "1.0 KB");
    assert_eq!(format_size(1536), "1.5 KB");
    assert_eq!(format_size(1048576), "1.0 MB");
    assert_eq!(format_size(1073741824), "1.0 GB");
    assert_eq!(format_size(1099511627776), "1.0 TB");
}

#[test]
fn sizes_round_half_up() {
    // 1535 B = 1.4990 KiB, shown to one decimal as 1.5 KB.
    assert_eq!(format_size(1535), "1.5 KB");
    // 1126 B = 1.0996 KiB, shown as 1.1 KB.
    assert_eq!(format_size(1126), "1.1 KB");
    // 1075 B = 1.0498 KiB, shown as 1.0 KB.
    assert_eq!(format_size(1075), "1.0 KB");
}

#[test]
fn very_large_sizes_stay_in_tb() {
    // 5 TiB renders in TB, not some larger unit.
    assert_eq!(format_size(5 * 1099511627776), "5.0 TB");
}

#[test]
fn epoch_renders_as_its_calendar_start() {
    assert_eq!(format_time(0), "1970.01.01 00:00");
}

#[test]
fn times_use_flat_years_and_months() {
    // One day, one hour and one minute into 1970.
    assert_eq!(format_time(86400 + 3600 + 60), "1970.01.02 01:01");
    // 400 days: one 365-day year; 35 remaining days give month 2, and
    // 400 mod 30 gives day 11.
    assert_eq!(format_time(400 * 86400), "1971.02.11 00:00");
}

#[test]
fn time_ago_picks_the_largest_unit() {
    assert_eq!(format_time_ago(0), "Just now");
    assert_eq!(format_time_ago(59), "Just now");
    assert_eq!(format_time_ago(120), "2m ago");
    assert_eq!(format_time_ago(7200), "2h 0m ago");
    assert_eq!(format_time_ago(86400 + 3600), "1d 1h ago");
    assert_eq!(format_time_ago(2 * 31536000 + 3 * 86400), "2y 3d ago");
}
