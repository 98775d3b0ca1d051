use witness_compare::text::format_bytes;
use witness_compare::text::u64_to_dec_string;

#[test]
fn decimal_rendering_small_and_large() {
    assert_eq!(u64_to_dec_string(0), "0");
    assert_eq!(u64_to_dec_string(7), "7");
    assert_eq!(u64_to_dec_string(10), "10");
    assert_eq!(u64_to_dec_string(5_000), "5000");
    assert_eq!(u64_to_dec_string(1_234_567_890), "1234567890");
}

#[test]
fn plain_byte_counts_below_one_kb() {
    assert_eq!(format_bytes(0), "0 bytes");
    assert_eq!(format_bytes(200), "200 bytes");
    assert_eq!(format_bytes(999), "999 bytes");
}

#[test]
fn kilobyte_range_scales_to_one_decimal() {
    assert_eq!(format_bytes(1_000), "1.0 KB");
    assert_eq!(format_bytes(3_000), "3.0 KB");
    assert_eq!(format_bytes(10_600), "10.6 KB");
    assert_eq!(format_bytes(180_200), "180.2 KB");
    assert_eq!(format_bytes(300_000), "300.0 KB");
}

#[test]
fn kilobyte_range_rounds_to_nearest_tenth() {
    assert_eq!(format_bytes(10_649), "10.6 KB");
    assert_eq!(format_bytes(10_651), "10.7 KB");
    assert_eq!(format_bytes(999_999), "1000.0 KB");
}

#[test]
fn megabyte_range_scales_to_one_decimal() {
    assert_eq!(format_bytes(1_000_000), "1.0 MB");
    assert_eq!(format_bytes(15_000_000), "15.0 MB");
    assert_eq!(format_bytes(1_240_000), "1.2 MB");
    assert_eq!(format_bytes(1_250_000), "1.3 MB");
    assert_eq!(format_bytes(1_260_000), "1.3 MB");
}
