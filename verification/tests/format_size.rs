use slashsum::size::format_size;

#[test]
fn test_format_size() {
    // Test various size conversions
    assert_eq!(format_size(1_048_576), "1 MB (1048576 bytes)");
    assert_eq!(format_size(1_073_741_824), "1 GB (1073741824 bytes)");
    assert_eq!(format_size(3_145_728), "3 MB (3145728 bytes)");
}

#[test]
fn test_format_size_bytes_no_parenthetical() {
    assert_eq!(format_size(0), "0 bytes");
    assert_eq!(format_size(1), "1 bytes");
    assert_eq!(format_size(1023), "1023 bytes");
}

#[test]
fn test_format_size_fractional_kb() {
    assert_eq!(format_size(1536), "1.50 KB (1536 bytes)");
    assert_eq!(format_size(1024), "1 KB (1024 bytes)");
    assert_eq!(format_size(1025), "1.00 KB (1025 bytes)");
}

#[test]
fn test_format_size_two_decimal_rounding() {
    // 2047 / 1024 = 1.9990234375, shown with two decimals
    assert_eq!(format_size(2047), "2.00 KB (2047 bytes)");
    // 1152 / 1024 = 1.125: the tie rounds to the even hundredth
    assert_eq!(format_size(1152), "1.12 KB (1152 bytes)");
    // 1664 / 1024 = 1.625: this tie also lands on the even hundredth
    assert_eq!(format_size(1664), "1.62 KB (1664 bytes)");
}

#[test]
fn test_format_size_terabytes_and_beyond() {
    assert_eq!(format_size(1_099_511_627_776), "1 TB (1099511627776 bytes)");
    // No unit above TB: the scaled number simply grows
    assert_eq!(
        format_size(u64::MAX),
        "16777216 TB (18446744073709551615 bytes)"
    );
}

#[test]
fn test_format_size_53_bit_rounding() {
    // 2^53 + 1 is not representable in a double; it lands on 2^53 exactly,
    // which is a whole number of terabytes
    assert_eq!(
        format_size(9_007_199_254_740_993),
        "8192 TB (9007199254740993 bytes)"
    );
}
