use doctainr::size::format_size;

fn by_division(size: i64) -> String {
    const KB: i64 = 1024;
    const MB: i64 = KB * 1024;
    const GB: i64 = MB * 1024;
    if size >= GB {
        format!("{:.1}GB", size as f64 / GB as f64)
    } else if size >= MB {
        format!("{:.1}MB", size as f64 / MB as f64)
    } else if size >= KB {
        format!("{:.1}KB", size as f64 / KB as f64)
    } else {
        format!("{}B", size)
    }
}

#[test]
fn test_format_size() {
    assert_eq!(format_size(100), "100B");
    assert_eq!(format_size(1024), "1.0KB");
    assert_eq!(format_size(1048576), "1.0MB");
    assert_eq!(format_size(1073741824), "1.0GB");
}

#[test]
fn zero_bytes_is_plain() {
    assert_eq!(format_size(0), "0B");
}

#[test]
fn below_a_kilobyte_stays_in_bytes() {
    assert_eq!(format_size(1), "1B");
    assert_eq!(format_size(9), "9B");
    assert_eq!(format_size(10), "10B");
    assert_eq!(format_size(1023), "1023B");
}

#[test]
fn negative_counts_stay_in_bytes() {
    assert_eq!(format_size(-1), "-1B");
    assert_eq!(format_size(-5000), "-5000B");
    assert_eq!(format_size(i64::MIN), "-9223372036854775808B");
}

#[test]
fn one_decimal_is_rounded_to_nearest() {
    assert_eq!(format_size(1536), "1.5KB");
    assert_eq!(format_size(1100), "1.1KB");
    assert_eq!(format_size(1126), "1.1KB");
    assert_eq!(format_size(1127), "1.1KB");
    assert_eq!(format_size(1178), "1.2KB");
    assert_eq!(format_size(5 * 1_048_576 + 524_288), "5.5MB");
    assert_eq!(format_size(3 * 1_073_741_824 + 966_367_642), "3.9GB");
}

#[test]
fn ties_go_to_the_even_tenth() {
    // 1280 / 1024 = 1.25 and 1792 / 1024 = 1.75, both exactly.
    assert_eq!(format_size(1280), "1.2KB");
    assert_eq!(format_size(1792), "1.8KB");
    assert_eq!(format_size(1280 * 1024), "1.2MB");
    assert_eq!(format_size(1792 * 1024 * 1024), "1.8GB");
}

#[test]
fn rounding_can_reach_the_next_unit() {
    assert_eq!(format_size(1_048_575), "1024.0KB");
    assert_eq!(format_size(1_073_741_823), "1024.0MB");
}

#[test]
fn largest_count() {
    assert_eq!(format_size(i64::MAX), "8589934592.0GB");
}

#[test]
fn agrees_with_division_around_unit_borders() {
    let borders: [i64; 6] = [1024, 1_048_576, 1_073_741_824, 1 << 40, 1 << 53, 1 << 62];
    for border in borders {
        for offset in -3000i64..3000 {
            let size = border + offset;
            assert_eq!(format_size(size), by_division(size), "size {}", size);
        }
    }
}

#[test]
fn agrees_with_division_on_a_sweep() {
    let mut size: i64 = 1;
    let mut step: i64 = 1;
    while size < i64::MAX / 3 {
        assert_eq!(format_size(size), by_division(size), "size {}", size);
        assert_eq!(format_size(size + 1), by_division(size + 1), "size {}", size + 1);
        assert_eq!(format_size(size - 1), by_division(size - 1), "size {}", size - 1);
        size += step;
        step += step / 7 + 1;
    }
}

#[test]
fn agrees_with_division_on_every_small_count() {
    for size in -2000i64..300_000 {
        assert_eq!(format_size(size), by_division(size), "size {}", size);
    }
}

#[test]
fn agrees_with_division_beyond_the_significand() {
    let top: i64 = i64::MAX;
    for offset in 0i64..5000 {
        assert_eq!(format_size(top - offset), by_division(top - offset));
        let size = (1i64 << 53) + offset * 1_234_567_891;
        assert_eq!(format_size(size), by_division(size), "size {}", size);
        let tie = (1i64 << 60) + offset * 128;
        assert_eq!(format_size(tie), by_division(tie), "size {}", tie);
    }
}

#[test]
fn agrees_with_division_where_both_roundings_meet() {
    // Counts next to the middle between two tenths of a gigabyte, high
    // enough that the count itself is rounded first.
    const GB: i128 = 1 << 30;
    let mut k: i128 = (1 << 53) * 10 / GB;
    while (2 * k + 1) * GB / 20 < i64::MAX as i128 - 3000 {
        let middle = ((2 * k + 1) * GB / 20) as i64;
        for offset in -1100i64..1100 {
            let size = middle + offset;
            assert_eq!(format_size(size), by_division(size), "size {}", size);
        }
        k += k / 9 + 1;
    }
}

#[test]
fn a_count_above_the_significand_is_rounded_before_it_is_scaled() {
    // Scaled directly, these counts would show the tenth next to the one
    // that they show after the count is taken to 53 significant bits.
    assert_eq!(format_size(9_007_199_308_428_083), "8388608.1GB");
    assert_eq!(format_size(16_948_635_070_418_125), "15784646.4GB");
    assert_eq!(format_size(20_924_240_946_318_541), "19487217.9GB");
}
