use disk_scanner::clock::{format_civil, readable_modified};
use disk_scanner::{checked_readable_time, human_readable_size, human_readable_time, CivilTime, Timestamp};

fn by_division(size: u64) -> String {
    if size >= 1 << 30 {
        format!("{:.2} GB", size as f64 / (1u64 << 30) as f64)
    } else if size >= 1 << 20 {
        format!("{:.2} MB", size as f64 / (1u64 << 20) as f64)
    } else if size >= 1 << 10 {
        format!("{:.2} KB", size as f64 / (1u64 << 10) as f64)
    } else {
        format!("{} B", size)
    }
}

#[test]
fn size_of_zero_is_zero_bytes() {
    assert_eq!(human_readable_size(0), "0 B");
}

#[test]
fn size_below_one_kibibyte_is_plain_bytes() {
    assert_eq!(human_readable_size(1), "1 B");
    assert_eq!(human_readable_size(9), "9 B");
    assert_eq!(human_readable_size(10), "10 B");
    assert_eq!(human_readable_size(1023), "1023 B");
}

#[test]
fn size_at_each_unit_is_one() {
    assert_eq!(human_readable_size(1024), "1.00 KB");
    assert_eq!(human_readable_size(1 << 20), "1.00 MB");
    assert_eq!(human_readable_size(1 << 30), "1.00 GB");
}

#[test]
fn size_has_two_decimals() {
    assert_eq!(human_readable_size(1536), "1.50 KB");
    assert_eq!(human_readable_size(2048), "2.00 KB");
    assert_eq!(human_readable_size(1034), "1.01 KB");
    assert_eq!(human_readable_size(5 * (1 << 20) + (1 << 19)), "5.50 MB");
    assert_eq!(human_readable_size(500 * (1u64 << 30)), "500.00 GB");
    assert_eq!(human_readable_size(1u64 << 40), "1024.00 GB");
}

#[test]
fn size_rounds_to_nearest_hundredth() {
    // 1029 / 1024 = 1.00488..., 1030 / 1024 = 1.00585...
    assert_eq!(human_readable_size(1029), "1.00 KB");
    assert_eq!(human_readable_size(1030), "1.01 KB");
    // just below the next unit the figure rounds up to 1024
    assert_eq!(human_readable_size((1 << 20) - 1), "1024.00 KB");
    assert_eq!(human_readable_size((1 << 30) - 1), "1024.00 MB");
}

#[test]
fn size_ties_go_to_the_even_hundredth() {
    // 1.125 KB and 1.375 KB lie exactly between two hundredths
    assert_eq!(human_readable_size(1152), "1.12 KB");
    assert_eq!(human_readable_size(1408), "1.38 KB");
    assert_eq!(human_readable_size(1152 << 10), "1.12 MB");
    assert_eq!(human_readable_size(1408 << 20), "1.38 GB");
}

#[test]
fn size_of_the_largest_count() {
    assert_eq!(human_readable_size(u64::MAX), "17179869184.00 GB");
}

#[test]
fn size_agrees_with_double_precision_division() {
    let mut samples: Vec<u64> = vec![0, 1, 999, 1000, 1023, 1024, 1025, 4095, 4096, 65535, 1 << 19];
    let mut x: u64 = 1;
    for _ in 0..64 {
        samples.push(x);
        samples.push(x.wrapping_sub(1));
        samples.push(x.wrapping_add(1));
        samples.push(x.wrapping_mul(3));
        samples.push(x.wrapping_mul(5).wrapping_add(7));
        x = x.wrapping_mul(2);
    }
    let mut seed: u64 = 0x9E37_79B9_7F4A_7C15;
    for _ in 0..20000 {
        seed ^= seed << 13;
        seed ^= seed >> 7;
        seed ^= seed << 17;
        samples.push(seed);
        samples.push(seed >> 11);
        samples.push(seed >> 24);
        samples.push(seed >> 40);
        samples.push(seed >> 52);
    }
    for size in samples {
        assert_eq!(human_readable_size(size), by_division(size), "size {}", size);
    }
}

#[test]
fn size_agrees_with_division_on_every_tie() {
    // multiples of 128 bytes below 1 MiB hit every exact tie in kibibytes
    let mut size: u64 = 1024;
    while size < (1 << 20) {
        assert_eq!(human_readable_size(size), by_division(size), "size {}", size);
        size += 64;
    }
}

#[test]
fn size_agrees_with_division_beyond_53_bits() {
    let base: u64 = 1 << 53;
    for shift in 0..11u32 {
        let start = base << shift;
        let step = 1u64 << shift;
        for k in 0..2000u64 {
            let size = start.wrapping_add(k * step + (step >> 1));
            assert_eq!(human_readable_size(size), by_division(size), "size {}", size);
            let size = start.wrapping_add(k * step + (step >> 1) + 1);
            assert_eq!(human_readable_size(size), by_division(size), "size {}", size);
            let size = start.wrapping_add(k.wrapping_mul(0x1_0000_0001) | 1);
            assert_eq!(human_readable_size(size), by_division(size), "size {}", size);
        }
    }
    // ties at the rounding boundary of the hundredths, moved by the loss of low bits
    let tie: u64 = (1 << 27) * 25 * 5_000_001;
    for delta in 0..5000u64 {
        for size in [tie.wrapping_add(delta), tie.wrapping_sub(delta)] {
            assert_eq!(human_readable_size(size), by_division(size), "size {}", size);
        }
    }
}

#[test]
fn time_of_a_known_instant() {
    // 2021-01-02T03:04:05Z
    let t = Timestamp { secs: 1_609_556_645, nanos: 0 };
    assert_eq!(human_readable_time(t), "02/01/2021 03:04:05");
    assert_eq!(checked_readable_time(t), Some("02/01/2021 03:04:05".to_string()));
}

#[test]
fn time_of_the_epoch() {
    let t = Timestamp { secs: 0, nanos: 0 };
    assert_eq!(human_readable_time(t), "01/01/1970 00:00:00");
}

#[test]
fn time_ignores_the_nanoseconds() {
    let t = Timestamp { secs: 1_609_556_645, nanos: 999_999_999 };
    assert_eq!(human_readable_time(t), "02/01/2021 03:04:05");
}

#[test]
fn time_before_the_epoch() {
    let t = Timestamp { secs: -1, nanos: 0 };
    assert_eq!(human_readable_time(t), "31/12/1969 23:59:59");
}

#[test]
fn time_in_a_leap_year() {
    // 2024-02-29T12:00:00Z
    let t = Timestamp { secs: 1_709_208_000, nanos: 0 };
    assert_eq!(human_readable_time(t), "29/02/2024 12:00:00");
}

#[test]
fn time_out_of_range_has_no_text() {
    assert_eq!(checked_readable_time(Timestamp { secs: i64::MAX, nanos: 0 }), None);
    assert_eq!(checked_readable_time(Timestamp { secs: i64::MIN, nanos: 0 }), None);
    assert_eq!(readable_modified(Some(Timestamp { secs: i64::MAX, nanos: 0 })), "Unknown");
}

#[test]
fn missing_time_is_unknown() {
    assert_eq!(readable_modified(None), "Unknown");
    assert_eq!(
        readable_modified(Some(Timestamp { secs: 1_609_556_645, nanos: 0 })),
        "02/01/2021 03:04:05"
    );
}

#[test]
fn civil_time_layout() {
    let c = CivilTime { year: 2021, month: 1, day: 2, hour: 3, minute: 4, second: 5 };
    assert_eq!(format_civil(&c), "02/01/2021 03:04:05");
    let c = CivilTime { year: 1999, month: 12, day: 31, hour: 23, minute: 59, second: 59 };
    assert_eq!(format_civil(&c), "31/12/1999 23:59:59");
}

#[test]
fn civil_time_years_outside_four_digits() {
    let c = CivilTime { year: 987, month: 6, day: 5, hour: 0, minute: 0, second: 0 };
    assert_eq!(format_civil(&c), "05/06/0987 00:00:00");
    let c = CivilTime { year: 0, month: 1, day: 1, hour: 0, minute: 0, second: 0 };
    assert_eq!(format_civil(&c), "01/01/0000 00:00:00");
    let c = CivilTime { year: 10000, month: 1, day: 1, hour: 0, minute: 0, second: 0 };
    assert_eq!(format_civil(&c), "01/01/+10000 00:00:00");
    let c = CivilTime { year: -1, month: 1, day: 1, hour: 0, minute: 0, second: 0 };
    assert_eq!(format_civil(&c), "01/01/-0001 00:00:00");
    let c = CivilTime { year: i32::MIN, month: 1, day: 1, hour: 0, minute: 0, second: 0 };
    assert_eq!(format_civil(&c), "01/01/-2147483648 00:00:00");
}

#[test]
fn time_agrees_with_the_calendar_crate() {
    let mut secs: i64 = -70_000_000_000;
    while secs < 400_000_000_000 {
        let expected = chrono::DateTime::from_timestamp(secs, 0)
            .map(|t| t.format("%d/%m/%Y %H:%M:%S").to_string());
        assert_eq!(checked_readable_time(Timestamp { secs, nanos: 0 }), expected, "secs {}", secs);
        secs += 86_399 * 4_001 + 7;
    }
}
