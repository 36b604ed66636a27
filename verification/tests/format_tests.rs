use gh_export::format::{format_bytes, format_duration, MAX_DURATION_SECONDS};

/// The same size rendered with floating point arithmetic.
fn with_floats(bytes: u64) -> String {
    let units = ["B", "KB", "MB", "GB", "TB"];
    let mut size = bytes as f64;
    let mut unit = 0;
    while size >= 1024.0 && unit < units.len() - 1 {
        size /= 1024.0;
        unit += 1;
    }
    format!("{:.2} {}", size, units[unit])
}

#[test]
fn sizes_in_each_unit() {
    assert_eq!(format_bytes(0), "0.00 B");
    assert_eq!(format_bytes(1), "1.00 B");
    assert_eq!(format_bytes(1023), "1023.00 B");
    assert_eq!(format_bytes(1024), "1.00 KB");
    assert_eq!(format_bytes(1536), "1.50 KB");
    assert_eq!(format_bytes(1_048_576), "1.00 MB");
    assert_eq!(format_bytes(5 * 1_073_741_824), "5.00 GB");
    assert_eq!(format_bytes(1_099_511_627_776), "1.00 TB");
    assert_eq!(format_bytes(2048 * 1_099_511_627_776), "2048.00 TB");
    assert_eq!(format_bytes(u64::MAX), "16777216.00 TB");
}

#[test]
fn halves_round_to_even() {
    // 1152 / 1024 is 1.125, 1162.24 would be 1.135
    assert_eq!(format_bytes(1152), "1.12 KB");
    assert_eq!(format_bytes(1024 + 384), "1.38 KB");
    assert_eq!(format_bytes(1029), "1.00 KB");
    assert_eq!(format_bytes(1030), "1.01 KB");
}

#[test]
fn sizes_agree_with_floating_point() {
    let mut state: u64 = 0x9e3779b97f4a7c15;
    for round in 0..20000u32 {
        state ^= state << 13;
        state ^= state >> 7;
        state ^= state << 17;
        let bytes = state >> (round % 64);
        assert_eq!(format_bytes(bytes), with_floats(bytes), "{bytes}");
    }
    for shift in 0..64u32 {
        let power = 1u64 << shift;
        for bytes in [power - 1, power, power + 1, power + power / 2, power + power / 8] {
            assert_eq!(format_bytes(bytes), with_floats(bytes), "{bytes}");
        }
    }
    for bytes in 0..5000u64 {
        assert_eq!(format_bytes(bytes), with_floats(bytes), "{bytes}");
    }
    for bytes in [
        (1u64 << 53) + 1,
        (1u64 << 53) + 2,
        (1u64 << 53) + 3,
        (1u64 << 54) + 2,
        (1u64 << 54) + 6,
        u64::MAX - 1023,
        u64::MAX - 1024,
        u64::MAX - 2048,
    ] {
        assert_eq!(format_bytes(bytes), with_floats(bytes), "{bytes}");
    }
}

#[test]
fn durations_drop_leading_parts() {
    assert_eq!(format_duration(0), "0s");
    assert_eq!(format_duration(59), "59s");
    assert_eq!(format_duration(60), "1m 0s");
    assert_eq!(format_duration(125), "2m 5s");
    assert_eq!(format_duration(3600), "1h 0m 0s");
    assert_eq!(format_duration(3723), "1h 2m 3s");
    assert_eq!(format_duration(90061), "25h 1m 1s");
}

#[test]
fn negative_durations_keep_the_sign_of_the_seconds() {
    assert_eq!(format_duration(-15), "-15s");
    assert_eq!(format_duration(-75), "-15s");
    assert_eq!(format_duration(-3600), "0s");
}

#[test]
fn longest_duration() {
    assert_eq!(MAX_DURATION_SECONDS, i64::MAX / 1000);
    assert_eq!(format_duration(MAX_DURATION_SECONDS), "2562047788015h 12m 55s");
    assert_eq!(format_duration(-MAX_DURATION_SECONDS), "-55s");
}
