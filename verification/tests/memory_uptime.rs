use hostprobe::memory::{get_memory_usage, MemoryReading};
use hostprobe::uptime::get_uptime;

fn memory(total_kb: u64, free_kb: u64) -> String {
    get_memory_usage(&Ok(MemoryReading { total_kb, free_kb }))
}

fn with_floats(total_kb: u64, free_kb: u64) -> String {
    let total_mb: f64 = total_kb as f64 / 1024.0;
    let used_mb: f64 = total_mb - (free_kb as f64 / 1024.0);
    let percent: f64 = (used_mb / total_mb) * 100.0;
    format!("{:.2} MB / {:.2} MB ({:.1}% used)", used_mb, total_mb, percent)
}

fn uptime(seconds: u64) -> String {
    get_uptime(&Ok(seconds))
}

#[test]
fn memory_half_used() {
    assert_eq!(memory(16384 * 1024, 8192 * 1024), "8192.00 MB / 16384.00 MB (50.0% used)");
}

#[test]
fn memory_with_fractions() {
    assert_eq!(memory(16_265_108, 9_874_321), "6241.00 MB / 15883.89 MB (39.3% used)");
    assert_eq!(memory(1000, 250), "0.73 MB / 0.98 MB (75.0% used)");
    assert_eq!(memory(3, 1), "0.00 MB / 0.00 MB (66.7% used)");
}

#[test]
fn memory_all_used_and_none_used() {
    assert_eq!(memory(2048, 0), "2.00 MB / 2.00 MB (100.0% used)");
    assert_eq!(memory(2048, 2048), "0.00 MB / 2.00 MB (0.0% used)");
}

#[test]
fn memory_megabytes_round_halves_to_even() {
    // 128 kB are an eighth of a megabyte, halfway between two hundredths.
    assert_eq!(memory(128, 0), "0.12 MB / 0.12 MB (100.0% used)");
    assert_eq!(memory(384, 0), "0.38 MB / 0.38 MB (100.0% used)");
    assert_eq!(memory(1024 + 128, 1024), "0.12 MB / 1.12 MB (11.1% used)");
}

#[test]
fn memory_percentage_rounds_the_binary_quotient() {
    // An eighth and fifteen sixteenths are binary numbers: the halves
    // are exact and go to the even tenth.
    assert_eq!(memory(8, 7), "0.00 MB / 0.01 MB (12.5% used)");
    assert_eq!(memory(16, 1), "0.01 MB / 0.02 MB (93.8% used)");
    // 23 of 80 and 1 of 2000 are no binary numbers: what the machine
    // holds for them lies beside the half.
    assert_eq!(memory(80, 57), "0.02 MB / 0.08 MB (28.7% used)");
    assert_eq!(memory(80, 31), "0.05 MB / 0.08 MB (61.3% used)");
    assert_eq!(memory(2000, 1999), "0.00 MB / 1.95 MB (0.1% used)");
    assert_eq!(memory(2000, 1421), "0.57 MB / 1.95 MB (28.9% used)");
}

#[test]
fn memory_agrees_with_floating_point() {
    let readings: [(u64, u64); 22] = [
        (16384 * 1024, 8192 * 1024),
        (16_265_108, 9_874_321),
        (1000, 250),
        (3, 1),
        (128, 0),
        (384, 0),
        (8_043_284, 1),
        (32_791_432, 27_981_220),
        (1, 0),
        (1, 1),
        (7, 3),
        (4_194_304, 1_398_101),
        (65_536, 65_535),
        (999_999_999_999, 123_456_789),
        (80, 57),
        (80, 31),
        (2000, 1999),
        (2000, 1975),
        (6000, 4251),
        (160, 58),
        (u64::MAX, 0),
        (u64::MAX, u64::MAX - 1),
    ];
    for (total, free) in readings {
        assert_eq!(memory(total, free), with_floats(total, free), "{} {}", total, free);
    }
}

#[test]
fn memory_agrees_with_floating_point_on_small_readings() {
    for total in 0..260u64 {
        for free in 0..300u64 {
            assert_eq!(memory(total, free), with_floats(total, free), "{} {}", total, free);
        }
    }
}

#[test]
fn memory_agrees_with_floating_point_on_readings_of_every_size() {
    let mut state: u64 = 0x2545F4914F6CDD1D;
    let mut next = || {
        state ^= state << 13;
        state ^= state >> 7;
        state ^= state << 17;
        state
    };
    for round in 0..120_000u64 {
        let total_bits = 1 + round % 64;
        let free_bits = 1 + (round / 64) % 64;
        let total = next() >> (64 - total_bits);
        let free = if round % 3 == 0 { next() % (total + 1) } else { next() >> (64 - free_bits) };
        assert_eq!(memory(total, free), with_floats(total, free), "{} {}", total, free);
    }
}

#[test]
fn memory_agrees_with_floating_point_beside_the_powers_of_two() {
    for bits in 0..64u32 {
        for delta in 0..5u64 {
            for sign in 0..2 {
                let power = 1u64 << bits;
                let total = if sign == 0 { power.wrapping_add(delta) } else { power.wrapping_sub(delta) };
                for other in [0u64, 1, 3, total / 2, total / 3, total.wrapping_sub(1), total.wrapping_add(1), u64::MAX] {
                    assert_eq!(memory(total, other), with_floats(total, other), "{} {}", total, other);
                    assert_eq!(memory(other, total), with_floats(other, total), "{} {}", other, total);
                }
            }
        }
    }
}

#[test]
fn memory_more_free_than_total_is_negative() {
    assert_eq!(memory(1024, 2048), "-1.00 MB / 1.00 MB (-100.0% used)");
    assert_eq!(memory(1024, 2048), with_floats(1024, 2048));
    assert_eq!(memory(4096, 4097), "-0.00 MB / 4.00 MB (-0.0% used)");
    assert_eq!(memory(4096, 4097), with_floats(4096, 4097));
}

#[test]
fn memory_without_total_has_no_percentage() {
    assert_eq!(memory(0, 0), "0.00 MB / 0.00 MB (NaN% used)");
    assert_eq!(memory(0, 0), with_floats(0, 0));
    assert_eq!(memory(0, 1024), "-1.00 MB / 0.00 MB (-inf% used)");
    assert_eq!(memory(0, 1024), with_floats(0, 1024));
}

#[test]
fn memory_failure_shows_the_cause() {
    assert_eq!(get_memory_usage(&Err("IO error".to_string())), "Unknown: IO error");
    assert_eq!(get_memory_usage(&Err(String::new())), "Unknown: ");
}

#[test]
fn uptime_of_a_day_an_hour_a_minute_and_a_second() {
    assert_eq!(uptime(90061), "1 days, 01:01:01");
}

#[test]
fn uptime_fields_are_filled_to_two_digits() {
    assert_eq!(uptime(0), "0 days, 00:00:00");
    assert_eq!(uptime(59), "0 days, 00:00:59");
    assert_eq!(uptime(60), "0 days, 00:01:00");
    assert_eq!(uptime(3599), "0 days, 00:59:59");
    assert_eq!(uptime(3600), "0 days, 01:00:00");
    assert_eq!(uptime(86399), "0 days, 23:59:59");
    assert_eq!(uptime(86400), "1 days, 00:00:00");
    assert_eq!(uptime(36_610), "0 days, 10:10:10");
}

#[test]
fn uptime_of_many_days() {
    assert_eq!(uptime(1_000_000_000), "11574 days, 01:46:40");
}

#[test]
fn uptime_at_the_longest_duration() {
    assert_eq!(uptime(9_223_372_036_854_775), "106751991167 days, 07:12:55");
}

#[test]
fn uptime_beyond_the_longest_duration_is_a_failure() {
    assert_eq!(uptime(9_223_372_036_854_776), "Unknown: uptime out of range");
    assert_eq!(uptime(u64::MAX), "Unknown: uptime out of range");
}

#[test]
fn uptime_failure_shows_the_cause() {
    assert_eq!(get_uptime(&Err("sysctl failed".to_string())), "Unknown: sysctl failed");
}
