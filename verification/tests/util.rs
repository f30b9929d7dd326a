use exile_rs::util::{generate_task_id, task_id_from};

#[test]
fn test_generate_task_id_format() {
    let task_id = generate_task_id("test");

    // Format: {prefix}_{timestamp_hex}_{random_hex}
    let parts: Vec<&str> = task_id.split('_').collect();
    assert_eq!(parts.len(), 3, "Task ID should have 3 parts");
    assert_eq!(parts[0], "test", "Prefix should match");

    // Timestamp should be hex
    assert!(
        u128::from_str_radix(parts[1], 16).is_ok(),
        "Timestamp should be hex"
    );

    // Random should be 4-digit hex
    assert_eq!(parts[2].len(), 4, "Random suffix should be 4 characters");
    assert!(
        u16::from_str_radix(parts[2], 16).is_ok(),
        "Random should be hex"
    );
}

#[test]
fn test_generate_task_id_prefix() {
    let prefixes = vec!["pob", "task", "download", "extract"];

    for prefix in prefixes {
        let task_id = generate_task_id(prefix);
        assert!(
            task_id.starts_with(prefix),
            "Task ID should start with prefix: {}",
            prefix
        );
    }
}

#[test]
fn task_id_from_formats_exactly() {
    assert_eq!(task_id_from("pob", 0x18abc1234def, 0xa3f2), "pob_18abc1234def_a3f2");
    assert_eq!(task_id_from("pob", 0, 0), "pob_0_0000");
    assert_eq!(task_id_from("", 15, 0x00ff), "_f_00ff");
    assert_eq!(task_id_from("x", 16, 0xffff), "x_10_ffff");
    assert_eq!(
        task_id_from("t", u128::MAX, 1),
        format!("t_{:x}_{:04x}", u128::MAX, 1)
    );
}

#[test]
fn task_id_from_agrees_with_std_formatting() {
    let mut millis: u128 = 1;
    let mut random: u16 = 1;
    for _ in 0..60 {
        assert_eq!(
            task_id_from("p", millis, random),
            format!("p_{:x}_{:04x}", millis, random)
        );
        millis = millis.wrapping_mul(37).wrapping_add(11);
        random = random.wrapping_mul(31).wrapping_add(7);
    }
}

#[test]
fn generated_task_id_carries_a_recent_time() {
    let id = generate_task_id("clock");
    let parts: Vec<&str> = id.split('_').collect();
    let millis = u128::from_str_radix(parts[1], 16).unwrap();
    // Later than the first of January 2020.
    assert!(millis > 1_577_836_800_000);
}

#[test]
fn test_datetime_to_systemtime_valid() {
    // Valid datetime: 2024-05-20 14:30:00
    let datetime = exile_rs::util::ZipDateTime {
        year: 2024,
        month: 5,
        day: 20,
        hour: 14,
        minute: 30,
        second: 0,
    };
    let result = exile_rs::util::datetime_to_systemtime(&datetime);

    assert!(
        result.is_some(),
        "Valid datetime should convert successfully"
    );
}

#[test]
fn test_datetime_to_systemtime_epoch() {
    // Epoch: 1980-01-01 00:00:00 (ZIP epoch)
    let datetime = exile_rs::util::ZipDateTime {
        year: 1980,
        month: 1,
        day: 1,
        hour: 0,
        minute: 0,
        second: 0,
    };
    let result = exile_rs::util::datetime_to_systemtime(&datetime);

    assert!(result.is_some(), "ZIP epoch should convert successfully");
}

#[test]
fn datetime_converts_to_seconds_since_the_unix_epoch() {
    let datetime = exile_rs::util::ZipDateTime {
        year: 2024,
        month: 12,
        day: 25,
        hour: 23,
        minute: 59,
        second: 58,
    };
    let time = exile_rs::util::datetime_to_systemtime(&datetime).unwrap();
    let seconds = time
        .duration_since(std::time::UNIX_EPOCH)
        .unwrap()
        .as_secs();
    assert_eq!(seconds, 1_735_171_198);
}

#[test]
fn datetime_that_the_calendar_lacks_does_not_convert() {
    let base = exile_rs::util::ZipDateTime {
        year: 2023,
        month: 2,
        day: 28,
        hour: 0,
        minute: 0,
        second: 0,
    };
    assert!(exile_rs::util::datetime_to_systemtime(&base).is_some());
    let mut bad = base;
    bad.day = 29;
    assert!(exile_rs::util::datetime_to_systemtime(&bad).is_none());
    bad.year = 2024;
    assert!(exile_rs::util::datetime_to_systemtime(&bad).is_some());
    bad.year = 2100;
    assert!(exile_rs::util::datetime_to_systemtime(&bad).is_none());
    for (month, day) in [(0u8, 1u8), (13, 1), (4, 31), (1, 0), (1, 32)] {
        let mut d = base;
        d.month = month;
        d.day = day;
        assert!(exile_rs::util::datetime_to_systemtime(&d).is_none());
    }
    for (hour, minute, second) in [(24u8, 0u8, 0u8), (0, 60, 0), (0, 0, 60), (31, 63, 62)] {
        let mut d = base;
        d.hour = hour;
        d.minute = minute;
        d.second = second;
        assert!(exile_rs::util::datetime_to_systemtime(&d).is_none());
    }
}

#[test]
fn task_id_at_takes_the_low_16_bits_of_the_nanoseconds() {
    use_task_id_at("pob", Some(0x18abc1234def), Some(0x0001_a3f2), "pob_18abc1234def_a3f2");
    use_task_id_at("pob", Some(255), Some(999_999_999), "pob_ff_c9ff");
    use_task_id_at("pob", Some(1), Some(65_536), "pob_1_0000");
}

#[test]
fn task_id_at_counts_a_clock_before_the_epoch_as_zero() {
    use_task_id_at("pob", None, None, "pob_0_0000");
    use_task_id_at("pob", None, Some(5), "pob_0_0005");
    use_task_id_at("pob", Some(16), None, "pob_10_0000");
}

fn use_task_id_at(prefix: &str, millis: Option<u128>, nanos: Option<u32>, expected: &str) {
    assert_eq!(exile_rs::util::task_id_at(prefix, millis, nanos), expected);
}

#[test]
fn unix_time_reads_a_recent_time() {
    let (secs, nanos) = exile_rs::util::unix_time().unwrap();
    // Later than the first of January 2020.
    assert!(secs > 1_577_836_800);
    assert!(nanos < 1_000_000_000);
}

#[test]
fn datetimes_convert_to_their_own_instants() {
    let seconds = |year: u16, month: u8, day: u8, hour: u8, minute: u8, second: u8| {
        let datetime = exile_rs::util::ZipDateTime { year, month, day, hour, minute, second };
        exile_rs::util::datetime_to_systemtime(&datetime)
            .unwrap()
            .duration_since(std::time::UNIX_EPOCH)
            .unwrap()
            .as_secs()
    };
    assert_eq!(seconds(1980, 1, 1, 0, 0, 0), 315_532_800);
    assert_eq!(seconds(2024, 5, 20, 14, 30, 0), 1_716_215_400);
    assert_eq!(seconds(2024, 2, 29, 0, 0, 2), 1_709_164_802);
    assert_eq!(seconds(2107, 12, 31, 23, 59, 58), 4_354_819_198);
    // One second apart in the archive, one second apart on the clock.
    assert_eq!(seconds(2024, 5, 20, 14, 30, 1) - seconds(2024, 5, 20, 14, 30, 0), 1);
}
