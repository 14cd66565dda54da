use egui_property_editor::duration::{
    clock, decimal_text, display_unit, format_clock, is_number_char, magnitude, read_clock,
    read_quantity, same_text, split_fields, step, trim, two_digit_text, Clock, Magnitude, Unit,
    NANOS_PER_SECOND, SECONDS_PER_DAY, SECONDS_PER_HOUR, SECONDS_PER_MINUTE,
};

const ALL_UNITS: [Unit; 7] = [
    Unit::Nanoseconds,
    Unit::Microseconds,
    Unit::Milliseconds,
    Unit::Seconds,
    Unit::Minutes,
    Unit::Hours,
    Unit::Days,
];

/// Seconds read from a text: a plain number, a number with a unit, or a
/// clock, tried in this order.
fn seconds(text: &str) -> Option<f64> {
    text.parse::<f64>()
        .ok()
        .or_else(|| {
            let quantity = read_quantity(text)?;
            let number = quantity.number.parse::<f64>().ok()?;
            Some(number * (quantity.unit.nanos() as f64 / NANOS_PER_SECOND as f64))
        })
        .or_else(|| {
            let fields = read_clock(text)?;
            let days = match fields.days {
                Some(days) => days.parse::<f64>().ok()? * SECONDS_PER_DAY as f64,
                None => 0.0,
            };
            let hours = match fields.hours {
                Some(hours) => hours.parse::<f64>().ok()? * SECONDS_PER_HOUR as f64,
                None => 0.0,
            };
            let minutes = fields.minutes.parse::<f64>().ok()? * SECONDS_PER_MINUTE as f64;
            Some(days + hours + minutes + fields.seconds.parse::<f64>().ok()?)
        })
}

fn close(left: f64, right: f64) -> bool {
    (left - right).abs() <= 1e-9 * right.abs().max(1.0)
}

#[test]
fn units_have_their_length_in_nanoseconds() {
    assert_eq!(Unit::Nanoseconds.nanos(), 1);
    assert_eq!(Unit::Microseconds.nanos(), 1_000);
    assert_eq!(Unit::Milliseconds.nanos(), 1_000_000);
    assert_eq!(Unit::Seconds.nanos(), 1_000_000_000);
    assert_eq!(Unit::Minutes.nanos(), 60 * NANOS_PER_SECOND);
    assert_eq!(Unit::Hours.nanos(), 3_600 * NANOS_PER_SECOND);
    assert_eq!(Unit::Days.nanos(), 86_400 * NANOS_PER_SECOND);
}

#[test]
fn constants_of_the_clock() {
    assert_eq!(NANOS_PER_SECOND, 1_000_000_000);
    assert_eq!(SECONDS_PER_MINUTE, 60);
    assert_eq!(SECONDS_PER_HOUR, 60 * 60);
    assert_eq!(SECONDS_PER_DAY, 60 * 60 * 24);
}

#[test]
fn units_have_their_symbols() {
    assert_eq!(Unit::Nanoseconds.symbol(), "ns");
    assert_eq!(Unit::Microseconds.symbol(), "µs");
    assert_eq!(Unit::Milliseconds.symbol(), "ms");
    assert_eq!(Unit::Seconds.symbol(), "s");
    assert_eq!(Unit::Minutes.symbol(), "min");
    assert_eq!(Unit::Hours.symbol(), "h");
    assert_eq!(Unit::Days.symbol(), "d");
}

#[test]
fn every_symbol_names_its_unit() {
    for unit in ALL_UNITS {
        assert_eq!(Unit::from_suffix(unit.symbol()), Some(unit));
    }
}

#[test]
fn suffixes_name_units_in_all_their_spellings() {
    assert_eq!(Unit::from_suffix("ns"), Some(Unit::Nanoseconds));
    assert_eq!(Unit::from_suffix("us"), Some(Unit::Microseconds));
    assert_eq!(Unit::from_suffix("µs"), Some(Unit::Microseconds));
    assert_eq!(Unit::from_suffix("ms"), Some(Unit::Milliseconds));
    assert_eq!(Unit::from_suffix(""), Some(Unit::Seconds));
    assert_eq!(Unit::from_suffix("s"), Some(Unit::Seconds));
    assert_eq!(Unit::from_suffix("m"), Some(Unit::Minutes));
    assert_eq!(Unit::from_suffix("min"), Some(Unit::Minutes));
    assert_eq!(Unit::from_suffix("minutes"), Some(Unit::Minutes));
    assert_eq!(Unit::from_suffix("h"), Some(Unit::Hours));
    assert_eq!(Unit::from_suffix("hour"), Some(Unit::Hours));
    assert_eq!(Unit::from_suffix("hours"), Some(Unit::Hours));
    assert_eq!(Unit::from_suffix("d"), Some(Unit::Days));
    assert_eq!(Unit::from_suffix("day"), Some(Unit::Days));
    assert_eq!(Unit::from_suffix("days"), Some(Unit::Days));
}

#[test]
fn other_suffixes_name_no_unit() {
    for suffix in ["abc", "sec", "minute", "mins", "S", "Ms", " s", "s ", "n", "ss", ":30", "µ"] {
        assert_eq!(Unit::from_suffix(suffix), None, "{suffix:?}");
    }
}

#[test]
fn magnitude_changes_at_a_minute_an_hour_and_a_day() {
    assert_eq!(magnitude(0), Magnitude::Seconds);
    assert_eq!(magnitude(59), Magnitude::Seconds);
    assert_eq!(magnitude(60), Magnitude::Minutes);
    assert_eq!(magnitude(3_599), Magnitude::Minutes);
    assert_eq!(magnitude(3_600), Magnitude::Hours);
    assert_eq!(magnitude(86_399), Magnitude::Hours);
    assert_eq!(magnitude(86_400), Magnitude::Days);
    assert_eq!(magnitude(u64::MAX), Magnitude::Days);
}

#[test]
fn step_below_a_minute_is_the_decade_of_the_span() {
    assert_eq!(step(0, 0), 1_000_000_000);
    assert_eq!(step(0, 1), 1);
    assert_eq!(step(0, 9), 1);
    assert_eq!(step(0, 10), 10);
    assert_eq!(step(0, 999), 100);
    assert_eq!(step(0, 5_000), 1_000);
    assert_eq!(step(0, 5_000_000), 1_000_000);
    assert_eq!(step(0, 250_000_000), 100_000_000);
    assert_eq!(step(0, 999_999_999), 100_000_000);
    assert_eq!(step(1, 0), 1_000_000_000);
    assert_eq!(step(9, 999_999_999), 1_000_000_000);
    assert_eq!(step(10, 0), 10_000_000_000);
    assert_eq!(step(59, 999_999_999), 10_000_000_000);
}

#[test]
fn step_from_a_minute_on_is_a_minute_an_hour_or_a_day() {
    assert_eq!(step(60, 0), 60 * NANOS_PER_SECOND);
    assert_eq!(step(3_599, 999_999_999), 60 * NANOS_PER_SECOND);
    assert_eq!(step(3_600, 0), 3_600 * NANOS_PER_SECOND);
    assert_eq!(step(86_399, 5), 3_600 * NANOS_PER_SECOND);
    assert_eq!(step(86_400, 0), 86_400 * NANOS_PER_SECOND);
    assert_eq!(step(u64::MAX, 999_999_999), 86_400 * NANOS_PER_SECOND);
}

#[test]
fn spans_below_a_minute_are_shown_in_the_greatest_fitting_unit() {
    assert_eq!(display_unit(0, 0), Unit::Seconds);
    assert_eq!(display_unit(0, 1), Unit::Nanoseconds);
    assert_eq!(display_unit(0, 999), Unit::Nanoseconds);
    assert_eq!(display_unit(0, 1_000), Unit::Microseconds);
    assert_eq!(display_unit(0, 999_999), Unit::Microseconds);
    assert_eq!(display_unit(0, 1_000_000), Unit::Milliseconds);
    assert_eq!(display_unit(0, 999_999_999), Unit::Milliseconds);
    assert_eq!(display_unit(1, 0), Unit::Seconds);
    assert_eq!(display_unit(59, 999_999_999), Unit::Seconds);
}

#[test]
fn clock_breaks_seconds_into_its_fields() {
    assert_eq!(clock(0), Clock { days: 0, hours: 0, minutes: 0, seconds: 0 });
    assert_eq!(clock(59), Clock { days: 0, hours: 0, minutes: 0, seconds: 59 });
    assert_eq!(clock(90), Clock { days: 0, hours: 0, minutes: 1, seconds: 30 });
    assert_eq!(clock(3_600), Clock { days: 0, hours: 1, minutes: 0, seconds: 0 });
    assert_eq!(clock(7_384), Clock { days: 0, hours: 2, minutes: 3, seconds: 4 });
    assert_eq!(clock(86_399), Clock { days: 0, hours: 23, minutes: 59, seconds: 59 });
    assert_eq!(clock(86_400), Clock { days: 1, hours: 0, minutes: 0, seconds: 0 });
    assert_eq!(clock(200_000), Clock { days: 2, hours: 7, minutes: 33, seconds: 20 });
    assert_eq!(
        clock(u64::MAX),
        Clock { days: 213_503_982_334_601, hours: 7, minutes: 0, seconds: 15 }
    );
}

#[test]
fn numbers_are_written_in_decimal() {
    assert_eq!(decimal_text(0), "0");
    assert_eq!(decimal_text(7), "7");
    assert_eq!(decimal_text(10), "10");
    assert_eq!(decimal_text(1_234_567_890), "1234567890");
    assert_eq!(decimal_text(u64::MAX), "18446744073709551615");
}

#[test]
fn fields_of_a_clock_have_two_digits_at_least() {
    assert_eq!(two_digit_text(0), "00");
    assert_eq!(two_digit_text(9), "09");
    assert_eq!(two_digit_text(10), "10");
    assert_eq!(two_digit_text(59), "59");
    assert_eq!(two_digit_text(123), "123");
}

#[test]
fn clock_is_shown_by_magnitude() {
    assert_eq!(format_clock(0), "00:00");
    assert_eq!(format_clock(90), "01:30");
    assert_eq!(format_clock(3_599), "59:59");
    assert_eq!(format_clock(3_600), "01:00:00");
    assert_eq!(format_clock(7_384), "02:03:04");
    assert_eq!(format_clock(86_399), "23:59:59");
    assert_eq!(format_clock(86_400), "01:00:00:00");
    assert_eq!(format_clock(200_000), "02:07:33:20");
    assert_eq!(format_clock(100 * 86_400 + 1), "100:00:00:01");
}

#[test]
fn characters_of_numbers() {
    for c in "0123456789e-.".chars() {
        assert!(is_number_char(c), "{c:?}");
    }
    for c in ['E', '+', ' ', ':', 's', 'm', 'µ', ',', '/', 'd', 'f', '\t', '٣'] {
        assert!(!is_number_char(c), "{c:?}");
    }
}

#[test]
fn texts_are_compared_character_by_character() {
    assert!(same_text("", ""));
    assert!(same_text("µs", "µs"));
    assert!(!same_text("µs", "us"));
    assert!(!same_text("ms", "m"));
    assert!(!same_text("m", "ms"));
    assert!(!same_text("ab", "ba"));
}

#[test]
fn trimming_removes_white_space_at_both_ends_only() {
    assert_eq!(trim(""), "");
    assert_eq!(trim("   "), "");
    assert_eq!(trim("10"), "10");
    assert_eq!(trim("  10 s \t\n"), "10 s");
    assert_eq!(trim("\u{a0}µs\u{2003}"), "µs");
    assert_eq!(trim("a b"), "a b");
}

#[test]
fn text_is_cut_at_its_colons() {
    assert_eq!(split_fields(""), vec![""]);
    assert_eq!(split_fields("abc"), vec!["abc"]);
    assert_eq!(split_fields("1:30"), vec!["1", "30"]);
    assert_eq!(split_fields("1:2:3:4:5"), vec!["1", "2", "3", "4", "5"]);
    assert_eq!(split_fields(":"), vec!["", ""]);
    assert_eq!(split_fields("a::b:"), vec!["a", "", "b", ""]);
    assert_eq!(split_fields(" 1 : µ "), vec![" 1 ", " µ "]);
}

#[test]
fn number_with_unit_is_read_as_number_and_unit() {
    let quantity = read_quantity("10s").expect("a quantity");
    assert_eq!((quantity.number.as_str(), quantity.unit), ("10", Unit::Seconds));
    let quantity = read_quantity("10 s").expect("a quantity");
    assert_eq!((quantity.number.as_str(), quantity.unit), ("10", Unit::Seconds));
    let quantity = read_quantity("10000ms").expect("a quantity");
    assert_eq!((quantity.number.as_str(), quantity.unit), ("10000", Unit::Milliseconds));
    let quantity = read_quantity("1h").expect("a quantity");
    assert_eq!((quantity.number.as_str(), quantity.unit), ("1", Unit::Hours));
    let quantity = read_quantity("2.5e-3 µs").expect("a quantity");
    assert_eq!((quantity.number.as_str(), quantity.unit), ("2.5e-3", Unit::Microseconds));
    let quantity = read_quantity("-1.5   Days  ").expect("a quantity");
    assert_eq!((quantity.number.as_str(), quantity.unit), ("-1.5", Unit::Days));
}

#[test]
fn suffix_is_read_in_any_case() {
    for (text, unit) in [
        ("3NS", Unit::Nanoseconds),
        ("3 US", Unit::Microseconds),
        ("3Ms", Unit::Milliseconds),
        ("3 S", Unit::Seconds),
        ("3Min", Unit::Minutes),
        ("3 MINUTES", Unit::Minutes),
        ("3H", Unit::Hours),
        ("3 Hours", Unit::Hours),
        ("3D", Unit::Days),
        ("3 DAY", Unit::Days),
    ] {
        let quantity = read_quantity(text).expect("a quantity");
        assert_eq!((quantity.number.as_str(), quantity.unit), ("3", unit), "{text:?}");
    }
}

#[test]
fn number_followed_by_white_space_only_is_in_seconds() {
    let quantity = read_quantity("10 ").expect("a quantity");
    assert_eq!((quantity.number.as_str(), quantity.unit), ("10", Unit::Seconds));
}

#[test]
fn suffix_without_number_is_read_with_an_empty_number() {
    let quantity = read_quantity("ms").expect("a quantity");
    assert_eq!((quantity.number.as_str(), quantity.unit), ("", Unit::Milliseconds));
    let quantity = read_quantity(" s").expect("a quantity");
    assert_eq!((quantity.number.as_str(), quantity.unit), ("", Unit::Seconds));
}

#[test]
fn suffix_begins_at_the_first_character_that_is_no_number() {
    // The blank in front makes the whole text the suffix, and that names no unit.
    assert!(read_quantity(" 10s").is_none());
    assert!(read_quantity("+10s").is_none());
    let quantity = read_quantity("1-e.5s").expect("a quantity");
    assert_eq!((quantity.number.as_str(), quantity.unit), ("1-e.5", Unit::Seconds));
}

#[test]
fn text_without_suffix_or_with_an_unknown_one_is_no_quantity() {
    for text in ["", "10", "1e3", "-.5", "abc", "10 parsecs", "1:30", "10s5", "10 s s"] {
        assert!(read_quantity(text).is_none(), "{text:?}");
    }
}

#[test]
fn clock_of_two_to_four_fields_is_read() {
    let fields = read_clock("1:30").expect("a clock");
    assert_eq!(fields.days, None);
    assert_eq!(fields.hours, None);
    assert_eq!(fields.minutes, "1");
    assert_eq!(fields.seconds, "30");

    let fields = read_clock("02:03:04.5").expect("a clock");
    assert_eq!(fields.days, None);
    assert_eq!(fields.hours.as_deref(), Some("02"));
    assert_eq!(fields.minutes, "03");
    assert_eq!(fields.seconds, "04.5");

    let fields = read_clock("1:2:3:4").expect("a clock");
    assert_eq!(fields.days.as_deref(), Some("1"));
    assert_eq!(fields.hours.as_deref(), Some("2"));
    assert_eq!(fields.minutes, "3");
    assert_eq!(fields.seconds, "4");

    let fields = read_clock(":").expect("a clock");
    assert_eq!(fields.minutes, "");
    assert_eq!(fields.seconds, "");
}

#[test]
fn text_with_fewer_or_more_fields_is_no_clock() {
    for text in ["", "abc", "90", "1:2:3:4:5", "::::"] {
        assert!(read_clock(text).is_none(), "{text:?}");
    }
}

#[test]
fn ten_seconds_in_four_spellings() {
    for text in ["10s", "10 s", "10000ms", "10"] {
        assert_eq!(seconds(text), Some(10.0), "{text:?}");
    }
}

#[test]
fn one_hour_is_3600_seconds() {
    assert_eq!(seconds("1h"), Some(3_600.0));
}

#[test]
fn two_fields_are_minutes_and_seconds() {
    assert_eq!(seconds("1:30"), Some(90.0));
}

#[test]
fn three_and_four_fields_are_hours_and_days() {
    assert_eq!(seconds("1:00:00"), Some(3_600.0));
    assert_eq!(seconds("1:0:0:0"), Some(86_400.0));
    assert_eq!(seconds("1:1:1:1.5"), Some(86_400.0 + 3_600.0 + 60.0 + 1.5));
}

#[test]
fn unreadable_text_is_a_failure() {
    for text in ["abc", "", "10 parsecs", "1:two", "s", "1:2:3:4:5", "--5s", " 10s"] {
        assert_eq!(seconds(text), None, "{text:?}");
    }
}

#[test]
fn shown_clock_reads_back_as_the_span() {
    for secs in [
        60u64, 61, 90, 3_599, 3_600, 3_601, 7_384, 86_399, 86_400, 86_401, 200_000, 8_640_000,
        123_456_789,
    ] {
        let text = format_clock(secs);
        assert_eq!(seconds(&text), Some(secs as f64), "{text:?}");
    }
}

#[test]
fn span_below_a_minute_reads_back_from_its_number_and_unit() {
    for (secs, nanos) in [
        (0u64, 1u32),
        (0, 250),
        (0, 1_000),
        (0, 12_345),
        (0, 5_000_000),
        (0, 999_999_999),
        (1, 0),
        (12, 500_000_000),
        (59, 999_000_000),
    ] {
        let unit = display_unit(secs, nanos);
        let total = secs * NANOS_PER_SECOND + nanos as u64;
        let shown = total as f64 / unit.nanos() as f64;
        let text = format!("{shown} {}", unit.symbol());
        let read = seconds(&text).expect("the text is a quantity");
        assert!(close(read, total as f64 / NANOS_PER_SECOND as f64), "{text:?} read as {read}");
    }
}
