use countdown::message::{
    announcement, format_message, render_breakdown, render_decimal, render_summary,
};
use countdown::topic::Topic;

#[test]
fn decimal_of_single_digits() {
    let digits = ["0", "1", "2", "3", "4", "5", "6", "7", "8", "9"];
    for (n, text) in digits.iter().enumerate() {
        assert_eq!(render_decimal(n as u64), *text);
    }
}

#[test]
fn decimal_of_longer_numbers() {
    assert_eq!(render_decimal(10), "10");
    assert_eq!(render_decimal(42), "42");
    assert_eq!(render_decimal(100), "100");
    assert_eq!(render_decimal(909), "909");
    assert_eq!(render_decimal(1234567890), "1234567890");
}

#[test]
fn decimal_of_the_largest_number() {
    assert_eq!(render_decimal(u64::MAX), "18446744073709551615");
}

#[test]
fn decimal_agrees_with_the_standard_library() {
    for n in (0u64..5000).chain([86_399, 86_400, 99_999, 100_000, u64::MAX - 1]) {
        assert_eq!(render_decimal(n), n.to_string());
    }
}

#[test]
fn breakdown_of_an_hour_two_minutes_three_seconds() {
    assert_eq!(render_breakdown(3723), "1h 2m 3s");
}

#[test]
fn breakdown_keeps_zero_parts() {
    assert_eq!(render_breakdown(0), "0h 0m 0s");
    assert_eq!(render_breakdown(5), "0h 0m 5s");
    assert_eq!(render_breakdown(60), "0h 1m 0s");
    assert_eq!(render_breakdown(3600), "1h 0m 0s");
}

#[test]
fn breakdown_of_a_day_and_more() {
    assert_eq!(render_breakdown(86_399), "23h 59m 59s");
    assert_eq!(render_breakdown(90_061), "25h 1m 1s");
    assert_eq!(render_breakdown(u64::MAX), "5124095576030431h 0m 15s");
}

#[test]
fn summary_in_seconds_below_a_minute() {
    assert_eq!(render_summary(0), "0s");
    assert_eq!(render_summary(5), "5s");
    assert_eq!(render_summary(59), "59s");
}

#[test]
fn summary_in_minutes_below_an_hour() {
    assert_eq!(render_summary(60), "1m");
    assert_eq!(render_summary(119), "1m");
    assert_eq!(render_summary(3599), "59m");
}

#[test]
fn summary_in_hours_from_an_hour_on() {
    assert_eq!(render_summary(3600), "1h");
    assert_eq!(render_summary(7325), "2h");
    assert_eq!(render_summary(86_400), "24h");
}

#[test]
fn arrival_message_is_the_label() {
    assert_eq!(format_message(Topic::Arrived, "launch", 0, 5, false), "launch");
    assert_eq!(format_message(Topic::Arrived, "launch", 0, 5, true), "launch");
}

#[test]
fn counting_message_with_summary() {
    assert_eq!(format_message(Topic::Counting, "launch", 5, 0, false), "launch in 5s");
    assert_eq!(format_message(Topic::Counting, "lunch break", 3723, 77, false), "lunch break in 1h");
}

#[test]
fn counting_message_with_details() {
    assert_eq!(
        format_message(Topic::Counting, "launch", 5, 0, true),
        "launch in 0h 0m 5s (5s left, 0s elapsed)"
    );
    assert_eq!(
        format_message(Topic::Counting, "lunch break", 3723, 77, true),
        "lunch break in 1h 2m 3s (3723s left, 77s elapsed)"
    );
}

#[test]
fn message_keeps_a_label_that_is_not_ascii() {
    assert_eq!(format_message(Topic::Counting, "déjeuner", 61, 0, false), "déjeuner in 1m");
    assert_eq!(format_message(Topic::Arrived, "déjeuner", 0, 0, true), "déjeuner");
}

#[test]
fn announcement_is_verb_space_message() {
    assert_eq!(announcement(Topic::Counting, "launch in 5s"), "counting down to launch in 5s");
    assert_eq!(announcement(Topic::Arrived, "launch"), "arrived at launch");
    assert_eq!(announcement(Topic::Arrived, ""), "arrived at ");
}
