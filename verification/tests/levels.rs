use nice::decimal::decimal;
use nice::error::invalid_priority;
use nice::{PriorityError, WindowsThreadPriority};

fn all_levels() -> Vec<(i32, WindowsThreadPriority)> {
    vec![
        (0x0001_0000, WindowsThreadPriority::ThreadModeBackgroundBegin),
        (0x0002_0000, WindowsThreadPriority::ThreadModeBackgroundEnd),
        (1, WindowsThreadPriority::ThreadPriorityAboveNormal),
        (-1, WindowsThreadPriority::ThreadPriorityBelowNormal),
        (2, WindowsThreadPriority::ThreadPriorityHighest),
        (-15, WindowsThreadPriority::ThreadPriorityIdle),
        (-2, WindowsThreadPriority::ThreadPriorityLowest),
        (0, WindowsThreadPriority::ThreadPriorityNormal),
        (15, WindowsThreadPriority::ThreadPriorityTimeCritical),
    ]
}

fn rejection(value: i32) -> String {
    match WindowsThreadPriority::try_from(value) {
        Err(PriorityError::InvalidArg { reason }) => reason,
        other => panic!("{value} was not rejected as an invalid argument: {other:?}"),
    }
}

#[test]
fn every_code_yields_its_level() {
    for (code, level) in all_levels() {
        assert_eq!(WindowsThreadPriority::try_from(code), Ok(level));
    }
}

#[test]
fn every_level_round_trips_through_its_code() {
    for (code, level) in all_levels() {
        assert_eq!(level.code(), code);
        assert_eq!(WindowsThreadPriority::try_from(level.code()), Ok(level));
    }
}

#[test]
fn background_mode_codes_are_the_documented_values() {
    assert_eq!(WindowsThreadPriority::ThreadModeBackgroundBegin.code(), 65536);
    assert_eq!(WindowsThreadPriority::ThreadModeBackgroundEnd.code(), 131072);
}

#[test]
fn native_constant_of_each_level_has_the_value_of_its_code() {
    assert_eq!(WindowsThreadPriority::ThreadModeBackgroundBegin.native(), 0x0001_0000);
    assert_eq!(WindowsThreadPriority::ThreadModeBackgroundEnd.native(), 0x0002_0000);
    assert_eq!(WindowsThreadPriority::ThreadPriorityAboveNormal.native(), 1);
    assert_eq!(WindowsThreadPriority::ThreadPriorityBelowNormal.native(), -1);
    assert_eq!(WindowsThreadPriority::ThreadPriorityHighest.native(), 2);
    assert_eq!(WindowsThreadPriority::ThreadPriorityIdle.native(), -15);
    assert_eq!(WindowsThreadPriority::ThreadPriorityLowest.native(), -2);
    assert_eq!(WindowsThreadPriority::ThreadPriorityNormal.native(), 0);
    assert_eq!(WindowsThreadPriority::ThreadPriorityTimeCritical.native(), 15);
}

#[test]
fn three_is_rejected_with_its_value_in_the_message() {
    assert_eq!(rejection(3), "3 is not a valid priority on Windows");
}

#[test]
fn one_hundred_is_rejected_with_its_value_in_the_message() {
    assert_eq!(rejection(100), "100 is not a valid priority on Windows");
}

#[test]
fn minus_sixteen_is_rejected_with_its_value_in_the_message() {
    assert_eq!(rejection(-16), "-16 is not a valid priority on Windows");
}

#[test]
fn neighbours_of_the_codes_are_rejected() {
    let neighbours: Vec<i32> = vec![
        -17, -16, -14, -3, 3, 14, 16, 65535, 65537, 131071, 131073, 0x0003_0000, 0x0004_0000,
    ];
    for value in neighbours {
        assert!(rejection(value).contains(&value.to_string()));
    }
}

#[test]
fn nothing_is_clamped_or_rounded_to_a_level() {
    let codes: Vec<i32> = all_levels().into_iter().map(|(code, _)| code).collect();
    let mut accepted: Vec<i32> = Vec::new();
    for value in -200_001..=200_001 {
        if WindowsThreadPriority::try_from(value).is_ok() {
            accepted.push(value);
        }
    }
    let mut expected: Vec<i32> = codes;
    expected.sort();
    assert_eq!(accepted, expected);
}

#[test]
fn extreme_integers_are_rejected_with_their_full_text() {
    assert_eq!(rejection(i32::MAX), "2147483647 is not a valid priority on Windows");
    assert_eq!(rejection(i32::MIN), "-2147483648 is not a valid priority on Windows");
}

#[test]
fn the_sentinel_of_the_thread_query_is_no_level() {
    assert_eq!(rejection(0x7fff_ffff), "2147483647 is not a valid priority on Windows");
}

#[test]
fn invalid_priority_names_the_value_whatever_it_is() {
    assert_eq!(
        invalid_priority(7),
        PriorityError::InvalidArg { reason: "7 is not a valid priority on Windows".to_string() }
    );
    assert_eq!(
        invalid_priority(0),
        PriorityError::InvalidArg { reason: "0 is not a valid priority on Windows".to_string() }
    );
}

#[test]
fn decimal_of_single_digits() {
    let expected: Vec<&str> = vec!["0", "1", "2", "3", "4", "5", "6", "7", "8", "9"];
    for (value, text) in expected.into_iter().enumerate() {
        assert_eq!(decimal(value as i32), text);
    }
}

#[test]
fn decimal_of_negative_values() {
    assert_eq!(decimal(-1), "-1");
    assert_eq!(decimal(-10), "-10");
    assert_eq!(decimal(-909), "-909");
    assert_eq!(decimal(i32::MIN), "-2147483648");
}

#[test]
fn decimal_keeps_inner_and_trailing_zeros() {
    assert_eq!(decimal(10), "10");
    assert_eq!(decimal(100), "100");
    assert_eq!(decimal(1_000_000_000), "1000000000");
    assert_eq!(decimal(20_030), "20030");
    assert_eq!(decimal(i32::MAX), "2147483647");
}

#[test]
fn decimal_agrees_with_the_standard_formatter() {
    let mut value: i64 = i64::from(i32::MIN);
    while value <= i64::from(i32::MAX) {
        let narrow: i32 = value as i32;
        assert_eq!(decimal(narrow), narrow.to_string());
        value += 7_654_321;
    }
    for narrow in -2_000..=2_000 {
        assert_eq!(decimal(narrow), format!("{narrow}"));
    }
}
