use auto_backup::schedule::check_expression;
use auto_backup::schedule::next_after;
use auto_backup::schedule::next_occurrences;
use auto_backup::schedule::parse_time;
use auto_backup::schedule::parse_time_at;
use auto_backup::schedule::CALENDAR_LIMIT;

// 2024-01-01T00:00:00Z
const NEW_YEAR: i64 = 1_704_067_200;

#[test]
fn accepts_a_six_field_expression() {
    assert!(check_expression("0 30 * * * *").is_ok());
}

#[test]
fn accepts_a_seven_field_expression() {
    assert!(check_expression("0 30 9 * * * 2030").is_ok());
}

#[test]
fn rejects_text_that_is_no_expression() {
    let err = check_expression("every now and then").unwrap_err();
    assert_eq!(err.message, "Invalid expression: Invalid cron expression.");
}

#[test]
fn rejects_the_empty_expression() {
    assert!(check_expression("").is_err());
}

#[test]
fn rejects_a_field_out_of_range() {
    let err = check_expression("61 * * * * *").unwrap_err();
    assert_eq!(err.message, "Invalid expression: Invalid cron expression.");
    let err = check_expression("0 0 0 0 * *").unwrap_err();
    assert_eq!(err.message, "Invalid expression: Invalid cron expression.");
    let err = check_expression("*/0 * * * * *").unwrap_err();
    assert_eq!(err.message, "Invalid expression: Invalid cron expression.");
}

#[test]
fn rejects_five_fields() {
    assert!(check_expression("30 * * * *").is_err());
}

#[test]
fn accepts_a_shorthand() {
    assert!(check_expression("@hourly").is_ok());
    assert_eq!(next_after("@hourly", NEW_YEAR, 0), Some(NEW_YEAR + 3600));
}

#[test]
fn next_after_finds_the_half_hour() {
    assert_eq!(next_after("0 30 * * * *", NEW_YEAR, 0), Some(NEW_YEAR + 1800));
}

#[test]
fn next_after_is_strictly_later() {
    assert_eq!(next_after("0 30 * * * *", NEW_YEAR + 1800, 0), Some(NEW_YEAR + 5400));
}

#[test]
fn next_after_follows_the_offset() {
    // Nine o'clock, one hour east of UTC, is eight o'clock UTC.
    assert_eq!(next_after("0 0 9 * * *", NEW_YEAR, 3600), Some(NEW_YEAR + 8 * 3600));
    assert_eq!(next_after("0 0 9 * * *", NEW_YEAR, 0), Some(NEW_YEAR + 9 * 3600));
}

#[test]
fn next_after_of_an_invalid_expression_is_none() {
    assert_eq!(next_after("nonsense", NEW_YEAR, 0), None);
}

#[test]
fn next_after_with_an_offset_of_a_day_is_none() {
    assert_eq!(next_after("* * * * * *", NEW_YEAR, 86_400), None);
}

#[test]
fn next_after_outside_the_calendar_is_none() {
    assert_eq!(next_after("* * * * * *", CALENDAR_LIMIT + 1, 0), None);
    assert_eq!(next_after("* * * * * *", -CALENDAR_LIMIT - 1, 0), None);
    assert_eq!(next_after("* * * * * *", i64::MAX, 0), None);
    assert_eq!(next_after("* * * * * *", i64::MIN, 0), None);
}

#[test]
fn next_after_at_the_edge_of_the_calendar_does_not_fail() {
    assert_eq!(next_after("* * * * * *", CALENDAR_LIMIT, 0), None);
    let _ = next_after("* * * * * *", -CALENDAR_LIMIT, 0);
    let _ = next_after("* * * * * *", -CALENDAR_LIMIT, -86_399);
    let _ = next_after("* * * * * *", CALENDAR_LIMIT, 86_399);
}

#[test]
fn next_after_past_the_last_year_is_none() {
    // 2101-01-01T00:00:00Z
    assert_eq!(next_after("* * * * * *", 4_133_980_800, 0), None);
}

#[test]
fn next_occurrences_lists_them_in_order() {
    let got = next_occurrences("0 30 * * * *", NEW_YEAR, 0, 3).unwrap();
    assert_eq!(got, vec![NEW_YEAR + 1800, NEW_YEAR + 5400, NEW_YEAR + 9000]);
}

#[test]
fn next_occurrences_restart_from_the_given_instant() {
    let first = next_occurrences("*/10 * * * * *", NEW_YEAR, 0, 4).unwrap();
    let again = next_occurrences("*/10 * * * * *", NEW_YEAR, 0, 4).unwrap();
    assert_eq!(first, again);
    assert_eq!(first, vec![NEW_YEAR + 10, NEW_YEAR + 20, NEW_YEAR + 30, NEW_YEAR + 40]);
}

#[test]
fn next_occurrences_with_count_zero_is_empty() {
    assert_eq!(next_occurrences("0 30 * * * *", NEW_YEAR, 0, 0).unwrap(), Vec::<i64>::new());
}

#[test]
fn next_occurrences_end_early_when_the_schedule_runs_out() {
    // The only occurrence: 2024-01-01T09:30:00Z.
    let got = next_occurrences("0 30 9 1 1 * 2024", NEW_YEAR, 0, 3).unwrap();
    assert_eq!(got, vec![NEW_YEAR + 9 * 3600 + 1800]);
}

#[test]
fn next_occurrences_of_an_invalid_expression_fails() {
    let err = next_occurrences("nonsense", 0, 0, 3).unwrap_err();
    assert_eq!(err.message, "Invalid expression: Invalid cron expression.");
}

#[test]
fn parse_time_at_writes_five_occurrences() {
    let got = parse_time_at("0 30 * * * *", NEW_YEAR, 0);
    assert_eq!(
        got,
        vec![
            "2024-01-01 00:30:00",
            "2024-01-01 01:30:00",
            "2024-01-01 02:30:00",
            "2024-01-01 03:30:00",
            "2024-01-01 04:30:00",
        ]
    );
}

#[test]
fn parse_time_at_writes_local_time() {
    let got = parse_time_at("0 30 * * * *", NEW_YEAR, 8 * 3600);
    assert_eq!(got[0], "2024-01-01 08:30:00");
    assert_eq!(got.len(), 5);
}

#[test]
fn parse_time_at_of_an_invalid_expression_is_empty() {
    assert!(parse_time_at("not a schedule", NEW_YEAR, 0).is_empty());
}

#[test]
fn parse_time_reads_the_clock() {
    assert_eq!(parse_time("* * * * * *").len(), 5);
    assert!(parse_time("not a schedule").is_empty());
}

#[test]
fn an_occurrence_found_lies_after_the_instant_given() {
    let instants = [
        -CALENDAR_LIMIT,
        -62_167_219_201,
        -1_000_000_000,
        -1,
        0,
        NEW_YEAR,
        4_133_980_799,
        CALENDAR_LIMIT,
    ];
    for after in instants {
        for offset in [0, 3600, -86_399, 86_399] {
            for expr in ["* * * * * *", "0 0 0 29 2 *", "59 59 23 31 12 * 2100"] {
                if let Some(t) = next_after(expr, after, offset) {
                    assert!(t > after);
                }
            }
        }
    }
}

#[test]
fn occurrences_are_strictly_increasing() {
    let got = next_occurrences("*/7 */3 * * * *", NEW_YEAR - 1, -3600, 40).unwrap();
    assert_eq!(got.len(), 40);
    assert!(got[0] > NEW_YEAR - 1);
    for pair in got.windows(2) {
        assert!(pair[0] < pair[1]);
    }
}
