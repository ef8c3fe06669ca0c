use football_match_parser::{MatchGrammar, Rule};

#[test]
fn valid_dates() {
    let valid_dates = ["2025-11-05", "2000-01-03", "1976-03-30"];
    for date in valid_dates {
        let result = MatchGrammar::parse(Rule::date, date);
        assert!(result.is_ok(), "Should accept: {}", date);
        assert_eq!(result.unwrap().as_str(), date, "Should accept: {}", date);
    }
}

#[test]
fn invalid_dates() {
    let invalid_dates = [
        "25-11-05",
        "2025/11/05",
        "20251105",
        "abcd-ef-gh",
        "1976-3-30",
        "1976-10-3",
        "2025-13-01",
        "2025-11-33",
    ];
    for date in invalid_dates {
        let result = MatchGrammar::parse(Rule::date, date);
        assert!(result.is_err(), "Should reject: {}", date);
    }
}

#[test]
fn valid_time() {
    let valid_time = ["00:00", "09:45", "23:59", "04:05", "17:19"];
    for time in valid_time {
        let result = MatchGrammar::parse(Rule::time, time);
        assert!(result.is_ok(), "Should accept: {}", time);
        assert_eq!(result.unwrap().as_str(), time, "Should accept: {}", time);
    }
}

#[test]
fn invalid_time() {
    let invalid_time = ["0000", "24:61", "ab:cd", "5-30", "24:00", "13:99", "15:3"];
    for time in invalid_time {
        let result = MatchGrammar::parse(Rule::time, time);
        assert!(result.is_err(), "Should reject: {}", time);
    }
}

#[test]
fn date_syntax_bounds() {
    for date in ["0000-01-01", "9999-12-31", "2025-02-30", "2025-04-31", "1900-02-29"] {
        assert!(MatchGrammar::parse(Rule::date, date).is_ok(), "Should accept: {}", date);
    }
    for date in ["2025-00-10", "2025-10-00", "2025-10-32", "2025-10-2", "2025-10-266", ""] {
        assert!(MatchGrammar::parse(Rule::date, date).is_err(), "Should reject: {}", date);
    }
}

#[test]
fn time_syntax_bounds() {
    for time in ["23:00", "00:59", "19:30"] {
        assert!(MatchGrammar::parse(Rule::time, time).is_ok(), "Should accept: {}", time);
    }
    for time in ["23:60", "24:59", "1:30", "01:3", "01:300", "01.30", " 01:30", ""] {
        assert!(MatchGrammar::parse(Rule::time, time).is_err(), "Should reject: {}", time);
    }
}

#[test]
fn matched_text_and_rule() {
    let matched = MatchGrammar::parse(Rule::time, "09:45").unwrap();
    assert_eq!(matched.as_str(), "09:45");
    assert_eq!(matched.as_rule(), Rule::time);
}
