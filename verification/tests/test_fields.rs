use football_match_parser::calendar::read_date;
use football_match_parser::fields::{normalize, read_mark, trim, Extras, Mark};
use football_match_parser::status::{reserved_word, resolve_status};
use football_match_parser::text::{
    chars_of, index_of, read_small_number, scan_run, to_lower, trim_bounds, CharClass,
};
use football_match_parser::{validate_logical_mismatch, ParseError};

#[test]
fn validate_accepts_agreement_and_missing_sides() {
    assert_eq!(validate_logical_mismatch(Some("played"), Some("played")), Ok(()));
    assert_eq!(validate_logical_mismatch(Some("played"), None), Ok(()));
    assert_eq!(validate_logical_mismatch(None, Some("played")), Ok(()));
}

#[test]
fn validate_rejects_two_missing_sides() {
    assert_eq!(
        validate_logical_mismatch(None, None),
        Err(ParseError::Logical("Cannot determine match status".to_string()))
    );
}

#[test]
fn validate_rejects_disagreement() {
    assert_eq!(
        validate_logical_mismatch(Some("scheduled"), Some("played")),
        Err(ParseError::Logical(
            "Status mismatch: expected 'played', but found 'scheduled'".to_string()
        ))
    );
}

#[test]
fn resolve_status_table() {
    let some = |s: &str| Some(s.to_string());
    assert_eq!(
        resolve_status(None, None),
        Err(ParseError::Logical("Cannot determine match status".to_string()))
    );
    assert_eq!(resolve_status(some("played"), None), Ok(some("played")));
    assert_eq!(resolve_status(None, some("ongoing")), Ok(some("ongoing")));
    assert_eq!(resolve_status(some("ongoing"), some("ongoing")), Ok(some("ongoing")));
    assert_eq!(
        resolve_status(some("live"), some("ongoing")),
        Err(ParseError::Logical(
            "Status mismatch: expected 'ongoing', but found 'live'".to_string()
        ))
    );
}

#[test]
fn reserved_words() {
    for word in ["played", "scheduled", "ongoing", "live"] {
        assert!(reserved_word(word), "{}", word);
    }
    for word in ["Played", "", "playing", " live", "finished"] {
        assert!(!reserved_word(word), "{}", word);
    }
}

#[test]
fn read_date_checks_shape_and_calendar() {
    assert_eq!(read_date("2025-10-26"), Ok("2025-10-26".to_string()));
    assert_eq!(read_date("2024-02-29"), Ok("2024-02-29".to_string()));
    for field in ["2025-02-29", "2025-13-01", "2025-00-01", "2025-06-31", "2025-6-30", "", "2025-06-30 "]
    {
        assert_eq!(
            read_date(field),
            Err(ParseError::FieldFormat(format!("Invalid date: {}", field))),
            "{}",
            field
        );
    }
}

#[test]
fn read_mark_scores() {
    assert_eq!(read_mark("2:1"), Ok(Mark::Score(2, 1)));
    assert_eq!(read_mark(" 10 :  12 "), Ok(Mark::Score(10, 12)));
    assert_eq!(read_mark("255:000"), Ok(Mark::Score(255, 0)));
    assert_eq!(
        read_mark("256:1"),
        Err(ParseError::FieldFormat("Invalid home score: 256".to_string()))
    );
    assert_eq!(
        read_mark("1 : 1000000000000000000000000"),
        Err(ParseError::FieldFormat(
            "Invalid away score: 1000000000000000000000000".to_string()
        ))
    );
    assert_eq!(
        read_mark("X:Y"),
        Err(ParseError::FieldFormat("Invalid home score: x".to_string()))
    );
    assert_eq!(read_mark("2:"), Err(ParseError::FieldFormat("Invalid away score: ".to_string())));
    assert_eq!(
        read_mark("1:2:3"),
        Err(ParseError::FieldFormat("Invalid away score: 2:3".to_string()))
    );
}

#[test]
fn read_mark_marks() {
    assert_eq!(read_mark("-"), Ok(Mark::Scheduled));
    assert_eq!(read_mark(" - "), Ok(Mark::Scheduled));
    assert_eq!(read_mark("LIVE"), Ok(Mark::Ongoing));
    assert_eq!(read_mark("live"), Ok(Mark::Ongoing));
    assert_eq!(read_mark("45'"), Ok(Mark::Ongoing));
    assert_eq!(read_mark("90 + 3 '"), Ok(Mark::Ongoing));
    assert_eq!(
        read_mark("Half Time"),
        Err(ParseError::FieldFormat("Unknown score or mark: half time".to_string()))
    );
    assert_eq!(
        read_mark(""),
        Err(ParseError::FieldFormat("Unknown score or mark: ".to_string()))
    );
}

#[test]
fn mark_getters() {
    assert_eq!(Mark::Score(3, 4).expected_status(), "played");
    assert_eq!(Mark::Scheduled.expected_status(), "scheduled");
    assert_eq!(Mark::Ongoing.expected_status(), "ongoing");
    assert_eq!(Mark::Score(3, 4).home_score(), Some(3));
    assert_eq!(Mark::Score(3, 4).away_score(), Some(4));
    assert_eq!(Mark::Ongoing.home_score(), None);
    assert_eq!(Mark::Scheduled.away_score(), None);
}

#[test]
fn extras_take_fields_in_order() {
    let mut extras = Extras::new();
    assert_eq!(extras, Extras { stadium: None, status: None });
    extras.take_field("  Camp Nou ");
    assert_eq!(extras.stadium.as_deref(), Some("Camp Nou"));
    extras.take_field("PLAYED");
    assert_eq!(extras.status.as_deref(), Some("played"));
    extras.take_field("live");
    assert_eq!(extras.status.as_deref(), Some("played"));
    assert_eq!(extras.stadium.as_deref(), Some("Camp Nou"));
    extras.take_field("   ");
    assert_eq!(extras.stadium.as_deref(), Some("Camp Nou"));
    extras.take_field("Wembley");
    assert_eq!(extras.stadium.as_deref(), Some("Wembley"));
}

#[test]
fn trimming_and_lower_case() {
    assert_eq!(trim(" \t a b \t"), "a b");
    assert_eq!(trim("   "), "");
    assert_eq!(trim(""), "");
    assert_eq!(normalize("  OnGoing "), "ongoing");
    assert_eq!(normalize("\u{c9}T\u{c9}"), "\u{c9}t\u{c9}");
    assert_eq!(to_lower('A'), 'a');
    assert_eq!(to_lower('Z'), 'z');
    assert_eq!(to_lower('a'), 'a');
    assert_eq!(to_lower('['), '[');
    assert_eq!(to_lower('@'), '@');
    assert_eq!(to_lower('\u{c9}'), '\u{c9}');
}

#[test]
fn runs_and_numbers() {
    let chars = chars_of("12  ab:c");
    assert_eq!(chars.len(), 8);
    assert_eq!(scan_run(&chars, CharClass::Digit, 0), 2);
    assert_eq!(scan_run(&chars, CharClass::Blank, 2), 4);
    assert_eq!(scan_run(&chars, CharClass::Word, 4), 6);
    assert_eq!(scan_run(&chars, CharClass::Text, 0), 6);
    assert_eq!(scan_run(&chars, CharClass::Digit, 8), 8);
    assert_eq!(index_of(&chars, ':'), 6);
    assert_eq!(index_of(&chars, ';'), 8);
    assert_eq!(trim_bounds(&chars_of("  x ")), (2, 3));
    assert_eq!(read_small_number(&chars_of("255")), Some(255));
    assert_eq!(read_small_number(&chars_of("0007")), Some(7));
    assert_eq!(read_small_number(&chars_of("256")), None);
    assert_eq!(read_small_number(&chars_of("260")), None);
    assert_eq!(read_small_number(&chars_of("")), None);
    assert_eq!(read_small_number(&chars_of("1a")), None);
    assert_eq!(read_small_number(&chars_of("+1")), None);
}
