use football_match_parser::{MatchGrammar, Rule};

#[test]
fn valid_score_or_mark() {
    let valid_score = [
        "2:1", "1:1", "LIVE", "live", "41'", "90+6'", "-", "2 :  1", "45 '", "90  +3'",
    ];
    for score in valid_score {
        let result = MatchGrammar::parse(Rule::score_or_mark, score);
        assert!(result.is_ok());
        assert_eq!(result.unwrap().as_str(), score);
    }
}

#[test]
fn invalid_score_or_mark() {
    let invalid_score = ["2-1", "liv", "45", "90+", ":"];
    for score in invalid_score {
        let result = MatchGrammar::parse(Rule::score_or_mark, score);
        assert!(result.is_err(), "Should reject: {}", score);
    }
}

#[test]
fn score_sides_of_any_length_match() {
    for score in ["234:1", "1:123", "100:1", "256:0", "0:300", "0007:1000000000000000000000"] {
        let result = MatchGrammar::parse(Rule::score_or_mark, score);
        assert!(result.is_ok(), "Should accept: {}", score);
        assert_eq!(result.unwrap().as_str(), score);
    }
}

#[test]
fn score_or_mark_shapes() {
    for mark in ["0:0", "10:12", "99:99", "120'", "90 + 12 '", "LiVe", "2\t:\t1"] {
        assert!(MatchGrammar::parse(Rule::score_or_mark, mark).is_ok(), "Should accept: {}", mark);
    }
    for mark in ["2:", ":1", "'", "+3'", "90+'", "--", "lives", "2:1 ", "2:1:3", "2:-1", ""] {
        assert!(MatchGrammar::parse(Rule::score_or_mark, mark).is_err(), "Should reject: {}", mark);
    }
}
