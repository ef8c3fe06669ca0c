use football_match_parser::{MatchGrammar, Rule};

#[test]
fn valid_match_lines() {
    let valid_match_lines = [
        "2025-10-26; 17:15; RealMadrid - Barcelona; 2:1; Santiago  Bernabeu",
        "2025-11-04; 20:00; PSG   - Bavaria; LIVE; Parc des Princes",
        "2025-11-04; 20:00; PSG - Bavaria; 15'; Parc des   Princes",
        "2025-11-04; 20:00; PSG - Bavaria; live;   Parc des Princes; ongoing",
        "2025-12-06; 18:00; Kudrivka - Dynamo Kyiv; -   ; scheduled",
        "2025-11-04; 20:00; PSG - Bavaria; LIVE",
    ];
    for match_line in valid_match_lines {
        let result = MatchGrammar::parse(Rule::match_line, match_line);
        assert!(result.is_ok(), "Should accept: {}", match_line);
        assert_eq!(result.unwrap().as_str(), match_line, "Should accept: {}", match_line);
    }
}

#[test]
fn invalid_match_lines() {
    let invalid_lines = [
        "",
        "2025-13-26; 17:15; RealMadrid - Barcelona; 2:1",
        "2025-10-26; 25:00; PSG - Bavaria; LIVE",
        "2025-10-26 17:15; PSG - Bavaria; 2:1",
        "2025-12-06; 18:00; Kudrivka - Dynamo Kyiv; - ; scheduled;",
        "2025-10-26; 17:15; PSG - Bavaria; LIVE; ; ;  scheduled",
        "2025-10-26; 17:15; PSG - Bavaria; LIVE; Camp*Nou",
    ];
    for line in invalid_lines {
        let result = MatchGrammar::parse(Rule::match_line, line);
        assert!(result.is_err(), "Should reject: {}", line.escape_default());
    }
}

#[test]
fn match_lines_without_blanks() {
    for line in ["2025-10-26;17:15;A-1 - B;2:1", "2025-10-26\t;\t17:15;A- B;-;x;y"] {
        assert!(MatchGrammar::parse(Rule::match_line, line).is_ok(), "Should accept: {}", line);
    }
}

#[test]
fn match_lines_with_too_many_fields() {
    let line = "2025-10-26; 17:15; PSG - Bavaria; LIVE; Camp Nou; ongoing; more";
    assert!(MatchGrammar::parse(Rule::match_line, line).is_err());
}

#[test]
fn match_lines_with_blanks_at_the_ends() {
    assert!(MatchGrammar::parse(Rule::match_line, " 2025-10-26; 17:15; A - B; 2:1").is_err());
    assert!(MatchGrammar::parse(Rule::match_line, "2025-10-26; 17:15; A - B; 2:1 ").is_err());
    assert!(MatchGrammar::parse(Rule::match_line, "2025-10-26; 17:15; A - B; 2:1; Camp Nou ").is_ok());
}
