//! Reading a whole line: the grammar splits it into fields, the fields are
//! read one by one, and the status is settled last.

use vstd::prelude::*;
use crate::calendar::{date_field, is_real_date, read_date};
use crate::fields::{
    mark_field, no_extras, read_mark, score_error, with_optional_field, Extras, ExtrasView, Mark,
};
use crate::grammar::{
    is_match_line, line_shape, minute_end, score_end, split_line, syntax_error, syntax_failure,
    LineShape,
};
use crate::record::{outcome_view, ErrorView, Match, MatchView, ParseError};
use crate::status::{final_status, resolve_status};
use crate::text::{chars_of, decimal, run_end, CharClass};
use crate::theorems::{
    theorem_field_format_error, theorem_logical_error, theorem_record,
    theorem_record_is_consistent, theorem_syntax_error,
};

verus! {

/// The characters of `s` within the bounds of a field.
pub open spec fn piece(s: Seq<char>, field: (int, int)) -> Seq<char> {
    s.subrange(field.0, field.1)
}

/// The characters of `s` within the bounds of an optional field.
pub open spec fn optional_piece(s: Seq<char>, field: Option<(int, int)>) -> Option<Seq<char>> {
    match field {
        Some(f) => Some(piece(s, f)),
        None => None,
    }
}

/// What the optional fields of the line `s` give, read in their order.
pub open spec fn line_extras(s: Seq<char>, shape: LineShape) -> ExtrasView {
    with_optional_field(
        with_optional_field(no_extras(), optional_piece(s, shape.first)),
        optional_piece(s, shape.second),
    )
}

/// What reading the fields of the line `s` gives, the fields standing where
/// `shape` says. The date is read first, then the score or mark, then the
/// optional fields in their order; the status is settled last. The first
/// error ends the reading.
pub open spec fn read_fields(s: Seq<char>, shape: LineShape) -> Result<MatchView, ErrorView> {
    match date_field(piece(s, shape.date)) {
        Err(e) => Err(e),
        Ok(date) => match mark_field(piece(s, shape.mark)) {
            Err(e) => Err(e),
            Ok(mark) => {
                let extras = line_extras(s, shape);
                match final_status(extras.status, Some(mark.status())) {
                    Err(e) => Err(e),
                    Ok(status) => Ok(
                        MatchView {
                            date,
                            time: piece(s, shape.time),
                            home_team: piece(s, shape.home),
                            away_team: piece(s, shape.away),
                            home_score: mark.home(),
                            away_score: mark.away(),
                            stadium: extras.stadium,
                            status,
                        },
                    ),
                }
            },
        },
    }
}

/// What reading the line `s` gives: a syntax error where `s` is no match
/// line, and else what reading its fields gives.
pub open spec fn parse_line(s: Seq<char>) -> Result<MatchView, ErrorView> {
    match line_shape(s) {
        None => Err(syntax_error(s)),
        Some(shape) => read_fields(s, shape),
    }
}

/// The digits of the home side of the score that starts at `i`.
pub open spec fn home_goals(s: Seq<char>, i: int) -> Seq<char> {
    s.subrange(i, run_end(s, CharClass::Digit, i))
}

/// Where the digits of the away side start in the score that starts at `i`:
/// after the digits of the home side, the colon and the blanks around it.
pub open spec fn away_goals_start(s: Seq<char>, i: int) -> int {
    run_end(
        s,
        CharClass::Blank,
        run_end(s, CharClass::Blank, run_end(s, CharClass::Digit, i)) + 1,
    )
}

/// The digits of the away side of the score that starts at `i`.
pub open spec fn away_goals(s: Seq<char>, i: int) -> Seq<char> {
    home_goals(s, away_goals_start(s, i))
}

/// What a score says whose sides are written by the digits `home` and
/// `away`: the two numbers where each is at most 255, and else an error that
/// names the first side that is greater, with its digits.
pub open spec fn score_from_digits(home: Seq<char>, away: Seq<char>) -> Result<Mark, ErrorView> {
    if decimal(home) > 255 {
        Err(score_error(true, home))
    } else if decimal(away) > 255 {
        Err(score_error(false, away))
    } else {
        Ok(Mark::Score(decimal(home) as u8, decimal(away) as u8))
    }
}

/// What the score or mark that starts at `i` says, going by the rule of the
/// grammar that it matches.
pub open spec fn mark_at(s: Seq<char>, i: int) -> Result<Mark, ErrorView> {
    if score_end(s, i) is Some {
        score_from_digits(home_goals(s, i), away_goals(s, i))
    } else if minute_end(s, i) is Some {
        Ok(Mark::Ongoing)
    } else if 0 <= i < s.len() && s[i] == '-' {
        Ok(Mark::Scheduled)
    } else {
        Ok(Mark::Ongoing)
    }
}

/// The date field of the match line `s`.
pub open spec fn line_date(s: Seq<char>) -> Seq<char> {
    piece(s, line_shape(s)->0.date)
}

/// What reading the score or mark field of the match line `s` gives.
pub open spec fn line_mark(s: Seq<char>) -> Result<Mark, ErrorView> {
    mark_field(piece(s, line_shape(s)->0.mark))
}

/// The status that the match line `s` names in one of its optional fields,
/// if it names one.
pub open spec fn line_status(s: Seq<char>) -> Option<Seq<char>> {
    line_extras(s, line_shape(s)->0).status
}

/// Whether the match line `s` names a status other than the one that its
/// score or mark implies.
pub open spec fn contradicts_itself(s: Seq<char>) -> bool {
    line_mark(s) matches Ok(mark) && line_status(s) matches Some(status) && status
        != mark.status()
}

/// The record that the match line `s` gives where nothing is wrong with it.
pub open spec fn line_record(s: Seq<char>) -> MatchView {
    let shape = line_shape(s)->0;
    let mark = line_mark(s)->Ok_0;
    MatchView {
        date: line_date(s),
        time: piece(s, shape.time),
        home_team: piece(s, shape.home),
        away_team: piece(s, shape.away),
        home_score: mark.home(),
        away_score: mark.away(),
        stadium: line_extras(s, shape).stadium,
        status: Some(mark.status()),
    }
}

/// Reads one line of match data,
/// `YYYY-MM-DD; HH:MM; Home - Away; ScoreOrMark[; Stadium][; Status]`,
/// into a record.
///
/// A line that does not match the grammar gives a syntax error. A line that
/// does, but whose date is not in the calendar or whose score has a side
/// greater than 255, gives a field-format error. A line whose fields are
/// valid but that names a status other than the one its score or mark
/// implies gives a logical error.
pub fn parse_match_line(line: &str) -> (r: Result<Match, ParseError>)
    ensures
        outcome_view(r) == parse_line(line@),
        (r matches Err(ParseError::Syntax(_))) <==> !is_match_line(line@),
        (r matches Err(ParseError::FieldFormat(_))) <==> is_match_line(line@) && (!is_real_date(
            line_date(line@),
        ) || line_mark(line@) is Err),
        (r matches Err(ParseError::Logical(_))) <==> is_match_line(line@) && is_real_date(
            line_date(line@),
        ) && contradicts_itself(line@),
        r is Ok <==> is_match_line(line@) && is_real_date(line_date(line@)) && line_mark(line@) is Ok
            && !contradicts_itself(line@),
        r matches Ok(record) ==> record@ == line_record(line@) && record@.is_consistent(),
{
    proof {
        theorem_syntax_error(line@);
        theorem_field_format_error(line@);
        theorem_logical_error(line@);
        theorem_record(line@);
        theorem_record_is_consistent(line@);
    }
    let chars = chars_of(line);
    let spans = match split_line(chars.as_slice()) {
        Some(spans) => spans,
        None => {
            return Err(syntax_failure(line));
        },
    };
    let date = match read_date(line.substring_char(spans.date.0, spans.date.1)) {
        Ok(date) => date,
        Err(e) => {
            return Err(e);
        },
    };
    let mark = match read_mark(line.substring_char(spans.mark.0, spans.mark.1)) {
        Ok(mark) => mark,
        Err(e) => {
            return Err(e);
        },
    };
    let mut extras = Extras::new();
    match spans.first {
        Some(field) => {
            extras.take_field(line.substring_char(field.0, field.1));
        },
        None => {},
    }
    match spans.second {
        Some(field) => {
            extras.take_field(line.substring_char(field.0, field.1));
        },
        None => {},
    }
    let Extras { stadium, status } = extras;
    let status = match resolve_status(status, Some(mark.expected_status())) {
        Ok(status) => status,
        Err(e) => {
            return Err(e);
        },
    };
    Ok(
        Match {
            date,
            time: String::from_str(line.substring_char(spans.time.0, spans.time.1)),
            home_team: String::from_str(line.substring_char(spans.home.0, spans.home.1)),
            away_team: String::from_str(line.substring_char(spans.away.0, spans.away.1)),
            home_score: mark.home_score(),
            away_score: mark.away_score(),
            stadium,
            status,
        },
    )
}

} // verus!
