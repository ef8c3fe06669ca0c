//! What holds of every line: which lines give which kind of error, what a
//! record that was read can be relied on to hold, and that reading depends
//! on the line alone.

use vstd::prelude::*;
use crate::calendar::{date_error, is_real_date};
use crate::fields::{mark_field, normalized, score_error, with_field, ExtrasView, Mark};
use crate::grammar::{
    is_match_line, is_time_syntax, lemma_shape_fits, line_shape, minute_end, score_end,
    score_or_mark_end, sign_end, syntax_error,
};
use crate::line::{
    away_goals, contradicts_itself, home_goals, line_date, line_mark, line_record, line_status,
    mark_at, parse_line, score_from_digits,
};
use crate::record::{outcome_view, ErrorView, Match, MatchView, ParseError};
use crate::status::{final_status, is_reserved_word, mismatch_error, undetermined_error};
use crate::text::{
    all_digits, decimal, is_digit, lemma_find_char_is, lemma_lowered_plain, lemma_run_end,
    lemma_trimmed_is, lowered, run_end, trimmed, word_at, CharClass,
};

verus! {

/// A score that the grammar accepts is read as the two numbers that its
/// digits write, and as an error where one of them is greater than 255.
proof fn lemma_score_is_read(s: Seq<char>, i: int)
    requires
        0 <= i <= s.len(),
        score_end(s, i) is Some,
    ensures
        mark_field(s.subrange(i, score_end(s, i)->0)) == score_from_digits(
            home_goals(s, i),
            away_goals(s, i),
        ),
{
    let digit = CharClass::Digit;
    let blank = CharClass::Blank;
    let home_end = run_end(s, digit, i);
    lemma_run_end(s, digit, i);
    let colon = run_end(s, blank, home_end);
    lemma_run_end(s, blank, home_end);
    let away = run_end(s, blank, colon + 1);
    lemma_run_end(s, blank, colon + 1);
    let end = run_end(s, digit, away);
    lemma_run_end(s, digit, away);
    assert(score_end(s, i) == Some(end));
    let t = s.subrange(i, end);
    assert forall|k: int| 0 <= k < t.len() implies !('A' <= #[trigger] t[k] <= 'Z') && (k != colon
        - i ==> t[k] != ':') by {
        let at = i + k;
        assert(t[k] == s[at]);
        if at < home_end {
            assert(digit.has(s[at]));
        } else if at < colon {
            assert(blank.has(s[at]));
        } else if at == colon {
        } else if at < away {
            assert(blank.has(s[at]));
        } else {
            assert(digit.has(s[at]));
        }
    }
    assert(digit.has(s[i]) && digit.has(s[end - 1]));
    lemma_trimmed_is(t, 0, t.len() as int);
    lemma_lowered_plain(t);
    assert(normalized(t) == t);
    lemma_find_char_is(t, ':', 0, colon - i);
    let home_side = t.subrange(0, colon - i);
    let away_side = t.subrange(colon - i + 1, t.len() as int);
    assert forall|k: int| home_end - i <= k < home_side.len() implies blank.has(
        #[trigger] home_side[k],
    ) by {
        assert(home_side[k] == s[i + k]);
    }
    assert(digit.has(s[home_end - 1]));
    lemma_trimmed_is(home_side, 0, home_end - i);
    assert(home_side.subrange(0, home_end - i) =~= s.subrange(i, home_end));
    assert forall|k: int| 0 <= k < away - colon - 1 implies blank.has(#[trigger] away_side[k]) by {
        assert(away_side[k] == s[colon + 1 + k]);
    }
    assert(away_side[away - colon - 1] == s[away]);
    assert(away_side[away_side.len() - 1] == s[end - 1]);
    lemma_trimmed_is(away_side, away - colon - 1, away_side.len() as int);
    assert(away_side.subrange(away - colon - 1, away_side.len() as int) =~= s.subrange(away, end));
    let home_digits = s.subrange(i, home_end);
    let away_digits = s.subrange(away, end);
    assert(all_digits(home_digits)) by {
        assert forall|k: int| 0 <= k < home_digits.len() implies is_digit(
            #[trigger] home_digits[k],
        ) by {
            assert(digit.has(s[i + k]));
        }
    }
    assert(all_digits(away_digits)) by {
        assert forall|k: int| 0 <= k < away_digits.len() implies is_digit(
            #[trigger] away_digits[k],
        ) by {
            assert(digit.has(s[away + k]));
        }
    }
    assert(home_digits == home_goals(s, i));
    assert(away_digits == away_goals(s, i));
    assert(trimmed(home_side) == home_digits);
    assert(trimmed(away_side) == away_digits);
}

/// A minute mark that the grammar accepts is read as the mark of an ongoing
/// match.
proof fn lemma_minute_is_read(s: Seq<char>, i: int)
    requires
        0 <= i <= s.len(),
        minute_end(s, i) is Some,
    ensures
        mark_field(s.subrange(i, minute_end(s, i)->0)) == Ok::<Mark, ErrorView>(Mark::Ongoing),
{
    let digit = CharClass::Digit;
    let blank = CharClass::Blank;
    let minute = run_end(s, digit, i);
    lemma_run_end(s, digit, i);
    let sign = run_end(s, blank, minute);
    lemma_run_end(s, blank, minute);
    let end = minute_end(s, i)->0;
    assert(minute < end <= s.len()) by {
        if sign_end(s, minute, '+') is Some {
            lemma_run_end(s, blank, sign + 1);
            let added_end = run_end(s, digit, run_end(s, blank, sign + 1));
            lemma_run_end(s, digit, run_end(s, blank, sign + 1));
            lemma_run_end(s, blank, added_end);
        }
    }
    let t = s.subrange(i, end);
    if sign_end(s, minute, '+') is Some {
        let added = run_end(s, blank, sign + 1);
        lemma_run_end(s, blank, sign + 1);
        let added_end = run_end(s, digit, added);
        lemma_run_end(s, digit, added);
        let tick = run_end(s, blank, added_end);
        lemma_run_end(s, blank, added_end);
        assert(end == tick + 1);
        assert forall|k: int| 0 <= k < t.len() implies !('A' <= #[trigger] t[k] <= 'Z') && t[k]
            != ':' by {
            let at = i + k;
            assert(t[k] == s[at]);
            if at < minute {
                assert(digit.has(s[at]));
            } else if at < sign {
                assert(blank.has(s[at]));
            } else if at == sign {
            } else if at < added {
                assert(blank.has(s[at]));
            } else if at < added_end {
                assert(digit.has(s[at]));
            } else if at < tick {
                assert(blank.has(s[at]));
            } else {
            }
        }
    } else {
        assert(end == sign + 1);
        assert forall|k: int| 0 <= k < t.len() implies !('A' <= #[trigger] t[k] <= 'Z') && t[k]
            != ':' by {
            let at = i + k;
            assert(t[k] == s[at]);
            if at < minute {
                assert(digit.has(s[at]));
            } else if at < sign {
                assert(blank.has(s[at]));
            } else {
            }
        }
    }
    assert(digit.has(s[i]));
    assert(t[0] == s[i]);
    assert(t.last() == s[end - 1] == '\'');
    lemma_trimmed_is(t, 0, t.len() as int);
    assert(trimmed(t) =~= t);
    lemma_lowered_plain(t);
    assert(normalized(t) == t);
    lemma_find_char_is(t, ':', 0, t.len() as int);
    reveal_strlit("-");
    assert(t.len() >= 2);
}

/// A lone hyphen is read as the mark of a scheduled match.
proof fn lemma_hyphen_is_read(s: Seq<char>, i: int)
    requires
        0 <= i < s.len(),
        s[i] == '-',
    ensures
        mark_field(s.subrange(i, i + 1)) == Ok::<Mark, ErrorView>(Mark::Scheduled),
{
    let t = s.subrange(i, i + 1);
    assert(t[0] == '-');
    lemma_trimmed_is(t, 0, 1);
    assert(trimmed(t) =~= t);
    lemma_lowered_plain(t);
    assert(normalized(t) == t);
    lemma_find_char_is(t, ':', 0, 1);
    reveal_strlit("-");
    assert(t =~= "-"@);
}

/// The word `live`, in any letter case, is read as the mark of an ongoing
/// match.
proof fn lemma_live_is_read(s: Seq<char>, i: int)
    requires
        word_at(s, i, "live"@),
    ensures
        mark_field(s.subrange(i, i + "live"@.len())) == Ok::<Mark, ErrorView>(Mark::Ongoing),
{
    reveal_strlit("live");
    reveal_strlit("-");
    let t = s.subrange(i, i + 4);
    let low = lowered(t);
    assert(low == "live"@);
    assert(low[0] == 'l' && low[3] == 'e');
    assert(!CharClass::Blank.has(t[0]) && !CharClass::Blank.has(t[3]));
    lemma_trimmed_is(t, 0, 4);
    assert(trimmed(t) =~= t);
    assert(normalized(t) == low);
    assert(low[1] == 'i' && low[2] == 'v');
    lemma_find_char_is(low, ':', 0, 4);
}

/// On a score or mark that the grammar accepts, reading the field gives
/// what the matching rule of the grammar says: for a score the numbers that
/// its digits write, or an error where one of them is greater than 255; a
/// scheduled match for a hyphen; an ongoing one for a minute mark or `live`.
pub proof fn lemma_mark_is_read(s: Seq<char>, i: int)
    requires
        0 <= i <= s.len(),
        score_or_mark_end(s, i) is Some,
    ensures
        mark_field(s.subrange(i, score_or_mark_end(s, i)->0)) == mark_at(s, i),
{
    if score_end(s, i) is Some {
        lemma_score_is_read(s, i);
    } else if minute_end(s, i) is Some {
        lemma_minute_is_read(s, i);
    } else if i < s.len() && s[i] == '-' {
        lemma_hyphen_is_read(s, i);
    } else {
        lemma_live_is_read(s, i);
    }
}

/// On a match line the score or mark field is read as what the grammar says
/// it is. Reading it fails only for a score, and only where a side of the
/// score is greater than 255; the error then names the first such side,
/// with its digits.
pub proof fn theorem_line_mark(s: Seq<char>)
    requires
        is_match_line(s),
    ensures
        line_mark(s) == mark_at(s, line_shape(s)->0.mark.0),
        line_mark(s) is Err <==> score_end(s, line_shape(s)->0.mark.0) is Some && (decimal(
            home_goals(s, line_shape(s)->0.mark.0),
        ) > 255 || decimal(away_goals(s, line_shape(s)->0.mark.0)) > 255),
        line_mark(s) matches Err(e) ==> e is FieldFormat,
{
    lemma_shape_fits(s);
    lemma_mark_is_read(s, line_shape(s)->0.mark.0);
}

/// A line gives a syntax error exactly when it does not match the grammar;
/// the error then quotes the line.
pub proof fn theorem_syntax_error(s: Seq<char>)
    ensures
        !is_match_line(s) ==> parse_line(s) == Err::<MatchView, ErrorView>(syntax_error(s)),
        parse_line(s) matches Err(ErrorView::Syntax(_)) ==> !is_match_line(s),
{
    if is_match_line(s) {
        theorem_line_mark(s);
    }
}

/// A match line gives a field-format error exactly when its date is not a
/// day of the calendar or a side of its score is greater than 255. The
/// date is looked at first: where it is at fault the error quotes the date,
/// and else the error is the one that reading the score gives. No other
/// line gives a field-format error.
pub proof fn theorem_field_format_error(s: Seq<char>)
    ensures
        is_match_line(s) && !is_real_date(line_date(s)) ==> parse_line(s) == Err::<
            MatchView,
            ErrorView,
        >(date_error(line_date(s))),
        is_match_line(s) && is_real_date(line_date(s)) && line_mark(s) is Err ==> parse_line(s)
            == Err::<MatchView, ErrorView>(line_mark(s)->Err_0),
        parse_line(s) matches Err(ErrorView::FieldFormat(_)) <==> is_match_line(s) && (
        !is_real_date(line_date(s)) || line_mark(s) is Err),
{
    if is_match_line(s) {
        theorem_line_mark(s);
    }
}

/// A match line with a date of the calendar and a score of which a side is
/// greater than 255 gives the field-format error that names that side, with
/// its digits as they stand in the line; the home side is named where both
/// are too great.
pub proof fn theorem_score_overflow(s: Seq<char>)
    requires
        is_match_line(s),
        is_real_date(line_date(s)),
        score_end(s, line_shape(s)->0.mark.0) is Some,
    ensures
        decimal(home_goals(s, line_shape(s)->0.mark.0)) > 255 ==> parse_line(s) == Err::<
            MatchView,
            ErrorView,
        >(score_error(true, home_goals(s, line_shape(s)->0.mark.0))),
        decimal(home_goals(s, line_shape(s)->0.mark.0)) <= 255 && decimal(
            away_goals(s, line_shape(s)->0.mark.0),
        ) > 255 ==> parse_line(s) == Err::<MatchView, ErrorView>(
            score_error(false, away_goals(s, line_shape(s)->0.mark.0)),
        ),
{
    theorem_line_mark(s);
}

/// A match line whose date and score are valid gives a logical error
/// exactly when it names a status other than the one that its score or mark
/// implies; the error then names both. No other line gives a logical error.
pub proof fn theorem_logical_error(s: Seq<char>)
    ensures
        is_match_line(s) && is_real_date(line_date(s)) && contradicts_itself(s) ==> parse_line(s)
            == Err::<MatchView, ErrorView>(
            mismatch_error(line_mark(s)->Ok_0.status(), line_status(s)->0),
        ),
        parse_line(s) matches Err(ErrorView::Logical(_)) <==> is_match_line(s) && is_real_date(
            line_date(s),
        ) && contradicts_itself(s),
{
    if is_match_line(s) {
        theorem_line_mark(s);
    }
}

/// A line is read into a record exactly when it matches the grammar, its
/// date is a day of the calendar, no side of its score is greater than 255,
/// and it names no status other than the one that its score or mark
/// implies. The record holds the fields of the line, the score that its
/// digits write, and that status.
pub proof fn theorem_record(s: Seq<char>)
    ensures
        parse_line(s) is Ok <==> is_match_line(s) && is_real_date(line_date(s)) && line_mark(s)
            is Ok && !contradicts_itself(s),
        parse_line(s) is Ok ==> parse_line(s) == Ok::<MatchView, ErrorView>(line_record(s)),
{
    if is_match_line(s) {
        theorem_line_mark(s);
    }
}

/// Every record that is read has both scores or neither and one of the
/// three canonical statuses.
pub proof fn theorem_record_is_consistent(s: Seq<char>)
    ensures
        parse_line(s) matches Ok(record) ==> record.is_consistent(),
{
    if is_match_line(s) {
        theorem_line_mark(s);
    }
}

/// Every record that is read holds a date of the calendar, a time of the
/// day, two team names that are not empty, and, where it names a stadium, a
/// name that is not empty and is no reserved word.
pub proof fn theorem_record_fields(s: Seq<char>)
    ensures
        parse_line(s) matches Ok(record) ==> {
            &&& is_real_date(record.date)
            &&& is_time_syntax(record.time)
            &&& record.home_team.len() > 0
            &&& record.away_team.len() > 0
            &&& record.stadium matches Some(name) ==> name.len() > 0 && !is_reserved_word(
                lowered(name),
            )
        },
{
    if is_match_line(s) {
        theorem_line_mark(s);
        lemma_shape_fits(s);
    }
}

/// How the status of a record is decided, for every status that a line may
/// name and every status that a score or mark may imply: with neither there
/// is an error; with one of them it is the status; with both, they must be
/// the same.
pub proof fn theorem_status_table(explicit: Option<Seq<char>>, expected: Option<Seq<char>>)
    ensures
        explicit is None && expected is None ==> final_status(explicit, expected) == Err::<
            Option<Seq<char>>,
            ErrorView,
        >(undetermined_error()),
        explicit is Some && expected is None ==> final_status(explicit, expected) == Ok::<
            Option<Seq<char>>,
            ErrorView,
        >(explicit),
        explicit is None && expected is Some ==> final_status(explicit, expected) == Ok::<
            Option<Seq<char>>,
            ErrorView,
        >(expected),
        explicit is Some && explicit == expected ==> final_status(explicit, expected) == Ok::<
            Option<Seq<char>>,
            ErrorView,
        >(explicit),
        explicit is Some && expected is Some && explicit != expected ==> final_status(
            explicit,
            expected,
        ) == Err::<Option<Seq<char>>, ErrorView>(mismatch_error(expected->0, explicit->0)),
{
}

/// Reading an optional field never makes a reserved word the stadium, never
/// changes a status that is known already, and leaves an empty stadium out.
pub proof fn theorem_reserved_words_win(seen: ExtrasView, t: Seq<char>)
    ensures
        seen.status is Some ==> with_field(seen, t).status == seen.status,
        is_reserved_word(normalized(t)) ==> with_field(seen, t).stadium == seen.stadium,
        with_field(seen, t).stadium != seen.stadium ==> with_field(seen, t).stadium == Some(
            trimmed(t),
        ) && trimmed(t).len() > 0 && !is_reserved_word(lowered(trimmed(t))),
{
}

/// Reading depends on the line alone: two readings of one line give the
/// same result.
pub proof fn theorem_reading_is_repeatable(
    line: Seq<char>,
    first: Result<Match, ParseError>,
    second: Result<Match, ParseError>,
)
    requires
        outcome_view(first) == parse_line(line),
        outcome_view(second) == parse_line(line),
    ensures
        outcome_view(first) == outcome_view(second),
{
}

} // verus!
