//! The grammar of a match line, and the matcher that holds a text against it.
//!
//! ```text
//! match_line    := date sep time sep teams sep score_or_mark [sep text] [sep text]
//! sep           := blank* ';' blank*
//! date          := digit{4} '-' month '-' day        month 01..12, day 01..31
//! time          := hour ':' minute                   hour 00..23, minute 00..59
//! teams         := team_name blank* '-' blank* team_name
//! team_name     := team_word (' ' team_word)*
//! team_word     := word_char+ ('-' word_char+)*
//! score_or_mark := digit+ blank* ':' blank* digit+
//!                | digit+ [blank* '+' blank* digit+] blank* '\''
//!                | '-'
//!                | "live"                            in any letter case
//! text          := (word_char | '-') (word_char | '-' | ' ')*
//! status        := "played" | "scheduled" | "ongoing"   in any letter case
//! ```
//!
//! Every rule takes the longest match it can and is never entered again for a
//! shorter one. A line matches only as a whole. The month and the day are held
//! to their ranges here, so a line with month 13 has a syntax error; whether
//! the day exists in its month is a matter of the date field. A side of a
//! score may have any number of digits; whether the number fits the record
//! is a matter of the score field.
//!
//! The rules are stated as functions from a text and a position to the
//! position at which the match ends, if there is one.

use vstd::prelude::*;
use vstd::slice::slice_subrange;
use crate::calendar::{date_day, date_month, has_date_shape, is_date_text, two_digits};
use crate::record::{ErrorView, ParseError};
use crate::text::{
    chars_of, digit_of, has_word_at, is_digit, is_word_char, lemma_run_end, run_end, scan_run,
    word_at, word_char, CharClass,
};

verus! {

/// Whether `t` is a date as the grammar has it: the shape `YYYY-MM-DD` with
/// a month from 01 to 12 and a day from 01 to 31.
pub open spec fn is_date_syntax(t: Seq<char>) -> bool {
    is_date_text(t) && 1 <= date_month(t) <= 12 && 1 <= date_day(t) <= 31
}

/// Whether `t` is a time as the grammar has it: the shape `HH:MM` with an
/// hour from 00 to 23 and a minute from 00 to 59.
pub open spec fn is_time_syntax(t: Seq<char>) -> bool {
    &&& t.len() == 5
    &&& is_digit(t[0]) && is_digit(t[1])
    &&& t[2] == ':'
    &&& is_digit(t[3]) && is_digit(t[4])
    &&& two_digits(t, 0) <= 23
    &&& two_digits(t, 3) <= 59
}

/// Where the date that starts at `i` ends.
pub open spec fn date_end(s: Seq<char>, i: int) -> Option<int> {
    if 0 <= i && i + 10 <= s.len() && is_date_syntax(s.subrange(i, i + 10)) {
        Some(i + 10)
    } else {
        None
    }
}

/// Where the time that starts at `i` ends.
pub open spec fn time_end(s: Seq<char>, i: int) -> Option<int> {
    if 0 <= i && i + 5 <= s.len() && is_time_syntax(s.subrange(i, i + 5)) {
        Some(i + 5)
    } else {
        None
    }
}

/// Whether `c` may join two word characters of a name: a hyphen, and
/// between the words of a `spaced` name a single space too.
pub open spec fn joins(c: char, spaced: bool) -> bool {
    c == '-' || (spaced && c == ' ')
}

/// Whether a name that has come as far as `i` goes on over the character
/// there: a word character, or a joining character with a word character
/// right after it.
pub open spec fn name_goes_on(s: Seq<char>, spaced: bool, i: int) -> bool {
    0 <= i < s.len() && (is_word_char(s[i]) || (joins(s[i], spaced) && i + 1 < s.len()
        && is_word_char(s[i + 1])))
}

/// Where the name that has come as far as `i` ends.
pub open spec fn name_run(s: Seq<char>, spaced: bool, i: int) -> int
    decreases s.len() - i,
{
    if name_goes_on(s, spaced, i) {
        name_run(s, spaced, i + 1)
    } else {
        i
    }
}

/// Where the name that starts at `i` ends: a single word, or the words of a
/// `spaced` name. A name starts with a word character.
pub open spec fn name_end(s: Seq<char>, spaced: bool, i: int) -> Option<int> {
    if 0 <= i < s.len() && is_word_char(s[i]) {
        Some(name_run(s, spaced, i))
    } else {
        None
    }
}

/// Where the team word that starts at `i` ends.
pub open spec fn team_word_end(s: Seq<char>, i: int) -> Option<int> {
    name_end(s, false, i)
}

/// Where the team name that starts at `i` ends.
pub open spec fn team_name_end(s: Seq<char>, i: int) -> Option<int> {
    name_end(s, true, i)
}

/// The parts of the teams field that starts at `i`: where the home team
/// ends, where the away team starts, and where it ends.
pub open spec fn teams_shape(s: Seq<char>, i: int) -> Option<(int, int, int)> {
    match team_name_end(s, i) {
        None => None,
        Some(home_end) => {
            let dash = run_end(s, CharClass::Blank, home_end);
            if 0 <= dash < s.len() && s[dash] == '-' {
                let away = run_end(s, CharClass::Blank, dash + 1);
                match team_name_end(s, away) {
                    None => None,
                    Some(end) => Some((home_end, away, end)),
                }
            } else {
                None
            }
        },
    }
}

/// Where the run of one or more digits that starts at `i` ends.
pub open spec fn digits_end(s: Seq<char>, i: int) -> Option<int> {
    let end = run_end(s, CharClass::Digit, i);
    if i < end {
        Some(end)
    } else {
        None
    }
}

/// Where the character `c` that follows the blanks from `i` on ends.
pub open spec fn sign_end(s: Seq<char>, i: int, c: char) -> Option<int> {
    let at = run_end(s, CharClass::Blank, i);
    if 0 <= at < s.len() && s[at] == c {
        Some(at + 1)
    } else {
        None
    }
}

/// Where the score that starts at `i` ends: one or more digits for each
/// side, a colon between them.
pub open spec fn score_end(s: Seq<char>, i: int) -> Option<int> {
    match digits_end(s, i) {
        None => None,
        Some(home_end) => match sign_end(s, home_end, ':') {
            None => None,
            Some(colon_end) => digits_end(s, run_end(s, CharClass::Blank, colon_end)),
        },
    }
}

/// Where the minute mark that starts at `i` ends: the minute, the added
/// minutes after a plus sign where there are any, and an apostrophe.
pub open spec fn minute_end(s: Seq<char>, i: int) -> Option<int> {
    match digits_end(s, i) {
        None => None,
        Some(minute_end) => match sign_end(s, minute_end, '+') {
            None => sign_end(s, minute_end, '\''),
            Some(plus_end) => match digits_end(s, run_end(s, CharClass::Blank, plus_end)) {
                None => None,
                Some(added_end) => sign_end(s, added_end, '\''),
            },
        },
    }
}

/// Where the word `word`, in any letter case, that starts at `i` ends.
pub open spec fn word_end(s: Seq<char>, i: int, word: Seq<char>) -> Option<int> {
    if word_at(s, i, word) {
        Some(i + word.len())
    } else {
        None
    }
}

/// Where the score or mark that starts at `i` ends.
pub open spec fn score_or_mark_end(s: Seq<char>, i: int) -> Option<int> {
    if score_end(s, i) is Some {
        score_end(s, i)
    } else if minute_end(s, i) is Some {
        minute_end(s, i)
    } else if 0 <= i < s.len() && s[i] == '-' {
        Some(i + 1)
    } else {
        word_end(s, i, "live"@)
    }
}

/// Where the free text that starts at `i` ends. It starts with a character
/// other than a space and runs as far as its characters go.
pub open spec fn text_end(s: Seq<char>, i: int) -> Option<int> {
    if 0 <= i < s.len() && CharClass::Text.has(s[i]) && s[i] != ' ' {
        Some(run_end(s, CharClass::Text, i))
    } else {
        None
    }
}

/// Where the status word that starts at `i` ends.
pub open spec fn status_end(s: Seq<char>, i: int) -> Option<int> {
    if word_at(s, i, "played"@) {
        word_end(s, i, "played"@)
    } else if word_at(s, i, "scheduled"@) {
        word_end(s, i, "scheduled"@)
    } else {
        word_end(s, i, "ongoing"@)
    }
}

/// Where the separator that starts at `i` ends: a semicolon with the blanks
/// on either side of it.
pub open spec fn separator_end(s: Seq<char>, i: int) -> Option<int> {
    match sign_end(s, i, ';') {
        None => None,
        Some(after) => Some(run_end(s, CharClass::Blank, after)),
    }
}

/// The bounds of the optional field that follows position `i`: a separator
/// and a free text.
pub open spec fn field_after(s: Seq<char>, i: int) -> Option<(int, int)> {
    match separator_end(s, i) {
        None => None,
        Some(start) => match text_end(s, start) {
            None => None,
            Some(end) => Some((start, end)),
        },
    }
}

/// Where in a line its fields stand, each as the pair of its first position
/// and the position after its last.
pub ghost struct LineShape {
    pub date: (int, int),
    pub time: (int, int),
    pub home: (int, int),
    pub away: (int, int),
    pub mark: (int, int),
    pub first: Option<(int, int)>,
    pub second: Option<(int, int)>,
}

/// Where the fields of a line end, given the end of its score or mark and
/// its optional fields.
pub open spec fn fields_end(
    mark_end: int,
    first: Option<(int, int)>,
    second: Option<(int, int)>,
) -> int {
    match second {
        Some(field) => field.1,
        None => match first {
            Some(field) => field.1,
            None => mark_end,
        },
    }
}

/// The second optional field, which can only follow a first one.
pub open spec fn second_field(s: Seq<char>, first: Option<(int, int)>) -> Option<(int, int)> {
    match first {
        Some(field) => field_after(s, field.1),
        None => None,
    }
}

/// The fields of the line `s`, where `s` as a whole is a match line.
pub open spec fn line_shape(s: Seq<char>) -> Option<LineShape> {
    match date_end(s, 0) {
        None => None,
        Some(date_end) => match separator_end(s, date_end) {
            None => None,
            Some(time) => match time_end(s, time) {
                None => None,
                Some(time_end) => match separator_end(s, time_end) {
                    None => None,
                    Some(home) => match teams_shape(s, home) {
                        None => None,
                        Some(teams) => match separator_end(s, teams.2) {
                            None => None,
                            Some(mark) => match score_or_mark_end(s, mark) {
                                None => None,
                                Some(mark_end) => {
                                    let first = field_after(s, mark_end);
                                    let second = second_field(s, first);
                                    if fields_end(mark_end, first, second) == s.len() {
                                        Some(
                                            LineShape {
                                                date: (0, date_end),
                                                time: (time, time_end),
                                                home: (home, teams.0),
                                                away: (teams.1, teams.2),
                                                mark: (mark, mark_end),
                                                first,
                                                second,
                                            },
                                        )
                                    } else {
                                        None
                                    }
                                },
                            },
                        },
                    },
                },
            },
        },
    }
}

/// Whether `s` as a whole is a match line.
pub open spec fn is_match_line(s: Seq<char>) -> bool {
    line_shape(s) is Some
}

impl LineShape {
    /// Whether each field lies within a text of length `len`, no field but
    /// the score or mark is empty, and the fields stand in order.
    pub open spec fn fits(self, len: int) -> bool {
        &&& 0 == self.date.0 < self.date.1 < self.time.0 < self.time.1 < self.home.0
        &&& self.home.0 < self.home.1 < self.away.0 < self.away.1 < self.mark.0
        &&& self.mark.0 <= self.mark.1 <= len
        &&& self.first matches Some(f) ==> self.mark.1 < f.0 < f.1 <= len
        &&& self.second matches Some(g) ==> self.first matches Some(f) && f.1 < g.0 < g.1 <= len
    }
}

/// A name ends between the position it has come to and the end of the text.
pub proof fn lemma_name_run(s: Seq<char>, spaced: bool, i: int)
    requires
        0 <= i <= s.len(),
    ensures
        i <= name_run(s, spaced, i) <= s.len(),
        name_goes_on(s, spaced, i) ==> i < name_run(s, spaced, i),
    decreases s.len() - i,
{
    if name_goes_on(s, spaced, i) {
        lemma_name_run(s, spaced, i + 1);
    }
}

/// A separator ends after its start and within the text.
pub proof fn lemma_separator_end(s: Seq<char>, i: int)
    requires
        0 <= i <= s.len(),
        separator_end(s, i) is Some,
    ensures
        i < separator_end(s, i)->0 <= s.len(),
{
    lemma_run_end(s, CharClass::Blank, i);
    lemma_run_end(s, CharClass::Blank, sign_end(s, i, ';')->0);
}

/// The teams field is not empty, its parts stand in order, and it ends
/// within the text.
pub proof fn lemma_teams_shape(s: Seq<char>, i: int)
    requires
        0 <= i <= s.len(),
        teams_shape(s, i) is Some,
    ensures
        ({
            let parts = teams_shape(s, i)->0;
            i < parts.0 < parts.1 < parts.2 <= s.len()
        }),
{
    let home_end = team_name_end(s, i)->0;
    lemma_name_run(s, true, i);
    let dash = run_end(s, CharClass::Blank, home_end);
    lemma_run_end(s, CharClass::Blank, home_end);
    let away = run_end(s, CharClass::Blank, dash + 1);
    lemma_run_end(s, CharClass::Blank, dash + 1);
    lemma_name_run(s, true, away);
}

/// A score or mark ends within the text.
pub proof fn lemma_score_or_mark_end(s: Seq<char>, i: int)
    requires
        0 <= i <= s.len(),
        score_or_mark_end(s, i) is Some,
    ensures
        i <= score_or_mark_end(s, i)->0 <= s.len(),
{
    let digit = CharClass::Digit;
    let blank = CharClass::Blank;
    let digits = run_end(s, digit, i);
    lemma_run_end(s, digit, i);
    let sign = run_end(s, blank, digits);
    lemma_run_end(s, blank, digits);
    if score_end(s, i) is Some {
        let away = run_end(s, blank, sign + 1);
        lemma_run_end(s, blank, sign + 1);
        lemma_run_end(s, digit, away);
    } else if minute_end(s, i) is Some {
        if sign_end(s, digits, '+') is Some {
            let added = run_end(s, blank, sign + 1);
            lemma_run_end(s, blank, sign + 1);
            let added_end = run_end(s, digit, added);
            lemma_run_end(s, digit, added);
            lemma_run_end(s, blank, added_end);
        }
    }
}

/// An optional field starts after the position it follows, is not empty,
/// and ends within the text.
pub proof fn lemma_field_after(s: Seq<char>, i: int)
    requires
        0 <= i <= s.len(),
        field_after(s, i) is Some,
    ensures
        ({
            let field = field_after(s, i)->0;
            i < field.0 < field.1 <= s.len()
        }),
{
    lemma_separator_end(s, i);
    let start = separator_end(s, i)->0;
    lemma_run_end(s, CharClass::Text, start + 1);
}

/// The fields of a match line lie within the line and stand in order.
pub proof fn lemma_shape_fits(s: Seq<char>)
    requires
        is_match_line(s),
    ensures
        line_shape(s)->0.fits(s.len() as int),
{
    let shape = line_shape(s)->0;
    lemma_separator_end(s, shape.date.1);
    lemma_separator_end(s, shape.time.1);
    lemma_teams_shape(s, shape.home.0);
    lemma_separator_end(s, shape.away.1);
    lemma_score_or_mark_end(s, shape.mark.0);
    if shape.first is Some {
        lemma_field_after(s, shape.mark.1);
        if shape.second is Some {
            let first = shape.first->0;
            lemma_field_after(s, first.1);
        }
    }
}

/// A position that the matcher has reached, as a position of the text.
pub open spec fn position(at: Option<usize>) -> Option<int> {
    match at {
        Some(i) => Some(i as int),
        None => None,
    }
}

/// The bounds of a field, as positions of the text.
pub open spec fn bounds(field: (usize, usize)) -> (int, int) {
    (field.0 as int, field.1 as int)
}

/// The bounds of an optional field, as positions of the text.
pub open spec fn optional_bounds(field: Option<(usize, usize)>) -> Option<(int, int)> {
    match field {
        Some(f) => Some(bounds(f)),
        None => None,
    }
}

/// The number that the digits at `i` and `i + 1` write.
fn two_digits_at(chars: &[char], i: usize) -> (n: u8)
    requires
        i + 1 < chars@.len(),
        is_digit(chars@[i as int]),
        is_digit(chars@[i + 1]),
    ensures
        n == two_digits(chars@, i as int),
{
    10 * digit_of(chars[i]) + digit_of(chars[i + 1])
}

/// Matches a date at position `i`.
fn match_date(chars: &[char], i: usize) -> (end: Option<usize>)
    requires
        i <= chars@.len(),
    ensures
        position(end) == date_end(chars@, i as int),
{
    if chars.len() - i < 10 {
        return None;
    }
    let field = slice_subrange(chars, i, i + 10);
    if !has_date_shape(field) {
        return None;
    }
    let month = two_digits_at(field, 5);
    let day = two_digits_at(field, 8);
    if 1 <= month && month <= 12 && 1 <= day && day <= 31 {
        Some(i + 10)
    } else {
        None
    }
}

/// Matches a time at position `i`.
fn match_time(chars: &[char], i: usize) -> (end: Option<usize>)
    requires
        i <= chars@.len(),
    ensures
        position(end) == time_end(chars@, i as int),
{
    if chars.len() - i < 5 {
        return None;
    }
    let field = slice_subrange(chars, i, i + 5);
    let digit = CharClass::Digit;
    if !(digit.contains(field[0]) && digit.contains(field[1]) && field[2] == ':' && digit.contains(
        field[3],
    ) && digit.contains(field[4])) {
        return None;
    }
    let hour = two_digits_at(field, 0);
    let minute = two_digits_at(field, 3);
    if hour <= 23 && minute <= 59 {
        Some(i + 5)
    } else {
        None
    }
}

/// Tests whether a name that has come as far as `i` goes on.
fn goes_on(chars: &[char], spaced: bool, i: usize) -> (b: bool)
    requires
        i < chars@.len(),
    ensures
        b == name_goes_on(chars@, spaced, i as int),
{
    let c = chars[i];
    word_char(c) || ((c == '-' || (spaced && c == ' ')) && chars.len() - i > 1 && word_char(
        chars[i + 1],
    ))
}

/// Matches a name at position `i`: a team word, or a team name where
/// `spaced` is set.
fn match_name(chars: &[char], spaced: bool, i: usize) -> (end: Option<usize>)
    requires
        i <= chars@.len(),
    ensures
        position(end) == name_end(chars@, spaced, i as int),
        end matches Some(j) ==> i < j <= chars@.len(),
{
    if i >= chars.len() || !word_char(chars[i]) {
        return None;
    }
    let mut j: usize = i;
    while j < chars.len() && goes_on(chars, spaced, j)
        invariant
            i <= j <= chars@.len(),
            j == i ==> name_goes_on(chars@, spaced, i as int),
            name_run(chars@, spaced, i as int) == name_run(chars@, spaced, j as int),
        decreases chars@.len() - j,
    {
        j = j + 1;
    }
    Some(j)
}

/// Matches the teams field at position `i` and gives where the home team
/// ends, where the away team starts, and where it ends.
fn match_teams(chars: &[char], i: usize) -> (parts: Option<(usize, usize, usize)>)
    requires
        i <= chars@.len(),
    ensures
        match parts {
            Some(p) => teams_shape(chars@, i as int) == Some((p.0 as int, p.1 as int, p.2 as int))
                && i < p.0 < p.1 < p.2 <= chars@.len(),
            None => teams_shape(chars@, i as int) is None,
        },
{
    let home_end = match match_name(chars, true, i) {
        Some(end) => end,
        None => {
            return None;
        },
    };
    let dash = scan_run(chars, CharClass::Blank, home_end);
    if dash >= chars.len() || chars[dash] != '-' {
        return None;
    }
    let away = scan_run(chars, CharClass::Blank, dash + 1);
    match match_name(chars, true, away) {
        Some(end) => Some((home_end, away, end)),
        None => None,
    }
}

/// Matches a run of one or more digits at position `i`.
fn match_digits(chars: &[char], i: usize) -> (end: Option<usize>)
    requires
        i <= chars@.len(),
    ensures
        position(end) == digits_end(chars@, i as int),
        end matches Some(j) ==> i < j <= chars@.len(),
{
    let end = scan_run(chars, CharClass::Digit, i);
    if end > i {
        Some(end)
    } else {
        None
    }
}

/// Matches the character `c` after the blanks from position `i` on.
fn match_sign(chars: &[char], i: usize, c: char) -> (end: Option<usize>)
    requires
        i <= chars@.len(),
    ensures
        position(end) == sign_end(chars@, i as int, c),
        end matches Some(j) ==> i < j <= chars@.len(),
{
    let at = scan_run(chars, CharClass::Blank, i);
    if at < chars.len() && chars[at] == c {
        Some(at + 1)
    } else {
        None
    }
}

/// Matches a score at position `i`.
fn match_score(chars: &[char], i: usize) -> (end: Option<usize>)
    requires
        i <= chars@.len(),
    ensures
        position(end) == score_end(chars@, i as int),
        end matches Some(j) ==> i < j <= chars@.len(),
{
    let home_end = match match_digits(chars, i) {
        Some(end) => end,
        None => {
            return None;
        },
    };
    let colon_end = match match_sign(chars, home_end, ':') {
        Some(end) => end,
        None => {
            return None;
        },
    };
    let away = scan_run(chars, CharClass::Blank, colon_end);
    match_digits(chars, away)
}

/// Matches a minute mark at position `i`.
fn match_minute(chars: &[char], i: usize) -> (end: Option<usize>)
    requires
        i <= chars@.len(),
    ensures
        position(end) == minute_end(chars@, i as int),
        end matches Some(j) ==> i < j <= chars@.len(),
{
    let minute_end = match match_digits(chars, i) {
        Some(end) => end,
        None => {
            return None;
        },
    };
    match match_sign(chars, minute_end, '+') {
        None => match_sign(chars, minute_end, '\''),
        Some(plus_end) => {
            let added = scan_run(chars, CharClass::Blank, plus_end);
            match match_digits(chars, added) {
                None => None,
                Some(added_end) => match_sign(chars, added_end, '\''),
            }
        },
    }
}

/// Matches the lower-case `word`, in any letter case, at position `i`.
fn match_word(chars: &[char], i: usize, word: &str) -> (end: Option<usize>)
    requires
        i <= chars@.len(),
    ensures
        position(end) == word_end(chars@, i as int, word@),
        end matches Some(j) ==> i <= j <= chars@.len(),
{
    let letters = chars_of(word);
    if has_word_at(chars, i, letters.as_slice()) {
        assert(i + letters@.len() <= chars@.len() <= usize::MAX) by {
            let n = chars.len();
        }
        Some(i + letters.len())
    } else {
        None
    }
}

/// Matches a score or mark at position `i`.
fn match_score_or_mark(chars: &[char], i: usize) -> (end: Option<usize>)
    requires
        i <= chars@.len(),
    ensures
        position(end) == score_or_mark_end(chars@, i as int),
        end matches Some(j) ==> i <= j <= chars@.len(),
{
    let score = match_score(chars, i);
    if score.is_some() {
        return score;
    }
    let minute = match_minute(chars, i);
    if minute.is_some() {
        return minute;
    }
    if i < chars.len() && chars[i] == '-' {
        return Some(i + 1);
    }
    match_word(chars, i, "live")
}

/// Matches a free text at position `i`.
fn match_text(chars: &[char], i: usize) -> (end: Option<usize>)
    requires
        i <= chars@.len(),
    ensures
        position(end) == text_end(chars@, i as int),
        end matches Some(j) ==> i < j <= chars@.len(),
{
    if i < chars.len() && CharClass::Text.contains(chars[i]) && chars[i] != ' ' {
        proof {
            lemma_run_end(chars@, CharClass::Text, i + 1);
        }
        Some(scan_run(chars, CharClass::Text, i))
    } else {
        None
    }
}

/// Matches a status word at position `i`.
fn match_status(chars: &[char], i: usize) -> (end: Option<usize>)
    requires
        i <= chars@.len(),
    ensures
        position(end) == status_end(chars@, i as int),
        end matches Some(j) ==> i <= j <= chars@.len(),
{
    let played = match_word(chars, i, "played");
    if played.is_some() {
        return played;
    }
    let scheduled = match_word(chars, i, "scheduled");
    if scheduled.is_some() {
        return scheduled;
    }
    match_word(chars, i, "ongoing")
}

/// Matches a separator at position `i`.
fn match_separator(chars: &[char], i: usize) -> (end: Option<usize>)
    requires
        i <= chars@.len(),
    ensures
        position(end) == separator_end(chars@, i as int),
        end matches Some(j) ==> i < j <= chars@.len(),
{
    match match_sign(chars, i, ';') {
        None => None,
        Some(after) => Some(scan_run(chars, CharClass::Blank, after)),
    }
}

/// Matches the optional field that follows position `i`.
fn match_field_after(chars: &[char], i: usize) -> (field: Option<(usize, usize)>)
    requires
        i <= chars@.len(),
    ensures
        optional_bounds(field) == field_after(chars@, i as int),
        field matches Some(f) ==> i < f.0 < f.1 <= chars@.len(),
{
    match match_separator(chars, i) {
        None => None,
        Some(start) => match match_text(chars, start) {
            None => None,
            Some(end) => Some((start, end)),
        },
    }
}

/// Where in a line its fields stand, each as the pair of its first position
/// and the position after its last.
#[derive(Clone, Copy, Debug, PartialEq, Eq)]
pub struct LineSpans {
    pub date: (usize, usize),
    pub time: (usize, usize),
    pub home: (usize, usize),
    pub away: (usize, usize),
    pub mark: (usize, usize),
    pub first: Option<(usize, usize)>,
    pub second: Option<(usize, usize)>,
}

impl View for LineSpans {
    type V = LineShape;

    open spec fn view(&self) -> LineShape {
        LineShape {
            date: bounds(self.date),
            time: bounds(self.time),
            home: bounds(self.home),
            away: bounds(self.away),
            mark: bounds(self.mark),
            first: optional_bounds(self.first),
            second: optional_bounds(self.second),
        }
    }
}

/// What the shape of a line holds, where there is one.
pub open spec fn shape_view(spans: Option<LineSpans>) -> Option<LineShape> {
    match spans {
        Some(sp) => Some(sp@),
        None => None,
    }
}

/// Holds `chars` against the grammar of a match line and gives the bounds
/// of its fields, or nothing where `chars` is no match line.
pub fn split_line(chars: &[char]) -> (spans: Option<LineSpans>)
    ensures
        shape_view(spans) == line_shape(chars@),
        spans matches Some(sp) ==> sp@.fits(chars@.len() as int),
{
    let date_end = match match_date(chars, 0) {
        Some(end) => end,
        None => {
            return None;
        },
    };
    let time = match match_separator(chars, date_end) {
        Some(end) => end,
        None => {
            return None;
        },
    };
    let time_end = match match_time(chars, time) {
        Some(end) => end,
        None => {
            return None;
        },
    };
    let home = match match_separator(chars, time_end) {
        Some(end) => end,
        None => {
            return None;
        },
    };
    let teams = match match_teams(chars, home) {
        Some(parts) => parts,
        None => {
            return None;
        },
    };
    let mark = match match_separator(chars, teams.2) {
        Some(end) => end,
        None => {
            return None;
        },
    };
    let mark_end = match match_score_or_mark(chars, mark) {
        Some(end) => end,
        None => {
            return None;
        },
    };
    let first = match_field_after(chars, mark_end);
    let second = match first {
        Some(field) => match_field_after(chars, field.1),
        None => None,
    };
    let end = match second {
        Some(field) => field.1,
        None => match first {
            Some(field) => field.1,
            None => mark_end,
        },
    };
    if end == chars.len() {
        Some(
            LineSpans {
                date: (0, date_end),
                time: (time, time_end),
                home: (home, teams.0),
                away: (teams.1, teams.2),
                mark: (mark, mark_end),
                first,
                second,
            },
        )
    } else {
        None
    }
}

/// The rules of the grammar that a text can be held against on their own.
#[allow(non_camel_case_types)]
#[derive(Clone, Copy, Debug, PartialEq, Eq)]
pub enum Rule {
    /// A date, `YYYY-MM-DD`.
    date,
    /// A time, `HH:MM`.
    time,
    /// A single word character.
    name_char,
    /// One word of a team name.
    team_word,
    /// A team name: words with single spaces between them.
    team_name,
    /// The two team names with a hyphen between them.
    teams,
    /// A score, or a mark that stands in its place.
    score_or_mark,
    /// A free text, as a stadium name is.
    stadium_name,
    /// One of the three status words.
    status,
    /// A whole line.
    match_line,
}

/// Where the match of `rule` at the start of `s` ends.
pub open spec fn rule_end(rule: Rule, s: Seq<char>) -> Option<int> {
    match rule {
        Rule::date => date_end(s, 0),
        Rule::time => time_end(s, 0),
        Rule::name_char => if s.len() > 0 && is_word_char(s[0]) {
            Some(1)
        } else {
            None
        },
        Rule::team_word => team_word_end(s, 0),
        Rule::team_name => team_name_end(s, 0),
        Rule::teams => match teams_shape(s, 0) {
            Some(parts) => Some(parts.2),
            None => None,
        },
        Rule::score_or_mark => score_or_mark_end(s, 0),
        Rule::stadium_name => text_end(s, 0),
        Rule::status => status_end(s, 0),
        Rule::match_line => if is_match_line(s) {
            Some(s.len() as int)
        } else {
            None
        },
    }
}

/// Whether `s` as a whole matches `rule`: the rule matches at the start of
/// `s`, and its longest match ends where `s` ends.
pub open spec fn matches_rule(rule: Rule, s: Seq<char>) -> bool {
    rule_end(rule, s) == Some(s.len() as int)
}

/// What is reported of a text that does not match.
pub open spec fn syntax_error(s: Seq<char>) -> ErrorView {
    ErrorView::Syntax("Invalid syntax in line: "@ + s)
}

/// Reports that `input` does not match.
pub fn syntax_failure(input: &str) -> (e: ParseError)
    ensures
        e@ == syntax_error(input@),
{
    ParseError::Syntax(String::from_str("Invalid syntax in line: ").concat(input))
}

/// A text that matched a rule.
#[derive(Debug, PartialEq)]
pub struct Matched {
    rule: Rule,
    text: String,
}

impl Matched {
    /// The rule that matched.
    pub closed spec fn rule(&self) -> Rule {
        self.rule
    }

    /// The characters that matched.
    pub closed spec fn text(&self) -> Seq<char> {
        self.text@
    }

    /// The rule that matched.
    pub fn as_rule(&self) -> (rule: Rule)
        ensures
            rule == self.rule(),
    {
        self.rule
    }

    /// The text that matched.
    pub fn as_str(&self) -> (text: &str)
        ensures
            text@ == self.text(),
    {
        self.text.as_str()
    }
}

/// The matcher of the grammar.
pub struct MatchGrammar;

impl MatchGrammar {
    /// Holds `input` as a whole against `rule`. Gives the match where the
    /// rule matches all of `input`, and a syntax error where it matches
    /// none or only a part of it.
    pub fn parse(rule: Rule, input: &str) -> (r: Result<Matched, ParseError>)
        ensures
            match r {
                Ok(m) => matches_rule(rule, input@) && m.rule() == rule && m.text() == input@,
                Err(e) => !matches_rule(rule, input@) && e@ == syntax_error(input@),
            },
    {
        let letters = chars_of(input);
        let chars = letters.as_slice();
        let end = match rule {
            Rule::date => match_date(chars, 0),
            Rule::time => match_time(chars, 0),
            Rule::name_char => if chars.len() > 0 && word_char(chars[0]) {
                Some(1)
            } else {
                None
            },
            Rule::team_word => match_name(chars, false, 0),
            Rule::team_name => match_name(chars, true, 0),
            Rule::teams => match match_teams(chars, 0) {
                Some(parts) => Some(parts.2),
                None => None,
            },
            Rule::score_or_mark => match_score_or_mark(chars, 0),
            Rule::stadium_name => match_text(chars, 0),
            Rule::status => match_status(chars, 0),
            Rule::match_line => match split_line(chars) {
                Some(_) => Some(chars.len()),
                None => None,
            },
        };
        match end {
            Some(n) if n == chars.len() => Ok(Matched { rule, text: String::from_str(input) }),
            _ => Err(syntax_failure(input)),
        }
    }
}

} // verus!
