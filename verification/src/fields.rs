//! Reading the fields of a line whose meaning is not settled by their
//! shape: the score or mark, and the optional fields that may each name the
//! stadium or the status.

use vstd::prelude::*;
use crate::record::{text_view, ErrorView, ParseError};
use crate::status::{is_reserved_word, reserved_word};
use crate::text::{
    chars_of, find_char, index_of, lowered, read_small_number, small_number, trim_bounds, trimmed,
};

verus! {

/// Calls `str::to_ascii_lowercase`.
///
/// Trusted, not proved: the standard library documents that the result is a
/// copy of the text in which the letters `A` to `Z` stand as `a` to `z` and
/// every other character stands as it was.
#[verifier::external_body]
fn ascii_lowercase(text: &str) -> (low: String)
    ensures
        low@ == lowered(text@),
{
    text.to_ascii_lowercase()
}

/// The part of `field` that is left without the blanks at either end.
pub fn trim(field: &str) -> (core: &str)
    ensures
        core@ == trimmed(field@),
{
    let chars = chars_of(field);
    let (lo, hi) = trim_bounds(chars.as_slice());
    field.substring_char(lo, hi)
}

/// `field` without the blanks at either end, in lower case.
pub open spec fn normalized(field: Seq<char>) -> Seq<char> {
    lowered(trimmed(field))
}

/// Strips the blanks at either end of `field` and turns it to lower case.
pub fn normalize(field: &str) -> (low: String)
    ensures
        low@ == normalized(field@),
{
    ascii_lowercase(trim(field))
}

/// What a score or mark says of a match.
#[derive(Clone, Copy, Debug, PartialEq, Eq)]
pub enum Mark {
    /// The match has been played; the goals of the home and of the away team.
    Score(u8, u8),
    /// The match has not started yet.
    Scheduled,
    /// The match is being played.
    Ongoing,
}

impl Mark {
    /// The status that the mark implies.
    pub open spec fn status(self) -> Seq<char> {
        match self {
            Mark::Score(_, _) => "played"@,
            Mark::Scheduled => "scheduled"@,
            Mark::Ongoing => "ongoing"@,
        }
    }

    /// The goals of the home team, where the mark is a score.
    pub open spec fn home(self) -> Option<u8> {
        match self {
            Mark::Score(home, _) => Some(home),
            _ => None,
        }
    }

    /// The goals of the away team, where the mark is a score.
    pub open spec fn away(self) -> Option<u8> {
        match self {
            Mark::Score(_, away) => Some(away),
            _ => None,
        }
    }

    /// The status that the mark implies.
    pub fn expected_status(&self) -> (word: String)
        ensures
            word@ == self.status(),
    {
        match self {
            Mark::Score(_, _) => String::from_str("played"),
            Mark::Scheduled => String::from_str("scheduled"),
            Mark::Ongoing => String::from_str("ongoing"),
        }
    }

    /// The goals of the home team, where the mark is a score.
    pub fn home_score(&self) -> (goals: Option<u8>)
        ensures
            goals == self.home(),
    {
        match self {
            Mark::Score(home, _) => Some(*home),
            _ => None,
        }
    }

    /// The goals of the away team, where the mark is a score.
    pub fn away_score(&self) -> (goals: Option<u8>)
        ensures
            goals == self.away(),
    {
        match self {
            Mark::Score(_, away) => Some(*away),
            _ => None,
        }
    }
}

/// What is reported of a side of a score that is no number of at most 255.
pub open spec fn score_error(home: bool, side: Seq<char>) -> ErrorView {
    if home {
        ErrorView::FieldFormat("Invalid home score: "@ + side)
    } else {
        ErrorView::FieldFormat("Invalid away score: "@ + side)
    }
}

/// What is reported of a field that is neither a score nor a mark.
pub open spec fn mark_error(low: Seq<char>) -> ErrorView {
    ErrorView::FieldFormat("Unknown score or mark: "@ + low)
}

/// What reading the two sides of a score gives: the score where both are
/// numbers of at most 255, else an error that names the first side that is
/// not.
pub open spec fn score_of(home: Seq<char>, away: Seq<char>) -> Result<Mark, ErrorView> {
    match small_number(trimmed(home)) {
        None => Err(score_error(true, trimmed(home))),
        Some(h) => match small_number(trimmed(away)) {
            None => Err(score_error(false, trimmed(away))),
            Some(a) => Ok(Mark::Score(h, a)),
        },
    }
}

/// What reading the score or mark field `t` gives. With a colon in it the
/// field is a score; a lone hyphen marks a scheduled match; `live`, or an
/// apostrophe at the end, marks an ongoing one.
pub open spec fn mark_field(t: Seq<char>) -> Result<Mark, ErrorView> {
    let low = normalized(t);
    let colon = find_char(low, ':', 0);
    if colon < low.len() {
        score_of(low.subrange(0, colon), low.subrange(colon + 1, low.len() as int))
    } else if low == "-"@ {
        Ok(Mark::Scheduled)
    } else if low == "live"@ || (low.len() > 0 && low.last() == '\'') {
        Ok(Mark::Ongoing)
    } else {
        Err(mark_error(low))
    }
}

/// What a result of reading a mark holds, with texts as sequences of
/// characters.
pub open spec fn mark_view(r: Result<Mark, ParseError>) -> Result<Mark, ErrorView> {
    match r {
        Ok(mark) => Ok(mark),
        Err(e) => Err(e@),
    }
}

/// Reads one side of a score.
fn read_side(side: &str, home: bool) -> (r: Result<u8, ParseError>)
    ensures
        match r {
            Ok(goals) => small_number(trimmed(side@)) == Some(goals),
            Err(e) => small_number(trimmed(side@)) is None && e@ == score_error(
                home,
                trimmed(side@),
            ),
        },
{
    let core = trim(side);
    let digits = chars_of(core);
    match read_small_number(digits.as_slice()) {
        Some(goals) => Ok(goals),
        None => {
            let heading = if home {
                String::from_str("Invalid home score: ")
            } else {
                String::from_str("Invalid away score: ")
            };
            Err(ParseError::FieldFormat(heading.concat(core)))
        },
    }
}

/// Reads a score or mark field.
pub fn read_mark(field: &str) -> (r: Result<Mark, ParseError>)
    ensures
        mark_view(r) == mark_field(field@),
{
    let low = normalize(field);
    let chars = chars_of(low.as_str());
    let colon = index_of(chars.as_slice(), ':');
    if colon < chars.len() {
        let home = match read_side(low.as_str().substring_char(0, colon), true) {
            Ok(goals) => goals,
            Err(e) => {
                return Err(e);
            },
        };
        let away = match read_side(low.as_str().substring_char(colon + 1, chars.len()), false) {
            Ok(goals) => goals,
            Err(e) => {
                return Err(e);
            },
        };
        Ok(Mark::Score(home, away))
    } else if low == String::from_str("-") {
        Ok(Mark::Scheduled)
    } else if low == String::from_str("live") || (chars.len() > 0 && chars[chars.len() - 1]
        == '\'') {
        Ok(Mark::Ongoing)
    } else {
        Err(ParseError::FieldFormat(String::from_str("Unknown score or mark: ").concat(low.as_str())))
    }
}

/// What the optional fields of a line have given so far.
#[derive(Debug, PartialEq)]
pub struct Extras {
    /// The stadium: the last field that was no reserved word.
    pub stadium: Option<String>,
    /// The status: the first field that was a reserved word, in lower case.
    pub status: Option<String>,
}

/// What [`Extras`] hold, with texts as sequences of characters.
pub ghost struct ExtrasView {
    pub stadium: Option<Seq<char>>,
    pub status: Option<Seq<char>>,
}

impl View for Extras {
    type V = ExtrasView;

    open spec fn view(&self) -> ExtrasView {
        ExtrasView { stadium: text_view(self.stadium), status: text_view(self.status) }
    }
}

/// What the optional fields give before any has been read.
pub open spec fn no_extras() -> ExtrasView {
    ExtrasView { stadium: None, status: None }
}

/// What the optional fields give once the field `t` has been read after
/// `seen`. A reserved word is the status if none is known yet, and is never
/// the stadium. Any other field that is not blank is the stadium.
pub open spec fn with_field(seen: ExtrasView, t: Seq<char>) -> ExtrasView {
    if is_reserved_word(normalized(t)) {
        if seen.status is None {
            ExtrasView { stadium: seen.stadium, status: Some(normalized(t)) }
        } else {
            seen
        }
    } else if trimmed(t).len() > 0 {
        ExtrasView { stadium: Some(trimmed(t)), status: seen.status }
    } else {
        seen
    }
}

/// What the optional fields give once the field `t`, if there is one, has
/// been read after `seen`.
pub open spec fn with_optional_field(seen: ExtrasView, t: Option<Seq<char>>) -> ExtrasView {
    match t {
        Some(field) => with_field(seen, field),
        None => seen,
    }
}

impl Extras {
    /// What the optional fields give before any has been read.
    pub fn new() -> (extras: Extras)
        ensures
            extras@ == no_extras(),
    {
        Extras { stadium: None, status: None }
    }

    /// Reads one optional field and decides whether it names the status or
    /// the stadium.
    pub fn take_field(&mut self, field: &str)
        ensures
            final(self)@ == with_field(old(self)@, field@),
    {
        let core = trim(field);
        let low = ascii_lowercase(core);
        if reserved_word(low.as_str()) {
            if self.status.is_none() {
                self.status = Some(low);
            }
        } else if core.unicode_len() > 0 {
            self.stadium = Some(String::from_str(core));
        }
    }
}

} // verus!
