//! The record that a line is read into, and the ways in which reading fails.

use vstd::prelude::*;

verus! {

/// One football match, as read from a line.
#[derive(Debug, PartialEq)]
pub struct Match {
    /// The date of the match, `YYYY-MM-DD`.
    pub date: String,
    /// The time at which the match starts, `HH:MM`.
    pub time: String,
    /// The name of the home team.
    pub home_team: String,
    /// The name of the away team.
    pub away_team: String,
    /// The goals of the home team, where the line gives a score.
    pub home_score: Option<u8>,
    /// The goals of the away team, where the line gives a score.
    pub away_score: Option<u8>,
    /// The stadium in which the match takes place, where the line names one.
    pub stadium: Option<String>,
    /// The state of the match: `played`, `scheduled` or `ongoing`.
    pub status: Option<String>,
}

/// Why a line could not be read.
#[derive(Debug, PartialEq)]
pub enum ParseError {
    /// The line does not have the shape of a match line.
    Syntax(String),
    /// A field has the right shape but no valid value, such as a date that
    /// is not in the calendar.
    FieldFormat(String),
    /// The fields are valid one by one but contradict each other.
    Logical(String),
}

/// What a [`Match`] holds, with texts as sequences of characters.
pub ghost struct MatchView {
    pub date: Seq<char>,
    pub time: Seq<char>,
    pub home_team: Seq<char>,
    pub away_team: Seq<char>,
    pub home_score: Option<u8>,
    pub away_score: Option<u8>,
    pub stadium: Option<Seq<char>>,
    pub status: Option<Seq<char>>,
}

/// What a [`ParseError`] holds, with its message as a sequence of characters.
pub ghost enum ErrorView {
    Syntax(Seq<char>),
    FieldFormat(Seq<char>),
    Logical(Seq<char>),
}

/// The characters of an optional text.
pub open spec fn text_view(text: Option<String>) -> Option<Seq<char>> {
    match text {
        Some(t) => Some(t@),
        None => None,
    }
}

/// Whether `status` is one of the three states a match can be in.
pub open spec fn is_canonical_status(status: Seq<char>) -> bool {
    status == "played"@ || status == "scheduled"@ || status == "ongoing"@
}

impl MatchView {
    /// Both scores are present or both are absent, and the status is one of
    /// the three canonical ones.
    pub open spec fn is_consistent(self) -> bool {
        &&& self.home_score is Some <==> self.away_score is Some
        &&& self.status matches Some(status) && is_canonical_status(status)
    }
}

impl View for Match {
    type V = MatchView;

    open spec fn view(&self) -> MatchView {
        MatchView {
            date: self.date@,
            time: self.time@,
            home_team: self.home_team@,
            away_team: self.away_team@,
            home_score: self.home_score,
            away_score: self.away_score,
            stadium: text_view(self.stadium),
            status: text_view(self.status),
        }
    }
}

impl ErrorView {
    /// The message that the error carries.
    pub open spec fn detail(self) -> Seq<char> {
        match self {
            ErrorView::Syntax(m) => m,
            ErrorView::FieldFormat(m) => m,
            ErrorView::Logical(m) => m,
        }
    }

    /// The words that introduce the message of an error of this kind.
    pub open spec fn heading(self) -> Seq<char> {
        match self {
            ErrorView::Syntax(_) => "Syntax error while parsing line: "@,
            ErrorView::FieldFormat(_) => "Invalid field format: "@,
            ErrorView::Logical(_) => "Logical inconsistency: "@,
        }
    }
}

impl View for ParseError {
    type V = ErrorView;

    open spec fn view(&self) -> ErrorView {
        match self {
            ParseError::Syntax(m) => ErrorView::Syntax(m@),
            ParseError::FieldFormat(m) => ErrorView::FieldFormat(m@),
            ParseError::Logical(m) => ErrorView::Logical(m@),
        }
    }
}

impl ParseError {
    /// The message that the error carries, without the heading of its kind.
    pub fn detail(&self) -> (text: &str)
        ensures
            text@ == self@.detail(),
    {
        match self {
            ParseError::Syntax(m) => m.as_str(),
            ParseError::FieldFormat(m) => m.as_str(),
            ParseError::Logical(m) => m.as_str(),
        }
    }

    /// The full text of the error: the heading of its kind, then its message.
    pub fn message(&self) -> (text: String)
        ensures
            text@ == self@.heading() + self@.detail(),
    {
        match self {
            ParseError::Syntax(m) => String::from_str("Syntax error while parsing line: ").concat(
                m.as_str(),
            ),
            ParseError::FieldFormat(m) => String::from_str("Invalid field format: ").concat(
                m.as_str(),
            ),
            ParseError::Logical(m) => String::from_str("Logical inconsistency: ").concat(
                m.as_str(),
            ),
        }
    }
}

/// What a result of reading holds, with texts as sequences of characters.
pub open spec fn outcome_view(outcome: Result<Match, ParseError>) -> Result<MatchView, ErrorView> {
    match outcome {
        Ok(m) => Ok(m@),
        Err(e) => Err(e@),
    }
}

} // verus!
