//! The status of a match: the words that name it, and the check that what a
//! line says of the status agrees with what its score or mark implies.

use vstd::prelude::*;
use crate::record::{ErrorView, ParseError};

verus! {

/// Whether `word` is reserved for the status: one of the three canonical
/// status words, or `live`.
pub open spec fn is_reserved_word(word: Seq<char>) -> bool {
    word == "played"@ || word == "scheduled"@ || word == "ongoing"@ || word == "live"@
}

/// Tests whether `word` is reserved for the status.
pub fn reserved_word(word: &str) -> (b: bool)
    ensures
        b == is_reserved_word(word@),
{
    let word = String::from_str(word);
    word == String::from_str("played") || word == String::from_str("scheduled") || word
        == String::from_str("ongoing") || word == String::from_str("live")
}

/// The characters of an optional text.
pub open spec fn word_view(word: Option<&str>) -> Option<Seq<char>> {
    match word {
        Some(w) => Some(w@),
        None => None,
    }
}

/// What is reported where neither the line nor its score or mark gives a
/// status.
pub open spec fn undetermined_error() -> ErrorView {
    ErrorView::Logical("Cannot determine match status"@)
}

/// What is reported where the line gives the status `found` and its score
/// or mark implies `expected`.
pub open spec fn mismatch_error(expected: Seq<char>, found: Seq<char>) -> ErrorView {
    ErrorView::Logical(
        "Status mismatch: expected '"@ + expected + "', but found '"@ + found + "'"@,
    )
}

/// What the check of a status against the expected one gives: an error
/// where both are missing or the two differ.
pub open spec fn status_check(
    status: Option<Seq<char>>,
    expected: Option<Seq<char>>,
) -> Result<(), ErrorView> {
    match (expected, status) {
        (None, None) => Err(undetermined_error()),
        (Some(e), Some(s)) => if e != s {
            Err(mismatch_error(e, s))
        } else {
            Ok(())
        },
        _ => Ok(()),
    }
}

/// What a result of the check holds, with texts as sequences of characters.
pub open spec fn check_view(r: Result<(), ParseError>) -> Result<(), ErrorView> {
    match r {
        Ok(_) => Ok(()),
        Err(e) => Err(e@),
    }
}

/// Checks the status of a match against the one that its score or mark
/// implies. Reports a logical error where neither is known, and where both
/// are known and differ.
pub fn validate_logical_mismatch(status: Option<&str>, expected_status: Option<&str>) -> (r: Result<
    (),
    ParseError,
>)
    ensures
        check_view(r) == status_check(word_view(status), word_view(expected_status)),
{
    match (expected_status, status) {
        (None, None) => Err(
            ParseError::Logical(String::from_str("Cannot determine match status")),
        ),
        (Some(expected), Some(found)) => {
            if String::from_str(expected) != String::from_str(found) {
                let message = String::from_str("Status mismatch: expected '").concat(
                    expected,
                ).concat("', but found '").concat(found).concat("'");
                Err(ParseError::Logical(message))
            } else {
                Ok(())
            }
        },
        _ => Ok(()),
    }
}

/// The status that a record gets: the one the line gives, or else the one
/// its score or mark implies; an error where the two contradict each other
/// or neither is known.
pub open spec fn final_status(
    explicit: Option<Seq<char>>,
    expected: Option<Seq<char>>,
) -> Result<Option<Seq<char>>, ErrorView> {
    let status = if explicit is Some {
        explicit
    } else {
        expected
    };
    match status_check(status, expected) {
        Ok(_) => Ok(status),
        Err(e) => Err(e),
    }
}

/// What a resolved status holds, with texts as sequences of characters.
pub open spec fn resolved_view(r: Result<Option<String>, ParseError>) -> Result<
    Option<Seq<char>>,
    ErrorView,
> {
    match r {
        Ok(status) => Ok(crate::record::text_view(status)),
        Err(e) => Err(e@),
    }
}

/// Decides the status of a record from the one that the line gives, if any,
/// and the one that its score or mark implies, if any.
pub fn resolve_status(explicit: Option<String>, expected: Option<String>) -> (r: Result<
    Option<String>,
    ParseError,
>)
    ensures
        resolved_view(r) == final_status(
            crate::record::text_view(explicit),
            crate::record::text_view(expected),
        ),
{
    let status = match explicit {
        Some(word) => Some(word),
        None => match &expected {
            Some(word) => Some(word.clone()),
            None => None,
        },
    };
    let checked = validate_logical_mismatch(
        match &status {
            Some(word) => Some(word.as_str()),
            None => None,
        },
        match &expected {
            Some(word) => Some(word.as_str()),
            None => None,
        },
    );
    match checked {
        Ok(_) => Ok(status),
        Err(e) => Err(e),
    }
}

} // verus!
