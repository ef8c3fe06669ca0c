//! Reading one line of football match data,
//!
//! ```text
//! YYYY-MM-DD ; HH:MM ; HomeTeam - AwayTeam ; ScoreOrMark [ ; StadiumOrStatus ] [ ; StadiumOrStatus ]
//! ```
//!
//! into a checked record.
//!
//! [`parse_match_line`] holds the line against the grammar ([`grammar`]),
//! reads its fields ([`calendar`], [`fields`]) and settles the status of the
//! match ([`status`]). It fails with a syntax error, a field-format error or
//! a logical error, in this order of precedence. What holds of every line is
//! proved in [`theorems`].

pub mod calendar;
pub mod fields;
pub mod grammar;
pub mod line;
pub mod record;
pub mod status;
pub mod text;
pub mod theorems;

pub use crate::grammar::{MatchGrammar, Matched, Rule};
pub use crate::line::parse_match_line;
pub use crate::record::{Match, ParseError};
pub use crate::status::validate_logical_mismatch;
