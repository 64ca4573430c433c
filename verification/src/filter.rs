//! The optional constraints of a read, all of which a row has to meet. A
//! constraint that is absent constrains nothing.

use crate::error::{failure, AppError, ErrorKind, Failure};
use crate::models::{Piece, PieceRow, PracticeSession, PracticeSessionRow, Timestamp};
use crate::text::{contains_ignoring_case, occurs_ignoring_case};
use vstd::prelude::*;
use vstd::string::StringExecFns;

verus! {

/// The constraints on practice sessions as a client sends them.
#[derive(Debug, PartialEq, Eq)]
pub struct PracticeSessionsQueryParams {
    pub practice_session_id: Option<i32>,
    pub min_datetime: Option<Timestamp>,
    pub max_datetime: Option<Timestamp>,
    pub min_duration_mins: Option<u32>,
    pub max_duration_mins: Option<u32>,
    pub instrument: Option<String>,
}

/// The constraints on practice sessions as the store applies them.
#[derive(Debug, PartialEq, Eq)]
pub struct PracticeSessionFilter {
    pub user_id: Option<i32>,
    pub practice_session_id: Option<i32>,
    pub min_datetime: Option<Timestamp>,
    pub max_datetime: Option<Timestamp>,
    pub min_duration_mins: Option<i32>,
    pub max_duration_mins: Option<i32>,
    pub instrument: Option<String>,
}

/// A duration bound as the store compares it, if it fits the column.
pub open spec fn duration_bound(bound: Option<u32>) -> Option<i32> {
    match bound {
        Some(minutes) => Some(minutes as i32),
        None => None,
    }
}

/// Whether a duration bound fits the column, a 32-bit signed integer.
pub open spec fn bound_fits(bound: Option<u32>) -> bool {
    match bound {
        Some(minutes) => minutes <= i32::MAX,
        None => true,
    }
}

/// Why a query is refused, or `None` where it is not.
pub open spec fn query_refusal(params: &PracticeSessionsQueryParams) -> Option<Failure> {
    if !bound_fits(params.min_duration_mins) {
        Some(failure(ErrorKind::ClientError, "Invalid value for min_duration_mins"@))
    } else if !bound_fits(params.max_duration_mins) {
        Some(failure(ErrorKind::ClientError, "Invalid value for max_duration_mins"@))
    } else {
        None
    }
}

/// The filter for the practice sessions of `user_id` that meet `params`.
pub open spec fn filter_for(
    user_id: i32,
    params: &PracticeSessionsQueryParams,
) -> PracticeSessionFilter {
    PracticeSessionFilter {
        user_id: Some(user_id),
        practice_session_id: params.practice_session_id,
        min_datetime: params.min_datetime,
        max_datetime: params.max_datetime,
        min_duration_mins: duration_bound(params.min_duration_mins),
        max_duration_mins: duration_bound(params.max_duration_mins),
        instrument: params.instrument,
    }
}

fn checked_bound(bound: Option<u32>) -> (result: Option<Option<i32>>)
    ensures
        bound_fits(bound) ==> result == Some(duration_bound(bound)),
        !bound_fits(bound) ==> result is None,
{
    match bound {
        None => Some(None),
        Some(minutes) => {
            if minutes > 2147483647u32 {
                None
            } else {
                Some(Some(minutes as i32))
            }
        },
    }
}

fn copy_of(text: &Option<String>) -> (copy: Option<String>)
    ensures
        copy == *text,
{
    match text {
        Some(text) => Some(text.clone()),
        None => None,
    }
}

impl PracticeSessionFilter {
    /// Whether a practice session meets every constraint that is present.
    pub open spec fn admits(&self, row: PracticeSessionRow) -> bool {
        &&& self.user_id matches Some(user_id) ==> row.user_id == user_id
        &&& self.practice_session_id matches Some(id) ==> row.practice_session_id == id
        &&& self.min_datetime matches Some(min) ==> row.start_datetime.micros >= min.micros
        &&& self.max_datetime matches Some(max) ==> row.start_datetime.micros <= max.micros
        &&& self.min_duration_mins matches Some(min) ==> row.duration_mins >= min
        &&& self.max_duration_mins matches Some(max) ==> row.duration_mins <= max
        &&& self.instrument matches Some(instrument) ==> row.instrument == instrument@
    }

    /// The filter as a predicate on rows.
    pub open spec fn predicate(&self) -> spec_fn(PracticeSessionRow) -> bool {
        |row: PracticeSessionRow| self.admits(row)
    }

    /// The filter that admits every practice session: no constraint is
    /// present in it.
    pub fn any() -> (filter: PracticeSessionFilter)
        ensures
            filter == (PracticeSessionFilter {
                user_id: None,
                practice_session_id: None,
                min_datetime: None,
                max_datetime: None,
                min_duration_mins: None,
                max_duration_mins: None,
                instrument: None,
            }),
            forall|row: PracticeSessionRow| filter.admits(row),
    {
        PracticeSessionFilter {
            user_id: None,
            practice_session_id: None,
            min_datetime: None,
            max_datetime: None,
            min_duration_mins: None,
            max_duration_mins: None,
            instrument: None,
        }
    }

    /// The filter for the practice sessions of `user_id` that meet `params`.
    /// A duration bound that does not fit the column is refused, the lower
    /// bound first.
    pub fn from_params(user_id: i32, params: &PracticeSessionsQueryParams) -> (result: Result<
        PracticeSessionFilter,
        AppError,
    >)
        ensures
            match result {
                Ok(filter) => query_refusal(params) is None && filter == filter_for(
                    user_id,
                    params,
                ),
                Err(error) => query_refusal(params) == Some(error@),
            },
    {
        let min_duration_mins = match checked_bound(params.min_duration_mins) {
            Some(bound) => bound,
            None => {
                return Err(
                    AppError::ClientError(String::from_str("Invalid value for min_duration_mins")),
                );
            },
        };
        let max_duration_mins = match checked_bound(params.max_duration_mins) {
            Some(bound) => bound,
            None => {
                return Err(
                    AppError::ClientError(String::from_str("Invalid value for max_duration_mins")),
                );
            },
        };
        Ok(
            PracticeSessionFilter {
                user_id: Some(user_id),
                practice_session_id: params.practice_session_id,
                min_datetime: params.min_datetime,
                max_datetime: params.max_datetime,
                min_duration_mins,
                max_duration_mins,
                instrument: copy_of(&params.instrument),
            },
        )
    }

    /// Whether a practice session meets every constraint that is present.
    pub fn matches(&self, session: &PracticeSession) -> (admitted: bool)
        ensures
            admitted == self.admits(session@),
    {
        if let Some(user_id) = self.user_id {
            if session.user_id != user_id {
                return false;
            }
        }
        if let Some(id) = self.practice_session_id {
            if session.practice_session_id != id {
                return false;
            }
        }
        if let Some(min) = self.min_datetime {
            if session.start_datetime.micros < min.micros {
                return false;
            }
        }
        if let Some(max) = self.max_datetime {
            if session.start_datetime.micros > max.micros {
                return false;
            }
        }
        if let Some(min) = self.min_duration_mins {
            if session.duration_mins < min {
                return false;
            }
        }
        if let Some(max) = self.max_duration_mins {
            if session.duration_mins > max {
                return false;
            }
        }
        match &self.instrument {
            Some(instrument) => session.instrument == *instrument,
            None => true,
        }
    }
}

/// The constraints on pieces. Title and composer match where the given text
/// occurs anywhere in the piece's, whatever the case of the letters.
#[derive(Debug, PartialEq, Eq)]
pub struct GetPiecesQueryParams {
    pub piece_id: Option<i32>,
    pub title: Option<String>,
    pub composer: Option<String>,
}

impl GetPiecesQueryParams {
    /// Whether a piece meets every constraint that is present.
    pub open spec fn admits(&self, row: PieceRow) -> bool {
        &&& self.piece_id matches Some(id) ==> row.piece_id == id
        &&& self.title matches Some(title) ==> occurs_ignoring_case(row.title, title@)
        &&& self.composer matches Some(composer) ==> occurs_ignoring_case(
            row.composer,
            composer@,
        )
    }

    /// The filter as a predicate on rows.
    pub open spec fn predicate(&self) -> spec_fn(PieceRow) -> bool {
        |row: PieceRow| self.admits(row)
    }

    /// The filter that admits every piece.
    pub fn any() -> (filter: GetPiecesQueryParams)
        ensures
            forall|row: PieceRow| filter.admits(row),
    {
        GetPiecesQueryParams { piece_id: None, title: None, composer: None }
    }

    /// Whether a piece meets every constraint that is present.
    pub fn matches(&self, piece: &Piece) -> (admitted: bool)
        ensures
            admitted == self.admits(piece@),
    {
        if let Some(id) = self.piece_id {
            if piece.piece_id != id {
                return false;
            }
        }
        if let Some(title) = &self.title {
            if !contains_ignoring_case(piece.title.as_str(), title.as_str()) {
                return false;
            }
        }
        match &self.composer {
            Some(composer) => contains_ignoring_case(piece.composer.as_str(), composer.as_str()),
            None => true,
        }
    }
}

} // verus!
