//! The rows of the four tables, the records from which a row is made, and
//! what each of them is in contracts.

use crate::error::{AppError, ErrorKind, Failure};
use vstd::prelude::*;
use vstd::string::StringExecFns;

verus! {

/// An instant without a time zone, counted in microseconds from
/// 1970-01-01 00:00:00.
#[derive(Debug, Clone, Copy, PartialEq, Eq, Structural)]
pub struct Timestamp {
    pub micros: i64,
}

/// A registered user.
#[derive(Debug, PartialEq, Eq)]
pub struct User {
    pub user_id: i32,
    pub user_name: String,
    pub password_hash: String,
}

/// A user as contracts see it.
pub struct UserRow {
    pub user_id: i32,
    pub user_name: Seq<char>,
    pub password_hash: Seq<char>,
}

impl View for User {
    type V = UserRow;

    open spec fn view(&self) -> UserRow {
        UserRow {
            user_id: self.user_id,
            user_name: self.user_name@,
            password_hash: self.password_hash@,
        }
    }
}

impl Clone for User {
    fn clone(&self) -> (copy: Self)
        ensures
            copy == *self,
    {
        User {
            user_id: self.user_id,
            user_name: self.user_name.clone(),
            password_hash: self.password_hash.clone(),
        }
    }
}

/// A piece of the shared catalog.
#[derive(Debug, PartialEq, Eq)]
pub struct Piece {
    pub piece_id: i32,
    pub title: String,
    pub composer: String,
}

/// A piece as contracts see it.
pub struct PieceRow {
    pub piece_id: i32,
    pub title: Seq<char>,
    pub composer: Seq<char>,
}

impl View for Piece {
    type V = PieceRow;

    open spec fn view(&self) -> PieceRow {
        PieceRow { piece_id: self.piece_id, title: self.title@, composer: self.composer@ }
    }
}

impl Clone for Piece {
    fn clone(&self) -> (copy: Self)
        ensures
            copy == *self,
    {
        Piece {
            piece_id: self.piece_id,
            title: self.title.clone(),
            composer: self.composer.clone(),
        }
    }
}

/// A piece that has no id yet.
#[derive(Debug, PartialEq, Eq)]
pub struct InsertablePiece {
    pub title: String,
    pub composer: String,
}

impl Clone for InsertablePiece {
    fn clone(&self) -> (copy: Self)
        ensures
            copy == *self,
    {
        InsertablePiece { title: self.title.clone(), composer: self.composer.clone() }
    }
}

impl InsertablePiece {
    /// Whether both records name the same title and composer, letter for letter.
    pub fn same_as(&self, other: &InsertablePiece) -> (same: bool)
        ensures
            same == (self.title@ == other.title@ && self.composer@ == other.composer@),
            same == (self@ == other@),
    {
        self.title == other.title && self.composer == other.composer
    }
}

/// One logged practice session.
#[derive(Debug, PartialEq, Eq)]
pub struct PracticeSession {
    pub practice_session_id: i32,
    pub start_datetime: Timestamp,
    pub duration_mins: i32,
    pub instrument: String,
    pub user_id: i32,
}

/// A practice session as contracts see it.
pub struct PracticeSessionRow {
    pub practice_session_id: i32,
    pub start_datetime: Timestamp,
    pub duration_mins: i32,
    pub instrument: Seq<char>,
    pub user_id: i32,
}

impl View for PracticeSession {
    type V = PracticeSessionRow;

    open spec fn view(&self) -> PracticeSessionRow {
        PracticeSessionRow {
            practice_session_id: self.practice_session_id,
            start_datetime: self.start_datetime,
            duration_mins: self.duration_mins,
            instrument: self.instrument@,
            user_id: self.user_id,
        }
    }
}

impl Clone for PracticeSession {
    fn clone(&self) -> (copy: Self)
        ensures
            copy == *self,
    {
        PracticeSession {
            practice_session_id: self.practice_session_id,
            start_datetime: self.start_datetime,
            duration_mins: self.duration_mins,
            instrument: self.instrument.clone(),
            user_id: self.user_id,
        }
    }
}

/// A practice session that has no id yet.
#[derive(Debug, PartialEq, Eq)]
pub struct InsertablePracticeSession {
    pub start_datetime: Timestamp,
    pub duration_mins: i32,
    pub instrument: String,
    pub user_id: i32,
}

impl Clone for InsertablePracticeSession {
    fn clone(&self) -> (copy: Self)
        ensures
            copy == *self,
    {
        InsertablePracticeSession {
            start_datetime: self.start_datetime,
            duration_mins: self.duration_mins,
            instrument: self.instrument.clone(),
            user_id: self.user_id,
        }
    }
}

/// The link that says that a piece was practiced in a practice session.
#[derive(Debug, Clone, Copy, PartialEq, Eq, Structural)]
pub struct PiecePracticedMapping {
    pub practice_session_id: i32,
    pub piece_id: i32,
}

/// The items of `items` as contracts see them, in the same order.
pub open spec fn rows<T: View>(items: Seq<T>) -> Seq<T::V> {
    Seq::new(items.len(), |i: int| items[i]@)
}

/// The rows of a list with one more item are the rows of the list and the
/// row of that item.
pub proof fn lemma_rows_push<T: View>(items: Seq<T>, item: T)
    ensures
        rows(items.push(item)) == rows(items).push(item@),
{
    assert(rows(items.push(item)) =~= rows(items).push(item@));
}

/// A practice session as a client describes it.
#[derive(Debug, PartialEq, Eq)]
pub struct NewPracticeSessionData {
    pub start_datetime: Timestamp,
    pub duration_mins: u32,
    pub instrument: String,
    pub pieces_practiced: Vec<Piece>,
}

impl NewPracticeSessionData {
    /// The record to insert for `user_id`. The duration has to fit the
    /// column, a 32-bit signed integer.
    pub fn make_insertable(&self, user_id: i32) -> (result: Result<
        InsertablePracticeSession,
        AppError,
    >)
        ensures
            self.duration_mins <= i32::MAX ==> result is Ok && result->Ok_0.start_datetime
                == self.start_datetime && result->Ok_0.duration_mins == self.duration_mins
                && result->Ok_0.instrument@ == self.instrument@ && result->Ok_0.user_id
                == user_id,
            self.duration_mins > i32::MAX ==> result is Err && result->Err_0@ == (Failure {
                kind: ErrorKind::ClientError,
                info: "Invalid practice session duration"@,
            }),
    {
        if self.duration_mins > 2147483647u32 {
            return Err(
                AppError::ClientError(String::from_str("Invalid practice session duration")),
            );
        }
        Ok(
            InsertablePracticeSession {
                start_datetime: self.start_datetime,
                duration_mins: self.duration_mins as i32,
                instrument: self.instrument.clone(),
                user_id,
            },
        )
    }
}

/// A user name and a password, as sent to register or to log in.
#[derive(Debug, PartialEq, Eq)]
pub struct Credentials {
    pub user_name: String,
    pub password: String,
}

impl Clone for Credentials {
    fn clone(&self) -> (copy: Self)
        ensures
            copy == *self,
    {
        Credentials { user_name: self.user_name.clone(), password: self.password.clone() }
    }
}

/// A practice session together with the pieces practiced in it.
#[derive(Debug, PartialEq, Eq)]
pub struct PracticeSessionWithPieces {
    pub start_datetime: Timestamp,
    pub duration_mins: i32,
    pub instrument: String,
    pub practice_session_id: i32,
    pub user_id: i32,
    pub pieces_practiced: Vec<Piece>,
}

/// A practice session with its pieces as contracts see it.
pub struct SessionWithPiecesRow {
    pub session: PracticeSessionRow,
    pub pieces: Seq<PieceRow>,
}

impl View for PracticeSessionWithPieces {
    type V = SessionWithPiecesRow;

    open spec fn view(&self) -> SessionWithPiecesRow {
        SessionWithPiecesRow {
            session: PracticeSessionRow {
                practice_session_id: self.practice_session_id,
                start_datetime: self.start_datetime,
                duration_mins: self.duration_mins,
                instrument: self.instrument@,
                user_id: self.user_id,
            },
            pieces: rows(self.pieces_practiced@),
        }
    }
}

impl PracticeSessionWithPieces {
    /// Joins a stored practice session with the pieces practiced in it.
    pub fn new(db_practice_session: PracticeSession, pieces_practiced: Vec<Piece>) -> (joined:
        Self)
        ensures
            joined@ == (SessionWithPiecesRow {
                session: db_practice_session@,
                pieces: rows(pieces_practiced@),
            }),
    {
        let PracticeSession {
            start_datetime,
            duration_mins,
            instrument,
            practice_session_id,
            user_id,
        } = db_practice_session;
        Self {
            start_datetime,
            duration_mins,
            instrument,
            practice_session_id,
            user_id,
            pieces_practiced,
        }
    }
}

} // verus!
