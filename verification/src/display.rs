//! How rows are shown on a line of text.

use crate::datetime::shown_instant;
use crate::models::{
    Piece, PiecePracticedMapping, PieceRow, PracticeSession, PracticeSessionRow, User, UserRow,
};
use crate::text::{append_integer, signed_decimal};
use vstd::prelude::*;
use vstd::string::StringExecFns;

verus! {

/// The line that shows a user.
pub open spec fn user_line(user: UserRow) -> Seq<char> {
    "("@ + signed_decimal(user.user_id as int) + ") NAME: "@ + user.user_name + " PASS: "@
        + user.password_hash
}

/// The line that shows a piece.
pub open spec fn piece_line(piece: PieceRow) -> Seq<char> {
    "("@ + signed_decimal(piece.piece_id as int) + ") TITLE: "@ + piece.title + " COMPOSER: "@
        + piece.composer
}

/// The line that shows a practice session.
pub open spec fn practice_session_line(session: PracticeSessionRow) -> Seq<char> {
    "("@ + signed_decimal(session.practice_session_id as int) + ") DATETIME: "@ + shown_instant(
        session.start_datetime,
    ) + " DURATION: "@ + signed_decimal(session.duration_mins as int) + " INSTRUMENT: "@
        + session.instrument + " USER: "@ + signed_decimal(session.user_id as int)
}

/// The line that shows a link.
pub open spec fn link_line(link: PiecePracticedMapping) -> Seq<char> {
    "PRACTICE SESSION: "@ + signed_decimal(link.practice_session_id as int) + " PIECE: "@
        + signed_decimal(link.piece_id as int)
}

impl User {
    /// The user on one line: id, name and digest.
    pub fn describe(&self) -> (line: String)
        ensures
            line@ == user_line(self@),
    {
        let mut line = String::from_str("(");
        append_integer(&mut line, self.user_id as i64);
        line.append(") NAME: ");
        line.append(self.user_name.as_str());
        line.append(" PASS: ");
        line.append(self.password_hash.as_str());
        line
    }
}

impl Piece {
    /// The piece on one line: id, title and composer.
    pub fn describe(&self) -> (line: String)
        ensures
            line@ == piece_line(self@),
    {
        let mut line = String::from_str("(");
        append_integer(&mut line, self.piece_id as i64);
        line.append(") TITLE: ");
        line.append(self.title.as_str());
        line.append(" COMPOSER: ");
        line.append(self.composer.as_str());
        line
    }
}

impl PracticeSession {
    /// The practice session on one line: id, start, duration, instrument and
    /// user.
    pub fn describe(&self) -> (line: String)
        ensures
            line@ == practice_session_line(self@),
    {
        let mut line = String::from_str("(");
        append_integer(&mut line, self.practice_session_id as i64);
        line.append(") DATETIME: ");
        let start = self.start_datetime.render();
        line.append(start.as_str());
        line.append(" DURATION: ");
        append_integer(&mut line, self.duration_mins as i64);
        line.append(" INSTRUMENT: ");
        line.append(self.instrument.as_str());
        line.append(" USER: ");
        append_integer(&mut line, self.user_id as i64);
        line
    }
}

impl PiecePracticedMapping {
    /// The link on one line: practice session and piece.
    pub fn describe(&self) -> (line: String)
        ensures
            line@ == link_line(*self),
    {
        let mut line = String::from_str("PRACTICE SESSION: ");
        append_integer(&mut line, self.practice_session_id as i64);
        line.append(" PIECE: ");
        append_integer(&mut line, self.piece_id as i64);
        line
    }
}

} // verus!
