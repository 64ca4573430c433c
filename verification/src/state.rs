//! The relational state that the entity store keeps: four tables, the rules
//! that hold between their rows, and the state that each change leads to.

use crate::models::{
    PiecePracticedMapping, PieceRow, PracticeSessionRow, SessionWithPiecesRow, Timestamp, UserRow,
};
use crate::selection::negate;
use vstd::prelude::*;

verus! {

/// Holds of the user with the given id.
pub open spec fn user_is(user_id: i32) -> spec_fn(UserRow) -> bool {
    |user: UserRow| user.user_id == user_id
}

/// Holds of the piece with the given id.
pub open spec fn piece_is(piece_id: i32) -> spec_fn(PieceRow) -> bool {
    |piece: PieceRow| piece.piece_id == piece_id
}

/// Holds of the practice session with the given id, if it is the given user's.
pub open spec fn session_owned_by(practice_session_id: i32, user_id: i32) -> spec_fn(
    PracticeSessionRow,
) -> bool {
    |session: PracticeSessionRow|
        session.practice_session_id == practice_session_id && session.user_id == user_id
}

/// Holds of the links of the given practice session.
pub open spec fn link_of_session(practice_session_id: i32) -> spec_fn(
    PiecePracticedMapping,
) -> bool {
    |link: PiecePracticedMapping| link.practice_session_id == practice_session_id
}

/// Holds of the link between the given practice session and piece.
pub open spec fn link_is(practice_session_id: i32, piece_id: i32) -> spec_fn(
    PiecePracticedMapping,
) -> bool {
    |link: PiecePracticedMapping|
        link.practice_session_id == practice_session_id && link.piece_id == piece_id
}

/// Whether the table holds a user with this id.
pub open spec fn lists_user(users: Seq<UserRow>, user_id: i32) -> bool {
    exists|i: int| 0 <= i < users.len() && (#[trigger] users[i]).user_id == user_id
}

/// Whether the table holds a user of this name.
pub open spec fn lists_user_named(users: Seq<UserRow>, user_name: Seq<char>) -> bool {
    exists|i: int| 0 <= i < users.len() && (#[trigger] users[i]).user_name == user_name
}

/// Whether the table holds a piece with this id.
pub open spec fn lists_piece(pieces: Seq<PieceRow>, piece_id: i32) -> bool {
    exists|i: int| 0 <= i < pieces.len() && (#[trigger] pieces[i]).piece_id == piece_id
}

/// Whether the table holds a piece of this title by this composer, letter
/// for letter.
pub open spec fn lists_piece_titled(
    pieces: Seq<PieceRow>,
    title: Seq<char>,
    composer: Seq<char>,
) -> bool {
    exists|i: int|
        0 <= i < pieces.len() && (#[trigger] pieces[i]).title == title && pieces[i].composer
            == composer
}

/// Whether the table holds a practice session with this id.
pub open spec fn lists_practice_session(
    sessions: Seq<PracticeSessionRow>,
    practice_session_id: i32,
) -> bool {
    exists|i: int|
        0 <= i < sessions.len() && (#[trigger] sessions[i]).practice_session_id
            == practice_session_id
}

/// Whether the table holds a practice session with this id that is this
/// user's.
pub open spec fn lists_owned_session(
    sessions: Seq<PracticeSessionRow>,
    user_id: i32,
    practice_session_id: i32,
) -> bool {
    exists|i: int|
        0 <= i < sessions.len() && (#[trigger] sessions[i]).practice_session_id
            == practice_session_id && sessions[i].user_id == user_id
}

/// Whether the table holds a practice session of this user that starts at
/// this instant.
pub open spec fn lists_session_at(
    sessions: Seq<PracticeSessionRow>,
    user_id: i32,
    start_datetime: Timestamp,
) -> bool {
    exists|i: int|
        0 <= i < sessions.len() && (#[trigger] sessions[i]).user_id == user_id
            && sessions[i].start_datetime == start_datetime
}

/// Whether the table holds a practice session of this user.
pub open spec fn lists_session_of_user(sessions: Seq<PracticeSessionRow>, user_id: i32) -> bool {
    exists|i: int| 0 <= i < sessions.len() && (#[trigger] sessions[i]).user_id == user_id
}

/// Whether the table holds a link to this piece.
pub open spec fn lists_link_to_piece(links: Seq<PiecePracticedMapping>, piece_id: i32) -> bool {
    exists|i: int| 0 <= i < links.len() && (#[trigger] links[i]).piece_id == piece_id
}

/// Whether the table holds a link of this practice session.
pub open spec fn lists_link_to_session(
    links: Seq<PiecePracticedMapping>,
    practice_session_id: i32,
) -> bool {
    exists|i: int|
        0 <= i < links.len() && (#[trigger] links[i]).practice_session_id == practice_session_id
}

/// Ids are positive and below the counter, and no two users share an id or a
/// name.
pub open spec fn users_wf(users: Seq<UserRow>, next_user_id: int) -> bool {
    &&& 1 <= next_user_id <= i32::MAX + 1
    &&& forall|i: int| 0 <= i < users.len() ==> 0 < (#[trigger] users[i]).user_id < next_user_id
    &&& forall|i: int, j: int|
        0 <= i < j < users.len() ==> (#[trigger] users[i]).user_id != (#[trigger] users[j]).user_id
    &&& forall|i: int, j: int|
        0 <= i < j < users.len() ==> (#[trigger] users[i]).user_name != (
        #[trigger] users[j]).user_name
}

/// Ids are positive and below the counter, and no two pieces share an id or
/// both title and composer.
pub open spec fn pieces_wf(pieces: Seq<PieceRow>, next_piece_id: int) -> bool {
    &&& 1 <= next_piece_id <= i32::MAX + 1
    &&& forall|i: int|
        0 <= i < pieces.len() ==> 0 < (#[trigger] pieces[i]).piece_id < next_piece_id
    &&& forall|i: int, j: int|
        0 <= i < j < pieces.len() ==> (#[trigger] pieces[i]).piece_id != (
        #[trigger] pieces[j]).piece_id
    &&& forall|i: int, j: int|
        0 <= i < j < pieces.len() ==> !((#[trigger] pieces[i]).title == (
        #[trigger] pieces[j]).title && pieces[i].composer == pieces[j].composer)
}

/// Ids are positive and below the counter, and no two practice sessions share
/// an id or both user and start; durations are not negative; the user of each
/// practice session exists.
pub open spec fn practice_sessions_wf(
    sessions: Seq<PracticeSessionRow>,
    next_practice_session_id: int,
    users: Seq<UserRow>,
) -> bool {
    &&& 1 <= next_practice_session_id <= i32::MAX + 1
    &&& forall|i: int|
        0 <= i < sessions.len() ==> 0 < (#[trigger] sessions[i]).practice_session_id
            < next_practice_session_id
    &&& forall|i: int| 0 <= i < sessions.len() ==> (#[trigger] sessions[i]).duration_mins >= 0
    &&& forall|i: int|
        0 <= i < sessions.len() ==> lists_user(users, (#[trigger] sessions[i]).user_id)
    &&& forall|i: int, j: int|
        0 <= i < j < sessions.len() ==> (#[trigger] sessions[i]).practice_session_id != (
        #[trigger] sessions[j]).practice_session_id
    &&& forall|i: int, j: int|
        0 <= i < j < sessions.len() ==> !((#[trigger] sessions[i]).user_id == (
        #[trigger] sessions[j]).user_id && sessions[i].start_datetime
            == sessions[j].start_datetime)
}

/// No link occurs twice, and both ends of each link exist.
pub open spec fn pieces_practiced_wf(
    links: Seq<PiecePracticedMapping>,
    sessions: Seq<PracticeSessionRow>,
    pieces: Seq<PieceRow>,
) -> bool {
    &&& forall|i: int|
        0 <= i < links.len() ==> lists_practice_session(
            sessions,
            (#[trigger] links[i]).practice_session_id,
        )
    &&& forall|i: int| 0 <= i < links.len() ==> lists_piece(pieces, (#[trigger] links[i]).piece_id)
    &&& forall|i: int, j: int|
        0 <= i < j < links.len() ==> (#[trigger] links[i]) != (#[trigger] links[j])
}

/// The content of the entity store. Each table lists its rows in the order in
/// which they were stored; the counters give the id of the next row.
pub struct StoreState {
    pub users: Seq<UserRow>,
    pub pieces: Seq<PieceRow>,
    pub practice_sessions: Seq<PracticeSessionRow>,
    pub pieces_practiced: Seq<PiecePracticedMapping>,
    pub next_user_id: int,
    pub next_piece_id: int,
    pub next_practice_session_id: int,
}

impl StoreState {
    /// The store in which nothing was ever stored.
    pub open spec fn empty() -> StoreState {
        StoreState {
            users: Seq::empty(),
            pieces: Seq::empty(),
            practice_sessions: Seq::empty(),
            pieces_practiced: Seq::empty(),
            next_user_id: 1,
            next_piece_id: 1,
            next_practice_session_id: 1,
        }
    }

    /// Whether there is a user with this id.
    pub open spec fn has_user(self, user_id: i32) -> bool {
        lists_user(self.users, user_id)
    }

    /// Whether there is a user of this name.
    pub open spec fn has_user_named(self, user_name: Seq<char>) -> bool {
        lists_user_named(self.users, user_name)
    }

    /// Whether the catalog holds a piece with this id.
    pub open spec fn has_piece(self, piece_id: i32) -> bool {
        lists_piece(self.pieces, piece_id)
    }

    /// Whether the catalog holds a piece of this title by this composer.
    pub open spec fn has_piece_titled(self, title: Seq<char>, composer: Seq<char>) -> bool {
        lists_piece_titled(self.pieces, title, composer)
    }

    /// Whether there is a practice session with this id, whoever owns it.
    pub open spec fn has_practice_session(self, practice_session_id: i32) -> bool {
        lists_practice_session(self.practice_sessions, practice_session_id)
    }

    /// Whether the practice session exists and belongs to the user.
    pub open spec fn owns(self, user_id: i32, practice_session_id: i32) -> bool {
        lists_owned_session(self.practice_sessions, user_id, practice_session_id)
    }

    /// Whether the user has a practice session that starts at this instant.
    pub open spec fn has_session_at(self, user_id: i32, start_datetime: Timestamp) -> bool {
        lists_session_at(self.practice_sessions, user_id, start_datetime)
    }

    /// Whether this link is stored.
    pub open spec fn has_link(self, link: PiecePracticedMapping) -> bool {
        self.pieces_practiced.contains(link)
    }

    /// Whether a practice session refers to the user.
    pub open spec fn user_in_use(self, user_id: i32) -> bool {
        lists_session_of_user(self.practice_sessions, user_id)
    }

    /// Whether a link refers to the piece.
    pub open spec fn piece_in_use(self, piece_id: i32) -> bool {
        lists_link_to_piece(self.pieces_practiced, piece_id)
    }

    /// Whether a link refers to the practice session.
    pub open spec fn session_in_use(self, practice_session_id: i32) -> bool {
        lists_link_to_session(self.pieces_practiced, practice_session_id)
    }

    /// The rules of the data model: uniqueness within each table, and
    /// references that point at rows that exist.
    pub open spec fn wf(self) -> bool {
        &&& users_wf(self.users, self.next_user_id)
        &&& pieces_wf(self.pieces, self.next_piece_id)
        &&& practice_sessions_wf(
            self.practice_sessions,
            self.next_practice_session_id,
            self.users,
        )
        &&& pieces_practiced_wf(self.pieces_practiced, self.practice_sessions, self.pieces)
    }

    /// The row that a new user gets.
    pub open spec fn new_user(self, user_name: Seq<char>, password_hash: Seq<char>) -> UserRow {
        UserRow { user_id: self.next_user_id as i32, user_name, password_hash }
    }

    /// Whether a user of this name can be stored.
    pub open spec fn accepts_user(self, user_name: Seq<char>) -> bool {
        !self.has_user_named(user_name) && self.next_user_id <= i32::MAX
    }

    /// The store after a user was stored.
    pub open spec fn with_user(self, user_name: Seq<char>, password_hash: Seq<char>) -> StoreState {
        StoreState {
            users: self.users.push(self.new_user(user_name, password_hash)),
            next_user_id: self.next_user_id + 1,
            ..self
        }
    }

    /// The store after the user with this id was removed.
    pub open spec fn without_user(self, user_id: i32) -> StoreState {
        StoreState { users: self.users.filter(negate(user_is(user_id))), ..self }
    }

    /// The row that a new piece gets.
    pub open spec fn new_piece(self, title: Seq<char>, composer: Seq<char>) -> PieceRow {
        PieceRow { piece_id: self.next_piece_id as i32, title, composer }
    }

    /// Whether a piece of this title by this composer can be stored.
    pub open spec fn accepts_piece(self, title: Seq<char>, composer: Seq<char>) -> bool {
        !self.has_piece_titled(title, composer) && self.next_piece_id <= i32::MAX
    }

    /// The store after a piece was stored.
    pub open spec fn with_piece(self, title: Seq<char>, composer: Seq<char>) -> StoreState {
        StoreState {
            pieces: self.pieces.push(self.new_piece(title, composer)),
            next_piece_id: self.next_piece_id + 1,
            ..self
        }
    }

    /// The store after the piece with this id was removed.
    pub open spec fn without_piece(self, piece_id: i32) -> StoreState {
        StoreState { pieces: self.pieces.filter(negate(piece_is(piece_id))), ..self }
    }

    /// The row that a new practice session gets.
    pub open spec fn new_practice_session(
        self,
        start_datetime: Timestamp,
        duration_mins: i32,
        instrument: Seq<char>,
        user_id: i32,
    ) -> PracticeSessionRow {
        PracticeSessionRow {
            practice_session_id: self.next_practice_session_id as i32,
            start_datetime,
            duration_mins,
            instrument,
            user_id,
        }
    }

    /// Whether this user can store a practice session with this start and
    /// duration.
    pub open spec fn accepts_practice_session(
        self,
        start_datetime: Timestamp,
        duration_mins: i32,
        user_id: i32,
    ) -> bool {
        &&& !self.has_session_at(user_id, start_datetime)
        &&& self.has_user(user_id)
        &&& duration_mins >= 0
        &&& self.next_practice_session_id <= i32::MAX
    }

    /// The store after a practice session was stored.
    pub open spec fn with_practice_session(
        self,
        start_datetime: Timestamp,
        duration_mins: i32,
        instrument: Seq<char>,
        user_id: i32,
    ) -> StoreState {
        StoreState {
            practice_sessions: self.practice_sessions.push(
                self.new_practice_session(start_datetime, duration_mins, instrument, user_id),
            ),
            next_practice_session_id: self.next_practice_session_id + 1,
            ..self
        }
    }

    /// The store after the practice session with this id was removed, if it
    /// was this user's.
    pub open spec fn without_practice_session(
        self,
        user_id: i32,
        practice_session_id: i32,
    ) -> StoreState {
        StoreState {
            practice_sessions: self.practice_sessions.filter(
                negate(session_owned_by(practice_session_id, user_id)),
            ),
            ..self
        }
    }

    /// Whether this link can be stored.
    pub open spec fn accepts_link(self, link: PiecePracticedMapping) -> bool {
        &&& !self.has_link(link)
        &&& self.has_practice_session(link.practice_session_id)
        &&& self.has_piece(link.piece_id)
    }

    /// The store after a link was stored.
    pub open spec fn with_link(self, link: PiecePracticedMapping) -> StoreState {
        StoreState { pieces_practiced: self.pieces_practiced.push(link), ..self }
    }

    /// The store after the links of which `gone` holds were removed.
    pub open spec fn without_links(
        self,
        gone: spec_fn(PiecePracticedMapping) -> bool,
    ) -> StoreState {
        StoreState { pieces_practiced: self.pieces_practiced.filter(negate(gone)), ..self }
    }

    /// The user of this name, where there is one.
    pub open spec fn user_named(self, user_name: Seq<char>) -> UserRow {
        choose|row: UserRow| self.users.contains(row) && row.user_name == user_name
    }

    /// The piece with this id, where there is one.
    pub open spec fn piece(self, piece_id: i32) -> PieceRow {
        choose|row: PieceRow| self.pieces.contains(row) && row.piece_id == piece_id
    }

    /// The pieces that the given links point at, link by link.
    pub open spec fn pieces_of_links(self, links: Seq<PiecePracticedMapping>) -> Seq<PieceRow> {
        Seq::new(links.len(), |k: int| self.piece(links[k].piece_id))
    }

    /// The pieces practiced in a practice session, in the order of its links.
    pub open spec fn practiced_pieces(self, practice_session_id: i32) -> Seq<PieceRow> {
        self.pieces_of_links(self.pieces_practiced.filter(link_of_session(practice_session_id)))
    }

    /// Each of the given practice sessions together with its pieces.
    pub open spec fn with_pieces(self, sessions: Seq<PracticeSessionRow>) -> Seq<
        SessionWithPiecesRow,
    > {
        Seq::new(
            sessions.len(),
            |k: int|
                SessionWithPiecesRow {
                    session: sessions[k],
                    pieces: self.practiced_pieces(sessions[k].practice_session_id),
                },
        )
    }

    /// The number of links of a practice session.
    pub open spec fn link_count(self, practice_session_id: i32) -> nat {
        self.pieces_practiced.filter(link_of_session(practice_session_id)).len()
    }
}

} // verus!
