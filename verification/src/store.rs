//! The entity store: the four tables, kept in memory, with the operations
//! that insert, find and delete rows under the rules of the data model.

use crate::error::StorageError;
use crate::filter::{GetPiecesQueryParams, PracticeSessionFilter};
use crate::models::{
    lemma_rows_push, rows, InsertablePiece, InsertablePracticeSession, Piece,
    PiecePracticedMapping, PieceRow, PracticeSession, PracticeSessionRow, Timestamp, User,
    UserRow,
};
use crate::rules::{
    lemma_with_link_wf, lemma_with_piece_wf, lemma_with_practice_session_wf, lemma_with_user_wf,
    lemma_piece_by_id, lemma_without_links_wf, lemma_without_piece_wf,
    lemma_without_practice_session_wf,
    lemma_without_user_wf,
};
use crate::selection::{
    lemma_count_of_key, lemma_select_empty, lemma_select_none, lemma_select_partition,
    lemma_select_step, negate,
};
use crate::state::{
    link_is, link_of_session, lists_link_to_piece, lists_link_to_session, lists_owned_session,
    lists_piece, lists_piece_titled, lists_practice_session, lists_session_at,
    lists_session_of_user, lists_user, lists_user_named, piece_is, session_owned_by, user_is,
    StoreState,
};
use vstd::prelude::*;
use vstd::string::StringExecFns;

verus! {

/// The store of users, pieces, practice sessions and the links between
/// practice sessions and pieces.
pub struct EntityStore {
    tables: Tables,
}

/// The rows of the four tables, and the id that each table gave last.
struct Tables {
    users: Vec<User>,
    pieces: Vec<Piece>,
    practice_sessions: Vec<PracticeSession>,
    pieces_practiced: Vec<PiecePracticedMapping>,
    last_user_id: i32,
    last_piece_id: i32,
    last_practice_session_id: i32,
}

impl Tables {
    spec fn state(&self) -> StoreState {
        StoreState {
            users: rows(self.users@),
            pieces: rows(self.pieces@),
            practice_sessions: rows(self.practice_sessions@),
            pieces_practiced: self.pieces_practiced@,
            next_user_id: self.last_user_id + 1,
            next_piece_id: self.last_piece_id + 1,
            next_practice_session_id: self.last_practice_session_id + 1,
        }
    }

    fn new() -> (tables: Tables)
        ensures
            tables.state() == StoreState::empty(),
            tables.state().wf(),
    {
        let tables = Tables {
            users: Vec::new(),
            pieces: Vec::new(),
            practice_sessions: Vec::new(),
            pieces_practiced: Vec::new(),
            last_user_id: 0,
            last_piece_id: 0,
            last_practice_session_id: 0,
        };
        proof {
            assert(tables.state().users =~= Seq::empty());
            assert(tables.state().pieces =~= Seq::empty());
            assert(tables.state().practice_sessions =~= Seq::empty());
            assert(tables.state().pieces_practiced =~= Seq::empty());
        }
        tables
    }
}

impl View for EntityStore {
    type V = StoreState;

    closed spec fn view(&self) -> StoreState {
        self.tables.state()
    }
}

fn has_user_named(users: &Vec<User>, user_name: &String) -> (found: bool)
    ensures
        found == lists_user_named(rows(users@), user_name@),
{
    let mut i: usize = 0;
    while i < users.len()
        invariant
            i <= users.len(),
            forall|k: int| 0 <= k < i ==> (#[trigger] rows(users@)[k]).user_name != user_name@,
        decreases users.len() - i,
    {
        if users[i].user_name == *user_name {
            assert(rows(users@)[i as int].user_name == user_name@);
            return true;
        }
        i += 1;
    }
    false
}

fn has_user(users: &Vec<User>, user_id: i32) -> (found: bool)
    ensures
        found == lists_user(rows(users@), user_id),
{
    let mut i: usize = 0;
    while i < users.len()
        invariant
            i <= users.len(),
            forall|k: int| 0 <= k < i ==> (#[trigger] rows(users@)[k]).user_id != user_id,
        decreases users.len() - i,
    {
        if users[i].user_id == user_id {
            assert(rows(users@)[i as int].user_id == user_id);
            return true;
        }
        i += 1;
    }
    false
}

fn has_piece(pieces: &Vec<Piece>, piece_id: i32) -> (found: bool)
    ensures
        found == lists_piece(rows(pieces@), piece_id),
{
    let mut i: usize = 0;
    while i < pieces.len()
        invariant
            i <= pieces.len(),
            forall|k: int| 0 <= k < i ==> (#[trigger] rows(pieces@)[k]).piece_id != piece_id,
        decreases pieces.len() - i,
    {
        if pieces[i].piece_id == piece_id {
            assert(rows(pieces@)[i as int].piece_id == piece_id);
            return true;
        }
        i += 1;
    }
    false
}

fn has_piece_titled(pieces: &Vec<Piece>, title: &String, composer: &String) -> (found: bool)
    ensures
        found == lists_piece_titled(rows(pieces@), title@, composer@),
{
    let mut i: usize = 0;
    while i < pieces.len()
        invariant
            i <= pieces.len(),
            forall|k: int|
                0 <= k < i ==> !((#[trigger] rows(pieces@)[k]).title == title@ && rows(
                    pieces@,
                )[k].composer == composer@),
        decreases pieces.len() - i,
    {
        if pieces[i].title == *title && pieces[i].composer == *composer {
            assert(rows(pieces@)[i as int].title == title@);
            return true;
        }
        i += 1;
    }
    false
}

fn has_practice_session(sessions: &Vec<PracticeSession>, practice_session_id: i32) -> (found:
    bool)
    ensures
        found == lists_practice_session(rows(sessions@), practice_session_id),
{
    let mut i: usize = 0;
    while i < sessions.len()
        invariant
            i <= sessions.len(),
            forall|k: int|
                0 <= k < i ==> (#[trigger] rows(sessions@)[k]).practice_session_id
                    != practice_session_id,
        decreases sessions.len() - i,
    {
        if sessions[i].practice_session_id == practice_session_id {
            assert(rows(sessions@)[i as int].practice_session_id == practice_session_id);
            return true;
        }
        i += 1;
    }
    false
}

fn has_owned_session(
    sessions: &Vec<PracticeSession>,
    user_id: i32,
    practice_session_id: i32,
) -> (found: bool)
    ensures
        found == lists_owned_session(rows(sessions@), user_id, practice_session_id),
{
    let mut i: usize = 0;
    while i < sessions.len()
        invariant
            i <= sessions.len(),
            forall|k: int|
                0 <= k < i ==> !((#[trigger] rows(sessions@)[k]).practice_session_id
                    == practice_session_id && rows(sessions@)[k].user_id == user_id),
        decreases sessions.len() - i,
    {
        if sessions[i].practice_session_id == practice_session_id && sessions[i].user_id
            == user_id {
            assert(rows(sessions@)[i as int].practice_session_id == practice_session_id);
            return true;
        }
        i += 1;
    }
    false
}

fn has_session_at(sessions: &Vec<PracticeSession>, user_id: i32, start: Timestamp) -> (found:
    bool)
    ensures
        found == lists_session_at(rows(sessions@), user_id, start),
{
    let mut i: usize = 0;
    while i < sessions.len()
        invariant
            i <= sessions.len(),
            forall|k: int|
                0 <= k < i ==> !((#[trigger] rows(sessions@)[k]).user_id == user_id && rows(
                    sessions@,
                )[k].start_datetime == start),
        decreases sessions.len() - i,
    {
        if sessions[i].user_id == user_id && sessions[i].start_datetime.micros == start.micros {
            assert(rows(sessions@)[i as int].user_id == user_id);
            return true;
        }
        i += 1;
    }
    false
}

fn has_session_of_user(sessions: &Vec<PracticeSession>, user_id: i32) -> (found: bool)
    ensures
        found == lists_session_of_user(rows(sessions@), user_id),
{
    let mut i: usize = 0;
    while i < sessions.len()
        invariant
            i <= sessions.len(),
            forall|k: int| 0 <= k < i ==> (#[trigger] rows(sessions@)[k]).user_id != user_id,
        decreases sessions.len() - i,
    {
        if sessions[i].user_id == user_id {
            assert(rows(sessions@)[i as int].user_id == user_id);
            return true;
        }
        i += 1;
    }
    false
}

fn has_link(links: &Vec<PiecePracticedMapping>, link: PiecePracticedMapping) -> (found: bool)
    ensures
        found == links@.contains(link),
{
    let mut i: usize = 0;
    while i < links.len()
        invariant
            i <= links.len(),
            forall|k: int| 0 <= k < i ==> links@[k] != link,
        decreases links.len() - i,
    {
        if links[i].practice_session_id == link.practice_session_id && links[i].piece_id
            == link.piece_id {
            assert(links@[i as int] == link);
            return true;
        }
        i += 1;
    }
    false
}

fn has_link_to_piece(links: &Vec<PiecePracticedMapping>, piece_id: i32) -> (found: bool)
    ensures
        found == lists_link_to_piece(links@, piece_id),
{
    let mut i: usize = 0;
    while i < links.len()
        invariant
            i <= links.len(),
            forall|k: int| 0 <= k < i ==> (#[trigger] links@[k]).piece_id != piece_id,
        decreases links.len() - i,
    {
        if links[i].piece_id == piece_id {
            return true;
        }
        i += 1;
    }
    false
}

fn has_link_to_session(links: &Vec<PiecePracticedMapping>, practice_session_id: i32) -> (found:
    bool)
    ensures
        found == lists_link_to_session(links@, practice_session_id),
{
    let mut i: usize = 0;
    while i < links.len()
        invariant
            i <= links.len(),
            forall|k: int|
                0 <= k < i ==> (#[trigger] links@[k]).practice_session_id != practice_session_id,
        decreases links.len() - i,
    {
        if links[i].practice_session_id == practice_session_id {
            return true;
        }
        i += 1;
    }
    false
}

fn find_piece(pieces: &Vec<Piece>, piece_id: i32) -> (found: Option<Piece>)
    ensures
        match found {
            Some(piece) => rows(pieces@).contains(piece@) && piece.piece_id == piece_id,
            None => !lists_piece(rows(pieces@), piece_id),
        },
{
    let mut i: usize = 0;
    while i < pieces.len()
        invariant
            i <= pieces.len(),
            forall|k: int| 0 <= k < i ==> (#[trigger] rows(pieces@)[k]).piece_id != piece_id,
        decreases pieces.len() - i,
    {
        if pieces[i].piece_id == piece_id {
            let piece = pieces[i].clone();
            assert(rows(pieces@)[i as int] == piece@);
            return Some(piece);
        }
        i += 1;
    }
    None
}

fn users_except(users: &Vec<User>, user_id: i32) -> (kept: Vec<User>)
    ensures
        rows(kept@) == rows(users@).filter(negate(user_is(user_id))),
{
    let ghost all = rows(users@);
    let ghost keep = negate(user_is(user_id));
    let mut kept: Vec<User> = Vec::new();
    let mut i: usize = 0;
    proof {
        lemma_select_empty(keep);
        assert(all.take(0) =~= Seq::empty());
        assert(rows(kept@) =~= Seq::empty());
    }
    while i < users.len()
        invariant
            i <= users.len(),
            all == rows(users@),
            keep == negate(user_is(user_id)),
            rows(kept@) == all.take(i as int).filter(keep),
        decreases users.len() - i,
    {
        proof {
            lemma_select_step(all, i as int, keep);
        }
        if users[i].user_id != user_id {
            let copy = users[i].clone();
            proof {
                lemma_rows_push(kept@, copy);
            }
            kept.push(copy);
        }
        i += 1;
    }
    proof {
        assert(all.take(i as int) =~= all);
    }
    kept
}

fn pieces_except(pieces: &Vec<Piece>, piece_id: i32) -> (kept: Vec<Piece>)
    ensures
        rows(kept@) == rows(pieces@).filter(negate(piece_is(piece_id))),
{
    let ghost all = rows(pieces@);
    let ghost keep = negate(piece_is(piece_id));
    let mut kept: Vec<Piece> = Vec::new();
    let mut i: usize = 0;
    proof {
        lemma_select_empty(keep);
        assert(all.take(0) =~= Seq::empty());
        assert(rows(kept@) =~= Seq::empty());
    }
    while i < pieces.len()
        invariant
            i <= pieces.len(),
            all == rows(pieces@),
            keep == negate(piece_is(piece_id)),
            rows(kept@) == all.take(i as int).filter(keep),
        decreases pieces.len() - i,
    {
        proof {
            lemma_select_step(all, i as int, keep);
        }
        if pieces[i].piece_id != piece_id {
            let copy = pieces[i].clone();
            proof {
                lemma_rows_push(kept@, copy);
            }
            kept.push(copy);
        }
        i += 1;
    }
    proof {
        assert(all.take(i as int) =~= all);
    }
    kept
}

fn sessions_except(
    sessions: &Vec<PracticeSession>,
    user_id: i32,
    practice_session_id: i32,
) -> (kept: Vec<PracticeSession>)
    ensures
        rows(kept@) == rows(sessions@).filter(
            negate(session_owned_by(practice_session_id, user_id)),
        ),
{
    let ghost all = rows(sessions@);
    let ghost keep = negate(session_owned_by(practice_session_id, user_id));
    let mut kept: Vec<PracticeSession> = Vec::new();
    let mut i: usize = 0;
    proof {
        lemma_select_empty(keep);
        assert(all.take(0) =~= Seq::empty());
        assert(rows(kept@) =~= Seq::empty());
    }
    while i < sessions.len()
        invariant
            i <= sessions.len(),
            all == rows(sessions@),
            keep == negate(session_owned_by(practice_session_id, user_id)),
            rows(kept@) == all.take(i as int).filter(keep),
        decreases sessions.len() - i,
    {
        proof {
            lemma_select_step(all, i as int, keep);
        }
        if !(sessions[i].practice_session_id == practice_session_id && sessions[i].user_id
            == user_id) {
            let copy = sessions[i].clone();
            proof {
                lemma_rows_push(kept@, copy);
            }
            kept.push(copy);
        }
        i += 1;
    }
    proof {
        assert(all.take(i as int) =~= all);
    }
    kept
}

/// The links that stay when those of a practice session go: all of its
/// links where `piece_id` is `None`, else the one to that piece.
fn links_except(
    links: &Vec<PiecePracticedMapping>,
    practice_session_id: i32,
    piece_id: Option<i32>,
) -> (kept: Vec<PiecePracticedMapping>)
    ensures
        kept@ == links@.filter(negate(links_gone(practice_session_id, piece_id))),
{
    let ghost keep = negate(links_gone(practice_session_id, piece_id));
    let mut kept: Vec<PiecePracticedMapping> = Vec::new();
    let mut i: usize = 0;
    proof {
        lemma_select_empty(keep);
        assert(links@.take(0) =~= Seq::empty());
    }
    while i < links.len()
        invariant
            i <= links.len(),
            keep == negate(links_gone(practice_session_id, piece_id)),
            kept@ == links@.take(i as int).filter(keep),
        decreases links.len() - i,
    {
        proof {
            lemma_select_step(links@, i as int, keep);
        }
        let link = links[i];
        let goes = link.practice_session_id == practice_session_id && match piece_id {
            Some(piece_id) => link.piece_id == piece_id,
            None => true,
        };
        if !goes {
            kept.push(link);
        }
        i += 1;
    }
    proof {
        assert(links@.take(i as int) =~= links@);
    }
    kept
}

/// Holds of the links that a removal takes: all links of the practice
/// session where `piece_id` is `None`, else its link to that piece.
pub open spec fn links_gone(practice_session_id: i32, piece_id: Option<i32>) -> spec_fn(
    PiecePracticedMapping,
) -> bool {
    match piece_id {
        Some(piece_id) => link_is(practice_session_id, piece_id),
        None => link_of_session(practice_session_id),
    }
}

impl EntityStore {
    /// Whether the content keeps the rules of the data model. That of every
    /// entity store does.
    #[verifier::type_invariant]
    pub open spec fn wf(&self) -> bool {
        self@.wf()
    }

    /// A store in which nothing was ever stored.
    pub fn new() -> (store: EntityStore)
        ensures
            store.wf(),
            store@ == StoreState::empty(),
    {
        EntityStore { tables: Tables::new() }
    }

    /// Stores a user under the next id and returns the stored row. A name
    /// that is taken is a uniqueness violation.
    pub fn insert_user(&mut self, user_name: String, password_hash: String) -> (result: Result<
        User,
        StorageError,
    >)
        ensures
            final(self).wf(),
            match result {
                Ok(user) => {
                    &&& old(self)@.accepts_user(user_name@)
                    &&& user@ == old(self)@.new_user(user_name@, password_hash@)
                    &&& final(self)@ == old(self)@.with_user(user_name@, password_hash@)
                    &&& final(self)@.has_user(user.user_id)
                    &&& final(self)@.has_user_named(user_name@)
                },
                Err(error) => {
                    &&& final(self)@ == old(self)@
                    &&& !old(self)@.accepts_user(user_name@)
                    &&& if old(self)@.has_user_named(user_name@) {
                        error == StorageError::UniqueViolation
                    } else {
                        error is Other
                    }
                },
            },
    {
        proof {
            use_type_invariant(&*self);
        }
        if has_user_named(&self.tables.users, &user_name) {
            return Err(StorageError::UniqueViolation);
        }
        if self.tables.last_user_id == i32::MAX {
            return Err(StorageError::Other(String::from_str("integer out of range")));
        }
        let user_id: i32 = self.tables.last_user_id + 1;
        let user = User { user_id, user_name, password_hash };
        let stored = user.clone();
        proof {
            lemma_rows_push(self.tables.users@, stored);
            lemma_with_user_wf(self@, user_name@, password_hash@);
        }
        let mut tables = Tables::new();
        core::mem::swap(&mut self.tables, &mut tables);
        tables.last_user_id = user_id;
        tables.users.push(stored);
        self.tables = tables;
        Ok(user)
    }

    /// The user of this name. There is at most one.
    pub fn find_user_by_name(&self, user_name: &String) -> (result: Result<User, StorageError>)
        ensures
            match result {
                Ok(user) => self@.users.contains(user@) && user@.user_name == user_name@,
                Err(error) => error == StorageError::NotFound && !self@.has_user_named(
                    user_name@,
                ),
            },
    {
        proof {
            use_type_invariant(&*self);
        }
        let mut i: usize = 0;
        while i < self.tables.users.len()
            invariant
                i <= self.tables.users.len(),
                forall|k: int|
                    0 <= k < i ==> (#[trigger] rows(self.tables.users@)[k]).user_name != user_name@,
            decreases self.tables.users.len() - i,
        {
            if self.tables.users[i].user_name == *user_name {
                let user = self.tables.users[i].clone();
                assert(rows(self.tables.users@)[i as int] == user@);
                return Ok(user);
            }
            i += 1;
        }
        Err(StorageError::NotFound)
    }

    /// All users, in the order in which they were stored.
    pub fn select_users(&self) -> (users: Vec<User>)
        ensures
            rows(users@) == self@.users,
    {
        let mut users: Vec<User> = Vec::new();
        let mut i: usize = 0;
        while i < self.tables.users.len()
            invariant
                i <= self.tables.users.len(),
                rows(users@) == rows(self.tables.users@).take(i as int),
            decreases self.tables.users.len() - i,
        {
            let copy = self.tables.users[i].clone();
            proof {
                let all = rows(self.tables.users@);
                lemma_rows_push(users@, copy);
                assert(all.take(i + 1) =~= all.take(i as int).push(copy@));
            }
            users.push(copy);
            i += 1;
        }
        proof {
            assert(rows(self.tables.users@).take(i as int) =~= rows(self.tables.users@));
        }
        users
    }

    /// Removes the user with this id and returns how many rows went. A user
    /// to whom a practice session refers cannot go.
    pub fn delete_user(&mut self, user_id: i32) -> (result: Result<usize, StorageError>)
        ensures
            final(self).wf(),
            match result {
                Ok(count) => {
                    &&& !old(self)@.user_in_use(user_id)
                    &&& final(self)@ == old(self)@.without_user(user_id)
                    &&& count == old(self)@.users.filter(user_is(user_id)).len()
                    &&& count == if old(self)@.has_user(user_id) { 1usize } else { 0usize }
                },
                Err(error) => {
                    &&& old(self)@.user_in_use(user_id)
                    &&& final(self)@ == old(self)@
                    &&& error == StorageError::ForeignKeyViolation
                },
            },
    {
        proof {
            use_type_invariant(&*self);
        }
        if has_session_of_user(&self.tables.practice_sessions, user_id) {
            return Err(StorageError::ForeignKeyViolation);
        }
        let kept = users_except(&self.tables.users, user_id);
        proof {
            lemma_select_partition(self@.users, user_is(user_id));
            lemma_without_user_wf(self@, user_id);
            lemma_one_user_per_id(self@, user_id);
        }
        let count = self.tables.users.len() - kept.len();
        self.tables.users = kept;
        Ok(count)
    }

    /// Stores a piece under the next id and returns the stored row. A piece
    /// of the same title by the same composer is a uniqueness violation.
    pub fn insert_piece(&mut self, new_piece: InsertablePiece) -> (result: Result<
        Piece,
        StorageError,
    >)
        ensures
            final(self).wf(),
            match result {
                Ok(piece) => {
                    &&& old(self)@.accepts_piece(new_piece.title@, new_piece.composer@)
                    &&& piece@ == old(self)@.new_piece(new_piece.title@, new_piece.composer@)
                    &&& final(self)@ == old(self)@.with_piece(
                        new_piece.title@,
                        new_piece.composer@,
                    )
                    &&& final(self)@.has_piece(piece.piece_id)
                    &&& final(self)@.has_piece_titled(new_piece.title@, new_piece.composer@)
                },
                Err(error) => {
                    &&& final(self)@ == old(self)@
                    &&& !old(self)@.accepts_piece(new_piece.title@, new_piece.composer@)
                    &&& if old(self)@.has_piece_titled(new_piece.title@, new_piece.composer@) {
                        error == StorageError::UniqueViolation
                    } else {
                        error is Other
                    }
                },
            },
    {
        proof {
            use_type_invariant(&*self);
        }
        if has_piece_titled(&self.tables.pieces, &new_piece.title, &new_piece.composer) {
            return Err(StorageError::UniqueViolation);
        }
        if self.tables.last_piece_id == i32::MAX {
            return Err(StorageError::Other(String::from_str("integer out of range")));
        }
        let piece_id: i32 = self.tables.last_piece_id + 1;
        let piece = Piece { piece_id, title: new_piece.title, composer: new_piece.composer };
        let stored = piece.clone();
        proof {
            lemma_rows_push(self.tables.pieces@, stored);
            lemma_with_piece_wf(self@, new_piece.title@, new_piece.composer@);
        }
        let mut tables = Tables::new();
        core::mem::swap(&mut self.tables, &mut tables);
        tables.last_piece_id = piece_id;
        tables.pieces.push(stored);
        self.tables = tables;
        Ok(piece)
    }

    /// Removes the piece with this id and returns how many rows went. A
    /// piece to which a link refers cannot go.
    pub fn delete_piece(&mut self, piece_id: i32) -> (result: Result<usize, StorageError>)
        ensures
            final(self).wf(),
            match result {
                Ok(count) => {
                    &&& !old(self)@.piece_in_use(piece_id)
                    &&& final(self)@ == old(self)@.without_piece(piece_id)
                    &&& count == old(self)@.pieces.filter(piece_is(piece_id)).len()
                    &&& count == if old(self)@.has_piece(piece_id) { 1usize } else { 0usize }
                },
                Err(error) => {
                    &&& old(self)@.piece_in_use(piece_id)
                    &&& final(self)@ == old(self)@
                    &&& error == StorageError::ForeignKeyViolation
                },
            },
    {
        proof {
            use_type_invariant(&*self);
        }
        if has_link_to_piece(&self.tables.pieces_practiced, piece_id) {
            return Err(StorageError::ForeignKeyViolation);
        }
        let kept = pieces_except(&self.tables.pieces, piece_id);
        proof {
            lemma_select_partition(self@.pieces, piece_is(piece_id));
            lemma_without_piece_wf(self@, piece_id);
            lemma_one_piece_per_id(self@, piece_id);
        }
        let count = self.tables.pieces.len() - kept.len();
        self.tables.pieces = kept;
        Ok(count)
    }

    /// Stores a practice session under the next id and returns the stored
    /// row. A second practice session of the same user with the same start is
    /// a uniqueness violation; a user that does not exist is a broken
    /// reference.
    pub fn insert_practice_session(&mut self, record: InsertablePracticeSession) -> (result:
        Result<PracticeSession, StorageError>)
        ensures
            final(self).wf(),
            match result {
                Ok(session) => {
                    &&& old(self)@.accepts_practice_session(
                        record.start_datetime,
                        record.duration_mins,
                        record.user_id,
                    )
                    &&& session@ == old(self)@.new_practice_session(
                        record.start_datetime,
                        record.duration_mins,
                        record.instrument@,
                        record.user_id,
                    )
                    &&& final(self)@ == old(self)@.with_practice_session(
                        record.start_datetime,
                        record.duration_mins,
                        record.instrument@,
                        record.user_id,
                    )
                    &&& final(self)@.owns(record.user_id, session.practice_session_id)
                    &&& final(self)@.has_session_at(record.user_id, record.start_datetime)
                },
                Err(error) => {
                    &&& final(self)@ == old(self)@
                    &&& !old(self)@.accepts_practice_session(
                        record.start_datetime,
                        record.duration_mins,
                        record.user_id,
                    )
                    &&& if old(self)@.has_session_at(record.user_id, record.start_datetime) {
                        error == StorageError::UniqueViolation
                    } else if !old(self)@.has_user(record.user_id) {
                        error == StorageError::ForeignKeyViolation
                    } else {
                        error is Other
                    }
                },
            },
    {
        proof {
            use_type_invariant(&*self);
        }
        if has_session_at(&self.tables.practice_sessions, record.user_id, record.start_datetime) {
            return Err(StorageError::UniqueViolation);
        }
        if !has_user(&self.tables.users, record.user_id) {
            return Err(StorageError::ForeignKeyViolation);
        }
        if record.duration_mins < 0 {
            return Err(StorageError::Other(String::from_str("duration_mins must not be negative")));
        }
        if self.tables.last_practice_session_id == i32::MAX {
            return Err(StorageError::Other(String::from_str("integer out of range")));
        }
        let practice_session_id: i32 = self.tables.last_practice_session_id + 1;
        let session = PracticeSession {
            practice_session_id,
            start_datetime: record.start_datetime,
            duration_mins: record.duration_mins,
            instrument: record.instrument,
            user_id: record.user_id,
        };
        let stored = session.clone();
        proof {
            lemma_rows_push(self.tables.practice_sessions@, stored);
            lemma_with_practice_session_wf(
                self@,
                record.start_datetime,
                record.duration_mins,
                record.instrument@,
                record.user_id,
            );
        }
        let mut tables = Tables::new();
        core::mem::swap(&mut self.tables, &mut tables);
        tables.last_practice_session_id = practice_session_id;
        tables.practice_sessions.push(stored);
        self.tables = tables;
        Ok(session)
    }

    /// Looks for the practice session by its id and its user in one
    /// predicate, and returns its id.
    pub fn find_owned_practice_session(&self, practice_session_id: i32, user_id: i32) -> (result:
        Result<i32, StorageError>)
        ensures
            match result {
                Ok(found) => found == practice_session_id && self@.owns(
                    user_id,
                    practice_session_id,
                ),
                Err(error) => error == StorageError::NotFound && !self@.owns(
                    user_id,
                    practice_session_id,
                ),
            },
    {
        if has_owned_session(&self.tables.practice_sessions, user_id, practice_session_id) {
            Ok(practice_session_id)
        } else {
            Err(StorageError::NotFound)
        }
    }

    /// Removes the practice session with this id if it is this user's, and
    /// returns how many rows went. A practice session to which a link refers
    /// cannot go.
    pub fn delete_practice_session(&mut self, user_id: i32, practice_session_id: i32) -> (result:
        Result<usize, StorageError>)
        ensures
            final(self).wf(),
            match result {
                Ok(count) => {
                    &&& !(old(self)@.owns(user_id, practice_session_id) && old(
                        self,
                    )@.session_in_use(practice_session_id))
                    &&& final(self)@ == old(self)@.without_practice_session(
                        user_id,
                        practice_session_id,
                    )
                    &&& count == old(self)@.practice_sessions.filter(
                        session_owned_by(practice_session_id, user_id),
                    ).len()
                    &&& count == if old(self)@.owns(user_id, practice_session_id) {
                        1usize
                    } else {
                        0usize
                    }
                },
                Err(error) => {
                    &&& old(self)@.owns(user_id, practice_session_id)
                    &&& old(self)@.session_in_use(practice_session_id)
                    &&& final(self)@ == old(self)@
                    &&& error == StorageError::ForeignKeyViolation
                },
            },
    {
        proof {
            use_type_invariant(&*self);
        }
        if has_owned_session(&self.tables.practice_sessions, user_id, practice_session_id)
            && has_link_to_session(&self.tables.pieces_practiced, practice_session_id) {
            return Err(StorageError::ForeignKeyViolation);
        }
        let kept = sessions_except(&self.tables.practice_sessions, user_id, practice_session_id);
        proof {
            lemma_select_partition(
                self@.practice_sessions,
                session_owned_by(practice_session_id, user_id),
            );
            lemma_without_practice_session_wf(self@, user_id, practice_session_id);
            lemma_one_session_per_id(self@, user_id, practice_session_id);
        }
        let count = self.tables.practice_sessions.len() - kept.len();
        self.tables.practice_sessions = kept;
        Ok(count)
    }

    /// Stores a link. A link that is there already is a uniqueness
    /// violation; a practice session or a piece that does not exist is a
    /// broken reference.
    pub fn insert_piece_practiced(&mut self, link: PiecePracticedMapping) -> (result: Result<
        usize,
        StorageError,
    >)
        ensures
            final(self).wf(),
            match result {
                Ok(count) => {
                    &&& count == 1
                    &&& old(self)@.accepts_link(link)
                    &&& final(self)@ == old(self)@.with_link(link)
                    &&& final(self)@.has_link(link)
                },
                Err(error) => {
                    &&& final(self)@ == old(self)@
                    &&& !old(self)@.accepts_link(link)
                    &&& if old(self)@.has_link(link) {
                        error == StorageError::UniqueViolation
                    } else {
                        error == StorageError::ForeignKeyViolation
                    }
                },
            },
    {
        proof {
            use_type_invariant(&*self);
        }
        if has_link(&self.tables.pieces_practiced, link) {
            return Err(StorageError::UniqueViolation);
        }
        if !has_practice_session(&self.tables.practice_sessions, link.practice_session_id) {
            return Err(StorageError::ForeignKeyViolation);
        }
        if !has_piece(&self.tables.pieces, link.piece_id) {
            return Err(StorageError::ForeignKeyViolation);
        }
        proof {
            lemma_with_link_wf(self@, link);
        }
        let mut tables = Tables::new();
        core::mem::swap(&mut self.tables, &mut tables);
        tables.pieces_practiced.push(link);
        self.tables = tables;
        Ok(1)
    }

    /// Removes links of a practice session and returns how many went: all of
    /// them where `piece_id` is `None`, else the one to that piece.
    pub fn delete_pieces_practiced(
        &mut self,
        practice_session_id: i32,
        piece_id: Option<i32>,
    ) -> (count: usize)
        ensures
            final(self).wf(),
            final(self)@ == old(self)@.without_links(links_gone(practice_session_id, piece_id)),
            count == old(self)@.pieces_practiced.filter(
                links_gone(practice_session_id, piece_id),
            ).len(),
    {
        proof {
            use_type_invariant(&*self);
        }
        let kept = links_except(&self.tables.pieces_practiced, practice_session_id, piece_id);
        proof {
            lemma_select_partition(
                self@.pieces_practiced,
                links_gone(practice_session_id, piece_id),
            );
            lemma_without_links_wf(self@, links_gone(practice_session_id, piece_id));
        }
        let count = self.tables.pieces_practiced.len() - kept.len();
        self.tables.pieces_practiced = kept;
        count
    }

    /// All links, in the order in which they were stored.
    pub fn select_pieces_practiced(&self) -> (links: Vec<PiecePracticedMapping>)
        ensures
            links@ == self@.pieces_practiced,
    {
        let mut links: Vec<PiecePracticedMapping> = Vec::new();
        let mut i: usize = 0;
        while i < self.tables.pieces_practiced.len()
            invariant
                i <= self.tables.pieces_practiced.len(),
                links@ == self.tables.pieces_practiced@.take(i as int),
            decreases self.tables.pieces_practiced.len() - i,
        {
            proof {
                let all = self.tables.pieces_practiced@;
                assert(all.take(i + 1) =~= all.take(i as int).push(all[i as int]));
            }
            links.push(self.tables.pieces_practiced[i]);
            i += 1;
        }
        proof {
            assert(self.tables.pieces_practiced@.take(i as int) =~= self.tables.pieces_practiced@);
        }
        links
    }

    /// The pieces that the filter admits, in the order in which they were
    /// stored.
    pub fn select_pieces(&self, filter: &GetPiecesQueryParams) -> (pieces: Vec<Piece>)
        ensures
            rows(pieces@) == self@.pieces.filter(filter.predicate()),
    {
        let ghost all = rows(self.tables.pieces@);
        let ghost pred = filter.predicate();
        let mut pieces: Vec<Piece> = Vec::new();
        let mut i: usize = 0;
        proof {
            lemma_select_empty(pred);
            assert(all.take(0) =~= Seq::empty());
            assert(rows(pieces@) =~= Seq::empty());
        }
        while i < self.tables.pieces.len()
            invariant
                i <= self.tables.pieces.len(),
                all == rows(self.tables.pieces@),
                pred == filter.predicate(),
                rows(pieces@) == all.take(i as int).filter(pred),
            decreases self.tables.pieces.len() - i,
        {
            proof {
                lemma_select_step(all, i as int, pred);
            }
            if filter.matches(&self.tables.pieces[i]) {
                let copy = self.tables.pieces[i].clone();
                proof {
                    lemma_rows_push(pieces@, copy);
                }
                pieces.push(copy);
            }
            i += 1;
        }
        proof {
            assert(all.take(i as int) =~= all);
        }
        pieces
    }

    /// The practice sessions that the filter admits, in the order in which
    /// they were stored.
    pub fn select_practice_sessions(&self, filter: &PracticeSessionFilter) -> (sessions: Vec<
        PracticeSession,
    >)
        ensures
            rows(sessions@) == self@.practice_sessions.filter(filter.predicate()),
    {
        let ghost all = rows(self.tables.practice_sessions@);
        let ghost pred = filter.predicate();
        let mut sessions: Vec<PracticeSession> = Vec::new();
        let mut i: usize = 0;
        proof {
            lemma_select_empty(pred);
            assert(all.take(0) =~= Seq::empty());
            assert(rows(sessions@) =~= Seq::empty());
        }
        while i < self.tables.practice_sessions.len()
            invariant
                i <= self.tables.practice_sessions.len(),
                all == rows(self.tables.practice_sessions@),
                pred == filter.predicate(),
                rows(sessions@) == all.take(i as int).filter(pred),
            decreases self.tables.practice_sessions.len() - i,
        {
            proof {
                lemma_select_step(all, i as int, pred);
            }
            if filter.matches(&self.tables.practice_sessions[i]) {
                let copy = self.tables.practice_sessions[i].clone();
                proof {
                    lemma_rows_push(sessions@, copy);
                }
                sessions.push(copy);
            }
            i += 1;
        }
        proof {
            assert(all.take(i as int) =~= all);
        }
        sessions
    }

    /// The pieces practiced in a practice session, in the order of its links.
    pub fn pieces_practiced_in(&self, practice_session_id: i32) -> (pieces: Vec<Piece>)
        ensures
            rows(pieces@) == self@.practiced_pieces(practice_session_id),
    {
        proof {
            use_type_invariant(&*self);
        }
        let ghost links = self.tables.pieces_practiced@;
        let ghost pred = link_of_session(practice_session_id);
        let mut pieces: Vec<Piece> = Vec::new();
        let mut i: usize = 0;
        proof {
            lemma_select_empty(pred);
            assert(links.take(0) =~= Seq::empty());
            assert(rows(pieces@) =~= self@.pieces_of_links(Seq::empty()));
        }
        while i < self.tables.pieces_practiced.len()
            invariant
                i <= self.tables.pieces_practiced.len(),
                self.wf(),
                links == self.tables.pieces_practiced@,
                pred == link_of_session(practice_session_id),
                rows(pieces@) == self@.pieces_of_links(links.take(i as int).filter(pred)),
            decreases self.tables.pieces_practiced.len() - i,
        {
            proof {
                lemma_select_step(links, i as int, pred);
            }
            let link = self.tables.pieces_practiced[i];
            if link.practice_session_id == practice_session_id {
                match find_piece(&self.tables.pieces, link.piece_id) {
                    Some(piece) => {
                        proof {
                            lemma_piece_by_id(self@, piece@);
                            lemma_rows_push(pieces@, piece);
                            assert(self@.pieces_of_links(
                                links.take(i as int).filter(pred).push(link),
                            ) =~= self@.pieces_of_links(links.take(i as int).filter(pred)).push(
                                piece@,
                            ));
                        }
                        pieces.push(piece);
                    },
                    None => {
                        proof {
                            assert(lists_piece(self@.pieces, links[i as int].piece_id));
                            assert(false);
                        }
                    },
                }
            }
            i += 1;
        }
        proof {
            assert(links.take(i as int) =~= links);
        }
        pieces
    }
}

/// Under the rules at most one user has a given id.
pub proof fn lemma_one_user_per_id(state: StoreState, user_id: i32)
    requires
        state.wf(),
    ensures
        state.users.filter(user_is(user_id)).len() == if state.has_user(user_id) {
            1nat
        } else {
            0nat
        },
{
    lemma_count_of_key(state.users, user_is(user_id), |user: UserRow| user.user_id);
    if !state.has_user(user_id) {
        lemma_select_none(state.users, user_is(user_id));
    }
}

/// Under the rules at most one piece has a given id.
pub proof fn lemma_one_piece_per_id(state: StoreState, piece_id: i32)
    requires
        state.wf(),
    ensures
        state.pieces.filter(piece_is(piece_id)).len() == if state.has_piece(piece_id) {
            1nat
        } else {
            0nat
        },
{
    lemma_count_of_key(
        state.pieces,
        piece_is(piece_id),
        |piece: PieceRow| piece.piece_id,
    );
    if !state.has_piece(piece_id) {
        lemma_select_none(state.pieces, piece_is(piece_id));
    }
}

/// Under the rules at most one practice session has a given id, whoever owns it.
pub proof fn lemma_one_session_per_id(state: StoreState, user_id: i32, practice_session_id: i32)
    requires
        state.wf(),
    ensures
        state.practice_sessions.filter(session_owned_by(practice_session_id, user_id)).len()
            == if state.owns(user_id, practice_session_id) {
            1nat
        } else {
            0nat
        },
{
    lemma_count_of_key(
        state.practice_sessions,
        session_owned_by(practice_session_id, user_id),
        |session: PracticeSessionRow| session.practice_session_id,
    );
    if !state.owns(user_id, practice_session_id) {
        lemma_select_none(state.practice_sessions, session_owned_by(practice_session_id, user_id));
    }
}

} // verus!
