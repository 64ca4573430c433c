//! Proofs that every change of the store keeps the rules of the data model.

use crate::models::{PiecePracticedMapping, PieceRow, PracticeSessionRow, Timestamp, UserRow};
use crate::selection::{
    lemma_count_of_key, lemma_member_is_selected, lemma_select_keeps_keys_distinct,
    lemma_select_none, lemma_selected_is_member, negate,
};
use crate::state::{
    link_is, lists_piece, lists_practice_session, lists_user, piece_is, session_owned_by, user_is,
    StoreState,
};
use vstd::prelude::*;

verus! {

/// A user that is listed stays listed when one more user is stored.
proof fn lemma_user_stays(users: Seq<UserRow>, added: UserRow, user_id: i32)
    requires
        lists_user(users, user_id),
    ensures
        lists_user(users.push(added), user_id),
{
    let k = choose|k: int| 0 <= k < users.len() && (#[trigger] users[k]).user_id == user_id;
    assert(users.push(added)[k].user_id == user_id);
}

/// A piece that is listed stays listed when one more piece is stored.
proof fn lemma_piece_stays(pieces: Seq<PieceRow>, added: PieceRow, piece_id: i32)
    requires
        lists_piece(pieces, piece_id),
    ensures
        lists_piece(pieces.push(added), piece_id),
{
    let k = choose|k: int| 0 <= k < pieces.len() && (#[trigger] pieces[k]).piece_id == piece_id;
    assert(pieces.push(added)[k].piece_id == piece_id);
}

/// A practice session that is listed stays listed when one more is stored.
proof fn lemma_practice_session_stays(
    sessions: Seq<PracticeSessionRow>,
    added: PracticeSessionRow,
    practice_session_id: i32,
)
    requires
        lists_practice_session(sessions, practice_session_id),
    ensures
        lists_practice_session(sessions.push(added), practice_session_id),
{
    let k = choose|k: int|
        0 <= k < sessions.len() && (#[trigger] sessions[k]).practice_session_id
            == practice_session_id;
    assert(sessions.push(added)[k].practice_session_id == practice_session_id);
}

/// Storing a user that the store accepts keeps the rules.
pub proof fn lemma_with_user_wf(state: StoreState, user_name: Seq<char>, password_hash: Seq<char>)
    requires
        state.wf(),
        state.accepts_user(user_name),
    ensures
        state.with_user(user_name, password_hash).wf(),
        state.with_user(user_name, password_hash).has_user(state.next_user_id as i32),
        state.with_user(user_name, password_hash).has_user_named(user_name),
{
    let after = state.with_user(user_name, password_hash);
    let added = state.new_user(user_name, password_hash);
    assert(after.users[state.users.len() as int] == added);
    assert forall|i: int| 0 <= i < after.practice_sessions.len() implies lists_user(
        after.users,
        (#[trigger] after.practice_sessions[i]).user_id,
    ) by {
        lemma_user_stays(state.users, added, state.practice_sessions[i].user_id);
    }
    assert forall|i: int, j: int| 0 <= i < j < after.users.len() implies (
    #[trigger] after.users[i]).user_name != (#[trigger] after.users[j]).user_name by {
        if j == state.users.len() {
            assert(after.users[i] == state.users[i]);
        }
    }
}

/// Storing a piece that the store accepts keeps the rules.
pub proof fn lemma_with_piece_wf(state: StoreState, title: Seq<char>, composer: Seq<char>)
    requires
        state.wf(),
        state.accepts_piece(title, composer),
    ensures
        state.with_piece(title, composer).wf(),
        state.with_piece(title, composer).has_piece(state.next_piece_id as i32),
        state.with_piece(title, composer).has_piece_titled(title, composer),
{
    let after = state.with_piece(title, composer);
    let added = state.new_piece(title, composer);
    assert(after.pieces[state.pieces.len() as int] == added);
    assert forall|i: int| 0 <= i < after.pieces_practiced.len() implies lists_piece(
        after.pieces,
        (#[trigger] after.pieces_practiced[i]).piece_id,
    ) by {
        lemma_piece_stays(state.pieces, added, state.pieces_practiced[i].piece_id);
    }
    assert forall|i: int, j: int| 0 <= i < j < after.pieces.len() implies !((
    #[trigger] after.pieces[i]).title == (#[trigger] after.pieces[j]).title
        && after.pieces[i].composer == after.pieces[j].composer) by {
        if j == state.pieces.len() {
            assert(after.pieces[i] == state.pieces[i]);
        }
    }
}

/// Storing a practice session that the store accepts keeps the rules.
pub proof fn lemma_with_practice_session_wf(
    state: StoreState,
    start_datetime: Timestamp,
    duration_mins: i32,
    instrument: Seq<char>,
    user_id: i32,
)
    requires
        state.wf(),
        state.accepts_practice_session(start_datetime, duration_mins, user_id),
    ensures
        state.with_practice_session(start_datetime, duration_mins, instrument, user_id).wf(),
        state.with_practice_session(start_datetime, duration_mins, instrument, user_id).owns(
            user_id,
            state.next_practice_session_id as i32,
        ),
        state.with_practice_session(
            start_datetime,
            duration_mins,
            instrument,
            user_id,
        ).has_practice_session(state.next_practice_session_id as i32),
        state.with_practice_session(
            start_datetime,
            duration_mins,
            instrument,
            user_id,
        ).has_session_at(user_id, start_datetime),
{
    let after = state.with_practice_session(start_datetime, duration_mins, instrument, user_id);
    let added = state.new_practice_session(start_datetime, duration_mins, instrument, user_id);
    assert(after.practice_sessions[state.practice_sessions.len() as int] == added);
    assert forall|i: int|
        0 <= i < after.pieces_practiced.len() implies lists_practice_session(
        after.practice_sessions,
        (#[trigger] after.pieces_practiced[i]).practice_session_id,
    ) by {
        lemma_practice_session_stays(
            state.practice_sessions,
            added,
            state.pieces_practiced[i].practice_session_id,
        );
    }
    assert forall|i: int, j: int| 0 <= i < j < after.practice_sessions.len() implies !((
    #[trigger] after.practice_sessions[i]).user_id == (
    #[trigger] after.practice_sessions[j]).user_id && after.practice_sessions[i].start_datetime
        == after.practice_sessions[j].start_datetime) by {
        if j == state.practice_sessions.len() {
            assert(after.practice_sessions[i] == state.practice_sessions[i]);
        }
    }
}

/// Storing a link that the store accepts keeps the rules.
pub proof fn lemma_with_link_wf(state: StoreState, link: PiecePracticedMapping)
    requires
        state.wf(),
        state.accepts_link(link),
    ensures
        state.with_link(link).wf(),
        state.with_link(link).has_link(link),
{
    let after = state.with_link(link);
    assert(after.pieces_practiced[state.pieces_practiced.len() as int] == link);
    assert forall|i: int, j: int| 0 <= i < j < after.pieces_practiced.len() implies (
    #[trigger] after.pieces_practiced[i]) != (#[trigger] after.pieces_practiced[j]) by {
        if j == state.pieces_practiced.len() {
            assert(after.pieces_practiced[i] == state.pieces_practiced[i]);
        }
    }
}

/// Removing links, whichever they are, keeps the rules.
pub proof fn lemma_without_links_wf(
    state: StoreState,
    gone: spec_fn(PiecePracticedMapping) -> bool,
)
    requires
        state.wf(),
    ensures
        state.without_links(gone).wf(),
{
    let after = state.without_links(gone);
    let keep = negate(gone);
    let before = state.pieces_practiced;
    lemma_select_keeps_keys_distinct(before, keep, |link: PiecePracticedMapping| link);
    assert forall|i: int| 0 <= i < after.pieces_practiced.len() implies lists_practice_session(
        after.practice_sessions,
        (#[trigger] after.pieces_practiced[i]).practice_session_id,
    ) && lists_piece(after.pieces, after.pieces_practiced[i].piece_id) by {
        lemma_selected_is_member(before, keep, i);
        let k = choose|k: int| 0 <= k < before.len() && before[k] == after.pieces_practiced[i];
        assert(lists_piece(state.pieces, before[k].piece_id));
    }
}

/// Removing a practice session to which no link refers keeps the rules.
pub proof fn lemma_without_practice_session_wf(
    state: StoreState,
    user_id: i32,
    practice_session_id: i32,
)
    requires
        state.wf(),
        !(state.owns(user_id, practice_session_id) && state.session_in_use(practice_session_id)),
    ensures
        state.without_practice_session(user_id, practice_session_id).wf(),
{
    let after = state.without_practice_session(user_id, practice_session_id);
    let keep = negate(session_owned_by(practice_session_id, user_id));
    let before = state.practice_sessions;
    lemma_select_keeps_keys_distinct(
        before,
        keep,
        |session: PracticeSessionRow| session.practice_session_id,
    );
    lemma_select_keeps_keys_distinct(
        before,
        keep,
        |session: PracticeSessionRow| (session.user_id, session.start_datetime),
    );
    assert forall|i: int| 0 <= i < after.practice_sessions.len() implies {
        &&& 0 < (#[trigger] after.practice_sessions[i]).practice_session_id
            < after.next_practice_session_id
        &&& after.practice_sessions[i].duration_mins >= 0
        &&& lists_user(after.users, after.practice_sessions[i].user_id)
    } by {
        lemma_selected_is_member(before, keep, i);
        let k = choose|k: int| 0 <= k < before.len() && before[k] == after.practice_sessions[i];
        assert(lists_user(state.users, before[k].user_id));
    }
    assert forall|i: int|
        0 <= i < after.pieces_practiced.len() implies lists_practice_session(
        after.practice_sessions,
        (#[trigger] after.pieces_practiced[i]).practice_session_id,
    ) by {
        let id = state.pieces_practiced[i].practice_session_id;
        assert(lists_practice_session(before, id));
        let k = choose|k: int| 0 <= k < before.len() && (#[trigger] before[k]).practice_session_id
            == id;
        assert(state.session_in_use(id));
        assert(keep(before[k]));
        lemma_member_is_selected(before, keep, k);
        let m = choose|m: int|
            0 <= m < after.practice_sessions.len() && after.practice_sessions[m] == before[k];
        assert(after.practice_sessions[m].practice_session_id == id);
    }
}

/// Removing a piece to which no link refers keeps the rules.
pub proof fn lemma_without_piece_wf(state: StoreState, piece_id: i32)
    requires
        state.wf(),
        !state.piece_in_use(piece_id),
    ensures
        state.without_piece(piece_id).wf(),
{
    let after = state.without_piece(piece_id);
    let keep = negate(piece_is(piece_id));
    let before = state.pieces;
    lemma_select_keeps_keys_distinct(before, keep, |piece: PieceRow| piece.piece_id);
    lemma_select_keeps_keys_distinct(before, keep, |piece: PieceRow| (piece.title, piece.composer));
    assert forall|i: int| 0 <= i < after.pieces.len() implies 0 < (
    #[trigger] after.pieces[i]).piece_id < after.next_piece_id by {
        lemma_selected_is_member(before, keep, i);
        let k = choose|k: int| 0 <= k < before.len() && before[k] == after.pieces[i];
        assert(0 < before[k].piece_id);
    }
    assert forall|i: int| 0 <= i < after.pieces_practiced.len() implies lists_piece(
        after.pieces,
        (#[trigger] after.pieces_practiced[i]).piece_id,
    ) by {
        let id = state.pieces_practiced[i].piece_id;
        assert(lists_piece(before, id));
        let k = choose|k: int| 0 <= k < before.len() && (#[trigger] before[k]).piece_id == id;
        assert(state.piece_in_use(id));
        assert(keep(before[k]));
        lemma_member_is_selected(before, keep, k);
        let m = choose|m: int| 0 <= m < after.pieces.len() && after.pieces[m] == before[k];
        assert(after.pieces[m].piece_id == id);
    }
}

/// Removing a user to whom no practice session refers keeps the rules.
pub proof fn lemma_without_user_wf(state: StoreState, user_id: i32)
    requires
        state.wf(),
        !state.user_in_use(user_id),
    ensures
        state.without_user(user_id).wf(),
{
    let after = state.without_user(user_id);
    let keep = negate(user_is(user_id));
    let before = state.users;
    lemma_select_keeps_keys_distinct(before, keep, |user: UserRow| user.user_id);
    lemma_select_keeps_keys_distinct(before, keep, |user: UserRow| user.user_name);
    assert forall|i: int| 0 <= i < after.users.len() implies 0 < (
    #[trigger] after.users[i]).user_id < after.next_user_id by {
        lemma_selected_is_member(before, keep, i);
        let k = choose|k: int| 0 <= k < before.len() && before[k] == after.users[i];
        assert(0 < before[k].user_id);
    }
    assert forall|i: int| 0 <= i < after.practice_sessions.len() implies lists_user(
        after.users,
        (#[trigger] after.practice_sessions[i]).user_id,
    ) by {
        let id = state.practice_sessions[i].user_id;
        assert(lists_user(before, id));
        let k = choose|k: int| 0 <= k < before.len() && (#[trigger] before[k]).user_id == id;
        assert(state.user_in_use(id));
        assert(keep(before[k]));
        lemma_member_is_selected(before, keep, k);
        let m = choose|m: int| 0 <= m < after.users.len() && after.users[m] == before[k];
        assert(after.users[m].user_id == id);
    }
}

/// Under the rules a link is stored at most once.
pub proof fn lemma_one_link_per_pair(state: StoreState, practice_session_id: i32, piece_id: i32)
    requires
        state.wf(),
    ensures
        state.pieces_practiced.filter(link_is(practice_session_id, piece_id)).len()
            == if state.has_link(PiecePracticedMapping { practice_session_id, piece_id }) {
            1nat
        } else {
            0nat
        },
{
    let link = PiecePracticedMapping { practice_session_id, piece_id };
    let pred = link_is(practice_session_id, piece_id);
    lemma_count_of_key(state.pieces_practiced, pred, |link: PiecePracticedMapping| link);
    if !state.has_link(link) {
        assert forall|i: int| 0 <= i < state.pieces_practiced.len() implies !pred(
            #[trigger] state.pieces_practiced[i],
        ) by {
            if pred(state.pieces_practiced[i]) {
                assert(state.pieces_practiced[i] == link);
            }
        }
        lemma_select_none(state.pieces_practiced, pred);
    } else {
        let i = choose|i: int|
            0 <= i < state.pieces_practiced.len() && state.pieces_practiced[i] == link;
        assert(pred(state.pieces_practiced[i]));
    }
}

/// Under the rules a user is the only one with its name.
pub proof fn lemma_user_by_name(state: StoreState, row: UserRow)
    requires
        state.wf(),
        state.users.contains(row),
    ensures
        state.has_user_named(row.user_name),
        state.user_named(row.user_name) == row,
{
    let other = state.user_named(row.user_name);
    assert(state.users.contains(other) && other.user_name == row.user_name);
    let i = choose|i: int| 0 <= i < state.users.len() && state.users[i] == row;
    let j = choose|j: int| 0 <= j < state.users.len() && state.users[j] == other;
    if i < j {
        assert(state.users[i].user_name != state.users[j].user_name);
    } else if j < i {
        assert(state.users[j].user_name != state.users[i].user_name);
    }
}

/// Under the rules a piece of the catalog is the only one with its id.
pub proof fn lemma_piece_by_id(state: StoreState, row: PieceRow)
    requires
        state.wf(),
        state.pieces.contains(row),
    ensures
        state.piece(row.piece_id) == row,
{
    let other = state.piece(row.piece_id);
    assert(state.pieces.contains(other) && other.piece_id == row.piece_id);
    let i = choose|i: int| 0 <= i < state.pieces.len() && state.pieces[i] == row;
    let j = choose|j: int| 0 <= j < state.pieces.len() && state.pieces[j] == other;
    if i < j {
        assert(state.pieces[i].piece_id != state.pieces[j].piece_id);
    } else if j < i {
        assert(state.pieces[j].piece_id != state.pieces[i].piece_id);
    }
}

} // verus!
