//! What holds of the operations taken together, proved from their contracts.

use crate::cascade::{session_creation, session_deletion, CascadeDeletion};
use crate::error::{
    conflict_text, failure, not_found_text, reference_text, AppError, Entity, ErrorKind, Failure,
};
use crate::guard::{lemma_one_owner, ownership_verdict};
use crate::identity::{login_refusal, registration_refusal};
use crate::models::{NewPracticeSessionData, PiecePracticedMapping, PracticeSession, Timestamp};
use crate::password::argon2_verdict;
use crate::rules::{lemma_user_by_name, lemma_with_user_wf, lemma_without_links_wf};
use crate::selection::{lemma_select_partition, negate};
use crate::service::{linking_refusal, piece_refusal};
use crate::sessions::{
    lemma_renewed, lemma_resolves_one_user, lemma_with_binding, SessionState, SessionToken,
};
use crate::state::{link_of_session, session_owned_by, StoreState};
use crate::store::lemma_one_session_per_id;
use vstd::prelude::*;

verus! {

/// After a registration that went through, a login with the same name and
/// password goes through too, whatever token the request carries, and its
/// token resolves to the id that the registration gave. The registration is
/// told by what it leaves: a user row with a digest that passes for the
/// password.
pub proof fn lemma_login_follows_registration(
    store: StoreState,
    sessions: SessionState,
    token: Option<SessionToken>,
    user_name: Seq<char>,
    password: Seq<char>,
    digest: Seq<char>,
    secret: [u8; 16],
)
    requires
        store.wf(),
        sessions.wf(),
        registration_refusal(store, user_name) is None,
        argon2_verdict(digest, password) == Some(true),
    ensures
        ({
            let registered = store.with_user(user_name, digest);
            let user_id = store.next_user_id as i32;
            let minted = sessions.renewed(token).minted(secret);
            let logged_in = sessions.regenerated(token, secret, user_id);
            &&& login_refusal(registered, user_name, password) is None
            &&& registered.user_named(user_name).user_id == user_id
            &&& logged_in.resolves(minted, user_id)
            &&& logged_in.user_behind(Some(minted)) == Some(user_id)
        }),
{
    let registered = store.with_user(user_name, digest);
    let row = store.new_user(user_name, digest);
    let user_id = store.next_user_id as i32;
    lemma_with_user_wf(store, user_name, digest);
    assert(registered.users[store.users.len() as int] == row);
    lemma_user_by_name(registered, row);
    let renewed = sessions.renewed(token);
    lemma_renewed(sessions, token, secret);
    lemma_with_binding(renewed, secret, user_id);
    let minted = renewed.minted(secret);
    let logged_in = renewed.with_binding(secret, user_id);
    assert(logged_in.authenticates(Some(minted), user_id));
    let chosen = choose|chosen: i32| logged_in.authenticates(Some(minted), chosen);
    lemma_resolves_one_user(logged_in, minted, user_id, chosen);
}

/// A login invalidates the token that its request carried: once a session
/// is regenerated, that token stands for no one, the fresh token differs
/// from it and stands for the user.
pub proof fn lemma_login_ends_the_old_session(
    sessions: SessionState,
    carried: SessionToken,
    secret: [u8; 16],
    user_id: i32,
)
    requires
        sessions.wf(),
    ensures
        ({
            let minted = sessions.renewed(Some(carried)).minted(secret);
            let logged_in = sessions.regenerated(Some(carried), secret, user_id);
            &&& minted != carried
            &&& logged_in.user_behind(Some(carried)) is None
            &&& logged_in.user_behind(Some(minted)) == Some(user_id)
        }),
{
    let renewed = sessions.renewed(Some(carried));
    lemma_renewed(sessions, Some(carried), secret);
    lemma_with_binding(renewed, secret, user_id);
    let minted = renewed.minted(secret);
    let logged_in = renewed.with_binding(secret, user_id);
    assert(logged_in.authenticates(Some(minted), user_id));
    let chosen = choose|chosen: i32| logged_in.authenticates(Some(minted), chosen);
    lemma_resolves_one_user(logged_in, minted, user_id, chosen);
}

/// A login with a name that no user has fails in the way in which a login
/// with a wrong password does: the failure does not tell whether the name
/// is known.
pub proof fn lemma_login_tells_nothing(
    store: StoreState,
    unknown_name: Seq<char>,
    known_name: Seq<char>,
    password: Seq<char>,
    wrong_password: Seq<char>,
)
    requires
        !store.has_user_named(unknown_name),
        store.has_user_named(known_name),
        argon2_verdict(store.user_named(known_name).password_hash, wrong_password) == Some(
            false,
        ),
    ensures
        login_refusal(store, unknown_name, password) == login_refusal(
            store,
            known_name,
            wrong_password,
        ),
{
}

/// The ownership guard does not find the practice session of another
/// user.
pub proof fn lemma_guard_hides_foreign_sessions(
    state: StoreState,
    practice_session_id: i32,
    owner: i32,
    other: i32,
)
    requires
        state.wf(),
        state.owns(owner, practice_session_id),
        other != owner,
    ensures
        ownership_verdict(state, practice_session_id, other) == Err::<i32, Failure>(
            failure(ErrorKind::NotFound, not_found_text(Entity::PracticeSession)),
        ),
{
    lemma_one_owner(state, practice_session_id, owner, other);
}

/// Whoever does not own a practice session gets the answer that is given
/// for one that does not exist: the guard does not tell the two apart.
pub proof fn lemma_guard_tells_nothing(
    state: StoreState,
    user_id: i32,
    foreign: i32,
    missing: i32,
)
    requires
        !state.owns(user_id, foreign),
        !state.has_practice_session(missing),
    ensures
        ownership_verdict(state, foreign, user_id) == ownership_verdict(state, missing, user_id),
{
}

/// Once a user has a practice session that starts at some instant, creating
/// a second one with the same start is a conflict and changes nothing,
/// whatever else the second one says. The second is one whose duration fits
/// the column.
pub proof fn lemma_same_start_conflicts(
    state: StoreState,
    user_id: i32,
    start_datetime: Timestamp,
    duration_mins: i32,
    instrument: Seq<char>,
    second: &NewPracticeSessionData,
    after: StoreState,
    result: Result<(PracticeSession, Vec<PiecePracticedMapping>), AppError>,
)
    requires
        state.wf(),
        state.accepts_practice_session(start_datetime, duration_mins, user_id),
        second.start_datetime == start_datetime,
        second.duration_mins <= i32::MAX,
        session_creation(
            state.with_practice_session(start_datetime, duration_mins, instrument, user_id),
            after,
            user_id,
            second,
            result,
        ),
    ensures
        result is Err,
        result->Err_0@ == failure(ErrorKind::Conflict, conflict_text(Entity::PracticeSession)),
        after == state.with_practice_session(start_datetime, duration_mins, instrument, user_id),
{
    let first = state.with_practice_session(start_datetime, duration_mins, instrument, user_id);
    let row = state.new_practice_session(start_datetime, duration_mins, instrument, user_id);
    assert(first.practice_sessions[state.practice_sessions.len() as int] == row);
    assert(first.has_session_at(user_id, start_datetime));
}

/// A piece of a title and by a composer that the catalog holds already is
/// refused as a conflict.
pub proof fn lemma_existing_piece_conflicts(
    state: StoreState,
    title: Seq<char>,
    composer: Seq<char>,
)
    requires
        state.has_piece_titled(title, composer),
    ensures
        !state.accepts_piece(title, composer),
        piece_refusal(state, title, composer) == failure(
            ErrorKind::Conflict,
            conflict_text(Entity::Piece),
        ),
{
}

/// What the catalog holds is told letter for letter: once a piece is
/// stored, the catalog holds a piece of a given title by a given composer
/// exactly if it held one before or title and composer are those of the
/// stored piece, in every letter and in its case.
pub proof fn lemma_pieces_match_exactly(
    state: StoreState,
    title: Seq<char>,
    composer: Seq<char>,
    other_title: Seq<char>,
    other_composer: Seq<char>,
)
    ensures
        state.with_piece(title, composer).has_piece_titled(other_title, other_composer) <==> (
        state.has_piece_titled(other_title, other_composer) || (other_title == title
            && other_composer == composer)),
{
    let after = state.with_piece(title, composer);
    let row = state.new_piece(title, composer);
    assert(after.pieces[state.pieces.len() as int] == row);
    if state.has_piece_titled(other_title, other_composer) {
        let i = choose|i: int|
            0 <= i < state.pieces.len() && (#[trigger] state.pieces[i]).title == other_title
                && state.pieces[i].composer == other_composer;
        assert(after.pieces[i] == state.pieces[i]);
    }
    if after.has_piece_titled(other_title, other_composer) {
        let i = choose|i: int|
            0 <= i < after.pieces.len() && (#[trigger] after.pieces[i]).title == other_title
                && after.pieces[i].composer == other_composer;
        if i < state.pieces.len() {
            assert(state.pieces[i] == after.pieces[i]);
        }
    }
}

/// Deleting a practice session of its owner removes the practice session
/// and its links, as many as it had, and no other row. Deleting one that does
/// not exist or is someone else's is not found and removes nothing.
pub proof fn lemma_cascade_removes_exactly(
    before: StoreState,
    after: StoreState,
    owner_id: i32,
    practice_session_id: i32,
    result: Result<CascadeDeletion, AppError>,
)
    requires
        before.wf(),
        session_deletion(before, after, owner_id, practice_session_id, result),
    ensures
        before.owns(owner_id, practice_session_id) ==> {
            &&& result == Ok::<CascadeDeletion, AppError>(
                CascadeDeletion {
                    deleted_session_count: 1,
                    deleted_link_count: before.link_count(practice_session_id) as usize,
                },
            )
            &&& after.pieces_practiced.len() == before.pieces_practiced.len() - before.link_count(
                practice_session_id,
            )
            &&& after.pieces_practiced == before.pieces_practiced.filter(
                negate(link_of_session(practice_session_id)),
            )
            &&& after.practice_sessions.len() == before.practice_sessions.len() - 1
            &&& after.practice_sessions == before.practice_sessions.filter(
                negate(session_owned_by(practice_session_id, owner_id)),
            )
            &&& after.users == before.users
            &&& after.pieces == before.pieces
        },
        !before.owns(owner_id, practice_session_id) ==> {
            &&& result is Err
            &&& result->Err_0@ == failure(
                ErrorKind::NotFound,
                not_found_text(Entity::PracticeSession),
            )
            &&& after == before
        },
{
    if before.owns(owner_id, practice_session_id) {
        let unlinked = before.without_links(link_of_session(practice_session_id));
        lemma_select_partition(before.pieces_practiced, link_of_session(practice_session_id));
        lemma_without_links_wf(before, link_of_session(practice_session_id));
        lemma_select_partition(
            unlinked.practice_sessions,
            session_owned_by(practice_session_id, owner_id),
        );
        lemma_one_session_per_id(unlinked, owner_id, practice_session_id);
    }
}

/// A link to a piece that does not exist is refused as a client error that
/// names the piece, for a user who owns the practice session of the link;
/// and what is refused leaves the store as it was.
pub proof fn lemma_link_needs_piece(state: StoreState, user_id: i32, link: PiecePracticedMapping)
    requires
        state.wf(),
        state.owns(user_id, link.practice_session_id),
        !state.has_piece(link.piece_id),
    ensures
        linking_refusal(state, Some(user_id), link) == Some(
            failure(ErrorKind::ClientError, reference_text(Entity::PiecePracticed)),
        ),
        reference_text(Entity::PiecePracticed) == "Piece not found"@,
{
    if state.has_link(link) {
        let i = choose|i: int|
            0 <= i < state.pieces_practiced.len() && state.pieces_practiced[i] == link;
        assert(state.has_piece(state.pieces_practiced[i].piece_id));
    }
}

} // verus!
