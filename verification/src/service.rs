//! The operations that a client can ask for. Each one first resolves the
//! token of the request to the user it acts for, where it needs one, and then
//! goes through the ownership guard to the stores.

use crate::cascade::{
    create_session_with_links, delete_session_cascade, session_creation, session_deletion,
    CascadeDeletion,
};
use crate::error::{
    classify, classify_removal, conflict_text, failure, in_use_text, not_found_text, reports,
    require_user, AppError, Entity, ErrorKind, Failure,
};
use crate::filter::{
    filter_for, query_refusal, GetPiecesQueryParams, PracticeSessionFilter,
    PracticeSessionsQueryParams,
};
use crate::guard::{run_guarded, Guarded};
use crate::models::{
    lemma_rows_push, rows, InsertablePiece, NewPracticeSessionData, Piece,
    PiecePracticedMapping, PieceRow, PracticeSession, PracticeSessionWithPieces,
    SessionWithPiecesRow,
};
use crate::requests::link_refusal;
use crate::rules::lemma_one_link_per_pair;
use crate::sessions::{SessionStore, SessionToken};
use crate::state::{link_is, StoreState};
use crate::store::EntityStore;
use vstd::prelude::*;

verus! {

/// The failure of a request that needs a user and has none.
pub open spec fn unauthorized() -> Failure {
    failure(ErrorKind::Unauthorized, Seq::empty())
}

/// The failure of the ownership guard.
pub open spec fn session_not_found() -> Failure {
    failure(ErrorKind::NotFound, not_found_text(Entity::PracticeSession))
}

/// Why the store does not take a piece that it does not accept.
pub open spec fn piece_refusal(
    state: StoreState,
    title: Seq<char>,
    composer: Seq<char>,
) -> Failure {
    if state.has_piece_titled(title, composer) {
        failure(ErrorKind::Conflict, conflict_text(Entity::Piece))
    } else {
        failure(ErrorKind::BackendError, Seq::empty())
    }
}

fn acting_user(sessions: &SessionStore, token: Option<SessionToken>) -> (result: Result<
    i32,
    AppError,
>)
    ensures
        match result {
            Ok(user_id) => sessions@.user_behind(token) == Some(user_id),
            Err(error) => sessions@.user_behind(token) is None && error@ == unauthorized(),
        },
{
    proof {
        use_type_invariant(sessions);
    }
    require_user(sessions.current_user(token))
}

/// The pieces that the given pairs of link and piece list for a practice
/// session, in the order of the pairs.
pub open spec fn pieces_for(
    pairs: Seq<(PiecePracticedMapping, Piece)>,
    practice_session_id: i32,
) -> Seq<PieceRow>
    decreases pairs.len(),
{
    if pairs.len() == 0 {
        Seq::empty()
    } else if pairs.last().0.practice_session_id == practice_session_id {
        pieces_for(pairs.drop_last(), practice_session_id).push(pairs.last().1@)
    } else {
        pieces_for(pairs.drop_last(), practice_session_id)
    }
}

/// Each of the given practice sessions together with the pieces that the
/// pairs list for it.
pub open spec fn grouped(
    sessions: Seq<PracticeSession>,
    pairs: Seq<(PiecePracticedMapping, Piece)>,
) -> Seq<SessionWithPiecesRow> {
    Seq::new(
        sessions.len(),
        |k: int|
            SessionWithPiecesRow {
                session: sessions[k]@,
                pieces: pieces_for(pairs, sessions[k].practice_session_id),
            },
    )
}

fn pieces_of_session(
    pairs: &Vec<(PiecePracticedMapping, Piece)>,
    practice_session_id: i32,
) -> (pieces: Vec<Piece>)
    ensures
        rows(pieces@) == pieces_for(pairs@, practice_session_id),
{
    let mut pieces: Vec<Piece> = Vec::new();
    let mut i: usize = 0;
    proof {
        assert(pairs@.take(0) =~= Seq::empty());
        assert(rows(pieces@) =~= Seq::empty());
    }
    while i < pairs.len()
        invariant
            i <= pairs.len(),
            rows(pieces@) == pieces_for(pairs@.take(i as int), practice_session_id),
        decreases pairs.len() - i,
    {
        proof {
            assert(pairs@.take(i + 1).drop_last() =~= pairs@.take(i as int));
            assert(pairs@.take(i + 1).last() == pairs@[i as int]);
        }
        if pairs[i].0.practice_session_id == practice_session_id {
            let piece = pairs[i].1.clone();
            proof {
                lemma_rows_push(pieces@, piece);
            }
            pieces.push(piece);
        }
        i += 1;
    }
    proof {
        assert(pairs@.take(i as int) =~= pairs@);
    }
    pieces
}

/// Joins practice sessions with the pieces practiced in them, given the
/// links of these practice sessions, each paired with its piece.
pub fn group_by_session(
    sessions: &Vec<PracticeSession>,
    pairs: &Vec<(PiecePracticedMapping, Piece)>,
) -> (joined: Vec<PracticeSessionWithPieces>)
    ensures
        rows(joined@) == grouped(sessions@, pairs@),
{
    let mut joined: Vec<PracticeSessionWithPieces> = Vec::new();
    let mut i: usize = 0;
    proof {
        assert(rows(joined@) =~= grouped(sessions@.take(0), pairs@));
    }
    while i < sessions.len()
        invariant
            i <= sessions.len(),
            rows(joined@) == grouped(sessions@.take(i as int), pairs@),
        decreases sessions.len() - i,
    {
        let session = sessions[i].clone();
        let pieces = pieces_of_session(pairs, session.practice_session_id);
        let entry = PracticeSessionWithPieces::new(session, pieces);
        proof {
            lemma_rows_push(joined@, entry);
            assert(grouped(sessions@.take(i + 1), pairs@) =~= grouped(
                sessions@.take(i as int),
                pairs@,
            ).push(entry@));
        }
        joined.push(entry);
        i += 1;
    }
    proof {
        assert(sessions@.take(i as int) =~= sessions@);
    }
    joined
}

/// The practice sessions of the user behind the token that meet the
/// constraints, each with the pieces practiced in it.
pub fn get_practice_sessions(
    store: &EntityStore,
    sessions: &SessionStore,
    token: Option<SessionToken>,
    params: &PracticeSessionsQueryParams,
) -> (result: Result<Vec<PracticeSessionWithPieces>, AppError>)
    ensures
        match result {
            Ok(found) => {
                &&& sessions@.user_behind(token) matches Some(user_id)
                &&& query_refusal(params) is None
                &&& rows(found@) == store@.with_pieces(
                    store@.practice_sessions.filter(filter_for(user_id, params).predicate()),
                )
            },
            Err(error) => match sessions@.user_behind(token) {
                None => error@ == unauthorized(),
                Some(_) => query_refusal(params) == Some(error@),
            },
        },
{
    proof {
        use_type_invariant(store);
        use_type_invariant(sessions);
    }
    let current_user_id = match acting_user(sessions, token) {
        Ok(user_id) => user_id,
        Err(error) => {
            return Err(error);
        },
    };
    let filter = match PracticeSessionFilter::from_params(current_user_id, params) {
        Ok(filter) => filter,
        Err(error) => {
            return Err(error);
        },
    };
    let selected = store.select_practice_sessions(&filter);
    let ghost all = rows(selected@);
    let mut found: Vec<PracticeSessionWithPieces> = Vec::new();
    let mut i: usize = 0;
    proof {
        assert(rows(found@) =~= store@.with_pieces(all.take(0)));
    }
    while i < selected.len()
        invariant
            i <= selected.len(),
            store.wf(),
            all == rows(selected@),
            rows(found@) == store@.with_pieces(all.take(i as int)),
        decreases selected.len() - i,
    {
        let session = selected[i].clone();
        let pieces = store.pieces_practiced_in(session.practice_session_id);
        let joined = PracticeSessionWithPieces::new(session, pieces);
        proof {
            lemma_rows_push(found@, joined);
            assert(store@.with_pieces(all.take(i + 1)) =~= store@.with_pieces(
                all.take(i as int),
            ).push(joined@));
        }
        found.push(joined);
        i += 1;
    }
    proof {
        assert(all.take(i as int) =~= all);
    }
    Ok(found)
}

/// Stores a practice session of the user behind the token, with one link for
/// each of its pieces.
pub fn create_practice_session(
    store: &mut EntityStore,
    sessions: &SessionStore,
    token: Option<SessionToken>,
    data: &NewPracticeSessionData,
) -> (result: Result<(PracticeSession, Vec<PiecePracticedMapping>), AppError>)
    ensures
        final(store).wf(),
        match sessions@.user_behind(token) {
            Some(user_id) => session_creation(old(store)@, final(store)@, user_id, data, result),
            None => {
                &&& final(store)@ == old(store)@
                &&& result is Err
                &&& result->Err_0@ == unauthorized()
            },
        },
{
    proof {
        use_type_invariant(&*store);
        use_type_invariant(sessions);
    }
    let current_user_id = match acting_user(sessions, token) {
        Ok(user_id) => user_id,
        Err(error) => {
            return Err(error);
        },
    };
    create_session_with_links(store, current_user_id, data)
}

/// Deletes a practice session of the user behind the token, together with
/// its links.
pub fn delete_practice_session(
    store: &mut EntityStore,
    sessions: &SessionStore,
    token: Option<SessionToken>,
    practice_session_id: i32,
) -> (result: Result<CascadeDeletion, AppError>)
    ensures
        final(store).wf(),
        match sessions@.user_behind(token) {
            Some(user_id) => session_deletion(
                old(store)@,
                final(store)@,
                user_id,
                practice_session_id,
                result,
            ),
            None => {
                &&& final(store)@ == old(store)@
                &&& result is Err
                &&& result->Err_0@ == unauthorized()
            },
        },
{
    proof {
        use_type_invariant(&*store);
        use_type_invariant(sessions);
    }
    let current_user_id = match acting_user(sessions, token) {
        Ok(user_id) => user_id,
        Err(error) => {
            return Err(error);
        },
    };
    delete_session_cascade(store, current_user_id, practice_session_id)
}

/// The pieces of the catalog that meet the constraints. Anyone may read the
/// catalog.
pub fn get_pieces(store: &EntityStore, params: &GetPiecesQueryParams) -> (pieces: Vec<Piece>)
    ensures
        rows(pieces@) == store@.pieces.filter(params.predicate()),
{
    proof {
        use_type_invariant(store);
    }
    store.select_pieces(params)
}

/// Adds a piece to the catalog. Any user who is logged in may do so.
pub fn create_piece(
    store: &mut EntityStore,
    sessions: &SessionStore,
    token: Option<SessionToken>,
    new_piece: InsertablePiece,
) -> (result: Result<Piece, AppError>)
    ensures
        final(store).wf(),
        match result {
            Ok(piece) => {
                &&& sessions@.user_behind(token) is Some
                &&& old(store)@.accepts_piece(new_piece.title@, new_piece.composer@)
                &&& piece@ == old(store)@.new_piece(new_piece.title@, new_piece.composer@)
                &&& final(store)@ == old(store)@.with_piece(new_piece.title@, new_piece.composer@)
            },
            Err(error) => {
                &&& final(store)@ == old(store)@
                &&& if sessions@.user_behind(token) is None {
                    error@ == unauthorized()
                } else {
                    &&& !old(store)@.accepts_piece(new_piece.title@, new_piece.composer@)
                    &&& reports(
                        error@,
                        piece_refusal(old(store)@, new_piece.title@, new_piece.composer@),
                    )
                }
            },
        },
{
    proof {
        use_type_invariant(&*store);
        use_type_invariant(sessions);
    }
    match acting_user(sessions, token) {
        Ok(_) => {},
        Err(error) => {
            return Err(error);
        },
    }
    match store.insert_piece(new_piece) {
        Ok(piece) => Ok(piece),
        Err(error) => Err(classify(error, Entity::Piece)),
    }
}

/// Removes a piece from the catalog and returns how many rows went. A piece
/// that is still linked to a practice session stays.
pub fn delete_piece(store: &mut EntityStore, piece_id: i32) -> (result: Result<usize, AppError>)
    ensures
        final(store).wf(),
        match result {
            Ok(count) => {
                &&& !old(store)@.piece_in_use(piece_id)
                &&& final(store)@ == old(store)@.without_piece(piece_id)
                &&& count == if old(store)@.has_piece(piece_id) { 1usize } else { 0usize }
            },
            Err(error) => {
                &&& old(store)@.piece_in_use(piece_id)
                &&& final(store)@ == old(store)@
                &&& error@ == failure(ErrorKind::ClientError, in_use_text(Entity::Piece))
            },
        },
{
    proof {
        use_type_invariant(&*store);
    }
    match store.delete_piece(piece_id) {
        Ok(count) => Ok(count),
        Err(error) => Err(classify_removal(error, Entity::Piece)),
    }
}

/// Why a link is not made, or `None` where it is: the practice session has
/// to be the user's, the link must not be there yet, and the piece has to
/// exist.
pub open spec fn linking_refusal(
    state: StoreState,
    user: Option<i32>,
    link: PiecePracticedMapping,
) -> Option<Failure> {
    match user {
        None => Some(unauthorized()),
        Some(user_id) => if !state.owns(user_id, link.practice_session_id) {
            Some(session_not_found())
        } else if !state.accepts_link(link) {
            Some(link_refusal(state, link))
        } else {
            None
        },
    }
}

/// Links a piece to a practice session of the user behind the token.
pub fn create_piece_practiced(
    store: &mut EntityStore,
    sessions: &SessionStore,
    token: Option<SessionToken>,
    piece_practiced_mapping: PiecePracticedMapping,
) -> (result: Result<usize, AppError>)
    ensures
        final(store).wf(),
        match result {
            Ok(count) => {
                &&& count == 1
                &&& linking_refusal(
                    old(store)@,
                    sessions@.user_behind(token),
                    piece_practiced_mapping,
                ) is None
                &&& final(store)@ == old(store)@.with_link(piece_practiced_mapping)
            },
            Err(error) => {
                &&& final(store)@ == old(store)@
                &&& linking_refusal(
                    old(store)@,
                    sessions@.user_behind(token),
                    piece_practiced_mapping,
                ) == Some(error@)
            },
        },
{
    proof {
        use_type_invariant(&*store);
        use_type_invariant(sessions);
    }
    let current_user_id = match acting_user(sessions, token) {
        Ok(user_id) => user_id,
        Err(error) => {
            return Err(error);
        },
    };
    let (stage, request) = Guarded::linking(current_user_id, piece_practiced_mapping);
    run_guarded(store, stage, request)
}

/// Removes the link between a practice session of the user behind the token
/// and a piece, and returns how many rows went.
pub fn delete_piece_practiced(
    store: &mut EntityStore,
    sessions: &SessionStore,
    token: Option<SessionToken>,
    practice_session_id: i32,
    piece_id: i32,
) -> (result: Result<usize, AppError>)
    ensures
        final(store).wf(),
        match result {
            Ok(count) => {
                &&& sessions@.user_behind(token) matches Some(user_id)
                &&& old(store)@.owns(user_id, practice_session_id)
                &&& final(store)@ == old(store)@.without_links(
                    link_is(practice_session_id, piece_id),
                )
                &&& count == old(store)@.pieces_practiced.filter(
                    link_is(practice_session_id, piece_id),
                ).len()
                &&& count == if old(store)@.has_link(
                    PiecePracticedMapping { practice_session_id, piece_id },
                ) {
                    1usize
                } else {
                    0usize
                }
            },
            Err(error) => {
                &&& final(store)@ == old(store)@
                &&& match sessions@.user_behind(token) {
                    None => error@ == unauthorized(),
                    Some(user_id) => !old(store)@.owns(user_id, practice_session_id) && error@
                        == session_not_found(),
                }
            },
        },
{
    proof {
        use_type_invariant(&*store);
        use_type_invariant(sessions);
    }
    let current_user_id = match acting_user(sessions, token) {
        Ok(user_id) => user_id,
        Err(error) => {
            return Err(error);
        },
    };
    proof {
        lemma_one_link_per_pair(store@, practice_session_id, piece_id);
    }
    let (stage, request) = Guarded::unlinking(current_user_id, practice_session_id, piece_id);
    run_guarded(store, stage, request)
}

} // verus!
