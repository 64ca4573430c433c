use practice_app::cascade::{create_session_with_links, delete_session_cascade, CascadeDeletion};
use practice_app::error::AppError;
use practice_app::filter::{
    GetPiecesQueryParams, PracticeSessionFilter, PracticeSessionsQueryParams,
};
use practice_app::guard::verify_practice_session_ownership;
use practice_app::models::{
    InsertablePiece, NewPracticeSessionData, Piece, PiecePracticedMapping, PracticeSession,
    PracticeSessionWithPieces, Timestamp,
};
use practice_app::service::{
    create_piece, create_piece_practiced, create_practice_session, delete_piece,
    delete_piece_practiced, delete_practice_session, get_pieces, get_practice_sessions,
    group_by_session,
};
use practice_app::sessions::{SessionStore, SessionToken};
use practice_app::store::EntityStore;

fn new_piece(title: &str, composer: &str) -> InsertablePiece {
    InsertablePiece { title: title.to_string(), composer: composer.to_string() }
}

fn data(micros: i64, duration_mins: u32, pieces: Vec<Piece>) -> NewPracticeSessionData {
    NewPracticeSessionData {
        start_datetime: Timestamp { micros },
        duration_mins,
        instrument: "violin".to_string(),
        pieces_practiced: pieces,
    }
}

fn link(practice_session_id: i32, piece_id: i32) -> PiecePracticedMapping {
    PiecePracticedMapping { practice_session_id, piece_id }
}

fn no_params() -> PracticeSessionsQueryParams {
    PracticeSessionsQueryParams {
        practice_session_id: None,
        min_datetime: None,
        max_datetime: None,
        min_duration_mins: None,
        max_duration_mins: None,
        instrument: None,
    }
}

/// Two users, each with a token, and two pieces.
fn two_users() -> (EntityStore, SessionStore, Option<SessionToken>, Option<SessionToken>, Piece, Piece) {
    let mut store = EntityStore::new();
    let mut sessions = SessionStore::new();
    let alice = store.insert_user("alice".to_string(), "digest".to_string()).unwrap();
    let bob = store.insert_user("bob".to_string(), "digest".to_string()).unwrap();
    let a = sessions.bind([1u8; 16], alice.user_id);
    let b = sessions.bind([2u8; 16], bob.user_id);
    let nocturne = store.insert_piece(new_piece("Nocturne", "Chopin")).unwrap();
    let partita = store.insert_piece(new_piece("Partita", "Bach")).unwrap();
    (store, sessions, a, b, nocturne, partita)
}

fn unknown_piece() -> Piece {
    Piece { piece_id: 99, title: "Lost".to_string(), composer: "Nobody".to_string() }
}

#[test]
fn the_guard_answers_alike_for_a_foreign_and_a_missing_practice_session() {
    let (mut store, _sessions, _a, _b, _n, _p) = two_users();
    let of_bob = store.insert_practice_session(data(10, 30, vec![]).make_insertable(2).unwrap()).unwrap();
    let id = of_bob.practice_session_id;
    assert_eq!(verify_practice_session_ownership(&store, id, 2), Ok(id));
    let foreign = verify_practice_session_ownership(&store, id, 1);
    let missing = verify_practice_session_ownership(&store, 99, 1);
    assert_eq!(foreign, Err(AppError::NotFound("Practice session not found".to_string())));
    assert_eq!(foreign, missing);
}

#[test]
fn a_second_practice_session_with_the_same_start_is_a_conflict() {
    let (mut store, sessions, a, b, _n, _p) = two_users();
    create_practice_session(&mut store, &sessions, a, &data(10, 30, vec![])).unwrap();
    assert_eq!(
        create_practice_session(&mut store, &sessions, a, &data(10, 45, vec![])),
        Err(AppError::Conflict("A practice session at that time already exists".to_string()))
    );
    assert!(create_practice_session(&mut store, &sessions, b, &data(10, 30, vec![])).is_ok());
    assert!(create_practice_session(&mut store, &sessions, a, &data(11, 30, vec![])).is_ok());
    assert_eq!(store.select_practice_sessions(&PracticeSessionFilter::any()).len(), 3);
}

#[test]
fn an_existing_piece_is_a_conflict_letter_for_letter() {
    let (mut store, sessions, a, _b, _n, _p) = two_users();
    assert_eq!(
        create_piece(&mut store, &sessions, a, new_piece("Nocturne", "Chopin")),
        Err(AppError::Conflict("That piece is already registered in the database".to_string()))
    );
    let lower = create_piece(&mut store, &sessions, a, new_piece("nocturne", "Chopin")).unwrap();
    assert_eq!(lower.piece_id, 3);
    // the search finds both, whatever the case
    let found = get_pieces(
        &store,
        &GetPiecesQueryParams { piece_id: None, title: Some("NOCTURNE".to_string()), composer: None },
    );
    assert_eq!(found.len(), 2);
}

#[test]
fn creating_a_piece_needs_a_login() {
    let (mut store, sessions, _a, _b, _n, _p) = two_users();
    assert_eq!(
        create_piece(&mut store, &sessions, None, new_piece("Etude", "Liszt")),
        Err(AppError::Unauthorized)
    );
    let stale = Some(SessionToken { serial: 1, secret: [0u8; 16] });
    assert_eq!(
        create_piece(&mut store, &sessions, stale, new_piece("Etude", "Liszt")),
        Err(AppError::Unauthorized)
    );
    assert_eq!(get_pieces(&store, &GetPiecesQueryParams::any()).len(), 2);
}

#[test]
fn a_cascade_removes_the_practice_session_and_all_of_its_links() {
    let (mut store, sessions, a, _b, nocturne, partita) = two_users();
    let (kept, _) =
        create_practice_session(&mut store, &sessions, a, &data(10, 30, vec![nocturne.clone()])).unwrap();
    let (gone, links) = create_practice_session(
        &mut store,
        &sessions,
        a,
        &data(20, 30, vec![nocturne.clone(), partita.clone()]),
    )
    .unwrap();
    assert_eq!(links, vec![link(2, 1), link(2, 2)]);

    let deleted = delete_practice_session(&mut store, &sessions, a, gone.practice_session_id);
    assert_eq!(deleted, Ok(CascadeDeletion { deleted_session_count: 1, deleted_link_count: 2 }));
    assert_eq!(store.select_pieces_practiced(), vec![link(kept.practice_session_id, 1)]);
    assert_eq!(store.select_practice_sessions(&PracticeSessionFilter::any()), vec![kept]);
    assert_eq!(get_pieces(&store, &GetPiecesQueryParams::any()).len(), 2);
}

#[test]
fn a_cascade_on_a_practice_session_without_links_removes_one_row() {
    let (mut store, _sessions, _a, _b, _n, _p) = two_users();
    let (session, _) = create_session_with_links(&mut store, 1, &data(10, 30, vec![])).unwrap();
    assert_eq!(
        delete_session_cascade(&mut store, 1, session.practice_session_id),
        Ok(CascadeDeletion { deleted_session_count: 1, deleted_link_count: 0 })
    );
}

#[test]
fn a_cascade_on_a_foreign_or_missing_practice_session_deletes_nothing() {
    let (mut store, sessions, a, b, nocturne, _p) = two_users();
    let (of_bob, _) =
        create_practice_session(&mut store, &sessions, b, &data(10, 30, vec![nocturne])).unwrap();
    let not_found = Err(AppError::NotFound("Practice session not found".to_string()));
    assert_eq!(delete_practice_session(&mut store, &sessions, a, of_bob.practice_session_id), not_found);
    assert_eq!(delete_practice_session(&mut store, &sessions, a, 99), not_found);
    assert_eq!(
        delete_practice_session(&mut store, &sessions, None, of_bob.practice_session_id),
        Err(AppError::Unauthorized)
    );
    assert_eq!(store.select_practice_sessions(&PracticeSessionFilter::any()), vec![of_bob]);
    assert_eq!(store.select_pieces_practiced(), vec![link(1, 1)]);
}

#[test]
fn a_link_to_a_missing_piece_is_a_client_error_and_is_not_stored() {
    let (mut store, sessions, a, _b, _n, _p) = two_users();
    let (session, _) = create_practice_session(&mut store, &sessions, a, &data(10, 30, vec![])).unwrap();
    assert_eq!(
        create_piece_practiced(&mut store, &sessions, a, link(session.practice_session_id, 99)),
        Err(AppError::ClientError("Piece not found".to_string()))
    );
    assert!(store.select_pieces_practiced().is_empty());
}

#[test]
fn a_link_is_made_on_ones_own_practice_sessions_only() {
    let (mut store, sessions, a, b, nocturne, _p) = two_users();
    let (of_bob, _) = create_practice_session(&mut store, &sessions, b, &data(10, 30, vec![])).unwrap();
    let wanted = link(of_bob.practice_session_id, nocturne.piece_id);
    assert_eq!(
        create_piece_practiced(&mut store, &sessions, a, wanted),
        Err(AppError::NotFound("Practice session not found".to_string()))
    );
    assert_eq!(
        create_piece_practiced(&mut store, &sessions, None, wanted),
        Err(AppError::Unauthorized)
    );
    assert!(store.select_pieces_practiced().is_empty());
    assert_eq!(create_piece_practiced(&mut store, &sessions, b, wanted), Ok(1));
    assert_eq!(
        create_piece_practiced(&mut store, &sessions, b, wanted),
        Err(AppError::Conflict("Entry already exists".to_string()))
    );
    assert_eq!(store.select_pieces_practiced(), vec![wanted]);
}

#[test]
fn a_link_is_deleted_by_its_owner_only() {
    let (mut store, sessions, a, b, nocturne, partita) = two_users();
    let (of_bob, _) = create_practice_session(
        &mut store,
        &sessions,
        b,
        &data(10, 30, vec![nocturne.clone(), partita.clone()]),
    )
    .unwrap();
    let id = of_bob.practice_session_id;
    assert_eq!(
        delete_piece_practiced(&mut store, &sessions, a, id, nocturne.piece_id),
        Err(AppError::NotFound("Practice session not found".to_string()))
    );
    assert_eq!(
        delete_piece_practiced(&mut store, &sessions, None, id, nocturne.piece_id),
        Err(AppError::Unauthorized)
    );
    assert_eq!(store.select_pieces_practiced().len(), 2);
    assert_eq!(delete_piece_practiced(&mut store, &sessions, b, id, nocturne.piece_id), Ok(1));
    assert_eq!(delete_piece_practiced(&mut store, &sessions, b, id, nocturne.piece_id), Ok(0));
    assert_eq!(store.select_pieces_practiced(), vec![link(id, partita.piece_id)]);
}

#[test]
fn a_practice_session_stays_when_one_of_its_links_is_refused() {
    let (mut store, _sessions, _a, _b, nocturne, partita) = two_users();
    let refused = create_session_with_links(
        &mut store,
        1,
        &data(10, 30, vec![nocturne.clone(), unknown_piece(), partita.clone()]),
    );
    assert_eq!(refused, Err(AppError::ClientError("Piece not found".to_string())));
    let stored = store.select_practice_sessions(&PracticeSessionFilter::any());
    assert_eq!(stored.len(), 1);
    assert_eq!(stored[0].practice_session_id, 1);
    assert_eq!(store.select_pieces_practiced(), vec![link(1, nocturne.piece_id)]);
}

#[test]
fn a_piece_that_is_named_twice_is_a_conflict_at_its_second_link() {
    let (mut store, _sessions, _a, _b, nocturne, partita) = two_users();
    let refused = create_session_with_links(
        &mut store,
        1,
        &data(10, 30, vec![nocturne.clone(), partita.clone(), nocturne.clone()]),
    );
    assert_eq!(refused, Err(AppError::Conflict("Entry already exists".to_string())));
    assert_eq!(store.select_pieces_practiced(), vec![link(1, 1), link(1, 2)]);
}

#[test]
fn a_duration_has_to_fit_the_column() {
    let (mut store, sessions, a, _b, _n, _p) = two_users();
    let fits = data(10, 2_147_483_647, vec![]);
    let too_long = data(20, 2_147_483_648, vec![]);
    assert_eq!(fits.make_insertable(1).unwrap().duration_mins, i32::MAX);
    assert_eq!(
        too_long.make_insertable(1),
        Err(AppError::ClientError("Invalid practice session duration".to_string()))
    );
    assert_eq!(
        create_practice_session(&mut store, &sessions, a, &too_long),
        Err(AppError::ClientError("Invalid practice session duration".to_string()))
    );
    assert!(create_practice_session(&mut store, &sessions, a, &fits).is_ok());
    assert_eq!(
        create_practice_session(&mut store, &sessions, None, &fits),
        Err(AppError::Unauthorized)
    );
}

#[test]
fn the_record_to_insert_takes_the_fields_of_the_request() {
    let record = data(1_704_103_200_000_000, 30, vec![]).make_insertable(7).unwrap();
    assert_eq!(record.start_datetime, Timestamp { micros: 1_704_103_200_000_000 });
    assert_eq!(record.duration_mins, 30);
    assert_eq!(record.instrument, "violin");
    assert_eq!(record.user_id, 7);
}

#[test]
fn a_practice_session_is_joined_with_its_pieces() {
    let session = PracticeSession {
        practice_session_id: 5,
        start_datetime: Timestamp { micros: 10 },
        duration_mins: 30,
        instrument: "violin".to_string(),
        user_id: 2,
    };
    let pieces = vec![Piece { piece_id: 1, title: "Nocturne".to_string(), composer: "Chopin".to_string() }];
    let joined = PracticeSessionWithPieces::new(session, pieces.clone());
    assert_eq!(
        joined,
        PracticeSessionWithPieces {
            start_datetime: Timestamp { micros: 10 },
            duration_mins: 30,
            instrument: "violin".to_string(),
            practice_session_id: 5,
            user_id: 2,
            pieces_practiced: pieces,
        }
    );
}

#[test]
fn ones_own_practice_sessions_are_read_with_their_pieces() {
    let (mut store, sessions, a, b, nocturne, partita) = two_users();
    create_practice_session(&mut store, &sessions, a, &data(100, 30, vec![partita.clone(), nocturne.clone()]))
        .unwrap();
    create_practice_session(&mut store, &sessions, b, &data(100, 30, vec![nocturne.clone()])).unwrap();
    create_practice_session(&mut store, &sessions, a, &data(200, 60, vec![])).unwrap();

    let of_alice = get_practice_sessions(&store, &sessions, a, &no_params()).unwrap();
    assert_eq!(of_alice.len(), 2);
    assert_eq!(of_alice[0].practice_session_id, 1);
    assert_eq!(of_alice[0].user_id, 1);
    assert_eq!(of_alice[0].pieces_practiced, vec![partita.clone(), nocturne.clone()]);
    assert_eq!(of_alice[1].practice_session_id, 3);
    assert!(of_alice[1].pieces_practiced.is_empty());

    let of_bob = get_practice_sessions(&store, &sessions, b, &no_params()).unwrap();
    assert_eq!(of_bob.len(), 1);
    assert_eq!(of_bob[0].practice_session_id, 2);
    assert_eq!(of_bob[0].pieces_practiced, vec![nocturne]);

    let long_ones = get_practice_sessions(
        &store,
        &sessions,
        a,
        &PracticeSessionsQueryParams { min_duration_mins: Some(31), ..no_params() },
    )
    .unwrap();
    assert_eq!(long_ones.len(), 1);
    assert_eq!(long_ones[0].practice_session_id, 3);

    // the id of someone else's practice session selects nothing
    let foreign = get_practice_sessions(
        &store,
        &sessions,
        a,
        &PracticeSessionsQueryParams { practice_session_id: Some(2), ..no_params() },
    )
    .unwrap();
    assert!(foreign.is_empty());
}

#[test]
fn reading_practice_sessions_needs_a_login_and_bounds_that_fit() {
    let (store, sessions, a, _b, _n, _p) = two_users();
    assert_eq!(
        get_practice_sessions(&store, &sessions, None, &no_params()),
        Err(AppError::Unauthorized)
    );
    assert_eq!(
        get_practice_sessions(
            &store,
            &sessions,
            a,
            &PracticeSessionsQueryParams {
                min_duration_mins: Some(2_147_483_648),
                max_duration_mins: Some(4_000_000_000),
                ..no_params()
            }
        ),
        Err(AppError::ClientError("Invalid value for min_duration_mins".to_string()))
    );
    assert_eq!(
        get_practice_sessions(
            &store,
            &sessions,
            a,
            &PracticeSessionsQueryParams { max_duration_mins: Some(2_147_483_648), ..no_params() }
        ),
        Err(AppError::ClientError("Invalid value for max_duration_mins".to_string()))
    );
}

#[test]
fn the_filter_of_a_query_is_scoped_to_its_user() {
    let params = PracticeSessionsQueryParams {
        practice_session_id: Some(4),
        min_datetime: Some(Timestamp { micros: 1 }),
        max_datetime: Some(Timestamp { micros: 9 }),
        min_duration_mins: Some(0),
        max_duration_mins: Some(2_147_483_647),
        instrument: Some("cello".to_string()),
    };
    assert_eq!(
        PracticeSessionFilter::from_params(12, &params),
        Ok(PracticeSessionFilter {
            user_id: Some(12),
            practice_session_id: Some(4),
            min_datetime: Some(Timestamp { micros: 1 }),
            max_datetime: Some(Timestamp { micros: 9 }),
            min_duration_mins: Some(0),
            max_duration_mins: Some(i32::MAX),
            instrument: Some("cello".to_string()),
        })
    );
}

#[test]
fn a_piece_is_deleted_unless_it_is_linked() {
    let (mut store, sessions, a, _b, nocturne, partita) = two_users();
    create_practice_session(&mut store, &sessions, a, &data(10, 30, vec![nocturne.clone()])).unwrap();
    assert_eq!(
        delete_piece(&mut store, nocturne.piece_id),
        Err(AppError::ClientError("Piece is still referenced".to_string()))
    );
    assert_eq!(delete_piece(&mut store, partita.piece_id), Ok(1));
    assert_eq!(delete_piece(&mut store, partita.piece_id), Ok(0));
    assert_eq!(get_pieces(&store, &GetPiecesQueryParams::any()), vec![nocturne]);
}

#[test]
fn pieces_are_grouped_under_their_practice_sessions() {
    let session = |practice_session_id: i32| PracticeSession {
        practice_session_id,
        start_datetime: Timestamp { micros: 10 },
        duration_mins: 30,
        instrument: "violin".to_string(),
        user_id: 1,
    };
    let nocturne = Piece { piece_id: 1, title: "Nocturne".to_string(), composer: "Chopin".to_string() };
    let partita = Piece { piece_id: 2, title: "Partita".to_string(), composer: "Bach".to_string() };
    let pairs = vec![
        (link(7, 2), partita.clone()),
        (link(5, 1), nocturne.clone()),
        (link(7, 1), nocturne.clone()),
        (link(9, 2), partita.clone()),
    ];
    let joined = group_by_session(&vec![session(5), session(6), session(7)], &pairs);
    assert_eq!(
        joined,
        vec![
            PracticeSessionWithPieces::new(session(5), vec![nocturne.clone()]),
            PracticeSessionWithPieces::new(session(6), vec![]),
            PracticeSessionWithPieces::new(session(7), vec![partita, nocturne]),
        ]
    );
    assert!(group_by_session(&vec![], &pairs).is_empty());
}
