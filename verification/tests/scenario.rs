use practice_app::cascade::CascadeDeletion;
use practice_app::error::{AppError, ErrorKind};
use practice_app::identity::{create_user, login};
use practice_app::models::{
    Credentials, InsertablePiece, NewPracticeSessionData, PiecePracticedMapping, Timestamp,
};
use practice_app::service::{
    create_piece, create_piece_practiced, create_practice_session, delete_practice_session,
};
use practice_app::sessions::SessionStore;
use practice_app::store::EntityStore;

fn alice() -> Credentials {
    Credentials { user_name: "alice".to_string(), password: "secret1".to_string() }
}

#[test]
fn register_login_practice_link_and_delete() {
    let mut store = EntityStore::new();
    let mut sessions = SessionStore::new();

    let registered = create_user(&mut store, &sessions, None, alice()).unwrap();
    assert_eq!(registered.user_name, "alice");

    let logged_in = login(&store, &mut sessions, None, &alice()).unwrap();
    assert_eq!(logged_in.user_id, registered.user_id);
    let t1 = Some(logged_in.token);
    assert_eq!(sessions.current_user(t1), Some(registered.user_id));

    let data = NewPracticeSessionData {
        // 2024-01-01T10:00:00
        start_datetime: Timestamp { micros: 1_704_103_200_000_000 },
        duration_mins: 30,
        instrument: "violin".to_string(),
        pieces_practiced: vec![],
    };
    let (session, links) = create_practice_session(&mut store, &sessions, t1, &data).unwrap();
    assert_eq!(session.practice_session_id, 1);
    assert_eq!(session.user_id, registered.user_id);
    assert_eq!(session.duration_mins, 30);
    assert_eq!(session.instrument, "violin");
    assert!(links.is_empty());

    let piece = create_piece(
        &mut store,
        &sessions,
        t1,
        InsertablePiece { title: "Nocturne".to_string(), composer: "Chopin".to_string() },
    )
    .unwrap();
    assert_eq!(piece.piece_id, 1);

    let link = PiecePracticedMapping {
        practice_session_id: session.practice_session_id,
        piece_id: piece.piece_id,
    };
    assert_eq!(create_piece_practiced(&mut store, &sessions, t1, link), Ok(1));

    let again = create_piece_practiced(&mut store, &sessions, t1, link).unwrap_err();
    assert_eq!(again, AppError::Conflict("Entry already exists".to_string()));
    assert_eq!(again.kind(), ErrorKind::Conflict);

    let deleted =
        delete_practice_session(&mut store, &sessions, t1, session.practice_session_id).unwrap();
    assert_eq!(deleted, CascadeDeletion { deleted_session_count: 1, deleted_link_count: 1 });
    assert!(store.select_pieces_practiced().is_empty());
}
