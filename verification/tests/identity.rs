use practice_app::error::AppError;
use practice_app::identity::{
    conclude_login, create_user, login, logout, refuse_logged_in, register_with_digest,
    validate_user_name, UserInfo,
};
use practice_app::models::{Credentials, User};
use practice_app::password::{hash_password, verify_password};
use practice_app::sessions::{same_token, SessionStore, SessionToken};
use practice_app::store::EntityStore;

fn credentials(user_name: &str, password: &str) -> Credentials {
    Credentials { user_name: user_name.to_string(), password: password.to_string() }
}

fn carol() -> User {
    User { user_id: 3, user_name: "carol".to_string(), password_hash: "digest".to_string() }
}

#[test]
fn a_digest_passes_for_its_password_only() {
    let digest = hash_password("secret1").unwrap();
    assert_ne!(digest, "secret1");
    assert!(digest.starts_with("$argon2i$v=19$m=4096,t=3,p=1$"));
    assert_eq!(verify_password(&digest, "secret1"), Ok(true));
    assert_eq!(verify_password(&digest, "secret2"), Ok(false));
    assert_eq!(verify_password(&digest, ""), Ok(false));
}

#[test]
fn two_digests_of_one_password_differ_by_their_salt() {
    let first = hash_password("secret1").unwrap();
    let second = hash_password("secret1").unwrap();
    assert_ne!(first, second);
    assert_eq!(verify_password(&first, "secret1"), Ok(true));
    assert_eq!(verify_password(&second, "secret1"), Ok(true));
}

#[test]
fn a_known_digest_is_verified() {
    let digest = "$argon2i$v=19$m=4096,t=3,p=1$c29tZXNhbHQ$iWh06vD8Fy27wf9npn6FXWiCX4K6pW6Ue1Bnzz07Z8A";
    assert_eq!(verify_password(digest, "password"), Ok(true));
    assert_eq!(verify_password(digest, "Password"), Ok(false));
}

#[test]
fn a_digest_that_cannot_be_read_is_a_backend_error() {
    let refused = verify_password("not a digest", "secret1").unwrap_err();
    assert!(matches!(refused, AppError::BackendError(_)));
    assert_eq!(refused.public_message(), "Server error");
}

#[test]
fn the_empty_password_can_be_hashed() {
    let digest = hash_password("").unwrap();
    assert_eq!(verify_password(&digest, ""), Ok(true));
    assert_eq!(verify_password(&digest, " "), Ok(false));
}

#[test]
fn login_after_registration_resolves_to_the_registered_user() {
    let mut store = EntityStore::new();
    let mut sessions = SessionStore::new();
    let alice = create_user(&mut store, &sessions, None, credentials("alice", "secret1")).unwrap();
    let bob = create_user(&mut store, &sessions, None, credentials("bob", "hunter2")).unwrap();
    assert_eq!(alice, UserInfo { user_id: 1, user_name: "alice".to_string() });
    assert_eq!(bob, UserInfo { user_id: 2, user_name: "bob".to_string() });

    let as_bob = login(&store, &mut sessions, None, &credentials("bob", "hunter2")).unwrap();
    let as_alice = login(&store, &mut sessions, None, &credentials("alice", "secret1")).unwrap();
    assert_eq!(as_bob.user_id, 2);
    assert_eq!(as_bob.user_name, "bob");
    assert_eq!(as_alice.user_id, 1);
    assert_eq!(sessions.current_user(Some(as_bob.token)), Some(2));
    assert_eq!(sessions.current_user(Some(as_alice.token)), Some(1));
    assert_ne!(as_bob.token.serial, as_alice.token.serial);
}

#[test]
fn the_stored_digest_is_not_the_password() {
    let mut store = EntityStore::new();
    let sessions = SessionStore::new();
    create_user(&mut store, &sessions, None, credentials("alice", "secret1")).unwrap();
    let row = store.find_user_by_name(&"alice".to_string()).unwrap();
    assert_ne!(row.password_hash, "secret1");
    assert_eq!(verify_password(&row.password_hash, "secret1"), Ok(true));
}

#[test]
fn a_wrong_password_and_an_unknown_name_fail_alike() {
    let mut store = EntityStore::new();
    let mut sessions = SessionStore::new();
    create_user(&mut store, &sessions, None, credentials("alice", "secret1")).unwrap();
    let wrong_password = login(&store, &mut sessions, None, &credentials("alice", "secret2"));
    let unknown_name = login(&store, &mut sessions, None, &credentials("mallory", "secret1"));
    assert_eq!(wrong_password, Err(AppError::LoginError));
    assert_eq!(unknown_name, Err(AppError::LoginError));
    assert_eq!(wrong_password, unknown_name);
}

#[test]
fn a_user_name_may_have_a_hundred_characters() {
    let mut store = EntityStore::new();
    let sessions = SessionStore::new();
    let hundred = "a".repeat(100);
    let hundred_wide = "é".repeat(100);
    let too_long = "a".repeat(101);
    assert!(create_user(&mut store, &sessions, None, credentials(&hundred, "pw")).is_ok());
    assert!(create_user(&mut store, &sessions, None, credentials(&hundred_wide, "pw")).is_ok());
    assert_eq!(
        create_user(&mut store, &sessions, None, credentials(&too_long, "pw")),
        Err(AppError::ClientError("User name too long".to_string()))
    );
    assert_eq!(store.select_users().len(), 2);
}

#[test]
fn a_user_name_is_registered_once() {
    let mut store = EntityStore::new();
    let sessions = SessionStore::new();
    create_user(&mut store, &sessions, None, credentials("alice", "secret1")).unwrap();
    assert_eq!(
        create_user(&mut store, &sessions, None, credentials("alice", "other")),
        Err(AppError::Conflict("A user with that name already exists".to_string()))
    );
    assert!(create_user(&mut store, &sessions, None, credentials("Alice", "other")).is_ok());
}

#[test]
fn who_is_logged_in_cannot_register() {
    let mut store = EntityStore::new();
    let mut sessions = SessionStore::new();
    create_user(&mut store, &sessions, None, credentials("alice", "secret1")).unwrap();
    let token = Some(login(&store, &mut sessions, None, &credentials("alice", "secret1")).unwrap().token);
    assert_eq!(
        create_user(&mut store, &sessions, token, credentials("bob", "hunter2")),
        Err(AppError::Forbidden("Cannot create a new user while logged in".to_string()))
    );
    assert_eq!(store.select_users().len(), 1);
    assert_eq!(sessions.current_user(token), Some(1));
}

#[test]
fn a_login_on_a_bound_token_regenerates_the_session() {
    let mut store = EntityStore::new();
    let mut sessions = SessionStore::new();
    create_user(&mut store, &sessions, None, credentials("alice", "secret1")).unwrap();
    create_user(&mut store, &sessions, None, credentials("bob", "hunter2")).unwrap();
    let t0 = login(&store, &mut sessions, None, &credentials("alice", "secret1")).unwrap().token;
    let other = login(&store, &mut sessions, None, &credentials("alice", "secret1")).unwrap().token;

    let again = login(&store, &mut sessions, Some(t0), &credentials("bob", "hunter2")).unwrap();
    let t1 = again.token;
    assert_eq!(again.user_id, 2);
    assert_ne!(t1, t0);
    assert_eq!(t1.serial, 3);
    assert_eq!(sessions.current_user(Some(t1)), Some(2));
    assert_eq!(sessions.current_user(Some(t0)), None);
    assert_eq!(sessions.current_user(Some(other)), Some(1));
}

#[test]
fn a_login_that_fails_leaves_the_session_as_it_was() {
    let mut store = EntityStore::new();
    let mut sessions = SessionStore::new();
    create_user(&mut store, &sessions, None, credentials("alice", "secret1")).unwrap();
    let t0 = login(&store, &mut sessions, None, &credentials("alice", "secret1")).unwrap().token;
    assert_eq!(
        login(&store, &mut sessions, Some(t0), &credentials("alice", "wrong")),
        Err(AppError::LoginError)
    );
    assert_eq!(
        login(&store, &mut sessions, Some(t0), &credentials("mallory", "secret1")),
        Err(AppError::LoginError)
    );
    assert_eq!(sessions.current_user(Some(t0)), Some(1));
    let next = login(&store, &mut sessions, None, &credentials("alice", "secret1")).unwrap().token;
    assert_eq!(next.serial, 2);
}

#[test]
fn a_fresh_token_never_is_the_token_that_the_request_carried() {
    let mut sessions = SessionStore::new();
    let secret = [9u8; 16];
    // not bound, but the very token that would be minted next
    let carried = SessionToken { serial: 1, secret };
    let fresh = sessions.regenerate(Some(carried), secret, 3);
    assert_eq!(fresh, SessionToken { serial: 2, secret });
    assert_eq!(sessions.current_user(Some(fresh)), Some(3));
    assert_eq!(sessions.current_user(Some(carried)), None);

    let bound = sessions.bind([1u8; 16], 4).unwrap();
    assert_eq!(bound.serial, 3);
    let renewed = sessions.regenerate(Some(bound), [1u8; 16], 4);
    assert_eq!(renewed, SessionToken { serial: 4, secret: [1u8; 16] });
    assert_eq!(sessions.current_user(Some(bound)), None);
    assert_eq!(sessions.current_user(Some(renewed)), Some(4));
    assert_eq!(sessions.current_user(Some(fresh)), Some(3));

    let first = SessionStore::new().regenerate(None, secret, 5);
    assert_eq!(first, SessionToken { serial: 1, secret });
}

#[test]
fn logout_invalidates_the_token_and_may_be_repeated() {
    let mut store = EntityStore::new();
    let mut sessions = SessionStore::new();
    create_user(&mut store, &sessions, None, credentials("alice", "secret1")).unwrap();
    let first = Some(login(&store, &mut sessions, None, &credentials("alice", "secret1")).unwrap().token);
    let second = Some(login(&store, &mut sessions, None, &credentials("alice", "secret1")).unwrap().token);
    logout(&mut sessions, first);
    assert_eq!(sessions.current_user(first), None);
    assert_eq!(sessions.current_user(second), Some(1));
    logout(&mut sessions, first);
    logout(&mut sessions, None);
    assert_eq!(sessions.current_user(first), None);
    assert_eq!(sessions.current_user(second), Some(1));
}

#[test]
fn a_token_is_told_by_its_serial_and_its_secret() {
    let mut sessions = SessionStore::new();
    let token = sessions.bind([7u8; 16], 42).unwrap();
    assert_eq!(token, SessionToken { serial: 1, secret: [7u8; 16] });
    assert_eq!(sessions.current_user(Some(token)), Some(42));
    assert_eq!(sessions.current_user(Some(SessionToken { serial: 1, secret: [8u8; 16] })), None);
    assert_eq!(sessions.current_user(Some(SessionToken { serial: 2, secret: [7u8; 16] })), None);
    assert_eq!(sessions.current_user(None), None);

    let mut last_differs = [7u8; 16];
    last_differs[15] = 0;
    assert!(same_token(&token, &SessionToken { serial: 1, secret: [7u8; 16] }));
    assert!(!same_token(&token, &SessionToken { serial: 1, secret: last_differs }));
    assert!(!same_token(&token, &SessionToken { serial: 3, secret: [7u8; 16] }));
}

#[test]
fn serials_are_not_used_again_after_an_invalidation() {
    let mut sessions = SessionStore::new();
    let first = sessions.bind([1u8; 16], 1).unwrap();
    sessions.invalidate(first);
    let second = sessions.bind([1u8; 16], 1).unwrap();
    assert_eq!(first.serial, 1);
    assert_eq!(second.serial, 2);
    assert_eq!(sessions.current_user(Some(first)), None);
    assert_eq!(sessions.current_user(Some(second)), Some(1));
    assert!(sessions.can_mint());
}

#[test]
fn a_login_is_concluded_by_what_the_comparison_found() {
    let mut sessions = SessionStore::new();
    let secret = [9u8; 16];

    assert_eq!(
        conclude_login(&mut sessions, None, &carol(), Ok(false), secret),
        Err(AppError::LoginError)
    );
    assert_eq!(
        conclude_login(
            &mut sessions,
            None,
            &carol(),
            Err(AppError::BackendError("unreadable".to_string())),
            secret
        ),
        Err(AppError::BackendError("unreadable".to_string()))
    );

    let carried = SessionToken { serial: 77, secret: [0u8; 16] };
    let done = conclude_login(&mut sessions, Some(carried), &carol(), Ok(true), secret).unwrap();
    assert_eq!(done.token, SessionToken { serial: 1, secret });
    assert_eq!(done.user_id, 3);
    assert_eq!(done.user_name, "carol");
    assert_eq!(sessions.current_user(Some(done.token)), Some(3));
    assert_eq!(sessions.current_user(Some(carried)), None);
}

#[test]
fn a_user_is_registered_with_a_digest_at_hand() {
    let mut store = EntityStore::new();
    let info = register_with_digest(&mut store, "alice".to_string(), "digest".to_string()).unwrap();
    assert_eq!(info, UserInfo { user_id: 1, user_name: "alice".to_string() });
    assert_eq!(
        register_with_digest(&mut store, "alice".to_string(), "other".to_string()),
        Err(AppError::Conflict("A user with that name already exists".to_string()))
    );
    assert_eq!(
        register_with_digest(&mut store, "b".repeat(101), "digest".to_string()),
        Err(AppError::ClientError("User name too long".to_string()))
    );
    let rows = store.select_users();
    assert_eq!(rows.len(), 1);
    assert_eq!(rows[0].password_hash, "digest");
}

#[test]
fn a_user_name_is_measured_in_characters() {
    assert_eq!(validate_user_name(""), Ok(()));
    assert_eq!(validate_user_name(&"x".repeat(100)), Ok(()));
    assert_eq!(validate_user_name(&"漢".repeat(100)), Ok(()));
    assert_eq!(
        validate_user_name(&"x".repeat(101)),
        Err(AppError::ClientError("User name too long".to_string()))
    );
}

#[test]
fn what_needs_an_anonymous_request_is_refused_with_the_reason_given() {
    assert_eq!(refuse_logged_in(None, "Already logged in"), Ok(()));
    assert_eq!(
        refuse_logged_in(Some(1), "Already logged in"),
        Err(AppError::Forbidden("Already logged in".to_string()))
    );
}
