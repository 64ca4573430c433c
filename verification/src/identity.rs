//! Registration, login and logout: who a request acts for, decided against
//! the stored digests and the session store.

use crate::error::{
    classify, conflict_text, failure, hide_missing_user, reports, AppError, Entity, ErrorKind,
    Failure,
};
use crate::models::{Credentials, User};
use crate::password::{
    argon2_verdict, hash_password, password_fits, random_block, verify_password,
};
use crate::rules::lemma_user_by_name;
use crate::sessions::{lemma_without, SessionState, SessionStore, SessionToken};
use crate::state::StoreState;
use crate::store::EntityStore;
use vstd::prelude::*;
use vstd::string::{StrSliceExecFns, StringExecFns};

verus! {

/// The fields of a user that a caller may see. The digest is not among them.
#[derive(Debug, PartialEq, Eq)]
pub struct UserInfo {
    pub user_id: i32,
    pub user_name: String,
}

/// What a successful login yields: the fresh token and the user it stands
/// for.
#[derive(Debug, PartialEq, Eq)]
pub struct Login {
    pub token: SessionToken,
    pub user_id: i32,
    pub user_name: String,
}

/// Whether a user name is short enough: at most 100 characters.
pub open spec fn name_fits(user_name: Seq<char>) -> bool {
    user_name.len() <= 100
}

/// Why the store does not take a new user of this name, or `None` where it
/// does.
pub open spec fn registration_refusal(store: StoreState, user_name: Seq<char>) -> Option<Failure> {
    if !name_fits(user_name) {
        Some(failure(ErrorKind::ClientError, "User name too long"@))
    } else if store.has_user_named(user_name) {
        Some(failure(ErrorKind::Conflict, conflict_text(Entity::User)))
    } else if store.next_user_id > i32::MAX {
        Some(failure(ErrorKind::BackendError, Seq::empty()))
    } else {
        None
    }
}

/// Why a request to register fails, or `None` where it goes through. Who is
/// logged in cannot register; then the name is checked, then the password,
/// then the store is asked.
pub open spec fn creation_refusal(
    store: StoreState,
    sessions: SessionState,
    token: Option<SessionToken>,
    user_name: Seq<char>,
    password: Seq<char>,
) -> Option<Failure> {
    if sessions.is_authenticated(token) {
        Some(failure(ErrorKind::Forbidden, "Cannot create a new user while logged in"@))
    } else if !name_fits(user_name) {
        Some(failure(ErrorKind::ClientError, "User name too long"@))
    } else if !password_fits(password) {
        Some(failure(ErrorKind::BackendError, Seq::empty()))
    } else {
        registration_refusal(store, user_name)
    }
}

/// Why a login fails once the user's row is at hand and the digest was
/// compared, or `None` where it goes through.
pub open spec fn conclusion_refusal(verdict: Result<bool, AppError>) -> Option<Failure> {
    match verdict {
        Err(error) => Some(error@),
        Ok(false) => Some(failure(ErrorKind::LoginError, Seq::empty())),
        Ok(true) => None,
    }
}

/// Why a request to log in fails, or `None` where it goes through. The
/// credentials alone decide, whatever token the request carries. An unknown
/// name and a wrong password fail in the same way.
pub open spec fn login_refusal(
    store: StoreState,
    user_name: Seq<char>,
    password: Seq<char>,
) -> Option<Failure> {
    if !store.has_user_named(user_name) {
        Some(failure(ErrorKind::LoginError, Seq::empty()))
    } else {
        match argon2_verdict(store.user_named(user_name).password_hash, password) {
            None => Some(failure(ErrorKind::BackendError, Seq::empty())),
            Some(false) => Some(failure(ErrorKind::LoginError, Seq::empty())),
            Some(true) => None,
        }
    }
}

/// Refuses a user name of more than 100 characters.
pub fn validate_user_name(user_name: &str) -> (result: Result<(), AppError>)
    ensures
        match result {
            Ok(_) => name_fits(user_name@),
            Err(error) => !name_fits(user_name@) && error@ == failure(
                ErrorKind::ClientError,
                "User name too long"@,
            ),
        },
{
    if user_name.unicode_len() > 100 {
        Err(AppError::ClientError(String::from_str("User name too long")))
    } else {
        Ok(())
    }
}

/// Refuses, with the reason given, what only a request that is not logged
/// in may do.
pub fn refuse_logged_in(current_user: Option<i32>, reason: &str) -> (result: Result<(), AppError>)
    ensures
        match result {
            Ok(_) => current_user is None,
            Err(error) => current_user is Some && error@ == failure(ErrorKind::Forbidden, reason@),
        },
{
    match current_user {
        Some(_) => Err(AppError::Forbidden(String::from_str(reason))),
        None => Ok(()),
    }
}

/// Stores a user whose password digest is at hand, and returns the user's
/// public fields.
pub fn register_with_digest(
    store: &mut EntityStore,
    user_name: String,
    password_hash: String,
) -> (result: Result<UserInfo, AppError>)
    ensures
        final(store).wf(),
        match result {
            Ok(info) => {
                &&& registration_refusal(old(store)@, user_name@) is None
                &&& final(store)@ == old(store)@.with_user(user_name@, password_hash@)
                &&& info.user_id == old(store)@.next_user_id
                &&& info.user_name@ == user_name@
            },
            Err(error) => {
                &&& final(store)@ == old(store)@
                &&& registration_refusal(old(store)@, user_name@) matches Some(refusal)
                &&& reports(error@, refusal)
            },
        },
{
    proof {
        use_type_invariant(&*store);
    }
    match validate_user_name(user_name.as_str()) {
        Ok(_) => {},
        Err(error) => {
            return Err(error);
        },
    }
    match store.insert_user(user_name, password_hash) {
        Ok(user) => Ok(UserInfo { user_id: user.user_id, user_name: user.user_name }),
        Err(error) => Err(classify(error, Entity::User)),
    }
}

/// Registers a user. The password is stored as a digest under a fresh random
/// salt, one that a later login with the same password passes.
pub fn create_user(
    store: &mut EntityStore,
    sessions: &SessionStore,
    token: Option<SessionToken>,
    credentials: Credentials,
) -> (result: Result<UserInfo, AppError>)
    ensures
        final(store).wf(),
        match result {
            Ok(info) => {
                &&& creation_refusal(
                    old(store)@,
                    sessions@,
                    token,
                    credentials.user_name@,
                    credentials.password@,
                ) is None
                &&& info.user_id == old(store)@.next_user_id
                &&& info.user_name@ == credentials.user_name@
                &&& final(store)@ == old(store)@.with_user(
                    credentials.user_name@,
                    final(store)@.users.last().password_hash,
                )
                &&& argon2_verdict(
                    final(store)@.users.last().password_hash,
                    credentials.password@,
                ) == Some(true)
            },
            Err(error) => {
                &&& final(store)@ == old(store)@
                &&& creation_refusal(
                    old(store)@,
                    sessions@,
                    token,
                    credentials.user_name@,
                    credentials.password@,
                ) matches Some(refusal)
                &&& reports(error@, refusal)
            },
        },
{
    proof {
        use_type_invariant(&*store);
        use_type_invariant(sessions);
    }
    let current_user = sessions.current_user(token);
    match refuse_logged_in(current_user, "Cannot create a new user while logged in") {
        Ok(_) => {},
        Err(error) => {
            return Err(error);
        },
    }
    match validate_user_name(credentials.user_name.as_str()) {
        Ok(_) => {},
        Err(error) => {
            return Err(error);
        },
    }
    let digest = match hash_password(credentials.password.as_str()) {
        Ok(digest) => digest,
        Err(error) => {
            return Err(error);
        },
    };
    let result = register_with_digest(store, credentials.user_name, digest);
    proof {
        if result is Ok {
            assert(store@.users.last().password_hash == digest@);
        }
    }
    result
}

/// Lets a login go on only where the password passed: a password that did
/// not pass is the failure of a login, and a comparison that failed stays
/// the failure that it was.
pub fn require_match(verdict: Result<bool, AppError>) -> (result: Result<(), AppError>)
    ensures
        result == match verdict {
            Ok(true) => Ok::<(), AppError>(()),
            Ok(false) => Err(AppError::LoginError),
            Err(error) => Err(error),
        },
{
    match verdict {
        Ok(true) => Ok(()),
        Ok(false) => Err(AppError::LoginError),
        Err(error) => Err(error),
    }
}

/// Ends a login for a user whose row was found: `verdict` says whether the
/// password passed. Where it did, the session is regenerated: the token that
/// the request carried, bound or not, is invalidated and a fresh one with
/// this secret is bound to the user.
pub fn conclude_login(
    sessions: &mut SessionStore,
    token: Option<SessionToken>,
    user: &User,
    verdict: Result<bool, AppError>,
    secret: [u8; 16],
) -> (result: Result<Login, AppError>)
    ensures
        final(sessions).wf(),
        match result {
            Ok(login) => {
                &&& verdict == Ok::<bool, AppError>(true)
                &&& login.token == old(sessions)@.renewed(token).minted(secret)
                &&& login.user_id == user.user_id
                &&& login.user_name@ == user.user_name@
                &&& final(sessions)@ == old(sessions)@.regenerated(token, secret, user.user_id)
                &&& final(sessions)@.resolves(login.token, user.user_id)
                &&& token matches Some(carried) ==> !final(sessions)@.is_bound(carried)
                    && carried != login.token
                &&& old(sessions)@.next_serial < u64::MAX ==> !old(sessions)@.is_bound(
                    login.token,
                )
                &&& old(sessions)@.can_mint() && !(token matches Some(carried) && !old(
                    sessions,
                )@.is_bound(carried)) ==> final(sessions)@ == old(sessions)@.without_any(
                    token,
                ).with_binding(secret, user.user_id)
            },
            Err(error) => {
                &&& final(sessions)@ == old(sessions)@
                &&& conclusion_refusal(verdict) matches Some(refusal)
                &&& reports(error@, refusal)
            },
        },
{
    proof {
        use_type_invariant(&*sessions);
    }
    match require_match(verdict) {
        Err(error) => Err(error),
        Ok(_) => {
            let minted = sessions.regenerate(token, secret, user.user_id);
            Ok(Login { token: minted, user_id: user.user_id, user_name: user.user_name.clone() })
        },
    }
}

/// Logs a user in. Whether the login goes through is decided by the
/// credentials alone. Where it does, the token that the request carried is
/// invalidated, and the fresh token resolves to the user whose name and
/// password were given.
pub fn login(
    store: &EntityStore,
    sessions: &mut SessionStore,
    token: Option<SessionToken>,
    credentials: &Credentials,
) -> (result: Result<Login, AppError>)
    ensures
        final(sessions).wf(),
        match result {
            Ok(login) => {
                &&& login_refusal(store@, credentials.user_name@, credentials.password@) is None
                &&& login.user_id == store@.user_named(credentials.user_name@).user_id
                &&& login.user_name@ == credentials.user_name@
                &&& login.token == old(sessions)@.renewed(token).minted(login.token.secret)
                &&& final(sessions)@ == old(sessions)@.regenerated(
                    token,
                    login.token.secret,
                    login.user_id,
                )
                &&& final(sessions)@.resolves(login.token, login.user_id)
                &&& token matches Some(carried) ==> !final(sessions)@.is_bound(carried)
                    && carried != login.token
                &&& old(sessions)@.next_serial < u64::MAX ==> !old(sessions)@.is_bound(
                    login.token,
                )
                &&& old(sessions)@.can_mint() && !(token matches Some(carried) && !old(
                    sessions,
                )@.is_bound(carried)) ==> final(sessions)@ == old(sessions)@.without_any(
                    token,
                ).with_binding(login.token.secret, login.user_id)
            },
            Err(error) => {
                &&& final(sessions)@ == old(sessions)@
                &&& login_refusal(
                    store@,
                    credentials.user_name@,
                    credentials.password@,
                ) matches Some(refusal)
                &&& reports(error@, refusal)
            },
        },
{
    proof {
        use_type_invariant(store);
        use_type_invariant(&*sessions);
    }
    let user = match store.find_user_by_name(&credentials.user_name) {
        Ok(user) => user,
        Err(error) => {
            return Err(hide_missing_user(classify(error, Entity::User)));
        },
    };
    proof {
        lemma_user_by_name(store@, user@);
    }
    let verdict = verify_password(user.password_hash.as_str(), credentials.password.as_str());
    let secret = random_block();
    conclude_login(sessions, token, &user, verdict, secret)
}

/// Logs out: the token is invalidated. A request without a token, or with
/// one that is not bound, is acknowledged all the same.
pub fn logout(sessions: &mut SessionStore, token: Option<SessionToken>)
    ensures
        final(sessions).wf(),
        final(sessions)@ == old(sessions)@.without_any(token),
        !final(sessions)@.is_authenticated(token),
{
    proof {
        use_type_invariant(&*sessions);
    }
    match token {
        Some(carried) => {
            proof {
                lemma_without(sessions@, carried);
            }
            sessions.invalidate(carried);
        },
        None => {},
    }
}

} // verus!
