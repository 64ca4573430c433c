//! What a coordinator asks of a store, one request at a time, what it does
//! on the answer, and how the entity store answers.

use crate::error::{
    classify, classify_query_error, classify_removal, classify_removal_error,
    classify_removal_spec, classify_spec, conflict_text, failure, in_use_text, not_found_text,
    reference_text, reports, storage_fault, AppError, Entity, ErrorKind, Failure,
};
use crate::models::{InsertablePracticeSession, PiecePracticedMapping, PracticeSession, Timestamp};
use crate::state::StoreState;
use crate::store::{links_gone, EntityStore};
use vstd::prelude::*;
use vstd::string::StringExecFns;

verus! {

/// A request to the store.
#[derive(Debug, PartialEq, Eq)]
pub enum StoreRequest {
    /// Look for the practice session by its id and its user together.
    FindOwnedPracticeSession { practice_session_id: i32, user_id: i32 },
    /// Store a practice session.
    InsertPracticeSession(InsertablePracticeSession),
    /// Store a link.
    InsertPiecePracticed(PiecePracticedMapping),
    /// Remove links of a practice session: all of them where `piece_id` is
    /// `None`, else the one to that piece.
    DeletePiecesPracticed { practice_session_id: i32, piece_id: Option<i32> },
    /// Remove the practice session if it is the user's.
    DeletePracticeSession { user_id: i32, practice_session_id: i32 },
}

/// What the store answers where it does not fail.
#[derive(Debug, PartialEq, Eq)]
pub enum StoreReply {
    /// The id of the practice session that was looked for.
    Found(i32),
    /// The practice session as it was stored.
    Inserted(PracticeSession),
    /// How many rows were stored or removed.
    Count(usize),
}

/// What the coordinator does next: it asks the store, or it is done.
#[derive(Debug, PartialEq, Eq)]
pub enum Step<T> {
    Ask(StoreRequest),
    Done(Result<T, AppError>),
}

/// Whether the coordinator ended with a backend error, as it does where it
/// is handed an answer to a request that it did not make.
pub open spec fn gave_up<T>(step: Step<T>) -> bool {
    step matches Step::Done(Err(error)) && error@.kind == ErrorKind::BackendError
}

/// The failure of a coordinator that is handed an answer to a request that
/// it did not make: a backend error that says so.
pub(crate) fn out_of_step() -> (error: AppError)
    ensures
        error@ == failure(ErrorKind::BackendError, "the answer does not fit the request"@),
{
    AppError::BackendError(String::from_str("the answer does not fit the request"))
}

/// The table that a request is aimed at.
pub open spec fn target_of(request: StoreRequest) -> Entity {
    match request {
        StoreRequest::FindOwnedPracticeSession { .. } => Entity::PracticeSession,
        StoreRequest::InsertPracticeSession(_) => Entity::PracticeSession,
        StoreRequest::InsertPiecePracticed(_) => Entity::PiecePracticed,
        StoreRequest::DeletePiecesPracticed { .. } => Entity::PiecePracticed,
        StoreRequest::DeletePracticeSession { .. } => Entity::PracticeSession,
    }
}

/// Whether a request is to remove rows.
pub open spec fn removes(request: StoreRequest) -> bool {
    request is DeletePiecesPracticed || request is DeletePracticeSession
}

impl StoreRequest {
    /// The table that the request is aimed at.
    pub fn entity(&self) -> (entity: Entity)
        ensures
            entity == target_of(*self),
    {
        match self {
            StoreRequest::FindOwnedPracticeSession { .. } => Entity::PracticeSession,
            StoreRequest::InsertPracticeSession(_) => Entity::PracticeSession,
            StoreRequest::InsertPiecePracticed(_) => Entity::PiecePracticed,
            StoreRequest::DeletePiecesPracticed { .. } => Entity::PiecePracticed,
            StoreRequest::DeletePracticeSession { .. } => Entity::PracticeSession,
        }
    }

    /// Whether the request is to remove rows.
    pub fn is_removal(&self) -> (removal: bool)
        ensures
            removal == removes(*self),
    {
        match self {
            StoreRequest::DeletePiecesPracticed { .. } => true,
            StoreRequest::DeletePracticeSession { .. } => true,
            _ => false,
        }
    }

    /// Maps the failure of the query that carried out this request into the
    /// taxonomy, by the policy for removals where the request is a removal.
    pub fn classify_failure(&self, error: &diesel::result::Error) -> (result: AppError)
        ensures
            result@ == if removes(*self) {
                classify_removal_spec(storage_fault(*error), target_of(*self))
            } else {
                classify_spec(storage_fault(*error), target_of(*self))
            },
    {
        if self.is_removal() {
            classify_removal_error(error, self.entity())
        } else {
            classify_query_error(error, self.entity())
        }
    }
}

/// Why the store does not take a practice session that it does not accept.
pub open spec fn session_refusal(
    state: StoreState,
    user_id: i32,
    start_datetime: Timestamp,
) -> Failure {
    if state.has_session_at(user_id, start_datetime) {
        failure(ErrorKind::Conflict, conflict_text(Entity::PracticeSession))
    } else if !state.has_user(user_id) {
        failure(ErrorKind::ClientError, reference_text(Entity::PracticeSession))
    } else {
        failure(ErrorKind::BackendError, Seq::empty())
    }
}

/// Why the store does not take a link that it does not accept. Where the
/// practice session of the link exists, a broken reference is the piece.
pub open spec fn link_refusal(state: StoreState, link: PiecePracticedMapping) -> Failure {
    if state.has_link(link) {
        failure(ErrorKind::Conflict, conflict_text(Entity::PiecePracticed))
    } else {
        failure(ErrorKind::ClientError, reference_text(Entity::PiecePracticed))
    }
}

/// What carrying out a request comes to: `after` is the store that it
/// leaves of `before`, `result` is the answer.
pub open spec fn performed(
    before: StoreState,
    after: StoreState,
    request: StoreRequest,
    result: Result<StoreReply, AppError>,
) -> bool {
    match request {
        StoreRequest::FindOwnedPracticeSession { practice_session_id, user_id } => {
            &&& after == before
            &&& match result {
                Ok(reply) => reply == StoreReply::Found(practice_session_id) && before.owns(
                    user_id,
                    practice_session_id,
                ),
                Err(error) => !before.owns(user_id, practice_session_id) && error@ == failure(
                    ErrorKind::NotFound,
                    not_found_text(Entity::PracticeSession),
                ),
            }
        },
        StoreRequest::InsertPracticeSession(record) => match result {
            Ok(reply) => {
                &&& reply matches StoreReply::Inserted(session)
                &&& before.accepts_practice_session(
                    record.start_datetime,
                    record.duration_mins,
                    record.user_id,
                )
                &&& session@ == before.new_practice_session(
                    record.start_datetime,
                    record.duration_mins,
                    record.instrument@,
                    record.user_id,
                )
                &&& after == before.with_practice_session(
                    record.start_datetime,
                    record.duration_mins,
                    record.instrument@,
                    record.user_id,
                )
            },
            Err(error) => {
                &&& after == before
                &&& !before.accepts_practice_session(
                    record.start_datetime,
                    record.duration_mins,
                    record.user_id,
                )
                &&& reports(error@, session_refusal(before, record.user_id, record.start_datetime))
            },
        },
        StoreRequest::InsertPiecePracticed(link) => match result {
            Ok(reply) => {
                &&& reply == StoreReply::Count(1)
                &&& before.accepts_link(link)
                &&& after == before.with_link(link)
            },
            Err(error) => {
                &&& after == before
                &&& !before.accepts_link(link)
                &&& error@ == link_refusal(before, link)
            },
        },
        StoreRequest::DeletePiecesPracticed { practice_session_id, piece_id } => {
            let gone = links_gone(practice_session_id, piece_id);
            &&& after == before.without_links(gone)
            &&& result == Ok::<StoreReply, AppError>(
                StoreReply::Count(before.pieces_practiced.filter(gone).len() as usize),
            )
            &&& before.pieces_practiced.filter(gone).len() <= usize::MAX
        },
        StoreRequest::DeletePracticeSession { user_id, practice_session_id } => match result {
            Ok(reply) => {
                &&& !(before.owns(user_id, practice_session_id) && before.session_in_use(
                    practice_session_id,
                ))
                &&& after == before.without_practice_session(user_id, practice_session_id)
                &&& reply == StoreReply::Count(
                    if before.owns(user_id, practice_session_id) {
                        1usize
                    } else {
                        0usize
                    },
                )
            },
            Err(error) => {
                &&& before.owns(user_id, practice_session_id)
                &&& before.session_in_use(practice_session_id)
                &&& after == before
                &&& error@ == failure(
                    ErrorKind::ClientError,
                    in_use_text(Entity::PracticeSession),
                )
            },
        },
    }
}

impl EntityStore {
    /// Carries out a request and answers it. A failure is classified here,
    /// once, by the table that the request is aimed at.
    pub fn perform(&mut self, request: StoreRequest) -> (result: Result<StoreReply, AppError>)
        ensures
            final(self).wf(),
            performed(old(self)@, final(self)@, request, result),
    {
        proof {
            use_type_invariant(&*self);
        }
        match request {
            StoreRequest::FindOwnedPracticeSession { practice_session_id, user_id } => {
                match self.find_owned_practice_session(practice_session_id, user_id) {
                    Ok(found) => Ok(StoreReply::Found(found)),
                    Err(error) => Err(classify(error, Entity::PracticeSession)),
                }
            },
            StoreRequest::InsertPracticeSession(record) => {
                match self.insert_practice_session(record) {
                    Ok(session) => Ok(StoreReply::Inserted(session)),
                    Err(error) => Err(classify(error, Entity::PracticeSession)),
                }
            },
            StoreRequest::InsertPiecePracticed(link) => {
                match self.insert_piece_practiced(link) {
                    Ok(count) => Ok(StoreReply::Count(count)),
                    Err(error) => Err(classify(error, Entity::PiecePracticed)),
                }
            },
            StoreRequest::DeletePiecesPracticed { practice_session_id, piece_id } => {
                let count = self.delete_pieces_practiced(practice_session_id, piece_id);
                Ok(StoreReply::Count(count))
            },
            StoreRequest::DeletePracticeSession { user_id, practice_session_id } => {
                match self.delete_practice_session(user_id, practice_session_id) {
                    Ok(count) => Ok(StoreReply::Count(count)),
                    Err(error) => Err(classify_removal(error, Entity::PracticeSession)),
                }
            },
        }
    }
}

} // verus!
