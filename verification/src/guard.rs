//! The ownership guard: the one check that every operation on a practice
//! session, or on what hangs on it, has to pass.

use crate::error::{classify, failure, not_found_text, AppError, Entity, ErrorKind, Failure};
use crate::models::PiecePracticedMapping;
use crate::requests::{gave_up, out_of_step, performed, Step, StoreReply, StoreRequest};
use crate::state::StoreState;
use crate::store::EntityStore;
use vstd::prelude::*;

verus! {

/// What the guard answers: the id of the practice session where it exists
/// and is the user's, and otherwise one and the same failure, whether the
/// practice session is missing or someone else's.
pub open spec fn ownership_verdict(
    state: StoreState,
    practice_session_id: i32,
    current_user_id: i32,
) -> Result<i32, Failure> {
    if state.owns(current_user_id, practice_session_id) {
        Ok(practice_session_id)
    } else {
        Err(failure(ErrorKind::NotFound, not_found_text(Entity::PracticeSession)))
    }
}

/// Confirms that the practice session exists and belongs to the user, and
/// returns its id.
pub fn verify_practice_session_ownership(
    store: &EntityStore,
    practice_session_id: i32,
    current_user_id: i32,
) -> (result: Result<i32, AppError>)
    ensures
        match result {
            Ok(found) => ownership_verdict(store@, practice_session_id, current_user_id) == Ok::<
                i32,
                Failure,
            >(found),
            Err(error) => ownership_verdict(store@, practice_session_id, current_user_id) == Err::<
                i32,
                Failure,
            >(error@),
        },
{
    match store.find_owned_practice_session(practice_session_id, current_user_id) {
        Ok(found) => Ok(found),
        Err(error) => Err(classify(error, Entity::PracticeSession)),
    }
}

/// Where an operation stands that has to pass the guard before it acts.
#[derive(Debug, PartialEq, Eq)]
pub enum Guarded {
    /// The store was asked whether the practice session is the user's;
    /// `then` is what to ask once it is.
    Verifying { then: StoreRequest },
    /// The store was asked to act.
    Acting,
    /// Nothing is asked any more.
    Finished,
}

impl Guarded {
    /// How many requests an operation at this stage still waits for at most.
    pub open spec fn rank(self) -> nat {
        match self {
            Guarded::Verifying { .. } => 2,
            Guarded::Acting => 1,
            Guarded::Finished => 0,
        }
    }

    /// What follows on an answer: only once the practice session is found to
    /// be the user's is the store asked to act, and the number of rows that
    /// it stored or removed is the outcome. A failure ends the operation.
    pub open spec fn follows(
        self,
        reply: Result<StoreReply, AppError>,
        next: Guarded,
        step: Step<usize>,
    ) -> bool {
        match self {
            Guarded::Finished => next == Guarded::Finished && gave_up(step),
            _ => match reply {
                Err(error) => next == Guarded::Finished && step == Step::<usize>::Done(Err(error)),
                Ok(answer) => match (self, answer) {
                    (Guarded::Verifying { then }, StoreReply::Found(_)) => {
                        &&& next == Guarded::Acting
                        &&& step == Step::<usize>::Ask(then)
                    },
                    (Guarded::Acting, StoreReply::Count(count)) => {
                        &&& next == Guarded::Finished
                        &&& step == Step::Done(Ok::<usize, AppError>(count))
                    },
                    _ => next == Guarded::Finished && gave_up(step),
                },
            },
        }
    }

    /// Begins the linking of a piece to a practice session by a user: the
    /// stage to start from and the first request, which is the guard's.
    pub fn linking(current_user_id: i32, link: PiecePracticedMapping) -> (start: (
        Guarded,
        StoreRequest,
    ))
        ensures
            start.0 == (Guarded::Verifying { then: StoreRequest::InsertPiecePracticed(link) }),
            start.1 == (StoreRequest::FindOwnedPracticeSession {
                practice_session_id: link.practice_session_id,
                user_id: current_user_id,
            }),
    {
        (
            Guarded::Verifying { then: StoreRequest::InsertPiecePracticed(link) },
            StoreRequest::FindOwnedPracticeSession {
                practice_session_id: link.practice_session_id,
                user_id: current_user_id,
            },
        )
    }

    /// Begins the removal of the link between a practice session and a piece
    /// by a user: the stage to start from and the first request, which is
    /// the guard's.
    pub fn unlinking(current_user_id: i32, practice_session_id: i32, piece_id: i32) -> (start: (
        Guarded,
        StoreRequest,
    ))
        ensures
            start.0 == (Guarded::Verifying {
                then: StoreRequest::DeletePiecesPracticed {
                    practice_session_id,
                    piece_id: Some(piece_id),
                },
            }),
            start.1 == (StoreRequest::FindOwnedPracticeSession {
                practice_session_id,
                user_id: current_user_id,
            }),
    {
        (
            Guarded::Verifying {
                then: StoreRequest::DeletePiecesPracticed {
                    practice_session_id,
                    piece_id: Some(piece_id),
                },
            },
            StoreRequest::FindOwnedPracticeSession {
                practice_session_id,
                user_id: current_user_id,
            },
        )
    }

    /// Takes the answer to the last request and gives the stage that follows
    /// and what to do next.
    pub fn advance(self, reply: Result<StoreReply, AppError>) -> (next: (Guarded, Step<usize>))
        ensures
            self.follows(reply, next.0, next.1),
            next.1 is Ask ==> next.0.rank() < self.rank(),
    {
        match self {
            Guarded::Finished => (Guarded::Finished, Step::Done(Err(out_of_step()))),
            Guarded::Verifying { then } => match reply {
                Err(error) => (Guarded::Finished, Step::Done(Err(error))),
                Ok(StoreReply::Found(_)) => (Guarded::Acting, Step::Ask(then)),
                Ok(_) => (Guarded::Finished, Step::Done(Err(out_of_step()))),
            },
            Guarded::Acting => match reply {
                Err(error) => (Guarded::Finished, Step::Done(Err(error))),
                Ok(StoreReply::Count(count)) => (Guarded::Finished, Step::Done(Ok(count))),
                Ok(_) => (Guarded::Finished, Step::Done(Err(out_of_step()))),
            },
        }
    }
}

/// What running a guarded operation comes to, from its first request on:
/// `then` is carried out if the practice session is the user's, and else
/// nothing changes and the practice session is not found.
pub open spec fn guarded(
    before: StoreState,
    after: StoreState,
    request: StoreRequest,
    then: StoreRequest,
    result: Result<usize, AppError>,
) -> bool {
    request matches StoreRequest::FindOwnedPracticeSession { practice_session_id, user_id }
        && if before.owns(user_id, practice_session_id) {
        performed(
            before,
            after,
            then,
            match result {
                Ok(count) => Ok(StoreReply::Count(count)),
                Err(error) => Err(error),
            },
        )
    } else {
        &&& after == before
        &&& result is Err
        &&& result->Err_0@ == failure(ErrorKind::NotFound, not_found_text(Entity::PracticeSession))
    }
}

/// Runs a guarded operation that stores or removes links against the entity
/// store.
pub(crate) fn run_guarded(
    store: &mut EntityStore,
    stage: Guarded,
    request: StoreRequest,
) -> (result: Result<usize, AppError>)
    requires
        stage is Verifying,
        stage->then is InsertPiecePracticed || stage->then is DeletePiecesPracticed,
        request is FindOwnedPracticeSession,
    ensures
        final(store).wf(),
        guarded(old(store)@, final(store)@, request, stage->then, result),
{
    let verified = store.perform(request);
    let (acting, step) = stage.advance(verified);
    let asked = match step {
        Step::Ask(asked) => asked,
        Step::Done(result) => {
            return result;
        },
    };
    let acted = store.perform(asked);
    let (_, step) = acting.advance(acted);
    match step {
        Step::Done(result) => result,
        Step::Ask(_) => Err(out_of_step()),
    }
}

/// A practice session has one owner: whoever is not that user does not own
/// it.
pub proof fn lemma_one_owner(state: StoreState, practice_session_id: i32, owner: i32, other: i32)
    requires
        state.wf(),
        state.owns(owner, practice_session_id),
        other != owner,
    ensures
        !state.owns(other, practice_session_id),
{
    let sessions = state.practice_sessions;
    let i = choose|i: int|
        0 <= i < sessions.len() && (#[trigger] sessions[i]).practice_session_id
            == practice_session_id && sessions[i].user_id == owner;
    if state.owns(other, practice_session_id) {
        let j = choose|j: int|
            0 <= j < sessions.len() && (#[trigger] sessions[j]).practice_session_id
                == practice_session_id && sessions[j].user_id == other;
        if i < j {
            assert(sessions[i].practice_session_id != sessions[j].practice_session_id);
        } else if j < i {
            assert(sessions[j].practice_session_id != sessions[i].practice_session_id);
        }
    }
}

} // verus!
