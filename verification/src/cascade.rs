//! The cascade coordinator: the changes that span the practice sessions and
//! their links, in the order that keeps every reference intact.
//!
//! The coordinator decides and the store acts. Each change is a sequence of
//! requests to the store, and what is asked next depends on the last answer:
//! [`Deletion`] and [`Creation`] take an answer and give the next request or
//! the outcome. [`delete_session_cascade`] and [`create_session_with_links`]
//! run them against the entity store; a caller with a store of its own runs
//! the same steps against that.

use crate::error::{failure, not_found_text, reports, AppError, Entity, ErrorKind};
use crate::models::{NewPracticeSessionData, Piece, PiecePracticedMapping, PracticeSession};
use crate::requests::{
    gave_up, link_refusal, out_of_step, session_refusal, Step, StoreReply, StoreRequest,
};
use crate::selection::{lemma_select_none, lemma_selected_is_member, negate};
use crate::state::{link_of_session, StoreState};
use crate::store::EntityStore;
use vstd::prelude::*;

verus! {

/// How many rows a cascading deletion removed from each table.
#[derive(Debug, Clone, Copy, PartialEq, Eq, Structural)]
pub struct CascadeDeletion {
    pub deleted_session_count: usize,
    pub deleted_link_count: usize,
}

/// The links from a practice session to the given pieces, piece by piece.
pub open spec fn links_to(practice_session_id: i32, pieces: Seq<Piece>) -> Seq<
    PiecePracticedMapping,
> {
    Seq::new(
        pieces.len(),
        |k: int| PiecePracticedMapping { practice_session_id, piece_id: pieces[k].piece_id },
    )
}

/// The store after the given links were stored one after another.
pub open spec fn with_links(state: StoreState, links: Seq<PiecePracticedMapping>) -> StoreState
    decreases links.len(),
{
    if links.len() == 0 {
        state
    } else {
        with_links(state, links.drop_last()).with_link(links.last())
    }
}

/// Whether the store accepts the given links one after another.
pub open spec fn accepts_links(state: StoreState, links: Seq<PiecePracticedMapping>) -> bool
    decreases links.len(),
{
    links.len() == 0 || (accepts_links(state, links.drop_last()) && with_links(
        state,
        links.drop_last(),
    ).accepts_link(links.last()))
}

/// Once the links of a practice session are removed, no link refers to it.
pub proof fn lemma_unlinked(state: StoreState, practice_session_id: i32)
    ensures
        !state.without_links(link_of_session(practice_session_id)).session_in_use(
            practice_session_id,
        ),
        state.without_links(link_of_session(practice_session_id)).link_count(practice_session_id)
            == 0,
{
    let gone = link_of_session(practice_session_id);
    let after = state.without_links(gone);
    assert forall|i: int| 0 <= i < after.pieces_practiced.len() implies !gone(
        #[trigger] after.pieces_practiced[i],
    ) by {
        lemma_selected_is_member(state.pieces_practiced, negate(gone), i);
    }
    lemma_select_none(after.pieces_practiced, gone);
}

/// Where a cascading deletion stands.
#[derive(Debug, PartialEq, Eq)]
pub enum Deletion {
    /// The store was asked whether the practice session is the owner's.
    Verifying { owner_id: i32, practice_session_id: i32 },
    /// The store was asked to remove the links of the practice session.
    Unlinking { owner_id: i32, practice_session_id: i32 },
    /// The store was asked to remove the practice session.
    Removing { deleted_link_count: usize },
    /// Nothing is asked any more.
    Finished,
}

impl Deletion {
    /// How many requests a deletion at this stage still waits for at most.
    pub open spec fn rank(self) -> nat {
        match self {
            Deletion::Verifying { .. } => 3,
            Deletion::Unlinking { .. } => 2,
            Deletion::Removing { .. } => 1,
            Deletion::Finished => 0,
        }
    }

    /// What follows on an answer: ownership is verified first, then the links
    /// go, then the practice session. A failure ends the deletion.
    pub open spec fn follows(
        self,
        reply: Result<StoreReply, AppError>,
        next: Deletion,
        step: Step<CascadeDeletion>,
    ) -> bool {
        match self {
            Deletion::Finished => next == Deletion::Finished && gave_up(step),
            _ => match reply {
                Err(error) => next == Deletion::Finished && step == Step::<
                    CascadeDeletion,
                >::Done(Err(error)),
                Ok(answer) => match (self, answer) {
                    (
                        Deletion::Verifying { owner_id, practice_session_id },
                        StoreReply::Found(_),
                    ) => {
                        &&& next == Deletion::Unlinking { owner_id, practice_session_id }
                        &&& step == Step::<CascadeDeletion>::Ask(
                            StoreRequest::DeletePiecesPracticed {
                                practice_session_id,
                                piece_id: None,
                            },
                        )
                    },
                    (
                        Deletion::Unlinking { owner_id, practice_session_id },
                        StoreReply::Count(deleted_link_count),
                    ) => {
                        &&& next == Deletion::Removing { deleted_link_count }
                        &&& step == Step::<CascadeDeletion>::Ask(
                            StoreRequest::DeletePracticeSession {
                                user_id: owner_id,
                                practice_session_id,
                            },
                        )
                    },
                    (
                        Deletion::Removing { deleted_link_count },
                        StoreReply::Count(deleted_session_count),
                    ) => {
                        &&& next == Deletion::Finished
                        &&& step == Step::Done(
                            Ok::<CascadeDeletion, AppError>(
                                CascadeDeletion { deleted_session_count, deleted_link_count },
                            ),
                        )
                    },
                    _ => next == Deletion::Finished && gave_up(step),
                },
            },
        }
    }

    /// Begins the deletion of a practice session by its owner: the stage to
    /// start from and the first request.
    pub fn begin(owner_id: i32, practice_session_id: i32) -> (start: (Deletion, StoreRequest))
        ensures
            start.0 == (Deletion::Verifying { owner_id, practice_session_id }),
            start.1 == (StoreRequest::FindOwnedPracticeSession {
                practice_session_id,
                user_id: owner_id,
            }),
    {
        (
            Deletion::Verifying { owner_id, practice_session_id },
            StoreRequest::FindOwnedPracticeSession { practice_session_id, user_id: owner_id },
        )
    }

    /// Takes the answer to the last request and gives the stage that follows
    /// and what to do next.
    pub fn advance(self, reply: Result<StoreReply, AppError>) -> (next: (
        Deletion,
        Step<CascadeDeletion>,
    ))
        ensures
            self.follows(reply, next.0, next.1),
            next.1 is Ask ==> next.0.rank() < self.rank(),
    {
        match self {
            Deletion::Finished => (Deletion::Finished, Step::Done(Err(out_of_step()))),
            Deletion::Verifying { owner_id, practice_session_id } => match reply {
                Err(error) => (Deletion::Finished, Step::Done(Err(error))),
                Ok(StoreReply::Found(_)) => (
                    Deletion::Unlinking { owner_id, practice_session_id },
                    Step::Ask(
                        StoreRequest::DeletePiecesPracticed { practice_session_id, piece_id: None },
                    ),
                ),
                Ok(_) => (Deletion::Finished, Step::Done(Err(out_of_step()))),
            },
            Deletion::Unlinking { owner_id, practice_session_id } => match reply {
                Err(error) => (Deletion::Finished, Step::Done(Err(error))),
                Ok(StoreReply::Count(deleted_link_count)) => (
                    Deletion::Removing { deleted_link_count },
                    Step::Ask(
                        StoreRequest::DeletePracticeSession {
                            user_id: owner_id,
                            practice_session_id,
                        },
                    ),
                ),
                Ok(_) => (Deletion::Finished, Step::Done(Err(out_of_step()))),
            },
            Deletion::Removing { deleted_link_count } => match reply {
                Err(error) => (Deletion::Finished, Step::Done(Err(error))),
                Ok(StoreReply::Count(deleted_session_count)) => (
                    Deletion::Finished,
                    Step::Done(Ok(CascadeDeletion { deleted_session_count, deleted_link_count })),
                ),
                Ok(_) => (Deletion::Finished, Step::Done(Err(out_of_step()))),
            },
        }
    }
}

/// What a cascading deletion leaves of the store: the links of the practice
/// session go first, then the practice session itself.
pub open spec fn without_session_and_links(
    state: StoreState,
    owner_id: i32,
    practice_session_id: i32,
) -> StoreState {
    state.without_links(link_of_session(practice_session_id)).without_practice_session(
        owner_id,
        practice_session_id,
    )
}

/// What deleting a practice session with its links comes to: `after` is
/// the store that it leaves of `before`, `result` is what it returns.
pub open spec fn session_deletion(
    before: StoreState,
    after: StoreState,
    owner_id: i32,
    practice_session_id: i32,
    result: Result<CascadeDeletion, AppError>,
) -> bool {
    match result {
        Ok(deletion) => {
            &&& before.owns(owner_id, practice_session_id)
            &&& deletion.deleted_session_count == 1
            &&& deletion.deleted_link_count == before.link_count(practice_session_id)
            &&& after == without_session_and_links(before, owner_id, practice_session_id)
        },
        Err(error) => {
            &&& !before.owns(owner_id, practice_session_id)
            &&& after == before
            &&& error@ == failure(ErrorKind::NotFound, not_found_text(Entity::PracticeSession))
        },
    }
}

/// What holds while a deletion waits for the answer to `request`: how far
/// the store has come from `before`, stage by stage.
spec fn deletion_awaits(
    before: StoreState,
    current: StoreState,
    stage: Deletion,
    request: StoreRequest,
    owner_id: i32,
    practice_session_id: i32,
) -> bool {
    match stage {
        Deletion::Verifying { owner_id: owner, practice_session_id: id } => {
            &&& owner == owner_id
            &&& id == practice_session_id
            &&& current == before
            &&& request == (StoreRequest::FindOwnedPracticeSession {
                practice_session_id,
                user_id: owner_id,
            })
        },
        Deletion::Unlinking { owner_id: owner, practice_session_id: id } => {
            &&& owner == owner_id
            &&& id == practice_session_id
            &&& before.owns(owner_id, practice_session_id)
            &&& current == before
            &&& request == (StoreRequest::DeletePiecesPracticed {
                practice_session_id,
                piece_id: None,
            })
        },
        Deletion::Removing { deleted_link_count } => {
            &&& before.owns(owner_id, practice_session_id)
            &&& deleted_link_count == before.link_count(practice_session_id)
            &&& current == before.without_links(link_of_session(practice_session_id))
            &&& request == (StoreRequest::DeletePracticeSession {
                user_id: owner_id,
                practice_session_id,
            })
        },
        Deletion::Finished => false,
    }
}

/// Deletes a practice session of its owner together with its links, the
/// links first. A practice session that does not exist or is someone else's
/// is not found, and nothing is deleted.
pub fn delete_session_cascade(
    store: &mut EntityStore,
    owner_id: i32,
    practice_session_id: i32,
) -> (result: Result<CascadeDeletion, AppError>)
    ensures
        final(store).wf(),
        session_deletion(old(store)@, final(store)@, owner_id, practice_session_id, result),
{
    proof {
        use_type_invariant(&*store);
    }
    let (first, asked) = Deletion::begin(owner_id, practice_session_id);
    let mut stage = first;
    let mut request = asked;
    loop
        invariant
            store.wf(),
            deletion_awaits(old(store)@, store@, stage, request, owner_id, practice_session_id),
        decreases stage.rank(),
    {
        let reply = store.perform(request);
        proof {
            lemma_unlinked(old(store)@, practice_session_id);
        }
        let (next, step) = stage.advance(reply);
        match step {
            Step::Ask(asked) => {
                stage = next;
                request = asked;
            },
            Step::Done(result) => {
                return result;
            },
        }
    }
}

/// Where the creation of a practice session with its links stands.
#[derive(Debug, PartialEq, Eq)]
pub enum Creation {
    /// The store was asked to store the practice session; `pieces` are the
    /// ids of the pieces to link to it.
    Inserting { pieces: Vec<i32> },
    /// The practice session is stored, and so are the first `made` of
    /// `links`; the store was asked to store the next one.
    Linking { session: PracticeSession, links: Vec<PiecePracticedMapping>, made: usize },
    /// Nothing is asked any more.
    Finished,
}

/// The links from a practice session to the pieces with the given ids.
pub open spec fn links_from(practice_session_id: i32, pieces: Seq<i32>) -> Seq<
    PiecePracticedMapping,
> {
    Seq::new(
        pieces.len(),
        |k: int| PiecePracticedMapping { practice_session_id, piece_id: pieces[k] },
    )
}

/// The ids of the given pieces, piece by piece.
pub open spec fn piece_ids(pieces: Seq<Piece>) -> Seq<i32> {
    Seq::new(pieces.len(), |k: int| pieces[k].piece_id)
}

fn ids_of(pieces: &Vec<Piece>) -> (ids: Vec<i32>)
    ensures
        ids@ == piece_ids(pieces@),
{
    let mut ids: Vec<i32> = Vec::new();
    let mut i: usize = 0;
    while i < pieces.len()
        invariant
            i <= pieces.len(),
            ids@ == piece_ids(pieces@).take(i as int),
        decreases pieces.len() - i,
    {
        proof {
            assert(piece_ids(pieces@).take(i + 1) =~= piece_ids(pieces@).take(i as int).push(
                pieces@[i as int].piece_id,
            ));
        }
        ids.push(pieces[i].piece_id);
        i += 1;
    }
    proof {
        assert(piece_ids(pieces@).take(i as int) =~= piece_ids(pieces@));
    }
    ids
}

fn links_of(practice_session_id: i32, pieces: &Vec<i32>) -> (links: Vec<PiecePracticedMapping>)
    ensures
        links@ == links_from(practice_session_id, pieces@),
{
    let mut links: Vec<PiecePracticedMapping> = Vec::new();
    let mut i: usize = 0;
    while i < pieces.len()
        invariant
            i <= pieces.len(),
            links@ == links_from(practice_session_id, pieces@).take(i as int),
        decreases pieces.len() - i,
    {
        let link = PiecePracticedMapping { practice_session_id, piece_id: pieces[i] };
        proof {
            assert(links_from(practice_session_id, pieces@).take(i + 1) =~= links_from(
                practice_session_id,
                pieces@,
            ).take(i as int).push(link));
        }
        links.push(link);
        i += 1;
    }
    proof {
        assert(links_from(practice_session_id, pieces@).take(i as int) =~= links_from(
            practice_session_id,
            pieces@,
        ));
    }
    links
}

impl Creation {
    /// How many requests a creation at this stage still waits for at most.
    pub open spec fn rank(self) -> nat {
        match self {
            Creation::Inserting { pieces } => pieces@.len() + 2,
            Creation::Linking { links, made, .. } => if made < links@.len() {
                (links@.len() - made) as nat
            } else {
                1
            },
            Creation::Finished => 0,
        }
    }

    /// What follows on an answer: the practice session is stored first, then
    /// one link after the other. A failure ends the creation; what was stored
    /// before stays.
    pub open spec fn follows(
        self,
        reply: Result<StoreReply, AppError>,
        next: Creation,
        step: Step<(PracticeSession, Vec<PiecePracticedMapping>)>,
    ) -> bool {
        match self {
            Creation::Finished => next == Creation::Finished && gave_up(step),
            _ => match reply {
                Err(error) => next == Creation::Finished && step == Step::<
                    (PracticeSession, Vec<PiecePracticedMapping>),
                >::Done(Err(error)),
                Ok(answer) => match (self, answer) {
                    (Creation::Inserting { pieces }, StoreReply::Inserted(session)) => {
                        let links = links_from(session.practice_session_id, pieces@);
                        if pieces@.len() == 0 {
                            &&& next == Creation::Finished
                            &&& step matches Step::Done(Ok((stored, made)))
                            &&& stored == session
                            &&& made@ == links
                        } else {
                            &&& next matches Creation::Linking { session: stored, links: all, made }
                            &&& stored == session
                            &&& all@ == links
                            &&& made == 0
                            &&& step == Step::<(PracticeSession, Vec<PiecePracticedMapping>)>::Ask(
                                StoreRequest::InsertPiecePracticed(links[0]),
                            )
                        }
                    },
                    (Creation::Linking { session, links, made }, StoreReply::Count(_)) => {
                        if made + 1 < links@.len() {
                            &&& next == Creation::Linking {
                                session,
                                links,
                                made: (made + 1) as usize,
                            }
                            &&& step == Step::<(PracticeSession, Vec<PiecePracticedMapping>)>::Ask(
                                StoreRequest::InsertPiecePracticed(links@[made + 1]),
                            )
                        } else {
                            &&& next == Creation::Finished
                            &&& step == Step::Done(
                                Ok::<(PracticeSession, Vec<PiecePracticedMapping>), AppError>(
                                    (session, links),
                                ),
                            )
                        }
                    },
                    _ => next == Creation::Finished && gave_up(step),
                },
            },
        }
    }

    /// Begins the creation of a practice session for its owner: the stage to
    /// start from and the first request. A duration that does not fit the
    /// column is refused before anything is asked.
    pub fn begin(owner_id: i32, data: &NewPracticeSessionData) -> (start: Result<
        (Creation, StoreRequest),
        AppError,
    >)
        ensures
            match start {
                Ok((stage, request)) => {
                    &&& data.duration_mins <= i32::MAX
                    &&& stage matches Creation::Inserting { pieces }
                    &&& pieces@ == piece_ids(data.pieces_practiced@)
                    &&& request matches StoreRequest::InsertPracticeSession(record)
                    &&& record.start_datetime == data.start_datetime
                    &&& record.duration_mins == data.duration_mins
                    &&& record.instrument@ == data.instrument@
                    &&& record.user_id == owner_id
                },
                Err(error) => data.duration_mins > i32::MAX && error@ == failure(
                    ErrorKind::ClientError,
                    "Invalid practice session duration"@,
                ),
            },
    {
        match data.make_insertable(owner_id) {
            Ok(record) => Ok(
                (
                    Creation::Inserting { pieces: ids_of(&data.pieces_practiced) },
                    StoreRequest::InsertPracticeSession(record),
                ),
            ),
            Err(error) => Err(error),
        }
    }

    /// Takes the answer to the last request and gives the stage that follows
    /// and what to do next.
    pub fn advance(self, reply: Result<StoreReply, AppError>) -> (next: (
        Creation,
        Step<(PracticeSession, Vec<PiecePracticedMapping>)>,
    ))
        ensures
            self.follows(reply, next.0, next.1),
            next.1 is Ask ==> next.0.rank() < self.rank(),
    {
        match self {
            Creation::Finished => (Creation::Finished, Step::Done(Err(out_of_step()))),
            Creation::Inserting { pieces } => match reply {
                Err(error) => (Creation::Finished, Step::Done(Err(error))),
                Ok(StoreReply::Inserted(session)) => {
                    let links = links_of(session.practice_session_id, &pieces);
                    if links.len() == 0 {
                        (Creation::Finished, Step::Done(Ok((session, links))))
                    } else {
                        let first = links[0];
                        (
                            Creation::Linking { session, links, made: 0 },
                            Step::Ask(StoreRequest::InsertPiecePracticed(first)),
                        )
                    }
                },
                Ok(_) => (Creation::Finished, Step::Done(Err(out_of_step()))),
            },
            Creation::Linking { session, links, made } => match reply {
                Err(error) => (Creation::Finished, Step::Done(Err(error))),
                Ok(StoreReply::Count(_)) => {
                    if made < links.len() && made + 1 < links.len() {
                        let following = links[made + 1];
                        (
                            Creation::Linking { session, links, made: made + 1 },
                            Step::Ask(StoreRequest::InsertPiecePracticed(following)),
                        )
                    } else {
                        (Creation::Finished, Step::Done(Ok((session, links))))
                    }
                },
                Ok(_) => (Creation::Finished, Step::Done(Err(out_of_step()))),
            },
        }
    }
}

/// What creating a practice session with its links comes to: `after` is the
/// store that it leaves of `before`, `result` is what it returns.
pub open spec fn session_creation(
    before: StoreState,
    after: StoreState,
    owner_id: i32,
    data: &NewPracticeSessionData,
    result: Result<(PracticeSession, Vec<PiecePracticedMapping>), AppError>,
) -> bool {
    let duration = data.duration_mins as i32;
    let links = links_to(before.next_practice_session_id as i32, data.pieces_practiced@);
    let started = before.with_practice_session(
        data.start_datetime,
        duration,
        data.instrument@,
        owner_id,
    );
    match result {
        Ok((session, made)) => {
            &&& data.duration_mins <= i32::MAX
            &&& before.accepts_practice_session(data.start_datetime, duration, owner_id)
            &&& session@ == before.new_practice_session(
                data.start_datetime,
                duration,
                data.instrument@,
                owner_id,
            )
            &&& made@ == links
            &&& accepts_links(started, links)
            &&& after == with_links(started, links)
        },
        Err(error) => if data.duration_mins > i32::MAX {
            &&& after == before
            &&& error@ == failure(ErrorKind::ClientError, "Invalid practice session duration"@)
        } else if !before.accepts_practice_session(data.start_datetime, duration, owner_id) {
            &&& after == before
            &&& reports(error@, session_refusal(before, owner_id, data.start_datetime))
        } else {
            exists|n: int|
                {
                    &&& 0 <= n < links.len()
                    &&& accepts_links(started, #[trigger] links.take(n))
                    &&& !with_links(started, links.take(n)).accepts_link(links[n])
                    &&& after == with_links(started, links.take(n))
                    &&& reports(
                        error@,
                        link_refusal(with_links(started, links.take(n)), links[n]),
                    )
                }
        },
    }
}

/// What holds while a creation waits for the answer to `request`: how far
/// the store has come from `before`, stage by stage.
spec fn creation_awaits(
    before: StoreState,
    current: StoreState,
    stage: Creation,
    request: StoreRequest,
    owner_id: i32,
    data: &NewPracticeSessionData,
) -> bool {
    let duration = data.duration_mins as i32;
    let links = links_to(before.next_practice_session_id as i32, data.pieces_practiced@);
    let started = before.with_practice_session(
        data.start_datetime,
        duration,
        data.instrument@,
        owner_id,
    );
    match stage {
        Creation::Inserting { pieces } => {
            &&& data.duration_mins <= i32::MAX
            &&& pieces@ == piece_ids(data.pieces_practiced@)
            &&& current == before
            &&& request matches StoreRequest::InsertPracticeSession(record)
            &&& record.start_datetime == data.start_datetime
            &&& record.duration_mins == data.duration_mins
            &&& record.instrument@ == data.instrument@
            &&& record.user_id == owner_id
        },
        Creation::Linking { session, links: all, made } => {
            &&& data.duration_mins <= i32::MAX
            &&& before.accepts_practice_session(data.start_datetime, duration, owner_id)
            &&& session@ == before.new_practice_session(
                data.start_datetime,
                duration,
                data.instrument@,
                owner_id,
            )
            &&& all@ == links
            &&& made < links.len()
            &&& accepts_links(started, links.take(made as int))
            &&& current == with_links(started, links.take(made as int))
            &&& request == StoreRequest::InsertPiecePracticed(links[made as int])
        },
        Creation::Finished => false,
    }
}

/// Stores a practice session for its owner, then one link for each of its
/// pieces, in their order. The first link that the store refuses ends the
/// operation with its failure; the practice session and the links stored
/// before it stay.
pub fn create_session_with_links(
    store: &mut EntityStore,
    owner_id: i32,
    data: &NewPracticeSessionData,
) -> (result: Result<(PracticeSession, Vec<PiecePracticedMapping>), AppError>)
    ensures
        final(store).wf(),
        session_creation(old(store)@, final(store)@, owner_id, data, result),
{
    proof {
        use_type_invariant(&*store);
    }
    let (first, asked) = match Creation::begin(owner_id, data) {
        Ok(start) => start,
        Err(error) => {
            return Err(error);
        },
    };
    let mut stage = first;
    let mut request = asked;
    let ghost links = links_to(
        old(store)@.next_practice_session_id as i32,
        data.pieces_practiced@,
    );
    let ghost started = old(store)@.with_practice_session(
        data.start_datetime,
        data.duration_mins as i32,
        data.instrument@,
        owner_id,
    );
    loop
        invariant
            store.wf(),
            links == links_to(old(store)@.next_practice_session_id as i32, data.pieces_practiced@),
            started == old(store)@.with_practice_session(
                data.start_datetime,
                data.duration_mins as i32,
                data.instrument@,
                owner_id,
            ),
            creation_awaits(old(store)@, store@, stage, request, owner_id, data),
        decreases stage.rank(),
    {
        let ghost waiting = stage;
        let ghost current = store@;
        let reply = store.perform(request);
        let ghost answer = reply;
        let (next, step) = stage.advance(reply);
        proof {
            match waiting {
                Creation::Inserting { pieces } => {
                    if let Ok(StoreReply::Inserted(session)) = answer {
                        assert(links_from(session.practice_session_id, pieces@) =~= links);
                        assert(links.take(0) =~= Seq::empty());
                    }
                },
                Creation::Linking { made, .. } => {
                    let n = made as int;
                    if answer is Ok {
                        assert(links.take(n + 1).drop_last() =~= links.take(n));
                        assert(links.take(n + 1).last() == links[n]);
                        if n + 1 == links.len() {
                            assert(links.take(n + 1) =~= links);
                        }
                    } else {
                        assert(accepts_links(started, links.take(n)));
                        assert(!with_links(started, links.take(n)).accepts_link(links[n]));
                    }
                },
                Creation::Finished => {},
            }
        }
        match step {
            Step::Ask(asked) => {
                stage = next;
                request = asked;
            },
            Step::Done(result) => {
                return result;
            },
        }
    }
}

} // verus!
