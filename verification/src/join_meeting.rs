//! Joining a meeting: a new participant and the link to the meeting are
//! persisted together or not at all, and only for a meeting that exists at
//! the moment of the write.
//!
//! The check that the meeting exists and the two inserts share one
//! transaction, so that the meeting cannot go away between the check and
//! the write.

use crate::entity::User;
use crate::entity::ValidationError;
use crate::ident::Id;
use crate::ledger::Ledger;
use crate::ledger::Session;
use crate::ledger::Trace;
use crate::response::JoinMeetingResponse;
use crate::store::Outcome;
use crate::store::Request;
use crate::store::Response;
use crate::store::Step;
use vstd::prelude::*;

verus! {

/// Why a user could not join a meeting.
#[derive(Debug, PartialEq)]
pub enum JoinMeetingError<E> {
    /// No meeting has the identifier that the user asked to join. Nothing
    /// was written; asking again will not help.
    NonexistentMeeting(Id),
    /// The store failed.
    Database(E),
}

/// Where the workflow stands: which request is under way.
#[derive(Debug, PartialEq)]
pub enum JoinStage<E> {
    /// Opening the transaction.
    Beginning,
    /// Asking whether the meeting exists.
    CheckingMeeting,
    /// Inserting the participant's user row.
    InsertingUser,
    /// Inserting the row that links the participant to the meeting.
    InsertingParticipant,
    /// Committing the two inserts.
    Committing,
    /// Rolling back after the failure kept here.
    RollingBack(E),
}

/// The workflow that makes a new user a participant of a meeting.
#[derive(Debug, PartialEq)]
pub struct JoinMeeting<E> {
    pub user: User,
    pub meeting_id: Id,
    pub stage: JoinStage<E>,
}

/// What the workflow ends with.
pub type JoinOutcome<E> = Outcome<(), JoinMeetingError<E>, E>;

/// The workflow ends with the store's failure `cause`; `rollback_failure`
/// is what the rollback failed with, if it was run and failed.
pub open spec fn failed<M, E>(cause: E, rollback_failure: Option<E>) -> Step<M, JoinOutcome<E>> {
    Step::Finished(Outcome { result: Err(JoinMeetingError::Database(cause)), rollback_failure })
}

impl<E> JoinMeeting<E> {
    /// The request that is under way.
    pub open spec fn pending(self) -> Request {
        match self.stage {
            JoinStage::Beginning => Request::Begin,
            JoinStage::CheckingMeeting => Request::MeetingExists { meeting_id: self.meeting_id },
            JoinStage::InsertingUser => Request::InsertUser(self.user),
            JoinStage::InsertingParticipant => Request::InsertParticipant {
                user_id: self.user.deep_view().id,
                meeting_id: self.meeting_id,
            },
            JoinStage::Committing => Request::Commit,
            JoinStage::RollingBack(_) => Request::Rollback,
        }
    }

    /// The workflow at a later stage, with the same user and meeting.
    pub open spec fn at(self, stage: JoinStage<E>) -> Self {
        JoinMeeting { user: self.user, meeting_id: self.meeting_id, stage }
    }

    /// The workflow continues at `stage` and asks for that stage's request.
    pub open spec fn proceed(self, stage: JoinStage<E>) -> Step<Self, JoinOutcome<E>> {
        Step::Next(self.at(stage), self.at(stage).pending())
    }

    /// How the workflow goes on after `response`.
    ///
    /// Each success leads to the next request in the fixed order begin,
    /// check, user, participant, commit. Where the check answers that there
    /// is no such meeting, the workflow ends at once with
    /// `NonexistentMeeting`, with nothing written and the transaction left
    /// to the caller to drop. A failed insert leads to a rollback, after
    /// which the workflow ends with that insert's failure, whatever the
    /// rollback answered. A failed begin, check or commit ends the workflow
    /// at once. A response that does not answer the request under way is
    /// set aside: the workflow stays where it is and asks for the same
    /// request again.
    pub open spec fn spec_step(self, response: Response<E>) -> Step<Self, JoinOutcome<E>> {
        if !response.answers(self.pending()) {
            Step::Next(self, self.pending())
        } else {
            self.answered(response)
        }
    }

    /// How the workflow goes on after a response that answers the request
    /// under way.
    pub open spec fn answered(self, response: Response<E>) -> Step<Self, JoinOutcome<E>> {
        match self.stage {
            JoinStage::Beginning => match response {
                Response::Failed(e) => failed(e, None),
                _ => self.proceed(JoinStage::CheckingMeeting),
            },
            JoinStage::CheckingMeeting => match response {
                Response::Failed(e) => failed(e, None),
                Response::Exists(true) => self.proceed(JoinStage::InsertingUser),
                _ => Step::Finished(
                    Outcome {
                        result: Err(JoinMeetingError::NonexistentMeeting(self.meeting_id)),
                        rollback_failure: None,
                    },
                ),
            },
            JoinStage::InsertingUser => match response {
                Response::Failed(e) => self.proceed(JoinStage::RollingBack(e)),
                _ => self.proceed(JoinStage::InsertingParticipant),
            },
            JoinStage::InsertingParticipant => match response {
                Response::Failed(e) => self.proceed(JoinStage::RollingBack(e)),
                _ => self.proceed(JoinStage::Committing),
            },
            JoinStage::Committing => match response {
                Response::Failed(e) => failed(e, None),
                _ => Step::Finished(Outcome { result: Ok(()), rollback_failure: None }),
            },
            JoinStage::RollingBack(cause) => match response {
                Response::Failed(e) => failed(cause, Some(e)),
                _ => failed(cause, None),
            },
        }
    }

    /// The workflow as [`JoinMeeting::start`] leaves it.
    pub open spec fn started(user: User, meeting_id: Id) -> Self {
        JoinMeeting { user, meeting_id, stage: JoinStage::Beginning }
    }

    /// The five requests of a run in which nothing fails and the meeting
    /// exists, in their order.
    pub open spec fn plan(user: User, meeting_id: Id) -> Seq<Request> {
        seq![
            Request::Begin,
            Request::MeetingExists { meeting_id },
            Request::InsertUser(user),
            Request::InsertParticipant { user_id: user.deep_view().id, meeting_id },
            Request::Commit,
        ]
    }

    /// The two rows of a new participant, added to `rows`.
    pub open spec fn persisted(user: User, meeting_id: Id, rows: Ledger) -> Ledger {
        rows.with(Request::InsertUser(user)).with(
            Request::InsertParticipant { user_id: user.deep_view().id, meeting_id },
        )
    }

    /// Runs the workflow against the model store: each request under way is
    /// run in `session` and answered by the next of `responses`. The run
    /// stops when the workflow is over, when the responses are used up, or at
    /// a response that does not answer the request under way.
    pub open spec fn run(self, session: Session, responses: Seq<Response<E>>) -> Trace<
        JoinOutcome<E>,
    >
        decreases responses.len(),
    {
        if responses.len() == 0 || !responses[0].answers(self.pending()) {
            Trace::idle(session)
        } else {
            let session = session.after(self.pending(), responses[0]);
            match self.spec_step(responses[0]) {
                Step::Next(workflow, _) => workflow.run(
                    session,
                    responses.drop_first(),
                ).preceded_by(self.pending()),
                Step::Finished(outcome) => Trace {
                    session,
                    ran: seq![self.pending()],
                    outcome: Some(outcome),
                },
            }
        }
    }

    /// Starts the workflow for an already validated user. The first request
    /// opens the transaction.
    pub fn start(user: User, meeting_id: Id) -> (started: (Self, Request))
        ensures
            started.0 == Self::started(user, meeting_id),
            started.1 == started.0.pending(),
    {
        (JoinMeeting { user, meeting_id, stage: JoinStage::Beginning }, Request::Begin)
    }

    /// Validates the name of the one who asks to join `meeting_id` and
    /// starts the workflow for a new user of that name. Nothing is asked of
    /// the store where the name is rejected.
    ///
    /// Beside the workflow and its first request comes the answer to give
    /// once the workflow has ended with success.
    pub fn prepare(name: String, meeting_id: Id) -> (prepared: Result<
        (Self, Request, JoinMeetingResponse),
        ValidationError,
    >)
        ensures
            prepared is Ok <==> name@.len() > 0,
            prepared matches Ok((workflow, request, answer)) ==> {
                &&& workflow.stage is Beginning
                &&& workflow.meeting_id == meeting_id
                &&& request == workflow.pending()
                &&& workflow.user.deep_view().name == name@
                &&& workflow.user.deep_view().id.is_random()
                &&& workflow.user.deep_view().secret_token.is_random()
                &&& answer == (JoinMeetingResponse {
                    id: workflow.user.deep_view().id,
                    secret_token: workflow.user.deep_view().secret_token,
                })
            },
            prepared matches Err(defect) ==> defect == ValidationError::EmptyUserName,
    {
        match User::new(name) {
            Ok(user) => {
                let answer = JoinMeetingResponse::new(&user);
                let (workflow, request) = JoinMeeting::start(user, meeting_id);
                Ok((workflow, request, answer))
            },
            Err(defect) => Err(defect),
        }
    }

    /// Whether `response` is of the kind that answers the request under way.
    pub fn expects(&self, response: &Response<E>) -> (expected: bool)
        ensures
            expected == response.answers(self.pending()),
    {
        match response {
            Response::Failed(_) => true,
            Response::Done => match self.stage {
                JoinStage::CheckingMeeting => false,
                _ => true,
            },
            Response::Exists(_) => match self.stage {
                JoinStage::CheckingMeeting => true,
                _ => false,
            },
            _ => false,
        }
    }

    /// The request that is under way.
    pub fn request(&self) -> (request: Request)
        ensures
            request == self.pending(),
    {
        match &self.stage {
            JoinStage::Beginning => Request::Begin,
            JoinStage::CheckingMeeting => Request::MeetingExists { meeting_id: self.meeting_id },
            JoinStage::InsertingUser => Request::InsertUser(self.user.clone()),
            JoinStage::InsertingParticipant => Request::InsertParticipant {
                user_id: self.user.id(),
                meeting_id: self.meeting_id,
            },
            JoinStage::Committing => Request::Commit,
            JoinStage::RollingBack(_) => Request::Rollback,
        }
    }

    /// Takes the store's answer to the request under way and says how the
    /// workflow goes on.
    pub fn step(self, response: Response<E>) -> (next: Step<Self, JoinOutcome<E>>)
        ensures
            next == self.spec_step(response),
    {
        if !self.expects(&response) {
            let request = self.request();
            return Step::Next(self, request);
        }
        let JoinMeeting { user, meeting_id, stage } = self;
        match stage {
            JoinStage::Beginning => match response {
                Response::Failed(e) => Step::Finished(
                    Outcome { result: Err(JoinMeetingError::Database(e)), rollback_failure: None },
                ),
                _ => Step::Next(
                    JoinMeeting { user, meeting_id, stage: JoinStage::CheckingMeeting },
                    Request::MeetingExists { meeting_id },
                ),
            },
            JoinStage::CheckingMeeting => match response {
                Response::Failed(e) => Step::Finished(
                    Outcome { result: Err(JoinMeetingError::Database(e)), rollback_failure: None },
                ),
                Response::Exists(true) => {
                    let request = Request::InsertUser(user.clone());
                    Step::Next(
                        JoinMeeting { user, meeting_id, stage: JoinStage::InsertingUser },
                        request,
                    )
                },
                _ => Step::Finished(
                    Outcome {
                        result: Err(JoinMeetingError::NonexistentMeeting(meeting_id)),
                        rollback_failure: None,
                    },
                ),
            },
            JoinStage::InsertingUser => match response {
                Response::Failed(e) => Step::Next(
                    JoinMeeting { user, meeting_id, stage: JoinStage::RollingBack(e) },
                    Request::Rollback,
                ),
                _ => {
                    let request = Request::InsertParticipant { user_id: user.id(), meeting_id };
                    Step::Next(
                        JoinMeeting { user, meeting_id, stage: JoinStage::InsertingParticipant },
                        request,
                    )
                },
            },
            JoinStage::InsertingParticipant => match response {
                Response::Failed(e) => Step::Next(
                    JoinMeeting { user, meeting_id, stage: JoinStage::RollingBack(e) },
                    Request::Rollback,
                ),
                _ => Step::Next(
                    JoinMeeting { user, meeting_id, stage: JoinStage::Committing },
                    Request::Commit,
                ),
            },
            JoinStage::Committing => match response {
                Response::Failed(e) => Step::Finished(
                    Outcome { result: Err(JoinMeetingError::Database(e)), rollback_failure: None },
                ),
                _ => Step::Finished(Outcome { result: Ok(()), rollback_failure: None }),
            },
            JoinStage::RollingBack(cause) => match response {
                Response::Failed(e) => Step::Finished(
                    Outcome {
                        result: Err(JoinMeetingError::Database(cause)),
                        rollback_failure: Some(e),
                    },
                ),
                _ => Step::Finished(
                    Outcome {
                        result: Err(JoinMeetingError::Database(cause)),
                        rollback_failure: None,
                    },
                ),
            },
        }
    }
}

/// All or nothing: however the store answers, a run of the workflow on an
/// idle connection leaves durable either exactly the rows that were durable
/// before, or those and the two rows of the new participant. It is the
/// latter if and only if the workflow ends with success.
pub proof fn law_all_or_nothing<E>(
    user: User,
    meeting_id: Id,
    rows: Ledger,
    responses: Seq<Response<E>>,
)
    ensures
        ({
            let trace = JoinMeeting::started(user, meeting_id).run(Session::idle(rows), responses);
            if trace.outcome matches Some(o) && o.result is Ok {
                trace.session == Session::idle(JoinMeeting::<E>::persisted(user, meeting_id, rows))
            } else {
                trace.session.durable == rows
            }
        }),
{
    reveal_with_fuel(JoinMeeting::run, 6);
}

/// A meeting that does not exist is not joined: where the store opens the
/// transaction and answers that no meeting has the identifier, the workflow
/// ends with `NonexistentMeeting` for that identifier. It has run the begin
/// and the check and nothing else, so no user row and no participant row is
/// durable or even staged.
pub proof fn law_nonexistent_meeting_is_not_joined<E>(
    user: User,
    meeting_id: Id,
    rows: Ledger,
    more: Seq<Response<E>>,
)
    ensures
        ({
            let responses = seq![Response::<E>::Done, Response::Exists(false)] + more;
            let trace = JoinMeeting::started(user, meeting_id).run(Session::idle(rows), responses);
            &&& trace.outcome matches Some(o) && o.result == Err::<(), JoinMeetingError<E>>(
                JoinMeetingError::NonexistentMeeting(meeting_id),
            )
            &&& trace.ran == seq![Request::Begin, Request::MeetingExists { meeting_id }]
            &&& trace.session == Session { durable: rows, staged: Some(rows) }
        }),
{
    reveal_with_fuel(JoinMeeting::run, 3);
    let responses = seq![Response::<E>::Done, Response::Exists(false)] + more;
    assert(responses[0] == Response::<E>::Done);
    assert(responses.drop_first()[0] == Response::<E>::Exists(false));
    let trace = JoinMeeting::started(user, meeting_id).run(Session::idle(rows), responses);
    assert(trace.ran =~= seq![Request::Begin, Request::MeetingExists { meeting_id }]);
}

/// Success is owed to a store that runs what it is asked: where the store
/// acknowledges the begin, answers that the meeting exists, and
/// acknowledges the two inserts and the commit, the workflow ends with
/// success, having run exactly these five requests.
pub proof fn law_success_is_owed<E>(
    user: User,
    meeting_id: Id,
    session: Session,
    responses: Seq<Response<E>>,
)
    requires
        responses.len() >= 5,
        responses[1] == Response::<E>::Exists(true),
        forall|i: int| 0 <= i < 5 && i != 1 ==> #[trigger] responses[i] is Done,
    ensures
        ({
            let trace = JoinMeeting::started(user, meeting_id).run(session, responses);
            &&& trace.outcome == Some(
                Outcome::<(), JoinMeetingError<E>, E> { result: Ok(()), rollback_failure: None },
            )
            &&& trace.ran == JoinMeeting::<E>::plan(user, meeting_id)
        }),
{
    reveal_with_fuel(JoinMeeting::run, 6);
    let trace = JoinMeeting::started(user, meeting_id).run(session, responses);
    assert(responses[0] is Done && responses[2] is Done && responses[3] is Done && responses[4]
        is Done);
    assert(trace.ran =~= JoinMeeting::<E>::plan(user, meeting_id));
}

/// The order of the statements is fixed: a run goes through begin, check,
/// user, participant and commit in this order and stops at the first that
/// fails or at the answer that the meeting does not exist. The one request
/// out of this order is a rollback, which comes last, and only after an
/// insert that failed.
pub proof fn law_statement_order_is_fixed<E>(
    user: User,
    meeting_id: Id,
    session: Session,
    responses: Seq<Response<E>>,
)
    ensures
        ({
            let trace = JoinMeeting::started(user, meeting_id).run(session, responses);
            let plan = JoinMeeting::<E>::plan(user, meeting_id);
            &&& trace.ran.len() <= 5
            &&& forall|p: int|
                0 <= p < trace.ran.len() ==> {
                    ||| #[trigger] trace.ran[p] == plan[p]
                    ||| {
                        &&& trace.ran[p] is Rollback
                        &&& p == trace.ran.len() - 1
                        &&& plan[p - 1].is_write()
                        &&& responses[p - 1] is Failed
                    }
                }
        }),
{
    reveal_with_fuel(JoinMeeting::run, 6);
}

/// The check and the write share one transaction: an insert is run only
/// after the begin and after the check has answered, as the second request
/// of the run, that the meeting exists, and neither a commit nor a rollback
/// comes between the check and the insert.
pub proof fn law_writes_follow_the_check<E>(
    user: User,
    meeting_id: Id,
    session: Session,
    responses: Seq<Response<E>>,
    p: int,
)
    requires
        ({
            let trace = JoinMeeting::started(user, meeting_id).run(session, responses);
            0 <= p < trace.ran.len() && trace.ran[p].is_write()
        }),
    ensures
        ({
            let trace = JoinMeeting::started(user, meeting_id).run(session, responses);
            &&& p >= 2
            &&& trace.ran[0] is Begin
            &&& !(responses[0] is Failed)
            &&& trace.ran[1] == Request::MeetingExists { meeting_id }
            &&& responses[1] == Response::<E>::Exists(true)
            &&& forall|q: int|
                0 <= q < p ==> !(#[trigger] trace.ran[q] is Commit) && !(trace.ran[q] is Rollback)
        }),
{
    reveal_with_fuel(JoinMeeting::run, 6);
}

/// The root cause is what is reported: where a run ends with a failure of
/// the store, that failure is the first the store answered with. A rollback
/// that fails afterwards changes nothing of it.
pub proof fn law_root_cause_is_reported<E>(
    user: User,
    meeting_id: Id,
    session: Session,
    responses: Seq<Response<E>>,
)
    ensures
        ({
            let trace = JoinMeeting::started(user, meeting_id).run(session, responses);
            trace.outcome matches Some(o) ==> match o.result {
                Ok(_) => forall|i: int| 0 <= i < 5 ==> !(#[trigger] responses[i] is Failed),
                Err(JoinMeetingError::Database(cause)) => exists|i: int|
                    {
                        &&& 0 <= i < responses.len()
                        &&& #[trigger] responses[i] == Response::Failed(cause)
                        &&& forall|j: int| 0 <= j < i ==> !(#[trigger] responses[j] is Failed)
                    },
                Err(JoinMeetingError::NonexistentMeeting(id)) => id == meeting_id && responses[1]
                    == Response::<E>::Exists(false),
            }
        }),
{
    reveal_with_fuel(JoinMeeting::run, 6);
}

} // verus!
