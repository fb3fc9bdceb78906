//! Creating a meeting: the creator, the meeting and the link between them are
//! persisted together or not at all.

use crate::entity::Meeting;
use crate::entity::meeting_defect;
use crate::entity::User;
use crate::entity::ValidationError;
use crate::ledger::Ledger;
use crate::ledger::Session;
use crate::ledger::Trace;
use crate::response::CreatedMeeting;
use crate::store::Outcome;
use crate::store::Request;
use crate::store::Response;
use crate::store::Step;
use vstd::prelude::*;

verus! {

/// Where the workflow stands: which request is under way.
#[derive(Debug, PartialEq)]
pub enum CreateStage<E> {
    /// Opening the transaction.
    Beginning,
    /// Inserting the creator's user row.
    InsertingUser,
    /// Inserting the meeting row.
    InsertingMeeting,
    /// Inserting the row that links the creator to the meeting.
    InsertingParticipant,
    /// Committing the three inserts.
    Committing,
    /// Rolling back after the failure kept here.
    RollingBack(E),
}

/// The workflow that persists a new meeting together with its creator.
#[derive(Debug, PartialEq)]
pub struct CreateMeeting<E> {
    pub user: User,
    pub meeting: Meeting,
    pub stage: CreateStage<E>,
}

impl<E> CreateMeeting<E> {
    /// The request that is under way.
    pub open spec fn pending(self) -> Request {
        match self.stage {
            CreateStage::Beginning => Request::Begin,
            CreateStage::InsertingUser => Request::InsertUser(self.user),
            CreateStage::InsertingMeeting => Request::InsertMeeting(self.meeting),
            CreateStage::InsertingParticipant => Request::InsertParticipant {
                user_id: self.user.deep_view().id,
                meeting_id: self.meeting.deep_view().id,
            },
            CreateStage::Committing => Request::Commit,
            CreateStage::RollingBack(_) => Request::Rollback,
        }
    }

    /// The workflow at a later stage, with the same user and meeting.
    pub open spec fn at(self, stage: CreateStage<E>) -> Self {
        CreateMeeting { user: self.user, meeting: self.meeting, stage }
    }

    /// The workflow continues at `stage` and asks for that stage's request.
    pub open spec fn proceed(self, stage: CreateStage<E>) -> Step<Self, Outcome<(), E, E>> {
        Step::Next(self.at(stage), self.at(stage).pending())
    }

    /// How the workflow goes on after `response`.
    ///
    /// Each success leads to the next request in the fixed order begin, user,
    /// meeting, participant, commit. A failed insert leads to a rollback,
    /// after which the workflow ends with that insert's failure, whatever the
    /// rollback answered. A failed begin or commit ends the workflow at once.
    /// A response that does not answer the request under way is set aside:
    /// the workflow stays where it is and asks for the same request again.
    pub open spec fn spec_step(self, response: Response<E>) -> Step<Self, Outcome<(), E, E>> {
        if !response.answers(self.pending()) {
            Step::Next(self, self.pending())
        } else {
            self.answered(response)
        }
    }

    /// How the workflow goes on after a response that answers the request
    /// under way.
    pub open spec fn answered(self, response: Response<E>) -> Step<Self, Outcome<(), E, E>> {
        match self.stage {
            CreateStage::Beginning => match response {
                Response::Failed(e) => failed(e, None),
                _ => self.proceed(CreateStage::InsertingUser),
            },
            CreateStage::InsertingUser => match response {
                Response::Failed(e) => self.proceed(CreateStage::RollingBack(e)),
                _ => self.proceed(CreateStage::InsertingMeeting),
            },
            CreateStage::InsertingMeeting => match response {
                Response::Failed(e) => self.proceed(CreateStage::RollingBack(e)),
                _ => self.proceed(CreateStage::InsertingParticipant),
            },
            CreateStage::InsertingParticipant => match response {
                Response::Failed(e) => self.proceed(CreateStage::RollingBack(e)),
                _ => self.proceed(CreateStage::Committing),
            },
            CreateStage::Committing => match response {
                Response::Failed(e) => failed(e, None),
                _ => Step::Finished(Outcome { result: Ok(()), rollback_failure: None }),
            },
            CreateStage::RollingBack(cause) => match response {
                Response::Failed(e) => failed(cause, Some(e)),
                _ => failed(cause, None),
            },
        }
    }

    /// Starts the workflow for an already validated user and meeting. The
    /// first request opens the transaction.
    pub fn start(user: User, meeting: Meeting) -> (started: (Self, Request))
        ensures
            started.0 == (CreateMeeting { user, meeting, stage: CreateStage::<E>::Beginning }),
            started.1 == started.0.pending(),
    {
        (CreateMeeting { user, meeting, stage: CreateStage::Beginning }, Request::Begin)
    }

    /// Validates what a request to create a meeting holds and starts the
    /// workflow: the creator is a new user named `user_name`, and the
    /// meeting is created now by that user. The user's name is looked at
    /// first, then the meeting's name, then its description. Nothing is
    /// asked of the store where one of them is rejected.
    ///
    /// Beside the workflow and its first request comes the answer to give
    /// once the workflow has ended with success.
    pub fn prepare(
        user_name: String,
        meeting_name: String,
        meeting_description: Option<String>,
    ) -> (prepared: Result<(Self, Request, CreatedMeeting), ValidationError>)
        ensures
            prepared is Ok <==> user_name@.len() > 0 && meeting_defect(
                meeting_name@,
                meeting_description.deep_view(),
            ) is None,
            prepared matches Ok((workflow, request, answer)) ==> {
                &&& workflow.stage is Beginning
                &&& request == workflow.pending()
                &&& workflow.user.deep_view().name == user_name@
                &&& workflow.user.deep_view().id.is_random()
                &&& workflow.user.deep_view().secret_token.is_random()
                &&& workflow.meeting.deep_view().name == meeting_name@
                &&& workflow.meeting.deep_view().description == meeting_description.deep_view()
                &&& workflow.meeting.deep_view().user_id == workflow.user.deep_view().id
                &&& workflow.meeting.deep_view().id.is_random()
                &&& workflow.meeting.deep_view().created_at.has_64_bit_seconds()
                &&& workflow.meeting.deep_view().expiry_follows_creation()
                &&& answer == (CreatedMeeting {
                    user_id: workflow.user.deep_view().id,
                    user_secret_token: workflow.user.deep_view().secret_token,
                    meeting_id: workflow.meeting.deep_view().id,
                })
            },
            prepared matches Err(defect) ==> defect == if user_name@.len() == 0 {
                ValidationError::EmptyUserName
            } else {
                meeting_defect(meeting_name@, meeting_description.deep_view())->0
            },
    {
        let user = match User::new(user_name) {
            Ok(user) => user,
            Err(defect) => {
                return Err(defect);
            },
        };
        let meeting = match Meeting::new(meeting_name, meeting_description, user.id()) {
            Ok(meeting) => meeting,
            Err(defect) => {
                return Err(defect);
            },
        };
        let answer = CreatedMeeting::new(&user, &meeting);
        let (workflow, request) = CreateMeeting::start(user, meeting);
        Ok((workflow, request, answer))
    }

    /// Whether `response` is of the kind that answers the request under way.
    pub fn expects(&self, response: &Response<E>) -> (expected: bool)
        ensures
            expected == response.answers(self.pending()),
    {
        match response {
            Response::Failed(_) => true,
            Response::Done => true,
            _ => false,
        }
    }

    /// The request that is under way.
    pub fn request(&self) -> (request: Request)
        ensures
            request == self.pending(),
    {
        match &self.stage {
            CreateStage::Beginning => Request::Begin,
            CreateStage::InsertingUser => Request::InsertUser(self.user.clone()),
            CreateStage::InsertingMeeting => Request::InsertMeeting(self.meeting.clone()),
            CreateStage::InsertingParticipant => Request::InsertParticipant {
                user_id: self.user.id(),
                meeting_id: self.meeting.id(),
            },
            CreateStage::Committing => Request::Commit,
            CreateStage::RollingBack(_) => Request::Rollback,
        }
    }

    /// Takes the store's answer to the request under way and says how the
    /// workflow goes on.
    pub fn step(self, response: Response<E>) -> (next: Step<Self, Outcome<(), E, E>>)
        ensures
            next == self.spec_step(response),
    {
        if !self.expects(&response) {
            let request = self.request();
            return Step::Next(self, request);
        }
        let CreateMeeting { user, meeting, stage } = self;
        match stage {
            CreateStage::Beginning => match response {
                Response::Failed(e) => Step::Finished(
                    Outcome { result: Err(e), rollback_failure: None },
                ),
                _ => {
                    let request = Request::InsertUser(user.clone());
                    Step::Next(
                        CreateMeeting { user, meeting, stage: CreateStage::InsertingUser },
                        request,
                    )
                },
            },
            CreateStage::InsertingUser => match response {
                Response::Failed(e) => Step::Next(
                    CreateMeeting { user, meeting, stage: CreateStage::RollingBack(e) },
                    Request::Rollback,
                ),
                _ => {
                    let request = Request::InsertMeeting(meeting.clone());
                    Step::Next(
                        CreateMeeting { user, meeting, stage: CreateStage::InsertingMeeting },
                        request,
                    )
                },
            },
            CreateStage::InsertingMeeting => match response {
                Response::Failed(e) => Step::Next(
                    CreateMeeting { user, meeting, stage: CreateStage::RollingBack(e) },
                    Request::Rollback,
                ),
                _ => {
                    let request = Request::InsertParticipant {
                        user_id: user.id(),
                        meeting_id: meeting.id(),
                    };
                    Step::Next(
                        CreateMeeting { user, meeting, stage: CreateStage::InsertingParticipant },
                        request,
                    )
                },
            },
            CreateStage::InsertingParticipant => match response {
                Response::Failed(e) => Step::Next(
                    CreateMeeting { user, meeting, stage: CreateStage::RollingBack(e) },
                    Request::Rollback,
                ),
                _ => Step::Next(
                    CreateMeeting { user, meeting, stage: CreateStage::Committing },
                    Request::Commit,
                ),
            },
            CreateStage::Committing => match response {
                Response::Failed(e) => Step::Finished(
                    Outcome { result: Err(e), rollback_failure: None },
                ),
                _ => Step::Finished(Outcome { result: Ok(()), rollback_failure: None }),
            },
            CreateStage::RollingBack(cause) => match response {
                Response::Failed(e) => Step::Finished(
                    Outcome { result: Err(cause), rollback_failure: Some(e) },
                ),
                _ => Step::Finished(Outcome { result: Err(cause), rollback_failure: None }),
            },
        }
    }
}

impl<E> CreateMeeting<E> {
    /// The workflow as [`CreateMeeting::start`] leaves it.
    pub open spec fn started(user: User, meeting: Meeting) -> Self {
        CreateMeeting { user, meeting, stage: CreateStage::Beginning }
    }

    /// The three rows of a new meeting, added to `rows`.
    pub open spec fn persisted(user: User, meeting: Meeting, rows: Ledger) -> Ledger {
        rows.with(Request::InsertUser(user)).with(Request::InsertMeeting(meeting)).with(
            Request::InsertParticipant {
                user_id: user.deep_view().id,
                meeting_id: meeting.deep_view().id,
            },
        )
    }

    /// The five requests of a run in which nothing fails, in their order.
    pub open spec fn plan(user: User, meeting: Meeting) -> Seq<Request> {
        seq![
            Request::Begin,
            Request::InsertUser(user),
            Request::InsertMeeting(meeting),
            Request::InsertParticipant {
                user_id: user.deep_view().id,
                meeting_id: meeting.deep_view().id,
            },
            Request::Commit,
        ]
    }

    /// Runs the workflow against the model store: each request under way is
    /// run in `session` and answered by the next of `responses`. The run
    /// stops when the workflow is over, when the responses are used up, or at
    /// a response that does not answer the request under way.
    pub open spec fn run(self, session: Session, responses: Seq<Response<E>>) -> Trace<
        Outcome<(), E, E>,
    >
        decreases responses.len(),
    {
        if responses.len() == 0 || !responses[0].answers(self.pending()) {
            Trace::idle(session)
        } else {
            let session = session.after(self.pending(), responses[0]);
            match self.spec_step(responses[0]) {
                Step::Next(workflow, _) => workflow.run(
                    session,
                    responses.drop_first(),
                ).preceded_by(self.pending()),
                Step::Finished(outcome) => Trace {
                    session,
                    ran: seq![self.pending()],
                    outcome: Some(outcome),
                },
            }
        }
    }
}

/// All or nothing: however the store answers, a run of the workflow on an
/// idle connection leaves durable either exactly the rows that were durable
/// before, or those and the three rows of the new meeting. It is the latter
/// if and only if the workflow ends with success. No transaction stays open
/// once the workflow is over.
pub proof fn law_all_or_nothing<E>(
    user: User,
    meeting: Meeting,
    rows: Ledger,
    responses: Seq<Response<E>>,
)
    ensures
        ({
            let trace = CreateMeeting::started(user, meeting).run(Session::idle(rows), responses);
            &&& trace.outcome is Some ==> trace.session.staged is None
            &&& if trace.outcome matches Some(o) && o.result is Ok {
                trace.session.durable == CreateMeeting::<E>::persisted(user, meeting, rows)
            } else {
                trace.session.durable == rows
            }
        }),
{
    reveal_with_fuel(CreateMeeting::run, 6);
}

/// The root cause is what is reported: where a run ends with an error, that
/// error is the first failure the store answered with. A rollback that fails
/// afterwards changes nothing of it. Where a run ends with success, the
/// store failed nothing.
pub proof fn law_root_cause_is_reported<E>(
    user: User,
    meeting: Meeting,
    session: Session,
    responses: Seq<Response<E>>,
)
    ensures
        ({
            let trace = CreateMeeting::started(user, meeting).run(session, responses);
            trace.outcome matches Some(o) ==> match o.result {
                Ok(_) => forall|i: int| 0 <= i < 5 ==> !(#[trigger] responses[i] is Failed),
                Err(cause) => exists|i: int|
                    {
                        &&& 0 <= i < responses.len()
                        &&& #[trigger] responses[i] == Response::Failed(cause)
                        &&& forall|j: int| 0 <= j < i ==> !(#[trigger] responses[j] is Failed)
                    },
            }
        }),
{
    reveal_with_fuel(CreateMeeting::run, 6);
}

/// Success is owed to a store that runs what it is asked: where the store
/// acknowledges the begin, the three inserts and the commit, the workflow
/// ends with success, having run exactly these five requests.
pub proof fn law_success_is_owed<E>(
    user: User,
    meeting: Meeting,
    session: Session,
    responses: Seq<Response<E>>,
)
    requires
        responses.len() >= 5,
        forall|i: int| 0 <= i < 5 ==> #[trigger] responses[i] is Done,
    ensures
        ({
            let trace = CreateMeeting::started(user, meeting).run(session, responses);
            &&& trace.outcome == Some(Outcome::<(), E, E> { result: Ok(()), rollback_failure: None })
            &&& trace.ran == CreateMeeting::<E>::plan(user, meeting)
        }),
{
    reveal_with_fuel(CreateMeeting::run, 6);
    let trace = CreateMeeting::started(user, meeting).run(session, responses);
    assert(responses[0] is Done && responses[1] is Done && responses[2] is Done && responses[3]
        is Done && responses[4] is Done);
    assert(trace.ran =~= CreateMeeting::<E>::plan(user, meeting));
}

/// The order of the statements is fixed: a run goes through begin, user,
/// meeting, participant and commit in this order and stops at the first
/// that fails. The one request out of this order is a rollback, which comes
/// last, and only after an insert that failed.
pub proof fn law_statement_order_is_fixed<E>(
    user: User,
    meeting: Meeting,
    session: Session,
    responses: Seq<Response<E>>,
)
    ensures
        ({
            let trace = CreateMeeting::started(user, meeting).run(session, responses);
            let plan = CreateMeeting::<E>::plan(user, meeting);
            &&& trace.ran.len() <= 5
            &&& forall|p: int|
                0 <= p < trace.ran.len() ==> {
                    ||| #[trigger] trace.ran[p] == plan[p]
                    ||| {
                        &&& trace.ran[p] is Rollback
                        &&& p == trace.ran.len() - 1
                        &&& plan[p - 1].is_write()
                        &&& responses[p - 1] is Failed
                    }
                }
        }),
{
    reveal_with_fuel(CreateMeeting::run, 6);
}

/// A failed link leaves nothing behind: where the store runs the begin and
/// the inserts of the user and of the meeting, and fails the insert of the
/// participant row, the workflow asks for a rollback and ends with that
/// failure, whatever the rollback answers, and no row has become durable.
pub proof fn law_failed_link_persists_nothing<E>(
    user: User,
    meeting: Meeting,
    rows: Ledger,
    cause: E,
    rollback: Response<E>,
)
    requires
        rollback is Done || rollback is Failed,
    ensures
        ({
            let responses = seq![
                Response::Done,
                Response::Done,
                Response::Done,
                Response::Failed(cause),
                rollback,
            ];
            let trace = CreateMeeting::started(user, meeting).run(Session::idle(rows), responses);
            &&& trace.outcome matches Some(o) && o.result == Err::<(), E>(cause)
            &&& trace.session == Session::idle(rows)
            &&& trace.ran.last() is Rollback
        }),
{
    reveal_with_fuel(CreateMeeting::run, 6);
}

/// The workflow ends with the failure `cause`; `rollback_failure` is what the
/// rollback failed with, if it was run and failed.
pub open spec fn failed<M, E>(cause: E, rollback_failure: Option<E>) -> Step<M, Outcome<(), E, E>> {
    Step::Finished(Outcome { result: Err(cause), rollback_failure })
}

} // verus!
