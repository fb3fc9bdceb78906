//! Posting a comment: the meeting must exist and the poster's credentials
//! must hold before the comment is written.
//!
//! The three steps follow one another without a transaction. Whichever
//! fails first ends the workflow, and the store is not touched for the steps
//! after it.

use crate::credentials::CredentialValidationError;
use crate::credentials::validate_user_credentials;
use crate::credentials::verdict;
use crate::entity::MeetingComment;
use crate::entity::ValidationError;
use crate::ident::Id;
use crate::ledger::Session;
use crate::ledger::Trace;
use crate::store::Request;
use crate::store::Response;
use crate::store::Step;
use vstd::prelude::*;

verus! {

/// Why a comment was not posted.
#[derive(Debug, PartialEq)]
pub enum PostCommentError<E> {
    /// No meeting has the identifier that the comment is for.
    NonexistentMeeting(Id),
    /// No user has the identifier presented.
    NonexistentUser,
    /// The token presented is not the user's.
    InvalidSecretToken,
    /// The message cannot become a comment.
    Validation(ValidationError),
    /// The store failed.
    Database(E),
}

/// What the workflow ends with: the comment that was written, or why none
/// was.
pub type PostOutcome<E> = Result<MeetingComment, PostCommentError<E>>;

/// The workflow that posts a comment, by the request under way.
#[derive(Debug, PartialEq)]
pub enum PostComment {
    /// Asking whether the meeting exists.
    CheckingMeeting { meeting_id: Id, user_id: Id, user_token: Id, message: String },
    /// Asking for the secret token stored for the poster.
    CheckingCredentials { meeting_id: Id, user_id: Id, user_token: Id, message: String },
    /// Inserting the comment.
    Inserting { comment: MeetingComment },
}

impl PostComment {
    /// The request that is under way.
    pub open spec fn pending(self) -> Request {
        match self {
            PostComment::CheckingMeeting { meeting_id, .. } => Request::MeetingExists {
                meeting_id,
            },
            PostComment::CheckingCredentials { user_id, .. } => Request::FetchSecretToken {
                user_id,
            },
            PostComment::Inserting { comment } => Request::InsertComment(comment),
        }
    }

    /// The response is the one at which the comment is composed: the
    /// credentials are being checked, the store answers with the token
    /// presented, and the message is not empty.
    pub open spec fn composes<E>(self, response: Response<E>) -> bool {
        self matches PostComment::CheckingCredentials { user_token, message, .. }
            && response == Response::<E>::SecretToken(Some(user_token)) && message@.len() > 0
    }

    /// `comment` is one that the workflow may compose: it is the poster's,
    /// on the meeting, with the message given, under a random identifier
    /// and with an instant that a clock can show.
    pub open spec fn may_compose(self, comment: MeetingComment) -> bool {
        self matches PostComment::CheckingCredentials { meeting_id, user_id, message, .. } && {
            &&& comment.deep_view().user_id == user_id
            &&& comment.deep_view().meeting_id == meeting_id
            &&& comment.deep_view().message == message@
            &&& comment.deep_view().id.is_random()
            &&& comment.deep_view().posted_at.has_64_bit_seconds()
        }
    }

    /// How the workflow goes on after `response`, `comment` being the
    /// comment that is composed where `response` is the one to compose at.
    ///
    /// A meeting that does not exist ends the workflow with
    /// `NonexistentMeeting`. Then the credentials are judged as
    /// [`verdict`] says, and then the message: an empty one ends the
    /// workflow with a validation error. Only then is the comment composed
    /// and its insert asked for. A failure of the store ends the workflow
    /// wherever it occurs. A response that does not answer the request
    /// under way is set aside: the workflow stays where it is and asks for
    /// the same request again.
    pub open spec fn spec_step<E>(self, response: Response<E>, comment: MeetingComment) -> Step<
        Self,
        PostOutcome<E>,
    > {
        if !response.answers(self.pending()) {
            Step::Next(self, self.pending())
        } else {
            self.answered(response, comment)
        }
    }

    /// How the workflow goes on after a response that answers the request
    /// under way.
    pub open spec fn answered<E>(self, response: Response<E>, comment: MeetingComment) -> Step<
        Self,
        PostOutcome<E>,
    > {
        match self {
            PostComment::CheckingMeeting { meeting_id, user_id, user_token, message } => {
                match response {
                    Response::Failed(e) => Step::Finished(Err(PostCommentError::Database(e))),
                    Response::Exists(true) => Step::Next(
                        PostComment::CheckingCredentials {
                            meeting_id,
                            user_id,
                            user_token,
                            message,
                        },
                        Request::FetchSecretToken { user_id },
                    ),
                    _ => Step::Finished(Err(PostCommentError::NonexistentMeeting(meeting_id))),
                }
            },
            PostComment::CheckingCredentials { meeting_id, user_id, user_token, message } => {
                match verdict(lookup(response), user_token) {
                    Err(CredentialValidationError::DatabaseError(e)) => Step::Finished(
                        Err(PostCommentError::Database(e)),
                    ),
                    Err(CredentialValidationError::NonexistentUser) => Step::Finished(
                        Err(PostCommentError::NonexistentUser),
                    ),
                    Err(CredentialValidationError::InvalidSecretToken) => Step::Finished(
                        Err(PostCommentError::InvalidSecretToken),
                    ),
                    Ok(_) => if message@.len() == 0 {
                        Step::Finished(
                            Err(PostCommentError::Validation(ValidationError::EmptyComment)),
                        )
                    } else {
                        Step::Next(
                            PostComment::Inserting { comment },
                            Request::InsertComment(comment),
                        )
                    },
                }
            },
            PostComment::Inserting { comment: written } => match response {
                Response::Failed(e) => Step::Finished(Err(PostCommentError::Database(e))),
                _ => Step::Finished(Ok(written)),
            },
        }
    }

    /// The workflow as [`PostComment::start`] leaves it.
    pub open spec fn started(meeting_id: Id, user_id: Id, user_token: Id, message: String) -> Self {
        PostComment::CheckingMeeting { meeting_id, user_id, user_token, message }
    }

    /// Runs the workflow against the model store, as the write workflows
    /// are run; `comment` is the comment that is composed on the way.
    pub open spec fn run<E>(
        self,
        session: Session,
        responses: Seq<Response<E>>,
        comment: MeetingComment,
    ) -> Trace<PostOutcome<E>>
        decreases responses.len(),
    {
        if responses.len() == 0 || !responses[0].answers(self.pending()) {
            Trace::idle(session)
        } else {
            let session = session.after(self.pending(), responses[0]);
            match self.spec_step(responses[0], comment) {
                Step::Next(workflow, _) => workflow.run(
                    session,
                    responses.drop_first(),
                    comment,
                ).preceded_by(self.pending()),
                Step::Finished(outcome) => Trace {
                    session,
                    ran: seq![self.pending()],
                    outcome: Some(outcome),
                },
            }
        }
    }

    /// Starts the workflow for a message that `user_id`, presenting
    /// `user_token`, wants to post on `meeting_id`. The first request asks
    /// whether the meeting exists.
    pub fn start(meeting_id: Id, user_id: Id, user_token: Id, message: String) -> (started: (
        Self,
        Request,
    ))
        ensures
            started.0 == Self::started(meeting_id, user_id, user_token, message),
            started.1 == started.0.pending(),
    {
        (
            PostComment::CheckingMeeting { meeting_id, user_id, user_token, message },
            Request::MeetingExists { meeting_id },
        )
    }

    /// Whether `response` is of the kind that answers the request under way.
    pub fn expects<E>(&self, response: &Response<E>) -> (expected: bool)
        ensures
            expected == response.answers(self.pending()),
    {
        match response {
            Response::Failed(_) => true,
            Response::Done => match self {
                PostComment::Inserting { .. } => true,
                _ => false,
            },
            Response::Exists(_) => match self {
                PostComment::CheckingMeeting { .. } => true,
                _ => false,
            },
            Response::SecretToken(_) => match self {
                PostComment::CheckingCredentials { .. } => true,
                _ => false,
            },
            _ => false,
        }
    }

    /// The request that is under way.
    pub fn request(&self) -> (request: Request)
        ensures
            request == self.pending(),
    {
        match self {
            PostComment::CheckingMeeting { meeting_id, .. } => Request::MeetingExists {
                meeting_id: *meeting_id,
            },
            PostComment::CheckingCredentials { user_id, .. } => Request::FetchSecretToken {
                user_id: *user_id,
            },
            PostComment::Inserting { comment } => Request::InsertComment(comment.clone()),
        }
    }

    /// Takes the store's answer to the request under way and says how the
    /// workflow goes on. Where the comment is composed, its identifier is
    /// drawn at random and its instant is read from the clock.
    pub fn step<E>(self, response: Response<E>) -> (next: Step<Self, PostOutcome<E>>)
        ensures
            self.composes(response) ==> (next matches Step::Next(
                PostComment::Inserting { comment },
                _,
            ) && self.may_compose(comment) && next == self.spec_step(response, comment)),
            !self.composes(response) ==> forall|comment: MeetingComment|
                next == #[trigger] self.spec_step(response, comment),
    {
        if !self.expects(&response) {
            let request = self.request();
            return Step::Next(self, request);
        }
        match self {
            PostComment::CheckingMeeting { meeting_id, user_id, user_token, message } => {
                match response {
                    Response::Failed(e) => Step::Finished(Err(PostCommentError::Database(e))),
                    Response::Exists(true) => Step::Next(
                        PostComment::CheckingCredentials {
                            meeting_id,
                            user_id,
                            user_token,
                            message,
                        },
                        Request::FetchSecretToken { user_id },
                    ),
                    _ => Step::Finished(Err(PostCommentError::NonexistentMeeting(meeting_id))),
                }
            },
            PostComment::CheckingCredentials { meeting_id, user_id, user_token, message } => {
                let stored = match response {
                    Response::Failed(e) => Err(e),
                    Response::SecretToken(token) => Ok(token),
                    _ => Ok(None),
                };
                match validate_user_credentials(stored, user_token) {
                    Err(CredentialValidationError::DatabaseError(e)) => Step::Finished(
                        Err(PostCommentError::Database(e)),
                    ),
                    Err(CredentialValidationError::NonexistentUser) => Step::Finished(
                        Err(PostCommentError::NonexistentUser),
                    ),
                    Err(CredentialValidationError::InvalidSecretToken) => Step::Finished(
                        Err(PostCommentError::InvalidSecretToken),
                    ),
                    Ok(_) => match MeetingComment::new(user_id, meeting_id, message) {
                        Err(defect) => Step::Finished(Err(PostCommentError::Validation(defect))),
                        Ok(comment) => {
                            let request = Request::InsertComment(comment.clone());
                            Step::Next(PostComment::Inserting { comment }, request)
                        },
                    },
                }
            },
            PostComment::Inserting { comment } => match response {
                Response::Failed(e) => Step::Finished(Err(PostCommentError::Database(e))),
                _ => Step::Finished(Ok(comment)),
            },
        }
    }
}

/// The store's answer to the lookup of a secret token, read as the result of
/// that lookup: the failure, or the token if the store knows the user.
pub open spec fn lookup<E>(response: Response<E>) -> Result<Option<Id>, E> {
    match response {
        Response::Failed(e) => Err(e),
        Response::SecretToken(token) => Ok(token),
        _ => Ok(None),
    }
}

/// The steps are preconditions of one another: the comment's insert is run
/// only as the third request, after the store has answered that the meeting
/// exists and has answered the lookup with the very token presented, and
/// only for a message that is not empty. The comment inserted is the one
/// composed.
pub proof fn law_insert_follows_both_checks<E>(
    meeting_id: Id,
    user_id: Id,
    user_token: Id,
    message: String,
    session: Session,
    responses: Seq<Response<E>>,
    comment: MeetingComment,
    p: int,
)
    requires
        ({
            let trace = PostComment::started(meeting_id, user_id, user_token, message).run(
                session,
                responses,
                comment,
            );
            0 <= p < trace.ran.len() && trace.ran[p].is_write()
        }),
    ensures
        ({
            let trace = PostComment::started(meeting_id, user_id, user_token, message).run(
                session,
                responses,
                comment,
            );
            &&& p == 2
            &&& trace.ran[0] == Request::MeetingExists { meeting_id }
            &&& responses[0] == Response::<E>::Exists(true)
            &&& trace.ran[1] == Request::FetchSecretToken { user_id }
            &&& responses[1] == Response::<E>::SecretToken(Some(user_token))
            &&& message@.len() > 0
            &&& trace.ran[2] == Request::InsertComment(comment)
        }),
{
    reveal_with_fuel(PostComment::run, 4);
}

/// The first step that fails is the last that is run: a run goes through the
/// check of the meeting, the lookup of the token and the insert in this
/// order, the lookup is run only for a meeting that exists, and the insert
/// only for credentials that hold and a message that is not empty.
pub proof fn law_steps_are_sequential<E>(
    meeting_id: Id,
    user_id: Id,
    user_token: Id,
    message: String,
    session: Session,
    responses: Seq<Response<E>>,
    comment: MeetingComment,
)
    ensures
        ({
            let trace = PostComment::started(meeting_id, user_id, user_token, message).run(
                session,
                responses,
                comment,
            );
            let plan = seq![
                Request::MeetingExists { meeting_id },
                Request::FetchSecretToken { user_id },
                Request::InsertComment(comment),
            ];
            &&& trace.ran.len() <= 3
            &&& forall|p: int| 0 <= p < trace.ran.len() ==> #[trigger] trace.ran[p] == plan[p]
            &&& trace.ran.len() >= 2 ==> responses[0] == Response::<E>::Exists(true)
            &&& trace.ran.len() == 3 ==> verdict(lookup(responses[1]), user_token) is Ok
                && message@.len() > 0
        }),
{
    reveal_with_fuel(PostComment::run, 4);
}

/// A rejection writes nothing: where the workflow ends with anything but
/// the comment written, the rows of the store are what they were.
pub proof fn law_rejection_writes_nothing<E>(
    meeting_id: Id,
    user_id: Id,
    user_token: Id,
    message: String,
    session: Session,
    responses: Seq<Response<E>>,
    comment: MeetingComment,
)
    ensures
        ({
            let trace = PostComment::started(meeting_id, user_id, user_token, message).run(
                session,
                responses,
                comment,
            );
            match trace.outcome {
                Some(Ok(written)) => written == comment && responses[2] is Done && trace.session
                    == session.after(Request::InsertComment(comment), responses[2]),
                _ => trace.session == session,
            }
        }),
{
    reveal_with_fuel(PostComment::run, 4);
}

} // verus!
