//! The conversation with the persistent store.
//!
//! The library never touches storage. A workflow names the next statement as
//! a [`Request`]; the caller runs it and hands the store's answer back as a
//! [`Response`]. `E` is the caller's own type of storage failure, which the
//! workflows carry through untouched.

use crate::aggregate::MeetingInfo;
use crate::entity::Meeting;
use crate::entity::MeetingComment;
use crate::entity::User;
use crate::ident::Id;
use crate::row::RawRow;
use vstd::prelude::*;

verus! {

/// One statement, or one transaction primitive, for the store to run.
#[derive(Debug, PartialEq)]
pub enum Request {
    /// Open a transaction.
    Begin,
    /// Make the open transaction's writes durable.
    Commit,
    /// Discard the open transaction's writes.
    Rollback,
    /// Ask for the row of this meeting, joined with its creator.
    FetchMeetingInfo { meeting_id: Id },
    /// Ask for the comments on this meeting, the newest first.
    FetchComments { meeting_id: Id },
    /// Ask for the outer join of this meeting's participants, proposed
    /// dates and votes.
    FetchRows { meeting_id: Id },
    /// Ask whether a meeting row with this identifier exists.
    MeetingExists { meeting_id: Id },
    /// Ask for the secret token stored for this user.
    FetchSecretToken { user_id: Id },
    /// Insert a user row.
    InsertUser(User),
    /// Insert a meeting row.
    InsertMeeting(Meeting),
    /// Insert the row that makes `user_id` a participant of `meeting_id`.
    InsertParticipant { user_id: Id, meeting_id: Id },
    /// Insert a comment row.
    InsertComment(MeetingComment),
}

impl Request {
    /// The request inserts a row.
    pub open spec fn is_write(self) -> bool {
        self is InsertUser || self is InsertMeeting || self is InsertParticipant
            || self is InsertComment
    }

    /// The request is answered by a bare acknowledgement: a transaction
    /// primitive or an insert.
    pub open spec fn is_command(self) -> bool {
        self is Begin || self is Commit || self is Rollback || self.is_write()
    }
}

/// The store's answer to a [`Request`].
#[derive(Debug, PartialEq)]
pub enum Response<E> {
    /// The statement ran.
    Done,
    /// Whether the row asked for exists.
    Exists(bool),
    /// The secret token of the user asked for, if there is such a user.
    SecretToken(Option<Id>),
    /// The row of the meeting asked for, if there is such a meeting.
    MeetingInfo(Option<MeetingInfo>),
    /// The comments asked for.
    Comments(Vec<crate::aggregate::MeetingComment>),
    /// The joined rows asked for.
    Rows(Vec<RawRow>),
    /// The statement failed.
    Failed(E),
}

impl<E> Response<E> {
    /// The response is of the kind that answers `request`. A failure answers
    /// any request.
    pub open spec fn answers(self, request: Request) -> bool {
        match self {
            Response::Failed(_) => true,
            Response::Done => request.is_command(),
            Response::Exists(_) => request is MeetingExists,
            Response::SecretToken(_) => request is FetchSecretToken,
            Response::MeetingInfo(_) => request is FetchMeetingInfo,
            Response::Comments(_) => request is FetchComments,
            Response::Rows(_) => request is FetchRows,
        }
    }
}

/// How a workflow goes on after a response: with the next request, or not at
/// all.
#[derive(Debug, PartialEq)]
pub enum Step<M, T> {
    /// The workflow continues as `M` and asks for the request to be run.
    Next(M, Request),
    /// The workflow is over, with this outcome.
    Finished(T),
}

/// What a transactional workflow ends with.
#[derive(Debug, PartialEq)]
pub struct Outcome<T, X, E> {
    /// What the caller is told.
    pub result: Result<T, X>,
    /// The failure of the rollback, where one was run and failed. It is for
    /// the log only: it never replaces the error in `result`.
    pub rollback_failure: Option<E>,
}

} // verus!
