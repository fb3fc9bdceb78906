//! A mathematical model of the store, against which the laws of the write
//! workflows are stated.
//!
//! The model holds what spec-level reasoning needs of a transactional store:
//! rows are durable or staged, a commit makes the staged rows durable, and a
//! rollback, a failed commit or a failed statement makes nothing durable.

use crate::entity::Meeting;
use crate::entity::MeetingComment;
use crate::entity::User;
use crate::ident::Id;
use crate::store::Request;
use crate::store::Response;
use vstd::prelude::*;

verus! {

/// The rows of the four tables that the workflows write.
pub ghost struct Ledger {
    pub users: Set<User>,
    pub meetings: Set<Meeting>,
    pub participants: Set<(Id, Id)>,
    pub comments: Set<MeetingComment>,
}

impl Ledger {
    /// The ledger with the row that `request` inserts; unchanged where
    /// `request` is no insert.
    pub open spec fn with(self, request: Request) -> Ledger {
        match request {
            Request::InsertUser(user) => Ledger { users: self.users.insert(user), ..self },
            Request::InsertMeeting(meeting) => Ledger {
                meetings: self.meetings.insert(meeting),
                ..self
            },
            Request::InsertParticipant { user_id, meeting_id } => Ledger {
                participants: self.participants.insert((user_id, meeting_id)),
                ..self
            },
            Request::InsertComment(comment) => Ledger {
                comments: self.comments.insert(comment),
                ..self
            },
            _ => self,
        }
    }
}

/// A connection to the store: what is durable, and what the open
/// transaction, if there is one, has staged on top of it.
pub ghost struct Session {
    pub durable: Ledger,
    pub staged: Option<Ledger>,
}

impl Session {
    /// A connection with no transaction open.
    pub open spec fn idle(durable: Ledger) -> Session {
        Session { durable, staged: None }
    }

    /// The session after `request` was run and answered by `response`.
    ///
    /// A statement that failed changes nothing. A begin stages a copy of the
    /// durable rows. An insert goes to the staged rows, or straight to the
    /// durable ones where no transaction is open. A commit makes the staged
    /// rows durable. A rollback drops them whether or not it reports
    /// success, and so does a commit that failed.
    pub open spec fn after<E>(self, request: Request, response: Response<E>) -> Session {
        let ran = !(response is Failed);
        match request {
            Request::Begin => if ran {
                Session { staged: Some(self.durable), ..self }
            } else {
                self
            },
            Request::Commit => match self.staged {
                Some(rows) if ran => Session { durable: rows, staged: None },
                _ => Session { staged: None, ..self },
            },
            Request::Rollback => Session { staged: None, ..self },
            _ => if !ran {
                self
            } else {
                match self.staged {
                    Some(rows) => Session { staged: Some(rows.with(request)), ..self },
                    None => Session { durable: self.durable.with(request), ..self },
                }
            },
        }
    }
}

/// What a run of a workflow against the model store has come to.
pub ghost struct Trace<T> {
    /// The session after the last request that was run.
    pub session: Session,
    /// The requests that were run and answered, in order.
    pub ran: Seq<Request>,
    /// The workflow's outcome, if the workflow is over.
    pub outcome: Option<T>,
}

impl<T> Trace<T> {
    /// The trace of a run that has run nothing.
    pub open spec fn idle(session: Session) -> Trace<T> {
        Trace { session, ran: Seq::empty(), outcome: None }
    }

    /// The trace after `request` was run first and the rest of the run came
    /// to `self`.
    pub open spec fn preceded_by(self, request: Request) -> Trace<T> {
        Trace { ran: seq![request] + self.ran, ..self }
    }
}

} // verus!
