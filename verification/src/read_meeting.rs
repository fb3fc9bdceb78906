//! Reading a meeting: its own row, its comments and its joined rows are
//! fetched one after the other and built into the aggregate.

use crate::aggregate::assembled;
use crate::aggregate::DataIntegrityError;
use crate::aggregate::defect;
use crate::aggregate::defective;
use crate::aggregate::first_defect;
use crate::aggregate::Meeting;
use crate::aggregate::MeetingComment;
use crate::aggregate::MeetingInfo;
use crate::aggregate::sound;
use crate::ident::Id;
use crate::store::Request;
use crate::store::Response;
use crate::store::Step;
use vstd::prelude::*;

verus! {

/// Why a meeting could not be read.
#[derive(Debug, PartialEq)]
pub enum ReadMeetingError<E> {
    /// No meeting has the identifier asked for.
    NonexistentMeeting(Id),
    /// The joined rows break the store's own invariant.
    DataIntegrity(DataIntegrityError),
    /// The store failed.
    Database(E),
}

/// What the workflow ends with: the aggregate, or why there is none.
pub type ReadOutcome<E> = Result<Meeting, ReadMeetingError<E>>;

/// The workflow that reads a meeting, by the request under way.
#[derive(Debug, PartialEq)]
pub enum ReadMeeting {
    /// Fetching the meeting's own row.
    FetchingInfo { meeting_id: Id },
    /// Fetching the comments.
    FetchingComments { meeting_id: Id, meeting_info: MeetingInfo },
    /// Fetching the joined rows.
    FetchingRows { meeting_id: Id, meeting_info: MeetingInfo, comments: Vec<MeetingComment> },
}

impl ReadMeeting {
    /// The request that is under way.
    pub open spec fn pending(self) -> Request {
        match self {
            ReadMeeting::FetchingInfo { meeting_id } => Request::FetchMeetingInfo { meeting_id },
            ReadMeeting::FetchingComments { meeting_id, .. } => Request::FetchComments {
                meeting_id,
            },
            ReadMeeting::FetchingRows { meeting_id, .. } => Request::FetchRows { meeting_id },
        }
    }

    /// How the workflow goes on after `response`.
    ///
    /// A failure of the store ends the workflow wherever it occurs, and so
    /// does the answer that there is no such meeting: the comments and the
    /// rows of a meeting that does not exist are never asked for. The
    /// meeting's row leads to the request for the comments, these to the
    /// request for the joined rows, and these to the build: the workflow
    /// ends with the aggregate that [`assembled`] describes where the rows
    /// are sound, and else with the first defect. A response that does not
    /// answer the request under way is set aside: the workflow stays where
    /// it is and asks for the same request again.
    pub open spec fn follows<E>(
        self,
        response: Response<E>,
        next: Step<Self, ReadOutcome<E>>,
    ) -> bool {
        if !response.answers(self.pending()) {
            next == Step::<Self, ReadOutcome<E>>::Next(self, self.pending())
        } else {
            self.answered(response, next)
        }
    }

    /// How the workflow goes on after a response that answers the request
    /// under way.
    pub open spec fn answered<E>(
        self,
        response: Response<E>,
        next: Step<Self, ReadOutcome<E>>,
    ) -> bool {
        match (self, response) {
            (_, Response::Failed(e)) => next == Step::<Self, ReadOutcome<E>>::Finished(
                Err(ReadMeetingError::Database(e)),
            ),
            (
                ReadMeeting::FetchingInfo { meeting_id },
                Response::MeetingInfo(Some(meeting_info)),
            ) => next == Step::<Self, ReadOutcome<E>>::Next(
                ReadMeeting::FetchingComments { meeting_id, meeting_info },
                Request::FetchComments { meeting_id },
            ),
            (ReadMeeting::FetchingInfo { meeting_id }, Response::MeetingInfo(None)) => next
                == Step::<Self, ReadOutcome<E>>::Finished(
                Err(ReadMeetingError::NonexistentMeeting(meeting_id)),
            ),
            (
                ReadMeeting::FetchingComments { meeting_id, meeting_info },
                Response::Comments(comments),
            ) => next == Step::<Self, ReadOutcome<E>>::Next(
                ReadMeeting::FetchingRows { meeting_id, meeting_info, comments },
                Request::FetchRows { meeting_id },
            ),
            (
                ReadMeeting::FetchingRows { meeting_info, comments, .. },
                Response::Rows(rows),
            ) => match next {
                Step::Finished(Ok(meeting)) => sound(rows.deep_view()) && meeting.deep_view()
                    == assembled(
                    meeting_info.deep_view(),
                    comments.deep_view(),
                    rows.deep_view(),
                ),
                Step::Finished(Err(ReadMeetingError::DataIntegrity(error))) => exists|i: int|
                    #![trigger defective(rows.deep_view(), i)]
                    first_defect(rows.deep_view(), i) && error.deep_view() == defect(
                        rows.deep_view(),
                        i,
                    ),
                _ => false,
            },
            _ => false,
        }
    }

    /// Starts the workflow. The first request asks for the meeting's own
    /// row.
    pub fn start(meeting_id: Id) -> (started: (Self, Request))
        ensures
            started.0 == (ReadMeeting::FetchingInfo { meeting_id }),
            started.1 == started.0.pending(),
    {
        (ReadMeeting::FetchingInfo { meeting_id }, Request::FetchMeetingInfo { meeting_id })
    }

    /// Whether `response` is of the kind that answers the request under way.
    pub fn expects<E>(&self, response: &Response<E>) -> (expected: bool)
        ensures
            expected == response.answers(self.pending()),
    {
        match response {
            Response::Failed(_) => true,
            Response::MeetingInfo(_) => match self {
                ReadMeeting::FetchingInfo { .. } => true,
                _ => false,
            },
            Response::Comments(_) => match self {
                ReadMeeting::FetchingComments { .. } => true,
                _ => false,
            },
            Response::Rows(_) => match self {
                ReadMeeting::FetchingRows { .. } => true,
                _ => false,
            },
            _ => false,
        }
    }

    /// Takes the store's answer to the request under way and says how the
    /// workflow goes on.
    pub fn step<E>(self, response: Response<E>) -> (next: Step<Self, ReadOutcome<E>>)
        ensures
            self.follows(response, next),
    {
        match self {
            ReadMeeting::FetchingInfo { meeting_id } => match response {
                Response::Failed(e) => Step::Finished(Err(ReadMeetingError::Database(e))),
                Response::MeetingInfo(Some(meeting_info)) => Step::Next(
                    ReadMeeting::FetchingComments { meeting_id, meeting_info },
                    Request::FetchComments { meeting_id },
                ),
                Response::MeetingInfo(None) => Step::Finished(
                    Err(ReadMeetingError::NonexistentMeeting(meeting_id)),
                ),
                _ => Step::Next(
                    ReadMeeting::FetchingInfo { meeting_id },
                    Request::FetchMeetingInfo { meeting_id },
                ),
            },
            ReadMeeting::FetchingComments { meeting_id, meeting_info } => match response {
                Response::Failed(e) => Step::Finished(Err(ReadMeetingError::Database(e))),
                Response::Comments(comments) => Step::Next(
                    ReadMeeting::FetchingRows { meeting_id, meeting_info, comments },
                    Request::FetchRows { meeting_id },
                ),
                _ => Step::Next(
                    ReadMeeting::FetchingComments { meeting_id, meeting_info },
                    Request::FetchComments { meeting_id },
                ),
            },
            ReadMeeting::FetchingRows { meeting_id, meeting_info, comments } => match response {
                Response::Failed(e) => Step::Finished(Err(ReadMeetingError::Database(e))),
                Response::Rows(rows) => match Meeting::new(meeting_info, comments, rows) {
                    Ok(meeting) => Step::Finished(Ok(meeting)),
                    Err(error) => Step::Finished(Err(ReadMeetingError::DataIntegrity(error))),
                },
                _ => Step::Next(
                    ReadMeeting::FetchingRows { meeting_id, meeting_info, comments },
                    Request::FetchRows { meeting_id },
                ),
            },
        }
    }
}

} // verus!
