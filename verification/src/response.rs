//! What the service answers to a successful write.

use crate::entity::Meeting;
use crate::entity::User;
use crate::ident::Id;
use vstd::prelude::*;

verus! {

/// The answer to a meeting created: the meeting's identifier, and the
/// creator's identifier and secret token. It is the one time that the token
/// is shown.
#[derive(Clone, Copy, Debug, PartialEq, Eq, Hash, Structural)]
pub struct CreatedMeeting {
    pub user_id: Id,
    pub user_secret_token: Id,
    pub meeting_id: Id,
}

impl CreatedMeeting {
    /// The answer for `meeting`, created by `user`.
    pub fn new(user: &User, meeting: &Meeting) -> (answer: CreatedMeeting)
        ensures
            answer == (CreatedMeeting {
                user_id: user.deep_view().id,
                user_secret_token: user.deep_view().secret_token,
                meeting_id: meeting.deep_view().id,
            }),
    {
        CreatedMeeting {
            user_id: user.id(),
            user_secret_token: user.secret_token(),
            meeting_id: meeting.id(),
        }
    }
}

/// The answer to a meeting joined: the new participant's identifier and
/// secret token. It is the one time that the token is shown.
#[derive(Clone, Copy, Debug, PartialEq, Eq, Hash, Structural)]
pub struct JoinMeetingResponse {
    pub id: Id,
    pub secret_token: Id,
}

impl JoinMeetingResponse {
    /// The answer for `user`, who joined.
    pub fn new(user: &User) -> (answer: JoinMeetingResponse)
        ensures
            answer == (JoinMeetingResponse {
                id: user.deep_view().id,
                secret_token: user.deep_view().secret_token,
            }),
    {
        JoinMeetingResponse { id: user.id(), secret_token: user.secret_token() }
    }
}

} // verus!
