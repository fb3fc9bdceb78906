//! How an error is shown to the one who asked: as a rejection of the
//! request, or as a failure of the service that tells nothing of its cause.

use crate::aggregate::DataIntegrityError;
use crate::credentials::CredentialValidationError;
use crate::entity::ValidationError;
use crate::join_meeting::JoinMeetingError;
use crate::post_comment::PostCommentError;
use crate::read_meeting::ReadMeetingError;
use vstd::prelude::*;

verus! {

/// The two ways in which an error is shown.
#[derive(Clone, Copy, Debug, PartialEq, Eq, Hash, Structural)]
pub enum Disposition {
    /// The request is at fault, or what it asks for is not there. Asking
    /// again for the same will be rejected again.
    Rejected,
    /// The store failed or answered with defective data. The request may be
    /// made again.
    ServerFailure,
}

impl ValidationError {
    /// A name or a message that cannot become an entity is the request's
    /// fault.
    pub open spec fn spec_disposition(self) -> Disposition {
        Disposition::Rejected
    }

    pub fn disposition(&self) -> (shown: Disposition)
        ensures
            shown == self.spec_disposition(),
    {
        Disposition::Rejected
    }
}

impl DataIntegrityError {
    /// Defective rows are the service's fault.
    pub open spec fn spec_disposition(self) -> Disposition {
        Disposition::ServerFailure
    }

    pub fn disposition(&self) -> (shown: Disposition)
        ensures
            shown == self.spec_disposition(),
    {
        Disposition::ServerFailure
    }
}

impl<E> CredentialValidationError<E> {
    /// A failure of the store is the service's fault; an unknown user and a
    /// wrong token are rejections.
    pub open spec fn spec_disposition(self) -> Disposition {
        match self {
            CredentialValidationError::DatabaseError(_) => Disposition::ServerFailure,
            _ => Disposition::Rejected,
        }
    }

    pub fn disposition(&self) -> (shown: Disposition)
        ensures
            shown == self.spec_disposition(),
    {
        match self {
            CredentialValidationError::DatabaseError(_) => Disposition::ServerFailure,
            _ => Disposition::Rejected,
        }
    }
}

impl<E> JoinMeetingError<E> {
    /// A failure of the store is the service's fault; a meeting that does
    /// not exist is a rejection.
    pub open spec fn spec_disposition(self) -> Disposition {
        match self {
            JoinMeetingError::Database(_) => Disposition::ServerFailure,
            JoinMeetingError::NonexistentMeeting(_) => Disposition::Rejected,
        }
    }

    pub fn disposition(&self) -> (shown: Disposition)
        ensures
            shown == self.spec_disposition(),
    {
        match self {
            JoinMeetingError::Database(_) => Disposition::ServerFailure,
            JoinMeetingError::NonexistentMeeting(_) => Disposition::Rejected,
        }
    }
}

impl<E> PostCommentError<E> {
    /// A failure of the store is the service's fault; every other error is
    /// a rejection.
    pub open spec fn spec_disposition(self) -> Disposition {
        match self {
            PostCommentError::Database(_) => Disposition::ServerFailure,
            _ => Disposition::Rejected,
        }
    }

    pub fn disposition(&self) -> (shown: Disposition)
        ensures
            shown == self.spec_disposition(),
    {
        match self {
            PostCommentError::Database(_) => Disposition::ServerFailure,
            _ => Disposition::Rejected,
        }
    }
}

impl<E> ReadMeetingError<E> {
    /// A meeting that does not exist is a rejection; defective rows and a
    /// failure of the store are the service's fault.
    pub open spec fn spec_disposition(self) -> Disposition {
        match self {
            ReadMeetingError::NonexistentMeeting(_) => Disposition::Rejected,
            _ => Disposition::ServerFailure,
        }
    }

    pub fn disposition(&self) -> (shown: Disposition)
        ensures
            shown == self.spec_disposition(),
    {
        match self {
            ReadMeetingError::NonexistentMeeting(_) => Disposition::Rejected,
            _ => Disposition::ServerFailure,
        }
    }
}

} // verus!
