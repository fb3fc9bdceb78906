//! The entities that the write workflows persist: users, meetings and
//! comments, each valid by construction.

use crate::calendar::now_utc;
use crate::calendar::Timestamp;
use crate::ident::Id;
use crate::ident::new_v4;
use vstd::prelude::*;

verus! {

/// Days between a meeting's creation and its expiry.
pub const MEETING_LIFETIME_DAYS: u16 = 14;

/// Why a name, description or message cannot become an entity.
#[derive(Clone, Copy, Debug, PartialEq, Eq, Hash, Structural)]
pub enum ValidationError {
    /// The user's name is the empty string.
    EmptyUserName,
    /// The meeting's name is the empty string.
    EmptyMeetingName,
    /// The meeting's description is given, and is the empty string.
    EmptyDescription,
    /// The comment's message is the empty string.
    EmptyComment,
}

/// What a meeting's name and description are rejected for, if for anything.
/// The name is looked at first.
pub open spec fn meeting_defect(name: Seq<char>, description: Option<Seq<char>>) -> Option<
    ValidationError,
> {
    if name.len() == 0 {
        Some(ValidationError::EmptyMeetingName)
    } else if description matches Some(d) && d.len() == 0 {
        Some(ValidationError::EmptyDescription)
    } else {
        None
    }
}

/// The mathematical content of a [`User`].
pub ghost struct UserView {
    pub id: Id,
    pub secret_token: Id,
    pub name: Seq<char>,
}

/// A person who created or joined a meeting. The secret token is the
/// capability that lets its holder act as this user.
#[derive(Debug, PartialEq, Eq)]
pub struct User {
    id: Id,
    secret_token: Id,
    name: String,
}

impl DeepView for User {
    type V = UserView;

    closed spec fn deep_view(&self) -> UserView {
        UserView { id: self.id, secret_token: self.secret_token, name: self.name@ }
    }
}

impl Clone for User {
    fn clone(&self) -> (copy: User)
        ensures
            copy == *self,
    {
        proof {
            use_type_invariant(self);
        }
        User { id: self.id, secret_token: self.secret_token, name: self.name.clone() }
    }
}

impl User {
    #[verifier::type_invariant]
    closed spec fn inv(&self) -> bool {
        self.name@.len() > 0
    }

    /// The user of the given name, with an identifier and a secret token
    /// drawn at random. An empty name is rejected.
    pub fn new(name: String) -> (user: Result<User, ValidationError>)
        ensures
            user is Ok <==> name@.len() > 0,
            user matches Ok(u) ==> u.deep_view().name == name@ && u.deep_view().id.is_random()
                && u.deep_view().secret_token.is_random(),
            user matches Err(e) ==> e == ValidationError::EmptyUserName,
    {
        if name.as_str().is_empty() {
            return Err(ValidationError::EmptyUserName);
        }
        let id = new_v4();
        let secret_token = new_v4();
        User::with_ids(id, secret_token, name)
    }

    /// The user of the given identifier, secret token and name. An empty
    /// name is rejected.
    pub fn with_ids(id: Id, secret_token: Id, name: String) -> (user: Result<User, ValidationError>)
        ensures
            user is Ok <==> name@.len() > 0,
            user matches Ok(u) ==> u.deep_view() == (UserView { id, secret_token, name: name@ }),
            user matches Err(e) ==> e == ValidationError::EmptyUserName,
    {
        if name.as_str().is_empty() {
            Err(ValidationError::EmptyUserName)
        } else {
            Ok(User { id, secret_token, name })
        }
    }

    pub fn id(&self) -> (id: Id)
        ensures
            id == self.deep_view().id,
    {
        self.id
    }

    pub fn secret_token(&self) -> (token: Id)
        ensures
            token == self.deep_view().secret_token,
    {
        self.secret_token
    }

    /// The user's name, which is never empty.
    pub fn name(&self) -> (name: &String)
        ensures
            name@ == self.deep_view().name,
            name@.len() > 0,
    {
        proof {
            use_type_invariant(self);
        }
        &self.name
    }
}

/// The mathematical content of a [`Meeting`].
pub ghost struct MeetingView {
    pub id: Id,
    pub name: Seq<char>,
    pub description: Option<Seq<char>>,
    pub created_at: Timestamp,
    pub expires_at: Timestamp,
    pub user_id: Id,
}

impl MeetingView {
    /// The meeting expires its lifetime after it was created.
    pub open spec fn expiry_follows_creation(self) -> bool {
        self.expires_at.unix_nanos == self.created_at.spec_plus_days(MEETING_LIFETIME_DAYS as int)
    }
}

/// A meeting as it is persisted. `user_id` names its creator.
#[derive(Debug, PartialEq, Eq)]
pub struct Meeting {
    id: Id,
    name: String,
    description: Option<String>,
    created_at: Timestamp,
    expires_at: Timestamp,
    user_id: Id,
}

impl DeepView for Meeting {
    type V = MeetingView;

    closed spec fn deep_view(&self) -> MeetingView {
        MeetingView {
            id: self.id,
            name: self.name@,
            description: self.description.deep_view(),
            created_at: self.created_at,
            expires_at: self.expires_at,
            user_id: self.user_id,
        }
    }
}

impl Clone for Meeting {
    fn clone(&self) -> (copy: Meeting)
        ensures
            copy == *self,
    {
        proof {
            use_type_invariant(self);
        }
        let description = match &self.description {
            Some(text) => Some(text.clone()),
            None => None,
        };
        Meeting {
            id: self.id,
            name: self.name.clone(),
            description,
            created_at: self.created_at,
            expires_at: self.expires_at,
            user_id: self.user_id,
        }
    }
}

impl Meeting {
    #[verifier::type_invariant]
    closed spec fn inv(&self) -> bool {
        &&& meeting_defect(self.name@, self.description.deep_view()) is None
        &&& self.deep_view().expiry_follows_creation()
    }

    /// The meeting of the given name and description, created now by
    /// `user_id`, with an identifier drawn at random. An empty name is
    /// rejected, and so is a description that is given but empty.
    pub fn new(name: String, description: Option<String>, user_id: Id) -> (meeting: Result<
        Meeting,
        ValidationError,
    >)
        ensures
            meeting is Ok <==> meeting_defect(name@, description.deep_view()) is None,
            meeting matches Ok(m) ==> {
                &&& m.deep_view().name == name@
                &&& m.deep_view().description == description.deep_view()
                &&& m.deep_view().user_id == user_id
                &&& m.deep_view().id.is_random()
                &&& m.deep_view().created_at.has_64_bit_seconds()
                &&& m.deep_view().expiry_follows_creation()
            },
            meeting matches Err(e) ==> Some(e) == meeting_defect(name@, description.deep_view()),
    {
        match Meeting::check(&name, &description) {
            Some(defect) => Err(defect),
            None => {
                let id = new_v4();
                let created_at = now_utc();
                Meeting::with_id(id, created_at, name, description, user_id)
            },
        }
    }

    /// What `name` and `description` are rejected for, if for anything.
    pub fn check(name: &String, description: &Option<String>) -> (defect: Option<ValidationError>)
        ensures
            defect == meeting_defect(name@, description.deep_view()),
    {
        if name.as_str().is_empty() {
            return Some(ValidationError::EmptyMeetingName);
        }
        match description {
            Some(text) => {
                if text.as_str().is_empty() {
                    Some(ValidationError::EmptyDescription)
                } else {
                    None
                }
            },
            None => None,
        }
    }

    /// The meeting of the given identifier, created at `created_at` by
    /// `user_id`. It expires [`MEETING_LIFETIME_DAYS`] days after its
    /// creation, which 128 bits must be able to count.
    pub fn with_id(
        id: Id,
        created_at: Timestamp,
        name: String,
        description: Option<String>,
        user_id: Id,
    ) -> (meeting: Result<Meeting, ValidationError>)
        requires
            created_at.spec_plus_days(MEETING_LIFETIME_DAYS as int) <= i128::MAX,
        ensures
            meeting is Ok <==> meeting_defect(name@, description.deep_view()) is None,
            meeting matches Ok(m) ==> {
                &&& m.deep_view().id == id
                &&& m.deep_view().name == name@
                &&& m.deep_view().description == description.deep_view()
                &&& m.deep_view().created_at == created_at
                &&& m.deep_view().user_id == user_id
                &&& m.deep_view().expiry_follows_creation()
            },
            meeting matches Err(e) ==> Some(e) == meeting_defect(name@, description.deep_view()),
    {
        match Meeting::check(&name, &description) {
            Some(defect) => Err(defect),
            None => {
                let expires_at = created_at.plus_days(MEETING_LIFETIME_DAYS);
                Ok(Meeting { id, name, description, created_at, expires_at, user_id })
            },
        }
    }

    pub fn id(&self) -> (id: Id)
        ensures
            id == self.deep_view().id,
    {
        self.id
    }

    /// The meeting's name, which is never empty.
    pub fn name(&self) -> (name: &String)
        ensures
            name@ == self.deep_view().name,
            name@.len() > 0,
    {
        proof {
            use_type_invariant(self);
        }
        &self.name
    }

    /// The meeting's description, which is never the empty string.
    pub fn description(&self) -> (description: &Option<String>)
        ensures
            description.deep_view() == self.deep_view().description,
            description matches Some(text) ==> text@.len() > 0,
    {
        proof {
            use_type_invariant(self);
        }
        &self.description
    }

    pub fn created_at(&self) -> (at: Timestamp)
        ensures
            at == self.deep_view().created_at,
    {
        self.created_at
    }

    /// The instant of expiry: the meeting's lifetime after its creation.
    pub fn expires_at(&self) -> (at: Timestamp)
        ensures
            at == self.deep_view().expires_at,
            self.deep_view().expiry_follows_creation(),
    {
        proof {
            use_type_invariant(self);
        }
        self.expires_at
    }

    /// The identifier of the user who created the meeting.
    pub fn user_id(&self) -> (id: Id)
        ensures
            id == self.deep_view().user_id,
    {
        self.user_id
    }
}

/// The mathematical content of a [`MeetingComment`].
pub ghost struct MeetingCommentView {
    pub id: Id,
    pub user_id: Id,
    pub meeting_id: Id,
    pub message: Seq<char>,
    pub posted_at: Timestamp,
}

/// A comment as it is persisted.
#[derive(Debug, PartialEq, Eq)]
pub struct MeetingComment {
    id: Id,
    user_id: Id,
    meeting_id: Id,
    message: String,
    posted_at: Timestamp,
}

impl DeepView for MeetingComment {
    type V = MeetingCommentView;

    closed spec fn deep_view(&self) -> MeetingCommentView {
        MeetingCommentView {
            id: self.id,
            user_id: self.user_id,
            meeting_id: self.meeting_id,
            message: self.message@,
            posted_at: self.posted_at,
        }
    }
}

impl Clone for MeetingComment {
    fn clone(&self) -> (copy: MeetingComment)
        ensures
            copy == *self,
    {
        proof {
            use_type_invariant(self);
        }
        MeetingComment {
            id: self.id,
            user_id: self.user_id,
            meeting_id: self.meeting_id,
            message: self.message.clone(),
            posted_at: self.posted_at,
        }
    }
}

impl MeetingComment {
    #[verifier::type_invariant]
    closed spec fn inv(&self) -> bool {
        self.message@.len() > 0
    }

    /// The comment that `user_id` posts now on `meeting_id`, with an
    /// identifier drawn at random. An empty message is rejected.
    pub fn new(user_id: Id, meeting_id: Id, message: String) -> (comment: Result<
        MeetingComment,
        ValidationError,
    >)
        ensures
            comment is Ok <==> message@.len() > 0,
            comment matches Ok(c) ==> {
                &&& c.deep_view().user_id == user_id
                &&& c.deep_view().meeting_id == meeting_id
                &&& c.deep_view().message == message@
                &&& c.deep_view().id.is_random()
                &&& c.deep_view().posted_at.has_64_bit_seconds()
            },
            comment matches Err(e) ==> e == ValidationError::EmptyComment,
    {
        if message.as_str().is_empty() {
            return Err(ValidationError::EmptyComment);
        }
        let id = new_v4();
        let posted_at = now_utc();
        MeetingComment::with_id(id, posted_at, user_id, meeting_id, message)
    }

    /// The comment of the given identifier, posted at `posted_at`. An empty
    /// message is rejected.
    pub fn with_id(
        id: Id,
        posted_at: Timestamp,
        user_id: Id,
        meeting_id: Id,
        message: String,
    ) -> (comment: Result<MeetingComment, ValidationError>)
        ensures
            comment is Ok <==> message@.len() > 0,
            comment matches Ok(c) ==> c.deep_view() == (MeetingCommentView {
                id,
                user_id,
                meeting_id,
                message: message@,
                posted_at,
            }),
            comment matches Err(e) ==> e == ValidationError::EmptyComment,
    {
        if message.as_str().is_empty() {
            Err(ValidationError::EmptyComment)
        } else {
            Ok(MeetingComment { id, user_id, meeting_id, message, posted_at })
        }
    }

    pub fn id(&self) -> (id: Id)
        ensures
            id == self.deep_view().id,
    {
        self.id
    }

    pub fn user_id(&self) -> (id: Id)
        ensures
            id == self.deep_view().user_id,
    {
        self.user_id
    }

    pub fn meeting_id(&self) -> (id: Id)
        ensures
            id == self.deep_view().meeting_id,
    {
        self.meeting_id
    }

    /// The comment's message, which is never empty.
    pub fn message(&self) -> (message: &String)
        ensures
            message@ == self.deep_view().message,
            message@.len() > 0,
    {
        proof {
            use_type_invariant(self);
        }
        &self.message
    }

    pub fn posted_at(&self) -> (at: Timestamp)
        ensures
            at == self.deep_view().posted_at,
    {
        self.posted_at
    }
}

} // verus!
