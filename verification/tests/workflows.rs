use meetings::create_meeting::CreateMeeting;
use meetings::create_meeting::CreateStage;
use meetings::entity::Meeting;
use meetings::entity::MeetingComment;
use meetings::entity::User;
use meetings::entity::ValidationError;
use meetings::calendar::Timestamp;
use meetings::ident::Id;
use meetings::join_meeting::JoinMeeting;
use meetings::join_meeting::JoinMeetingError;
use meetings::join_meeting::JoinStage;
use meetings::post_comment::PostComment;
use meetings::post_comment::PostCommentError;
use meetings::response::CreatedMeeting;
use meetings::response::JoinMeetingResponse;
use meetings::store::Outcome;
use meetings::store::Request;
use meetings::store::Response;
use meetings::store::Step;

fn id(bits: u128) -> Id {
    Id::from_u128(bits)
}

#[derive(Clone, Debug, Default, PartialEq)]
struct Tables {
    users: Vec<User>,
    meetings: Vec<Meeting>,
    participants: Vec<(Id, Id)>,
    comments: Vec<MeetingComment>,
}

/// A store in memory with transactions, which fails the requests it is told
/// to fail.
#[derive(Debug, Default)]
struct Simulated {
    durable: Tables,
    staged: Option<Tables>,
    failing: Vec<&'static str>,
    ran: Vec<&'static str>,
}

fn kind(request: &Request) -> &'static str {
    match request {
        Request::Begin => "begin",
        Request::Commit => "commit",
        Request::Rollback => "rollback",
        Request::FetchMeetingInfo { .. } => "fetch info",
        Request::FetchComments { .. } => "fetch comments",
        Request::FetchRows { .. } => "fetch rows",
        Request::MeetingExists { .. } => "exists",
        Request::FetchSecretToken { .. } => "fetch token",
        Request::InsertUser(_) => "insert user",
        Request::InsertMeeting(_) => "insert meeting",
        Request::InsertParticipant { .. } => "insert participant",
        Request::InsertComment(_) => "insert comment",
    }
}

impl Simulated {
    fn with_meeting(meeting: Meeting) -> Simulated {
        let mut store = Simulated::default();
        store.durable.meetings.push(meeting);
        store
    }

    fn failing(mut self, kinds: &[&'static str]) -> Simulated {
        self.failing = kinds.to_vec();
        self
    }

    fn visible(&mut self) -> &mut Tables {
        match &mut self.staged {
            Some(tables) => tables,
            None => &mut self.durable,
        }
    }

    fn execute(&mut self, request: Request) -> Response<String> {
        let kind = kind(&request);
        self.ran.push(kind);
        let fails = self.failing.contains(&kind);
        match request {
            Request::Rollback => {
                self.staged = None;
                if fails {
                    return Response::Failed("rollback failed".to_string());
                }
                Response::Done
            }
            Request::Commit => {
                let staged = self.staged.take();
                if fails {
                    return Response::Failed("commit failed".to_string());
                }
                if let Some(tables) = staged {
                    self.durable = tables;
                }
                Response::Done
            }
            _ if fails => Response::Failed(format!("{} failed", kind)),
            Request::Begin => {
                self.staged = Some(self.durable.clone());
                Response::Done
            }
            Request::MeetingExists { meeting_id } => {
                Response::Exists(self.visible().meetings.iter().any(|m| m.id() == meeting_id))
            }
            Request::FetchSecretToken { user_id } => Response::SecretToken(
                self.visible().users.iter().find(|u| u.id() == user_id).map(|u| u.secret_token()),
            ),
            Request::InsertUser(user) => {
                self.visible().users.push(user);
                Response::Done
            }
            Request::InsertMeeting(meeting) => {
                self.visible().meetings.push(meeting);
                Response::Done
            }
            Request::InsertParticipant { user_id, meeting_id } => {
                self.visible().participants.push((user_id, meeting_id));
                Response::Done
            }
            Request::InsertComment(comment) => {
                self.visible().comments.push(comment);
                Response::Done
            }
            other => panic!("not a request of these workflows: {:?}", other),
        }
    }
}

fn alice() -> User {
    User::with_ids(id(0xa), id(0xa5ec), "Alice".to_string()).unwrap()
}

fn bob() -> User {
    User::with_ids(id(0xb), id(0xb5ec), "Bob".to_string()).unwrap()
}

fn planning() -> Meeting {
    Meeting::with_id(
        id(0x99),
        Timestamp::from_unix_nanos(1_709_251_200_000_000_000),
        "Planning".to_string(),
        Some("Quarterly planning".to_string()),
        id(0xa),
    )
    .unwrap()
}

fn create(store: &mut Simulated, user: User, meeting: Meeting) -> Outcome<(), String, String> {
    let (mut workflow, mut request) = CreateMeeting::start(user, meeting);
    loop {
        let response = store.execute(request);
        assert!(workflow.expects(&response));
        match workflow.step(response) {
            Step::Next(next, then) => {
                workflow = next;
                request = then;
            }
            Step::Finished(outcome) => return outcome,
        }
    }
}

fn join(
    store: &mut Simulated,
    user: User,
    meeting_id: Id,
) -> Outcome<(), JoinMeetingError<String>, String> {
    let (mut workflow, mut request) = JoinMeeting::start(user, meeting_id);
    loop {
        let response = store.execute(request);
        assert!(workflow.expects(&response));
        match workflow.step(response) {
            Step::Next(next, then) => {
                workflow = next;
                request = then;
            }
            Step::Finished(outcome) => return outcome,
        }
    }
}

fn post(
    store: &mut Simulated,
    meeting_id: Id,
    user_id: Id,
    user_token: Id,
    message: &str,
) -> Result<MeetingComment, PostCommentError<String>> {
    let (mut workflow, mut request) =
        PostComment::start(meeting_id, user_id, user_token, message.to_string());
    loop {
        let response = store.execute(request);
        assert!(workflow.expects(&response));
        match workflow.step(response) {
            Step::Next(next, then) => {
                workflow = next;
                request = then;
            }
            Step::Finished(outcome) => return outcome,
        }
    }
}

#[test]
fn created_meeting_is_persisted_with_its_creator_and_the_link() {
    let mut store = Simulated::default();
    let outcome = create(&mut store, alice(), planning());
    assert_eq!(outcome, Outcome { result: Ok(()), rollback_failure: None });
    assert_eq!(store.ran, vec!["begin", "insert user", "insert meeting", "insert participant", "commit"]);
    assert_eq!(store.durable.users, vec![alice()]);
    assert_eq!(store.durable.meetings, vec![planning()]);
    assert_eq!(store.durable.participants, vec![(id(0xa), id(0x99))]);
    assert_eq!(store.staged, None);
}

#[test]
fn create_meeting_asks_for_the_rows_it_was_given() {
    let (workflow, request) = CreateMeeting::<String>::start(alice(), planning());
    assert_eq!(request, Request::Begin);
    let (workflow, request) = match workflow.step(Response::Done) {
        Step::Next(workflow, request) => (workflow, request),
        other => panic!("{:?}", other),
    };
    assert_eq!(request, Request::InsertUser(alice()));
    assert_eq!(workflow.stage, CreateStage::InsertingUser);
    let (workflow, request) = match workflow.step(Response::Done) {
        Step::Next(workflow, request) => (workflow, request),
        other => panic!("{:?}", other),
    };
    assert_eq!(request, Request::InsertMeeting(planning()));
    let (workflow, request) = match workflow.step(Response::Done) {
        Step::Next(workflow, request) => (workflow, request),
        other => panic!("{:?}", other),
    };
    assert_eq!(request, Request::InsertParticipant { user_id: id(0xa), meeting_id: id(0x99) });
    let (workflow, request) = match workflow.step(Response::Done) {
        Step::Next(workflow, request) => (workflow, request),
        other => panic!("{:?}", other),
    };
    assert_eq!(request, Request::Commit);
    assert_eq!(workflow.user, alice());
    assert_eq!(workflow.meeting, planning());
    assert_eq!(
        workflow.step(Response::Done),
        Step::Finished(Outcome { result: Ok(()), rollback_failure: None })
    );
}

#[test]
fn failed_participant_link_leaves_no_user_and_no_meeting() {
    let mut store = Simulated::default().failing(&["insert participant"]);
    let outcome = create(&mut store, alice(), planning());
    assert_eq!(
        outcome,
        Outcome { result: Err("insert participant failed".to_string()), rollback_failure: None }
    );
    assert_eq!(store.ran, vec!["begin", "insert user", "insert meeting", "insert participant", "rollback"]);
    assert_eq!(store.durable, Tables::default());
    assert_eq!(store.staged, None);
}

#[test]
fn failed_user_or_meeting_insert_is_rolled_back() {
    let mut store = Simulated::default().failing(&["insert user"]);
    let outcome = create(&mut store, alice(), planning());
    assert_eq!(outcome.result, Err("insert user failed".to_string()));
    assert_eq!(store.ran, vec!["begin", "insert user", "rollback"]);
    assert_eq!(store.durable, Tables::default());

    let mut store = Simulated::default().failing(&["insert meeting"]);
    let outcome = create(&mut store, alice(), planning());
    assert_eq!(outcome.result, Err("insert meeting failed".to_string()));
    assert_eq!(store.ran, vec!["begin", "insert user", "insert meeting", "rollback"]);
    assert_eq!(store.durable, Tables::default());
}

#[test]
fn failed_rollback_does_not_mask_the_cause() {
    let mut store = Simulated::default().failing(&["insert meeting", "rollback"]);
    let outcome = create(&mut store, alice(), planning());
    assert_eq!(
        outcome,
        Outcome {
            result: Err("insert meeting failed".to_string()),
            rollback_failure: Some("rollback failed".to_string()),
        }
    );
    assert_eq!(store.durable, Tables::default());
}

#[test]
fn failed_begin_or_commit_ends_creation_without_a_rollback() {
    let mut store = Simulated::default().failing(&["begin"]);
    let outcome = create(&mut store, alice(), planning());
    assert_eq!(outcome, Outcome { result: Err("begin failed".to_string()), rollback_failure: None });
    assert_eq!(store.ran, vec!["begin"]);

    let mut store = Simulated::default().failing(&["commit"]);
    let outcome = create(&mut store, alice(), planning());
    assert_eq!(outcome, Outcome { result: Err("commit failed".to_string()), rollback_failure: None });
    assert_eq!(store.ran, vec!["begin", "insert user", "insert meeting", "insert participant", "commit"]);
    assert_eq!(store.durable, Tables::default());
}

#[test]
fn prepared_creation_links_the_meeting_to_its_creator() {
    let (workflow, request, answer) = CreateMeeting::<String>::prepare(
        "Alice".to_string(),
        "Planning".to_string(),
        Some("Quarterly planning".to_string()),
    )
    .unwrap();
    assert_eq!(request, Request::Begin);
    assert_eq!(workflow.stage, CreateStage::Beginning);
    assert_eq!(workflow.user.name(), "Alice");
    assert_eq!(workflow.meeting.name(), "Planning");
    assert_eq!(workflow.meeting.description(), &Some("Quarterly planning".to_string()));
    assert_eq!(workflow.meeting.user_id(), workflow.user.id());
    assert_eq!(
        answer,
        CreatedMeeting {
            user_id: workflow.user.id(),
            user_secret_token: workflow.user.secret_token(),
            meeting_id: workflow.meeting.id(),
        }
    );
    assert_eq!(
        workflow.meeting.expires_at().unix_nanos - workflow.meeting.created_at().unix_nanos,
        1_209_600_000_000_000
    );
}

#[test]
fn creation_is_not_prepared_for_what_is_invalid() {
    let prepare = |user: &str, meeting: &str, description: Option<&str>| {
        CreateMeeting::<String>::prepare(
            user.to_string(),
            meeting.to_string(),
            description.map(String::from),
        )
        .map(|_| ())
    };
    assert_eq!(prepare("", "Planning", None), Err(ValidationError::EmptyUserName));
    assert_eq!(prepare("", "", Some("")), Err(ValidationError::EmptyUserName));
    assert_eq!(prepare("Alice", "", Some("")), Err(ValidationError::EmptyMeetingName));
    assert_eq!(prepare("Alice", "Planning", Some("")), Err(ValidationError::EmptyDescription));
    assert_eq!(prepare("Alice", "Planning", None), Ok(()));
}

#[test]
fn joining_an_existing_meeting_persists_the_user_and_the_link() {
    let mut store = Simulated::with_meeting(planning());
    let outcome = join(&mut store, bob(), id(0x99));
    assert_eq!(outcome, Outcome { result: Ok(()), rollback_failure: None });
    assert_eq!(store.ran, vec!["begin", "exists", "insert user", "insert participant", "commit"]);
    assert_eq!(store.durable.users, vec![bob()]);
    assert_eq!(store.durable.participants, vec![(id(0xb), id(0x99))]);
    assert_eq!(store.durable.meetings, vec![planning()]);
}

#[test]
fn joining_a_meeting_that_does_not_exist_writes_nothing() {
    let mut store = Simulated::with_meeting(planning());
    let outcome = join(&mut store, bob(), id(0x77));
    assert_eq!(
        outcome,
        Outcome { result: Err(JoinMeetingError::NonexistentMeeting(id(0x77))), rollback_failure: None }
    );
    assert_eq!(store.ran, vec!["begin", "exists"]);
    assert!(store.durable.users.is_empty());
    assert!(store.durable.participants.is_empty());
    assert_eq!(store.staged, Some(store.durable.clone()));
}

#[test]
fn join_checks_the_meeting_inside_the_transaction() {
    let (workflow, request) = JoinMeeting::<String>::start(bob(), id(0x99));
    assert_eq!(request, Request::Begin);
    assert_eq!(workflow.stage, JoinStage::Beginning);
    assert!(!workflow.expects(&Response::Exists(true)));
    let (workflow, request) = match workflow.step(Response::Done) {
        Step::Next(workflow, request) => (workflow, request),
        other => panic!("{:?}", other),
    };
    assert_eq!(request, Request::MeetingExists { meeting_id: id(0x99) });
    assert!(workflow.expects(&Response::Exists(false)));
    assert!(!workflow.expects(&Response::Done));
    let (workflow, request) = match workflow.step(Response::Exists(true)) {
        Step::Next(workflow, request) => (workflow, request),
        other => panic!("{:?}", other),
    };
    assert_eq!(request, Request::InsertUser(bob()));
    let (_, request) = match workflow.step(Response::Done) {
        Step::Next(workflow, request) => (workflow, request),
        other => panic!("{:?}", other),
    };
    assert_eq!(request, Request::InsertParticipant { user_id: id(0xb), meeting_id: id(0x99) });
}

#[test]
fn failed_join_is_rolled_back() {
    let mut store = Simulated::with_meeting(planning()).failing(&["insert participant", "rollback"]);
    let outcome = join(&mut store, bob(), id(0x99));
    assert_eq!(
        outcome,
        Outcome {
            result: Err(JoinMeetingError::Database("insert participant failed".to_string())),
            rollback_failure: Some("rollback failed".to_string()),
        }
    );
    assert_eq!(store.ran, vec!["begin", "exists", "insert user", "insert participant", "rollback"]);
    assert!(store.durable.users.is_empty());
    assert!(store.durable.participants.is_empty());

    let mut store = Simulated::with_meeting(planning()).failing(&["insert user"]);
    let outcome = join(&mut store, bob(), id(0x99));
    assert_eq!(outcome.result, Err(JoinMeetingError::Database("insert user failed".to_string())));
    assert_eq!(outcome.rollback_failure, None);
    assert_eq!(store.ran, vec!["begin", "exists", "insert user", "rollback"]);
}

#[test]
fn failed_begin_check_or_commit_ends_the_join_without_a_rollback() {
    for (failing, ran) in [
        ("begin", vec!["begin"]),
        ("exists", vec!["begin", "exists"]),
        ("commit", vec!["begin", "exists", "insert user", "insert participant", "commit"]),
    ] {
        let mut store = Simulated::with_meeting(planning()).failing(&[failing]);
        let outcome = join(&mut store, bob(), id(0x99));
        assert_eq!(
            outcome,
            Outcome {
                result: Err(JoinMeetingError::Database(format!("{} failed", failing))),
                rollback_failure: None,
            }
        );
        assert_eq!(store.ran, ran);
        assert!(store.durable.users.is_empty());
    }
}

#[test]
fn prepared_join_is_for_a_new_user_of_the_name_given() {
    let (workflow, request, answer) =
        JoinMeeting::<String>::prepare("Bob".to_string(), id(0x99)).unwrap();
    assert_eq!(request, Request::Begin);
    assert_eq!(workflow.meeting_id, id(0x99));
    assert_eq!(workflow.user.name(), "Bob");
    assert_eq!(
        answer,
        JoinMeetingResponse { id: workflow.user.id(), secret_token: workflow.user.secret_token() }
    );
    assert_eq!(
        JoinMeeting::<String>::prepare(String::new(), id(0x99)).map(|_| ()),
        Err(ValidationError::EmptyUserName)
    );
}

fn store_with_alice() -> Simulated {
    let mut store = Simulated::with_meeting(planning());
    store.durable.users.push(alice());
    store
}

#[test]
fn comment_is_posted_after_both_checks() {
    let mut store = store_with_alice();
    let comment = post(&mut store, id(0x99), id(0xa), id(0xa5ec), "See you there").unwrap();
    assert_eq!(store.ran, vec!["exists", "fetch token", "insert comment"]);
    assert_eq!(comment.user_id(), id(0xa));
    assert_eq!(comment.meeting_id(), id(0x99));
    assert_eq!(comment.message(), "See you there");
    assert_eq!(uuid::Uuid::from_u128(comment.id().as_u128()).get_version_num(), 4);
    assert_eq!(store.durable.comments, vec![comment]);
}

#[test]
fn comment_on_a_meeting_that_does_not_exist_is_rejected_at_once() {
    let mut store = store_with_alice();
    let outcome = post(&mut store, id(0x77), id(0xa), id(0xa5ec), "See you there");
    assert_eq!(outcome, Err(PostCommentError::NonexistentMeeting(id(0x77))));
    assert_eq!(store.ran, vec!["exists"]);
    assert!(store.durable.comments.is_empty());
}

#[test]
fn comment_of_an_unknown_user_is_rejected() {
    let mut store = store_with_alice();
    let outcome = post(&mut store, id(0x99), id(0xb), id(0xa5ec), "See you there");
    assert_eq!(outcome, Err(PostCommentError::NonexistentUser));
    assert_eq!(store.ran, vec!["exists", "fetch token"]);
    assert!(store.durable.comments.is_empty());
}

#[test]
fn comment_with_a_wrong_token_is_rejected() {
    let mut store = store_with_alice();
    let outcome = post(&mut store, id(0x99), id(0xa), id(0xb5ec), "See you there");
    assert_eq!(outcome, Err(PostCommentError::InvalidSecretToken));
    assert_eq!(store.ran, vec!["exists", "fetch token"]);
    assert!(store.durable.comments.is_empty());
}

#[test]
fn empty_comment_is_rejected_after_the_checks_and_before_the_insert() {
    let mut store = store_with_alice();
    let outcome = post(&mut store, id(0x99), id(0xa), id(0xa5ec), "");
    assert_eq!(outcome, Err(PostCommentError::Validation(ValidationError::EmptyComment)));
    assert_eq!(store.ran, vec!["exists", "fetch token"]);
    let outcome = post(&mut store, id(0x99), id(0xa), id(0xb5ec), "");
    assert_eq!(outcome, Err(PostCommentError::InvalidSecretToken));
}

#[test]
fn store_failures_end_the_posting_where_they_occur() {
    for (failing, ran) in [
        ("exists", vec!["exists"]),
        ("fetch token", vec!["exists", "fetch token"]),
        ("insert comment", vec!["exists", "fetch token", "insert comment"]),
    ] {
        let mut store = store_with_alice().failing(&[failing]);
        let outcome = post(&mut store, id(0x99), id(0xa), id(0xa5ec), "See you there");
        assert_eq!(outcome, Err(PostCommentError::Database(format!("{} failed", failing))));
        assert_eq!(store.ran, ran);
        assert!(store.durable.comments.is_empty());
    }
}

#[test]
fn post_comment_expects_the_answer_to_its_request() {
    let (workflow, request) = PostComment::start(id(0x99), id(0xa), id(0xa5ec), "hi".to_string());
    assert_eq!(request, Request::MeetingExists { meeting_id: id(0x99) });
    assert!(workflow.expects(&Response::<String>::Exists(true)));
    assert!(workflow.expects(&Response::Failed("down".to_string())));
    assert!(!workflow.expects(&Response::<String>::Done));
    assert!(!workflow.expects(&Response::<String>::SecretToken(None)));
    let (workflow, request) = match workflow.step(Response::<String>::Exists(true)) {
        Step::Next(workflow, request) => (workflow, request),
        other => panic!("{:?}", other),
    };
    assert_eq!(request, Request::FetchSecretToken { user_id: id(0xa) });
    assert!(workflow.expects(&Response::<String>::SecretToken(None)));
    assert!(!workflow.expects(&Response::<String>::Exists(true)));
}

#[test]
fn response_that_does_not_answer_is_set_aside() {
    let (workflow, request) = JoinMeeting::<String>::start(bob(), id(0x99));
    assert_eq!(workflow.request(), request);
    let (workflow, request) = match workflow.step(Response::Exists(true)) {
        Step::Next(workflow, request) => (workflow, request),
        other => panic!("{:?}", other),
    };
    assert_eq!(request, Request::Begin);
    assert_eq!(workflow.stage, JoinStage::Beginning);
    let (workflow, _) = match workflow.step(Response::Done) {
        Step::Next(workflow, request) => (workflow, request),
        other => panic!("{:?}", other),
    };
    let (workflow, request) = match workflow.step(Response::Done) {
        Step::Next(workflow, request) => (workflow, request),
        other => panic!("{:?}", other),
    };
    assert_eq!(request, Request::MeetingExists { meeting_id: id(0x99) });
    assert_eq!(workflow.stage, JoinStage::CheckingMeeting);
    assert_eq!(workflow.request(), request);

    let (workflow, _) = CreateMeeting::<String>::start(alice(), planning());
    let (workflow, request) = match workflow.step(Response::SecretToken(None)) {
        Step::Next(workflow, request) => (workflow, request),
        other => panic!("{:?}", other),
    };
    assert_eq!(request, Request::Begin);
    assert_eq!(workflow.stage, CreateStage::Beginning);

    let (workflow, _) = PostComment::start(id(0x99), id(0xa), id(0xa5ec), "hi".to_string());
    let (workflow, request) = match workflow.step(Response::<String>::Done) {
        Step::Next(workflow, request) => (workflow, request),
        other => panic!("{:?}", other),
    };
    assert_eq!(request, Request::MeetingExists { meeting_id: id(0x99) });
    assert_eq!(workflow.request(), request);
}

#[test]
fn request_under_way_is_the_one_last_asked_for() {
    let (mut workflow, mut request) = CreateMeeting::<String>::start(alice(), planning());
    loop {
        assert_eq!(workflow.request(), request);
        match workflow.step(Response::Done) {
            Step::Next(next, then) => {
                workflow = next;
                request = then;
            }
            Step::Finished(outcome) => {
                assert_eq!(outcome.result, Ok(()));
                break;
            }
        }
    }
    let (workflow, _) = CreateMeeting::<String>::start(alice(), planning());
    let (workflow, _) = match workflow.step(Response::Done) {
        Step::Next(workflow, request) => (workflow, request),
        other => panic!("{:?}", other),
    };
    let (workflow, request) = match workflow.step(Response::Failed("no".to_string())) {
        Step::Next(workflow, request) => (workflow, request),
        other => panic!("{:?}", other),
    };
    assert_eq!(request, Request::Rollback);
    assert_eq!(workflow.request(), Request::Rollback);
    assert_eq!(workflow.stage, CreateStage::RollingBack("no".to_string()));
}
