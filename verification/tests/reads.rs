use meetings::aggregate::DataIntegrityError;
use meetings::aggregate::MeetingComment;
use meetings::aggregate::MeetingInfo;
use meetings::aggregate::Participant;
use meetings::aggregate::ParticipantVote;
use meetings::aggregate::ProposedDate;
use meetings::calendar::CalendarDate;
use meetings::calendar::Timestamp;
use meetings::credentials::validate_user_credentials;
use meetings::credentials::CredentialValidationError;
use meetings::disposition::Disposition;
use meetings::entity::ValidationError;
use meetings::join_meeting::JoinMeetingError;
use meetings::post_comment::PostCommentError;
use meetings::row::InvalidRowError;
use meetings::ident::Id;
use meetings::read_meeting::ReadMeeting;
use meetings::read_meeting::ReadMeetingError;
use meetings::row::RawRow;
use meetings::store::Request;
use meetings::store::Response;
use meetings::store::Step;
use meetings::vote::StoredVote;
use meetings::vote::Vote;

fn id(bits: u128) -> Id {
    Id::from_u128(bits)
}

fn info() -> MeetingInfo {
    MeetingInfo {
        name: "Planning".to_string(),
        description: None,
        created_by: id(1),
        created_at: Timestamp::from_unix_nanos(1_709_251_200_000_000_000),
    }
}

fn comments() -> Vec<MeetingComment> {
    vec![
        MeetingComment {
            message: "second".to_string(),
            written_by: id(2),
            posted_at: Timestamp::from_unix_nanos(20),
        },
        MeetingComment {
            message: "first".to_string(),
            written_by: id(1),
            posted_at: Timestamp::from_unix_nanos(10),
        },
    ]
}

fn vote_row(user: u128, name: &str, vote: StoredVote) -> RawRow {
    RawRow {
        user_id: Some(id(user)),
        name: Some(name.to_string()),
        date_id: Some(id(0xd1)),
        date: CalendarDate::new(2024, 3, 1),
        vote: Some(vote),
        comment: None,
    }
}

fn next(step: Step<ReadMeeting, Result<meetings::aggregate::Meeting, ReadMeetingError<String>>>) -> (ReadMeeting, Request) {
    match step {
        Step::Next(workflow, request) => (workflow, request),
        Step::Finished(outcome) => panic!("finished early: {:?}", outcome),
    }
}

#[test]
fn stored_token_is_approved() {
    assert_eq!(validate_user_credentials::<String>(Ok(Some(id(7))), id(7)), Ok(()));
}

#[test]
fn other_token_is_invalid() {
    assert_eq!(
        validate_user_credentials::<String>(Ok(Some(id(7))), id(8)),
        Err(CredentialValidationError::InvalidSecretToken)
    );
}

#[test]
fn unknown_user_does_not_exist() {
    assert_eq!(
        validate_user_credentials::<String>(Ok(None), id(7)),
        Err(CredentialValidationError::NonexistentUser)
    );
}

#[test]
fn failed_lookup_is_a_database_error() {
    assert_eq!(
        validate_user_credentials(Err("down".to_string()), id(7)),
        Err(CredentialValidationError::DatabaseError("down".to_string()))
    );
}

#[test]
fn meeting_is_read_in_three_requests_and_built() {
    let (workflow, request) = ReadMeeting::start(id(0x99));
    assert_eq!(request, Request::FetchMeetingInfo { meeting_id: id(0x99) });
    assert!(workflow.expects(&Response::<String>::MeetingInfo(None)));
    assert!(!workflow.expects(&Response::<String>::Rows(Vec::new())));
    let (workflow, request) = next(workflow.step(Response::MeetingInfo(Some(info()))));
    assert_eq!(request, Request::FetchComments { meeting_id: id(0x99) });
    assert!(workflow.expects(&Response::<String>::Comments(Vec::new())));
    assert!(!workflow.expects(&Response::<String>::MeetingInfo(None)));
    let (workflow, request) = next(workflow.step(Response::Comments(comments())));
    assert_eq!(request, Request::FetchRows { meeting_id: id(0x99) });
    assert!(workflow.expects(&Response::<String>::Rows(Vec::new())));
    let rows = vec![vote_row(1, "Alice", StoredVote::Okay), vote_row(2, "Bob", StoredVote::No)];
    match workflow.step(Response::<String>::Rows(rows)) {
        Step::Finished(Ok(meeting)) => {
            assert_eq!(meeting.meeting_info(), &info());
            assert_eq!(meeting.comments(), &comments());
            assert_eq!(
                meeting.participants(),
                &vec![
                    Participant { id: id(1), name: "Alice".to_string() },
                    Participant { id: id(2), name: "Bob".to_string() },
                ]
            );
            assert_eq!(
                meeting.proposed_dates(),
                &vec![ProposedDate { id: id(0xd1), date: CalendarDate::new(2024, 3, 1).unwrap() }]
            );
            assert_eq!(
                meeting.votes(),
                &vec![
                    ParticipantVote { participant_id: id(1), date_id: id(0xd1), vote: Vote::Yes, comment: None },
                    ParticipantVote { participant_id: id(2), date_id: id(0xd1), vote: Vote::No, comment: None },
                ]
            );
        }
        other => panic!("{:?}", other),
    }
}

#[test]
fn meeting_that_does_not_exist_is_not_read_further() {
    let (workflow, _) = ReadMeeting::start(id(0x99));
    assert_eq!(
        workflow.step(Response::<String>::MeetingInfo(None)),
        Step::Finished(Err(ReadMeetingError::NonexistentMeeting(id(0x99))))
    );
}

#[test]
fn store_failure_ends_the_read_at_any_request() {
    let (workflow, _) = ReadMeeting::start(id(0x99));
    assert_eq!(
        workflow.step(Response::Failed("down".to_string())),
        Step::Finished(Err(ReadMeetingError::Database("down".to_string())))
    );
    let (workflow, _) = ReadMeeting::start(id(0x99));
    let (workflow, _) = next(workflow.step(Response::MeetingInfo(Some(info()))));
    assert_eq!(
        workflow.step(Response::Failed("down".to_string())),
        Step::Finished(Err(ReadMeetingError::Database("down".to_string())))
    );
    let (workflow, _) = ReadMeeting::start(id(0x99));
    let (workflow, _) = next(workflow.step(Response::MeetingInfo(Some(info()))));
    let (workflow, _) = next(workflow.step(Response::Comments(Vec::new())));
    assert_eq!(
        workflow.step(Response::Failed("down".to_string())),
        Step::Finished(Err(ReadMeetingError::Database("down".to_string())))
    );
}

#[test]
fn defective_rows_end_the_read_with_a_data_integrity_error() {
    let (workflow, _) = ReadMeeting::start(id(0x99));
    let (workflow, _) = next(workflow.step(Response::<String>::MeetingInfo(Some(info()))));
    let (workflow, _) = next(workflow.step(Response::<String>::Comments(Vec::new())));
    let rows = vec![vote_row(1, "Alice", StoredVote::Okay), vote_row(1, "Alice", StoredVote::Maybe)];
    assert_eq!(
        workflow.step(Response::<String>::Rows(rows)),
        Step::Finished(Err(ReadMeetingError::DataIntegrity(DataIntegrityError::DuplicateVote(
            ParticipantVote { participant_id: id(1), date_id: id(0xd1), vote: Vote::Maybe, comment: None }
        ))))
    );
}

#[test]
fn read_sets_aside_what_does_not_answer() {
    let (workflow, request) = ReadMeeting::start(id(0x99));
    let (workflow, again) = next(workflow.step(Response::<String>::Comments(Vec::new())));
    assert_eq!(again, request);
    assert_eq!(workflow, ReadMeeting::FetchingInfo { meeting_id: id(0x99) });
    let (workflow, _) = next(workflow.step(Response::<String>::MeetingInfo(Some(info()))));
    let (workflow, again) = next(workflow.step(Response::<String>::MeetingInfo(None)));
    assert_eq!(again, Request::FetchComments { meeting_id: id(0x99) });
    let (workflow, _) = next(workflow.step(Response::<String>::Comments(comments())));
    let (workflow, again) = next(workflow.step(Response::<String>::Done));
    assert_eq!(again, Request::FetchRows { meeting_id: id(0x99) });
    assert_eq!(
        workflow,
        ReadMeeting::FetchingRows { meeting_id: id(0x99), meeting_info: info(), comments: comments() }
    );
}

#[test]
fn requests_are_rejected_and_the_service_fails() {
    let down = || "down".to_string();
    for defect in [
        ValidationError::EmptyUserName,
        ValidationError::EmptyMeetingName,
        ValidationError::EmptyDescription,
        ValidationError::EmptyComment,
    ] {
        assert_eq!(defect.disposition(), Disposition::Rejected);
        assert_eq!(PostCommentError::<String>::Validation(defect).disposition(), Disposition::Rejected);
    }
    assert_eq!(JoinMeetingError::<String>::NonexistentMeeting(id(1)).disposition(), Disposition::Rejected);
    assert_eq!(JoinMeetingError::Database(down()).disposition(), Disposition::ServerFailure);
    assert_eq!(PostCommentError::<String>::NonexistentMeeting(id(1)).disposition(), Disposition::Rejected);
    assert_eq!(PostCommentError::<String>::NonexistentUser.disposition(), Disposition::Rejected);
    assert_eq!(PostCommentError::<String>::InvalidSecretToken.disposition(), Disposition::Rejected);
    assert_eq!(PostCommentError::Database(down()).disposition(), Disposition::ServerFailure);
    assert_eq!(CredentialValidationError::<String>::NonexistentUser.disposition(), Disposition::Rejected);
    assert_eq!(CredentialValidationError::<String>::InvalidSecretToken.disposition(), Disposition::Rejected);
    assert_eq!(CredentialValidationError::DatabaseError(down()).disposition(), Disposition::ServerFailure);
    assert_eq!(ReadMeetingError::<String>::NonexistentMeeting(id(1)).disposition(), Disposition::Rejected);
    assert_eq!(ReadMeetingError::Database(down()).disposition(), Disposition::ServerFailure);
    let keyless = RawRow { user_id: None, name: None, date_id: None, date: None, vote: None, comment: None };
    let defect = DataIntegrityError::InvalidRow(InvalidRowError { row: keyless });
    assert_eq!(defect.disposition(), Disposition::ServerFailure);
    assert_eq!(ReadMeetingError::<String>::DataIntegrity(defect).disposition(), Disposition::ServerFailure);
}
