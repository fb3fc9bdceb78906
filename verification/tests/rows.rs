use meetings::calendar::CalendarDate;
use meetings::ident::Id;
use meetings::row::Fact;
use meetings::row::InvalidRowError;
use meetings::row::RawRow;
use meetings::vote::StoredVote;
use meetings::vote::Vote;

fn id(bits: u128) -> Id {
    Id::from_u128(bits)
}

fn day(year: i32, month: u8, day: u8) -> CalendarDate {
    CalendarDate::new(year, month, day).unwrap()
}

fn row(
    user_id: Option<u128>,
    name: Option<&str>,
    date_id: Option<u128>,
    date: Option<CalendarDate>,
    vote: Option<StoredVote>,
    comment: Option<&str>,
) -> RawRow {
    RawRow {
        user_id: user_id.map(id),
        name: name.map(String::from),
        date_id: date_id.map(id),
        date,
        vote,
        comment: comment.map(String::from),
    }
}

fn rejected(row: RawRow) {
    let kept = row.clone();
    assert_eq!(Fact::try_from(row), Err(InvalidRowError { row: kept }));
}

#[test]
fn participant_row_is_a_participant() {
    let fact = Fact::try_from(row(Some(1), Some("Alice"), None, None, None, None));
    assert_eq!(fact, Ok(Fact::Participant { user_id: id(1), name: "Alice".to_string() }));
}

#[test]
fn participant_row_ignores_the_columns_of_the_other_facts() {
    let fact = Fact::try_from(row(
        Some(1),
        Some("Alice"),
        None,
        Some(day(2024, 3, 1)),
        Some(StoredVote::No),
        Some("stray"),
    ));
    assert_eq!(fact, Ok(Fact::Participant { user_id: id(1), name: "Alice".to_string() }));
}

#[test]
fn date_row_is_a_proposed_date() {
    let fact = Fact::try_from(row(None, None, Some(7), Some(day(2024, 3, 1)), None, None));
    assert_eq!(fact, Ok(Fact::ProposedDate { date_id: id(7), date: day(2024, 3, 1) }));
}

#[test]
fn date_row_ignores_a_stray_name() {
    let fact = Fact::try_from(row(None, Some("ghost"), Some(7), Some(day(2024, 3, 1)), None, None));
    assert_eq!(fact, Ok(Fact::ProposedDate { date_id: id(7), date: day(2024, 3, 1) }));
}

#[test]
fn vote_row_is_a_vote_and_carries_name_and_date() {
    let fact = Fact::try_from(row(
        Some(1),
        Some("Alice"),
        Some(7),
        Some(day(2024, 3, 1)),
        Some(StoredVote::Okay),
        Some("works for me"),
    ));
    assert_eq!(
        fact,
        Ok(Fact::Vote {
            user_id: id(1),
            name: "Alice".to_string(),
            date_id: id(7),
            date: day(2024, 3, 1),
            vote: Vote::Yes,
            comment: Some("works for me".to_string()),
        })
    );
}

#[test]
fn vote_row_needs_no_comment() {
    let fact = Fact::try_from(row(
        Some(1),
        Some("Alice"),
        Some(7),
        Some(day(2024, 3, 1)),
        Some(StoredVote::Maybe),
        None,
    ));
    assert_eq!(
        fact,
        Ok(Fact::Vote {
            user_id: id(1),
            name: "Alice".to_string(),
            date_id: id(7),
            date: day(2024, 3, 1),
            vote: Vote::Maybe,
            comment: None,
        })
    );
}

#[test]
fn row_without_join_keys_is_invalid() {
    rejected(row(None, None, None, None, None, None));
}

#[test]
fn row_without_join_keys_is_invalid_whatever_else_it_holds() {
    rejected(row(None, Some("Alice"), None, Some(day(2024, 3, 1)), Some(StoredVote::Okay), Some("x")));
    rejected(row(None, Some("Alice"), None, None, None, None));
    rejected(row(None, None, None, Some(day(2024, 3, 1)), None, None));
    rejected(row(None, None, None, None, Some(StoredVote::No), None));
    rejected(row(None, None, None, None, None, Some("x")));
}

#[test]
fn participant_row_without_name_is_invalid() {
    rejected(row(Some(1), None, None, None, None, None));
    rejected(row(Some(1), None, None, Some(day(2024, 3, 1)), Some(StoredVote::No), None));
}

#[test]
fn date_row_without_date_is_invalid() {
    rejected(row(None, None, Some(7), None, None, None));
    rejected(row(None, Some("Alice"), Some(7), None, Some(StoredVote::No), None));
}

#[test]
fn vote_row_without_name_date_or_vote_is_invalid() {
    let date = Some(day(2024, 3, 1));
    let vote = Some(StoredVote::No);
    rejected(row(Some(1), None, Some(7), date, vote, None));
    rejected(row(Some(1), Some("Alice"), Some(7), None, vote, None));
    rejected(row(Some(1), Some("Alice"), Some(7), date, None, None));
    rejected(row(Some(1), None, Some(7), None, None, Some("x")));
}

#[test]
fn invalid_row_error_carries_the_row_unchanged() {
    let offending = row(Some(1), None, Some(7), Some(day(2024, 3, 1)), None, Some("why"));
    match Fact::try_from(offending.clone()) {
        Err(error) => {
            assert_eq!(error.row.user_id, Some(id(1)));
            assert_eq!(error.row.name, None);
            assert_eq!(error.row.date_id, Some(id(7)));
            assert_eq!(error.row.date, Some(day(2024, 3, 1)));
            assert_eq!(error.row.vote, None);
            assert_eq!(error.row.comment, Some("why".to_string()));
            assert_eq!(error.row, offending);
        }
        Ok(fact) => panic!("accepted as {:?}", fact),
    }
}

#[test]
fn try_into_gives_the_same_fact() {
    let fact: Result<Fact, InvalidRowError> =
        row(None, None, Some(7), Some(day(2023, 12, 31)), None, None).try_into();
    assert_eq!(fact, Ok(Fact::ProposedDate { date_id: id(7), date: day(2023, 12, 31) }));
}

#[test]
fn stored_votes_are_presented() {
    assert_eq!(Vote::from(StoredVote::No), Vote::No);
    assert_eq!(Vote::from(StoredVote::Maybe), Vote::Maybe);
    assert_eq!(Vote::from(StoredVote::Okay), Vote::Yes);
    let presented: Vote = StoredVote::Okay.into();
    assert_eq!(presented, Vote::Yes);
}
