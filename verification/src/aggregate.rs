//! The meeting aggregate: what one read of a meeting answers with.
//!
//! The aggregate is rebuilt on every read from the meeting's own row, its
//! comments and the outer-joined row set of participants, proposed dates and
//! votes. Participants and proposed dates are kept once each, in the order
//! in which the rows first mention them. Votes are kept in row order, and
//! two votes of one participant on one date are an error.

use crate::aggregate_laws::law_sound_rows_give_a_well_formed_aggregate;
use crate::calendar::CalendarDate;
use crate::calendar::Timestamp;
use crate::ident::Id;
use crate::row::classified;
use crate::row::Fact;
use crate::row::FactView;
use crate::row::InvalidRowError;
use crate::row::lemma_validated_content;
use crate::row::RawRow;
use crate::row::RawRowView;
use crate::vote::Vote;
use vstd::prelude::*;
use vstd::std_specs::cmp::PartialEqSpecImpl;

verus! {

/// Whether two optional texts read the same.
pub fn same_text(a: &Option<String>, b: &Option<String>) -> (same: bool)
    ensures
        same == (a.deep_view() == b.deep_view()),
{
    match (a, b) {
        (Some(x), Some(y)) => *x == *y,
        (None, None) => true,
        _ => false,
    }
}

/// A copy of an optional text.
pub fn copy_of(text: &Option<String>) -> (copy: Option<String>)
    ensures
        copy == *text,
{
    match text {
        Some(text) => Some(text.clone()),
        None => None,
    }
}

/// The mathematical content of a [`Participant`].
pub ghost struct ParticipantView {
    pub id: Id,
    pub name: Seq<char>,
}

/// Someone who takes part in the meeting. Two participants are equal where
/// both identifier and name are.
#[derive(Debug)]
pub struct Participant {
    pub id: Id,
    pub name: String,
}

impl DeepView for Participant {
    type V = ParticipantView;

    open spec fn deep_view(&self) -> ParticipantView {
        ParticipantView { id: self.id, name: self.name@ }
    }
}

impl Clone for Participant {
    fn clone(&self) -> (copy: Participant)
        ensures
            copy == *self,
    {
        Participant { id: self.id, name: self.name.clone() }
    }
}

impl PartialEq for Participant {
    fn eq(&self, other: &Participant) -> (equal: bool) {
        self.id == other.id && self.name == other.name
    }
}

impl PartialEqSpecImpl for Participant {
    open spec fn obeys_eq_spec() -> bool {
        true
    }

    open spec fn eq_spec(&self, other: &Participant) -> bool {
        self.deep_view() == other.deep_view()
    }
}

/// A date proposed for the meeting. Two proposed dates are equal where both
/// identifier and date are.
#[derive(Clone, Copy, Debug, PartialEq, Eq, Hash, Structural)]
pub struct ProposedDate {
    pub id: Id,
    pub date: CalendarDate,
}

impl DeepView for ProposedDate {
    type V = ProposedDate;

    open spec fn deep_view(&self) -> ProposedDate {
        *self
    }
}

/// The mathematical content of a [`ParticipantVote`].
pub ghost struct ParticipantVoteView {
    pub participant_id: Id,
    pub date_id: Id,
    pub vote: Vote,
    pub comment: Option<Seq<char>>,
}

impl ParticipantVoteView {
    /// What identifies a vote: who cast it, and on which date.
    pub open spec fn key(self) -> (Id, Id) {
        (self.participant_id, self.date_id)
    }
}

/// The answer of one participant to one proposed date.
#[derive(Debug)]
pub struct ParticipantVote {
    pub participant_id: Id,
    pub date_id: Id,
    pub vote: Vote,
    pub comment: Option<String>,
}

impl DeepView for ParticipantVote {
    type V = ParticipantVoteView;

    open spec fn deep_view(&self) -> ParticipantVoteView {
        ParticipantVoteView {
            participant_id: self.participant_id,
            date_id: self.date_id,
            vote: self.vote,
            comment: self.comment.deep_view(),
        }
    }
}

impl Clone for ParticipantVote {
    fn clone(&self) -> (copy: ParticipantVote)
        ensures
            copy == *self,
    {
        ParticipantVote {
            participant_id: self.participant_id,
            date_id: self.date_id,
            vote: self.vote,
            comment: copy_of(&self.comment),
        }
    }
}

impl PartialEq for ParticipantVote {
    fn eq(&self, other: &ParticipantVote) -> (equal: bool) {
        self.participant_id == other.participant_id && self.date_id == other.date_id && self.vote
            == other.vote && same_text(&self.comment, &other.comment)
    }
}

impl PartialEqSpecImpl for ParticipantVote {
    open spec fn obeys_eq_spec() -> bool {
        true
    }

    open spec fn eq_spec(&self, other: &ParticipantVote) -> bool {
        self.deep_view() == other.deep_view()
    }
}

/// The mathematical content of a [`MeetingInfo`].
pub ghost struct MeetingInfoView {
    pub name: Seq<char>,
    pub description: Option<Seq<char>>,
    pub created_by: Id,
    pub created_at: Timestamp,
}

/// A meeting's own row: its name, its description if it has one, who
/// created it and when.
#[derive(Debug)]
pub struct MeetingInfo {
    pub name: String,
    pub description: Option<String>,
    pub created_by: Id,
    pub created_at: Timestamp,
}

impl DeepView for MeetingInfo {
    type V = MeetingInfoView;

    open spec fn deep_view(&self) -> MeetingInfoView {
        MeetingInfoView {
            name: self.name@,
            description: self.description.deep_view(),
            created_by: self.created_by,
            created_at: self.created_at,
        }
    }
}

impl Clone for MeetingInfo {
    fn clone(&self) -> (copy: MeetingInfo)
        ensures
            copy == *self,
    {
        MeetingInfo {
            name: self.name.clone(),
            description: copy_of(&self.description),
            created_by: self.created_by,
            created_at: self.created_at,
        }
    }
}

impl PartialEq for MeetingInfo {
    fn eq(&self, other: &MeetingInfo) -> (equal: bool) {
        self.name == other.name && same_text(&self.description, &other.description)
            && self.created_by == other.created_by && self.created_at == other.created_at
    }
}

impl PartialEqSpecImpl for MeetingInfo {
    open spec fn obeys_eq_spec() -> bool {
        true
    }

    open spec fn eq_spec(&self, other: &MeetingInfo) -> bool {
        self.deep_view() == other.deep_view()
    }
}

/// The mathematical content of a [`MeetingComment`].
pub ghost struct MeetingCommentView {
    pub message: Seq<char>,
    pub written_by: Id,
    pub posted_at: Timestamp,
}

/// A comment on the meeting, as a read shows it.
#[derive(Debug)]
pub struct MeetingComment {
    pub message: String,
    pub written_by: Id,
    pub posted_at: Timestamp,
}

impl DeepView for MeetingComment {
    type V = MeetingCommentView;

    open spec fn deep_view(&self) -> MeetingCommentView {
        MeetingCommentView {
            message: self.message@,
            written_by: self.written_by,
            posted_at: self.posted_at,
        }
    }
}

impl Clone for MeetingComment {
    fn clone(&self) -> (copy: MeetingComment)
        ensures
            copy == *self,
    {
        MeetingComment {
            message: self.message.clone(),
            written_by: self.written_by,
            posted_at: self.posted_at,
        }
    }
}

impl PartialEq for MeetingComment {
    fn eq(&self, other: &MeetingComment) -> (equal: bool) {
        self.message == other.message && self.written_by == other.written_by && self.posted_at
            == other.posted_at
    }
}

impl PartialEqSpecImpl for MeetingComment {
    open spec fn obeys_eq_spec() -> bool {
        true
    }

    open spec fn eq_spec(&self, other: &MeetingComment) -> bool {
        self.deep_view() == other.deep_view()
    }
}


/// The participant that a row mentions: the one of a participant row, or
/// the one who cast the vote of a vote row. An invalid row mentions none.
pub open spec fn participant_of(row: RawRowView) -> Option<ParticipantView> {
    match classified(row) {
        Some(FactView::Participant { user_id, name }) => Some(
            ParticipantView { id: user_id, name },
        ),
        Some(FactView::Vote { user_id, name, .. }) => Some(ParticipantView { id: user_id, name }),
        _ => None,
    }
}

/// The proposed date that a row mentions: the one of a date row, or the one
/// that the vote of a vote row is for. An invalid row mentions none.
pub open spec fn date_of(row: RawRowView) -> Option<ProposedDate> {
    match classified(row) {
        Some(FactView::ProposedDate { date_id, date }) => Some(ProposedDate { id: date_id, date }),
        Some(FactView::Vote { date_id, date, .. }) => Some(ProposedDate { id: date_id, date }),
        _ => None,
    }
}

/// The vote that a row holds, if it is a valid vote row.
pub open spec fn vote_of(row: RawRowView) -> Option<ParticipantVoteView> {
    match classified(row) {
        Some(FactView::Vote { user_id, date_id, vote, comment, .. }) => Some(
            ParticipantVoteView { participant_id: user_id, date_id, vote, comment },
        ),
        _ => None,
    }
}

/// [`participant_of`], as a function to map rows with.
pub open spec fn pick_participant() -> spec_fn(RawRowView) -> Option<ParticipantView> {
    |row: RawRowView| participant_of(row)
}

/// [`date_of`], as a function to map rows with.
pub open spec fn pick_date() -> spec_fn(RawRowView) -> Option<ProposedDate> {
    |row: RawRowView| date_of(row)
}

/// [`vote_of`], as a function to map rows with.
pub open spec fn pick_vote() -> spec_fn(RawRowView) -> Option<ParticipantVoteView> {
    |row: RawRowView| vote_of(row)
}

/// The row holds a vote of the participant and on the date that `key` names.
pub open spec fn casts(row: RawRowView, key: (Id, Id)) -> bool {
    vote_of(row) matches Some(vote) && vote.key() == key
}

/// The items of a sequence without their repetitions: each item once, at the
/// place of its first occurrence.
pub open spec fn distinct<T>(items: Seq<T>) -> Seq<T>
    decreases items.len(),
{
    if items.len() == 0 {
        Seq::empty()
    } else {
        let earlier = distinct(items.drop_last());
        if earlier.contains(items.last()) {
            earlier
        } else {
            earlier.push(items.last())
        }
    }
}

/// Row `i` holds a vote of a participant on a date for which an earlier row
/// holds a vote already.
pub open spec fn repeats_vote(rows: Seq<RawRowView>, i: int) -> bool {
    vote_of(rows[i]) matches Some(vote) && exists|j: int|
        0 <= j < i && casts(#[trigger] rows[j], vote.key())
}

/// Row `i` breaks the store's invariant: it is invalid, or it repeats a vote.
pub open spec fn defective(rows: Seq<RawRowView>, i: int) -> bool {
    classified(rows[i]) is None || repeats_vote(rows, i)
}

/// No row breaks the store's invariant.
pub open spec fn sound(rows: Seq<RawRowView>) -> bool {
    forall|i: int| 0 <= i < rows.len() ==> !defective(rows, i)
}

/// Row `i` is the first that breaks the store's invariant.
pub open spec fn first_defect(rows: Seq<RawRowView>, i: int) -> bool {
    &&& 0 <= i < rows.len()
    &&& defective(rows, i)
    &&& forall|j: int| 0 <= j < i ==> !defective(rows, j)
}

/// The mathematical content of a [`DataIntegrityError`].
pub ghost enum DataIntegrityErrorView {
    InvalidRow(RawRowView),
    DuplicateVote(ParticipantVoteView),
}

/// The store answered with rows that break its own invariant. This is no
/// fault of the request: it tells of a bug or of corrupted data.
#[derive(Debug, PartialEq)]
pub enum DataIntegrityError {
    /// A row whose null pattern encodes no fact.
    InvalidRow(InvalidRowError),
    /// A second vote of one participant on one date. It carries that vote.
    DuplicateVote(ParticipantVote),
}

impl DeepView for DataIntegrityError {
    type V = DataIntegrityErrorView;

    open spec fn deep_view(&self) -> DataIntegrityErrorView {
        match self {
            DataIntegrityError::InvalidRow(error) => DataIntegrityErrorView::InvalidRow(
                error.row.deep_view(),
            ),
            DataIntegrityError::DuplicateVote(vote) => DataIntegrityErrorView::DuplicateVote(
                vote.deep_view(),
            ),
        }
    }
}

/// What is reported of the defective row `i`: the row where it is invalid,
/// else the vote that it repeats.
pub open spec fn defect(rows: Seq<RawRowView>, i: int) -> DataIntegrityErrorView {
    match vote_of(rows[i]) {
        Some(vote) => DataIntegrityErrorView::DuplicateVote(vote),
        None => DataIntegrityErrorView::InvalidRow(rows[i]),
    }
}

/// The mathematical content of a [`Meeting`].
pub ghost struct MeetingView {
    pub meeting_info: MeetingInfoView,
    pub comments: Seq<MeetingCommentView>,
    pub participants: Seq<ParticipantView>,
    pub proposed_dates: Seq<ProposedDate>,
    pub votes: Seq<ParticipantVoteView>,
}

impl MeetingView {
    /// No participant and no proposed date is listed twice, and no two
    /// votes are of one participant on one date.
    pub open spec fn wf(self) -> bool {
        &&& self.participants.no_duplicates()
        &&& self.proposed_dates.no_duplicates()
        &&& forall|i: int, j: int|
            0 <= i < j < self.votes.len() ==> (#[trigger] self.votes[i]).key() != (
            #[trigger] self.votes[j]).key()
    }
}

/// The aggregate of the given meeting row, comments and joined rows: the
/// comments as they came, every participant and every proposed date that a
/// row mentions, once each and in the order of first mention, and the votes
/// in row order.
pub open spec fn assembled(
    meeting_info: MeetingInfoView,
    comments: Seq<MeetingCommentView>,
    rows: Seq<RawRowView>,
) -> MeetingView {
    MeetingView {
        meeting_info,
        comments,
        participants: distinct(rows.filter_map(pick_participant())),
        proposed_dates: distinct(rows.filter_map(pick_date())),
        votes: rows.filter_map(pick_vote()),
    }
}

/// The read-side view of one meeting.
#[derive(Debug, PartialEq)]
pub struct Meeting {
    meeting_info: MeetingInfo,
    comments: Vec<MeetingComment>,
    participants: Vec<Participant>,
    proposed_dates: Vec<ProposedDate>,
    votes: Vec<ParticipantVote>,
}

impl DeepView for Meeting {
    type V = MeetingView;

    closed spec fn deep_view(&self) -> MeetingView {
        MeetingView {
            meeting_info: self.meeting_info.deep_view(),
            comments: self.comments.deep_view(),
            participants: self.participants.deep_view(),
            proposed_dates: self.proposed_dates.deep_view(),
            votes: self.votes.deep_view(),
        }
    }
}

/// Whether `list` holds a participant equal to `participant`.
fn holds_participant(list: &Vec<Participant>, participant: &Participant) -> (found: bool)
    ensures
        found == list.deep_view().contains(participant.deep_view()),
{
    let mut i: usize = 0;
    while i < list.len()
        invariant
            i <= list.len(),
            forall|k: int| 0 <= k < i ==> list.deep_view()[k] != participant.deep_view(),
        decreases list.len() - i,
    {
        if list[i] == *participant {
            assert(list.deep_view()[i as int] == participant.deep_view());
            return true;
        }
        i = i + 1;
    }
    false
}

/// Whether `list` holds a proposed date equal to `date`.
fn holds_date(list: &Vec<ProposedDate>, date: &ProposedDate) -> (found: bool)
    ensures
        found == list.deep_view().contains(*date),
{
    let mut i: usize = 0;
    while i < list.len()
        invariant
            i <= list.len(),
            forall|k: int| 0 <= k < i ==> list.deep_view()[k] != *date,
        decreases list.len() - i,
    {
        if list[i] == *date {
            assert(list.deep_view()[i as int] == *date);
            return true;
        }
        i = i + 1;
    }
    false
}

/// Whether `list` holds a vote of `participant_id` on `date_id`.
fn holds_vote_of(list: &Vec<ParticipantVote>, participant_id: Id, date_id: Id) -> (found: bool)
    ensures
        found == exists|k: int|
            0 <= k < list.len() && (#[trigger] list.deep_view()[k]).key() == (
                participant_id,
                date_id,
            ),
{
    let mut i: usize = 0;
    while i < list.len()
        invariant
            i <= list.len(),
            forall|k: int|
                0 <= k < i ==> (#[trigger] list.deep_view()[k]).key() != (participant_id, date_id),
        decreases list.len() - i,
    {
        if list[i].participant_id == participant_id && list[i].date_id == date_id {
            assert(list.deep_view()[i as int].key() == (participant_id, date_id));
            return true;
        }
        i = i + 1;
    }
    false
}

/// Removing repetitions goes item by item: a further item is added exactly
/// where it is not there yet.
pub proof fn lemma_distinct_push<T>(items: Seq<T>, item: T)
    ensures
        distinct(items.push(item)) == if distinct(items).contains(item) {
            distinct(items)
        } else {
            distinct(items).push(item)
        },
{
    assert(items.push(item).drop_last() =~= items);
}

/// What one more row adds to the three collections of the aggregate.
pub proof fn lemma_next_row(rows: Seq<RawRowView>, i: int)
    requires
        0 <= i < rows.len(),
    ensures
        rows.take(i + 1).filter_map(pick_participant()) == match participant_of(rows[i]) {
            Some(p) => rows.take(i).filter_map(pick_participant()).push(p),
            None => rows.take(i).filter_map(pick_participant()),
        },
        rows.take(i + 1).filter_map(pick_date()) == match date_of(rows[i]) {
            Some(d) => rows.take(i).filter_map(pick_date()).push(d),
            None => rows.take(i).filter_map(pick_date()),
        },
        rows.take(i + 1).filter_map(pick_vote()) == match vote_of(rows[i]) {
            Some(v) => rows.take(i).filter_map(pick_vote()).push(v),
            None => rows.take(i).filter_map(pick_vote()),
        },
{
    assert(rows.take(i + 1).drop_last() =~= rows.take(i));
    assert(rows.take(i + 1).last() == rows[i]);
}

/// The votes gathered from the first `n` rows are those that these rows
/// cast: a participant's vote on a date is among them exactly where one of
/// these rows holds it.
pub proof fn lemma_gathered_votes(rows: Seq<RawRowView>, n: int, key: (Id, Id))
    requires
        0 <= n <= rows.len(),
    ensures
        (exists|k: int|
            0 <= k < rows.take(n).filter_map(pick_vote()).len() && (
            #[trigger] rows.take(n).filter_map(pick_vote())[k]).key() == key) <==> (exists|j: int|
            0 <= j < n && casts(#[trigger] rows[j], key)),
    decreases n,
{
    let votes = rows.take(n).filter_map(pick_vote());
    if n > 0 {
        let earlier = rows.take(n - 1).filter_map(pick_vote());
        lemma_gathered_votes(rows, n - 1, key);
        lemma_next_row(rows, n - 1);
        if exists|k: int| 0 <= k < votes.len() && (#[trigger] votes[k]).key() == key {
            let k = choose|k: int| 0 <= k < votes.len() && (#[trigger] votes[k]).key() == key;
            if k < earlier.len() {
                assert(earlier[k].key() == key);
                let j = choose|j: int| 0 <= j < n - 1 && casts(#[trigger] rows[j], key);
                assert(casts(rows[j], key));
            } else {
                assert(casts(rows[n - 1], key));
            }
        }
        if exists|j: int| 0 <= j < n && casts(#[trigger] rows[j], key) {
            let j = choose|j: int| 0 <= j < n && casts(#[trigger] rows[j], key);
            if j < n - 1 {
                assert(casts(rows[j], key));
                let k = choose|k: int|
                    0 <= k < earlier.len() && (#[trigger] earlier[k]).key() == key;
                assert(votes[k].key() == key);
            } else {
                assert(votes[votes.len() - 1].key() == key);
            }
        }
    } else {
        assert(rows.take(0).filter_map(pick_vote()).len() == 0);
    }
}

/// Adds `participant` to `list` unless an equal one is there.
fn keep_participant(list: &mut Vec<Participant>, participant: Participant)
    ensures
        final(list).deep_view() == if old(list).deep_view().contains(participant.deep_view()) {
            old(list).deep_view()
        } else {
            old(list).deep_view().push(participant.deep_view())
        },
{
    if !holds_participant(list, &participant) {
        list.push(participant);
        assert(list.deep_view() =~= old(list).deep_view().push(participant.deep_view()));
    }
}

/// Adds `date` to `list` unless an equal one is there.
fn keep_date(list: &mut Vec<ProposedDate>, date: ProposedDate)
    ensures
        final(list).deep_view() == if old(list).deep_view().contains(date) {
            old(list).deep_view()
        } else {
            old(list).deep_view().push(date)
        },
{
    if !holds_date(list, &date) {
        list.push(date);
        assert(list.deep_view() =~= old(list).deep_view().push(date));
    }
}

impl Meeting {
    #[verifier::type_invariant]
    closed spec fn inv(&self) -> bool {
        self.deep_view().wf()
    }

    /// Builds the aggregate from the meeting's row, its comments and the
    /// joined rows of its participants, proposed dates and votes.
    ///
    /// The build succeeds exactly where no row is defective. The comments
    /// are taken as they come. Where a row is defective, nothing is built,
    /// and the error tells of the first such row.
    pub fn new(
        meeting_info: MeetingInfo,
        comments: Vec<MeetingComment>,
        participants_proposed_dates_votes: Vec<RawRow>,
    ) -> (built: Result<Meeting, DataIntegrityError>)
        ensures
            built is Ok <==> sound(participants_proposed_dates_votes.deep_view()),
            built matches Ok(meeting) ==> meeting.deep_view().wf() && meeting.deep_view()
                == assembled(
                meeting_info.deep_view(),
                comments.deep_view(),
                participants_proposed_dates_votes.deep_view(),
            ),
            built matches Err(error) ==> exists|i: int|
                #![trigger defective(participants_proposed_dates_votes.deep_view(), i)]
                first_defect(participants_proposed_dates_votes.deep_view(), i) && error.deep_view()
                    == defect(participants_proposed_dates_votes.deep_view(), i),
    {
        let ghost all = participants_proposed_dates_votes@;
        let ghost rows = participants_proposed_dates_votes.deep_view();
        let mut participants: Vec<Participant> = Vec::new();
        let mut proposed_dates: Vec<ProposedDate> = Vec::new();
        let mut votes: Vec<ParticipantVote> = Vec::new();

        for row in it: participants_proposed_dates_votes
            invariant
                it.seq() == all,
                rows == participants_proposed_dates_votes.deep_view(),
                rows.len() == all.len(),
                forall|j: int| 0 <= j < all.len() ==> rows[j] == (#[trigger] all[j]).deep_view(),
                forall|j: int| 0 <= j < it.index() ==> !defective(rows, j),
                participants.deep_view() == distinct(
                    rows.take(it.index() as int).filter_map(pick_participant()),
                ),
                proposed_dates.deep_view() == distinct(
                    rows.take(it.index() as int).filter_map(pick_date()),
                ),
                votes.deep_view() == rows.take(it.index() as int).filter_map(pick_vote()),
        {
            let ghost i = it.index() as int;
            let ghost old_votes = votes.deep_view();
            proof {
                lemma_validated_content(row);
                lemma_next_row(rows, i);
                assert(rows[i] == all[i].deep_view());
            }
            match Fact::try_from(row) {
                Err(error) => {
                    assert(first_defect(rows, i));
                    return Err(DataIntegrityError::InvalidRow(error));
                },
                Ok(Fact::Participant { user_id, name }) => {
                    let participant = Participant { id: user_id, name };
                    proof {
                        lemma_distinct_push(
                            rows.take(i).filter_map(pick_participant()),
                            participant.deep_view(),
                        );
                    }
                    keep_participant(&mut participants, participant);
                },
                Ok(Fact::ProposedDate { date_id, date }) => {
                    let proposed_date = ProposedDate { id: date_id, date };
                    proof {
                        lemma_distinct_push(rows.take(i).filter_map(pick_date()), proposed_date);
                    }
                    keep_date(&mut proposed_dates, proposed_date);
                },
                Ok(Fact::Vote { user_id, name, date_id, date, vote, comment }) => {
                    let participant = Participant { id: user_id, name };
                    let proposed_date = ProposedDate { id: date_id, date };
                    let participant_vote = ParticipantVote {
                        participant_id: user_id,
                        date_id,
                        vote,
                        comment,
                    };
                    proof {
                        lemma_distinct_push(
                            rows.take(i).filter_map(pick_participant()),
                            participant.deep_view(),
                        );
                        lemma_distinct_push(rows.take(i).filter_map(pick_date()), proposed_date);
                        lemma_gathered_votes(rows, i, (user_id, date_id));
                        assert(vote_of(rows[i]) == Some(participant_vote.deep_view()));
                    }
                    keep_participant(&mut participants, participant);
                    keep_date(&mut proposed_dates, proposed_date);
                    if holds_vote_of(&votes, user_id, date_id) {
                        assert(first_defect(rows, i));
                        return Err(DataIntegrityError::DuplicateVote(participant_vote));
                    }
                    votes.push(participant_vote);
                    assert(votes.deep_view() =~= old_votes.push(participant_vote.deep_view()));
                },
            }
        }
        proof {
            assert(rows.take(rows.len() as int) =~= rows);
            assert(sound(rows));
            law_sound_rows_give_a_well_formed_aggregate(
                meeting_info.deep_view(),
                comments.deep_view(),
                rows,
            );
        }
        Ok(Meeting { meeting_info, comments, participants, proposed_dates, votes })
    }

    /// The meeting's own row.
    pub fn meeting_info(&self) -> (info: &MeetingInfo)
        ensures
            info.deep_view() == self.deep_view().meeting_info,
    {
        &self.meeting_info
    }

    /// The comments, in the order in which they were given to the build.
    pub fn comments(&self) -> (comments: &Vec<MeetingComment>)
        ensures
            comments.deep_view() == self.deep_view().comments,
    {
        &self.comments
    }

    /// The participants, none of them twice.
    pub fn participants(&self) -> (participants: &Vec<Participant>)
        ensures
            participants.deep_view() == self.deep_view().participants,
            self.deep_view().wf(),
    {
        proof {
            use_type_invariant(self);
        }
        &self.participants
    }

    /// The proposed dates, none of them twice.
    pub fn proposed_dates(&self) -> (dates: &Vec<ProposedDate>)
        ensures
            dates.deep_view() == self.deep_view().proposed_dates,
            self.deep_view().wf(),
    {
        proof {
            use_type_invariant(self);
        }
        &self.proposed_dates
    }

    /// The votes, no two of them of one participant on one date.
    pub fn votes(&self) -> (votes: &Vec<ParticipantVote>)
        ensures
            votes.deep_view() == self.deep_view().votes,
            self.deep_view().wf(),
    {
        proof {
            use_type_invariant(self);
        }
        &self.votes
    }
}

} // verus!
