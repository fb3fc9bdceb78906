//! What holds of every aggregate that [`Meeting::new`](crate::aggregate::Meeting::new)
//! builds, stated over the contents of rows.

use crate::aggregate::assembled;
use crate::aggregate::casts;
use crate::aggregate::date_of;
use crate::aggregate::defect;
use crate::aggregate::defective;
use crate::aggregate::distinct;
use crate::aggregate::first_defect;
use crate::aggregate::lemma_gathered_votes;
use crate::aggregate::lemma_next_row;
use crate::aggregate::MeetingCommentView;
use crate::aggregate::MeetingInfoView;
use crate::aggregate::participant_of;
use crate::aggregate::ParticipantView;
use crate::aggregate::ParticipantVoteView;
use crate::aggregate::pick_date;
use crate::aggregate::pick_participant;
use crate::aggregate::pick_vote;
use crate::aggregate::ProposedDate;
use crate::aggregate::repeats_vote;
use crate::aggregate::sound;
use crate::aggregate::vote_of;
use crate::row::classified;
use crate::row::RawRowView;
use vstd::prelude::*;

verus! {

/// Removing repetitions keeps every item and lists none twice.
pub proof fn lemma_distinct<T>(items: Seq<T>)
    ensures
        distinct(items).no_duplicates(),
        forall|item: T| distinct(items).contains(item) <==> items.contains(item),
    decreases items.len(),
{
    if items.len() > 0 {
        let earlier = distinct(items.drop_last());
        let last = items.last();
        lemma_distinct(items.drop_last());
        assert forall|item: T| distinct(items).contains(item) <==> items.contains(item) by {
            if items.contains(item) {
                let k = choose|k: int| 0 <= k < items.len() && items[k] == item;
                if k < items.len() - 1 {
                    assert(items.drop_last()[k] == item);
                    assert(items.drop_last().contains(item));
                    assert(earlier.contains(item));
                    let e = choose|e: int| 0 <= e < earlier.len() && earlier[e] == item;
                    assert(distinct(items)[e] == item);
                } else if !earlier.contains(last) {
                    assert(distinct(items)[earlier.len() as int] == item);
                }
            }
            if distinct(items).contains(item) {
                let e = choose|e: int| 0 <= e < distinct(items).len() && distinct(items)[e] == item;
                if e < earlier.len() {
                    assert(earlier[e] == item);
                    assert(earlier.contains(item));
                    assert(items.drop_last().contains(item));
                    let k = choose|k: int|
                        0 <= k < items.drop_last().len() && items.drop_last()[k] == item;
                    assert(items[k] == item);
                } else {
                    assert(items[items.len() - 1] == item);
                }
            }
        }
    }
}

/// What is gathered from rows is what some row gives.
pub proof fn lemma_gathered<A, B>(rows: Seq<A>, pick: spec_fn(A) -> Option<B>, item: B)
    ensures
        rows.filter_map(pick).contains(item) <==> exists|j: int|
            0 <= j < rows.len() && pick(#[trigger] rows[j]) == Some(item),
    decreases rows.len(),
{
    if rows.len() > 0 {
        let earlier = rows.drop_last();
        let gathered = rows.filter_map(pick);
        lemma_gathered(earlier, pick, item);
        if gathered.contains(item) {
            let k = choose|k: int| 0 <= k < gathered.len() && gathered[k] == item;
            if k < earlier.filter_map(pick).len() {
                assert(earlier.filter_map(pick)[k] == item);
                assert(earlier.filter_map(pick).contains(item));
                let j = choose|j: int|
                    0 <= j < earlier.len() && pick(#[trigger] earlier[j]) == Some(item);
                assert(pick(rows[j]) == Some(item));
            } else {
                assert(pick(rows[rows.len() - 1]) == Some(item));
            }
        }
        if exists|j: int| 0 <= j < rows.len() && pick(#[trigger] rows[j]) == Some(item) {
            let j = choose|j: int| 0 <= j < rows.len() && pick(#[trigger] rows[j]) == Some(item);
            if j < rows.len() - 1 {
                assert(pick(earlier[j]) == Some(item));
                assert(earlier.filter_map(pick).contains(item));
                let k = choose|k: int|
                    0 <= k < earlier.filter_map(pick).len() && earlier.filter_map(pick)[k] == item;
                assert(gathered[k] == item);
            } else {
                assert(gathered[gathered.len() - 1] == item);
            }
        }
    }
}

/// The aggregate lists a participant exactly where a row mentions it.
pub proof fn law_participants_are_those_mentioned(
    meeting_info: MeetingInfoView,
    comments: Seq<MeetingCommentView>,
    rows: Seq<RawRowView>,
    participant: ParticipantView,
)
    ensures
        assembled(meeting_info, comments, rows).participants.contains(participant) <==> exists|
            j: int,
        |
            0 <= j < rows.len() && participant_of(#[trigger] rows[j]) == Some(participant),
{
    lemma_distinct(rows.filter_map(pick_participant()));
    lemma_gathered(rows, pick_participant(), participant);
}

/// The aggregate lists a proposed date exactly where a row mentions it.
pub proof fn law_dates_are_those_mentioned(
    meeting_info: MeetingInfoView,
    comments: Seq<MeetingCommentView>,
    rows: Seq<RawRowView>,
    date: ProposedDate,
)
    ensures
        assembled(meeting_info, comments, rows).proposed_dates.contains(date) <==> exists|j: int|
            0 <= j < rows.len() && date_of(#[trigger] rows[j]) == Some(date),
{
    lemma_distinct(rows.filter_map(pick_date()));
    lemma_gathered(rows, pick_date(), date);
}

/// The aggregate lists a vote exactly where a row holds it.
pub proof fn law_votes_are_those_cast(
    meeting_info: MeetingInfoView,
    comments: Seq<MeetingCommentView>,
    rows: Seq<RawRowView>,
    vote: ParticipantVoteView,
)
    ensures
        assembled(meeting_info, comments, rows).votes.contains(vote) <==> exists|j: int|
            0 <= j < rows.len() && vote_of(#[trigger] rows[j]) == Some(vote),
{
    lemma_gathered(rows, pick_vote(), vote);
}

/// A vote brings its participant and its date along: where a row is a vote,
/// the aggregate lists the participant who cast it and the date it is for.
pub proof fn law_vote_implies_participant_and_date(
    meeting_info: MeetingInfoView,
    comments: Seq<MeetingCommentView>,
    rows: Seq<RawRowView>,
    i: int,
)
    requires
        0 <= i < rows.len(),
        classified(rows[i]) is Some,
        classified(rows[i])->0 is Vote,
    ensures
        ({
            let aggregate = assembled(meeting_info, comments, rows);
            let fact = classified(rows[i])->0;
            &&& aggregate.participants.contains(
                ParticipantView { id: fact->Vote_user_id, name: fact->Vote_name },
            )
            &&& aggregate.proposed_dates.contains(
                ProposedDate { id: fact->Vote_date_id, date: fact->Vote_date },
            )
        }),
{
    let fact = classified(rows[i])->0;
    let participant = ParticipantView { id: fact->Vote_user_id, name: fact->Vote_name };
    let date = ProposedDate { id: fact->Vote_date_id, date: fact->Vote_date };
    law_participants_are_those_mentioned(meeting_info, comments, rows, participant);
    law_dates_are_those_mentioned(meeting_info, comments, rows, date);
    assert(participant_of(rows[i]) == Some(participant));
    assert(date_of(rows[i]) == Some(date));
}

/// The votes gathered from the first `n` rows are of different
/// participants or on different dates, where none of these rows repeats a
/// vote.
proof fn lemma_votes_are_unique(rows: Seq<RawRowView>, n: int)
    requires
        0 <= n <= rows.len(),
        forall|j: int| 0 <= j < n ==> !repeats_vote(rows, j),
    ensures
        ({
            let votes = rows.take(n).filter_map(pick_vote());
            forall|a: int, b: int|
                0 <= a < b < votes.len() ==> (#[trigger] votes[a]).key() != (
                #[trigger] votes[b]).key()
        }),
    decreases n,
{
    if n > 0 {
        let votes = rows.take(n).filter_map(pick_vote());
        let earlier = rows.take(n - 1).filter_map(pick_vote());
        lemma_votes_are_unique(rows, n - 1);
        lemma_next_row(rows, n - 1);
        assert(!repeats_vote(rows, n - 1));
        assert forall|a: int, b: int| 0 <= a < b < votes.len() implies (#[trigger] votes[a]).key()
            != (#[trigger] votes[b]).key() by {
            if b < earlier.len() {
                assert(earlier[a].key() != earlier[b].key());
            } else {
                let key = votes[b].key();
                lemma_gathered_votes(rows, n - 1, key);
                if votes[a].key() == key {
                    assert(earlier[a].key() == key);
                    let j = choose|j: int| 0 <= j < n - 1 && casts(#[trigger] rows[j], key);
                    assert(casts(rows[j], key));
                }
            }
        }
    } else {
        assert(rows.take(0).filter_map(pick_vote()).len() == 0);
    }
}

/// Sound rows give a well-formed aggregate: no participant and no proposed
/// date is listed twice, and no two votes are of one participant on one
/// date.
pub proof fn law_sound_rows_give_a_well_formed_aggregate(
    meeting_info: MeetingInfoView,
    comments: Seq<MeetingCommentView>,
    rows: Seq<RawRowView>,
)
    requires
        sound(rows),
    ensures
        assembled(meeting_info, comments, rows).wf(),
{
    lemma_distinct(rows.filter_map(pick_participant()));
    lemma_distinct(rows.filter_map(pick_date()));
    assert forall|j: int| 0 <= j < rows.len() implies !repeats_vote(rows, j) by {
        assert(!defective(rows, j));
    }
    lemma_votes_are_unique(rows, rows.len() as int);
    assert(rows.take(rows.len() as int) =~= rows);
}

/// A participant is listed once: where two rows mention the same
/// participant, by identifier and by name, and no row gives that identifier
/// another name, the aggregate has exactly one entry of that identifier, and
/// it is this participant. The order of the rows plays no part.
pub proof fn law_participant_is_listed_once(
    meeting_info: MeetingInfoView,
    comments: Seq<MeetingCommentView>,
    rows: Seq<RawRowView>,
    i: int,
    j: int,
    participant: ParticipantView,
)
    requires
        0 <= i < rows.len(),
        0 <= j < rows.len(),
        i != j,
        participant_of(rows[i]) == Some(participant),
        participant_of(rows[j]) == Some(participant),
        forall|k: int|
            0 <= k < rows.len() ==> (participant_of(#[trigger] rows[k]) matches Some(other)
                ==> other.id != participant.id || other == participant),
    ensures
        ({
            let listed = assembled(meeting_info, comments, rows).participants;
            exists|a: int|
                {
                    &&& 0 <= a < listed.len()
                    &&& #[trigger] listed[a] == participant
                    &&& forall|b: int|
                        0 <= b < listed.len() && (#[trigger] listed[b]).id == participant.id ==> b
                            == a
                }
        }),
{
    let listed = assembled(meeting_info, comments, rows).participants;
    lemma_distinct(rows.filter_map(pick_participant()));
    law_participants_are_those_mentioned(meeting_info, comments, rows, participant);
    assert(listed.contains(participant));
    let a = choose|a: int| 0 <= a < listed.len() && listed[a] == participant;
    assert forall|b: int|
        0 <= b < listed.len() && (#[trigger] listed[b]).id == participant.id implies b == a by {
        law_participants_are_those_mentioned(meeting_info, comments, rows, listed[b]);
        assert(listed.contains(listed[b]));
        let k = choose|k: int|
            0 <= k < rows.len() && participant_of(#[trigger] rows[k]) == Some(listed[b]);
        assert(listed[b] == participant);
    }
}

/// A repeated vote is rejected: where two rows hold votes of one
/// participant on one date, whatever answers and comments they give, the
/// rows are not sound, so nothing is built. The row reported is the later of
/// the two or one before it, and the report is of a duplicate vote unless
/// the row reported is an invalid one.
pub proof fn law_repeated_vote_is_rejected(rows: Seq<RawRowView>, i: int, j: int)
    requires
        0 <= i < j < rows.len(),
        vote_of(rows[i]) is Some,
        casts(rows[j], vote_of(rows[i])->0.key()),
    ensures
        !sound(rows),
        forall|d: int| #[trigger]
            first_defect(rows, d) ==> d <= j && (classified(rows[d]) is Some ==> defect(rows, d)
                is DuplicateVote),
{
    assert(casts(rows[i], vote_of(rows[j])->0.key()));
    assert(repeats_vote(rows, j));
    assert(defective(rows, j));
}

/// The rows that are not sound have exactly one first defective row.
pub proof fn law_first_defect_is_unique(rows: Seq<RawRowView>, a: int, b: int)
    requires
        first_defect(rows, a),
        first_defect(rows, b),
    ensures
        a == b,
{
}

/// A known set of participants, proposed dates and votes.
pub ghost struct Roster {
    pub participants: Set<ParticipantView>,
    pub proposed_dates: Set<ProposedDate>,
    pub votes: Set<ParticipantVoteView>,
}

impl Roster {
    /// No two votes of the roster are of one participant on one date.
    pub open spec fn one_vote_per_pair(self) -> bool {
        forall|v: ParticipantVoteView, w: ParticipantVoteView|
            self.votes.contains(v) && self.votes.contains(w) && #[trigger] v.key()
                == #[trigger] w.key() ==> v == w
    }

    /// `rows` is a flattening of the roster: every row is valid and mentions
    /// only what the roster holds, everything that the roster holds is
    /// mentioned by some row, and no vote is held by two rows.
    pub open spec fn flattened_to(self, rows: Seq<RawRowView>) -> bool {
        &&& forall|j: int| 0 <= j < rows.len() ==> classified(#[trigger] rows[j]) is Some
        &&& forall|j: int|
            0 <= j < rows.len() ==> (participant_of(#[trigger] rows[j]) matches Some(p)
                ==> self.participants.contains(p))
        &&& forall|j: int|
            0 <= j < rows.len() ==> (date_of(#[trigger] rows[j]) matches Some(d)
                ==> self.proposed_dates.contains(d))
        &&& forall|j: int|
            0 <= j < rows.len() ==> (vote_of(#[trigger] rows[j]) matches Some(v)
                ==> self.votes.contains(v))
        &&& forall|p: ParticipantView| #[trigger]
            self.participants.contains(p) ==> exists|j: int|
                0 <= j < rows.len() && participant_of(#[trigger] rows[j]) == Some(p)
        &&& forall|d: ProposedDate| #[trigger]
            self.proposed_dates.contains(d) ==> exists|j: int|
                0 <= j < rows.len() && date_of(#[trigger] rows[j]) == Some(d)
        &&& forall|v: ParticipantVoteView| #[trigger]
            self.votes.contains(v) ==> exists|j: int|
                0 <= j < rows.len() && vote_of(#[trigger] rows[j]) == Some(v)
        &&& forall|i: int, j: int|
            0 <= i < j < rows.len() && vote_of(#[trigger] rows[i]) is Some ==> vote_of(rows[i])
                != vote_of(#[trigger] rows[j])
    }
}

/// Round trip: the aggregate built from a flattening of a roster holds that
/// roster again, each participant, proposed date and vote once. In which
/// order the rows come, and which rows mention a participant or a date,
/// plays no part.
pub proof fn law_round_trip(
    meeting_info: MeetingInfoView,
    comments: Seq<MeetingCommentView>,
    rows: Seq<RawRowView>,
    roster: Roster,
)
    requires
        roster.one_vote_per_pair(),
        roster.flattened_to(rows),
    ensures
        sound(rows),
        assembled(meeting_info, comments, rows).wf(),
        assembled(meeting_info, comments, rows).participants.to_set() == roster.participants,
        assembled(meeting_info, comments, rows).proposed_dates.to_set() == roster.proposed_dates,
        assembled(meeting_info, comments, rows).votes.to_set() == roster.votes,
{
    let aggregate = assembled(meeting_info, comments, rows);
    assert forall|j: int| 0 <= j < rows.len() implies !defective(rows, j) by {
        if repeats_vote(rows, j) {
            let vote = vote_of(rows[j])->0;
            let i = choose|i: int| 0 <= i < j && casts(#[trigger] rows[i], vote.key());
            assert(roster.votes.contains(vote_of(rows[i])->0));
            assert(roster.votes.contains(vote));
            assert(vote_of(rows[i])->0.key() == vote.key());
        }
    }
    law_sound_rows_give_a_well_formed_aggregate(meeting_info, comments, rows);
    assert forall|p: ParticipantView|
        aggregate.participants.to_set().contains(p) <==> roster.participants.contains(p) by {
        law_participants_are_those_mentioned(meeting_info, comments, rows, p);
        if aggregate.participants.contains(p) {
            let j = choose|j: int|
                0 <= j < rows.len() && participant_of(#[trigger] rows[j]) == Some(p);
            assert(roster.participants.contains(p));
        }
    }
    assert forall|d: ProposedDate|
        aggregate.proposed_dates.to_set().contains(d) <==> roster.proposed_dates.contains(d) by {
        law_dates_are_those_mentioned(meeting_info, comments, rows, d);
        if aggregate.proposed_dates.contains(d) {
            let j = choose|j: int| 0 <= j < rows.len() && date_of(#[trigger] rows[j]) == Some(d);
            assert(roster.proposed_dates.contains(d));
        }
    }
    assert forall|v: ParticipantVoteView|
        aggregate.votes.to_set().contains(v) <==> roster.votes.contains(v) by {
        law_votes_are_those_cast(meeting_info, comments, rows, v);
        if aggregate.votes.contains(v) {
            let j = choose|j: int| 0 <= j < rows.len() && vote_of(#[trigger] rows[j]) == Some(v);
            assert(roster.votes.contains(v));
        }
    }
    assert(aggregate.participants.to_set() =~= roster.participants);
    assert(aggregate.proposed_dates.to_set() =~= roster.proposed_dates);
    assert(aggregate.votes.to_set() =~= roster.votes);
}

} // verus!
