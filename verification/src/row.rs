//! Raw joined rows and the facts they encode.
//!
//! The store answers the query for a meeting's participants, proposed dates
//! and votes with one outer-joined row set. Which of its columns are null
//! tells what a row stands for; a row whose nulls fit no fact is a breach of
//! the store's own invariant.

use crate::calendar::CalendarDate;
use crate::ident::Id;
use crate::vote::presented;
use crate::vote::StoredVote;
use crate::vote::Vote;
use vstd::prelude::*;
use vstd::std_specs::convert::FromSpec;

verus! {

/// One row of the outer join across participants, votes and proposed dates.
/// `user_id` and `date_id` are the join keys.
#[derive(Debug, PartialEq, Eq)]
pub struct RawRow {
    pub user_id: Option<Id>,
    pub name: Option<String>,
    pub date_id: Option<Id>,
    pub date: Option<CalendarDate>,
    pub vote: Option<StoredVote>,
    pub comment: Option<String>,
}

/// The mathematical content of a [`RawRow`].
pub ghost struct RawRowView {
    pub user_id: Option<Id>,
    pub name: Option<Seq<char>>,
    pub date_id: Option<Id>,
    pub date: Option<CalendarDate>,
    pub vote: Option<StoredVote>,
    pub comment: Option<Seq<char>>,
}

impl DeepView for RawRow {
    type V = RawRowView;

    open spec fn deep_view(&self) -> RawRowView {
        RawRowView {
            user_id: self.user_id,
            name: self.name.deep_view(),
            date_id: self.date_id,
            date: self.date,
            vote: self.vote,
            comment: self.comment.deep_view(),
        }
    }
}

impl Clone for RawRow {
    fn clone(&self) -> (copy: RawRow)
        ensures
            copy == *self,
    {
        let name = match &self.name {
            Some(name) => Some(name.clone()),
            None => None,
        };
        let comment = match &self.comment {
            Some(comment) => Some(comment.clone()),
            None => None,
        };
        RawRow {
            user_id: self.user_id,
            name,
            date_id: self.date_id,
            date: self.date,
            vote: self.vote,
            comment,
        }
    }
}

/// The mathematical content of a [`Fact`].
pub ghost enum FactView {
    Participant { user_id: Id, name: Seq<char> },
    ProposedDate { date_id: Id, date: CalendarDate },
    Vote {
        user_id: Id,
        name: Seq<char>,
        date_id: Id,
        date: CalendarDate,
        vote: Vote,
        comment: Option<Seq<char>>,
    },
}

/// The fact that a valid row encodes.
#[derive(Debug, PartialEq, Eq)]
pub enum Fact {
    /// A participant who has cast no vote in this row.
    Participant { user_id: Id, name: String },
    /// A proposed date on which this row holds no vote.
    ProposedDate { date_id: Id, date: CalendarDate },
    /// A vote, with the participant who cast it and the date it is for.
    Vote {
        user_id: Id,
        name: String,
        date_id: Id,
        date: CalendarDate,
        vote: Vote,
        comment: Option<String>,
    },
}

impl DeepView for Fact {
    type V = FactView;

    open spec fn deep_view(&self) -> FactView {
        match self {
            Fact::Participant { user_id, name } => FactView::Participant {
                user_id: *user_id,
                name: name@,
            },
            Fact::ProposedDate { date_id, date } => FactView::ProposedDate {
                date_id: *date_id,
                date: *date,
            },
            Fact::Vote { user_id, name, date_id, date, vote, comment } => FactView::Vote {
                user_id: *user_id,
                name: name@,
                date_id: *date_id,
                date: *date,
                vote: *vote,
                comment: comment.deep_view(),
            },
        }
    }
}

/// A row whose null pattern encodes no fact. It carries the row.
#[derive(Debug, PartialEq, Eq)]
pub struct InvalidRowError {
    pub row: RawRow,
}

/// The fact that `row` encodes, or the error that carries the row back.
///
/// The join keys decide. With neither, the row is invalid. With `user_id`
/// alone it is a participant and needs `name`. With `date_id` alone it is a
/// proposed date and needs `date`. With both it is a vote and needs `name`,
/// `date` and `vote`; the comment is optional.
pub open spec fn validated(row: RawRow) -> Result<Fact, InvalidRowError> {
    match (row.user_id, row.date_id) {
        (None, None) => Err(InvalidRowError { row }),
        (Some(user_id), None) => match row.name {
            Some(name) => Ok(Fact::Participant { user_id, name }),
            None => Err(InvalidRowError { row }),
        },
        (None, Some(date_id)) => match row.date {
            Some(date) => Ok(Fact::ProposedDate { date_id, date }),
            None => Err(InvalidRowError { row }),
        },
        (Some(user_id), Some(date_id)) => match (row.name, row.date, row.vote) {
            (Some(name), Some(date), Some(vote)) => Ok(
                Fact::Vote {
                    user_id,
                    name,
                    date_id,
                    date,
                    vote: presented(vote),
                    comment: row.comment,
                },
            ),
            _ => Err(InvalidRowError { row }),
        },
    }
}

/// The content of the fact that a row of the given content encodes; `None`
/// where the row is invalid. The rule is that of [`validated`].
pub open spec fn classified(row: RawRowView) -> Option<FactView> {
    match (row.user_id, row.date_id) {
        (None, None) => None,
        (Some(user_id), None) => match row.name {
            Some(name) => Some(FactView::Participant { user_id, name }),
            None => None,
        },
        (None, Some(date_id)) => match row.date {
            Some(date) => Some(FactView::ProposedDate { date_id, date }),
            None => None,
        },
        (Some(user_id), Some(date_id)) => match (row.name, row.date, row.vote) {
            (Some(name), Some(date), Some(vote)) => Some(
                FactView::Vote {
                    user_id,
                    name,
                    date_id,
                    date,
                    vote: presented(vote),
                    comment: row.comment,
                },
            ),
            _ => None,
        },
    }
}

/// Validation agrees with the classification of contents: a valid row's
/// fact has the content that `classified` gives, and an invalid row is one
/// that `classified` rejects.
pub proof fn lemma_validated_content(row: RawRow)
    ensures
        match validated(row) {
            Ok(fact) => classified(row.deep_view()) == Some(fact.deep_view()),
            Err(error) => classified(row.deep_view()) is None && error.row == row,
        },
{
}

impl TryFrom<RawRow> for Fact {
    type Error = InvalidRowError;

    fn try_from(row: RawRow) -> (fact: Result<Fact, InvalidRowError>) {
        let RawRow { user_id, name, date_id, date, vote, comment } = row;
        match (user_id, date_id) {
            (Some(user_id), None) => match name {
                Some(name) => Ok(Fact::Participant { user_id, name }),
                None => Err(
                    InvalidRowError {
                        row: RawRow {
                            user_id: Some(user_id),
                            name: None,
                            date_id,
                            date,
                            vote,
                            comment,
                        },
                    },
                ),
            },
            (None, Some(date_id)) => match date {
                Some(date) => Ok(Fact::ProposedDate { date_id, date }),
                None => Err(
                    InvalidRowError {
                        row: RawRow {
                            user_id,
                            name,
                            date_id: Some(date_id),
                            date: None,
                            vote,
                            comment,
                        },
                    },
                ),
            },
            (Some(user_id), Some(date_id)) => match (name, date, vote) {
                (Some(name), Some(date), Some(vote)) => Ok(
                    Fact::Vote { user_id, name, date_id, date, vote: Vote::from(vote), comment },
                ),
                (name, date, vote) => Err(
                    InvalidRowError {
                        row: RawRow {
                            user_id: Some(user_id),
                            name,
                            date_id: Some(date_id),
                            date,
                            vote,
                            comment,
                        },
                    },
                ),
            },
            (None, None) => Err(
                InvalidRowError { row: RawRow { user_id, name, date_id, date, vote, comment } },
            ),
        }
    }
}

impl vstd::std_specs::convert::TryFromSpecImpl<RawRow> for Fact {
    open spec fn obeys_try_from_spec() -> bool {
        true
    }

    open spec fn try_from_spec(row: RawRow) -> Result<Fact, InvalidRowError> {
        validated(row)
    }
}

/// A row with neither join key is always invalid, whatever its other
/// columns hold.
pub proof fn law_keyless_row_is_invalid(row: RawRow)
    requires
        row.user_id is None,
        row.date_id is None,
    ensures
        validated(row) == Err::<Fact, InvalidRowError>(InvalidRowError { row }),
{
}

} // verus!
