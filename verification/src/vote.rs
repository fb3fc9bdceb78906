//! The three answers a participant can give to a proposed date.

use vstd::prelude::*;

verus! {

/// A participant's answer as the service presents it.
#[derive(Clone, Copy, Debug, PartialEq, Eq, Hash, Structural)]
pub enum Vote {
    No,
    Maybe,
    Yes,
}

/// A participant's answer as the store keeps it: acceptance is spelled `Okay`.
#[derive(Clone, Copy, Debug, PartialEq, Eq, Hash, Structural)]
pub enum StoredVote {
    No,
    Maybe,
    Okay,
}

/// How a stored answer is presented: `Okay` reads `Yes`, the others keep
/// their names.
pub open spec fn presented(stored: StoredVote) -> Vote {
    match stored {
        StoredVote::No => Vote::No,
        StoredVote::Maybe => Vote::Maybe,
        StoredVote::Okay => Vote::Yes,
    }
}

impl From<StoredVote> for Vote {
    fn from(value: StoredVote) -> (vote: Vote) {
        match value {
            StoredVote::No => Vote::No,
            StoredVote::Maybe => Vote::Maybe,
            StoredVote::Okay => Vote::Yes,
        }
    }
}

impl vstd::std_specs::convert::FromSpecImpl<StoredVote> for Vote {
    open spec fn obeys_from_spec() -> bool {
        true
    }

    open spec fn from_spec(value: StoredVote) -> Vote {
        presented(value)
    }
}

} // verus!
