//! Raw and conditional vote tallies.

use vstd::prelude::*;

verus! {

/// Raw vote counts for one post: `upvotes` of `total` votes were upvotes.
///
/// Counts are carried as `i64` exactly as the storage layer reports them; a
/// tally with a negative count or with `upvotes > total` is malformed and is
/// rejected by the engine with a data-integrity error rather than clamped.
#[derive(Clone, Copy, PartialEq, Eq, Structural, Debug)]
pub struct Tally {
    pub upvotes: i64,
    pub total: i64,
}

impl Tally {
    /// A well-formed tally: counts are non-negative and upvotes do not
    /// exceed the total.
    pub open spec fn valid(self) -> bool {
        0 <= self.upvotes <= self.total
    }

    /// The tally of a post with no votes at all; "no data" is a normal
    /// state, not an error.
    pub fn empty() -> (t: Tally)
        ensures
            t == (Tally { upvotes: 0, total: 0 }),
            t.valid(),
    {
        Tally { upvotes: 0, total: 0 }
    }

    /// Runtime check of `valid`, for callers that receive tallies from
    /// storage.
    pub fn is_valid(&self) -> (r: bool)
        ensures
            r == self.valid(),
    {
        0 <= self.upvotes && self.upvotes <= self.total
    }
}

/// The conditional tally of a (post, note) pair: votes on the post are
/// partitioned by whether the voter had been shown the note, and the note's
/// own raw tally is carried along so its sub-notes can be evaluated
/// recursively.
#[derive(Clone, Copy, PartialEq, Eq, Structural, Debug)]
pub struct InformedTally {
    pub post_id: i64,
    pub note_id: i64,
    pub given_not_shown_this_note: Tally,
    pub given_shown_this_note: Tally,
    pub for_note: Tally,
}

impl InformedTally {
    /// All three component tallies are well-formed.
    pub open spec fn valid(self) -> bool {
        self.given_not_shown_this_note.valid() && self.given_shown_this_note.valid()
            && self.for_note.valid()
    }

    /// Runtime check of `valid`.
    pub fn is_valid(&self) -> (r: bool)
        ensures
            r == self.valid(),
    {
        self.given_not_shown_this_note.is_valid() && self.given_shown_this_note.is_valid()
            && self.for_note.is_valid()
    }
}

/// One row of the batched subtree query, as the storage layer returns it:
/// the flattened column form of an [`InformedTally`].
#[derive(Clone, Copy, PartialEq, Eq, Structural, Debug)]
pub struct InformedTallyQueryResult {
    pub post_id: i64,
    pub note_id: i64,
    pub upvotes_given_shown_this_note: i64,
    pub votes_given_shown_this_note: i64,
    pub upvotes_given_not_shown_this_note: i64,
    pub votes_given_not_shown_this_note: i64,
    pub upvotes_for_note: i64,
    pub votes_for_note: i64,
}

impl InformedTallyQueryResult {
    /// Regroups the flat row into the structured conditional tally.
    pub fn informed_tally(&self) -> (t: InformedTally)
        ensures
            t == (InformedTally {
                post_id: self.post_id,
                note_id: self.note_id,
                given_not_shown_this_note: Tally {
                    upvotes: self.upvotes_given_not_shown_this_note,
                    total: self.votes_given_not_shown_this_note,
                },
                given_shown_this_note: Tally {
                    upvotes: self.upvotes_given_shown_this_note,
                    total: self.votes_given_shown_this_note,
                },
                for_note: Tally {
                    upvotes: self.upvotes_for_note,
                    total: self.votes_for_note,
                },
            }),
    {
        InformedTally {
            post_id: self.post_id,
            note_id: self.note_id,
            given_not_shown_this_note: Tally {
                upvotes: self.upvotes_given_not_shown_this_note,
                total: self.votes_given_not_shown_this_note,
            },
            given_shown_this_note: Tally {
                upvotes: self.upvotes_given_shown_this_note,
                total: self.votes_given_shown_this_note,
            },
            for_note: Tally {
                upvotes: self.upvotes_for_note,
                total: self.votes_for_note,
            },
        }
    }
}

} // verus!
