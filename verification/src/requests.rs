//! The request and form payloads of the web layer, and the one decision the
//! vote handler makes: turning a button press into the voter's new state.

use vstd::prelude::*;

use crate::structs::Direction;

verus! {

/// A vote form: which button was pressed (`direction`) and what the voter's
/// current effective vote is (`state`).
#[derive(Clone, Debug)]
pub struct VoteRequest {
    pub tag: String,
    pub post_id: i64,
    pub note_id: Option<i64>,
    pub direction: Direction,
    pub state: Direction,
}

impl VoteRequest {
    /// The voter's new state: pressing the button of the current state
    /// clears the vote (back to neutral), any other button sets that
    /// direction.  Voting the same direction twice is therefore a no-op on
    /// the second press only in effect, never an error.
    pub fn new_vote_state(&self) -> (d: Direction)
        ensures
            d == (if self.direction == self.state {
                Direction::Neutral
            } else {
                self.direction
            }),
    {
        if self.direction == self.state {
            Direction::Neutral
        } else {
            self.direction
        }
    }
}

/// A tagging form.
#[derive(Clone, Debug)]
pub struct TagRequest {
    pub tags: String,
    pub post_id: i64,
    pub note_id: Option<i64>,
}

/// The form submitted to create a post.
#[derive(Clone, Debug)]
pub struct CreatePostForm {
    pub post_content: String,
    pub tag: String,
    pub post_parent_id: Option<i64>,
}

/// An optional redirect target carried in the query string.
#[derive(Clone, Debug)]
pub struct Redirect {
    pub redirect: Option<String>,
}

/// A request to attach a hashtag to a post.
#[derive(Clone, Debug)]
pub struct HashtagRequest {
    pub post_id: i64,
    pub hashtag: String,
}

/// A request for the vote positions of a user on a post.
#[derive(Clone, Debug)]
pub struct PositionsRequest {
    pub tag: String,
    pub post_id: i64,
}

} // verus!
