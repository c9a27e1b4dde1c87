//! The data carriers of the JSON API, and their mapping onto the core types.

use vstd::prelude::*;

use crate::structs::Direction;

verus! {

/// A post as the API serves it.
#[derive(Clone, Debug)]
pub struct ApiPost {
    pub id: i64,
    pub content: String,
}

/// The front page: the current top-level posts.
#[derive(Clone, Debug)]
pub struct ApiFrontpage {
    pub posts: Vec<ApiPost>,
}

/// One post page: the post, its ancestors, its top note and its replies.
#[derive(Clone, Debug)]
pub struct ApiPostPage {
    pub parent_context: Vec<ApiPost>,
    pub post: ApiPost,
    pub note: Option<ApiPost>,
    pub replies: Vec<ApiPost>,
}

/// A vote request as the API receives it.
#[derive(Clone, Debug)]
pub struct ApiVote {
    pub post_id: i64,
    pub note_id: Option<i64>,
    pub direction: ApiDirection,
}

/// A vote direction as the API spells it.
#[derive(Clone, Copy, PartialEq, Eq, Structural, Debug)]
pub enum ApiDirection {
    Up,
    Neutral,
    Down,
}

impl ApiDirection {
    /// The API spelling of a core direction.
    pub fn from(direction: Direction) -> (r: ApiDirection)
        ensures
            r == (match direction {
                Direction::Up => ApiDirection::Up,
                Direction::Neutral => ApiDirection::Neutral,
                Direction::Down => ApiDirection::Down,
            }),
    {
        match direction {
            Direction::Up => ApiDirection::Up,
            Direction::Neutral => ApiDirection::Neutral,
            Direction::Down => ApiDirection::Down,
        }
    }

    /// The core direction of an API spelling; inverse of
    /// [`ApiDirection::from`].
    pub fn to_direction(&self) -> (r: Direction)
        ensures
            r == (match *self {
                ApiDirection::Up => Direction::Up,
                ApiDirection::Neutral => Direction::Neutral,
                ApiDirection::Down => Direction::Down,
            }),
    {
        match self {
            ApiDirection::Up => Direction::Up,
            ApiDirection::Neutral => Direction::Neutral,
            ApiDirection::Down => Direction::Down,
        }
    }
}

} // verus!
