//! Core data carriers: users, posts, pages and vote directions.

use vstd::prelude::*;

verus! {

/// A registered user and the secret that authenticates them.
#[derive(Clone, Debug)]
pub struct User {
    pub id: i64,
    pub secret: String,
}

/// Metadata of a rendered page.
#[derive(Clone, Debug)]
pub struct PageMeta {
    pub title: Option<String>,
    pub description: Option<String>,
    pub url: Option<String>,
}

/// A post; a post attached as a reply to another post may simultaneously
/// serve as that post's candidate note.
#[derive(Clone, Debug)]
pub struct Post {
    pub id: i64,
    pub content: String,
    pub parent_id: Option<i64>,
}

/// The direction of a vote.  On the wire it is carried as an integer:
/// `1` up, `0` neutral, `-1` down.
#[derive(Clone, Copy, PartialEq, Eq, Structural, Debug)]
pub enum Direction {
    Up,
    Neutral,
    Down,
}

/// An integer that encodes no vote direction.
#[derive(Clone, Copy, PartialEq, Eq, Structural, Debug)]
pub struct UnknownDirection {
    pub value: i32,
}

impl Direction {
    /// Decodes the wire encoding of a direction; any integer other than
    /// `1`, `0` and `-1` is rejected.
    pub fn from(direction: i32) -> (r: Result<Direction, UnknownDirection>)
        ensures
            direction == 1 ==> r == Result::<Direction, UnknownDirection>::Ok(Direction::Up),
            direction == 0 ==> r == Result::<Direction, UnknownDirection>::Ok(Direction::Neutral),
            direction == -1 ==> r == Result::<Direction, UnknownDirection>::Ok(Direction::Down),
            !(direction == 1 || direction == 0 || direction == -1) ==> r == Result::<
                Direction,
                UnknownDirection,
            >::Err(UnknownDirection { value: direction }),
    {
        if direction == 1 {
            Result::Ok(Direction::Up)
        } else if direction == 0 {
            Result::Ok(Direction::Neutral)
        } else if direction == -1 {
            Result::Ok(Direction::Down)
        } else {
            Result::Err(UnknownDirection { value: direction })
        }
    }

    /// The wire encoding of this direction.
    pub fn to_int(self) -> (r: i32)
        ensures
            self == Direction::Up ==> r == 1,
            self == Direction::Neutral ==> r == 0,
            self == Direction::Down ==> r == -1,
    {
        match self {
            Direction::Up => 1,
            Direction::Neutral => 0,
            Direction::Down => -1,
        }
    }
}

} // verus!
