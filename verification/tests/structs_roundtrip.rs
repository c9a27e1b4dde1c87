//! Tests of the data carriers and their mappings.

use informed_tally::requests::VoteRequest;
use informed_tally::structs::{Direction, UnknownDirection};
use informed_tally::structs_api::ApiDirection;
use informed_tally::tally::{InformedTally, InformedTallyQueryResult, Tally};

#[test]
fn direction_decodes_the_wire_integers() {
    assert_eq!(Direction::from(1), Ok(Direction::Up));
    assert_eq!(Direction::from(0), Ok(Direction::Neutral));
    assert_eq!(Direction::from(-1), Ok(Direction::Down));
    assert_eq!(Direction::from(2), Err(UnknownDirection { value: 2 }));
    assert_eq!(Direction::from(-7), Err(UnknownDirection { value: -7 }));
}

#[test]
fn direction_encoding_round_trips() {
    for d in [Direction::Up, Direction::Neutral, Direction::Down] {
        assert_eq!(Direction::from(d.to_int()), Ok(d));
    }
}

#[test]
fn api_direction_round_trips() {
    for d in [Direction::Up, Direction::Neutral, Direction::Down] {
        assert_eq!(ApiDirection::from(d).to_direction(), d);
    }
    assert_eq!(ApiDirection::from(Direction::Up), ApiDirection::Up);
    assert_eq!(ApiDirection::from(Direction::Neutral), ApiDirection::Neutral);
    assert_eq!(ApiDirection::from(Direction::Down), ApiDirection::Down);
}

#[test]
fn pressing_the_current_direction_clears_the_vote() {
    let form = VoteRequest {
        tag: String::from("global"),
        post_id: 1,
        note_id: None,
        direction: Direction::Up,
        state: Direction::Up,
    };
    assert_eq!(form.new_vote_state(), Direction::Neutral);
}

#[test]
fn pressing_another_direction_sets_it() {
    let form = VoteRequest {
        tag: String::from("global"),
        post_id: 1,
        note_id: Some(2),
        direction: Direction::Down,
        state: Direction::Up,
    };
    assert_eq!(form.new_vote_state(), Direction::Down);
    let fresh = VoteRequest {
        tag: String::from("global"),
        post_id: 1,
        note_id: None,
        direction: Direction::Up,
        state: Direction::Neutral,
    };
    assert_eq!(fresh.new_vote_state(), Direction::Up);
}

#[test]
fn tally_validity_checks_counts() {
    assert!(Tally {
        upvotes: 0,
        total: 0
    }
    .is_valid());
    assert!(Tally {
        upvotes: 3,
        total: 3
    }
    .is_valid());
    assert!(!Tally {
        upvotes: -1,
        total: 0
    }
    .is_valid());
    assert!(!Tally {
        upvotes: 4,
        total: 3
    }
    .is_valid());
    assert!(!Tally {
        upvotes: 2,
        total: -5
    }
    .is_valid());
}

#[test]
fn query_row_regroups_into_informed_tally() {
    let row = InformedTallyQueryResult {
        post_id: 1,
        note_id: 2,
        upvotes_given_shown_this_note: 8,
        votes_given_shown_this_note: 10,
        upvotes_given_not_shown_this_note: 2,
        votes_given_not_shown_this_note: 4,
        upvotes_for_note: 5,
        votes_for_note: 6,
    };
    assert_eq!(
        row.informed_tally(),
        InformedTally {
            post_id: 1,
            note_id: 2,
            given_not_shown_this_note: Tally {
                upvotes: 2,
                total: 4
            },
            given_shown_this_note: Tally {
                upvotes: 8,
                total: 10
            },
            for_note: Tally {
                upvotes: 5,
                total: 6
            },
        }
    );
}
