//! Tests of the recursive note-ranking engine.

use informed_tally::beta::{global_prior, BetaPrior};
use informed_tally::ranking::{RankingError, RankingResult, RankingService};
use informed_tally::tally::{InformedTally, Tally};

fn service() -> RankingService {
    RankingService::new(BetaPrior::global(), 64)
}

fn entry(post_id: i64, note_id: i64, ns: (i64, i64), s: (i64, i64), fr: (i64, i64)) -> InformedTally {
    InformedTally {
        post_id,
        note_id,
        given_not_shown_this_note: Tally {
            upvotes: ns.0,
            total: ns.1,
        },
        given_shown_this_note: Tally {
            upvotes: s.0,
            total: s.1,
        },
        for_note: Tally {
            upvotes: fr.0,
            total: fr.1,
        },
    }
}

#[test]
fn no_candidate_notes_returns_none() {
    let svc = service();
    let base = Tally {
        upvotes: 5,
        total: 10,
    };
    let r = svc.find_top_note(1, base, &vec![]);
    assert_eq!(r, Ok(None));
}

#[test]
fn no_candidate_notes_rate_is_prior_updated_with_base() {
    let svc = service();
    let base = Tally {
        upvotes: 5,
        total: 10,
    };
    let rate = svc.informed_upvote_rate(1, base, &vec![]).unwrap();
    assert_eq!(rate, global_prior().update(base));
    // average = (0.875 * 2.3 + 5) / (2.3 + 10), weight = 12.3.
    assert_eq!(rate.average_fraction(), (7_012_500, 12_300_000));
    assert_eq!(rate.weight_milli_total(), 12_300);
}

#[test]
fn single_note_is_selected_with_chained_estimates() {
    let svc = service();
    let base = Tally {
        upvotes: 5,
        total: 10,
    };
    let tallies = vec![entry(1, 2, (2, 4), (8, 10), (0, 0))];
    let r = svc.find_top_note(1, base, &tallies).unwrap();
    assert_eq!(
        r,
        Some(RankingResult {
            note_id: 2,
            // (0.875 * 2.3 + 2 + 8) / (2.3 + 4 + 10), scaled: the not-shown
            // population chained first, then the shown one.
            p_given_shown: 736_963_190,
            // (0.875 * 2.3 + 2) / (2.3 + 4), scaled.
            p_given_not_shown: 636_904_761,
        })
    );
}

#[test]
fn single_note_rate_chains_both_partitions() {
    let svc = service();
    let base = Tally {
        upvotes: 5,
        total: 10,
    };
    let tallies = vec![entry(1, 2, (2, 4), (8, 10), (0, 0))];
    let rate = svc.informed_upvote_rate(1, base, &tallies).unwrap();
    assert_eq!(
        rate,
        global_prior()
            .update(Tally {
                upvotes: 2,
                total: 4
            })
            .update(Tally {
                upvotes: 8,
                total: 10
            })
    );
    assert_eq!(rate.average_fraction(), (12_012_500, 16_300_000));
    assert_eq!(rate.weight_milli_total(), 16_300);
}

#[test]
fn subnote_support_amplifies_the_shift() {
    let svc = service();
    let base = Tally {
        upvotes: 5,
        total: 10,
    };
    // Post 1 has note 2; note 2 has sub-note 3 whose tallies make note 2
    // look better once seen, so the support factor exceeds one and
    // amplifies note 2's shift on post 1.
    let tallies = vec![
        entry(1, 2, (2, 4), (8, 10), (10, 10)),
        entry(2, 3, (1, 10), (9, 10), (3, 4)),
    ];
    let r = svc.find_top_note(1, base, &tallies).unwrap();
    assert_eq!(
        r,
        Some(RankingResult {
            note_id: 2,
            p_given_shown: 856_974_472,
            p_given_not_shown: 636_904_761,
        })
    );
    // The rate still chains note 2's two partitions, without the support
    // amplification.
    let rate = svc.informed_upvote_rate(1, base, &tallies).unwrap();
    assert_eq!(rate.average_fraction(), (12_012_500, 16_300_000));
}

#[test]
fn negative_shift_is_selected_by_magnitude() {
    let svc = service();
    let base = Tally {
        upvotes: 5,
        total: 10,
    };
    // Exposure to the note lowers belief in the post; the shift is negative
    // but its magnitude still decides the selection.
    let tallies = vec![entry(1, 2, (8, 10), (0, 10), (0, 0))];
    let r = svc.find_top_note(1, base, &tallies).unwrap();
    assert_eq!(
        r,
        Some(RankingResult {
            note_id: 2,
            p_given_shown: 448_991_031,
            p_given_not_shown: 814_024_390,
        })
    );
    assert!(r.unwrap().p_given_shown < r.unwrap().p_given_not_shown);
}

#[test]
fn unconvincing_subnote_dampens_the_shift() {
    let svc = service();
    let base = Tally {
        upvotes: 5,
        total: 10,
    };
    // Note 2's sub-note 3 makes note 2 look worse once seen, so the support
    // factor is below one and shrinks note 2's shift on post 1.
    let tallies = vec![
        entry(1, 2, (2, 4), (8, 10), (10, 10)),
        entry(2, 3, (9, 10), (1, 10), (3, 4)),
    ];
    let r = svc.find_top_note(1, base, &tallies).unwrap();
    assert_eq!(
        r,
        Some(RankingResult {
            note_id: 2,
            p_given_shown: 697_105_442,
            p_given_not_shown: 636_904_761,
        })
    );
}

#[test]
fn equal_shifts_keep_the_first_note() {
    let svc = service();
    let base = Tally {
        upvotes: 5,
        total: 10,
    };
    // Two candidates with identical tallies produce identical shift
    // magnitudes; the earlier one in provider order must win.
    let tallies = vec![
        entry(1, 2, (2, 4), (8, 10), (0, 0)),
        entry(1, 3, (2, 4), (8, 10), (0, 0)),
    ];
    let r = svc.find_top_note(1, base, &tallies).unwrap().unwrap();
    assert_eq!(r.note_id, 2);
}

#[test]
fn evidence_free_subnote_degrades_support_to_one() {
    let svc = service();
    let base = Tally {
        upvotes: 5,
        total: 10,
    };
    // Note 2's own tally is so diluted that its scaled approval rounds to
    // zero: support must degrade to one instead of dividing by zero, so the
    // estimate equals the plain chained one.
    let tallies = vec![entry(1, 2, (2, 4), (8, 10), (0, 3_000_000_000))];
    let r = svc.find_top_note(1, base, &tallies).unwrap();
    assert_eq!(
        r,
        Some(RankingResult {
            note_id: 2,
            p_given_shown: 736_963_190,
            p_given_not_shown: 636_904_761,
        })
    );
}

#[test]
fn chain_within_depth_budget_succeeds() {
    let svc = RankingService::new(BetaPrior::global(), 3);
    let base = Tally {
        upvotes: 5,
        total: 10,
    };
    let tallies = vec![
        entry(1, 2, (2, 4), (8, 10), (1, 2)),
        entry(2, 3, (1, 2), (2, 3), (1, 1)),
    ];
    assert!(svc.find_top_note(1, base, &tallies).is_ok());
}

#[test]
fn chain_beyond_depth_budget_is_an_integrity_error() {
    let svc = RankingService::new(BetaPrior::global(), 3);
    let base = Tally {
        upvotes: 5,
        total: 10,
    };
    let tallies = vec![
        entry(1, 2, (2, 4), (8, 10), (1, 2)),
        entry(2, 3, (1, 2), (2, 3), (1, 1)),
        entry(3, 4, (0, 1), (1, 1), (0, 0)),
    ];
    assert_eq!(
        svc.find_top_note(1, base, &tallies),
        Err(RankingError::DepthExceeded)
    );
    assert_eq!(
        svc.informed_upvote_rate(1, base, &tallies),
        Err(RankingError::DepthExceeded)
    );
}

#[test]
fn cyclic_note_edges_are_an_integrity_error() {
    let svc = service();
    let base = Tally {
        upvotes: 5,
        total: 10,
    };
    let tallies = vec![
        entry(1, 2, (2, 4), (8, 10), (1, 2)),
        entry(2, 1, (1, 2), (2, 3), (1, 1)),
    ];
    assert_eq!(
        svc.find_top_note(1, base, &tallies),
        Err(RankingError::DepthExceeded)
    );
}

#[test]
fn negative_count_is_an_integrity_error() {
    let svc = service();
    let bad_base = Tally {
        upvotes: -1,
        total: 0,
    };
    assert_eq!(
        svc.find_top_note(1, bad_base, &vec![]),
        Err(RankingError::InvalidTally)
    );
}

#[test]
fn upvotes_beyond_total_are_an_integrity_error() {
    let svc = service();
    let base = Tally {
        upvotes: 5,
        total: 10,
    };
    let tallies = vec![entry(1, 2, (5, 4), (8, 10), (0, 0))];
    assert_eq!(
        svc.find_top_note(1, base, &tallies),
        Err(RankingError::InvalidTally)
    );
    assert_eq!(
        svc.informed_upvote_rate(1, base, &tallies),
        Err(RankingError::InvalidTally)
    );
}

#[test]
fn ranking_is_idempotent() {
    let svc = service();
    let base = Tally {
        upvotes: 5,
        total: 10,
    };
    let tallies = vec![
        entry(1, 2, (2, 4), (8, 10), (10, 10)),
        entry(2, 3, (1, 10), (9, 10), (3, 4)),
        entry(1, 4, (0, 7), (3, 3), (2, 2)),
    ];
    let first = svc.find_top_note(1, base, &tallies);
    let second = svc.find_top_note(1, base, &tallies);
    assert_eq!(first, second);
    let rate_first = svc.informed_upvote_rate(1, base, &tallies);
    let rate_second = svc.informed_upvote_rate(1, base, &tallies);
    assert_eq!(rate_first, rate_second);
}

#[test]
fn entries_of_other_posts_are_ignored() {
    let svc = service();
    let base = Tally {
        upvotes: 5,
        total: 10,
    };
    // Entries attached to unrelated posts do not change the result.
    let tallies = vec![entry(7, 8, (0, 9), (9, 9), (4, 4))];
    assert_eq!(svc.find_top_note(1, base, &tallies), Ok(None));
    let rate = svc.informed_upvote_rate(1, base, &tallies).unwrap();
    assert_eq!(rate, global_prior().update(base));
}

#[test]
fn missing_post_uses_the_empty_tally() {
    let svc = service();
    let r = svc.informed_upvote_rate(42, Tally::empty(), &vec![]).unwrap();
    assert_eq!(r, global_prior());
    assert_eq!(r.average_scaled(), 875_000_000);
}

#[test]
fn default_service_uses_the_global_prior() {
    let svc = RankingService::default();
    assert_eq!(svc.prior, BetaPrior::global());
    let base = Tally {
        upvotes: 5,
        total: 10,
    };
    assert_eq!(
        svc.informed_upvote_rate(1, base, &vec![]).unwrap(),
        global_prior().update(base)
    );
}
