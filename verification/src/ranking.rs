//! The recursive note-ranking engine.
//!
//! Given one post, the batch of conditional tallies for its whole subtree of
//! candidate notes, and the post's own tally, the engine selects the note
//! whose exposure shifts belief about the post the most, where each note's
//! shift is amplified or dampened by how convincingly the note itself is
//! supported by its own best sub-note, recursively.
//!
//! Approval rates are handled as integers scaled by
//! [`APPROVAL_SCALE`](crate::beta::APPROVAL_SCALE) (so `1.0` is
//! `1_000_000_000`).  A note's *support* ratio is the one place where a
//! division rounds; its magnitude is saturated at [`SUPPORT_SCALE_CAP`] so
//! that every intermediate value provably fits the machine integers.  The
//! whole computation is a pure function of its inputs: the specification
//! functions in this module pin every result exactly.

use vstd::arithmetic::div_mod::{lemma_div_is_ordered, lemma_div_multiples_vanish};
use vstd::arithmetic::mul::lemma_mul_upper_bound;
use vstd::math::abs;
use vstd::prelude::*;

use crate::beta::{BetaDistribution, BetaPrior, APPROVAL_SCALE};
use crate::tally::{InformedTally, Tally};

verus! {

/// Magnitude cap for the scaled support ratio: a support factor is saturated
/// at `10^9` (that is, `10^18` in scaled units).  A genuine approval rate is
/// at most `1.0`, so the cap only matters for degenerate vote counts beyond
/// two billion votes on a single note.
pub const SUPPORT_SCALE_CAP: i64 = 1_000_000_000_000_000_000;

/// Every shown-estimate the engine produces provably stays within this bound
/// (`SUPPORT_SCALE_CAP + APPROVAL_SCALE` in scaled units).
pub const ESTIMATE_BOUND: i64 = 1_000_000_001_000_000_000;

/// Default bound on the recursion depth of the note walk.  Reply chains
/// deeper than this are treated as a data-integrity violation.
pub const DEFAULT_MAX_DEPTH: u32 = 64;

/// The ways a ranking computation can fail.  "No data" (a post without votes
/// or without candidate notes) is never an error.
#[derive(Clone, Copy, PartialEq, Eq, Structural, Debug)]
pub enum RankingError {
    /// A tally had a negative count or more upvotes than total votes: a
    /// storage-layer bug, surfaced rather than silently corrected.
    InvalidTally,
    /// The note tree is deeper than the configured maximum (or cyclic).
    DepthExceeded,
}

/// The outcome of [`RankingService::select_top_note`] for one post:
/// the selected note, if any, with the scaled approval estimates for the
/// post given that the note was shown or not shown.
#[derive(Clone, Copy, PartialEq, Eq, Debug)]
pub struct NoteSelection {
    /// The top note, or `None` when the post has no candidate notes.
    pub top_note_id: Option<i64>,
    /// Scaled approval estimate for the post given the top note was shown.
    pub p_shown: i64,
    /// Scaled approval estimate for the post given the top note was not
    /// shown.
    pub p_not_shown: i64,
}

/// The mathematical value of a [`NoteSelection`], over unbounded integers.
pub struct SelectionModel {
    pub top: Option<int>,
    pub p_shown: int,
    pub p_not_shown: int,
}

impl NoteSelection {
    /// The mathematical reading of this selection.
    pub open spec fn model(self) -> SelectionModel {
        SelectionModel {
            top: match self.top_note_id {
                Option::Some(id) => Option::Some(id as int),
                Option::None => Option::None,
            },
            p_shown: self.p_shown as int,
            p_not_shown: self.p_not_shown as int,
        }
    }
}

/// The selected top note of [`RankingService::find_top_note`], with both
/// scaled approval estimates.
#[derive(Clone, Copy, PartialEq, Eq, Structural, Debug)]
pub struct RankingResult {
    pub note_id: i64,
    /// Scaled by [`APPROVAL_SCALE`].
    pub p_given_shown: i64,
    /// Scaled by [`APPROVAL_SCALE`].
    pub p_given_not_shown: i64,
}

/// The ranking engine, configured with the prior belief and the recursion
/// depth bound.  Both are fixed at construction time.
#[derive(Clone, Copy, Debug)]
pub struct RankingService {
    pub prior: BetaPrior,
    pub max_depth: u32,
}

/// The bare prior belief, before any tally is folded in.
pub open spec fn prior_belief(prior: BetaPrior) -> BetaDistribution {
    BetaDistribution { prior, upvotes: 0u64, votes: 0u64 }
}

/// Scaled approval rate of a post among voters not shown a note: the prior
/// updated with the `given_not_shown` tally alone.
pub open spec fn spec_p_not_shown(prior: BetaPrior, not_shown: Tally) -> int {
    prior_belief(prior).spec_update(not_shown).spec_average_scaled()
}

/// Scaled approval rate among voters shown the note: the prior updated with
/// the `given_not_shown` tally first and the `given_shown` tally on top, so
/// the estimate reflects the evidence of both voter sets.
pub open spec fn spec_p_shown(prior: BetaPrior, not_shown: Tally, shown: Tally) -> int {
    prior_belief(prior).spec_update(not_shown).spec_update(shown).spec_average_scaled()
}

/// The scaled support ratio `p_sub_shown / p_sub_not_shown` of a note's best
/// sub-note, rounded down and saturated at [`SUPPORT_SCALE_CAP`].  An
/// evidence-free sub-note (`p_sub_not_shown == 0`) neither amplifies nor
/// dampens: the support degrades to `1` (one [`APPROVAL_SCALE`] in scaled
/// units).
pub open spec fn spec_support(p_sub_shown: int, p_sub_not_shown: int) -> int {
    if p_sub_not_shown <= 0 {
        APPROVAL_SCALE as int
    } else {
        let m = (abs(p_sub_shown) as int) * (APPROVAL_SCALE as int) / p_sub_not_shown;
        let c = if m > SUPPORT_SCALE_CAP as int {
            SUPPORT_SCALE_CAP as int
        } else {
            m
        };
        if p_sub_shown < 0 {
            -c
        } else {
            c
        }
    }
}

/// The scaled belief shift `delta * support`, rounded toward zero.
pub open spec fn spec_shift(delta: int, support: int) -> int {
    let m = (abs(delta) as int) * (abs(support) as int) / (APPROVAL_SCALE as int);
    if (delta < 0) != (support < 0) {
        -m
    } else {
        m
    }
}

/// One step of the selection loop: evaluate the candidate note `it` (whose
/// own subtree resolved to `sub`) against the running best `st`.  The note
/// becomes the new running best exactly when its absolute belief shift is
/// strictly larger; ties keep the earlier note.
pub open spec fn spec_apply_note(
    prior: BetaPrior,
    st: SelectionModel,
    it: InformedTally,
    sub: SelectionModel,
) -> SelectionModel {
    let p_not_shown = spec_p_not_shown(prior, it.given_not_shown_this_note);
    let p_shown = spec_p_shown(prior, it.given_not_shown_this_note, it.given_shown_this_note);
    let delta = p_shown - p_not_shown;
    let support = spec_support(sub.p_shown, sub.p_not_shown);
    let estimate = p_not_shown + spec_shift(delta, support);
    if abs(estimate - p_not_shown) > abs(st.p_shown - st.p_not_shown) {
        SelectionModel {
            top: Option::Some(it.note_id as int),
            p_shown: estimate,
            p_not_shown,
        }
    } else {
        st
    }
}

/// Folds the first `n` entries of the subtree batch into the running best
/// for `post_id`, recursing into each entry attached to `post_id` with one
/// budget step less.  Errors from deeper levels short-circuit.
pub open spec fn spec_run_notes(
    prior: BetaPrior,
    post_id: int,
    subtree: Seq<InformedTally>,
    n: nat,
    st: SelectionModel,
    budget: nat,
) -> Result<SelectionModel, RankingError>
    decreases budget, 0nat, n,
{
    if n == 0 {
        Result::Ok(st)
    } else {
        match spec_run_notes(prior, post_id, subtree, (n - 1) as nat, st, budget) {
            Result::Err(e) => Result::Err(e),
            Result::Ok(prev) => {
                let it = subtree[n - 1];
                if it.post_id != post_id {
                    Result::Ok(prev)
                } else if budget == 0 {
                    Result::Err(RankingError::DepthExceeded)
                } else {
                    match spec_select_top_note(
                        prior,
                        it.note_id as int,
                        it.for_note,
                        subtree,
                        (budget - 1) as nat,
                    ) {
                        Result::Err(e) => Result::Err(e),
                        Result::Ok(sub) => Result::Ok(spec_apply_note(prior, prev, it, sub)),
                    }
                }
            },
        }
    }
}

/// The full selection for one post: the baseline belief from the post's own
/// tally, then the fold over its candidate notes.  A zero budget means the
/// walk has gone deeper than the configured maximum.
pub open spec fn spec_select_top_note(
    prior: BetaPrior,
    post_id: int,
    post_tally: Tally,
    subtree: Seq<InformedTally>,
    budget: nat,
) -> Result<SelectionModel, RankingError>
    decreases budget, 1nat, 0nat,
{
    if budget == 0 {
        Result::Err(RankingError::DepthExceeded)
    } else {
        let p0 = spec_p_not_shown(prior, post_tally);
        spec_run_notes(
            prior,
            post_id,
            subtree,
            subtree.len(),
            SelectionModel { top: Option::None, p_shown: p0, p_not_shown: p0 },
            budget,
        )
    }
}

/// The whole batch is well-formed: every conditional tally in it is valid.
pub open spec fn all_tallies_valid(subtree: Seq<InformedTally>) -> bool {
    forall|j: int| 0 <= j < subtree.len() ==> (#[trigger] subtree[j]).valid()
}

/// First entry of the batch for the pair (`post_id`, `note_id`), in storage
/// order.
pub open spec fn first_match(subtree: Seq<InformedTally>, post_id: int, note_id: int) -> Option<
    InformedTally,
>
    decreases subtree.len(),
{
    if subtree.len() == 0 {
        Option::None
    } else if subtree[0].post_id == post_id && subtree[0].note_id == note_id {
        Option::Some(subtree[0])
    } else {
        first_match(subtree.subrange(1, subtree.len() as int), post_id, note_id)
    }
}

impl RankingService {
    /// The configured prior must be a valid probability with positive
    /// weight.
    pub open spec fn wf(self) -> bool {
        self.prior.valid()
    }

    /// A service with the given prior and depth bound.
    pub fn new(prior: BetaPrior, max_depth: u32) -> (s: RankingService)
        requires
            prior.valid(),
        ensures
            s == (RankingService { prior, max_depth }),
            s.wf(),
    {
        RankingService { prior, max_depth }
    }

    /// One step of the selection loop, executably: evaluate candidate `it`
    /// against the running best `st`, where `sub` is the resolved selection
    /// of `it`'s own subtree.
    fn apply_note(&self, st: NoteSelection, it: &InformedTally, sub: NoteSelection) -> (r:
        NoteSelection)
        requires
            self.wf(),
            it.valid(),
            0 <= st.p_not_shown <= APPROVAL_SCALE,
            -ESTIMATE_BOUND <= st.p_shown <= ESTIMATE_BOUND,
            0 <= sub.p_not_shown <= APPROVAL_SCALE,
            -ESTIMATE_BOUND <= sub.p_shown <= ESTIMATE_BOUND,
        ensures
            r.model() == spec_apply_note(self.prior, st.model(), *it, sub.model()),
            0 <= r.p_not_shown <= APPROVAL_SCALE,
            -ESTIMATE_BOUND <= r.p_shown <= ESTIMATE_BOUND,
    {
        let base = BetaDistribution::from_prior(self.prior).update(it.given_not_shown_this_note);
        let p_not_shown_u: u64 = base.average_scaled();
        let p_shown_u: u64 = base.update(it.given_shown_this_note).average_scaled();
        let p_not_shown: i64 = p_not_shown_u as i64;
        let delta: i64 = (p_shown_u as i64) - p_not_shown;

        // The support ratio of the sub-note, saturated at the cap.
        let support: i64 = if sub.p_not_shown == 0 {
            APPROVAL_SCALE as i64
        } else {
            let sub_shown_mag: u128 = if sub.p_shown < 0 {
                (-sub.p_shown) as u128
            } else {
                sub.p_shown as u128
            };
            let m: u128 = sub_shown_mag * (APPROVAL_SCALE as u128) / (sub.p_not_shown as u128);
            let capped: u128 = if m > SUPPORT_SCALE_CAP as u128 {
                SUPPORT_SCALE_CAP as u128
            } else {
                m
            };
            if sub.p_shown < 0 {
                -(capped as i64)
            } else {
                capped as i64
            }
        };
        proof {
            assert(support as int == spec_support(sub.p_shown as int, sub.p_not_shown as int));
            assert(-SUPPORT_SCALE_CAP <= support <= SUPPORT_SCALE_CAP);
        }

        // The shift `delta * support`, rounded toward zero.
        let delta_mag: u128 = if delta < 0 {
            (-delta) as u128
        } else {
            delta as u128
        };
        let support_mag: u128 = if support < 0 {
            (-support) as u128
        } else {
            support as u128
        };
        proof {
            lemma_mul_upper_bound(
                delta_mag as int,
                APPROVAL_SCALE as int,
                support_mag as int,
                SUPPORT_SCALE_CAP as int,
            );
            lemma_div_is_ordered(
                delta_mag as int * support_mag as int,
                (APPROVAL_SCALE as int) * (SUPPORT_SCALE_CAP as int),
                APPROVAL_SCALE as int,
            );
            lemma_div_multiples_vanish(SUPPORT_SCALE_CAP as int, APPROVAL_SCALE as int);
        }
        let shift_mag: u128 = delta_mag * support_mag / (APPROVAL_SCALE as u128);
        let shift: i64 = if (delta < 0) != (support < 0) {
            -(shift_mag as i64)
        } else {
            shift_mag as i64
        };
        proof {
            assert(shift as int == spec_shift(delta as int, support as int));
        }
        let estimate: i64 = p_not_shown + shift;

        // Strictly larger absolute shift wins; ties keep the running best.
        let running: i64 = st.p_shown - st.p_not_shown;
        let running_mag: i64 = if running < 0 {
            -running
        } else {
            running
        };
        let shift_mag_i: i64 = if shift < 0 {
            -shift
        } else {
            shift
        };
        if shift_mag_i > running_mag {
            NoteSelection {
                top_note_id: Some(it.note_id),
                p_shown: estimate,
                p_not_shown,
            }
        } else {
            st
        }
    }

    /// Selects the top note for `post_id` from the pre-fetched batch
    /// `tallies`, recursing through candidate notes with the given depth
    /// budget.  Returns the running best — the post's own baseline when it
    /// has no candidate notes — or a depth error for trees deeper than the
    /// budget.  The result is exactly [`spec_select_top_note`] of the
    /// inputs.
    pub fn select_top_note(
        &self,
        post_id: i64,
        post_tally: Tally,
        tallies: &Vec<InformedTally>,
        depth_budget: u32,
    ) -> (r: Result<NoteSelection, RankingError>)
        requires
            self.wf(),
            post_tally.valid(),
            all_tallies_valid(tallies@),
        ensures
            match r {
                Result::Ok(c) => spec_select_top_note(
                    self.prior,
                    post_id as int,
                    post_tally,
                    tallies@,
                    depth_budget as nat,
                ) == Result::<SelectionModel, RankingError>::Ok(c.model()) && 0 <= c.p_not_shown
                    <= APPROVAL_SCALE && -ESTIMATE_BOUND <= c.p_shown <= ESTIMATE_BOUND,
                Result::Err(e) => spec_select_top_note(
                    self.prior,
                    post_id as int,
                    post_tally,
                    tallies@,
                    depth_budget as nat,
                ) == Result::<SelectionModel, RankingError>::Err(e),
            },
        decreases depth_budget,
    {
        if depth_budget == 0 {
            return Result::Err(RankingError::DepthExceeded);
        }
        let baseline: u64 = BetaDistribution::from_prior(self.prior).update(
            post_tally,
        ).average_scaled();
        let p0: i64 = baseline as i64;
        let mut st = NoteSelection { top_note_id: None, p_shown: p0, p_not_shown: p0 };
        let ghost init_model = st.model();

        let mut i: usize = 0;
        while i < tallies.len()
            invariant
                self.wf(),
                post_tally.valid(),
                all_tallies_valid(tallies@),
                1 <= depth_budget,
                i <= tallies@.len(),
                init_model == (SelectionModel {
                    top: Option::<int>::None,
                    p_shown: spec_p_not_shown(self.prior, post_tally),
                    p_not_shown: spec_p_not_shown(self.prior, post_tally),
                }),
                spec_run_notes(
                    self.prior,
                    post_id as int,
                    tallies@,
                    i as nat,
                    init_model,
                    depth_budget as nat,
                ) == Result::<SelectionModel, RankingError>::Ok(st.model()),
                0 <= st.p_not_shown <= APPROVAL_SCALE,
                -ESTIMATE_BOUND <= st.p_shown <= ESTIMATE_BOUND,
            decreases tallies@.len() - i,
        {
            let it = tallies[i];
            if it.post_id == post_id {
                assert(tallies@[i as int].valid());
                match self.select_top_note(it.note_id, it.for_note, tallies, depth_budget - 1) {
                    Result::Err(e) => {
                        proof {
                            lemma_run_notes_err_absorbs(
                                self.prior,
                                post_id as int,
                                tallies@,
                                (i + 1) as nat,
                                tallies@.len(),
                                init_model,
                                depth_budget as nat,
                            );
                        }
                        return Result::Err(e);
                    },
                    Result::Ok(sub) => {
                        st = self.apply_note(st, &it, sub);
                    },
                }
            }
            i = i + 1;
        }
        Result::Ok(st)
    }

    /// Finds the top note for `post_id` over the pre-fetched subtree batch
    /// and the post's own tally.  Returns `Ok(None)` when the post has no
    /// candidate notes, `Err(InvalidTally)` exactly when some input tally is
    /// malformed, and `Err(DepthExceeded)` exactly when the note tree
    /// outruns the configured depth.
    pub fn find_top_note(
        &self,
        post_id: i64,
        base_tally: Tally,
        tallies: &Vec<InformedTally>,
    ) -> (r: Result<Option<RankingResult>, RankingError>)
        requires
            self.wf(),
        ensures
            r == Result::<Option<RankingResult>, RankingError>::Err(RankingError::InvalidTally)
                <==> !(base_tally.valid() && all_tallies_valid(tallies@)),
            (base_tally.valid() && all_tallies_valid(tallies@)) ==> match spec_select_top_note(
                self.prior,
                post_id as int,
                base_tally,
                tallies@,
                self.max_depth as nat,
            ) {
                Result::Err(e) => r == Result::<Option<RankingResult>, RankingError>::Err(e),
                Result::Ok(c) => match c.top {
                    Option::None => r == Result::<Option<RankingResult>, RankingError>::Ok(
                        Option::None,
                    ),
                    Option::Some(note_id) => match r {
                        Result::Ok(Option::Some(rr)) => rr.note_id == note_id && rr.p_given_shown
                            == c.p_shown && rr.p_given_not_shown == c.p_not_shown,
                        _ => false,
                    },
                },
            },
    {
        if !base_tally.is_valid() || !tallies_all_valid(tallies) {
            return Result::Err(RankingError::InvalidTally);
        }
        proof {
            lemma_select_err_is_depth(
                self.prior,
                post_id as int,
                base_tally,
                tallies@,
                self.max_depth as nat,
            );
        }
        match self.select_top_note(post_id, base_tally, tallies, self.max_depth) {
            Result::Err(e) => Result::Err(e),
            Result::Ok(c) => match c.top_note_id {
                None => Result::Ok(None),
                Some(note_id) => Result::Ok(
                    Some(
                        RankingResult {
                            note_id,
                            p_given_shown: c.p_shown,
                            p_given_not_shown: c.p_not_shown,
                        },
                    ),
                ),
            },
        }
    }

    /// The Bayesian-adjusted approval rate of `post_id`, informed by its top
    /// note: with no top note, the prior updated with the post's own tally;
    /// with a top note, the prior chained through that note's
    /// `given_not_shown` and `given_shown` tallies, returned as a full
    /// distribution so callers can inspect its weight.
    pub fn informed_upvote_rate(
        &self,
        post_id: i64,
        base_tally: Tally,
        tallies: &Vec<InformedTally>,
    ) -> (r: Result<BetaDistribution, RankingError>)
        requires
            self.wf(),
        ensures
            r == Result::<BetaDistribution, RankingError>::Err(RankingError::InvalidTally) <==> !(
            base_tally.valid() && all_tallies_valid(tallies@)),
            (base_tally.valid() && all_tallies_valid(tallies@)) ==> match spec_select_top_note(
                self.prior,
                post_id as int,
                base_tally,
                tallies@,
                self.max_depth as nat,
            ) {
                Result::Err(e) => r == Result::<BetaDistribution, RankingError>::Err(e),
                Result::Ok(c) => match c.top {
                    Option::None => r == Result::<BetaDistribution, RankingError>::Ok(
                        prior_belief(self.prior).spec_update(base_tally),
                    ),
                    Option::Some(note_id) => match first_match(
                        tallies@,
                        post_id as int,
                        note_id,
                    ) {
                        Option::Some(it) => r == Result::<BetaDistribution, RankingError>::Ok(
                            prior_belief(self.prior).spec_update(
                                it.given_not_shown_this_note,
                            ).spec_update(it.given_shown_this_note),
                        ),
                        Option::None => false,
                    },
                },
            },
    {
        if !base_tally.is_valid() || !tallies_all_valid(tallies) {
            return Result::Err(RankingError::InvalidTally);
        }
        proof {
            lemma_select_err_is_depth(
                self.prior,
                post_id as int,
                base_tally,
                tallies@,
                self.max_depth as nat,
            );
        }
        match self.select_top_note(post_id, base_tally, tallies, self.max_depth) {
            Result::Err(e) => Result::Err(e),
            Result::Ok(c) => match c.top_note_id {
                None => Result::Ok(
                    BetaDistribution::from_prior(self.prior).update(base_tally),
                ),
                Some(note_id) => {
                    proof {
                        lemma_run_notes_top_source(
                            self.prior,
                            post_id as int,
                            tallies@,
                            tallies@.len(),
                            SelectionModel {
                                top: Option::<int>::None,
                                p_shown: spec_p_not_shown(self.prior, base_tally),
                                p_not_shown: spec_p_not_shown(self.prior, base_tally),
                            },
                            self.max_depth as nat,
                        );
                    }
                    let mut k: usize = 0;
                    while k < tallies.len()
                        invariant
                            self.wf(),
                            base_tally.valid(),
                            all_tallies_valid(tallies@),
                            k <= tallies@.len(),
                            spec_select_top_note(
                                self.prior,
                                post_id as int,
                                base_tally,
                                tallies@,
                                self.max_depth as nat,
                            ) == Result::<SelectionModel, RankingError>::Ok(c.model()),
                            c.top_note_id == Some(note_id),
                            exists|j: int|
                                0 <= j < tallies@.len() && (#[trigger] tallies@[j]).post_id
                                    == post_id && tallies@[j].note_id == note_id,
                            forall|j: int|
                                0 <= j < k ==> !((#[trigger] tallies@[j]).post_id == post_id
                                    && tallies@[j].note_id == note_id),
                        decreases tallies@.len() - k,
                    {
                        let it = tallies[k];
                        if it.post_id == post_id && it.note_id == note_id {
                            proof {
                                lemma_first_match_at(
                                    tallies@,
                                    post_id as int,
                                    note_id as int,
                                    k as int,
                                );
                            }
                            return Result::Ok(
                                BetaDistribution::from_prior(self.prior).update(
                                    it.given_not_shown_this_note,
                                ).update(it.given_shown_this_note),
                            );
                        }
                        k = k + 1;
                    }
                    proof {
                        assert(false);
                    }
                    vstd::pervasive::unreached()
                },
            },
        }
    }
}

impl Default for RankingService {
    /// A service with the global prior (`average = 0.875`, `weight = 2.3`)
    /// and the default depth bound.
    fn default() -> (s: RankingService)
        ensures
            s == (RankingService {
                prior: BetaPrior {
                    average_milli: crate::beta::GLOBAL_PRIOR_AVERAGE_MILLI,
                    weight_milli: crate::beta::WEIGHT_CONSTANT_MILLI,
                },
                max_depth: DEFAULT_MAX_DEPTH,
            }),
            s.wf(),
    {
        RankingService { prior: BetaPrior::global(), max_depth: DEFAULT_MAX_DEPTH }
    }
}

/// Runtime check that every tally in the batch is well-formed.
fn tallies_all_valid(tallies: &Vec<InformedTally>) -> (b: bool)
    ensures
        b == all_tallies_valid(tallies@),
{
    let mut i: usize = 0;
    while i < tallies.len()
        invariant
            i <= tallies@.len(),
            forall|j: int| 0 <= j < i ==> (#[trigger] tallies@[j]).valid(),
        decreases tallies@.len() - i,
    {
        if !tallies[i].is_valid() {
            return false;
        }
        i = i + 1;
    }
    true
}

/// The selection only ever fails with `DepthExceeded`: malformed tallies
/// are rejected before the walk starts, never inside it.
proof fn lemma_select_err_is_depth(
    prior: BetaPrior,
    post_id: int,
    post_tally: Tally,
    subtree: Seq<InformedTally>,
    budget: nat,
)
    ensures
        spec_select_top_note(prior, post_id, post_tally, subtree, budget) matches Result::Err(e)
            ==> e == RankingError::DepthExceeded,
    decreases budget, 1nat, 0nat,
{
    if budget != 0 {
        let p0 = spec_p_not_shown(prior, post_tally);
        lemma_run_err_is_depth(
            prior,
            post_id,
            subtree,
            subtree.len(),
            SelectionModel { top: Option::None, p_shown: p0, p_not_shown: p0 },
            budget,
        );
    }
}

/// Companion of [`lemma_select_err_is_depth`] for the fold over the notes.
proof fn lemma_run_err_is_depth(
    prior: BetaPrior,
    post_id: int,
    subtree: Seq<InformedTally>,
    n: nat,
    st: SelectionModel,
    budget: nat,
)
    ensures
        spec_run_notes(prior, post_id, subtree, n, st, budget) matches Result::Err(e) ==> e
            == RankingError::DepthExceeded,
    decreases budget, 0nat, n,
{
    if n != 0 {
        lemma_run_err_is_depth(prior, post_id, subtree, (n - 1) as nat, st, budget);
        let it = subtree[n - 1];
        if it.post_id == post_id && budget != 0 {
            lemma_select_err_is_depth(
                prior,
                it.note_id as int,
                it.for_note,
                subtree,
                (budget - 1) as nat,
            );
        }
    }
}

/// Once the fold over the candidate notes has failed, it stays failed: the
/// error of the shortest failing prefix is the error of every longer one.
proof fn lemma_run_notes_err_absorbs(
    prior: BetaPrior,
    post_id: int,
    subtree: Seq<InformedTally>,
    n1: nat,
    n2: nat,
    st: SelectionModel,
    budget: nat,
)
    requires
        n1 <= n2,
        spec_run_notes(prior, post_id, subtree, n1, st, budget) is Err,
    ensures
        spec_run_notes(prior, post_id, subtree, n2, st, budget) == spec_run_notes(
            prior,
            post_id,
            subtree,
            n1,
            st,
            budget,
        ),
    decreases n2 - n1,
{
    if n1 < n2 {
        lemma_run_notes_err_absorbs(prior, post_id, subtree, n1, (n2 - 1) as nat, st, budget);
    }
}

/// Any note the fold selects comes from the batch: the selected id either is
/// the initial one or belongs to an entry attached to `post_id`.
proof fn lemma_run_notes_top_source(
    prior: BetaPrior,
    post_id: int,
    subtree: Seq<InformedTally>,
    n: nat,
    st: SelectionModel,
    budget: nat,
)
    ensures
        spec_run_notes(prior, post_id, subtree, n, st, budget) matches Result::Ok(c) ==> (c.top
            == st.top || exists|k: int|
            0 <= k < n && (#[trigger] subtree[k]).post_id == post_id && c.top == Option::Some(
                subtree[k].note_id as int,
            )),
    decreases n,
{
    if n > 0 {
        lemma_run_notes_top_source(prior, post_id, subtree, (n - 1) as nat, st, budget);
    }
}

/// Tie-break policy: a candidate note whose absolute belief shift is not
/// strictly larger than the running best's leaves the running best in
/// place.  Since the fold visits candidates in storage order, equal shifts
/// resolve to the earliest-seen note.
pub proof fn lemma_tie_keeps_running_choice(
    prior: BetaPrior,
    st: SelectionModel,
    it: InformedTally,
    sub: SelectionModel,
)
    requires
        ({
            let p_not_shown = spec_p_not_shown(prior, it.given_not_shown_this_note);
            let p_shown = spec_p_shown(
                prior,
                it.given_not_shown_this_note,
                it.given_shown_this_note,
            );
            let support = spec_support(sub.p_shown, sub.p_not_shown);
            let estimate = p_not_shown + spec_shift(p_shown - p_not_shown, support);
            abs(estimate - p_not_shown) <= abs(st.p_shown - st.p_not_shown)
        }),
    ensures
        spec_apply_note(prior, st, it, sub) == st,
{
}

/// An evidence-free sub-note never divides by zero: when its not-shown
/// estimate is `0`, the support factor degrades to `1` (one
/// [`APPROVAL_SCALE`] in scaled units) instead of amplifying or dampening.
pub proof fn lemma_support_unit_when_subnote_empty(p_sub_shown: int)
    ensures
        spec_support(p_sub_shown, 0) == APPROVAL_SCALE as int,
{
}

/// An exhausted depth budget is a data-integrity error, never a silently
/// truncated result.
pub proof fn lemma_depth_exhaustion(
    prior: BetaPrior,
    post_id: int,
    post_tally: Tally,
    subtree: Seq<InformedTally>,
)
    ensures
        spec_select_top_note(prior, post_id, post_tally, subtree, 0) == Result::<
            SelectionModel,
            RankingError,
        >::Err(RankingError::DepthExceeded),
{
}

/// With only one level of budget left, any post that still has a candidate
/// note fails with the depth error: the walk refuses to cut the recursion
/// short.
pub proof fn lemma_depth_exceeded_with_note(
    prior: BetaPrior,
    post_id: int,
    post_tally: Tally,
    subtree: Seq<InformedTally>,
)
    requires
        exists|k: int| 0 <= k < subtree.len() && (#[trigger] subtree[k]).post_id == post_id,
    ensures
        spec_select_top_note(prior, post_id, post_tally, subtree, 1) == Result::<
            SelectionModel,
            RankingError,
        >::Err(RankingError::DepthExceeded),
{
    let p0 = spec_p_not_shown(prior, post_tally);
    let st = SelectionModel { top: Option::None, p_shown: p0, p_not_shown: p0 };
    lemma_run_notes_match_needs_budget(prior, post_id, subtree, subtree.len(), st);
    lemma_run_err_is_depth(prior, post_id, subtree, subtree.len(), st, 1);
}

/// Companion of [`lemma_depth_exceeded_with_note`]: at budget `1` the fold
/// fails as soon as any of its first `n` entries is attached to `post_id`.
proof fn lemma_run_notes_match_needs_budget(
    prior: BetaPrior,
    post_id: int,
    subtree: Seq<InformedTally>,
    n: nat,
    st: SelectionModel,
)
    requires
        n <= subtree.len(),
        exists|k: int| 0 <= k < n && (#[trigger] subtree[k]).post_id == post_id,
    ensures
        spec_run_notes(prior, post_id, subtree, n, st, 1) is Err,
    decreases n,
{
    if n != 0 {
        let it = subtree[n - 1];
        if it.post_id == post_id {
            assert(spec_select_top_note(prior, it.note_id as int, it.for_note, subtree, 0)
                == Result::<SelectionModel, RankingError>::Err(RankingError::DepthExceeded));
        } else {
            let k = choose|k: int| 0 <= k < n && (#[trigger] subtree[k]).post_id == post_id;
            assert(0 <= k < n - 1 && subtree[k].post_id == post_id);
            lemma_run_notes_match_needs_budget(prior, post_id, subtree, (n - 1) as nat, st);
        }
    }
}

/// A post with no candidate notes resolves to its own baseline: no note is
/// selected and both estimates are the prior updated with the post's own
/// tally.  Through [`RankingService::informed_upvote_rate`]'s contract this
/// is exactly the "no data" case: the rate returned is
/// `prior().update(base_tally)`.
pub proof fn lemma_no_candidate_notes(
    prior: BetaPrior,
    post_id: int,
    post_tally: Tally,
    subtree: Seq<InformedTally>,
    budget: nat,
)
    requires
        budget >= 1,
        forall|k: int| 0 <= k < subtree.len() ==> (#[trigger] subtree[k]).post_id != post_id,
    ensures
        spec_select_top_note(prior, post_id, post_tally, subtree, budget) == Result::<
            SelectionModel,
            RankingError,
        >::Ok(
            SelectionModel {
                top: Option::None,
                p_shown: spec_p_not_shown(prior, post_tally),
                p_not_shown: spec_p_not_shown(prior, post_tally),
            },
        ),
{
    let p0 = spec_p_not_shown(prior, post_tally);
    let st = SelectionModel { top: Option::None, p_shown: p0, p_not_shown: p0 };
    lemma_run_notes_no_match(prior, post_id, subtree, subtree.len(), st, budget);
}

/// Companion of [`lemma_no_candidate_notes`]: entries attached to other
/// posts leave the running best untouched.
proof fn lemma_run_notes_no_match(
    prior: BetaPrior,
    post_id: int,
    subtree: Seq<InformedTally>,
    n: nat,
    st: SelectionModel,
    budget: nat,
)
    requires
        forall|k: int| 0 <= k < n ==> (#[trigger] subtree[k]).post_id != post_id,
    ensures
        spec_run_notes(prior, post_id, subtree, n, st, budget) == Result::<
            SelectionModel,
            RankingError,
        >::Ok(st),
    decreases n,
{
    if n != 0 {
        lemma_run_notes_no_match(prior, post_id, subtree, (n - 1) as nat, st, budget);
    }
}

/// A matching entry with a match-free prefix is the first match.
proof fn lemma_first_match_at(subtree: Seq<InformedTally>, post_id: int, note_id: int, k: int)
    requires
        0 <= k < subtree.len(),
        subtree[k].post_id == post_id,
        subtree[k].note_id == note_id,
        forall|j: int|
            0 <= j < k ==> !((#[trigger] subtree[j]).post_id == post_id && subtree[j].note_id
                == note_id),
    ensures
        first_match(subtree, post_id, note_id) == Option::Some(subtree[k]),
    decreases k,
{
    if k == 0 {
    } else {
        let rest = subtree.subrange(1, subtree.len() as int);
        lemma_first_match_at(rest, post_id, note_id, k - 1);
    }
}

} // verus!
