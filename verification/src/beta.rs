//! Beta-distribution approval estimates with exact integer arithmetic.
//!
//! A [`BetaDistribution`] is a conjugate-prior estimator of a post's true
//! approval rate.  Every distribution the engine ever builds is the
//! configured prior with some total of vote tallies folded in, so it is
//! represented exactly: the prior's `average` and `weight` in thousandths,
//! plus the integer pseudo-counts accumulated by [`BetaDistribution::update`].
//! With the prior average `a`, prior weight `w`, and accumulated counts
//! `(upvotes, votes)`, the current estimate is
//! `average = (a * w + upvotes) / (w + votes)` and `weight = w + votes`,
//! held as exact fractions rather than rounded numbers.

use vstd::arithmetic::div_mod::{lemma_div_is_ordered, lemma_div_multiples_vanish};
use vstd::arithmetic::mul::lemma_mul_inequality;
use vstd::prelude::*;

use crate::tally::Tally;

verus! {

/// The fixed global prior average, in thousandths: `0.875`.
pub const GLOBAL_PRIOR_AVERAGE_MILLI: u32 = 875;

/// The fixed global prior weight, in thousandths: `2.3`.
pub const WEIGHT_CONSTANT_MILLI: u32 = 2300;

/// Denominator of the scaled approval rates handed out by
/// [`BetaDistribution::average_scaled`]: a rate of `1.0` is `1_000_000_000`.
pub const APPROVAL_SCALE: u64 = 1_000_000_000;

/// The prior belief the ranking service is constructed with, as exact
/// fractions over 1000: `average = average_milli / 1000` (a probability),
/// `weight = weight_milli / 1000` (a positive pseudo-count).
#[derive(Clone, Copy, PartialEq, Eq, Structural, Debug)]
pub struct BetaPrior {
    pub average_milli: u32,
    pub weight_milli: u32,
}

impl BetaPrior {
    /// The prior average is a probability and the prior weight is positive.
    pub open spec fn valid(self) -> bool {
        self.average_milli <= 1000 && 1 <= self.weight_milli
    }

    /// The global prior constant: `average = 0.875`, `weight = 2.3`.  This
    /// encodes a strong default belief that posts are broadly approved.
    pub fn global() -> (p: BetaPrior)
        ensures
            p == (BetaPrior {
                average_milli: GLOBAL_PRIOR_AVERAGE_MILLI,
                weight_milli: WEIGHT_CONSTANT_MILLI,
            }),
            p.valid(),
    {
        BetaPrior {
            average_milli: GLOBAL_PRIOR_AVERAGE_MILLI,
            weight_milli: WEIGHT_CONSTANT_MILLI,
        }
    }
}

/// Belief about a post's approval rate: the prior plus the vote counts
/// folded in so far.  Values are never mutated in place; `update` returns a
/// new distribution.
#[derive(Clone, Copy, PartialEq, Eq, Structural, Debug)]
pub struct BetaDistribution {
    pub prior: BetaPrior,
    pub upvotes: u64,
    pub votes: u64,
}

impl BetaDistribution {
    /// Well-formed: valid prior, and no more accumulated upvotes than votes.
    pub open spec fn wf(self) -> bool {
        self.prior.valid() && self.upvotes <= self.votes
    }

    /// Exact numerator of `average`: `prior_average * prior_weight + upvotes`
    /// over the common denominator `1000 * 1000`.
    pub open spec fn average_num(self) -> int {
        self.prior.average_milli * self.prior.weight_milli + 1_000_000 * self.upvotes
    }

    /// Exact denominator of `average`: `prior_weight + votes` over the same
    /// common denominator, so `average = average_num / average_den`.
    pub open spec fn average_den(self) -> int {
        1000 * self.prior.weight_milli + 1_000_000 * self.votes
    }

    /// The effective prior sample size `weight = prior_weight + votes`, in
    /// thousandths.
    pub open spec fn weight_milli(self) -> int {
        self.prior.weight_milli + 1000 * self.votes
    }

    /// The Bayesian pseudo-count update:
    /// `average' = (average * weight + upvotes) / (weight + total)` and
    /// `weight' = weight + total`, expressed on the exact representation.
    pub open spec fn spec_update(self, tally: Tally) -> BetaDistribution {
        BetaDistribution {
            prior: self.prior,
            upvotes: (self.upvotes + tally.upvotes) as u64,
            votes: (self.votes + tally.total) as u64,
        }
    }

    /// `average` rounded down to [`APPROVAL_SCALE`]ths.
    pub open spec fn spec_average_scaled(self) -> int {
        self.average_num() * APPROVAL_SCALE / self.average_den()
    }

    /// The bare prior: no votes folded in yet.
    pub fn from_prior(prior: BetaPrior) -> (d: BetaDistribution)
        requires
            prior.valid(),
        ensures
            d == (BetaDistribution { prior, upvotes: 0u64, votes: 0u64 }),
            d.wf(),
    {
        BetaDistribution { prior, upvotes: 0, votes: 0 }
    }

    /// Folds one vote tally into the belief.  The tally must be well-formed;
    /// the accumulated vote count must stay within machine range.
    pub fn update(self, tally: Tally) -> (r: BetaDistribution)
        requires
            self.wf(),
            tally.valid(),
            self.votes + tally.total <= u64::MAX,
        ensures
            r == self.spec_update(tally),
            r.wf(),
            r.weight_milli() == self.weight_milli() + 1000 * tally.total,
    {
        BetaDistribution {
            prior: self.prior,
            upvotes: self.upvotes + (tally.upvotes as u64),
            votes: self.votes + (tally.total as u64),
        }
    }

    /// The exact current `average`, as a fraction `r.0 / r.1`.  For a
    /// well-formed distribution it is a probability: `r.0 <= r.1`.
    pub fn average_fraction(&self) -> (r: (u128, u128))
        requires
            self.wf(),
        ensures
            r.0 == self.average_num(),
            r.1 == self.average_den(),
            r.0 <= r.1,
            0 < r.1,
    {
        proof {
            lemma_average_in_unit_interval(*self);
        }
        let num: u128 = (self.prior.average_milli as u128) * (self.prior.weight_milli as u128)
            + 1_000_000u128 * (self.upvotes as u128);
        let den: u128 = 1000u128 * (self.prior.weight_milli as u128) + 1_000_000u128 * (
        self.votes as u128);
        (num, den)
    }

    /// The current `average` rounded down to [`APPROVAL_SCALE`]ths; always
    /// in `[0, APPROVAL_SCALE]` for a well-formed distribution.
    pub fn average_scaled(&self) -> (r: u64)
        requires
            self.wf(),
        ensures
            r == self.spec_average_scaled(),
            0 <= r <= APPROVAL_SCALE,
    {
        let (num, den) = self.average_fraction();
        proof {
            lemma_div_is_ordered(
                num as int * (APPROVAL_SCALE as int),
                den as int * (APPROVAL_SCALE as int),
                den as int,
            );
            lemma_div_multiples_vanish(APPROVAL_SCALE as int, den as int);
        }
        let scaled: u128 = num * (APPROVAL_SCALE as u128) / den;
        scaled as u64
    }

    /// The current `weight`, in thousandths.
    pub fn weight_milli_total(&self) -> (r: u128)
        ensures
            r == self.weight_milli(),
    {
        (self.prior.weight_milli as u128) + 1000u128 * (self.votes as u128)
    }
}

/// The global prior belief: `average = 0.875` (exactly `7/8`), `weight =
/// 2.3`, the same values on every call.
pub fn global_prior() -> (d: BetaDistribution)
    ensures
        d == (BetaDistribution {
            prior: BetaPrior {
                average_milli: GLOBAL_PRIOR_AVERAGE_MILLI,
                weight_milli: WEIGHT_CONSTANT_MILLI,
            },
            upvotes: 0u64,
            votes: 0u64,
        }),
        d.wf(),
        d.average_num() * 8 == d.average_den() * 7,
        d.weight_milli() == 2300,
{
    BetaDistribution::from_prior(BetaPrior::global())
}

/// The update never produces an `average` outside `[0, 1]`: for any
/// well-formed belief and any well-formed tally, the updated exact average
/// numerator stays within the denominator, and well-formedness is preserved.
pub proof fn lemma_update_average_in_unit_interval(d: BetaDistribution, t: Tally)
    requires
        d.wf(),
        t.valid(),
        d.votes + t.total <= u64::MAX,
    ensures
        d.spec_update(t).wf(),
        0 <= d.spec_update(t).average_num() <= d.spec_update(t).average_den(),
{
    lemma_average_in_unit_interval(d.spec_update(t));
}

/// For any well-formed belief the exact average is a probability:
/// `0 <= average_num <= average_den`.
pub proof fn lemma_average_in_unit_interval(d: BetaDistribution)
    requires
        d.wf(),
    ensures
        0 <= d.average_num() <= d.average_den(),
{
    lemma_mul_inequality(d.prior.average_milli as int, 1000, d.prior.weight_milli as int);
}

/// Folding in an empty tally is the identity: `d.update({0, 0}) == d`.
pub proof fn lemma_update_empty_is_identity(d: BetaDistribution)
    ensures
        d.spec_update(Tally { upvotes: 0, total: 0 }) == d,
{
}

} // verus!
