//! Informed-tally ranking and Bayesian inference engine.
//!
//! The library ranks which reply of a post should be surfaced as its most
//! informative contextual "note", and computes a Bayesian-adjusted approval
//! rate for a post, taking into account that viewers who already saw a note
//! vote differently than viewers who did not.
//!
//! All probability arithmetic is carried out exactly over integers: a
//! [`beta::BetaDistribution`] is the fixed global prior plus integer
//! pseudo-counts, and the recursive note selection works on approval rates
//! scaled by [`beta::APPROVAL_SCALE`].  Storage access (fetching the vote
//! tallies) is left to the caller; the engine is a pure function of the
//! pre-fetched tallies.

pub mod beta;
pub mod command_line_args;
pub mod ranking;
pub mod requests;
pub mod structs;
pub mod structs_api;
pub mod tally;
