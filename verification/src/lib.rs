//! Sampling of ordered pairs of distinct indices from `0..len`, with one
//! denied unordered pair that is never returned.
//!
//! Two strategies are offered: a rejection-sampling variant that keeps every
//! remaining unordered pair equally likely, and a single-pass variant that is
//! faster but biased. Both draw their randomness through the
//! [`source::RandomSource`] capability, which the caller supplies.

pub mod sampling;
pub mod source;
