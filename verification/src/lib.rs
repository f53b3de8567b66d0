//! A sky-dome lighting model: the Hosek-Wilkie analytic fit, evaluated over a
//! fixed-point scalar domain.
//!
//! The crate turns a sun position into the ten per-channel parameter vectors
//! that a sky shader consumes: nine model coefficients (`A`..`I`) blended out
//! of a precomputed dataset by quintic Bezier interpolation over sun
//! elevation, plus a normalized radiance scale. All arithmetic runs on
//! micro-unit (1e-6) scaled 64-bit integers, so every step has an exact,
//! machine-checked meaning: the numerically sensitive corners of the model
//! (division near-singularities, elevation clamping, turbidity banding) are
//! total by construction and covered by contracts.

pub mod approx;
pub mod blend;
pub mod control;
pub mod fx;
pub mod normalize;
pub mod radiance;
pub mod sky;
pub mod solver;
pub mod spline;
