//! A deterministic 2D smoothed-particle-hydrodynamics (SPH) solver over
//! fixed-point integer coordinates.
//!
//! Particles live in a rectangular container. Each simulation tick computes
//! per-particle density and pressure from smoothing kernels, accumulates
//! pressure and viscosity forces between neighbours, and integrates velocity
//! and position under gravity with damped boundary collisions. A spatial hash
//! index accelerates neighbour search and is proved to return exactly the
//! brute-force neighbour set.
//!
//! All quantities are dimensionless integers; a caller chooses the unit scale
//! (for example, one thousandth of a metre per coordinate unit). Arithmetic
//! is exact except where a formula divides, which truncates toward zero, and
//! where velocity or acceleration would leave the model's dynamic range, where
//! it saturates at a documented limit.

pub mod math;
pub mod smoothing;
pub mod gravity;
pub mod cursor;
pub mod params;
pub mod fluid_container;
pub mod particle;
pub mod helpers;
pub mod fluid;
pub mod spatial;
pub mod fluid_compute;
