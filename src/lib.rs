//! Noisy-circle polygon generation with exact fixed-point arithmetic.
//!
//! A polygon is produced as a list of polar vertices whose phases never
//! decrease. Randomness is supplied by the caller as standard-normal samples
//! in fixed point, so the same samples always give the same polygon.

pub mod lemmas;
pub mod polygon;

pub use polygon::{
    jittered_phase, jittered_radius, phase_denominator, rand_poly, PolarVertex, PolyError,
    VertexNoise, PHASE_STD_SCALE, SAMPLE_SCALE, TURN_SUBDIVISIONS,
};
