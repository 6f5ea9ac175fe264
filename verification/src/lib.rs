//! Verified core of a one-dimensional damped-wave simulation.
//!
//! The library provides the structural machinery of an explicit RK4
//! finite-difference solver: a ghost-cell (padded) array with a verified
//! stencil, the field state with its derivative and accumulation loops, the
//! solver's buffer management, and a pixel buffer for visualisation.  All of
//! it is generic over the scalar element type; the host supplies the scalar
//! arithmetic (in practice `f64`) through closures and concrete values.

pub mod image;
pub mod padded;
pub mod solver;
pub mod state;
