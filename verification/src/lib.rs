//! A catalogue of single-qubit quantum gate matrices.
//!
//! A gate is an immutable 2×2 complex matrix in row-major order; each
//! scalar is stored as a pair of IEEE-754 binary32 bit patterns, so
//! gate values compare bit for bit and every generator is a pure,
//! total function of its argument. The `model` module gives each
//! catalogue matrix an exact counterpart over numbers of the form
//! (a + b·√2)/d, and the `laws` module proves the algebraic facts of
//! the catalogue — unitarity, the Pauli relations, the phase-shift
//! boundaries — over that model, with no rounding.

pub mod gates;
pub mod laws;
pub mod model;
pub mod scalar;

pub use gates::{id, h, negh, x, y, z, s, t, r, Gate};
pub use scalar::C32;
