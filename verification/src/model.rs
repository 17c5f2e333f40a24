//! An exact model of the catalogue's matrices.
//!
//! Every scalar that a fixed-name gate stores approximates a real
//! number of the form (a + b·√2)/d with integers a, b and a positive
//! integer d. [`Rt2`] represents such numbers exactly, [`Cx`] a
//! complex number with [`Rt2`] parts, and [`Mat`] a 2×2 complex
//! matrix over them; the algebraic facts of the catalogue are stated
//! and proved over these, with no rounding anywhere.

use vstd::prelude::*;
use crate::scalar::{C32, B_ZERO, B_ONE, B_NEG_ONE, B_FRAC_1_SQRT_2, B_NEG_FRAC_1_SQRT_2};

verus! {

/// The real number (a + b·√2)/d, exactly. A value is well formed when
/// its denominator d is positive; the operations below keep that.
pub ghost struct Rt2 {
    pub a: int,
    pub b: int,
    pub d: int,
}

/// Shorthand for building an [`Rt2`] value.
pub open spec fn rt2(a: int, b: int, d: int) -> Rt2 {
    Rt2 { a, b, d }
}

/// Equality of the represented numbers. Because √2 is irrational,
/// (a₁ + b₁·√2)/d₁ and (a₂ + b₂·√2)/d₂ are the same real number
/// exactly when both cross-multiplied coefficients agree.
pub open spec fn rt2_eqv(u: Rt2, v: Rt2) -> bool {
    u.a * v.d == v.a * u.d && u.b * v.d == v.b * u.d
}

pub open spec fn rt2_add(u: Rt2, v: Rt2) -> Rt2 {
    Rt2 { a: u.a * v.d + v.a * u.d, b: u.b * v.d + v.b * u.d, d: u.d * v.d }
}

/// Multiplication; it uses √2·√2 = 2.
pub open spec fn rt2_mul(u: Rt2, v: Rt2) -> Rt2 {
    Rt2 { a: u.a * v.a + 2 * (u.b * v.b), b: u.a * v.b + u.b * v.a, d: u.d * v.d }
}

pub open spec fn rt2_neg(u: Rt2) -> Rt2 {
    Rt2 { a: -u.a, b: -u.b, d: u.d }
}

/// The integer n as an [`Rt2`] value.
pub open spec fn rt2_int(n: int) -> Rt2 {
    Rt2 { a: n, b: 0, d: 1 }
}

/// 1/√2, exactly: √2/2.
pub open spec fn rt2_inv_sqrt_2() -> Rt2 {
    Rt2 { a: 0, b: 1, d: 2 }
}

/// A complex number with exact real and imaginary parts.
pub ghost struct Cx {
    pub re: Rt2,
    pub im: Rt2,
}

pub open spec fn cx(re: Rt2, im: Rt2) -> Cx {
    Cx { re, im }
}

pub open spec fn cx_eqv(u: Cx, v: Cx) -> bool {
    rt2_eqv(u.re, v.re) && rt2_eqv(u.im, v.im)
}

pub open spec fn cx_add(u: Cx, v: Cx) -> Cx {
    Cx { re: rt2_add(u.re, v.re), im: rt2_add(u.im, v.im) }
}

pub open spec fn cx_mul(u: Cx, v: Cx) -> Cx {
    Cx {
        re: rt2_add(rt2_mul(u.re, v.re), rt2_neg(rt2_mul(u.im, v.im))),
        im: rt2_add(rt2_mul(u.re, v.im), rt2_mul(u.im, v.re)),
    }
}

/// Complex conjugate.
pub open spec fn cx_conj(u: Cx) -> Cx {
    Cx { re: u.re, im: rt2_neg(u.im) }
}

pub open spec fn cx_zero() -> Cx {
    Cx { re: rt2_int(0), im: rt2_int(0) }
}

pub open spec fn cx_one() -> Cx {
    Cx { re: rt2_int(1), im: rt2_int(0) }
}

pub open spec fn cx_neg_one() -> Cx {
    Cx { re: rt2_int(-1), im: rt2_int(0) }
}

/// The imaginary unit i.
pub open spec fn cx_i() -> Cx {
    Cx { re: rt2_int(0), im: rt2_int(1) }
}

/// (1 + i)/√2, the eighth-turn phase.
pub open spec fn cx_eighth_turn() -> Cx {
    Cx { re: rt2_inv_sqrt_2(), im: rt2_inv_sqrt_2() }
}

/// A 2×2 complex matrix in row-major order, exactly as [`crate::gates::Gate`]
/// lays its entries out.
pub ghost struct Mat {
    pub a: Cx,
    pub b: Cx,
    pub c: Cx,
    pub d: Cx,
}

pub open spec fn mat_eqv(m: Mat, n: Mat) -> bool {
    cx_eqv(m.a, n.a) && cx_eqv(m.b, n.b) && cx_eqv(m.c, n.c) && cx_eqv(m.d, n.d)
}

/// Matrix multiplication.
pub open spec fn mat_mul(m: Mat, n: Mat) -> Mat {
    Mat {
        a: cx_add(cx_mul(m.a, n.a), cx_mul(m.b, n.c)),
        b: cx_add(cx_mul(m.a, n.b), cx_mul(m.b, n.d)),
        c: cx_add(cx_mul(m.c, n.a), cx_mul(m.d, n.c)),
        d: cx_add(cx_mul(m.c, n.b), cx_mul(m.d, n.d)),
    }
}

/// Conjugate transpose.
pub open spec fn mat_dagger(m: Mat) -> Mat {
    Mat { a: cx_conj(m.a), b: cx_conj(m.c), c: cx_conj(m.b), d: cx_conj(m.d) }
}

/// The whole matrix multiplied by the scalar s.
pub open spec fn mat_scale(s: Cx, m: Mat) -> Mat {
    Mat { a: cx_mul(s, m.a), b: cx_mul(s, m.b), c: cx_mul(s, m.c), d: cx_mul(s, m.d) }
}

/// The identity matrix.
pub open spec fn mat_ident() -> Mat {
    Mat { a: cx_one(), b: cx_zero(), c: cx_zero(), d: cx_one() }
}

/// A matrix is unitary when its conjugate transpose times the matrix
/// is the identity.
pub open spec fn is_unitary(m: Mat) -> bool {
    mat_eqv(mat_mul(mat_dagger(m), m), mat_ident())
}

/// The exact matrix of the identity gate.
pub open spec fn id_m() -> Mat {
    Mat { a: cx_one(), b: cx_zero(), c: cx_zero(), d: cx_one() }
}

/// The exact matrix of the Hadamard gate.
pub open spec fn h_m() -> Mat {
    Mat {
        a: cx(rt2_inv_sqrt_2(), rt2_int(0)),
        b: cx(rt2_inv_sqrt_2(), rt2_int(0)),
        c: cx(rt2_inv_sqrt_2(), rt2_int(0)),
        d: cx(rt2_neg(rt2_inv_sqrt_2()), rt2_int(0)),
    }
}

/// The exact matrix of the negative Hadamard gate.
pub open spec fn negh_m() -> Mat {
    Mat {
        a: cx(rt2_neg(rt2_inv_sqrt_2()), rt2_int(0)),
        b: cx(rt2_neg(rt2_inv_sqrt_2()), rt2_int(0)),
        c: cx(rt2_neg(rt2_inv_sqrt_2()), rt2_int(0)),
        d: cx(rt2_inv_sqrt_2(), rt2_int(0)),
    }
}

/// The exact matrix of the Pauli X gate.
pub open spec fn x_m() -> Mat {
    Mat { a: cx_zero(), b: cx_one(), c: cx_one(), d: cx_zero() }
}

/// The exact matrix of the Pauli Y gate.
pub open spec fn y_m() -> Mat {
    Mat {
        a: cx_zero(),
        b: cx(rt2_int(0), rt2_int(-1)),
        c: cx_i(),
        d: cx_zero(),
    }
}

/// The exact matrix of the Pauli Z gate.
pub open spec fn z_m() -> Mat {
    Mat { a: cx_one(), b: cx_zero(), c: cx_zero(), d: cx_neg_one() }
}

/// The exact matrix of the S gate.
pub open spec fn s_m() -> Mat {
    Mat { a: cx_one(), b: cx_zero(), c: cx_zero(), d: cx_i() }
}

/// The exact matrix of the T gate.
pub open spec fn t_m() -> Mat {
    Mat { a: cx_one(), b: cx_zero(), c: cx_zero(), d: cx_eighth_turn() }
}

/// The exact matrix of a phase-shift gate with phase factor p.
pub open spec fn phase_m(p: Cx) -> Mat {
    Mat { a: cx_one(), b: cx_zero(), c: cx_zero(), d: p }
}

/// The catalogue stores, for each exact scalar that a fixed-name gate
/// uses, the nearest binary32 value. This table records which stored
/// bit pattern stands for which exact real number.
pub open spec fn bits_denote(bits: u32, v: Rt2) -> bool {
    if bits == B_ZERO {
        rt2_eqv(v, rt2_int(0))
    } else if bits == B_ONE {
        rt2_eqv(v, rt2_int(1))
    } else if bits == B_NEG_ONE {
        rt2_eqv(v, rt2_int(-1))
    } else if bits == B_FRAC_1_SQRT_2 {
        rt2_eqv(v, rt2_inv_sqrt_2())
    } else if bits == B_NEG_FRAC_1_SQRT_2 {
        rt2_eqv(v, rt2_neg(rt2_inv_sqrt_2()))
    } else {
        false
    }
}

/// The stored scalar stands for the exact complex number v.
pub open spec fn scalar_denotes(c: C32, v: Cx) -> bool {
    bits_denote(c.re, v.re) && bits_denote(c.im, v.im)
}

} // verus!
