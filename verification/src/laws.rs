//! The algebraic laws of the catalogue, proved over the exact model.
//!
//! Each fixed-name gate denotes an exact matrix (see [`crate::model`]),
//! and of those matrices unitarity, the Hadamard self-inverse, the
//! Pauli relations and the phase-shift boundaries hold outright —
//! no tolerance is involved at this level.

use vstd::prelude::*;
use crate::gates::{Gate, id_gate, h_gate, negh_gate, x_gate, y_gate, z_gate, s_gate, t_gate,
    phase_gate, euler_phase};
use crate::model::{Mat, Cx, Rt2, mat_eqv, mat_mul, mat_dagger, mat_ident, mat_scale, is_unitary, cx_eqv, cx_zero,
    cx_mul, cx_conj, cx_one, cx_neg_one, cx_i, cx_eighth_turn, scalar_denotes, id_m, h_m, negh_m,
    x_m, y_m, z_m, s_m, t_m, phase_m, rt2, rt2_eqv, rt2_add, rt2_mul, rt2_neg, rt2_int,
    rt2_inv_sqrt_2};
use crate::scalar::C32;

verus! {

/// A gate's four stored scalars stand, entry for entry, for the
/// exact matrix m.
pub open spec fn gate_denotes(g: Gate, m: Mat) -> bool {
    scalar_denotes(g.a, m.a) && scalar_denotes(g.b, m.b) && scalar_denotes(g.c, m.c)
        && scalar_denotes(g.d, m.d)
}

/// The concrete √2 arithmetic that the catalogue matrices need, spelt
/// out value by value: a product or sum of compound terms stays
/// opaque to the solver until it is pinned to a literal.
proof fn lemma_sqrt2_products()
    ensures
        rt2_mul(rt2_inv_sqrt_2(), rt2_inv_sqrt_2()) == rt2(2, 0, 4),
        rt2_mul(rt2_inv_sqrt_2(), rt2_neg(rt2_inv_sqrt_2())) == rt2(-2, 0, 4),
        rt2_mul(rt2_neg(rt2_inv_sqrt_2()), rt2_inv_sqrt_2()) == rt2(-2, 0, 4),
        rt2_mul(rt2_neg(rt2_inv_sqrt_2()), rt2_neg(rt2_inv_sqrt_2())) == rt2(2, 0, 4),
        rt2_neg(rt2(-2, 0, 4)) == rt2(2, 0, 4),
        rt2_neg(rt2(2, 0, 4)) == rt2(-2, 0, 4),
        rt2_mul(rt2(0, 0, 1), rt2(0, 1, 2)) == rt2(0, 0, 2),
        rt2_mul(rt2(0, 1, 2), rt2(0, 0, 1)) == rt2(0, 0, 2),
        rt2_mul(rt2(0, 0, 1), rt2(0, -1, 2)) == rt2(0, 0, 2),
        rt2_mul(rt2(0, -1, 2), rt2(0, 0, 1)) == rt2(0, 0, 2),
        rt2_add(rt2(2, 0, 4), rt2(0, 0, 1)) == rt2(2, 0, 4),
        rt2_add(rt2(-2, 0, 4), rt2(0, 0, 1)) == rt2(-2, 0, 4),
        rt2_add(rt2(0, 0, 1), rt2(2, 0, 4)) == rt2(2, 0, 4),
        rt2_add(rt2(0, 0, 1), rt2(-2, 0, 4)) == rt2(-2, 0, 4),
        rt2_add(rt2(2, 0, 4), rt2(2, 0, 4)) == rt2(16, 0, 16),
        rt2_add(rt2(2, 0, 4), rt2(-2, 0, 4)) == rt2(0, 0, 16),
        rt2_add(rt2(-2, 0, 4), rt2(2, 0, 4)) == rt2(0, 0, 16),
        rt2_add(rt2(-2, 0, 4), rt2(-2, 0, 4)) == rt2(-16, 0, 16),
        rt2_add(rt2(0, 0, 1), rt2(16, 0, 16)) == rt2(16, 0, 16),
        rt2_add(rt2(0, 0, 1), rt2(0, 0, 16)) == rt2(0, 0, 16),
        rt2_add(rt2(0, 0, 2), rt2(0, 0, 2)) == rt2(0, 0, 4),
        rt2_add(rt2(0, 0, 1), rt2(0, 0, 2)) == rt2(0, 0, 2),
        rt2_add(rt2(0, 0, 2), rt2(0, 0, 1)) == rt2(0, 0, 2),
        rt2_eqv(rt2(16, 0, 16), rt2_int(1)),
        rt2_eqv(rt2(0, 0, 16), rt2_int(0)),
        rt2_eqv(rt2(0, 0, 4), rt2_int(0)),
        rt2_eqv(rt2(0, 0, 2), rt2_int(0)),
{
}

/// A product with a factor whose two coefficients are zero is zero,
/// whatever the other factor holds.
broadcast proof fn lemma_rt2_mul_by_zero(u: Rt2, v: Rt2)
    ensures
        u.a == 0 && u.b == 0 ==> #[trigger] rt2_mul(u, v) == rt2(0, 0, u.d * v.d),
        v.a == 0 && v.b == 0 ==> rt2_mul(u, v) == rt2(0, 0, u.d * v.d),
        u.a == 0 && u.b == 0 ==> rt2_neg(rt2_mul(u, v)) == rt2(0, 0, u.d * v.d),
        v.a == 0 && v.b == 0 ==> rt2_neg(rt2_mul(u, v)) == rt2(0, 0, u.d * v.d),
{
    if (u.a == 0 && u.b == 0) || (v.a == 0 && v.b == 0) {
        assert(u.a * v.a + 2 * (u.b * v.b) == 0 && u.a * v.b + u.b * v.a == 0)
            by (nonlinear_arith)
            requires
                (u.a == 0 && u.b == 0) || (v.a == 0 && v.b == 0),
        ;
    }
}

/// A sum of two zero values is zero, whatever their denominators.
broadcast proof fn lemma_rt2_add_of_zeros(u: Rt2, v: Rt2)
    ensures
        u.a == 0 && u.b == 0 && v.a == 0 && v.b == 0 ==> #[trigger] rt2_add(u, v) == rt2(
            0,
            0,
            u.d * v.d,
        ) && rt2_eqv(rt2_add(u, v), rt2_int(0)),
{
    if u.a == 0 && u.b == 0 && v.a == 0 && v.b == 0 {
        assert(u.a * v.d + v.a * u.d == 0 && u.b * v.d + v.b * u.d == 0 && (u.a * v.d + v.a
            * u.d) * 1 == 0 * (u.d * v.d) && (u.b * v.d + v.b * u.d) * 1 == 0 * (u.d * v.d))
            by (nonlinear_arith)
            requires
                u.a == 0,
                u.b == 0,
                v.a == 0,
                v.b == 0,
        ;
    }
}

/// Law: the identity gate denotes the exact identity matrix, and that
/// matrix is unitary.
pub proof fn lemma_id_unitary()
    ensures
        gate_denotes(id_gate(), id_m()),
        is_unitary(id_m()),
{
}

/// Law: the Hadamard gate denotes its exact matrix, and that matrix
/// is unitary.
pub proof fn lemma_h_unitary()
    ensures
        gate_denotes(h_gate(), h_m()),
        is_unitary(h_m()),
{
    lemma_sqrt2_products();
}

/// Law: the negative Hadamard gate denotes its exact matrix, and that
/// matrix is unitary.
pub proof fn lemma_negh_unitary()
    ensures
        gate_denotes(negh_gate(), negh_m()),
        is_unitary(negh_m()),
{
    lemma_sqrt2_products();
}

/// Law: the Pauli X gate denotes its exact matrix, and that matrix is
/// unitary.
pub proof fn lemma_x_unitary()
    ensures
        gate_denotes(x_gate(), x_m()),
        is_unitary(x_m()),
{
}

/// Law: the Pauli Y gate denotes its exact matrix, and that matrix is
/// unitary.
pub proof fn lemma_y_unitary()
    ensures
        gate_denotes(y_gate(), y_m()),
        is_unitary(y_m()),
{
}

/// Law: the Pauli Z gate denotes its exact matrix, and that matrix is
/// unitary.
pub proof fn lemma_z_unitary()
    ensures
        gate_denotes(z_gate(), z_m()),
        is_unitary(z_m()),
{
}

/// Law: the S gate denotes its exact matrix, and that matrix is
/// unitary.
pub proof fn lemma_s_unitary()
    ensures
        gate_denotes(s_gate(), s_m()),
        is_unitary(s_m()),
{
}

/// Law: the T gate denotes its exact matrix, and that matrix is
/// unitary.
pub proof fn lemma_t_unitary()
    ensures
        gate_denotes(t_gate(), t_m()),
        is_unitary(t_m()),
{
    lemma_sqrt2_products();
}

/// Law: the Hadamard matrix is its own inverse — multiplied by itself
/// it gives the identity, exactly.
pub proof fn lemma_hadamard_self_inverse()
    ensures
        mat_eqv(mat_mul(h_m(), h_m()), mat_ident()),
{
    lemma_sqrt2_products();
}

/// Law: each Pauli matrix squares to the identity, exactly.
pub proof fn lemma_pauli_squares()
    ensures
        mat_eqv(mat_mul(x_m(), x_m()), mat_ident()),
        mat_eqv(mat_mul(y_m(), y_m()), mat_ident()),
        mat_eqv(mat_mul(z_m(), z_m()), mat_ident()),
{
}

/// Law: X·Y = i·Z, exactly — no tolerance and no leftover global
/// phase at this level.
pub proof fn lemma_x_mul_y()
    ensures
        mat_eqv(mat_mul(x_m(), y_m()), mat_scale(cx_i(), z_m())),
{
}

/// Law: the phase-shift boundaries. e^(i·angle) is 1 at angle 0, -1
/// at π, i at π/2 and (1+i)/√2 at π/4; with those phase factors the
/// exact phase-shift matrix is the identity, Pauli Z, S and T matrix
/// respectively.
pub proof fn lemma_phase_boundaries()
    ensures
        mat_eqv(phase_m(cx_one()), id_m()),
        mat_eqv(phase_m(cx_neg_one()), z_m()),
        mat_eqv(phase_m(cx_i()), s_m()),
        mat_eqv(phase_m(cx_eighth_turn()), t_m()),
{
}

/// Law: a phase-shift gate whose bottom-right scalar stands for the
/// exact phase factor v denotes the exact phase-shift matrix of v.
pub proof fn lemma_phase_gate_denotes(p: C32, v: Cx)
    requires
        scalar_denotes(p, v),
    ensures
        gate_denotes(phase_gate(p), phase_m(v)),
{
}

/// Law: the exact phase-shift matrix is unitary whenever its phase
/// factor has unit modulus — as every e^(i·angle) does.
pub proof fn lemma_phase_unitary(p: Cx)
    requires
        cx_eqv(cx_mul(cx_conj(p), p), cx_one()),
    ensures
        is_unitary(phase_m(p)),
{
    broadcast use lemma_rt2_mul_by_zero, lemma_rt2_add_of_zeros;

    let w = mat_mul(mat_dagger(phase_m(p)), phase_m(p));
    assert(cx_eqv(w.a, cx_one()));
    assert(cx_eqv(w.b, cx_zero()));
    assert(cx_eqv(w.c, cx_zero()));
    assert(cx_eqv(w.d, cx_one()));
}

/// Law: the phase-shift generator is deterministic — any two gate
/// values that its contract allows for one angle are bit-identical.
/// (For the fixed-name gates determinism is immediate: each contract
/// pins every bit of the result.)
pub proof fn lemma_r_deterministic(g1: Gate, g2: Gate, angle: u32)
    requires
        g1 == phase_gate(g1.d),
        (g1.d.re, g1.d.im) == euler_phase(angle),
        g2 == phase_gate(g2.d),
        (g2.d.re, g2.d.im) == euler_phase(angle),
    ensures
        g1 == g2,
{
    assert(g1.d =~= g2.d);
    assert(g1 =~= g2);
}

} // verus!
