use num_complex::Complex32;
use qcgpu::{C32, Gate};
use std::f32::consts::{FRAC_PI_2, FRAC_PI_4, PI};

const TOL: f32 = 1e-6;

fn to_c(c: C32) -> Complex32 {
    Complex32::new(f32::from_bits(c.re), f32::from_bits(c.im))
}

fn entries(g: Gate) -> [Complex32; 4] {
    [to_c(g.a), to_c(g.b), to_c(g.c), to_c(g.d)]
}

fn mul(p: [Complex32; 4], q: [Complex32; 4]) -> [Complex32; 4] {
    [
        p[0] * q[0] + p[1] * q[2],
        p[0] * q[1] + p[1] * q[3],
        p[2] * q[0] + p[3] * q[2],
        p[2] * q[1] + p[3] * q[3],
    ]
}

fn dagger(p: [Complex32; 4]) -> [Complex32; 4] {
    [p[0].conj(), p[2].conj(), p[1].conj(), p[3].conj()]
}

fn ident() -> [Complex32; 4] {
    [
        Complex32::new(1.0, 0.0),
        Complex32::new(0.0, 0.0),
        Complex32::new(0.0, 0.0),
        Complex32::new(1.0, 0.0),
    ]
}

fn close(p: [Complex32; 4], q: [Complex32; 4]) -> bool {
    (0..4).all(|k| (p[k] - q[k]).norm() < TOL)
}

#[test]
fn identity_is_exact() {
    let g = qcgpu::id();
    assert_eq!(g.a.re, 1.0f32.to_bits());
    assert_eq!(g.a.im, 0.0f32.to_bits());
    assert_eq!(g.b.re, 0.0f32.to_bits());
    assert_eq!(g.b.im, 0.0f32.to_bits());
    assert_eq!(g.c.re, 0.0f32.to_bits());
    assert_eq!(g.c.im, 0.0f32.to_bits());
    assert_eq!(g.d.re, 1.0f32.to_bits());
    assert_eq!(g.d.im, 0.0f32.to_bits());
}

#[test]
fn stored_constants_match_the_standard_ones() {
    let h = qcgpu::h();
    assert_eq!(f32::from_bits(h.a.re), std::f32::consts::FRAC_1_SQRT_2);
    assert_eq!(f32::from_bits(h.d.re), -std::f32::consts::FRAC_1_SQRT_2);
    let n = qcgpu::negh();
    assert_eq!(f32::from_bits(n.a.re), -std::f32::consts::FRAC_1_SQRT_2);
    assert_eq!(f32::from_bits(n.d.re), std::f32::consts::FRAC_1_SQRT_2);
    let t = qcgpu::t();
    assert_eq!(f32::from_bits(t.d.re), std::f32::consts::FRAC_1_SQRT_2);
    assert_eq!(f32::from_bits(t.d.im), std::f32::consts::FRAC_1_SQRT_2);
}

#[test]
fn fixed_gates_are_unitary() {
    let gates = [
        qcgpu::id(),
        qcgpu::h(),
        qcgpu::negh(),
        qcgpu::x(),
        qcgpu::y(),
        qcgpu::z(),
        qcgpu::s(),
        qcgpu::t(),
    ];
    for g in gates {
        let e = entries(g);
        assert!(close(mul(dagger(e), e), ident()));
    }
}

#[test]
fn hadamard_is_its_own_inverse() {
    let e = entries(qcgpu::h());
    assert!(close(mul(e, e), ident()));
}

#[test]
fn pauli_gates_square_to_identity() {
    for g in [qcgpu::x(), qcgpu::y(), qcgpu::z()] {
        let e = entries(g);
        assert!(close(mul(e, e), ident()));
    }
}

#[test]
fn x_times_y_is_i_times_z() {
    let xy = mul(entries(qcgpu::x()), entries(qcgpu::y()));
    let z = entries(qcgpu::z());
    let i = Complex32::new(0.0, 1.0);
    let iz = [i * z[0], i * z[1], i * z[2], i * z[3]];
    assert!(close(xy, iz));
}

#[test]
fn phase_shift_at_zero_is_the_identity_bit_for_bit() {
    assert_eq!(qcgpu::r(0.0f32.to_bits()), qcgpu::id());
}

#[test]
fn phase_shift_boundaries() {
    let r0 = entries(qcgpu::r(0.0f32.to_bits()));
    assert!(close(r0, entries(qcgpu::id())));
    let rpi = entries(qcgpu::r(PI.to_bits()));
    assert!(close(rpi, entries(qcgpu::z())));
    let rhalf = entries(qcgpu::r(FRAC_PI_2.to_bits()));
    assert!(close(rhalf, entries(qcgpu::s())));
    let rquarter = entries(qcgpu::r(FRAC_PI_4.to_bits()));
    assert!(close(rquarter, entries(qcgpu::t())));
}

#[test]
fn phase_shift_matches_the_complex_power_routine() {
    for angle in [1.0f32, -3.5, 0.25, 100.0] {
        let g = qcgpu::r(angle.to_bits());
        let base = Complex32::new(std::f32::consts::E, 0.0);
        let expected = base.powc(Complex32::new(0.0, angle));
        assert_eq!(g.d.re, expected.re.to_bits());
        assert_eq!(g.d.im, expected.im.to_bits());
        assert_ne!((g.d.re, g.d.im), (angle.to_bits(), angle.to_bits()));
        assert_eq!(g.a.re, 1.0f32.to_bits());
        assert_eq!(g.b, C32 { re: 0, im: 0 });
        assert_eq!(g.c, C32 { re: 0, im: 0 });
    }
}

#[test]
fn phase_shift_is_total_over_special_values() {
    let g = qcgpu::r(f32::NAN.to_bits());
    assert!(f32::from_bits(g.d.re).is_nan() || f32::from_bits(g.d.im).is_nan());
    let g = qcgpu::r(f32::INFINITY.to_bits());
    assert_eq!(g.a.re, 1.0f32.to_bits());
}

#[test]
fn generators_are_deterministic() {
    assert_eq!(qcgpu::id(), qcgpu::id());
    assert_eq!(qcgpu::h(), qcgpu::h());
    assert_eq!(qcgpu::negh(), qcgpu::negh());
    assert_eq!(qcgpu::x(), qcgpu::x());
    assert_eq!(qcgpu::y(), qcgpu::y());
    assert_eq!(qcgpu::z(), qcgpu::z());
    assert_eq!(qcgpu::s(), qcgpu::s());
    assert_eq!(qcgpu::t(), qcgpu::t());
    for angle in [0.0f32, 1.0, -2.75, 6.5e7] {
        assert_eq!(qcgpu::r(angle.to_bits()), qcgpu::r(angle.to_bits()));
    }
}
