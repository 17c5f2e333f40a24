use num_complex::Complex32;
use qcgpu::{C32, Gate};

fn to_c(c: C32) -> Complex32 {
    Complex32::new(f32::from_bits(c.re), f32::from_bits(c.im))
}

fn expected(g: Gate) -> String {
    format!("[[{}, {}], [{}, {}]]", to_c(g.a), to_c(g.b), to_c(g.c), to_c(g.d))
}

#[test]
fn render_matches_the_primitive_text_form() {
    for g in [
        qcgpu::id(),
        qcgpu::h(),
        qcgpu::negh(),
        qcgpu::x(),
        qcgpu::y(),
        qcgpu::z(),
        qcgpu::s(),
        qcgpu::t(),
        qcgpu::r(1.25f32.to_bits()),
    ] {
        assert_eq!(g.render(), expected(g));
    }
}

#[test]
fn render_has_two_comma_separated_bracketed_pairs() {
    let text = qcgpu::h().render();
    assert!(text.starts_with("[["));
    assert!(text.ends_with("]]"));
    assert_eq!(text.matches("], [").count(), 1);
    assert_eq!(text.matches('[').count(), 3);
    assert_eq!(text.matches(']').count(), 3);
    assert_eq!(text.matches(", ").count(), 3);
    let inner = &text[2..text.len() - 2];
    let pairs: Vec<&str> = inner.split("], [").collect();
    assert_eq!(pairs.len(), 2);
    for pair in pairs {
        assert_eq!(pair.split(", ").count(), 2);
    }
}

#[test]
fn render_identity_text() {
    assert_eq!(qcgpu::id().render(), "[[1+0i, 0+0i], [0+0i, 1+0i]]");
}

#[test]
fn render_pauli_y_text() {
    assert_eq!(qcgpu::y().render(), "[[0+0i, 0-1i], [0+1i, 0+0i]]");
}
