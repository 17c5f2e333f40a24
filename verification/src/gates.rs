//! Gates and gate generation.
//!
//! Matrices are in row-major format; every entry is a [`C32`], the
//! bit-for-bit image of a `num_complex::Complex<f32>` value.

use vstd::prelude::*;
use vstd::string::StringExecFns;
use crate::scalar::{C32, B_ZERO, B_ONE, B_NEG_ONE, B_FRAC_1_SQRT_2, B_NEG_FRAC_1_SQRT_2};

verus! {

/// Representation of a gate: a 2×2 complex matrix
///
/// ```text
/// a b
/// c d
/// ```
#[derive(Clone, Copy, PartialEq, Eq, Structural, Debug)]
#[verifier::ext_equal]
pub struct Gate {
    pub a: C32,
    pub b: C32,
    pub c: C32,
    pub d: C32,
}

/// The value that [`id`] returns.
pub open spec fn id_gate() -> Gate {
    Gate {
        a: C32 { re: B_ONE, im: B_ZERO },
        b: C32 { re: B_ZERO, im: B_ZERO },
        c: C32 { re: B_ZERO, im: B_ZERO },
        d: C32 { re: B_ONE, im: B_ZERO },
    }
}

/// The value that [`h`] returns.
pub open spec fn h_gate() -> Gate {
    Gate {
        a: C32 { re: B_FRAC_1_SQRT_2, im: B_ZERO },
        b: C32 { re: B_FRAC_1_SQRT_2, im: B_ZERO },
        c: C32 { re: B_FRAC_1_SQRT_2, im: B_ZERO },
        d: C32 { re: B_NEG_FRAC_1_SQRT_2, im: B_ZERO },
    }
}

/// The value that [`negh`] returns.
pub open spec fn negh_gate() -> Gate {
    Gate {
        a: C32 { re: B_NEG_FRAC_1_SQRT_2, im: B_ZERO },
        b: C32 { re: B_NEG_FRAC_1_SQRT_2, im: B_ZERO },
        c: C32 { re: B_NEG_FRAC_1_SQRT_2, im: B_ZERO },
        d: C32 { re: B_FRAC_1_SQRT_2, im: B_ZERO },
    }
}

/// The value that [`x`] returns.
pub open spec fn x_gate() -> Gate {
    Gate {
        a: C32 { re: B_ZERO, im: B_ZERO },
        b: C32 { re: B_ONE, im: B_ZERO },
        c: C32 { re: B_ONE, im: B_ZERO },
        d: C32 { re: B_ZERO, im: B_ZERO },
    }
}

/// The value that [`y`] returns.
pub open spec fn y_gate() -> Gate {
    Gate {
        a: C32 { re: B_ZERO, im: B_ZERO },
        b: C32 { re: B_ZERO, im: B_NEG_ONE },
        c: C32 { re: B_ZERO, im: B_ONE },
        d: C32 { re: B_ZERO, im: B_ZERO },
    }
}

/// The value that [`z`] returns.
pub open spec fn z_gate() -> Gate {
    Gate {
        a: C32 { re: B_ONE, im: B_ZERO },
        b: C32 { re: B_ZERO, im: B_ZERO },
        c: C32 { re: B_ZERO, im: B_ZERO },
        d: C32 { re: B_NEG_ONE, im: B_ZERO },
    }
}

/// The value that [`s`] returns.
pub open spec fn s_gate() -> Gate {
    Gate {
        a: C32 { re: B_ONE, im: B_ZERO },
        b: C32 { re: B_ZERO, im: B_ZERO },
        c: C32 { re: B_ZERO, im: B_ZERO },
        d: C32 { re: B_ZERO, im: B_ONE },
    }
}

/// The value that [`t`] returns.
pub open spec fn t_gate() -> Gate {
    Gate {
        a: C32 { re: B_ONE, im: B_ZERO },
        b: C32 { re: B_ZERO, im: B_ZERO },
        c: C32 { re: B_ZERO, im: B_ZERO },
        d: C32 { re: B_FRAC_1_SQRT_2, im: B_FRAC_1_SQRT_2 },
    }
}

/// A phase-shift gate with bottom-right scalar `p`: the shape that
/// [`r`] always returns.
pub open spec fn phase_gate(p: C32) -> Gate {
    Gate {
        a: C32 { re: B_ONE, im: B_ZERO },
        b: C32 { re: B_ZERO, im: B_ZERO },
        c: C32 { re: B_ZERO, im: B_ZERO },
        d: p,
    }
}

/// Identity gate
///
/// [1, 0]
///
/// [0, 1]
pub fn id() -> (g: Gate)
    ensures
        g == id_gate(),
{
    Gate {
        a: C32 { re: B_ONE, im: B_ZERO },
        b: C32 { re: B_ZERO, im: B_ZERO },
        c: C32 { re: B_ZERO, im: B_ZERO },
        d: C32 { re: B_ONE, im: B_ZERO },
    }
}

/// Hadamard gate
///
/// [0.70710678118, 0.70710678118]
///
/// [0.70710678118, -0.70710678118]
pub fn h() -> (g: Gate)
    ensures
        g == h_gate(),
{
    Gate {
        a: C32 { re: B_FRAC_1_SQRT_2, im: B_ZERO },
        b: C32 { re: B_FRAC_1_SQRT_2, im: B_ZERO },
        c: C32 { re: B_FRAC_1_SQRT_2, im: B_ZERO },
        d: C32 { re: B_NEG_FRAC_1_SQRT_2, im: B_ZERO },
    }
}

/// Negative Hadamard gate
///
/// [-0.70710678118, -0.70710678118]
///
/// [-0.70710678118, 0.70710678118]
pub fn negh() -> (g: Gate)
    ensures
        g == negh_gate(),
{
    Gate {
        a: C32 { re: B_NEG_FRAC_1_SQRT_2, im: B_ZERO },
        b: C32 { re: B_NEG_FRAC_1_SQRT_2, im: B_ZERO },
        c: C32 { re: B_NEG_FRAC_1_SQRT_2, im: B_ZERO },
        d: C32 { re: B_FRAC_1_SQRT_2, im: B_ZERO },
    }
}

/// Pauli X / NOT gate
///
/// [0, 1]
///
/// [1, 0]
pub fn x() -> (g: Gate)
    ensures
        g == x_gate(),
{
    Gate {
        a: C32 { re: B_ZERO, im: B_ZERO },
        b: C32 { re: B_ONE, im: B_ZERO },
        c: C32 { re: B_ONE, im: B_ZERO },
        d: C32 { re: B_ZERO, im: B_ZERO },
    }
}

/// Pauli Y gate
///
/// [0, -i]
///
/// [i, 0]
pub fn y() -> (g: Gate)
    ensures
        g == y_gate(),
{
    Gate {
        a: C32 { re: B_ZERO, im: B_ZERO },
        b: C32 { re: B_ZERO, im: B_NEG_ONE },
        c: C32 { re: B_ZERO, im: B_ONE },
        d: C32 { re: B_ZERO, im: B_ZERO },
    }
}

/// Pauli Z gate
///
/// [1, 0]
///
/// [0, -1]
pub fn z() -> (g: Gate)
    ensures
        g == z_gate(),
{
    Gate {
        a: C32 { re: B_ONE, im: B_ZERO },
        b: C32 { re: B_ZERO, im: B_ZERO },
        c: C32 { re: B_ZERO, im: B_ZERO },
        d: C32 { re: B_NEG_ONE, im: B_ZERO },
    }
}

/// S / Phase gate
///
/// [1, 0]
///
/// [0, i]
pub fn s() -> (g: Gate)
    ensures
        g == s_gate(),
{
    Gate {
        a: C32 { re: B_ONE, im: B_ZERO },
        b: C32 { re: B_ZERO, im: B_ZERO },
        c: C32 { re: B_ZERO, im: B_ZERO },
        d: C32 { re: B_ZERO, im: B_ONE },
    }
}

/// T gate
///
/// [1, 0]
///
/// [0, (1/sqrt(2)) * (1 + 1i)]
pub fn t() -> (g: Gate)
    ensures
        g == t_gate(),
{
    Gate {
        a: C32 { re: B_ONE, im: B_ZERO },
        b: C32 { re: B_ZERO, im: B_ZERO },
        c: C32 { re: B_ZERO, im: B_ZERO },
        d: C32 { re: B_FRAC_1_SQRT_2, im: B_FRAC_1_SQRT_2 },
    }
}

/// The bit patterns that the complex power routine returns for e raised
/// to i·angle, as a (real, imaginary) pair; `angle` is the bit pattern
/// of the angle in radians.
pub uninterp spec fn euler_phase(angle: u32) -> (u32, u32);

/// Relies on `num_complex::Complex32::powc`: raises e (from
/// `num_traits::FloatConst`) to the complex power i·angle (Euler's
/// formula), and on `bytemuck::cast` to reinterpret the stored bit
/// patterns as scalars one for one. The result depends on the angle's
/// bit pattern alone, and `powc` returns one outright — no rounding —
/// when its exponent is zero.
#[verifier::external_body]
fn exp_i_angle(angle: u32) -> (p: C32)
    ensures
        (p.re, p.im) == euler_phase(angle),
        angle == B_ZERO ==> (p.re, p.im) == (B_ONE, B_ZERO),
{
    let base = num_complex::Complex32::new(num_traits::FloatConst::E(), bytemuck::cast(0u32));
    let exponent = num_complex::Complex32::new(bytemuck::cast(0u32), bytemuck::cast(angle));
    let p = base.powc(exponent);
    C32 { re: p.re.to_bits(), im: p.im.to_bits() }
}

/// The Phase Shift / R gate. The argument is the bit pattern of the
/// rotation angle, a binary32 value in radians.
///
/// [1, 0]
///
/// [0, e^(i*angle)]
///
/// An angle of zero yields the identity gate, bit for bit.
pub fn r(angle: u32) -> (g: Gate)
    ensures
        g == phase_gate(g.d),
        (g.d.re, g.d.im) == euler_phase(angle),
        angle == B_ZERO ==> g == id_gate(),
{
    Gate {
        a: C32 { re: B_ONE, im: B_ZERO },
        b: C32 { re: B_ZERO, im: B_ZERO },
        c: C32 { re: B_ZERO, im: B_ZERO },
        d: exp_i_angle(angle),
    }
}

/// The text that the complex primitive's own rendering gives to the
/// scalar with the two bit patterns.
pub uninterp spec fn scalar_text_of(re: u32, im: u32) -> Seq<char>;

/// Relies on the `Display` impl of `num_complex::Complex32`, which
/// writes the real part, a sign and the imaginary part with an `i`
/// suffix — never a bracket or a comma — and on `bytemuck::cast` to
/// reinterpret the stored bit patterns one for one. The text depends
/// on the two bit patterns alone.
#[verifier::external_body]
fn scalar_text(c: C32) -> (s: String)
    ensures
        s@ == scalar_text_of(c.re, c.im),
        forall|j: int| 0 <= j < s@.len() ==> s@[j] != '[' && s@[j] != ']' && s@[j] != ',',
{
    let v = num_complex::Complex32::new(bytemuck::cast(c.re), bytemuck::cast(c.im));
    format!("{}", v)
}

/// The canonical rendering of a gate: `[[a, b], [c, d]]`, row-major,
/// each scalar in the complex primitive's own text form.
pub open spec fn gate_text(g: Gate) -> Seq<char> {
    "[["@ + scalar_text_of(g.a.re, g.a.im) + ", "@ + scalar_text_of(g.b.re, g.b.im) + "], ["@
        + scalar_text_of(g.c.re, g.c.im) + ", "@ + scalar_text_of(g.d.re, g.d.im) + "]]"@
}

impl Gate {
    /// Renders this matrix as `[[a, b], [c, d]]`: exactly two
    /// comma-separated bracketed pairs, in the matrix's row-major
    /// order, each scalar in the complex primitive's own text form.
    pub fn render(&self) -> (out: String)
        ensures
            out@ == gate_text(*self),
    {
        let ta = scalar_text(self.a);
        let tb = scalar_text(self.b);
        let tc = scalar_text(self.c);
        let td = scalar_text(self.d);
        let mut out = String::new();
        out.append("[[");
        out.append(ta.as_str());
        out.append(", ");
        out.append(tb.as_str());
        out.append("], [");
        out.append(tc.as_str());
        out.append(", ");
        out.append(td.as_str());
        out.append("]]");
        proof {
            assert(out@ =~= gate_text(*self));
        }
        out
    }
}

} // verus!
