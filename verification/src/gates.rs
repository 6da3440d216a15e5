//! The 2x2 complex gate matrices.
//!
//! The standard matrices are frozen constants looked up by name. Every
//! entry lies in the exact amplitude ring of [`crate::amp`]: `1`, `-1`,
//! `i`, `-i`, the 45-degree phase `w = e^{i*pi/4}` and `1/sqrt(2)` are all
//! represented without rounding, so applying a gate is exact integer
//! arithmetic.

use vstd::prelude::*;
use crate::amp::{Amp, AmpS, amp_one_s, amp_wf, amp_zero_s};

pub mod single_qubit_gates;

verus! {

/// A 2x2 complex matrix of exact amplitudes, the operation of any
/// single-qubit gate. Row `i`, column `j` is `e{i}{j}`.
#[derive(Clone, Copy, Debug, PartialEq, Eq, Structural)]
pub struct SingleGateMatrix {
    pub e00: Amp,
    pub e01: Amp,
    pub e10: Amp,
    pub e11: Amp,
}

/// The mathematical content of a [`SingleGateMatrix`].
pub ghost struct MatrixS {
    pub e00: AmpS,
    pub e01: AmpS,
    pub e10: AmpS,
    pub e11: AmpS,
}

impl View for SingleGateMatrix {
    type V = MatrixS;

    open spec fn view(&self) -> MatrixS {
        MatrixS { e00: self.e00@, e01: self.e01@, e10: self.e10@, e11: self.e11@ }
    }
}

/// Every entry is within the bounds the executable arithmetic accepts.
pub open spec fn matrix_wf(m: MatrixS) -> bool {
    amp_wf(m.e00) && amp_wf(m.e01) && amp_wf(m.e10) && amp_wf(m.e11)
}

/// The amplitude `-1`.
pub open spec fn amp_neg_one_s() -> AmpS {
    AmpS { a: 0, b: 0, c: 0, d: -1, m: 0 }
}

/// The amplitude `i = w^2`.
pub open spec fn amp_i_s() -> AmpS {
    AmpS { a: 0, b: 1, c: 0, d: 0, m: 0 }
}

/// The amplitude `-i = -w^2`.
pub open spec fn amp_neg_i_s() -> AmpS {
    AmpS { a: 0, b: -1, c: 0, d: 0, m: 0 }
}

/// The amplitude `w = e^{i*pi/4}`, the 45-degree phase.
pub open spec fn amp_omega_s() -> AmpS {
    AmpS { a: 0, b: 0, c: 1, d: 0, m: 0 }
}

/// The amplitude `1/sqrt(2) = (w - w^3) / 2`.
pub open spec fn amp_inv_sqrt2_s() -> AmpS {
    AmpS { a: -1, b: 0, c: 1, d: 0, m: 1 }
}

/// The amplitude `-1/sqrt(2)`.
pub open spec fn amp_neg_inv_sqrt2_s() -> AmpS {
    AmpS { a: 1, b: 0, c: -1, d: 0, m: 1 }
}

/// Pauli-X (bit-flip): `[[0, 1], [1, 0]]`. Starting from |0> and applying
/// it indicates a collapse to |1> with probability 1.
pub open spec fn pauli_x_s() -> MatrixS {
    MatrixS { e00: amp_zero_s(), e01: amp_one_s(), e10: amp_one_s(), e11: amp_zero_s() }
}

/// Pauli-Y (bit-and-phase-flip): `[[0, -i], [i, 0]]`.
pub open spec fn pauli_y_s() -> MatrixS {
    MatrixS { e00: amp_zero_s(), e01: amp_neg_i_s(), e10: amp_i_s(), e11: amp_zero_s() }
}

/// Pauli-Z (phase-flip): `[[1, 0], [0, -1]]`.
pub open spec fn pauli_z_s() -> MatrixS {
    MatrixS { e00: amp_one_s(), e01: amp_zero_s(), e10: amp_zero_s(), e11: amp_neg_one_s() }
}

/// Hadamard: `[[1, 1], [1, -1]] / sqrt(2)`.
pub open spec fn hadamard_s() -> MatrixS {
    MatrixS {
        e00: amp_inv_sqrt2_s(),
        e01: amp_inv_sqrt2_s(),
        e10: amp_inv_sqrt2_s(),
        e11: amp_neg_inv_sqrt2_s(),
    }
}

/// The T phase gate: `[[1, 0], [0, w]]`, a 45-degree phase rotation.
pub open spec fn t_gate_s() -> MatrixS {
    MatrixS { e00: amp_one_s(), e01: amp_zero_s(), e10: amp_zero_s(), e11: amp_omega_s() }
}

/// The S phase gate: `[[1, 0], [0, i]]`, a 90-degree phase rotation.
pub open spec fn s_gate_s() -> MatrixS {
    MatrixS { e00: amp_one_s(), e01: amp_zero_s(), e10: amp_zero_s(), e11: amp_i_s() }
}

/// The conjugate transpose of the S gate: `[[1, 0], [0, -i]]`.
pub open spec fn s_dagger_s() -> MatrixS {
    MatrixS { e00: amp_one_s(), e01: amp_zero_s(), e10: amp_zero_s(), e11: amp_neg_i_s() }
}

/// The Pauli-X matrix.
pub fn pauli_x_matrix() -> (r: SingleGateMatrix)
    ensures
        r@ == pauli_x_s(),
        matrix_wf(r@),
{
    SingleGateMatrix {
        e00: Amp::zero(),
        e01: Amp::one(),
        e10: Amp::one(),
        e11: Amp::zero(),
    }
}

/// The Pauli-Y matrix.
pub fn pauli_y_matrix() -> (r: SingleGateMatrix)
    ensures
        r@ == pauli_y_s(),
        matrix_wf(r@),
{
    SingleGateMatrix {
        e00: Amp::zero(),
        e01: Amp::new(0, -1, 0, 0, 0),
        e10: Amp::new(0, 1, 0, 0, 0),
        e11: Amp::zero(),
    }
}

/// The Pauli-Z matrix.
pub fn pauli_z_matrix() -> (r: SingleGateMatrix)
    ensures
        r@ == pauli_z_s(),
        matrix_wf(r@),
{
    SingleGateMatrix {
        e00: Amp::one(),
        e01: Amp::zero(),
        e10: Amp::zero(),
        e11: Amp::new(0, 0, 0, -1, 0),
    }
}

/// The Hadamard matrix.
pub fn hadamard_matrix() -> (r: SingleGateMatrix)
    ensures
        r@ == hadamard_s(),
        matrix_wf(r@),
{
    SingleGateMatrix {
        e00: Amp::new(-1, 0, 1, 0, 1),
        e01: Amp::new(-1, 0, 1, 0, 1),
        e10: Amp::new(-1, 0, 1, 0, 1),
        e11: Amp::new(1, 0, -1, 0, 1),
    }
}

/// The T gate matrix.
pub fn t_gate_matrix() -> (r: SingleGateMatrix)
    ensures
        r@ == t_gate_s(),
        matrix_wf(r@),
{
    SingleGateMatrix {
        e00: Amp::one(),
        e01: Amp::zero(),
        e10: Amp::zero(),
        e11: Amp::new(0, 0, 1, 0, 0),
    }
}

/// The S gate matrix.
pub fn s_gate_matrix() -> (r: SingleGateMatrix)
    ensures
        r@ == s_gate_s(),
        matrix_wf(r@),
{
    SingleGateMatrix {
        e00: Amp::one(),
        e01: Amp::zero(),
        e10: Amp::zero(),
        e11: Amp::new(0, 1, 0, 0, 0),
    }
}

/// The conjugate transpose of the S gate matrix.
pub fn s_dagger_matrix() -> (r: SingleGateMatrix)
    ensures
        r@ == s_dagger_s(),
        matrix_wf(r@),
{
    SingleGateMatrix {
        e00: Amp::one(),
        e01: Amp::zero(),
        e10: Amp::zero(),
        e11: Amp::new(0, -1, 0, 0, 0),
    }
}

} // verus!
