//! A small simulator for quantum circuits that keeps one independent
//! two-amplitude pair per qubit.
//!
//! The register never stores a joint tensor-product state: two qubits can
//! never be represented as entangled. Only local single-qubit evolution and
//! local measurement are meaningful, which makes the simulator a bounded
//! approximation suitable for circuits whose correctness can be checked
//! qubit by qubit, such as classical-logic networks of controlled-NOT and
//! Toffoli gates.
//!
//! Amplitudes are exact: each one is an element of the ring of complex
//! numbers generated by the eighth root of unity over the dyadic rationals
//! (see [`amp`]), which represents every entry of the standard gate table
//! (Pauli, Hadamard, phase gates) without rounding.

use vstd::prelude::*;

pub mod amp;
pub mod executor;
pub mod gates;
pub mod laws;
pub mod sampling;
pub mod statevec;

verus! {

/// A tagged reference to one operand slot of a gate.
///
/// The same type expresses "no operand" (`Unset`), "classical operand"
/// (an index into the classical register), or "quantum operand" (an index
/// into the qubit register), so every slot of a gate descriptor -- target,
/// single control, each Toffoli control -- is addressed uniformly.
#[derive(Clone, Copy, Debug, PartialEq, Eq, Structural)]
pub enum BitType {
    Classical(usize),
    Quantum(usize),
    Unset,
}

/// The failures a circuit construction can run into. All of them are
/// detected synchronously at the point of use and surfaced to the caller;
/// none is retried or silently recovered.
#[derive(Clone, Copy, Debug, PartialEq, Eq, Structural)]
pub enum QuantumError {
    /// The target slot is unset.
    MissingTarget,
    /// The target slot names a classical bit; only qubits can be targets.
    InvalidTargetKind,
    /// A qubit or classical index is at or beyond the register size.
    IndexOutOfBounds,
    /// The combination of control operands matches none of the recognized modes.
    InvalidAddressingCombination,
    /// A classical readout was attempted on a qubit that is not in a basis state.
    SuperpositionCopyAttempt,
}

} // verus!
