//! Gate descriptors: one 2x2 matrix plus up to three optional operand
//! addresses, constructed by named factories and applied read-only by the
//! execution engine.

use vstd::prelude::*;
use crate::BitType;
use crate::gates::{
    MatrixS, SingleGateMatrix, hadamard_matrix, hadamard_s, matrix_wf, pauli_x_matrix, pauli_x_s,
    pauli_y_matrix, pauli_y_s, pauli_z_matrix, pauli_z_s, s_dagger_matrix, s_dagger_s,
    s_gate_matrix, s_gate_s, t_gate_matrix, t_gate_s,
};

verus! {

/// An immutable description of one operation: a 2x2 matrix, a mandatory
/// target address (which must resolve to a quantum index), an optional
/// single control (classical or quantum), and an optional pair of
/// quantum-only control addresses (the "Toffoli" pair).
///
/// The engine does not validate that a caller-supplied custom matrix is
/// unitary; a non-unitary matrix gives physically meaningless output.
#[derive(Clone, Copy, Debug)]
pub struct SingleQuantumGate {
    pub matrix_operation: SingleGateMatrix,
    pub operation_target: BitType,
    pub conditional: BitType,
    pub toffoli: (BitType, BitType),
}

/// The mathematical content of a [`SingleQuantumGate`].
pub ghost struct GateS {
    pub matrix_operation: MatrixS,
    pub operation_target: BitType,
    pub conditional: BitType,
    pub toffoli: (BitType, BitType),
}

impl View for SingleQuantumGate {
    type V = GateS;

    open spec fn view(&self) -> GateS {
        GateS {
            matrix_operation: self.matrix_operation@,
            operation_target: self.operation_target,
            conditional: self.conditional,
            toffoli: self.toffoli,
        }
    }
}

/// A descriptor's matrix is within the bounds the executable arithmetic
/// accepts (a machine limit; every named factory satisfies it).
pub open spec fn gate_wf(g: GateS) -> bool {
    matrix_wf(g.matrix_operation)
}

/// A gate with the given matrix bound to a single target and no controls.
pub open spec fn spec_single_gate(mat: MatrixS, target: BitType) -> GateS {
    GateS {
        matrix_operation: mat,
        operation_target: target,
        conditional: BitType::Unset,
        toffoli: (BitType::Unset, BitType::Unset),
    }
}

/// The controlled-NOT pattern: the bit-flip matrix under a single control.
pub open spec fn spec_cnot_gate(cond_bit: BitType, target: BitType) -> GateS {
    GateS {
        matrix_operation: pauli_x_s(),
        operation_target: target,
        conditional: cond_bit,
        toffoli: (BitType::Unset, BitType::Unset),
    }
}

/// The Toffoli pattern: the bit-flip matrix under two quantum controls.
pub open spec fn spec_toffoli_gate(c1: BitType, c2: BitType, target: BitType) -> GateS {
    GateS {
        matrix_operation: pauli_x_s(),
        operation_target: target,
        conditional: BitType::Unset,
        toffoli: (c1, c2),
    }
}

impl SingleQuantumGate {
    /// A bit-flip (Pauli-X) gate on the given target.
    pub fn paulix(target: BitType) -> (g: SingleQuantumGate)
        ensures
            g@ == spec_single_gate(pauli_x_s(), target),
            gate_wf(g@),
    {
        SingleQuantumGate {
            matrix_operation: pauli_x_matrix(),
            operation_target: target,
            conditional: BitType::Unset,
            toffoli: (BitType::Unset, BitType::Unset),
        }
    }

    /// A bit-and-phase-flip (Pauli-Y) gate on the given target.
    pub fn pauliy(target: BitType) -> (g: SingleQuantumGate)
        ensures
            g@ == spec_single_gate(pauli_y_s(), target),
            gate_wf(g@),
    {
        SingleQuantumGate {
            matrix_operation: pauli_y_matrix(),
            operation_target: target,
            conditional: BitType::Unset,
            toffoli: (BitType::Unset, BitType::Unset),
        }
    }

    /// A phase-flip (Pauli-Z) gate on the given target.
    pub fn pauliz(target: BitType) -> (g: SingleQuantumGate)
        ensures
            g@ == spec_single_gate(pauli_z_s(), target),
            gate_wf(g@),
    {
        SingleQuantumGate {
            matrix_operation: pauli_z_matrix(),
            operation_target: target,
            conditional: BitType::Unset,
            toffoli: (BitType::Unset, BitType::Unset),
        }
    }

    /// A Hadamard gate on the given target.
    pub fn hadamard(target: BitType) -> (g: SingleQuantumGate)
        ensures
            g@ == spec_single_gate(hadamard_s(), target),
            gate_wf(g@),
    {
        SingleQuantumGate {
            matrix_operation: hadamard_matrix(),
            operation_target: target,
            conditional: BitType::Unset,
            toffoli: (BitType::Unset, BitType::Unset),
        }
    }

    /// A controlled-NOT gate: the first argument addresses the control
    /// bit, the second the target qubit.
    pub fn cnot(cond_bit: BitType, target: BitType) -> (g: SingleQuantumGate)
        ensures
            g@ == spec_cnot_gate(cond_bit, target),
            gate_wf(g@),
    {
        SingleQuantumGate {
            matrix_operation: pauli_x_matrix(),
            operation_target: target,
            conditional: cond_bit,
            toffoli: (BitType::Unset, BitType::Unset),
        }
    }

    /// A doubly-controlled (Toffoli) gate: two quantum controls and one
    /// target.
    pub fn toffoli(toffoli_index_1: BitType, toffoli_index_2: BitType, target: BitType) -> (g:
        SingleQuantumGate)
        ensures
            g@ == spec_toffoli_gate(toffoli_index_1, toffoli_index_2, target),
            gate_wf(g@),
    {
        SingleQuantumGate {
            matrix_operation: pauli_x_matrix(),
            operation_target: target,
            conditional: BitType::Unset,
            toffoli: (toffoli_index_1, toffoli_index_2),
        }
    }

    /// A T phase gate (45-degree phase rotation) on the given target.
    pub fn t_gate(target: BitType) -> (g: SingleQuantumGate)
        ensures
            g@ == spec_single_gate(t_gate_s(), target),
            gate_wf(g@),
    {
        SingleQuantumGate {
            matrix_operation: t_gate_matrix(),
            operation_target: target,
            conditional: BitType::Unset,
            toffoli: (BitType::Unset, BitType::Unset),
        }
    }

    /// An S phase gate (90-degree phase rotation) on the given target.
    pub fn s_gate(target: BitType) -> (g: SingleQuantumGate)
        ensures
            g@ == spec_single_gate(s_gate_s(), target),
            gate_wf(g@),
    {
        SingleQuantumGate {
            matrix_operation: s_gate_matrix(),
            operation_target: target,
            conditional: BitType::Unset,
            toffoli: (BitType::Unset, BitType::Unset),
        }
    }

    /// The inverse of the S gate on the given target.
    pub fn inv_s_gate(target: BitType) -> (g: SingleQuantumGate)
        ensures
            g@ == spec_single_gate(s_dagger_s(), target),
            gate_wf(g@),
    {
        SingleQuantumGate {
            matrix_operation: s_dagger_matrix(),
            operation_target: target,
            conditional: BitType::Unset,
            toffoli: (BitType::Unset, BitType::Unset),
        }
    }

    /// The general constructor, for custom gates: an arbitrary matrix and
    /// all four address slots.
    pub fn new(
        matrix: SingleGateMatrix,
        cond_bit: BitType,
        target: BitType,
        toffoli_index_1: BitType,
        toffoli_index_2: BitType,
    ) -> (g: SingleQuantumGate)
        ensures
            g@ == (GateS {
                matrix_operation: matrix@,
                operation_target: target,
                conditional: cond_bit,
                toffoli: (toffoli_index_1, toffoli_index_2),
            }),
    {
        SingleQuantumGate {
            matrix_operation: matrix,
            operation_target: target,
            conditional: cond_bit,
            toffoli: (toffoli_index_1, toffoli_index_2),
        }
    }
}

} // verus!
