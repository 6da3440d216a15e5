//! The execution engine: validates a gate's addressing, selects one of six
//! execution procedures from the combination of control operands, performs
//! any required collapses, conditionally applies the matrix, and returns
//! the resulting state.
//!
//! A quantum control is always measured, even when no matrix ends up
//! applied: reading a quantum control to decide a branch is itself a
//! measurement and collapses that qubit regardless of outcome. A classical
//! control never touches quantum state, because it is already a definite
//! value. This distinction must not be short-circuited.
//!
//! Failure is non-recoverable within one call: validation happens before
//! any effect, so the engine either returns a fully updated state or
//! signals the failure with the prior state untouched.

use vstd::prelude::*;
use crate::{BitType, QuantumError};
use crate::amp::{amp_add, amp_is_one, amp_mul};
use crate::gates::{MatrixS, SingleGateMatrix, matrix_wf};
use crate::gates::single_qubit_gates::{GateS, SingleQuantumGate, gate_wf};
use crate::sampling::sample_u32;
use crate::statevec::{
    Qubit, QubitS, StateS, StateVec, res_view, spec_collapse, state_wf,
};

verus! {

/// Matrix application: the target qubit's amplitude pair is replaced by
/// the product of the 2x2 matrix with the pair. No renormalization step
/// follows; the stored standard matrices are unitary and preserve the norm
/// by construction, and a non-unitary custom matrix is a caller error that
/// the engine does not check.
pub open spec fn spec_apply_matrix(st: StateS, m: MatrixS, t: int) -> StateS {
    let q = st.qubits[t];
    let applied = QubitS {
        a0: amp_add(amp_mul(m.e00, q.a0), amp_mul(m.e01, q.a1)),
        a1: amp_add(amp_mul(m.e10, q.a0), amp_mul(m.e11, q.a1)),
    };
    StateS { qubits: st.qubits.update(t, applied), cbits: st.cbits }
}

/// Toffoli mode: measure both controls (always), then apply the matrix to
/// the target exactly when both measured |1>.
pub open spec fn spec_toffoli_proc(
    mat: MatrixS,
    st: StateS,
    x: int,
    y: int,
    t: int,
    s1: u32,
    s2: u32,
) -> StateS {
    let st2 = spec_collapse(spec_collapse(st, x, s1), y, s2);
    if amp_is_one(st2.qubits[x].a1) && amp_is_one(st2.qubits[y].a1) {
        spec_apply_matrix(st2, mat, t)
    } else {
        st2
    }
}

/// Classical-gated Toffoli mode: measure both controls (always), then
/// apply the matrix exactly when both measured |1> and the classical bit
/// equals 1.
pub open spec fn spec_cond_toffoli_proc(
    mat: MatrixS,
    st: StateS,
    x: int,
    y: int,
    t: int,
    z: int,
    s1: u32,
    s2: u32,
) -> StateS {
    let st2 = spec_collapse(spec_collapse(st, x, s1), y, s2);
    if amp_is_one(st2.qubits[x].a1) && amp_is_one(st2.qubits[y].a1) && st.cbits[z] == 1 {
        spec_apply_matrix(st2, mat, t)
    } else {
        st2
    }
}

/// Classical-control mode: no collapse; apply the matrix exactly when the
/// classical bit equals 1.
pub open spec fn spec_classical_ctl_proc(mat: MatrixS, st: StateS, z: int, t: int) -> StateS {
    if st.cbits[z] == 1 {
        spec_apply_matrix(st, mat, t)
    } else {
        st
    }
}

/// Quantum-control mode: measure the control qubit (always), then apply
/// the matrix exactly when it measured |1>.
pub open spec fn spec_quantum_ctl_proc(mat: MatrixS, st: StateS, y: int, t: int, s1: u32) -> StateS {
    let st1 = spec_collapse(st, y, s1);
    if amp_is_one(st1.qubits[y].a1) {
        spec_apply_matrix(st1, mat, t)
    } else {
        st1
    }
}

/// Mode selection on the pair (Toffoli pair, single control), for a target
/// already validated as qubit index `t`. A Toffoli pair must consist of
/// two distinct quantum indices in range; a pair of classical addresses,
/// and every combination not listed, is an invalid addressing combination,
/// while an out-of-range index of an otherwise recognized mode is an
/// index error.
pub open spec fn spec_dispatch(g: GateS, st: StateS, t: int, s1: u32, s2: u32) -> Result<
    StateS,
    QuantumError,
> {
    match (g.toffoli.0, g.toffoli.1, g.conditional) {
        (BitType::Quantum(x), BitType::Quantum(y), BitType::Unset) => {
            if x >= st.qubits.len() || y >= st.qubits.len() {
                Err(QuantumError::IndexOutOfBounds)
            } else if x == y {
                Err(QuantumError::InvalidAddressingCombination)
            } else {
                Ok(spec_toffoli_proc(g.matrix_operation, st, x as int, y as int, t, s1, s2))
            }
        },
        (BitType::Quantum(x), BitType::Quantum(y), BitType::Classical(z)) => {
            if x >= st.qubits.len() || y >= st.qubits.len() {
                Err(QuantumError::IndexOutOfBounds)
            } else if x == y {
                Err(QuantumError::InvalidAddressingCombination)
            } else if z >= st.cbits.len() {
                Err(QuantumError::IndexOutOfBounds)
            } else {
                Ok(
                    spec_cond_toffoli_proc(
                        g.matrix_operation,
                        st,
                        x as int,
                        y as int,
                        t,
                        z as int,
                        s1,
                        s2,
                    ),
                )
            }
        },
        (BitType::Classical(_), BitType::Classical(_), _) => Err(
            QuantumError::InvalidAddressingCombination,
        ),
        (BitType::Unset, BitType::Unset, BitType::Classical(z)) => {
            if z >= st.cbits.len() {
                Err(QuantumError::IndexOutOfBounds)
            } else {
                Ok(spec_classical_ctl_proc(g.matrix_operation, st, z as int, t))
            }
        },
        (BitType::Unset, BitType::Unset, BitType::Quantum(y)) => {
            if y >= st.qubits.len() {
                Err(QuantumError::IndexOutOfBounds)
            } else {
                Ok(spec_quantum_ctl_proc(g.matrix_operation, st, y as int, t, s1))
            }
        },
        (BitType::Unset, BitType::Unset, BitType::Unset) => Ok(
            spec_apply_matrix(st, g.matrix_operation, t),
        ),
        _ => Err(QuantumError::InvalidAddressingCombination),
    }
}

/// The whole engine: target validation, then mode selection. The target
/// must be an in-range quantum index; an unset target, a classical target
/// and an out-of-range target each fail with their own error. Given the
/// two samples the result is fully determined.
pub open spec fn spec_execute(g: GateS, st: StateS, s1: u32, s2: u32) -> Result<
    StateS,
    QuantumError,
> {
    match g.operation_target {
        BitType::Unset => Err(QuantumError::MissingTarget),
        BitType::Classical(_) => Err(QuantumError::InvalidTargetKind),
        BitType::Quantum(t) => {
            if t >= st.qubits.len() {
                Err(QuantumError::IndexOutOfBounds)
            } else {
                spec_dispatch(g, st, t as int, s1, s2)
            }
        },
    }
}

/// Validation failures do not depend on the measurement samples: if a run
/// fails under one pair of samples, it fails identically under every
/// other, because every check happens before any collapse.
pub proof fn lemma_execute_errors_sample_independent(
    g: GateS,
    st: StateS,
    s1: u32,
    s2: u32,
    r1: u32,
    r2: u32,
)
    requires
        spec_execute(g, st, s1, s2) is Err,
    ensures
        spec_execute(g, st, r1, r2) == spec_execute(g, st, s1, s2),
{
}

/// Applies the matrix to the target qubit in place.
fn apply_in_place(system: &mut StateVec, mat: &SingleGateMatrix, t: usize)
    requires
        t < old(system)@.qubits.len(),
        state_wf(old(system)@),
        matrix_wf(mat@),
    ensures
        final(system)@ == spec_apply_matrix(old(system)@, mat@, t as int),
{
    proof {
        assert(system@.qubits[t as int] == system.qubits@[t as int]@);
    }
    let q = system.qubits[t];
    let p00 = mat.e00.times(&q.a0);
    let p01 = mat.e01.times(&q.a1);
    let p10 = mat.e10.times(&q.a0);
    let p11 = mat.e11.times(&q.a1);
    let new_a0 = p00.plus(&p01);
    let new_a1 = p10.plus(&p11);
    system.qubits[t] = Qubit { a0: new_a0, a1: new_a1 };
    proof {
        assert(system@.qubits =~= spec_apply_matrix(old(system)@, mat@, t as int).qubits);
        assert(system@ =~= spec_apply_matrix(old(system)@, mat@, t as int));
    }
}

/// Unconditional mode: applies the descriptor's matrix to the target qubit.
pub fn execute_single_qubit_gate(
    gate: &SingleQuantumGate,
    system: StateVec,
    target_index: usize,
) -> (r: StateVec)
    requires
        target_index < system@.qubits.len(),
        state_wf(system@),
        gate_wf(gate@),
    ensures
        r@ == spec_apply_matrix(system@, gate@.matrix_operation, target_index as int),
{
    let mut system = system;
    apply_in_place(&mut system, &gate.matrix_operation, target_index);
    system
}

/// Classical-control mode: applies the matrix exactly when the classical
/// bit equals 1; no qubit is measured.
pub fn execute_classical_cnot(
    gate: &SingleQuantumGate,
    system: StateVec,
    target_index: usize,
    cond_bit_index: usize,
) -> (r: StateVec)
    requires
        target_index < system@.qubits.len(),
        cond_bit_index < system@.cbits.len(),
        state_wf(system@),
        gate_wf(gate@),
    ensures
        r@ == spec_classical_ctl_proc(
            gate@.matrix_operation,
            system@,
            cond_bit_index as int,
            target_index as int,
        ),
{
    let mut system = system;
    if system.cbits[cond_bit_index] == 1 {
        apply_in_place(&mut system, &gate.matrix_operation, target_index);
    }
    system
}

/// Quantum-control mode: measures the control qubit under the sample, then
/// applies the matrix exactly when it measured |1>. The control ends
/// collapsed whether or not the matrix is applied.
pub fn execute_quantum_cnot(
    gate: &SingleQuantumGate,
    system: StateVec,
    target_index: usize,
    cond_bit_index: usize,
    sample: u32,
) -> (r: StateVec)
    requires
        target_index < system@.qubits.len(),
        cond_bit_index < system@.qubits.len(),
        state_wf(system@),
        gate_wf(gate@),
    ensures
        r@ == spec_quantum_ctl_proc(
            gate@.matrix_operation,
            system@,
            cond_bit_index as int,
            target_index as int,
            sample,
        ),
{
    let mut system = system;
    let ghost pre = system@;
    system.collapse_in_place(cond_bit_index, sample);
    proof {
        assert(system@ == spec_collapse(pre, cond_bit_index as int, sample));
        assert(system@.qubits.len() == pre.qubits.len());
        assert(system.qubits@.len() == system@.qubits.len());
        assert(system@.qubits[cond_bit_index as int] == system.qubits@[cond_bit_index as int]@);
    }
    let control = system.qubits[cond_bit_index];
    if control.a1.is_one() {
        apply_in_place(&mut system, &gate.matrix_operation, target_index);
    }
    system
}

/// Toffoli mode: measures both controls under the two samples, then
/// applies the matrix exactly when both measured |1>. Both controls end
/// collapsed whether or not the matrix is applied.
pub fn execute_toffoli(
    gate: &SingleQuantumGate,
    system: StateVec,
    toffoli_index_1: usize,
    toffoli_index_2: usize,
    target_index: usize,
    s1: u32,
    s2: u32,
) -> (r: StateVec)
    requires
        target_index < system@.qubits.len(),
        toffoli_index_1 < system@.qubits.len(),
        toffoli_index_2 < system@.qubits.len(),
        state_wf(system@),
        gate_wf(gate@),
    ensures
        r@ == spec_toffoli_proc(
            gate@.matrix_operation,
            system@,
            toffoli_index_1 as int,
            toffoli_index_2 as int,
            target_index as int,
            s1,
            s2,
        ),
{
    let mut system = system;
    system.collapse_in_place(toffoli_index_1, s1);
    system.collapse_in_place(toffoli_index_2, s2);
    proof {
        assert(system@.qubits[toffoli_index_1 as int] == system.qubits@[toffoli_index_1 as int]@);
        assert(system@.qubits[toffoli_index_2 as int] == system.qubits@[toffoli_index_2 as int]@);
    }
    let c1 = system.qubits[toffoli_index_1];
    let c2 = system.qubits[toffoli_index_2];
    if c1.a1.is_one() && c2.a1.is_one() {
        apply_in_place(&mut system, &gate.matrix_operation, target_index);
    }
    system
}

/// Classical-gated Toffoli mode: measures both controls under the two
/// samples, then applies the matrix exactly when both measured |1> and the
/// classical bit equals 1. Both controls end collapsed either way.
pub fn execute_conditonal_toffoli(
    gate: &SingleQuantumGate,
    system: StateVec,
    toffoli_index_1: usize,
    toffoli_index_2: usize,
    target_index: usize,
    cond_bit_index: usize,
    s1: u32,
    s2: u32,
) -> (r: StateVec)
    requires
        target_index < system@.qubits.len(),
        toffoli_index_1 < system@.qubits.len(),
        toffoli_index_2 < system@.qubits.len(),
        cond_bit_index < system@.cbits.len(),
        state_wf(system@),
        gate_wf(gate@),
    ensures
        r@ == spec_cond_toffoli_proc(
            gate@.matrix_operation,
            system@,
            toffoli_index_1 as int,
            toffoli_index_2 as int,
            target_index as int,
            cond_bit_index as int,
            s1,
            s2,
        ),
{
    let mut system = system;
    system.collapse_in_place(toffoli_index_1, s1);
    system.collapse_in_place(toffoli_index_2, s2);
    proof {
        assert(system@.qubits[toffoli_index_1 as int] == system.qubits@[toffoli_index_1 as int]@);
        assert(system@.qubits[toffoli_index_2 as int] == system.qubits@[toffoli_index_2 as int]@);
    }
    let c1 = system.qubits[toffoli_index_1];
    let c2 = system.qubits[toffoli_index_2];
    if c1.a1.is_one() && c2.a1.is_one() && system.cbits[cond_bit_index] == 1 {
        apply_in_place(&mut system, &gate.matrix_operation, target_index);
    }
    system
}

/// Runs one gate under explicitly supplied measurement samples, so the
/// result is fully determined by its arguments: target validation, mode
/// selection, collapses and the conditional matrix application all follow
/// [`spec_execute`].
pub fn execute_gate_with_samples(
    gate: &SingleQuantumGate,
    system: StateVec,
    s1: u32,
    s2: u32,
) -> (r: Result<StateVec, QuantumError>)
    requires
        state_wf(system@),
        gate_wf(gate@),
    ensures
        res_view(r) == spec_execute(gate@, system@, s1, s2),
{
    let target_index: usize;
    match gate.operation_target {
        BitType::Unset => {
            return Err(QuantumError::MissingTarget);
        },
        BitType::Classical(_) => {
            return Err(QuantumError::InvalidTargetKind);
        },
        BitType::Quantum(x) => {
            if x >= system.qubits.len() {
                return Err(QuantumError::IndexOutOfBounds);
            }
            target_index = x;
        },
    }
    match (gate.toffoli.0, gate.toffoli.1, gate.conditional) {
        (BitType::Quantum(x), BitType::Quantum(y), BitType::Unset) => {
            if x >= system.qubits.len() || y >= system.qubits.len() {
                Err(QuantumError::IndexOutOfBounds)
            } else if x == y {
                Err(QuantumError::InvalidAddressingCombination)
            } else {
                Ok(execute_toffoli(gate, system, x, y, target_index, s1, s2))
            }
        },
        (BitType::Quantum(x), BitType::Quantum(y), BitType::Classical(z)) => {
            if x >= system.qubits.len() || y >= system.qubits.len() {
                Err(QuantumError::IndexOutOfBounds)
            } else if x == y {
                Err(QuantumError::InvalidAddressingCombination)
            } else if z >= system.cbits.len() {
                Err(QuantumError::IndexOutOfBounds)
            } else {
                Ok(execute_conditonal_toffoli(gate, system, x, y, target_index, z, s1, s2))
            }
        },
        (BitType::Classical(_), BitType::Classical(_), _) => Err(
            QuantumError::InvalidAddressingCombination,
        ),
        (BitType::Unset, BitType::Unset, BitType::Classical(z)) => {
            if z >= system.cbits.len() {
                Err(QuantumError::IndexOutOfBounds)
            } else {
                Ok(execute_classical_cnot(gate, system, target_index, z))
            }
        },
        (BitType::Unset, BitType::Unset, BitType::Quantum(y)) => {
            if y >= system.qubits.len() {
                Err(QuantumError::IndexOutOfBounds)
            } else {
                Ok(execute_quantum_cnot(gate, system, target_index, y, s1))
            }
        },
        (BitType::Unset, BitType::Unset, BitType::Unset) => Ok(
            execute_single_qubit_gate(gate, system, target_index),
        ),
        _ => Err(QuantumError::InvalidAddressingCombination),
    }
}

/// Runs one gate against the state, drawing measurement samples from the
/// default uniform source. The result is exactly a run of
/// [`spec_execute`] under some pair of samples, so every property that
/// holds for all samples holds for the result; in particular all
/// validation failures are sample-independent.
pub fn execute_gate(gate: SingleQuantumGate, system: StateVec) -> (r: Result<
    StateVec,
    QuantumError,
>)
    requires
        state_wf(system@),
        gate_wf(gate@),
    ensures
        exists|s1: u32, s2: u32| res_view(r) == spec_execute(gate@, system@, s1, s2),
        r is Err ==> forall|s1: u32, s2: u32|
            res_view(r) == #[trigger] spec_execute(gate@, system@, s1, s2),
{
    let s1 = sample_u32();
    let s2 = sample_u32();
    let ghost sys0 = system@;
    let r = execute_gate_with_samples(&gate, system, s1, s2);
    proof {
        assert(res_view(r) == spec_execute(gate@, sys0, s1, s2));
        if r is Err {
            assert forall|a: u32, b: u32|
                res_view(r) == #[trigger] spec_execute(gate@, sys0, a, b) by {
                lemma_execute_errors_sample_independent(gate@, sys0, s1, s2, a, b);
            }
        }
    }
    r
}

} // verus!
