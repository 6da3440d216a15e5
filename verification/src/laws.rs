//! Laws of the engine, proved for all inputs: how bit-flip,
//! controlled-NOT and Toffoli behave on basis states, and that quantum
//! controls always end collapsed.
//!
//! The lemmas are stated over the specification model
//! ([`spec_execute`](crate::executor::spec_execute) and
//! [`spec_collapse`](crate::statevec::spec_collapse)), which the
//! executable engine is proved to implement exactly, sample by sample, so
//! each law carries over to every run whatever the measurement samples.

use vstd::prelude::*;
use vstd::arithmetic::mul::lemma_mul_basics;
use vstd::arithmetic::power2::{lemma2_to64, pow2};
use crate::BitType;
use crate::amp::{
    amp_lift, amp_val_eq, lemma_lift_val_eq, lemma_one_always_collapses_to_zero,
    lemma_zero_never_collapses_to_zero,
};
use crate::executor::{spec_apply_matrix, spec_execute};
use crate::gates::pauli_x_s;
use crate::gates::single_qubit_gates::{GateS, spec_cnot_gate, spec_single_gate, spec_toffoli_gate};
use crate::statevec::{StateS, qubit_ket0_s, qubit_ket1_s, spec_collapse};

verus! {

/// Applying the bit-flip matrix swaps the target's amplitude values on
/// |0> and |1> (up to rescaling of the exact representation) and touches
/// nothing else.
pub proof fn lemma_apply_x_flips(st: StateS, t: int)
    requires
        0 <= t < st.qubits.len(),
    ensures
        ({
            let st2 = spec_apply_matrix(st, pauli_x_s(), t);
            &&& st2.qubits.len() == st.qubits.len()
            &&& amp_val_eq(st2.qubits[t].a0, st.qubits[t].a1)
            &&& amp_val_eq(st2.qubits[t].a1, st.qubits[t].a0)
            &&& forall|i: int| 0 <= i < st.qubits.len() && i != t ==> st2.qubits[i] == st.qubits[i]
            &&& st2.cbits == st.cbits
        }),
{
    let q = st.qubits[t];
    let m = if q.a0.m >= q.a1.m {
        q.a0.m
    } else {
        q.a1.m
    };
    let st2 = spec_apply_matrix(st, pauli_x_s(), t);
    lemma_mul_basics(q.a0.a);
    lemma_mul_basics(q.a0.b);
    lemma_mul_basics(q.a0.c);
    lemma_mul_basics(q.a0.d);
    lemma_mul_basics(q.a1.a);
    lemma_mul_basics(q.a1.b);
    lemma_mul_basics(q.a1.c);
    lemma_mul_basics(q.a1.d);
    lemma_mul_basics(pow2((m - q.a0.m) as nat) as int);
    lemma_mul_basics(pow2((m - q.a1.m) as nat) as int);
    assert(st2.qubits[t].a0 == amp_lift(q.a1, m));
    assert(st2.qubits[t].a1 == amp_lift(q.a0, m));
    lemma_lift_val_eq(q.a1, m);
    lemma_lift_val_eq(q.a0, m);
}

/// Measuring a qubit that is already in an exact basis state returns the
/// same deterministic basis state with probability 1: the whole register
/// is unchanged, whatever the sample.
pub proof fn lemma_collapse_of_basis(st: StateS, q: int, sample: u32)
    requires
        0 <= q < st.qubits.len(),
        st.qubits[q] == qubit_ket0_s() || st.qubits[q] == qubit_ket1_s(),
    ensures
        spec_collapse(st, q, sample) == st,
{
    lemma2_to64();
    if st.qubits[q] == qubit_ket0_s() {
        lemma_one_always_collapses_to_zero(st.qubits[q].a0, sample);
    } else {
        lemma_zero_never_collapses_to_zero(st.qubits[q].a0, sample);
    }
    assert(spec_collapse(st, q, sample).qubits =~= st.qubits);
    assert(spec_collapse(st, q, sample) =~= st);
}

/// Measurement always leaves the measured qubit in one of the two exact
/// basis states and touches nothing else.
pub proof fn lemma_collapse_yields_basis(st: StateS, q: int, sample: u32)
    requires
        0 <= q < st.qubits.len(),
    ensures
        ({
            let st1 = spec_collapse(st, q, sample);
            &&& st1.qubits.len() == st.qubits.len()
            &&& st1.qubits[q] == qubit_ket0_s() || st1.qubits[q] == qubit_ket1_s()
            &&& forall|i: int| 0 <= i < st.qubits.len() && i != q ==> st1.qubits[i] == st.qubits[i]
            &&& st1.cbits == st.cbits
        }),
{
}

/// For a fresh |0> qubit, applying bit-flip and then measuring yields |1>
/// with probability 1: after the flip the qubit is exactly |1>, and the
/// measurement returns |1> for every sample.
pub proof fn lemma_flip_then_measure_yields_one(st: StateS, q: usize, s1: u32, s2: u32, sm: u32)
    requires
        (q as int) < st.qubits.len(),
        st.qubits[q as int] == qubit_ket0_s(),
    ensures
        ({
            let r = spec_execute(spec_single_gate(pauli_x_s(), BitType::Quantum(q)), st, s1, s2);
            &&& r is Ok
            &&& r->Ok_0.qubits[q as int] == qubit_ket1_s()
            &&& spec_collapse(r->Ok_0, q as int, sm).qubits[q as int] == qubit_ket1_s()
        }),
{
    lemma2_to64();
    lemma_mul_basics(0);
    lemma_mul_basics(1);
    lemma_mul_basics(pow2(0) as int);
    let r = spec_execute(spec_single_gate(pauli_x_s(), BitType::Quantum(q)), st, s1, s2);
    assert(r == Ok::<StateS, crate::QuantumError>(spec_apply_matrix(st, pauli_x_s(), q as int)));
    assert(r->Ok_0.qubits[q as int] == qubit_ket1_s());
    lemma_collapse_of_basis(r->Ok_0, q as int, sm);
}

/// Applying bit-flip twice to a qubit that starts in a basis state returns
/// the whole register to exactly its original state (involution).
pub proof fn lemma_flip_twice_restores(st: StateS, q: usize, s1: u32, s2: u32, s3: u32, s4: u32)
    requires
        (q as int) < st.qubits.len(),
        st.qubits[q as int] == qubit_ket0_s() || st.qubits[q as int] == qubit_ket1_s(),
    ensures
        ({
            let g = spec_single_gate(pauli_x_s(), BitType::Quantum(q));
            let r1 = spec_execute(g, st, s1, s2);
            &&& r1 is Ok
            &&& spec_execute(g, r1->Ok_0, s3, s4) is Ok
            &&& spec_execute(g, r1->Ok_0, s3, s4)->Ok_0 == st
        }),
{
    lemma2_to64();
    lemma_mul_basics(0);
    lemma_mul_basics(1);
    lemma_mul_basics(pow2(0) as int);
    let g = spec_single_gate(pauli_x_s(), BitType::Quantum(q));
    let st1 = spec_apply_matrix(st, pauli_x_s(), q as int);
    assert(spec_execute(g, st, s1, s2) == Ok::<StateS, crate::QuantumError>(st1));
    if st.qubits[q as int] == qubit_ket0_s() {
        assert(st1.qubits[q as int] == qubit_ket1_s());
    } else {
        assert(st1.qubits[q as int] == qubit_ket0_s());
    }
    let st2 = spec_apply_matrix(st1, pauli_x_s(), q as int);
    assert(spec_execute(g, st1, s3, s4) == Ok::<StateS, crate::QuantumError>(st2));
    assert(st2.qubits[q as int] == st.qubits[q as int]);
    assert(st2.qubits =~= st.qubits);
    assert(st2 =~= st);
}

/// The engine never writes the classical register: whichever mode runs and
/// whatever the samples, a successful execution leaves every classical bit
/// as it was. Only classical readout can change one.
pub proof fn lemma_execute_preserves_classical_bits(g: GateS, st: StateS, s1: u32, s2: u32)
    requires
        spec_execute(g, st, s1, s2) is Ok,
    ensures
        spec_execute(g, st, s1, s2)->Ok_0.cbits == st.cbits,
{
}

/// Whatever superposition the control qubit is in, a controlled-NOT with a
/// quantum control leaves that control in a definite basis state: the
/// measurement happens whether or not the flip is applied. The target must be
/// a different qubit from the control.
pub proof fn lemma_cnot_collapses_control(st: StateS, ctrl: usize, tgt: usize, s1: u32, s2: u32)
    requires
        (ctrl as int) < st.qubits.len(),
        (tgt as int) < st.qubits.len(),
        ctrl != tgt,
    ensures
        ({
            let r = spec_execute(
                spec_cnot_gate(BitType::Quantum(ctrl), BitType::Quantum(tgt)),
                st,
                s1,
                s2,
            );
            &&& r is Ok
            &&& r->Ok_0.qubits[ctrl as int] == qubit_ket0_s() || r->Ok_0.qubits[ctrl as int]
                == qubit_ket1_s()
        }),
{
    lemma_collapse_yields_basis(st, ctrl as int, s1);
    let st1 = spec_collapse(st, ctrl as int, s1);
    lemma_apply_x_flips(st1, tgt as int);
}

/// Controlled-NOT with the control in a definite basis state: with the
/// control at |1> it deterministically flips the target's amplitude
/// values; with the control at |0> the target is untouched; in both cases
/// the control ends in the same definite basis state and nothing else
/// changes. The target must be a different qubit from the control.
pub proof fn lemma_cnot_with_basis_control(st: StateS, ctrl: usize, tgt: usize, s1: u32, s2: u32)
    requires
        (ctrl as int) < st.qubits.len(),
        (tgt as int) < st.qubits.len(),
        ctrl != tgt,
        st.qubits[ctrl as int] == qubit_ket0_s() || st.qubits[ctrl as int] == qubit_ket1_s(),
    ensures
        ({
            let r = spec_execute(
                spec_cnot_gate(BitType::Quantum(ctrl), BitType::Quantum(tgt)),
                st,
                s1,
                s2,
            );
            &&& r is Ok
            &&& r->Ok_0.qubits[ctrl as int] == st.qubits[ctrl as int]
            &&& st.qubits[ctrl as int] == qubit_ket1_s() ==> amp_val_eq(
                r->Ok_0.qubits[tgt as int].a0,
                st.qubits[tgt as int].a1,
            ) && amp_val_eq(r->Ok_0.qubits[tgt as int].a1, st.qubits[tgt as int].a0)
            &&& st.qubits[ctrl as int] == qubit_ket0_s() ==> r->Ok_0.qubits[tgt as int]
                == st.qubits[tgt as int]
            &&& r->Ok_0.cbits == st.cbits
        }),
{
    lemma2_to64();
    lemma_collapse_of_basis(st, ctrl as int, s1);
    lemma_apply_x_flips(st, tgt as int);
}

/// Whatever superposition the two control qubits are in, a Toffoli gate
/// leaves both controls in definite basis states, whether or not it
/// fires. The target must be distinct from both controls.
pub proof fn lemma_toffoli_collapses_controls(
    st: StateS,
    c1: usize,
    c2: usize,
    tgt: usize,
    s1: u32,
    s2: u32,
)
    requires
        (c1 as int) < st.qubits.len(),
        (c2 as int) < st.qubits.len(),
        (tgt as int) < st.qubits.len(),
        c1 != c2,
        tgt != c1,
        tgt != c2,
    ensures
        ({
            let r = spec_execute(
                spec_toffoli_gate(BitType::Quantum(c1), BitType::Quantum(c2), BitType::Quantum(tgt)),
                st,
                s1,
                s2,
            );
            &&& r is Ok
            &&& r->Ok_0.qubits[c1 as int] == qubit_ket0_s() || r->Ok_0.qubits[c1 as int]
                == qubit_ket1_s()
            &&& r->Ok_0.qubits[c2 as int] == qubit_ket0_s() || r->Ok_0.qubits[c2 as int]
                == qubit_ket1_s()
        }),
{
    lemma_collapse_yields_basis(st, c1 as int, s1);
    let st1 = spec_collapse(st, c1 as int, s1);
    lemma_collapse_yields_basis(st1, c2 as int, s2);
    let st2 = spec_collapse(st1, c2 as int, s2);
    lemma_apply_x_flips(st2, tgt as int);
}

/// Toffoli with both controls in definite basis states: it flips the
/// target's amplitude values exactly when both controls are |1>; if
/// either control is |0> the target is untouched; both controls keep
/// their basis states and nothing else changes. The target must be
/// distinct from both controls.
pub proof fn lemma_toffoli_flips_iff_both_one(
    st: StateS,
    c1: usize,
    c2: usize,
    tgt: usize,
    s1: u32,
    s2: u32,
)
    requires
        (c1 as int) < st.qubits.len(),
        (c2 as int) < st.qubits.len(),
        (tgt as int) < st.qubits.len(),
        c1 != c2,
        tgt != c1,
        tgt != c2,
        st.qubits[c1 as int] == qubit_ket0_s() || st.qubits[c1 as int] == qubit_ket1_s(),
        st.qubits[c2 as int] == qubit_ket0_s() || st.qubits[c2 as int] == qubit_ket1_s(),
    ensures
        ({
            let r = spec_execute(
                spec_toffoli_gate(BitType::Quantum(c1), BitType::Quantum(c2), BitType::Quantum(tgt)),
                st,
                s1,
                s2,
            );
            &&& r is Ok
            &&& r->Ok_0.qubits[c1 as int] == st.qubits[c1 as int]
            &&& r->Ok_0.qubits[c2 as int] == st.qubits[c2 as int]
            &&& st.qubits[c1 as int] == qubit_ket1_s() && st.qubits[c2 as int] == qubit_ket1_s()
                ==> amp_val_eq(r->Ok_0.qubits[tgt as int].a0, st.qubits[tgt as int].a1)
                && amp_val_eq(r->Ok_0.qubits[tgt as int].a1, st.qubits[tgt as int].a0)
            &&& (st.qubits[c1 as int] == qubit_ket0_s() || st.qubits[c2 as int] == qubit_ket0_s())
                ==> r->Ok_0.qubits[tgt as int] == st.qubits[tgt as int]
            &&& r->Ok_0.cbits == st.cbits
        }),
{
    lemma2_to64();
    lemma_collapse_of_basis(st, c1 as int, s1);
    lemma_collapse_of_basis(st, c2 as int, s2);
    lemma_apply_x_flips(st, tgt as int);
}

} // verus!
