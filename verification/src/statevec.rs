//! The register of qubit amplitude pairs and classical bits, with
//! measurement (collapse) and classical readout.
//!
//! Each qubit is stored as an independent pair of amplitudes on |0> and
//! |1>; no cross-qubit structure exists, so entanglement cannot be
//! represented (a deliberate scope limit of this simulator). A classical
//! bit stores 0 or 1.

use vstd::prelude::*;
use vstd::arithmetic::power2::lemma_pow2_pos;
use crate::QuantumError;
use crate::amp::{
    Amp, AmpS, amp_is_one, amp_is_zero, amp_mul, amp_one_s, amp_wf, amp_zero_s,
    collapse_picks_zero, collapses_to_zero,
};
use crate::sampling::sample_u32;

verus! {

/// One qubit: its exact amplitudes on the basis states |0> and |1>.
///
/// After a measurement exactly one of the two equals 1 and the other 0
/// ("collapsed" / "basis state").
#[derive(Clone, Copy, Debug, PartialEq, Eq, Structural)]
pub struct Qubit {
    pub a0: Amp,
    pub a1: Amp,
}

/// The mathematical content of a [`Qubit`].
pub ghost struct QubitS {
    pub a0: AmpS,
    pub a1: AmpS,
}

impl View for Qubit {
    type V = QubitS;

    open spec fn view(&self) -> QubitS {
        QubitS { a0: self.a0@, a1: self.a1@ }
    }
}

/// The circuit state: the qubit register and the classical register, sized
/// at creation and never resized.
#[derive(Debug)]
pub struct StateVec {
    pub qubits: Vec<Qubit>,
    pub cbits: Vec<i8>,
}

/// The mathematical content of a [`StateVec`].
#[verifier::ext_equal]
pub ghost struct StateS {
    pub qubits: Seq<QubitS>,
    pub cbits: Seq<i8>,
}

impl View for StateVec {
    type V = StateS;

    open spec fn view(&self) -> StateS {
        StateS {
            qubits: self.qubits@.map_values(|q: Qubit| q@),
            cbits: self.cbits@,
        }
    }
}

/// The exact representation of |0>: amplitude 1 on |0>, 0 on |1>.
pub open spec fn qubit_ket0_s() -> QubitS {
    QubitS { a0: amp_one_s(), a1: amp_zero_s() }
}

/// The exact representation of |1>: amplitude 0 on |0>, 1 on |1>.
pub open spec fn qubit_ket1_s() -> QubitS {
    QubitS { a0: amp_zero_s(), a1: amp_one_s() }
}

/// The qubit's amplitude pair is exactly (1, 0) or (0, 1) in value: no
/// superposition, whatever the representation's scale.
pub open spec fn qubit_is_basis(qb: QubitS) -> bool {
    ||| amp_is_one(qb.a0) && amp_is_zero(qb.a1)
    ||| amp_is_zero(qb.a0) && amp_is_one(qb.a1)
}

/// Every amplitude of the state is within the bounds the executable
/// arithmetic accepts (a machine limit, not a physical condition).
pub open spec fn state_wf(st: StateS) -> bool {
    forall|i: int|
        #![trigger st.qubits[i]]
        0 <= i < st.qubits.len() ==> amp_wf(st.qubits[i].a0) && amp_wf(st.qubits[i].a1)
}

/// Measurement of qubit `q` under the given sample: the qubit collapses to
/// |0> exactly when the sample falls below the squared magnitude of its
/// amplitude on |0> (Born rule); otherwise to |1>. Everything else is kept.
pub open spec fn spec_collapse(st: StateS, q: int, sample: u32) -> StateS {
    let outcome = if collapses_to_zero(st.qubits[q].a0, sample) {
        qubit_ket0_s()
    } else {
        qubit_ket1_s()
    };
    StateS { qubits: st.qubits.update(q, outcome), cbits: st.cbits }
}

/// Measurement including its index check: out-of-range indices fail, all
/// others collapse as [`spec_collapse`] says.
pub open spec fn spec_single_collapse(st: StateS, q: int, sample: u32) -> Result<
    StateS,
    QuantumError,
> {
    if 0 <= q < st.qubits.len() {
        Ok(spec_collapse(st, q, sample))
    } else {
        Err(QuantumError::IndexOutOfBounds)
    }
}

/// Classical readout of qubit `q` into classical bit `c`: fails on an
/// out-of-range index, fails with `SuperpositionCopyAttempt` exactly when
/// the qubit's amplitude pair is not (1, 0) or (0, 1) in value, and
/// otherwise writes 0 for |0> and 1 for |1>, leaving the qubit untouched.
pub open spec fn spec_copy_to_classical(st: StateS, q: int, c: int) -> Result<
    StateS,
    QuantumError,
> {
    if !(0 <= q < st.qubits.len()) {
        Err(QuantumError::IndexOutOfBounds)
    } else if !(0 <= c < st.cbits.len()) {
        Err(QuantumError::IndexOutOfBounds)
    } else if !qubit_is_basis(st.qubits[q]) {
        Err(QuantumError::SuperpositionCopyAttempt)
    } else {
        let v: i8 = if amp_is_one(st.qubits[q].a0) {
            0i8
        } else {
            1i8
        };
        Ok(StateS { qubits: st.qubits, cbits: st.cbits.update(c, v) })
    }
}

/// Componentwise squaring of qubit `t`'s amplitude pair; out-of-range
/// indices fail.
pub open spec fn spec_norm(st: StateS, t: int) -> Result<StateS, QuantumError> {
    if 0 <= t < st.qubits.len() {
        let q = st.qubits[t];
        let squared = QubitS { a0: amp_mul(q.a0, q.a0), a1: amp_mul(q.a1, q.a1) };
        Ok(StateS { qubits: st.qubits.update(t, squared), cbits: st.cbits })
    } else {
        Err(QuantumError::IndexOutOfBounds)
    }
}

/// The mathematical content of a state-or-error result.
pub open spec fn res_view(r: Result<StateVec, QuantumError>) -> Result<StateS, QuantumError> {
    match r {
        Ok(s) => Ok(s@),
        Err(e) => Err(e),
    }
}

impl StateVec {
    /// Returns a register with `q` qubits, each exactly at |0>, and `c`
    /// classical bits, each 0. Both counts may be zero.
    pub fn init(q: usize, c: usize) -> (r: StateVec)
        ensures
            r@.qubits.len() == q,
            r@.cbits.len() == c,
            forall|i: int| 0 <= i < q ==> r@.qubits[i] == qubit_ket0_s(),
            forall|i: int| 0 <= i < c ==> r@.cbits[i] == 0i8,
            state_wf(r@),
    {
        let mut qubits: Vec<Qubit> = Vec::new();
        let mut i: usize = 0;
        while i < q
            invariant
                i <= q,
                qubits@.len() == i,
                forall|j: int| 0 <= j < i ==> qubits@[j]@ == qubit_ket0_s(),
            decreases q - i,
        {
            qubits.push(Qubit { a0: Amp::one(), a1: Amp::zero() });
            i = i + 1;
        }
        let mut cbits: Vec<i8> = Vec::new();
        let mut k: usize = 0;
        while k < c
            invariant
                k <= c,
                cbits@.len() == k,
                forall|j: int| 0 <= j < k ==> cbits@[j] == 0i8,
            decreases c - k,
        {
            cbits.push(0i8);
            k = k + 1;
        }
        StateVec { qubits: qubits, cbits: cbits }
    }

    /// An element-by-element copy with the same mathematical content.
    fn duplicate(&self) -> (r: StateVec)
        ensures
            r@ == self@,
    {
        let mut qubits: Vec<Qubit> = Vec::new();
        let mut i: usize = 0;
        while i < self.qubits.len()
            invariant
                i <= self.qubits.len(),
                qubits@.len() == i,
                forall|j: int| 0 <= j < i ==> qubits@[j] == self.qubits@[j],
            decreases self.qubits.len() - i,
        {
            qubits.push(self.qubits[i]);
            i = i + 1;
        }
        let mut cbits: Vec<i8> = Vec::new();
        let mut k: usize = 0;
        while k < self.cbits.len()
            invariant
                k <= self.cbits.len(),
                cbits@.len() == k,
                forall|j: int| 0 <= j < k ==> cbits@[j] == self.cbits@[j],
            decreases self.cbits.len() - k,
        {
            cbits.push(self.cbits[k]);
            k = k + 1;
        }
        let r = StateVec { qubits: qubits, cbits: cbits };
        proof {
            assert(r.qubits@ =~= self.qubits@);
            assert(r.cbits@ =~= self.cbits@);
            assert(r@ =~= self@);
        }
        r
    }

    /// Collapses qubit `q` in place under the given sample.
    pub(crate) fn collapse_in_place(&mut self, q: usize, sample: u32)
        requires
            q < old(self)@.qubits.len(),
            state_wf(old(self)@),
        ensures
            final(self)@ == spec_collapse(old(self)@, q as int, sample),
            state_wf(final(self)@),
    {
        proof {
            assert(self@.qubits[q as int] == self.qubits@[q as int]@);
        }
        let picked_zero: bool = collapse_picks_zero(&self.qubits[q].a0, sample);
        if picked_zero {
            self.qubits[q] = Qubit { a0: Amp::one(), a1: Amp::zero() };
        } else {
            self.qubits[q] = Qubit { a0: Amp::zero(), a1: Amp::one() };
        }
        proof {
            assert(self@.qubits =~= spec_collapse(old(self)@, q as int, sample).qubits);
            assert(self@ =~= spec_collapse(old(self)@, q as int, sample));
        }
    }

    /// Collapses qubit `q` under an explicitly supplied uniform sample
    /// (read as `sample / 2^32`), returning the updated register. The
    /// outcome is fully determined by the state and the sample, so a
    /// scripted sample source replays a run deterministically. Fails with
    /// `IndexOutOfBounds` exactly when `q` is at or beyond the qubit count.
    pub fn single_collapse_with_sample(&self, q: usize, sample: u32) -> (r: Result<
        StateVec,
        QuantumError,
    >)
        requires
            state_wf(self@),
        ensures
            res_view(r) == spec_single_collapse(self@, q as int, sample),
            r is Ok <==> q < self@.qubits.len(),
            r is Ok ==> state_wf(r->Ok_0@),
    {
        if q < self.qubits.len() {
            let mut out = self.duplicate();
            out.collapse_in_place(q, sample);
            Ok(out)
        } else {
            Err(QuantumError::IndexOutOfBounds)
        }
    }

    /// Collapses a single qubit and returns the register with the
    /// collapsed state, drawing the sample from the default uniform
    /// source. Every property that holds for all samples holds for the
    /// result; repeated on an already collapsed qubit it deterministically
    /// returns the same basis state. Fails with `IndexOutOfBounds` exactly
    /// when `q` is at or beyond the qubit count.
    pub fn single_collapse(&self, q: usize) -> (r: Result<StateVec, QuantumError>)
        requires
            state_wf(self@),
        ensures
            exists|sample: u32| res_view(r) == spec_single_collapse(self@, q as int, sample),
            r is Ok <==> q < self@.qubits.len(),
            r is Ok ==> state_wf(r->Ok_0@),
            q >= self@.qubits.len() ==> r == Err::<StateVec, QuantumError>(
                QuantumError::IndexOutOfBounds,
            ),
    {
        let sample: u32 = sample_u32();
        let r = self.single_collapse_with_sample(q, sample);
        proof {
            assert(res_view(r) == spec_single_collapse(self@, q as int, sample));
        }
        r
    }

    /// Copies a collapsed qubit into a classical register cell: 0 for |0>,
    /// 1 for |1>. Fails with `IndexOutOfBounds` when either index is at or
    /// beyond its register size, and with `SuperpositionCopyAttempt`
    /// exactly when the qubit's amplitude pair is not (1, 0) or (0, 1).
    pub fn copy_to_classical_bit(&self, q: usize, c: usize) -> (r: Result<StateVec, QuantumError>)
        ensures
            res_view(r) == spec_copy_to_classical(self@, q as int, c as int),
    {
        if q >= self.qubits.len() {
            return Err(QuantumError::IndexOutOfBounds);
        }
        if c >= self.cbits.len() {
            return Err(QuantumError::IndexOutOfBounds);
        }
        let qb = self.qubits[q];
        let zero_here = qb.a0.is_one() && qb.a1.is_zero();
        let one_here = qb.a0.is_zero() && qb.a1.is_one();
        if !(zero_here || one_here) {
            return Err(QuantumError::SuperpositionCopyAttempt);
        }
        proof {
            // The qubit cannot read as |0> and as |1> at once: its |0>
            // amplitude cannot equal both 1 and 0, since 2^m is positive.
            lemma_pow2_pos(self@.qubits[q as int].a0.m);
        }
        let mut out = self.duplicate();
        let v: i8 = if zero_here {
            0i8
        } else {
            1i8
        };
        out.cbits[c] = v;
        proof {
            assert(out@.cbits =~= spec_copy_to_classical(self@, q as int, c as int)->Ok_0.cbits);
            assert(out@ =~= spec_copy_to_classical(self@, q as int, c as int)->Ok_0);
        }
        Ok(out)
    }

    /// Squares each component of qubit `target_index`'s amplitude pair.
    pub fn norm(self, target_index: usize) -> (r: Result<StateVec, QuantumError>)
        requires
            state_wf(self@),
        ensures
            res_view(r) == spec_norm(self@, target_index as int),
    {
        if target_index >= self.qubits.len() {
            return Err(QuantumError::IndexOutOfBounds);
        }
        let mut out = self;
        let qb = out.qubits[target_index];
        let squared = Qubit { a0: qb.a0.times(&qb.a0), a1: qb.a1.times(&qb.a1) };
        let ghost pre = out@;
        out.qubits[target_index] = squared;
        proof {
            assert(out@.qubits =~= spec_norm(pre, target_index as int)->Ok_0.qubits);
            assert(out@ =~= spec_norm(pre, target_index as int)->Ok_0);
        }
        Ok(out)
    }
}

} // verus!
