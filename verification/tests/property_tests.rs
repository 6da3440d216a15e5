use qrustalpha::BitType;
use qrustalpha::QuantumError;
use qrustalpha::amp::Amp;
use qrustalpha::executor::{execute_gate, execute_gate_with_samples};
use qrustalpha::gates::pauli_x_matrix;
use qrustalpha::gates::single_qubit_gates::SingleQuantumGate;
use qrustalpha::statevec::StateVec;

#[test]
fn init_sets_all_qubits_and_cbits_to_zero() {
    let sys = StateVec::init(3, 2);
    assert_eq!(3, sys.qubits.len());
    assert_eq!(2, sys.cbits.len());
    for i in 0..3 {
        assert_eq!(Amp::one(), sys.qubits[i].a0);
        assert_eq!(Amp::zero(), sys.qubits[i].a1);
    }
    for i in 0..2 {
        assert_eq!(0i8, sys.cbits[i]);
    }
}

#[test]
fn init_with_zero_sizes() {
    let sys = StateVec::init(0, 0);
    assert_eq!(0, sys.qubits.len());
    assert_eq!(0, sys.cbits.len());
}

#[test]
fn flip_then_measure_is_always_one() {
    for sample in [0u32, 1, u32::MAX / 2, u32::MAX] {
        let sys = StateVec::init(1, 1);
        let sys = execute_gate(SingleQuantumGate::paulix(BitType::Quantum(0)), sys).unwrap();
        let sys = sys.single_collapse_with_sample(0, sample).unwrap();
        assert_eq!(Amp::zero(), sys.qubits[0].a0);
        assert_eq!(Amp::one(), sys.qubits[0].a1);
    }
}

#[test]
fn flip_twice_restores_basis_state() {
    let sys = StateVec::init(1, 1);
    let sys = execute_gate(SingleQuantumGate::paulix(BitType::Quantum(0)), sys).unwrap();
    let sys = execute_gate(SingleQuantumGate::paulix(BitType::Quantum(0)), sys).unwrap();
    assert_eq!(Amp::one(), sys.qubits[0].a0);
    assert_eq!(Amp::zero(), sys.qubits[0].a1);
    let sys = execute_gate(SingleQuantumGate::paulix(BitType::Quantum(0)), sys).unwrap();
    let sys = execute_gate(SingleQuantumGate::paulix(BitType::Quantum(0)), sys).unwrap();
    let sys = execute_gate(SingleQuantumGate::paulix(BitType::Quantum(0)), sys).unwrap();
    assert_eq!(Amp::zero(), sys.qubits[0].a0);
    assert_eq!(Amp::one(), sys.qubits[0].a1);
}

#[test]
fn cnot_flips_target_when_control_one() {
    let sys = StateVec::init(2, 1);
    let sys = execute_gate(SingleQuantumGate::paulix(BitType::Quantum(0)), sys).unwrap();
    let sys = execute_gate(
        SingleQuantumGate::cnot(BitType::Quantum(0), BitType::Quantum(1)),
        sys,
    )
    .unwrap();
    assert_eq!(Amp::one(), sys.qubits[1].a1);
    assert_eq!(Amp::zero(), sys.qubits[1].a0);
    // the control stays in its definite basis state
    assert_eq!(Amp::one(), sys.qubits[0].a1);
    assert_eq!(Amp::zero(), sys.qubits[0].a0);
}

#[test]
fn cnot_leaves_target_when_control_zero() {
    let sys = StateVec::init(2, 1);
    let sys = execute_gate(
        SingleQuantumGate::cnot(BitType::Quantum(0), BitType::Quantum(1)),
        sys,
    )
    .unwrap();
    assert_eq!(Amp::one(), sys.qubits[1].a0);
    assert_eq!(Amp::zero(), sys.qubits[1].a1);
    assert_eq!(Amp::one(), sys.qubits[0].a0);
    assert_eq!(Amp::zero(), sys.qubits[0].a1);
}

#[test]
fn toffoli_leaves_target_unless_both_controls_one() {
    // only one control at |1>: target unchanged, both controls collapsed
    let sys = StateVec::init(3, 1);
    let sys = execute_gate(SingleQuantumGate::paulix(BitType::Quantum(0)), sys).unwrap();
    let sys = execute_gate(
        SingleQuantumGate::toffoli(BitType::Quantum(0), BitType::Quantum(1), BitType::Quantum(2)),
        sys,
    )
    .unwrap();
    assert_eq!(Amp::one(), sys.qubits[2].a0);
    assert_eq!(Amp::zero(), sys.qubits[2].a1);
    assert_eq!(Amp::one(), sys.qubits[0].a1);
    assert_eq!(Amp::one(), sys.qubits[1].a0);
}

#[test]
fn toffoli_collapses_superposed_controls() {
    let sys = StateVec::init(3, 1);
    let sys = execute_gate(SingleQuantumGate::hadamard(BitType::Quantum(0)), sys).unwrap();
    let sys = execute_gate(SingleQuantumGate::hadamard(BitType::Quantum(1)), sys).unwrap();
    let sys = execute_gate(
        SingleQuantumGate::toffoli(BitType::Quantum(0), BitType::Quantum(1), BitType::Quantum(2)),
        sys,
    )
    .unwrap();
    for c in [0, 1] {
        let q = &sys.qubits[c];
        let collapsed = (q.a0 == Amp::one() && q.a1 == Amp::zero())
            || (q.a0 == Amp::zero() && q.a1 == Amp::one());
        assert!(collapsed);
    }
}

#[test]
fn read_classical_fails_on_superposition() {
    let sys = StateVec::init(1, 1);
    let sys = execute_gate(SingleQuantumGate::hadamard(BitType::Quantum(0)), sys).unwrap();
    let r = sys.copy_to_classical_bit(0, 0);
    assert!(matches!(r, Err(QuantumError::SuperpositionCopyAttempt)));
}

#[test]
fn read_classical_copies_basis_value() {
    let sys = StateVec::init(1, 1);
    let copied = sys.copy_to_classical_bit(0, 0).unwrap();
    assert_eq!(0i8, copied.cbits[0]);
    let sys = execute_gate(SingleQuantumGate::paulix(BitType::Quantum(0)), sys).unwrap();
    let copied = sys.copy_to_classical_bit(0, 0).unwrap();
    assert_eq!(1i8, copied.cbits[0]);
    // the qubit itself is untouched by the readout
    assert_eq!(Amp::one(), copied.qubits[0].a1);
}

#[test]
fn index_bounds_are_checked_and_maximal_index_works() {
    let sys = StateVec::init(2, 2);
    assert!(sys.single_collapse_with_sample(1, 0).is_ok());
    assert!(matches!(
        sys.single_collapse_with_sample(2, 0),
        Err(QuantumError::IndexOutOfBounds)
    ));
    assert!(sys.copy_to_classical_bit(1, 1).is_ok());
    assert!(matches!(
        sys.copy_to_classical_bit(2, 0),
        Err(QuantumError::IndexOutOfBounds)
    ));
    assert!(matches!(
        sys.copy_to_classical_bit(0, 2),
        Err(QuantumError::IndexOutOfBounds)
    ));
    let r = execute_gate(SingleQuantumGate::paulix(BitType::Quantum(1)), sys);
    let sys = r.unwrap();
    let r = execute_gate(SingleQuantumGate::paulix(BitType::Quantum(2)), sys);
    assert!(matches!(r, Err(QuantumError::IndexOutOfBounds)));
}

#[test]
fn control_index_bounds_are_checked() {
    let sys = StateVec::init(2, 1);
    let r = execute_gate(
        SingleQuantumGate::cnot(BitType::Quantum(2), BitType::Quantum(0)),
        sys,
    );
    assert!(matches!(r, Err(QuantumError::IndexOutOfBounds)));
    let sys = StateVec::init(2, 1);
    let r = execute_gate(
        SingleQuantumGate::cnot(BitType::Classical(1), BitType::Quantum(0)),
        sys,
    );
    assert!(matches!(r, Err(QuantumError::IndexOutOfBounds)));
    let sys = StateVec::init(3, 1);
    let r = execute_gate(
        SingleQuantumGate::toffoli(BitType::Quantum(0), BitType::Quantum(3), BitType::Quantum(2)),
        sys,
    );
    assert!(matches!(r, Err(QuantumError::IndexOutOfBounds)));
}

#[test]
fn target_validation_errors() {
    let sys = StateVec::init(1, 1);
    let r = execute_gate(SingleQuantumGate::paulix(BitType::Unset), sys);
    assert!(matches!(r, Err(QuantumError::MissingTarget)));
    let sys = StateVec::init(1, 1);
    let r = execute_gate(SingleQuantumGate::paulix(BitType::Classical(0)), sys);
    assert!(matches!(r, Err(QuantumError::InvalidTargetKind)));
}

#[test]
fn invalid_addressing_combinations() {
    // a Toffoli pair of classical addresses
    let sys = StateVec::init(2, 2);
    let r = execute_gate(
        SingleQuantumGate::toffoli(BitType::Classical(0), BitType::Classical(1), BitType::Quantum(0)),
        sys,
    );
    assert!(matches!(r, Err(QuantumError::InvalidAddressingCombination)));
    // a Toffoli pair naming the same qubit twice
    let sys = StateVec::init(2, 2);
    let r = execute_gate(
        SingleQuantumGate::toffoli(BitType::Quantum(0), BitType::Quantum(0), BitType::Quantum(1)),
        sys,
    );
    assert!(matches!(r, Err(QuantumError::InvalidAddressingCombination)));
    // a half-set Toffoli pair
    let sys = StateVec::init(2, 2);
    let r = execute_gate(
        SingleQuantumGate::new(
            pauli_x_matrix(),
            BitType::Unset,
            BitType::Quantum(1),
            BitType::Quantum(0),
            BitType::Unset,
        ),
        sys,
    );
    assert!(matches!(r, Err(QuantumError::InvalidAddressingCombination)));
    // a Toffoli pair combined with a quantum single control
    let sys = StateVec::init(3, 2);
    let r = execute_gate(
        SingleQuantumGate::new(
            pauli_x_matrix(),
            BitType::Quantum(2),
            BitType::Quantum(2),
            BitType::Quantum(0),
            BitType::Quantum(1),
        ),
        sys,
    );
    assert!(matches!(r, Err(QuantumError::InvalidAddressingCombination)));
}

#[test]
fn classical_control_gates_without_measuring() {
    // write 1 into the classical bit, then use it as the control
    let sys = StateVec::init(2, 1);
    let sys = execute_gate(SingleQuantumGate::paulix(BitType::Quantum(0)), sys).unwrap();
    let sys = sys.copy_to_classical_bit(0, 0).unwrap();
    let sys = execute_gate(
        SingleQuantumGate::cnot(BitType::Classical(0), BitType::Quantum(1)),
        sys,
    )
    .unwrap();
    assert_eq!(Amp::one(), sys.qubits[1].a1);
    // with the classical bit 0 the target stays put
    let sys = StateVec::init(2, 1);
    let sys = execute_gate(
        SingleQuantumGate::cnot(BitType::Classical(0), BitType::Quantum(1)),
        sys,
    )
    .unwrap();
    assert_eq!(Amp::one(), sys.qubits[1].a0);
}

#[test]
fn classical_gated_toffoli_respects_classical_bit() {
    // both controls |1>, classical bit 1: the target flips
    let sys = StateVec::init(3, 1);
    let sys = execute_gate(SingleQuantumGate::paulix(BitType::Quantum(0)), sys).unwrap();
    let sys = execute_gate(SingleQuantumGate::paulix(BitType::Quantum(1)), sys).unwrap();
    let sys = sys.copy_to_classical_bit(0, 0).unwrap();
    let gate = SingleQuantumGate::new(
        pauli_x_matrix(),
        BitType::Classical(0),
        BitType::Quantum(2),
        BitType::Quantum(0),
        BitType::Quantum(1),
    );
    let sys = execute_gate(gate, sys).unwrap();
    assert_eq!(Amp::one(), sys.qubits[2].a1);
    // both controls |1> but classical bit 0: no flip
    let sys = StateVec::init(3, 1);
    let sys = execute_gate(SingleQuantumGate::paulix(BitType::Quantum(0)), sys).unwrap();
    let sys = execute_gate(SingleQuantumGate::paulix(BitType::Quantum(1)), sys).unwrap();
    let gate = SingleQuantumGate::new(
        pauli_x_matrix(),
        BitType::Classical(0),
        BitType::Quantum(2),
        BitType::Quantum(0),
        BitType::Quantum(1),
    );
    let sys = execute_gate(gate, sys).unwrap();
    assert_eq!(Amp::one(), sys.qubits[2].a0);
}

#[test]
fn gates_never_touch_classical_bits() {
    let sys = StateVec::init(2, 1);
    let sys = execute_gate(SingleQuantumGate::paulix(BitType::Quantum(0)), sys).unwrap();
    let sys = sys.copy_to_classical_bit(0, 0).unwrap();
    assert_eq!(1i8, sys.cbits[0]);
    let sys = execute_gate(SingleQuantumGate::hadamard(BitType::Quantum(1)), sys).unwrap();
    let sys = execute_gate(
        SingleQuantumGate::cnot(BitType::Quantum(0), BitType::Quantum(1)),
        sys,
    )
    .unwrap();
    assert_eq!(1i8, sys.cbits[0]);
}

#[test]
fn phase_gates_have_exact_values() {
    // Pauli-Z on |1> negates the |1> amplitude
    let sys = StateVec::init(1, 1);
    let sys = execute_gate(SingleQuantumGate::paulix(BitType::Quantum(0)), sys).unwrap();
    let z = execute_gate(SingleQuantumGate::pauliz(BitType::Quantum(0)), sys).unwrap();
    assert_eq!(Amp::new(0, 0, 0, -1, 0), z.qubits[0].a1);
    // S on |1> multiplies the |1> amplitude by i
    let sys = StateVec::init(1, 1);
    let sys = execute_gate(SingleQuantumGate::paulix(BitType::Quantum(0)), sys).unwrap();
    let s = execute_gate(SingleQuantumGate::s_gate(BitType::Quantum(0)), sys).unwrap();
    assert_eq!(Amp::new(0, 1, 0, 0, 0), s.qubits[0].a1);
    // S-dagger undoes S
    let s_back = execute_gate(SingleQuantumGate::inv_s_gate(BitType::Quantum(0)), s).unwrap();
    assert!(s_back.qubits[0].a1.is_one());
    // T on |1> multiplies the |1> amplitude by the 45-degree phase
    let sys = StateVec::init(1, 1);
    let sys = execute_gate(SingleQuantumGate::paulix(BitType::Quantum(0)), sys).unwrap();
    let t = execute_gate(SingleQuantumGate::t_gate(BitType::Quantum(0)), sys).unwrap();
    assert_eq!(Amp::new(0, 0, 1, 0, 0), t.qubits[0].a1);
    // Pauli-Y on |0> puts i on |1>
    let sys = StateVec::init(1, 1);
    let y = execute_gate(SingleQuantumGate::pauliy(BitType::Quantum(0)), sys).unwrap();
    assert_eq!(Amp::zero(), y.qubits[0].a0);
    assert_eq!(Amp::new(0, 1, 0, 0, 0), y.qubits[0].a1);
}

#[test]
fn hadamard_twice_restores_ket0_in_value() {
    let sys = StateVec::init(1, 1);
    let sys = execute_gate(SingleQuantumGate::hadamard(BitType::Quantum(0)), sys).unwrap();
    assert_eq!(Amp::new(-1, 0, 1, 0, 1), sys.qubits[0].a0);
    assert_eq!(Amp::new(-1, 0, 1, 0, 1), sys.qubits[0].a1);
    let sys = execute_gate(SingleQuantumGate::hadamard(BitType::Quantum(0)), sys).unwrap();
    assert!(sys.qubits[0].a0.is_one());
    assert!(sys.qubits[0].a1.is_zero());
}

#[test]
fn measuring_superposition_follows_the_sample() {
    // H|0> has probability 1/2 on |0>: a sample of 0 falls below it, the
    // maximal sample does not
    let sys = StateVec::init(1, 1);
    let sys = execute_gate(SingleQuantumGate::hadamard(BitType::Quantum(0)), sys).unwrap();
    let low = sys.single_collapse_with_sample(0, 0).unwrap();
    assert_eq!(Amp::one(), low.qubits[0].a0);
    assert_eq!(Amp::zero(), low.qubits[0].a1);
    let high = sys.single_collapse_with_sample(0, u32::MAX).unwrap();
    assert_eq!(Amp::zero(), high.qubits[0].a0);
    assert_eq!(Amp::one(), high.qubits[0].a1);
}

#[test]
fn measuring_collapsed_qubit_is_deterministic() {
    let sys = StateVec::init(1, 1);
    let sys = sys.single_collapse_with_sample(0, u32::MAX).unwrap();
    assert_eq!(Amp::one(), sys.qubits[0].a0);
    let again = sys.single_collapse(0).unwrap();
    assert_eq!(Amp::one(), again.qubits[0].a0);
    assert_eq!(Amp::zero(), again.qubits[0].a1);
}

#[test]
fn norm_squares_the_target_components() {
    // S|1> holds i on |1>; squaring turns it into -1
    let sys = StateVec::init(1, 1);
    let sys = execute_gate(SingleQuantumGate::paulix(BitType::Quantum(0)), sys).unwrap();
    let sys = execute_gate(SingleQuantumGate::s_gate(BitType::Quantum(0)), sys).unwrap();
    let sys = sys.norm(0).unwrap();
    assert_eq!(Amp::new(0, 0, 0, -1, 0), sys.qubits[0].a1);
    assert_eq!(Amp::zero(), sys.qubits[0].a0);
    // out-of-range target
    let sys = StateVec::init(1, 1);
    assert!(matches!(sys.norm(1), Err(QuantumError::IndexOutOfBounds)));
}

#[test]
fn execute_with_samples_is_deterministic() {
    let sys = StateVec::init(2, 1);
    let sys = execute_gate_with_samples(
        &SingleQuantumGate::hadamard(BitType::Quantum(0)),
        sys,
        0,
        0,
    )
    .unwrap();
    // quantum control on a superposed qubit: sample 0 collapses it to |0>
    let sys = execute_gate_with_samples(
        &SingleQuantumGate::cnot(BitType::Quantum(0), BitType::Quantum(1)),
        sys,
        0,
        0,
    )
    .unwrap();
    assert_eq!(Amp::one(), sys.qubits[0].a0);
    assert_eq!(Amp::one(), sys.qubits[1].a0);
}
