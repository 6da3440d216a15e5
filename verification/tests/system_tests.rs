use qrustalpha::BitType;
use qrustalpha::amp::Amp;
use qrustalpha::executor::execute_gate;
use qrustalpha::gates::single_qubit_gates::SingleQuantumGate;
use qrustalpha::statevec::StateVec;

#[test]
fn create_quantum_system_1q_1c() {
    StateVec::init(1, 1);
}

#[test]
fn create_quantum_system_100q_100c() {
    StateVec::init(100, 100);
}

#[test]
fn create_quantum_system_100000q_100000c() {
    StateVec::init(100000, 100000);
}

#[test]
#[should_panic]
fn check_classical_bit_bounds() {
    let test_system1 = StateVec::init(1, 1);
    let test_system2 =
        execute_gate(SingleQuantumGate::paulix(BitType::Quantum(0)), test_system1).unwrap();
    test_system2.copy_to_classical_bit(0, 2).unwrap();
}

#[test]
#[should_panic]
fn check_qubit_bounds() {
    let test_system1 = StateVec::init(1, 1);
    let test_system2 =
        execute_gate(SingleQuantumGate::paulix(BitType::Quantum(0)), test_system1).unwrap();
    test_system2.single_collapse(2).unwrap();
}

#[test]
fn run_pauli_x() {
    let test_system1 = StateVec::init(1, 1);
    let test_system2 =
        execute_gate(SingleQuantumGate::paulix(BitType::Quantum(0)), test_system1).unwrap();
    assert_eq!(Amp::one(), test_system2.qubits[0].a1);
}

#[test]
fn run_cnot() {
    let test_system1 = StateVec::init(2, 1);
    let test_system2 =
        execute_gate(SingleQuantumGate::paulix(BitType::Quantum(0)), test_system1).unwrap();
    let test_system3 = execute_gate(
        SingleQuantumGate::cnot(BitType::Quantum(0), BitType::Quantum(1)),
        test_system2,
    )
    .unwrap();
    assert_eq!(Amp::one(), test_system3.qubits[0].a1);
}

#[test]
fn run_toffoli() {
    let test_system1 = StateVec::init(3, 1);
    let test_system2 =
        execute_gate(SingleQuantumGate::paulix(BitType::Quantum(0)), test_system1).unwrap();
    let test_system3 =
        execute_gate(SingleQuantumGate::paulix(BitType::Quantum(1)), test_system2).unwrap();
    let test_system4 = execute_gate(
        SingleQuantumGate::toffoli(BitType::Quantum(0), BitType::Quantum(1), BitType::Quantum(2)),
        test_system3,
    )
    .unwrap();
    assert_eq!(Amp::one(), test_system4.qubits[2].a1);
}

#[test]
fn half_adder() {
    let test_system1 = StateVec::init(4, 1);
    let test_system2 =
        execute_gate(SingleQuantumGate::paulix(BitType::Quantum(0)), test_system1).unwrap();
    let test_system3 =
        execute_gate(SingleQuantumGate::paulix(BitType::Quantum(1)), test_system2).unwrap();
    let test_system4 = execute_gate(
        SingleQuantumGate::toffoli(BitType::Quantum(0), BitType::Quantum(1), BitType::Quantum(3)),
        test_system3,
    )
    .unwrap();
    assert_eq!(Amp::one(), test_system4.qubits[3].a1);
    let test_system5 = execute_gate(
        SingleQuantumGate::cnot(BitType::Quantum(0), BitType::Quantum(1)),
        test_system4,
    )
    .unwrap();
    assert_eq!(Amp::zero(), test_system5.qubits[1].a1);
}
