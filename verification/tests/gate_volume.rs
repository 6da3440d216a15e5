use qrustalpha::BitType;
use qrustalpha::executor::execute_gate;
use qrustalpha::gates::single_qubit_gates::SingleQuantumGate;
use qrustalpha::statevec::StateVec;

#[test]
fn two_hundred_thousand_paulix() {
    let mut initial_system = StateVec::init(200000, 1);
    let mut i: u32 = 0;
    while i < initial_system.qubits.len() as u32 {
        initial_system = execute_gate(
            SingleQuantumGate::paulix(BitType::Quantum(i as usize)),
            initial_system,
        )
        .unwrap();
        i += 1;
    }
}

#[test]
fn million_paulix() {
    let mut initial_system = StateVec::init(1000000, 1);
    let mut i: u32 = 0;
    while i < initial_system.qubits.len() as u32 {
        initial_system = execute_gate(
            SingleQuantumGate::paulix(BitType::Quantum(i as usize)),
            initial_system,
        )
        .unwrap();
        i += 1;
    }
}
