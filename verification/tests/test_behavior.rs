use qiskit_rs::{qk_to_qiskit_error, ClassicalRegister, Gate, QiskitError, QuantumCircuit, QuantumRegister};

#[test]
fn fresh_circuit_reports_dimensions_and_empty_log() {
    let mut qc = QuantumCircuit::new(3, 2);
    assert_eq!(qc.num_qubits(), 3);
    assert_eq!(qc.num_clbits(), 2);
    assert_eq!(qc.num_instructions(), 0);
    let mut it = qc.instructions();
    assert_eq!(it.len(), 0);
    assert!(it.next().is_none());
}

#[test]
fn every_named_gate_succeeds_and_appends_one_entry() {
    let mut qc = QuantumCircuit::new(4, 0);
    let t = 0.5f64.to_bits();
    let results = [
        qc.dcx(0, 1),
        qc.ecr(0, 1),
        qc.h(0),
        qc.id(0),
        qc.iswap(0, 1),
        qc.p(t, 0),
        qc.r(t, t, 0),
        qc.rcccx(0, 1, 2, 3),
        qc.rccx(0, 1, 2),
        qc.rx(t, 0),
        qc.rxx(t, 0, 1),
        qc.ry(t, 0),
        qc.ryy(t, 0, 1),
        qc.rz(t, 0),
        qc.rzx(t, 0, 1),
        qc.rzz(t, 0, 1),
        qc.s(0),
        qc.sdg(0),
        qc.sx(0),
        qc.sxdg(0),
        qc.t(0),
        qc.tdg(0),
        qc.u(t, t, t, 0),
        qc.x(0),
        qc.y(0),
        qc.z(0),
        qc.cx(0, 1),
    ];
    for r in &results {
        assert_eq!(*r, QiskitError::Success);
    }
    assert_eq!(qc.num_instructions(), results.len());
}

#[test]
fn mismatched_operand_count_is_rejected_without_partial_entry() {
    let mut qc = QuantumCircuit::new(2, 0);
    assert_eq!(qc.h(0), QiskitError::Success);
    assert_eq!(qc.num_instructions(), 1);
    assert_eq!(qc.gate(Gate::H, &[0, 1], &[]), QiskitError::CInputError);
    assert_eq!(qc.gate(Gate::CX, &[0], &[]), QiskitError::CInputError);
    assert_eq!(qc.gate(Gate::RC3X, &[], &[]), QiskitError::CInputError);
    assert_eq!(qc.gate(Gate::H, &[0], &[1u64]), QiskitError::CInputError);
    assert_eq!(qc.gate(Gate::RZ, &[0], &[]), QiskitError::CInputError);
    assert_eq!(qc.num_instructions(), 1);
}

#[test]
fn out_of_range_operand_is_rejected_without_partial_entry() {
    let mut qc = QuantumCircuit::new(2, 1);
    assert_eq!(qc.h(2), QiskitError::IndexError);
    assert_eq!(qc.cx(0, 7), QiskitError::IndexError);
    assert_eq!(qc.measure(2, 0), QiskitError::IndexError);
    assert_eq!(qc.measure(0, 1), QiskitError::IndexError);
    assert_eq!(qc.num_instructions(), 0);
    assert_eq!(qc.measure(1, 0), QiskitError::Success);
    assert_eq!(qc.num_instructions(), 1);
}

#[test]
fn introspection_yields_application_order() {
    let mut qc = QuantumCircuit::new(2, 0);
    qc.x(0);
    qc.y(1);
    qc.z(0);
    qc.s(1);
    let expected: [(&str, u32); 4] = [("x", 0), ("y", 1), ("z", 0), ("s", 1)];
    let mut it = qc.instructions();
    for (name, qubit) in expected {
        let inst = it.next().unwrap();
        assert_eq!(inst.name, name);
        assert_eq!(inst.qubits, &[qubit]);
        assert_eq!(inst.clbits, &[]);
        assert_eq!(inst.params, &[]);
    }
    assert!(it.next().is_none());
}

#[test]
fn duplicate_leaves_the_original_untouched() {
    let mut qc = QuantumCircuit::new(2, 2);
    qc.h(0);
    qc.cx(0, 1);
    let mut copy = qc.copy();
    assert_eq!(copy.num_instructions(), 2);
    assert_eq!(copy.x(1), QiskitError::Success);
    assert_eq!(copy.measure(0, 0), QiskitError::Success);
    assert_eq!(copy.num_instructions(), 4);
    assert_eq!(qc.num_instructions(), 2);
    let mut it = qc.instructions();
    let first = it.next().unwrap();
    assert_eq!(first.name, "h");
    assert_eq!(first.qubits, &[0]);
    let second = it.next().unwrap();
    assert_eq!(second.name, "cx");
    assert_eq!(second.qubits, &[0, 1]);
    assert!(it.next().is_none());
}

#[test]
fn releasing_views_keeps_the_circuit_usable() {
    let mut qc = QuantumCircuit::new(2, 2);
    qc.h(0);
    {
        let mut pass = qc.instructions();
        let view = pass.next().unwrap();
        assert_eq!(view.name, "h");
    }
    assert_eq!(qc.cx(0, 1), QiskitError::Success);
    {
        let mut pass = qc.instructions();
        assert_eq!(pass.len(), 2);
        while let Some(_) = pass.next() {}
    }
    assert_eq!(qc.measure(0, 0), QiskitError::Success);
    assert_eq!(qc.num_instructions(), 3);
    let mut last_pass = qc.instructions();
    assert_eq!(last_pass.len(), 3);
    assert_eq!(last_pass.next().unwrap().name, "h");
    assert_eq!(last_pass.next().unwrap().name, "cx");
    assert_eq!(last_pass.next().unwrap().name, "measure");
    assert!(last_pass.next().is_none());
    assert!(last_pass.next().is_none());
}

#[test]
fn bell_circuit_end_to_end() {
    let mut qc = QuantumCircuit::new(2, 2);
    assert_eq!(qc.h(0), QiskitError::Success);
    assert_eq!(qc.cx(0, 1), QiskitError::Success);
    assert_eq!(qc.measure(0, 0), QiskitError::Success);
    assert_eq!(qc.measure(1, 1), QiskitError::Success);
    assert_eq!(qc.num_instructions(), 4);
    let mut it = qc.instructions();
    let h = it.next().unwrap();
    assert_eq!(h.name, "h");
    assert_eq!(h.qubits, &[0]);
    assert_eq!(h.clbits, &[]);
    assert_eq!(h.params, &[]);
    let cx = it.next().unwrap();
    assert_eq!(cx.name, "cx");
    assert_eq!(cx.qubits, &[0, 1]);
    assert_eq!(cx.clbits, &[]);
    assert_eq!(cx.params, &[]);
    let m0 = it.next().unwrap();
    assert_eq!(m0.name, "measure");
    assert_eq!(m0.qubits, &[0]);
    assert_eq!(m0.clbits, &[0]);
    assert_eq!(m0.params, &[]);
    let m1 = it.next().unwrap();
    assert_eq!(m1.name, "measure");
    assert_eq!(m1.qubits, &[1]);
    assert_eq!(m1.clbits, &[1]);
    assert_eq!(m1.params, &[]);
    assert!(it.next().is_none());
}

#[test]
fn rotation_parameter_survives_bit_exactly() {
    let theta: f64 = 0.1f64 + 0.2f64;
    let mut qc = QuantumCircuit::new(1, 0);
    assert_eq!(qc.rz(theta.to_bits(), 0), QiskitError::Success);
    let mut it = qc.instructions();
    let inst = it.next().unwrap();
    assert_eq!(inst.params, &[theta.to_bits()]);
    assert_eq!(f64::from_bits(inst.params[0]), theta);
    assert!(it.next().is_none());
}

#[test]
fn every_known_exit_code_translates_to_its_own_discriminant() {
    assert_eq!(qk_to_qiskit_error(0), QiskitError::Success);
    assert_eq!(qk_to_qiskit_error(1), QiskitError::CInputError);
    assert_eq!(qk_to_qiskit_error(2), QiskitError::NullPointerError);
    assert_eq!(qk_to_qiskit_error(3), QiskitError::AlignmentError);
    assert_eq!(qk_to_qiskit_error(4), QiskitError::IndexError);
    assert_eq!(qk_to_qiskit_error(5), QiskitError::ArithmeticError);
    assert_eq!(qk_to_qiskit_error(6), QiskitError::MismatchedQubits);
    assert_eq!(qk_to_qiskit_error(7), QiskitError::ExpectedUnitary);
    assert_eq!(qk_to_qiskit_error(8), QiskitError::TargetError);
    assert_eq!(qk_to_qiskit_error(9), QiskitError::TargetInstAlreadyExists);
    assert_eq!(qk_to_qiskit_error(10), QiskitError::TargetQargMismatch);
    assert_eq!(qk_to_qiskit_error(11), QiskitError::TargetInvalidQargsKey);
    assert_eq!(qk_to_qiskit_error(12), QiskitError::TargetInvalidInstKey);
    assert_eq!(qk_to_qiskit_error(13), QiskitError::Unrecognized);
    assert_eq!(qk_to_qiskit_error(u32::MAX), QiskitError::Unrecognized);
}

#[test]
fn attaching_registers_consumes_them_and_keeps_the_log() {
    let mut qc = QuantumCircuit::new(3, 3);
    qc.h(0);
    let qreg = QuantumRegister::new(3, "q");
    let creg = ClassicalRegister::new(3, "c");
    qc.add_quantum_register(qreg);
    qc.add_classical_register(creg);
    assert_eq!(qc.num_qubits(), 3);
    assert_eq!(qc.num_clbits(), 3);
    assert_eq!(qc.num_instructions(), 1);
    assert_eq!(qc.cx(0, 2), QiskitError::Success);
    assert_eq!(qc.num_instructions(), 2);
}

#[test]
fn instruction_pass_len_counts_down_to_end() {
    let mut qc = QuantumCircuit::new(1, 0);
    qc.x(0);
    qc.y(0);
    qc.z(0);
    let mut it = qc.instructions();
    assert_eq!(it.len(), 3);
    it.next();
    assert_eq!(it.len(), 2);
    it.next();
    it.next();
    assert_eq!(it.len(), 0);
    assert!(it.next().is_none());
    assert_eq!(it.len(), 0);
}
