use qiskit_rs::QuantumCircuit;
use std::f64::consts::FRAC_PI_2;

#[test]
fn test_circuit_instructions() {
    let mut qc = QuantumCircuit::new(100, 100);
    qc.rz(FRAC_PI_2.to_bits(), 0);
    qc.sx(0);
    qc.rz(FRAC_PI_2.to_bits(), 0);
    for target in 0..100u32 {
        qc.cx(0, target);
        qc.measure(target, target);
    }
    let mut res = qc.instructions();
    let mut target: u32 = 0;
    let mut idx: usize = 0;
    while let Some(inst) = res.next() {
        if idx == 0 || idx == 2 {
            assert_eq!(inst.name, "rz");
            assert_eq!(&[0,], inst.qubits);
            assert_eq!(inst.clbits, &[]);
            assert_eq!(&[FRAC_PI_2.to_bits(),], inst.params);
        } else if idx == 1 {
            assert_eq!(inst.name, "sx");
            assert_eq!(&[0,], inst.qubits);
            assert_eq!(inst.clbits, &[]);
            assert_eq!(inst.params, &[]);
        } else {
            let expected_name = if (idx - 3) % 2 == 0 { "cx" } else { "measure" };
            assert_eq!(expected_name, inst.name);
            assert_eq!(inst.params, &[]);
            if expected_name == "measure" {
                assert_eq!(inst.qubits, &[target]);
                assert_eq!(inst.clbits, &[target]);
                target += 1;
            } else {
                assert_eq!(inst.qubits, &[0, target]);
                assert_eq!(inst.clbits, &[]);
            }
        }
        idx += 1;
    }
}
