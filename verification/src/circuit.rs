use vstd::prelude::*;

use crate::error::qk_to_qiskit_error;
use crate::error::QiskitError;
use crate::error::EXIT_CODE_C_INPUT_ERROR;
use crate::error::EXIT_CODE_INDEX_ERROR;
use crate::error::EXIT_CODE_SUCCESS;
use crate::gate::gate_param_count;
use crate::gate::gate_qubit_count;
use crate::gate::gate_name;
use crate::gate::Gate;
use crate::instruction::copy_u32s;
use crate::instruction::copy_u64s;
use crate::instruction::op_name;
use crate::instruction::CircuitInstruction;
use crate::instruction::Instruction;
use crate::instruction::InstructionModel;
use crate::instruction::Op;
use crate::register::ClassicalRegister;
use crate::register::QuantumRegister;
use crate::register::RegisterModel;

verus! {

/// What a circuit is: a fixed number of quantum and classical positions,
/// the ordered log of recorded operations, and the registers whose
/// lifetime the circuit has taken over.
#[verifier::ext_equal]
pub struct CircuitModel {
    /// How many quantum positions the circuit has.
    pub num_qubits: u32,
    /// How many classical positions the circuit has.
    pub num_clbits: u32,
    /// The recorded operations, in application order.
    pub instructions: Seq<InstructionModel>,
    /// The quantum registers the circuit owns, in attachment order.
    pub qregs: Seq<RegisterModel>,
    /// The classical registers the circuit owns, in attachment order.
    pub cregs: Seq<RegisterModel>,
}

impl CircuitModel {
    /// A freshly constructed circuit: the given dimensions, no recorded
    /// operations, no attached registers.
    pub open spec fn empty(num_qubits: u32, num_clbits: u32) -> CircuitModel {
        CircuitModel {
            num_qubits,
            num_clbits,
            instructions: Seq::empty(),
            qregs: Seq::empty(),
            cregs: Seq::empty(),
        }
    }

    /// The circuit after one more operation was recorded.
    pub open spec fn with_entry(self, entry: InstructionModel) -> CircuitModel {
        CircuitModel { instructions: self.instructions.push(entry), ..self }
    }

    /// The circuit after it took ownership of one more quantum register.
    pub open spec fn with_quantum_register(self, register: RegisterModel) -> CircuitModel {
        CircuitModel { qregs: self.qregs.push(register), ..self }
    }

    /// The circuit after it took ownership of one more classical register.
    pub open spec fn with_classical_register(self, register: RegisterModel) -> CircuitModel {
        CircuitModel { cregs: self.cregs.push(register), ..self }
    }
}

/// Whether every listed position falls inside a circuit with
/// `num_qubits` quantum positions.
pub open spec fn qubits_in_range(num_qubits: u32, qubits: Seq<u32>) -> bool {
    forall|i: int| 0 <= i < qubits.len() ==> qubits[i] < num_qubits
}

/// The log entry that recording gate `g` on `qubits` with `params` appends.
pub open spec fn gate_entry(g: Gate, qubits: Seq<u32>, params: Seq<u64>) -> InstructionModel {
    InstructionModel { name: gate_name(g), qubits, clbits: Seq::empty(), params }
}

/// The outcome of asking circuit `c` to record gate `g` on `qubits` with
/// `params`: success exactly when the operand list has the operation's arity,
/// the parameter list has its parameter count, and every operand
/// falls inside the circuit.
pub open spec fn gate_outcome(
    c: CircuitModel,
    g: Gate,
    qubits: Seq<u32>,
    params: Seq<u64>,
) -> QiskitError {
    if qubits.len() != gate_qubit_count(g) || params.len() != gate_param_count(g) {
        QiskitError::CInputError
    } else if !qubits_in_range(c.num_qubits, qubits) {
        QiskitError::IndexError
    } else {
        QiskitError::Success
    }
}

/// How one gate application relates the circuit before (`pre`) to the
/// circuit after (`post`) and to the reported result `r`: the result is
/// the outcome above, on success exactly that operation's entry is appended,
/// and on anything else the circuit is left exactly as it was.
pub open spec fn gate_applied(
    pre: CircuitModel,
    post: CircuitModel,
    r: QiskitError,
    g: Gate,
    qubits: Seq<u32>,
    params: Seq<u64>,
) -> bool {
    &&& r == gate_outcome(pre, g, qubits, params)
    &&& post == if r == QiskitError::Success {
        pre.with_entry(gate_entry(g, qubits, params))
    } else {
        pre
    }
}

/// The log entry that recording a measurement of `qubit` into `clbit`
/// appends.
pub open spec fn measure_entry(qubit: u32, clbit: u32) -> InstructionModel {
    InstructionModel {
        name: "measure"@,
        qubits: seq![qubit],
        clbits: seq![clbit],
        params: Seq::empty(),
    }
}

/// The outcome of asking circuit `c` to record a measurement: success
/// exactly when both positions fall inside the circuit.
pub open spec fn measure_outcome(c: CircuitModel, qubit: u32, clbit: u32) -> QiskitError {
    if qubit < c.num_qubits && clbit < c.num_clbits {
        QiskitError::Success
    } else {
        QiskitError::IndexError
    }
}

/// How one measurement relates the circuit before to the circuit after
/// and to the reported result, in the same shape as [`gate_applied`].
pub open spec fn measure_applied(
    pre: CircuitModel,
    post: CircuitModel,
    r: QiskitError,
    qubit: u32,
    clbit: u32,
) -> bool {
    &&& r == measure_outcome(pre, qubit, clbit)
    &&& post == if r == QiskitError::Success {
        pre.with_entry(measure_entry(qubit, clbit))
    } else {
        pre
    }
}

/// An exclusively owned circuit over a fixed number of quantum and
/// classical positions.
///
/// The circuit records operations in application order; recording either
/// fully succeeds (exactly one log entry appended) or fully fails (the
/// log untouched, a structured error returned).  The recorded log can be
/// replayed through [`QuantumCircuit::instructions`] as borrowed,
/// read-only views.  Ownership is exclusive: duplication produces an
/// independent circuit, never a shared one, and release happens exactly
/// once, when the owning scope ends.
pub struct QuantumCircuit {
    num_qubits: u32,
    num_clbits: u32,
    instructions: Vec<Instruction>,
    qregs: Vec<QuantumRegister>,
    cregs: Vec<ClassicalRegister>,
}

impl View for QuantumCircuit {
    type V = CircuitModel;

    closed spec fn view(&self) -> CircuitModel {
        CircuitModel {
            num_qubits: self.num_qubits,
            num_clbits: self.num_clbits,
            instructions: Seq::new(
                self.instructions@.len(),
                |i: int| self.instructions@[i]@,
            ),
            qregs: Seq::new(self.qregs@.len(), |i: int| self.qregs@[i]@),
            cregs: Seq::new(self.cregs@.len(), |i: int| self.cregs@[i]@),
        }
    }
}

impl QuantumCircuit {
    /// Creates a circuit with `num_qubits` quantum positions and
    /// `num_clbits` classical positions and an empty operation log.
    pub fn new(num_qubits: u32, num_clbits: u32) -> (r: QuantumCircuit)
        ensures
            r@ == CircuitModel::empty(num_qubits, num_clbits),
    {
        let r = QuantumCircuit {
            num_qubits,
            num_clbits,
            instructions: Vec::new(),
            qregs: Vec::new(),
            cregs: Vec::new(),
        };
        assert(r@ =~~= CircuitModel::empty(num_qubits, num_clbits));
        r
    }

    /// The number of quantum positions, fixed at construction.
    pub fn num_qubits(&mut self) -> (n: u32)
        ensures
            *final(self) == *old(self),
            n == old(self)@.num_qubits,
    {
        self.num_qubits
    }

    /// The number of classical positions, fixed at construction.
    pub fn num_clbits(&mut self) -> (n: u32)
        ensures
            *final(self) == *old(self),
            n == old(self)@.num_clbits,
    {
        self.num_clbits
    }

    /// Whether every listed position falls inside this circuit.
    fn qubits_in_bounds(&self, qubits: &[u32]) -> (ok: bool)
        ensures
            ok == qubits_in_range(self@.num_qubits, qubits@),
    {
        let mut i: usize = 0;
        while i < qubits.len()
            invariant
                i <= qubits@.len(),
                forall|j: int| 0 <= j < i ==> qubits@[j] < self@.num_qubits,
            decreases qubits@.len() - i,
        {
            if qubits[i] >= self.num_qubits {
                assert(!qubits_in_range(self@.num_qubits, qubits@));
                return false;
            }
            i = i + 1;
        }
        true
    }

    /// Appends one entry to the operation log.
    fn push_entry(&mut self, op: Op, qubits: Vec<u32>, clbits: Vec<u32>, params: Vec<u64>)
        ensures
            final(self)@ == old(self)@.with_entry(
                InstructionModel {
                    name: op_name(op),
                    qubits: qubits@,
                    clbits: clbits@,
                    params: params@,
                },
            ),
    {
        let ghost entry = InstructionModel {
            name: op_name(op),
            qubits: qubits@,
            clbits: clbits@,
            params: params@,
        };
        let ghost pre = self@;
        self.instructions.push(Instruction { op, qubits, clbits, params });
        proof {
            crate::instruction::lemma_instruction_view(self.instructions@.last());
            assert(self@ =~~= pre.with_entry(entry));
        }
    }

    /// Records the named operation `gate` on the ordered operand list
    /// `qubits` with the ordered parameter list `params` (each parameter
    /// the bit pattern of an IEEE 754 double).
    ///
    /// This is the one generic primitive under every named operation:
    /// the operand list must have the operation's arity and the parameter
    /// list its parameter count, every operand must fall inside the
    /// circuit, and then exactly one entry is appended to the log and
    /// `Success` is returned.  Any violation is answered through the
    /// structured taxonomy — a mismatched operand or parameter count as
    /// `CInputError`, an out-of-range operand as `IndexError` — and
    /// leaves the log untouched.
    pub fn gate(&mut self, gate: Gate, qubits: &[u32], params: &[u64]) -> (r: QiskitError)
        ensures
            gate_applied(old(self)@, final(self)@, r, gate, qubits@, params@),
    {
        if qubits.len() != gate.num_qubits() || params.len() != gate.num_params() {
            return qk_to_qiskit_error(EXIT_CODE_C_INPUT_ERROR);
        }
        if !self.qubits_in_bounds(qubits) {
            return qk_to_qiskit_error(EXIT_CODE_INDEX_ERROR);
        }
        self.push_entry(Op::Gate(gate), copy_u32s(qubits), Vec::new(), copy_u64s(params));
        qk_to_qiskit_error(EXIT_CODE_SUCCESS)
    }

    /// Records a double-CNOT operation on `qubit1` and `qubit2`.
    pub fn dcx(&mut self, qubit1: u32, qubit2: u32) -> (r: QiskitError)
        ensures
            gate_applied(
                old(self)@,
                final(self)@,
                r,
                Gate::DCX,
                seq![qubit1, qubit2],
                Seq::<u64>::empty(),
            ),
    {
        let qs: [u32; 2] = [qubit1, qubit2];
        let ps: [u64; 0] = [];
        let ret = self.gate(Gate::DCX, qs.as_slice(), ps.as_slice());
        proof {
            assert(qs@ =~= seq![qubit1, qubit2]);
            assert(ps@ =~= Seq::<u64>::empty());
        }
        ret
    }

    /// Records an echoed cross-resonance operation on `qubit1` and
    /// `qubit2`.
    pub fn ecr(&mut self, qubit1: u32, qubit2: u32) -> (r: QiskitError)
        ensures
            gate_applied(
                old(self)@,
                final(self)@,
                r,
                Gate::ECR,
                seq![qubit1, qubit2],
                Seq::<u64>::empty(),
            ),
    {
        let qs: [u32; 2] = [qubit1, qubit2];
        let ps: [u64; 0] = [];
        let ret = self.gate(Gate::ECR, qs.as_slice(), ps.as_slice());
        proof {
            assert(qs@ =~= seq![qubit1, qubit2]);
            assert(ps@ =~= Seq::<u64>::empty());
        }
        ret
    }

    /// Records a Hadamard operation on `qubit`.
    pub fn h(&mut self, qubit: u32) -> (r: QiskitError)
        ensures
            gate_applied(old(self)@, final(self)@, r, Gate::H, seq![qubit], Seq::<u64>::empty()),
    {
        let qs: [u32; 1] = [qubit];
        let ps: [u64; 0] = [];
        let ret = self.gate(Gate::H, qs.as_slice(), ps.as_slice());
        proof {
            assert(qs@ =~= seq![qubit]);
            assert(ps@ =~= Seq::<u64>::empty());
        }
        ret
    }

    /// Records an identity operation on `qubit`.
    pub fn id(&mut self, qubit: u32) -> (r: QiskitError)
        ensures
            gate_applied(old(self)@, final(self)@, r, Gate::I, seq![qubit], Seq::<u64>::empty()),
    {
        let qs: [u32; 1] = [qubit];
        let ps: [u64; 0] = [];
        let ret = self.gate(Gate::I, qs.as_slice(), ps.as_slice());
        proof {
            assert(qs@ =~= seq![qubit]);
            assert(ps@ =~= Seq::<u64>::empty());
        }
        ret
    }

    /// Records an imaginary swap operation on `qubit1` and `qubit2`.
    pub fn iswap(&mut self, qubit1: u32, qubit2: u32) -> (r: QiskitError)
        ensures
            gate_applied(
                old(self)@,
                final(self)@,
                r,
                Gate::ISwap,
                seq![qubit1, qubit2],
                Seq::<u64>::empty(),
            ),
    {
        let qs: [u32; 2] = [qubit1, qubit2];
        let ps: [u64; 0] = [];
        let ret = self.gate(Gate::ISwap, qs.as_slice(), ps.as_slice());
        proof {
            assert(qs@ =~= seq![qubit1, qubit2]);
            assert(ps@ =~= Seq::<u64>::empty());
        }
        ret
    }

    /// Records a phase operation on `qubit` by the angle whose IEEE 754
    /// double bit pattern is `theta`.
    pub fn p(&mut self, theta: u64, qubit: u32) -> (r: QiskitError)
        ensures
            gate_applied(old(self)@, final(self)@, r, Gate::Phase, seq![qubit], seq![theta]),
    {
        let qs: [u32; 1] = [qubit];
        let ps: [u64; 1] = [theta];
        let ret = self.gate(Gate::Phase, qs.as_slice(), ps.as_slice());
        proof {
            assert(qs@ =~= seq![qubit]);
            assert(ps@ =~= seq![theta]);
        }
        ret
    }

    /// Records a rotation of `qubit` about an axis in the x-y plane; the
    /// two angles are given as IEEE 754 double bit patterns.
    pub fn r(&mut self, theta: u64, phi: u64, qubit: u32) -> (r: QiskitError)
        ensures
            gate_applied(old(self)@, final(self)@, r, Gate::R, seq![qubit], seq![theta, phi]),
    {
        let qs: [u32; 1] = [qubit];
        let ps: [u64; 2] = [theta, phi];
        let ret = self.gate(Gate::R, qs.as_slice(), ps.as_slice());
        proof {
            assert(qs@ =~= seq![qubit]);
            assert(ps@ =~= seq![theta, phi]);
        }
        ret
    }

    /// Records a simplified three-controlled X operation with controls
    /// `control_qubit1`, `control_qubit2` and `control_qubit3` and
    /// target `target_qubit`.
    pub fn rcccx(
        &mut self,
        control_qubit1: u32,
        control_qubit2: u32,
        control_qubit3: u32,
        target_qubit: u32,
    ) -> (r: QiskitError)
        ensures
            gate_applied(
                old(self)@,
                final(self)@,
                r,
                Gate::RC3X,
                seq![control_qubit1, control_qubit2, control_qubit3, target_qubit],
                Seq::<u64>::empty(),
            ),
    {
        let qs: [u32; 4] = [control_qubit1, control_qubit2, control_qubit3, target_qubit];
        let ps: [u64; 0] = [];
        let ret = self.gate(Gate::RC3X, qs.as_slice(), ps.as_slice());
        proof {
            assert(qs@ =~= seq![control_qubit1, control_qubit2, control_qubit3, target_qubit]);
            assert(ps@ =~= Seq::<u64>::empty());
        }
        ret
    }

    /// Records a simplified two-controlled X operation with controls
    /// `control_qubit1` and `control_qubit2` and target `target_qubit`.
    pub fn rccx(
        &mut self,
        control_qubit1: u32,
        control_qubit2: u32,
        target_qubit: u32,
    ) -> (r: QiskitError)
        ensures
            gate_applied(
                old(self)@,
                final(self)@,
                r,
                Gate::RCCX,
                seq![control_qubit1, control_qubit2, target_qubit],
                Seq::<u64>::empty(),
            ),
    {
        let qs: [u32; 3] = [control_qubit1, control_qubit2, target_qubit];
        let ps: [u64; 0] = [];
        let ret = self.gate(Gate::RCCX, qs.as_slice(), ps.as_slice());
        proof {
            assert(qs@ =~= seq![control_qubit1, control_qubit2, target_qubit]);
            assert(ps@ =~= Seq::<u64>::empty());
        }
        ret
    }

    /// Records a rotation about the x axis on `qubit` by the angle whose
    /// IEEE 754 double bit pattern is `theta`.
    pub fn rx(&mut self, theta: u64, qubit: u32) -> (r: QiskitError)
        ensures
            gate_applied(old(self)@, final(self)@, r, Gate::RX, seq![qubit], seq![theta]),
    {
        let qs: [u32; 1] = [qubit];
        let ps: [u64; 1] = [theta];
        let ret = self.gate(Gate::RX, qs.as_slice(), ps.as_slice());
        proof {
            assert(qs@ =~= seq![qubit]);
            assert(ps@ =~= seq![theta]);
        }
        ret
    }

    /// Records an x-x interaction on `qubit1` and `qubit2` by the angle
    /// whose IEEE 754 double bit pattern is `theta`.
    pub fn rxx(&mut self, theta: u64, qubit1: u32, qubit2: u32) -> (r: QiskitError)
        ensures
            gate_applied(
                old(self)@,
                final(self)@,
                r,
                Gate::RXX,
                seq![qubit1, qubit2],
                seq![theta],
            ),
    {
        let qs: [u32; 2] = [qubit1, qubit2];
        let ps: [u64; 1] = [theta];
        let ret = self.gate(Gate::RXX, qs.as_slice(), ps.as_slice());
        proof {
            assert(qs@ =~= seq![qubit1, qubit2]);
            assert(ps@ =~= seq![theta]);
        }
        ret
    }

    /// Records a rotation about the y axis on `qubit` by the angle whose
    /// IEEE 754 double bit pattern is `theta`.
    pub fn ry(&mut self, theta: u64, qubit: u32) -> (r: QiskitError)
        ensures
            gate_applied(old(self)@, final(self)@, r, Gate::RY, seq![qubit], seq![theta]),
    {
        let qs: [u32; 1] = [qubit];
        let ps: [u64; 1] = [theta];
        let ret = self.gate(Gate::RY, qs.as_slice(), ps.as_slice());
        proof {
            assert(qs@ =~= seq![qubit]);
            assert(ps@ =~= seq![theta]);
        }
        ret
    }

    /// Records a y-y interaction on `qubit1` and `qubit2` by the angle
    /// whose IEEE 754 double bit pattern is `theta`.
    pub fn ryy(&mut self, theta: u64, qubit1: u32, qubit2: u32) -> (r: QiskitError)
        ensures
            gate_applied(
                old(self)@,
                final(self)@,
                r,
                Gate::RYY,
                seq![qubit1, qubit2],
                seq![theta],
            ),
    {
        let qs: [u32; 2] = [qubit1, qubit2];
        let ps: [u64; 1] = [theta];
        let ret = self.gate(Gate::RYY, qs.as_slice(), ps.as_slice());
        proof {
            assert(qs@ =~= seq![qubit1, qubit2]);
            assert(ps@ =~= seq![theta]);
        }
        ret
    }

    /// Records a rotation about the z axis on `qubit` by the angle whose
    /// IEEE 754 double bit pattern is `phi`.
    pub fn rz(&mut self, phi: u64, qubit: u32) -> (r: QiskitError)
        ensures
            gate_applied(old(self)@, final(self)@, r, Gate::RZ, seq![qubit], seq![phi]),
    {
        let qs: [u32; 1] = [qubit];
        let ps: [u64; 1] = [phi];
        let ret = self.gate(Gate::RZ, qs.as_slice(), ps.as_slice());
        proof {
            assert(qs@ =~= seq![qubit]);
            assert(ps@ =~= seq![phi]);
        }
        ret
    }

    /// Records a z-x interaction on `qubit1` and `qubit2` by the angle
    /// whose IEEE 754 double bit pattern is `theta`.
    pub fn rzx(&mut self, theta: u64, qubit1: u32, qubit2: u32) -> (r: QiskitError)
        ensures
            gate_applied(
                old(self)@,
                final(self)@,
                r,
                Gate::RZX,
                seq![qubit1, qubit2],
                seq![theta],
            ),
    {
        let qs: [u32; 2] = [qubit1, qubit2];
        let ps: [u64; 1] = [theta];
        let ret = self.gate(Gate::RZX, qs.as_slice(), ps.as_slice());
        proof {
            assert(qs@ =~= seq![qubit1, qubit2]);
            assert(ps@ =~= seq![theta]);
        }
        ret
    }

    /// Records a z-z interaction on `qubit1` and `qubit2` by the angle
    /// whose IEEE 754 double bit pattern is `theta`.
    pub fn rzz(&mut self, theta: u64, qubit1: u32, qubit2: u32) -> (r: QiskitError)
        ensures
            gate_applied(
                old(self)@,
                final(self)@,
                r,
                Gate::RZZ,
                seq![qubit1, qubit2],
                seq![theta],
            ),
    {
        let qs: [u32; 2] = [qubit1, qubit2];
        let ps: [u64; 1] = [theta];
        let ret = self.gate(Gate::RZZ, qs.as_slice(), ps.as_slice());
        proof {
            assert(qs@ =~= seq![qubit1, qubit2]);
            assert(ps@ =~= seq![theta]);
        }
        ret
    }

    /// Records an S operation on `qubit`.
    pub fn s(&mut self, qubit: u32) -> (r: QiskitError)
        ensures
            gate_applied(old(self)@, final(self)@, r, Gate::S, seq![qubit], Seq::<u64>::empty()),
    {
        let qs: [u32; 1] = [qubit];
        let ps: [u64; 0] = [];
        let ret = self.gate(Gate::S, qs.as_slice(), ps.as_slice());
        proof {
            assert(qs@ =~= seq![qubit]);
            assert(ps@ =~= Seq::<u64>::empty());
        }
        ret
    }

    /// Records an inverse S operation on `qubit`.
    pub fn sdg(&mut self, qubit: u32) -> (r: QiskitError)
        ensures
            gate_applied(old(self)@, final(self)@, r, Gate::Sdg, seq![qubit], Seq::<u64>::empty()),
    {
        let qs: [u32; 1] = [qubit];
        let ps: [u64; 0] = [];
        let ret = self.gate(Gate::Sdg, qs.as_slice(), ps.as_slice());
        proof {
            assert(qs@ =~= seq![qubit]);
            assert(ps@ =~= Seq::<u64>::empty());
        }
        ret
    }

    /// Records a square root of X operation on `qubit`.
    pub fn sx(&mut self, qubit: u32) -> (r: QiskitError)
        ensures
            gate_applied(old(self)@, final(self)@, r, Gate::SX, seq![qubit], Seq::<u64>::empty()),
    {
        let qs: [u32; 1] = [qubit];
        let ps: [u64; 0] = [];
        let ret = self.gate(Gate::SX, qs.as_slice(), ps.as_slice());
        proof {
            assert(qs@ =~= seq![qubit]);
            assert(ps@ =~= Seq::<u64>::empty());
        }
        ret
    }

    /// Records an inverse square root of X operation on `qubit`.
    pub fn sxdg(&mut self, qubit: u32) -> (r: QiskitError)
        ensures
            gate_applied(
                old(self)@,
                final(self)@,
                r,
                Gate::SXdg,
                seq![qubit],
                Seq::<u64>::empty(),
            ),
    {
        let qs: [u32; 1] = [qubit];
        let ps: [u64; 0] = [];
        let ret = self.gate(Gate::SXdg, qs.as_slice(), ps.as_slice());
        proof {
            assert(qs@ =~= seq![qubit]);
            assert(ps@ =~= Seq::<u64>::empty());
        }
        ret
    }

    /// Records a T operation on `qubit`.
    pub fn t(&mut self, qubit: u32) -> (r: QiskitError)
        ensures
            gate_applied(old(self)@, final(self)@, r, Gate::T, seq![qubit], Seq::<u64>::empty()),
    {
        let qs: [u32; 1] = [qubit];
        let ps: [u64; 0] = [];
        let ret = self.gate(Gate::T, qs.as_slice(), ps.as_slice());
        proof {
            assert(qs@ =~= seq![qubit]);
            assert(ps@ =~= Seq::<u64>::empty());
        }
        ret
    }

    /// Records an inverse T operation on `qubit`.
    pub fn tdg(&mut self, qubit: u32) -> (r: QiskitError)
        ensures
            gate_applied(old(self)@, final(self)@, r, Gate::Tdg, seq![qubit], Seq::<u64>::empty()),
    {
        let qs: [u32; 1] = [qubit];
        let ps: [u64; 0] = [];
        let ret = self.gate(Gate::Tdg, qs.as_slice(), ps.as_slice());
        proof {
            assert(qs@ =~= seq![qubit]);
            assert(ps@ =~= Seq::<u64>::empty());
        }
        ret
    }

    /// Records a generic one-qubit operation on `qubit`; the three
    /// angles are given as IEEE 754 double bit patterns.
    pub fn u(&mut self, theta: u64, phi: u64, lam: u64, qubit: u32) -> (r: QiskitError)
        ensures
            gate_applied(
                old(self)@,
                final(self)@,
                r,
                Gate::U,
                seq![qubit],
                seq![theta, phi, lam],
            ),
    {
        let qs: [u32; 1] = [qubit];
        let ps: [u64; 3] = [theta, phi, lam];
        let ret = self.gate(Gate::U, qs.as_slice(), ps.as_slice());
        proof {
            assert(qs@ =~= seq![qubit]);
            assert(ps@ =~= seq![theta, phi, lam]);
        }
        ret
    }

    /// Records an X operation on `qubit`.
    pub fn x(&mut self, qubit: u32) -> (r: QiskitError)
        ensures
            gate_applied(old(self)@, final(self)@, r, Gate::X, seq![qubit], Seq::<u64>::empty()),
    {
        let qs: [u32; 1] = [qubit];
        let ps: [u64; 0] = [];
        let ret = self.gate(Gate::X, qs.as_slice(), ps.as_slice());
        proof {
            assert(qs@ =~= seq![qubit]);
            assert(ps@ =~= Seq::<u64>::empty());
        }
        ret
    }

    /// Records a Y operation on `qubit`.
    pub fn y(&mut self, qubit: u32) -> (r: QiskitError)
        ensures
            gate_applied(old(self)@, final(self)@, r, Gate::Y, seq![qubit], Seq::<u64>::empty()),
    {
        let qs: [u32; 1] = [qubit];
        let ps: [u64; 0] = [];
        let ret = self.gate(Gate::Y, qs.as_slice(), ps.as_slice());
        proof {
            assert(qs@ =~= seq![qubit]);
            assert(ps@ =~= Seq::<u64>::empty());
        }
        ret
    }

    /// Records a Z operation on `qubit`.
    pub fn z(&mut self, qubit: u32) -> (r: QiskitError)
        ensures
            gate_applied(old(self)@, final(self)@, r, Gate::Z, seq![qubit], Seq::<u64>::empty()),
    {
        let qs: [u32; 1] = [qubit];
        let ps: [u64; 0] = [];
        let ret = self.gate(Gate::Z, qs.as_slice(), ps.as_slice());
        proof {
            assert(qs@ =~= seq![qubit]);
            assert(ps@ =~= Seq::<u64>::empty());
        }
        ret
    }

    /// Records a controlled X operation with control `control_qubit` and
    /// target `target_qubit`.
    pub fn cx(&mut self, control_qubit: u32, target_qubit: u32) -> (r: QiskitError)
        ensures
            gate_applied(
                old(self)@,
                final(self)@,
                r,
                Gate::CX,
                seq![control_qubit, target_qubit],
                Seq::<u64>::empty(),
            ),
    {
        let qs: [u32; 2] = [control_qubit, target_qubit];
        let ps: [u64; 0] = [];
        let ret = self.gate(Gate::CX, qs.as_slice(), ps.as_slice());
        proof {
            assert(qs@ =~= seq![control_qubit, target_qubit]);
            assert(ps@ =~= Seq::<u64>::empty());
        }
        ret
    }

    /// Records a measurement binding quantum position `qubit` to
    /// classical position `clbit`.  Both positions must fall inside the
    /// circuit; an out-of-range position is answered as `IndexError` and
    /// leaves the log untouched.
    pub fn measure(&mut self, qubit: u32, clbit: u32) -> (r: QiskitError)
        ensures
            measure_applied(old(self)@, final(self)@, r, qubit, clbit),
    {
        if qubit < self.num_qubits && clbit < self.num_clbits {
            let mut qs: Vec<u32> = Vec::new();
            qs.push(qubit);
            let mut cs: Vec<u32> = Vec::new();
            cs.push(clbit);
            self.push_entry(Op::Measure, qs, cs, Vec::new());
            proof {
                assert(final(self)@ =~~= old(self)@.with_entry(measure_entry(qubit, clbit)));
            }
            qk_to_qiskit_error(EXIT_CODE_SUCCESS)
        } else {
            qk_to_qiskit_error(EXIT_CODE_INDEX_ERROR)
        }
    }

    /// Takes ownership of a quantum register.  The register is consumed:
    /// from here on the circuit owns its lifetime, so it can neither be
    /// attached a second time nor released independently.  The circuit's
    /// dimensions and operation log are untouched.
    pub fn add_quantum_register(&mut self, register: QuantumRegister)
        ensures
            final(self)@ == old(self)@.with_quantum_register(register@),
    {
        let ghost rm = register@;
        let ghost pre = self@;
        self.qregs.push(register);
        proof {
            assert(self@ =~~= pre.with_quantum_register(rm));
        }
    }

    /// Takes ownership of a classical register.  The register is
    /// consumed: from here on the circuit owns its lifetime, so it can
    /// neither be attached a second time nor released independently.
    /// The circuit's dimensions and operation log are untouched.
    pub fn add_classical_register(&mut self, register: ClassicalRegister)
        ensures
            final(self)@ == old(self)@.with_classical_register(register@),
    {
        let ghost rm = register@;
        let ghost pre = self@;
        self.cregs.push(register);
        proof {
            assert(self@ =~~= pre.with_classical_register(rm));
        }
    }

    /// A full, independent copy of this circuit: equal to it in the
    /// model, but backed by storage of its own, so operations applied to
    /// the copy never show through on the original (and the other way
    /// round).
    pub fn copy(&mut self) -> (r: QuantumCircuit)
        ensures
            *final(self) == *old(self),
            r@ == old(self)@,
    {
        let mut instructions: Vec<Instruction> = Vec::new();
        let mut i: usize = 0;
        while i < self.instructions.len()
            invariant
                i <= self.instructions@.len(),
                instructions@.len() == i,
                forall|j: int| 0 <= j < i ==> instructions@[j]@ == self.instructions@[j]@,
            decreases self.instructions@.len() - i,
        {
            instructions.push(self.instructions[i].duplicate());
            i = i + 1;
        }
        let mut qregs: Vec<QuantumRegister> = Vec::new();
        let mut q: usize = 0;
        while q < self.qregs.len()
            invariant
                q <= self.qregs@.len(),
                qregs@.len() == q,
                forall|j: int| 0 <= j < q ==> qregs@[j]@ == self.qregs@[j]@,
            decreases self.qregs@.len() - q,
        {
            qregs.push(self.qregs[q].duplicate());
            q = q + 1;
        }
        let mut cregs: Vec<ClassicalRegister> = Vec::new();
        let mut c: usize = 0;
        while c < self.cregs.len()
            invariant
                c <= self.cregs@.len(),
                cregs@.len() == c,
                forall|j: int| 0 <= j < c ==> cregs@[j]@ == self.cregs@[j]@,
            decreases self.cregs@.len() - c,
        {
            cregs.push(self.cregs[c].duplicate());
            c = c + 1;
        }
        let r = QuantumCircuit {
            num_qubits: self.num_qubits,
            num_clbits: self.num_clbits,
            instructions,
            qregs,
            cregs,
        };
        assert(r@ =~~= self@);
        r
    }

    /// The number of entries currently in the operation log.
    pub fn num_instructions(&self) -> (n: usize)
        ensures
            n == self@.instructions.len(),
    {
        self.instructions.len()
    }

    /// A forward-only pass over the recorded operations, yielding for
    /// each log position a borrowed, read-only view.  The pass covers
    /// the positions `[0, num_instructions)` as counted when it begins,
    /// in application order.
    pub fn instructions(&self) -> (it: CircuitInstructions<'_>)
        ensures
            it.wf(),
            it.source() == self@,
            it.pos() == 0,
    {
        let num_inst = self.num_instructions();
        CircuitInstructions { len: num_inst, index: 0, circuit: self }
    }
}

/// A forward-only, non-restartable pass over a circuit's recorded
/// operations.
///
/// Each step yields a [`CircuitInstruction`] view borrowing the
/// circuit's own storage; after the last recorded position the pass
/// yields nothing, never an error.
pub struct CircuitInstructions<'a> {
    len: usize,
    index: usize,
    circuit: &'a QuantumCircuit,
}

impl<'a> CircuitInstructions<'a> {
    /// The circuit this pass reads.
    pub closed spec fn source(self) -> CircuitModel {
        self.circuit@
    }

    /// The next log position the pass will yield.
    pub closed spec fn pos(self) -> int {
        self.index as int
    }

    /// The pass was produced by [`QuantumCircuit::instructions`] and has
    /// only stepped forward since: its captured length is the circuit's
    /// instruction count and its position has not run past the end.
    pub closed spec fn wf(self) -> bool {
        &&& self.len == self.circuit@.instructions.len()
        &&& self.index <= self.len
    }

    /// How many recorded operations the pass has still to yield.
    pub fn len(&self) -> (n: usize)
        requires
            self.wf(),
        ensures
            n == self.source().instructions.len() - self.pos(),
    {
        self.len - self.index
    }

    /// Yields the view of the operation at the current position and
    /// steps forward, or yields nothing once every recorded position
    /// has been passed.  The views come in application order: the
    /// `pos()`-th call yields exactly the `pos()`-th log entry.
    pub fn next(&mut self) -> (r: Option<CircuitInstruction<'a>>)
        requires
            old(self).wf(),
        ensures
            final(self).wf(),
            final(self).source() == old(self).source(),
            old(self).pos() < old(self).source().instructions.len() ==> {
                &&& final(self).pos() == old(self).pos() + 1
                &&& r matches Some(inst) && inst@ == old(self).source().instructions[old(
                    self,
                ).pos()]
            },
            old(self).pos() >= old(self).source().instructions.len() ==> {
                &&& final(self).pos() == old(self).pos()
                &&& r is None
            },
    {
        if self.index >= self.len {
            return None;
        }
        let circuit: &'a QuantumCircuit = self.circuit;
        let inst = &circuit.instructions[self.index];
        let out = CircuitInstruction {
            name: inst.op.name_str(),
            qubits: inst.qubits.as_slice(),
            clbits: inst.clbits.as_slice(),
            params: inst.params.as_slice(),
        };
        proof {
            crate::instruction::lemma_instruction_view(*inst);
            assert(out@ =~= self.circuit@.instructions[self.index as int]);
        }
        self.index = self.index + 1;
        Some(out)
    }
}

/// Recording any named operation whose operand list has the operation's
/// arity, whose parameter list has its parameter count, and whose
/// operands all fall inside the circuit succeeds: the reported result is
/// `Success`, exactly one entry is appended to the log, that entry is
/// that operation's own, and everything already recorded keeps its place.
pub proof fn lemma_valid_gate_appends(
    pre: CircuitModel,
    post: CircuitModel,
    r: QiskitError,
    g: Gate,
    qubits: Seq<u32>,
    params: Seq<u64>,
)
    requires
        gate_applied(pre, post, r, g, qubits, params),
        qubits.len() == gate_qubit_count(g),
        params.len() == gate_param_count(g),
        qubits_in_range(pre.num_qubits, qubits),
    ensures
        r == QiskitError::Success,
        post.instructions.len() == pre.instructions.len() + 1,
        post.instructions.last() == gate_entry(g, qubits, params),
        post.instructions.subrange(0, pre.instructions.len() as int) == pre.instructions,
        post.num_qubits == pre.num_qubits,
        post.num_clbits == pre.num_clbits,
{
    assert(post.instructions.subrange(0, pre.instructions.len() as int) =~= pre.instructions);
}

/// Recording keeps application order: a new entry goes to the end of
/// the log, every entry already recorded keeps its position, and so the
/// pass of [`QuantumCircuit::instructions`] — which yields position `i`
/// at step `i` — replays operations exactly in the order they were
/// applied.
pub proof fn lemma_recording_keeps_order(c: CircuitModel, entry: InstructionModel, i: int)
    requires
        0 <= i < c.instructions.len(),
    ensures
        c.with_entry(entry).instructions.len() == c.instructions.len() + 1,
        c.with_entry(entry).instructions[i] == c.instructions[i],
        c.with_entry(entry).instructions.last() == entry,
{
}

/// Recording an operation whose operand list does not have its kind's
/// arity fails: the reported result is the input-validation error, not
/// `Success`, and the circuit — its log included — is exactly what it
/// was.
pub proof fn lemma_operand_count_mismatch_rejected(
    pre: CircuitModel,
    post: CircuitModel,
    r: QiskitError,
    g: Gate,
    qubits: Seq<u32>,
    params: Seq<u64>,
)
    requires
        gate_applied(pre, post, r, g, qubits, params),
        qubits.len() != gate_qubit_count(g),
    ensures
        r == QiskitError::CInputError,
        r != QiskitError::Success,
        post == pre,
{
}

} // verus!
