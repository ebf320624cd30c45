use vstd::prelude::*;

use crate::gate::gate_name;
use crate::gate::Gate;

verus! {

/// What a single recorded operation is: its reported name, its qubit
/// operands, its classical-bit operands, and its continuous parameters
/// (each given by the bit pattern of an IEEE 754 double).
#[verifier::ext_equal]
pub struct InstructionModel {
    /// The name under which the operation is reported.
    pub name: Seq<char>,
    /// The ordered qubit operands.
    pub qubits: Seq<u32>,
    /// The ordered classical-bit operands.
    pub clbits: Seq<u32>,
    /// The ordered continuous parameters, as IEEE 754 double bit patterns.
    pub params: Seq<u64>,
}

/// A recorded operation: either a named gate or a measurement.
#[derive(Clone, Copy, PartialEq, Eq, Debug)]
pub(crate) enum Op {
    /// A named gate operation.
    Gate(Gate),
    /// A measurement binding a qubit to a classical bit.
    Measure,
}

/// The name under which a recorded operation is reported.
pub(crate) open spec fn op_name(op: Op) -> Seq<char> {
    match op {
        Op::Gate(g) => gate_name(g),
        Op::Measure => "measure"@,
    }
}

/// One entry of a circuit's operation log.
pub(crate) struct Instruction {
    pub(crate) op: Op,
    pub(crate) qubits: Vec<u32>,
    pub(crate) clbits: Vec<u32>,
    pub(crate) params: Vec<u64>,
}

impl View for Instruction {
    type V = InstructionModel;

    closed spec fn view(&self) -> InstructionModel {
        InstructionModel {
            name: op_name(self.op),
            qubits: self.qubits@,
            clbits: self.clbits@,
            params: self.params@,
        }
    }
}

/// What a log entry's model is, field for field.
pub(crate) proof fn lemma_instruction_view(inst: Instruction)
    ensures
        inst@ == (InstructionModel {
            name: op_name(inst.op),
            qubits: inst.qubits@,
            clbits: inst.clbits@,
            params: inst.params@,
        }),
{
}

impl Op {
    /// The name under which this recorded operation is reported.
    pub(crate) fn name_str(self) -> (s: &'static str)
        ensures
            s@ == op_name(self),
    {
        match self {
            Op::Gate(g) => g.name(),
            Op::Measure => "measure",
        }
    }
}

impl Instruction {
    /// An independent copy of this log entry, equal to it in the model.
    pub(crate) fn duplicate(&self) -> (r: Instruction)
        ensures
            r@ == self@,
    {
        let r = Instruction {
            op: self.op,
            qubits: copy_u32s(self.qubits.as_slice()),
            clbits: copy_u32s(self.clbits.as_slice()),
            params: copy_u64s(self.params.as_slice()),
        };
        assert(r@ =~= self@);
        r
    }
}

/// An element-for-element copy of a `u32` slice.
pub(crate) fn copy_u32s(src: &[u32]) -> (r: Vec<u32>)
    ensures
        r@ == src@,
{
    let mut r: Vec<u32> = Vec::new();
    let mut i: usize = 0;
    while i < src.len()
        invariant
            i <= src@.len(),
            r@ =~= src@.subrange(0, i as int),
        decreases src@.len() - i,
    {
        r.push(src[i]);
        i = i + 1;
    }
    assert(r@ =~= src@);
    r
}

/// An element-for-element copy of a `u64` slice.
pub(crate) fn copy_u64s(src: &[u64]) -> (r: Vec<u64>)
    ensures
        r@ == src@,
{
    let mut r: Vec<u64> = Vec::new();
    let mut i: usize = 0;
    while i < src.len()
        invariant
            i <= src@.len(),
            r@ =~= src@.subrange(0, i as int),
        decreases src@.len() - i,
    {
        r.push(src[i]);
        i = i + 1;
    }
    assert(r@ =~= src@);
    r
}

/// A read-only view of one recorded operation.
///
/// The operand and parameter slices borrow the storage of the circuit
/// the view was produced from; the view can only live while that
/// circuit does, and letting it go never touches the circuit itself.
#[derive(Debug)]
pub struct CircuitInstruction<'a> {
    /// The name of the operation for the instruction.
    pub name: &'a str,
    /// The qubits the instruction acts upon.
    pub qubits: &'a [u32],
    /// The clbits the instruction acts upon.
    pub clbits: &'a [u32],
    /// The parameters for the instruction, as IEEE 754 double bit patterns.
    pub params: &'a [u64],
}

impl<'a> View for CircuitInstruction<'a> {
    type V = InstructionModel;

    open spec fn view(&self) -> InstructionModel {
        InstructionModel {
            name: self.name@,
            qubits: self.qubits@,
            clbits: self.clbits@,
            params: self.params@,
        }
    }
}

} // verus!
