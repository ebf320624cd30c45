use vstd::prelude::*;

verus! {

/// The named operation kinds the circuit can record.
///
/// Every kind has a fixed number of qubit operands and a fixed number
/// of continuous parameters; [`gate_num_qubits`] and [`gate_num_params`]
/// report them, and [`Gate::name`] gives the name under which a recorded
/// operation is reported during introspection.
#[derive(Clone, Copy, PartialEq, Eq, Debug)]
pub enum Gate {
    /// Double-CNOT operation on two qubits.
    DCX,
    /// Echoed cross-resonance operation on two qubits.
    ECR,
    /// Hadamard operation on one qubit.
    H,
    /// Identity operation on one qubit.
    I,
    /// Imaginary swap operation on two qubits.
    ISwap,
    /// Phase operation on one qubit, with one angle parameter.
    Phase,
    /// Rotation about an axis in the x-y plane, with two angle parameters.
    R,
    /// Simplified three-controlled X operation on four qubits.
    RC3X,
    /// Simplified two-controlled X operation on three qubits.
    RCCX,
    /// Rotation about the x axis, with one angle parameter.
    RX,
    /// Two-qubit x-x interaction, with one angle parameter.
    RXX,
    /// Rotation about the y axis, with one angle parameter.
    RY,
    /// Two-qubit y-y interaction, with one angle parameter.
    RYY,
    /// Rotation about the z axis, with one angle parameter.
    RZ,
    /// Two-qubit z-x interaction, with one angle parameter.
    RZX,
    /// Two-qubit z-z interaction, with one angle parameter.
    RZZ,
    /// S operation (quarter turn about the z axis) on one qubit.
    S,
    /// Inverse S operation on one qubit.
    Sdg,
    /// Square root of X on one qubit.
    SX,
    /// Inverse square root of X on one qubit.
    SXdg,
    /// T operation (eighth turn about the z axis) on one qubit.
    T,
    /// Inverse T operation on one qubit.
    Tdg,
    /// Generic one-qubit operation, with three angle parameters.
    U,
    /// X operation on one qubit.
    X,
    /// Y operation on one qubit.
    Y,
    /// Z operation on one qubit.
    Z,
    /// Controlled X operation on two qubits.
    CX,
}

/// The fixed number of qubit operands of each operation kind.
pub open spec fn gate_qubit_count(g: Gate) -> nat {
    match g {
        Gate::DCX => 2,
        Gate::ECR => 2,
        Gate::H => 1,
        Gate::I => 1,
        Gate::ISwap => 2,
        Gate::Phase => 1,
        Gate::R => 1,
        Gate::RC3X => 4,
        Gate::RCCX => 3,
        Gate::RX => 1,
        Gate::RXX => 2,
        Gate::RY => 1,
        Gate::RYY => 2,
        Gate::RZ => 1,
        Gate::RZX => 2,
        Gate::RZZ => 2,
        Gate::S => 1,
        Gate::Sdg => 1,
        Gate::SX => 1,
        Gate::SXdg => 1,
        Gate::T => 1,
        Gate::Tdg => 1,
        Gate::U => 1,
        Gate::X => 1,
        Gate::Y => 1,
        Gate::Z => 1,
        Gate::CX => 2,
    }
}

/// The fixed number of continuous parameters of each operation kind.
pub open spec fn gate_param_count(g: Gate) -> nat {
    match g {
        Gate::Phase => 1,
        Gate::R => 2,
        Gate::RX => 1,
        Gate::RXX => 1,
        Gate::RY => 1,
        Gate::RYY => 1,
        Gate::RZ => 1,
        Gate::RZX => 1,
        Gate::RZZ => 1,
        Gate::U => 3,
        _ => 0,
    }
}

/// The name under which each operation kind is reported by introspection.
pub open spec fn gate_name(g: Gate) -> Seq<char> {
    match g {
        Gate::DCX => "dcx"@,
        Gate::ECR => "ecr"@,
        Gate::H => "h"@,
        Gate::I => "id"@,
        Gate::ISwap => "iswap"@,
        Gate::Phase => "p"@,
        Gate::R => "r"@,
        Gate::RC3X => "rcccx"@,
        Gate::RCCX => "rccx"@,
        Gate::RX => "rx"@,
        Gate::RXX => "rxx"@,
        Gate::RY => "ry"@,
        Gate::RYY => "ryy"@,
        Gate::RZ => "rz"@,
        Gate::RZX => "rzx"@,
        Gate::RZZ => "rzz"@,
        Gate::S => "s"@,
        Gate::Sdg => "sdg"@,
        Gate::SX => "sx"@,
        Gate::SXdg => "sxdg"@,
        Gate::T => "t"@,
        Gate::Tdg => "tdg"@,
        Gate::U => "u"@,
        Gate::X => "x"@,
        Gate::Y => "y"@,
        Gate::Z => "z"@,
        Gate::CX => "cx"@,
    }
}

impl Gate {
    /// The fixed number of qubit operands of this operation kind.
    pub fn num_qubits(self) -> (n: usize)
        ensures
            n == gate_qubit_count(self),
    {
        match self {
            Gate::DCX => 2,
            Gate::ECR => 2,
            Gate::H => 1,
            Gate::I => 1,
            Gate::ISwap => 2,
            Gate::Phase => 1,
            Gate::R => 1,
            Gate::RC3X => 4,
            Gate::RCCX => 3,
            Gate::RX => 1,
            Gate::RXX => 2,
            Gate::RY => 1,
            Gate::RYY => 2,
            Gate::RZ => 1,
            Gate::RZX => 2,
            Gate::RZZ => 2,
            Gate::S => 1,
            Gate::Sdg => 1,
            Gate::SX => 1,
            Gate::SXdg => 1,
            Gate::T => 1,
            Gate::Tdg => 1,
            Gate::U => 1,
            Gate::X => 1,
            Gate::Y => 1,
            Gate::Z => 1,
            Gate::CX => 2,
        }
    }

    /// The fixed number of continuous parameters of this operation kind.
    pub fn num_params(self) -> (n: usize)
        ensures
            n == gate_param_count(self),
    {
        match self {
            Gate::Phase => 1,
            Gate::R => 2,
            Gate::RX => 1,
            Gate::RXX => 1,
            Gate::RY => 1,
            Gate::RYY => 1,
            Gate::RZ => 1,
            Gate::RZX => 1,
            Gate::RZZ => 1,
            Gate::U => 3,
            _ => 0,
        }
    }

    /// The name under which this operation kind is reported by introspection.
    pub fn name(self) -> (s: &'static str)
        ensures
            s@ == gate_name(self),
    {
        match self {
            Gate::DCX => "dcx",
            Gate::ECR => "ecr",
            Gate::H => "h",
            Gate::I => "id",
            Gate::ISwap => "iswap",
            Gate::Phase => "p",
            Gate::R => "r",
            Gate::RC3X => "rcccx",
            Gate::RCCX => "rccx",
            Gate::RX => "rx",
            Gate::RXX => "rxx",
            Gate::RY => "ry",
            Gate::RYY => "ryy",
            Gate::RZ => "rz",
            Gate::RZX => "rzx",
            Gate::RZZ => "rzz",
            Gate::S => "s",
            Gate::Sdg => "sdg",
            Gate::SX => "sx",
            Gate::SXdg => "sxdg",
            Gate::T => "t",
            Gate::Tdg => "tdg",
            Gate::U => "u",
            Gate::X => "x",
            Gate::Y => "y",
            Gate::Z => "z",
            Gate::CX => "cx",
        }
    }
}

} // verus!
