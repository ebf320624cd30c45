//! A verified quantum-circuit builder.
//!
//! A `QuantumCircuit` owns a fixed number of quantum and classical bit
//! positions together with an ordered log of recorded operations.  Every
//! mutating call is validated and answered through an engine-style exit
//! code, which `qk_to_qiskit_error` translates into the structured
//! `QiskitError` taxonomy.  Previously recorded operations can be
//! replayed as borrowed, read-only instruction views.

mod circuit;
mod error;
mod gate;
mod instruction;
mod register;

pub use circuit::CircuitInstructions;
pub use circuit::CircuitModel;
pub use circuit::QuantumCircuit;
pub use error::qk_to_qiskit_error;
pub use error::QiskitError;
pub use gate::Gate;
pub use instruction::CircuitInstruction;
pub use instruction::InstructionModel;
pub use register::ClassicalRegister;
pub use register::QuantumRegister;
pub use register::RegisterModel;
