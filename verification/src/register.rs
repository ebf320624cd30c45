use vstd::prelude::*;

verus! {

/// What a register is: a contiguous block of positions of a given size,
/// under a human-readable label.
#[verifier::ext_equal]
pub struct RegisterModel {
    /// How many positions the register names.
    pub size: u32,
    /// The register's label.
    pub name: Seq<char>,
}

/// An exclusively owned block of quantum positions with a label.
///
/// A register is created on its own and is consumed when it is attached
/// to a circuit; from then on the circuit owns its lifetime, and the
/// move makes a second attachment or an independent release impossible.
pub struct QuantumRegister {
    size: u32,
    name: String,
}

impl View for QuantumRegister {
    type V = RegisterModel;

    closed spec fn view(&self) -> RegisterModel {
        RegisterModel { size: self.size, name: self.name@ }
    }
}

impl QuantumRegister {
    /// Creates a register of `num_qubits` quantum positions labelled
    /// `name`.
    ///
    /// The label later crosses into null-terminated storage, so a label
    /// with an embedded null byte is a programmer error and is ruled
    /// out up front rather than handled at run time.
    pub fn new(num_qubits: u32, name: &str) -> (r: QuantumRegister)
        requires
            forall|i: int| 0 <= i < name@.len() ==> name@[i] != '\0',
        ensures
            r@ == (RegisterModel { size: num_qubits, name: name@ }),
    {
        let r = QuantumRegister { size: num_qubits, name: name.to_owned() };
        assert(r@ =~= (RegisterModel { size: num_qubits, name: name@ }));
        r
    }
}

/// An exclusively owned block of classical positions with a label.
///
/// A register is created on its own and is consumed when it is attached
/// to a circuit; from then on the circuit owns its lifetime, and the
/// move makes a second attachment or an independent release impossible.
pub struct ClassicalRegister {
    size: u32,
    name: String,
}

impl View for ClassicalRegister {
    type V = RegisterModel;

    closed spec fn view(&self) -> RegisterModel {
        RegisterModel { size: self.size, name: self.name@ }
    }
}

impl ClassicalRegister {
    /// Creates a register of `num_clbits` classical positions labelled
    /// `name`.
    ///
    /// The label later crosses into null-terminated storage, so a label
    /// with an embedded null byte is a programmer error and is ruled
    /// out up front rather than handled at run time.
    pub fn new(num_clbits: u32, name: &str) -> (r: ClassicalRegister)
        requires
            forall|i: int| 0 <= i < name@.len() ==> name@[i] != '\0',
        ensures
            r@ == (RegisterModel { size: num_clbits, name: name@ }),
    {
        let r = ClassicalRegister { size: num_clbits, name: name.to_owned() };
        assert(r@ =~= (RegisterModel { size: num_clbits, name: name@ }));
        r
    }
}

impl QuantumRegister {
    /// An independent copy of this register, equal to it in the model.
    pub(crate) fn duplicate(&self) -> (r: QuantumRegister)
        ensures
            r@ == self@,
    {
        let r = QuantumRegister { size: self.size, name: self.name.as_str().to_owned() };
        assert(r@ =~= self@);
        r
    }
}

impl ClassicalRegister {
    /// An independent copy of this register, equal to it in the model.
    pub(crate) fn duplicate(&self) -> (r: ClassicalRegister)
        ensures
            r@ == self@,
    {
        let r = ClassicalRegister { size: self.size, name: self.name.as_str().to_owned() };
        assert(r@ =~= self@);
        r
    }
}

} // verus!
