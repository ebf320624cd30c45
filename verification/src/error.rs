use vstd::prelude::*;

verus! {

/// Exit code reported by the engine when a call succeeds.
pub const EXIT_CODE_SUCCESS: u32 = 0;
/// Exit code for a rejected input (for example, a mismatched operand count).
pub const EXIT_CODE_C_INPUT_ERROR: u32 = 1;
/// Exit code for an unexpected null pointer.
pub const EXIT_CODE_NULL_POINTER_ERROR: u32 = 2;
/// Exit code for a misaligned pointer.
pub const EXIT_CODE_ALIGNMENT_ERROR: u32 = 3;
/// Exit code for an index outside the valid range.
pub const EXIT_CODE_INDEX_ERROR: u32 = 4;
/// Exit code for an arithmetic failure.
pub const EXIT_CODE_ARITHMETIC_ERROR: u32 = 5;
/// Exit code for an operation whose qubit count does not match its target.
pub const EXIT_CODE_MISMATCHED_QUBITS: u32 = 6;
/// Exit code for a matrix that was expected to be unitary but is not.
pub const EXIT_CODE_EXPECTED_UNITARY: u32 = 7;
/// Exit code for a general target error.
pub const EXIT_CODE_TARGET_ERROR: u32 = 8;
/// Exit code for registering an instruction that already exists on a target.
pub const EXIT_CODE_TARGET_INST_ALREADY_EXISTS: u32 = 9;
/// Exit code for a qarg mismatch on a target.
pub const EXIT_CODE_TARGET_QARG_MISMATCH: u32 = 10;
/// Exit code for an invalid qargs key on a target.
pub const EXIT_CODE_TARGET_INVALID_QARGS_KEY: u32 = 11;
/// Exit code for an invalid instruction key on a target.
pub const EXIT_CODE_TARGET_INVALID_INST_KEY: u32 = 12;

/// The structured error taxonomy.
///
/// Each known engine exit code maps to exactly one discriminant;
/// `Success` is itself a member of the taxonomy, not an absence of error.
/// Any exit code outside the known set maps to the catch-all `Unrecognized`
/// discriminant, which keeps the translation total when the engine's
/// code space grows.
#[derive(PartialEq, Eq, Debug)]
pub enum QiskitError {
    /// The call succeeded.
    Success,
    /// The engine rejected an input, for example a mismatched operand count.
    CInputError,
    /// The engine saw an unexpected null pointer.
    NullPointerError,
    /// The engine saw a misaligned pointer.
    AlignmentError,
    /// An index was outside the valid range.
    IndexError,
    /// An arithmetic step failed.
    ArithmeticError,
    /// An operation's qubit count did not match its target.
    MismatchedQubits,
    /// A matrix that was expected to be unitary is not.
    ExpectedUnitary,
    /// A general target error.
    TargetError,
    /// An instruction was already registered on a target.
    TargetInstAlreadyExists,
    /// A qarg mismatch on a target.
    TargetQargMismatch,
    /// An invalid qargs key on a target.
    TargetInvalidQargsKey,
    /// An invalid instruction key on a target.
    TargetInvalidInstKey,
    /// Catch-all for an exit code outside the known set.
    Unrecognized,
}

/// What each exit code translates to: one discriminant per known code,
/// and the catch-all `Unrecognized` for everything else.
pub open spec fn error_of_exit_code(code: u32) -> QiskitError {
    if code == EXIT_CODE_SUCCESS {
        QiskitError::Success
    } else if code == EXIT_CODE_C_INPUT_ERROR {
        QiskitError::CInputError
    } else if code == EXIT_CODE_NULL_POINTER_ERROR {
        QiskitError::NullPointerError
    } else if code == EXIT_CODE_ALIGNMENT_ERROR {
        QiskitError::AlignmentError
    } else if code == EXIT_CODE_INDEX_ERROR {
        QiskitError::IndexError
    } else if code == EXIT_CODE_ARITHMETIC_ERROR {
        QiskitError::ArithmeticError
    } else if code == EXIT_CODE_MISMATCHED_QUBITS {
        QiskitError::MismatchedQubits
    } else if code == EXIT_CODE_EXPECTED_UNITARY {
        QiskitError::ExpectedUnitary
    } else if code == EXIT_CODE_TARGET_ERROR {
        QiskitError::TargetError
    } else if code == EXIT_CODE_TARGET_INST_ALREADY_EXISTS {
        QiskitError::TargetInstAlreadyExists
    } else if code == EXIT_CODE_TARGET_QARG_MISMATCH {
        QiskitError::TargetQargMismatch
    } else if code == EXIT_CODE_TARGET_INVALID_QARGS_KEY {
        QiskitError::TargetInvalidQargsKey
    } else if code == EXIT_CODE_TARGET_INVALID_INST_KEY {
        QiskitError::TargetInvalidInstKey
    } else {
        QiskitError::Unrecognized
    }
}

/// Translates an engine exit code into the structured taxonomy.
///
/// The translation is pure and total: every possible code maps to
/// exactly one discriminant, and no two known codes collapse into the
/// same discriminant (see [`lemma_known_codes_stay_distinct`]).
pub fn qk_to_qiskit_error(err: u32) -> (r: QiskitError)
    ensures
        r == error_of_exit_code(err),
{
    if err == EXIT_CODE_SUCCESS {
        QiskitError::Success
    } else if err == EXIT_CODE_C_INPUT_ERROR {
        QiskitError::CInputError
    } else if err == EXIT_CODE_NULL_POINTER_ERROR {
        QiskitError::NullPointerError
    } else if err == EXIT_CODE_ALIGNMENT_ERROR {
        QiskitError::AlignmentError
    } else if err == EXIT_CODE_INDEX_ERROR {
        QiskitError::IndexError
    } else if err == EXIT_CODE_ARITHMETIC_ERROR {
        QiskitError::ArithmeticError
    } else if err == EXIT_CODE_MISMATCHED_QUBITS {
        QiskitError::MismatchedQubits
    } else if err == EXIT_CODE_EXPECTED_UNITARY {
        QiskitError::ExpectedUnitary
    } else if err == EXIT_CODE_TARGET_ERROR {
        QiskitError::TargetError
    } else if err == EXIT_CODE_TARGET_INST_ALREADY_EXISTS {
        QiskitError::TargetInstAlreadyExists
    } else if err == EXIT_CODE_TARGET_QARG_MISMATCH {
        QiskitError::TargetQargMismatch
    } else if err == EXIT_CODE_TARGET_INVALID_QARGS_KEY {
        QiskitError::TargetInvalidQargsKey
    } else if err == EXIT_CODE_TARGET_INVALID_INST_KEY {
        QiskitError::TargetInvalidInstKey
    } else {
        QiskitError::Unrecognized
    }
}

/// Translation never loses the distinction between two engine codes:
/// two different codes from the known set translate to two different
/// discriminants.
pub proof fn lemma_known_codes_stay_distinct(a: u32, b: u32)
    requires
        a <= EXIT_CODE_TARGET_INVALID_INST_KEY,
        b <= EXIT_CODE_TARGET_INVALID_INST_KEY,
        a != b,
    ensures
        error_of_exit_code(a) != error_of_exit_code(b),
{
}

/// Every exit code outside the known set lands on the catch-all
/// discriminant, which keeps the translation forward-compatible.
pub proof fn lemma_unknown_code_is_catch_all(code: u32)
    requires
        code > EXIT_CODE_TARGET_INVALID_INST_KEY,
    ensures
        error_of_exit_code(code) == QiskitError::Unrecognized,
{
}

} // verus!
