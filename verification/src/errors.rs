use vstd::prelude::*;

verus! {

/// The failure kinds this library reports. Each verification or arithmetic
/// step fails fast with one of these, so a dispatcher can map them to
/// protocol-level codes.
#[derive(Debug, Clone, PartialEq, Eq)]
pub enum ContractError {
    /// A hash or decoding step produced output of the wrong size.
    WrongLength,
    /// A claim message could not be put into its canonical serialized form.
    InvalidInput,
    /// The claimant failed a signature or address check; the message says why.
    IsNotEligible { msg: String },
    /// A well-formed merkle proof folded to a digest other than the stored root.
    VerificationMismatch,
    /// A proof entry or the stored root is not valid hex of the expected length.
    MalformedHex,
    /// Division by zero, underflow or overflow in the coefficient update.
    ArithmeticError,
    /// The persistence layer failed; surfaced unchanged by callers that store.
    StorageError,
}

/// True of an outcome that failed the eligibility check, whatever the
/// message says.
pub open spec fn fails_not_eligible<T>(r: Result<T, ContractError>) -> bool {
    r matches Err(ContractError::IsNotEligible { .. })
}

/// True of an outcome that failed the eligibility check with exactly the
/// given message.
pub open spec fn fails_not_eligible_with<T>(r: Result<T, ContractError>, text: Seq<char>) -> bool {
    r matches Err(ContractError::IsNotEligible { msg }) && msg@ == text
}

} // verus!
