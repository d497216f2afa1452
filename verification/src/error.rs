//! The single error taxonomy shared by every operation of the protocol.

use vstd::prelude::*;

verus! {

/// One tagged error per failed call; a failed check aborts the whole
/// operation, so no partial-failure state is ever observable.
#[derive(Clone, Copy, Debug, PartialEq, Eq, Structural)]
pub enum LoanError {
    /// The operation byte buffer is empty, its tag is unrecognized, or its
    /// payload is shorter than the recognized tag requires.
    DecodeError,
    /// The persisted loan record bytes are malformed.
    CorruptRecord,
    /// The initiating identity did not sign the operation.
    MissingSignature,
    /// An identity or account does not match the one recorded at an
    /// earlier stage.
    NotAuthorized,
    /// An account is not owned by the expected party.
    IncorrectOwnership,
    /// An account does not meet the host's minimum-balance threshold for
    /// its storage size.
    BelowMinimumBalance,
    /// The relevant source account holds too little value.
    InsufficientFunds,
    /// `InitLoan` was applied to a record that is already initialized.
    AlreadyInitialized,
    /// The operation needs an initialized record, and the record is not.
    NotInitialized,
    /// The record's status is not the one the operation may start from.
    InvalidStateForOperation,
}

} // verus!
