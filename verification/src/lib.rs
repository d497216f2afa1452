//! A verified escrow-mediated loan protocol.
//!
//! A loan moves through a strict lifecycle (pending, initialized, guaranteed,
//! accepted, repaid) driven by four wire-encoded operations. Each operation
//! validates signer identity, account ownership and balances, commits a new
//! fixed-layout loan record, and asks the host's value-transfer service to
//! move accounts in and out of the custody of a keyless, deterministically
//! derived custodian identity.

pub mod custodian;
pub mod error;
pub mod identity;
pub mod instruction;
pub mod laws;
pub mod processor;
pub mod state;
pub mod utils;

pub use error::LoanError;
pub use identity::Identity;
