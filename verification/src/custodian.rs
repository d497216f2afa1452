//! The custodian (escrow) protocol's identity derivation.
//!
//! A keyless custodian identity is derived deterministically from the
//! protocol's own identity and a fixed domain-separation tag. No private key
//! exists for it: the derivation is publicly reproducible, and the host
//! runtime accepts the reproduced derivation as proof of custodian
//! authority.

use vstd::prelude::*;

use crate::identity::Identity;

verus! {

/// The identity of the keyless custodian derived from the protocol's own
/// identity and the fixed domain-separation tag — when one can be derived:
/// in the statistically negligible case that no bump seed yields a valid
/// derived address, there is none.
pub uninterp spec fn custodian_of(program_id: Seq<u8>) -> Option<Seq<u8>>;

/// Relies on solana_program::pubkey::Pubkey::try_find_program_address: with
/// a fixed seed list the result is a deterministic function of the program
/// identity alone, and it returns nothing exactly when no bump seed yields a
/// valid derived address.
#[verifier::external_body]
pub(crate) fn find_custodian(program_id: &Identity) -> (r: Option<Identity>)
    ensures
        match r {
            Some(id) => custodian_of(program_id@) == Some(id@),
            None => custodian_of(program_id@) is None,
        },
{
    let program = solana_program::pubkey::Pubkey::new_from_array(program_id.bytes);
    match solana_program::pubkey::Pubkey::try_find_program_address(&[b"loan"], &program) {
        Some((address, _bump)) => Some(Identity { bytes: address.to_bytes() }),
        None => None,
    }
}

} // verus!
