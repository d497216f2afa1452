//! The wire codec: an opcode-tagged byte buffer names one of the four
//! lifecycle operations; encoding is the exact inverse of decoding.

use vstd::bytes::{spec_u64_from_le_bytes, spec_u64_to_le_bytes, u64_from_le_bytes, u64_to_le_bytes,
    lemma_auto_spec_u64_to_from_le_bytes};
use vstd::prelude::*;
use vstd::slice::slice_subrange;

use crate::error::LoanError;

verus! {

/// One of the four operations that drive the loan state machine.
#[derive(Clone, Debug, PartialEq, Eq, Structural)]
pub enum LoanInstruction {
    /// Start a loan request. The single payload field is the principal the
    /// borrower expects to receive. The fee-paying account is placed in
    /// custody.
    InitLoan {
        /// The amount the borrower expects to receive as a loan.
        amount: u64,
    },
    /// Post collateral for an initialized loan; the collateral and the
    /// guarantor's repayment account are placed in custody.
    GuaranteeLoan,
    /// Accept a guaranteed loan: the lender's repayment account is placed in
    /// custody and the principal moves to the borrower's receive account.
    AcceptLoan,
    /// Repay an accepted loan: the payer funds the two repayment accounts and
    /// every custodied account is released to its beneficiary.
    RepayLoan,
}

/// The byte encoding of an operation: one tag byte, then the fixed-width
/// little-endian payload of that tag.
pub open spec fn spec_pack_instruction(i: LoanInstruction) -> Seq<u8> {
    match i {
        LoanInstruction::InitLoan { amount } => seq![0u8] + spec_u64_to_le_bytes(amount),
        LoanInstruction::GuaranteeLoan => seq![1u8],
        LoanInstruction::AcceptLoan => seq![2u8],
        LoanInstruction::RepayLoan => seq![3u8],
    }
}

/// Decoding an operation from a byte buffer: the buffer must hold a
/// recognized tag byte and a long enough payload; trailing bytes are
/// ignored.
pub open spec fn spec_unpack_instruction(s: Seq<u8>) -> Result<LoanInstruction, LoanError> {
    if s.len() == 0 {
        Err(LoanError::DecodeError)
    } else if s[0] == 0 {
        if s.len() < 9 {
            Err(LoanError::DecodeError)
        } else {
            Ok(LoanInstruction::InitLoan { amount: spec_u64_from_le_bytes(s.subrange(1, 9)) })
        }
    } else if s[0] == 1 {
        Ok(LoanInstruction::GuaranteeLoan)
    } else if s[0] == 2 {
        Ok(LoanInstruction::AcceptLoan)
    } else if s[0] == 3 {
        Ok(LoanInstruction::RepayLoan)
    } else {
        Err(LoanError::DecodeError)
    }
}

impl LoanInstruction {
    /// Decodes an operation from a byte buffer.
    pub fn unpack(input: &[u8]) -> (r: Result<LoanInstruction, LoanError>)
        ensures
            r == spec_unpack_instruction(input@),
    {
        if input.len() == 0 {
            return Err(LoanError::DecodeError);
        }
        let tag = input[0];
        match tag {
            0 => {
                let rest = slice_subrange(input, 1, input.len());
                match Self::unpack_amount(rest) {
                    Ok(amount) => {
                        proof {
                            assert(rest@.subrange(0, 8) =~= input@.subrange(1, 9));
                        }
                        Ok(LoanInstruction::InitLoan { amount })
                    },
                    Err(e) => Err(e),
                }
            },
            1 => Ok(LoanInstruction::GuaranteeLoan),
            2 => Ok(LoanInstruction::AcceptLoan),
            3 => Ok(LoanInstruction::RepayLoan),
            _ => Err(LoanError::DecodeError),
        }
    }

    /// Reads the little-endian amount payload from the bytes that follow the
    /// tag byte.
    fn unpack_amount(input: &[u8]) -> (r: Result<u64, LoanError>)
        ensures
            r == if input@.len() >= 8 {
                Ok::<u64, LoanError>(spec_u64_from_le_bytes(input@.subrange(0, 8)))
            } else {
                Err::<u64, LoanError>(LoanError::DecodeError)
            },
    {
        if input.len() < 8 {
            return Err(LoanError::DecodeError);
        }
        let amount = u64_from_le_bytes(slice_subrange(input, 0, 8));
        Ok(amount)
    }

    /// Encodes the operation to its byte form.
    pub fn pack_into_vec(&self) -> (r: Vec<u8>)
        ensures
            r@ == spec_pack_instruction(*self),
    {
        let mut out: Vec<u8> = Vec::new();
        match self {
            LoanInstruction::InitLoan { amount } => {
                out.push(0u8);
                let mut payload = u64_to_le_bytes(*amount);
                out.append(&mut payload);
                proof {
                    assert(out@ =~= spec_pack_instruction(*self));
                }
            },
            LoanInstruction::GuaranteeLoan => {
                out.push(1u8);
                proof {
                    assert(out@ =~= spec_pack_instruction(*self));
                }
            },
            LoanInstruction::AcceptLoan => {
                out.push(2u8);
                proof {
                    assert(out@ =~= spec_pack_instruction(*self));
                }
            },
            LoanInstruction::RepayLoan => {
                out.push(3u8);
                proof {
                    assert(out@ =~= spec_pack_instruction(*self));
                }
            },
        }
        out
    }
}

/// Law: the wire codec round-trips. Decoding the encoding of any operation
/// yields that operation back.
pub proof fn lemma_instruction_round_trip(i: LoanInstruction)
    ensures
        spec_unpack_instruction(spec_pack_instruction(i)) == Ok::<LoanInstruction, LoanError>(i),
{
    lemma_auto_spec_u64_to_from_le_bytes();
    match i {
        LoanInstruction::InitLoan { amount } => {
            let s = spec_pack_instruction(i);
            assert(s.subrange(1, 9) =~= spec_u64_to_le_bytes(amount));
        },
        _ => {},
    }
}

} // verus!
