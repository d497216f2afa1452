//! The fee/rate policy and small codec helpers.
//!
//! The policy functions are pure and keyed only by requester identity and
//! principal; today they return documented constants, stand-ins for a future
//! risk model.

use vstd::prelude::*;

use crate::error::LoanError;
use crate::identity::{spec_option_view, Identity};

verus! {

/// The interest rate the policy assigns a borrower and principal.
pub open spec fn spec_interest_rate(borrower: Seq<u8>, loan_amount: u64) -> u32 {
    9
}

/// The guarantor's percentage of the distributable interest.
pub open spec fn spec_guarantor_share(guarantor: Seq<u8>, loan_amount: u64) -> u32 {
    50
}

/// The lender's percentage of the distributable interest.
pub open spec fn spec_lender_share(lender: Seq<u8>, loan_amount: u64) -> u32 {
    50
}

/// The loan term the policy assigns a borrower and principal.
pub open spec fn spec_duration(borrower: Seq<u8>, loan_amount: u64) -> u32 {
    720
}

/// The processing-fee percentage the policy assigns a loan.
pub open spec fn spec_processing_fee(
    borrower: Seq<u8>,
    expected_amount: u64,
    loan_duration: u32,
    loan_interest: u32,
) -> u32 {
    1
}

/// The application-fee multiplier the policy assigns a loan request.
pub open spec fn spec_application_fee(borrower: Seq<u8>, expected_amount: u64) -> u64 {
    1
}

/// The loan interest rate, in integer percentage units, annualized.
pub fn get_interest_rate(borrower: &Identity, loan_amount: u64) -> (r: u32)
    ensures
        r == spec_interest_rate(borrower@, loan_amount),
{
    9
}

/// The share of the interest paid out to the guarantor, in percent.
pub fn get_guarantor_share(guarantor: &Identity, loan_amount: u64) -> (r: u32)
    ensures
        r == spec_guarantor_share(guarantor@, loan_amount),
{
    50
}

/// The share of the interest paid out to the lender, in percent.
pub fn get_lender_share(lender: &Identity, loan_amount: u64) -> (r: u32)
    ensures
        r == spec_lender_share(lender@, loan_amount),
{
    50
}

/// The loan duration, documented as 30 days but encoded as `24 * 30`.
pub fn get_duration(borrower: &Identity, loan_amount: u64) -> (r: u32)
    ensures
        r == spec_duration(borrower@, loan_amount),
{
    24 * 30
}

/// The loan processing fee, in percent.
pub fn get_processing_fee(
    borrower: &Identity,
    expected_amount: u64,
    loan_duration: u32,
    loan_interest: u32,
) -> (r: u32)
    ensures
        r == spec_processing_fee(borrower@, expected_amount, loan_duration, loan_interest),
{
    1
}

/// The loan application fee, as a multiplier of the principal.
pub fn get_application_fee(borrower: &Identity, expected_amount: u64) -> (r: u64)
    ensures
        r == spec_application_fee(borrower@, expected_amount),
{
    1
}

/// The total repayable amount: an annualized-term multiplier applied to the
/// principal, all divisions rounding down. The term factor divides the
/// duration by `24 * 365`, so any duration under a year makes the whole
/// amount zero — a documented defect surface that is reproduced, not fixed.
pub open spec fn spec_borrowed_amount(
    loan_duration: u32,
    loan_interest: u32,
    processing_fee: u32,
    expected_amount: u64,
) -> int {
    (loan_duration as int / ((24 * 365) as int)) * ((loan_interest + processing_fee) as int / 100
        + 1) * (expected_amount as int)
}

/// Computes the total repayable amount for a loan of `expected_amount`,
/// including interest and the processing fee.
pub fn get_borrowed_amount(
    borrower: &Identity,
    expected_amount: u64,
    loan_duration: u32,
    loan_interest: u32,
) -> (r: u64)
    requires
        spec_borrowed_amount(
            loan_duration,
            loan_interest,
            spec_processing_fee(borrower@, expected_amount, loan_duration, loan_interest),
            expected_amount,
        ) <= u64::MAX,
    ensures
        r == spec_borrowed_amount(
            loan_duration,
            loan_interest,
            spec_processing_fee(borrower@, expected_amount, loan_duration, loan_interest),
            expected_amount,
        ),
{
    let processing_fee: u32 = get_processing_fee(
        borrower,
        expected_amount,
        loan_duration,
        loan_interest,
    );
    let total_charge: u64 = loan_interest as u64 + processing_fee as u64;
    let term_factor: u64 = loan_duration as u64 / (24 * 365);
    let rate_factor: u64 = total_charge / 100 + 1;
    proof {
        assert(term_factor <= 490293) by (nonlinear_arith)
            requires
                term_factor == loan_duration as int / ((24 * 365) as int),
                loan_duration <= u32::MAX,
        ;
        assert(rate_factor <= 42949673) by (nonlinear_arith)
            requires
                rate_factor == total_charge as int / 100 + 1,
                total_charge <= 0x100000000,
        ;
        assert(term_factor * rate_factor <= 490293 * 42949673) by (nonlinear_arith)
            requires
                term_factor <= 490293 && rate_factor <= 42949673,
        ;
    }
    let base: u64 = term_factor * rate_factor;
    proof {
        assert(base * expected_amount == spec_borrowed_amount(
            loan_duration,
            loan_interest,
            1,
            expected_amount,
        )) by (nonlinear_arith)
            requires
                base == term_factor * rate_factor,
                term_factor == loan_duration as int / ((24 * 365) as int),
                rate_factor == (loan_interest + 1 as u32) as int / 100 + 1,
        ;
    }
    base * expected_amount
}

/// The part of the interest kept by the protocol: the processing-fee
/// percentage of the interest, rounded down.
pub open spec fn spec_program_share(amount: u64, expected_amount: u64, fee_pct: u32) -> int {
    (amount - expected_amount) * fee_pct / 100
}

/// A party's percentage of the interest that remains once the protocol's
/// share is taken, rounded down.
pub open spec fn spec_party_share(amount: u64, expected_amount: u64, fee_pct: u32, pct: u32) -> int {
    ((amount - expected_amount) - spec_program_share(amount, expected_amount, fee_pct)) * pct / 100
}

/// Splits the interest of a repaid loan: the protocol's share, the total
/// owed to the lender (principal plus the lender's share of the remaining
/// interest), and the guarantor's share of the remaining interest.
pub fn compute_repayment_shares(
    amount: u64,
    expected_amount: u64,
    processing_fee_pct: u32,
    lender_share_pct: u32,
    guarantor_share_pct: u32,
) -> (r: (u64, u64, u64))
    requires
        expected_amount <= amount,
        processing_fee_pct <= 100,
        lender_share_pct <= 100,
        guarantor_share_pct <= 100,
    ensures
        r.0 == spec_program_share(amount, expected_amount, processing_fee_pct),
        r.1 == expected_amount + spec_party_share(
            amount,
            expected_amount,
            processing_fee_pct,
            lender_share_pct,
        ),
        r.2 == spec_party_share(amount, expected_amount, processing_fee_pct, guarantor_share_pct),
{
    let interest: u128 = (amount - expected_amount) as u128;
    proof {
        assert(interest * processing_fee_pct <= interest * 100) by (nonlinear_arith)
            requires
                processing_fee_pct <= 100,
                interest >= 0,
        ;
        assert(interest * 100 <= u64::MAX * 100) by (nonlinear_arith)
            requires
                interest <= u64::MAX,
        ;
    }
    let program_share: u128 = interest * (processing_fee_pct as u128) / 100;
    proof {
        assert(program_share <= interest) by (nonlinear_arith)
            requires
                program_share == interest * processing_fee_pct / 100,
                processing_fee_pct <= 100,
                interest >= 0,
        ;
    }
    let rest: u128 = interest - program_share;
    proof {
        assert(rest * lender_share_pct <= rest * 100 && rest * guarantor_share_pct <= rest * 100
            && rest * 100 <= u64::MAX * 100) by (nonlinear_arith)
            requires
                lender_share_pct <= 100,
                guarantor_share_pct <= 100,
                0 <= rest <= u64::MAX,
        ;
    }
    let lender_share: u128 = rest * (lender_share_pct as u128) / 100;
    let guarantor_share: u128 = rest * (guarantor_share_pct as u128) / 100;
    proof {
        assert(lender_share <= rest && guarantor_share <= rest) by (nonlinear_arith)
            requires
                lender_share == rest * lender_share_pct / 100,
                guarantor_share == rest * guarantor_share_pct / 100,
                lender_share_pct <= 100,
                guarantor_share_pct <= 100,
                rest >= 0,
        ;
    }
    let lender_total: u64 = (lender_share as u64) + expected_amount;
    (program_share as u64, lender_total, guarantor_share as u64)
}

/// The byte encoding of an optional identity: a 4-byte presence tag (`0` for
/// absent, `1` for present) followed by the 32-byte key body, zeroed when
/// absent.
pub open spec fn spec_coption_bytes(o: Option<Seq<u8>>) -> Seq<u8> {
    match o {
        Some(id) => seq![1u8, 0u8, 0u8, 0u8] + id,
        None => seq![0u8, 0u8, 0u8, 0u8] + Seq::new(32, |i: int| 0u8),
    }
}

/// Whether a 36-byte window holds a well-formed optional identity.
pub open spec fn spec_coption_ok(s: Seq<u8>) -> bool {
    (s[0] == 0 || s[0] == 1) && s[1] == 0 && s[2] == 0 && s[3] == 0
}

/// The optional identity a well-formed 36-byte window holds.
pub open spec fn spec_coption_value(s: Seq<u8>) -> Option<Seq<u8>> {
    if s[0] == 1 {
        Some(s.subrange(4, 36))
    } else {
        None
    }
}

/// Appends an identity's bytes to a byte vector.
pub fn push_identity(dst: &mut Vec<u8>, id: &Identity)
    ensures
        final(dst)@ == old(dst)@ + id@,
{
    let mut i: usize = 0;
    while i < 32
        invariant
            i <= 32,
            dst@ == old(dst)@ + id@.subrange(0, i as int),
        decreases 32 - i,
    {
        dst.push(id.bytes[i]);
        proof {
            assert(dst@ =~= old(dst)@ + id@.subrange(0, i + 1));
        }
        i = i + 1;
    }
    proof {
        assert(id@.subrange(0, 32) =~= id@);
    }
}

/// Appends the encoding of an optional identity to a byte vector.
pub fn pack_coption_key(src: &Option<Identity>, dst: &mut Vec<u8>)
    ensures
        final(dst)@ == old(dst)@ + spec_coption_bytes(spec_option_view(*src)),
{
    match src {
        Some(id) => {
            dst.push(1u8);
            dst.push(0u8);
            dst.push(0u8);
            dst.push(0u8);
            push_identity(dst, id);
            proof {
                assert(dst@ =~= old(dst)@ + spec_coption_bytes(spec_option_view(*src)));
            }
        },
        None => {
            let mut i: usize = 0;
            dst.push(0u8);
            dst.push(0u8);
            dst.push(0u8);
            dst.push(0u8);
            while i < 32
                invariant
                    i <= 32,
                    dst@ == old(dst)@ + seq![0u8, 0u8, 0u8, 0u8] + Seq::new(
                        i as nat,
                        |j: int| 0u8,
                    ),
                decreases 32 - i,
            {
                dst.push(0u8);
                proof {
                    assert(dst@ =~= old(dst)@ + seq![0u8, 0u8, 0u8, 0u8] + Seq::new(
                        (i + 1) as nat,
                        |j: int| 0u8,
                    ));
                }
                i = i + 1;
            }
            proof {
                assert(dst@ =~= old(dst)@ + spec_coption_bytes(spec_option_view(*src)));
            }
        },
    }
}

/// Reads the optional identity encoded at offset `at` of a byte buffer.
pub fn unpack_coption_key(src: &[u8], at: usize) -> (r: Result<Option<Identity>, LoanError>)
    requires
        at + 36 <= src@.len(),
    ensures
        match r {
            Ok(o) => spec_coption_ok(src@.subrange(at as int, at + 36)) && spec_option_view(o)
                == spec_coption_value(src@.subrange(at as int, at + 36)),
            Err(e) => !spec_coption_ok(src@.subrange(at as int, at + 36)) && e
                == LoanError::CorruptRecord,
        },
{
    let t0 = src[at];
    let t1 = src[at + 1];
    let t2 = src[at + 2];
    let t3 = src[at + 3];
    if t1 != 0 || t2 != 0 || t3 != 0 {
        return Err(LoanError::CorruptRecord);
    }
    if t0 == 0 {
        Ok(None)
    } else if t0 == 1 {
        let id = crate::identity::read_identity(src, at + 4);
        proof {
            assert(src@.subrange(at as int, at + 36).subrange(4, 36) =~= src@.subrange(
                at + 4,
                at + 36,
            ));
        }
        Ok(Some(id))
    } else {
        Err(LoanError::CorruptRecord)
    }
}

} // verus!
