//! Tests of the fee/rate policy and the repayment split.

use mosh_love_oov::identity::Identity;
use mosh_love_oov::utils::{
    compute_repayment_shares, get_application_fee, get_borrowed_amount, get_duration,
    get_guarantor_share, get_interest_rate, get_lender_share, get_processing_fee,
};

fn id(b: u8) -> Identity {
    Identity::new([b; 32])
}

#[test]
fn policy_constants() {
    assert_eq!(get_interest_rate(&id(1), 13337), 9);
    assert_eq!(get_guarantor_share(&id(2), 13337), 50);
    assert_eq!(get_lender_share(&id(3), 13337), 50);
    assert_eq!(get_duration(&id(1), 13337), 24 * 30);
    assert_eq!(get_processing_fee(&id(1), 13337, 720, 9), 1);
    assert_eq!(get_application_fee(&id(1), 13337), 1);
}

#[test]
fn borrowed_amount_degenerates_to_zero_below_a_year() {
    // The literal formula floors 720 / (24 * 365) to zero, so the whole
    // repayable amount is zero; the defect is reproduced, not fixed.
    assert_eq!(get_borrowed_amount(&id(1), 13337, 720, 9), 0);
    assert_eq!(get_borrowed_amount(&id(1), 1, 8759, 9), 0);
}

#[test]
fn borrowed_amount_for_full_years() {
    // Two full years: 2 * ((9 + 1) / 100 + 1) * 100 = 200.
    assert_eq!(get_borrowed_amount(&id(1), 100, 2 * 24 * 365, 9), 200);
    // A 120 percent rate makes the rate factor (120 + 1) / 100 + 1 = 2.
    assert_eq!(get_borrowed_amount(&id(1), 100, 24 * 365, 120), 200);
}

#[test]
fn repayment_shares_split_the_interest() {
    // Interest 6663; the protocol keeps 66; the remaining 6597 is split
    // half and half, floored, and the lender also receives the principal.
    let (program_share, lender_total, guarantor_share) =
        compute_repayment_shares(20000, 13337, 1, 50, 50);
    assert_eq!(program_share, 66);
    assert_eq!(lender_total, 13337 + 3298);
    assert_eq!(guarantor_share, 3298);
}

#[test]
fn repayment_shares_with_zero_interest() {
    let (program_share, lender_total, guarantor_share) =
        compute_repayment_shares(13337, 13337, 1, 50, 50);
    assert_eq!(program_share, 0);
    assert_eq!(lender_total, 13337);
    assert_eq!(guarantor_share, 0);
}
