//! Laws of the loan lifecycle, stated and proved over the state machine's
//! own specifications.
//!
//! An operation that fails returns an error and no step at all, so every
//! rejection law below also says that nothing was mutated and no custody
//! or transfer request was issued.

use vstd::prelude::*;

use crate::error::LoanError;
use crate::instruction::{spec_unpack_instruction, LoanInstruction};
use crate::processor::{spec_process, spec_process_accept, spec_process_guarantee,
    spec_process_init, spec_process_repay, spec_rent_ok, spec_required_accounts, AccountFacts,
    AcceptLoanAccounts, GuaranteeLoanAccounts, InitLoanAccounts, RepayLoanAccounts};
use crate::state::{lemma_record_round_trip, spec_pack_loan, spec_unpack_loan, LoanStatus, LoanV};
use crate::utils::{spec_application_fee, spec_borrowed_amount};

verus! {

/// Law: one successfully applied operation strictly advances the status of
/// a consistent record, and leaves a well-formed, consistent record.
pub proof fn lemma_status_monotonic_step(
    program_id: Seq<u8>,
    accounts: Seq<AccountFacts>,
    record: Seq<u8>,
    instruction_data: Seq<u8>,
    l0: LoanV,
    l1: LoanV,
)
    requires
        spec_unpack_loan(record) == Ok::<LoanV, LoanError>(l0),
        l0.consistent(),
        spec_process(program_id, accounts, record, instruction_data) == Ok::<LoanV, LoanError>(l1),
    ensures
        l1.status.rank() > l0.status.rank(),
        l1.wf(),
        l1.consistent(),
{
    broadcast use vstd::array::group_array_axioms;

}

/// One operation request: the accounts presented and the operation bytes.
pub struct OpRequest {
    /// The accounts presented with the request, in positional order.
    pub accounts: Seq<AccountFacts>,
    /// The encoded operation.
    pub instruction_data: Seq<u8>,
}

/// The record that a sequence of operation requests leaves behind when
/// every one of them is applied successfully, each committing its record
/// before the next runs.
pub open spec fn spec_run(program_id: Seq<u8>, record: Seq<u8>, requests: Seq<OpRequest>) -> Result<
    LoanV,
    LoanError,
>
    decreases requests.len(),
{
    if requests.len() == 0 {
        spec_unpack_loan(record)
    } else {
        match spec_process(program_id, requests[0].accounts, record, requests[0].instruction_data) {
            Err(e) => Err(e),
            Ok(l) => spec_run(program_id, spec_pack_loan(l), requests.drop_first()),
        }
    }
}

/// Law: the status is non-decreasing across any sequence of successfully
/// applied operations.
pub proof fn lemma_status_monotonic_run(
    program_id: Seq<u8>,
    record: Seq<u8>,
    requests: Seq<OpRequest>,
    l0: LoanV,
    ln: LoanV,
)
    requires
        spec_unpack_loan(record) == Ok::<LoanV, LoanError>(l0),
        l0.consistent(),
        spec_run(program_id, record, requests) == Ok::<LoanV, LoanError>(ln),
    ensures
        ln.status.rank() >= l0.status.rank(),
    decreases requests.len(),
{
    if requests.len() == 0 {
    } else {
        let step = spec_process(
            program_id,
            requests[0].accounts,
            record,
            requests[0].instruction_data,
        );
        match step {
            Err(_) => {
                assert(false);
            },
            Ok(l1) => {
                lemma_status_monotonic_step(
                    program_id,
                    requests[0].accounts,
                    record,
                    requests[0].instruction_data,
                    l0,
                    l1,
                );
                lemma_record_round_trip(l1);
                lemma_status_monotonic_run(
                    program_id,
                    spec_pack_loan(l1),
                    requests.drop_first(),
                    l1,
                    ln,
                );
            },
        }
    }
}

/// Law: whenever the term factor of the repayable-amount formula is at
/// least one — the duration reaches a full year of hours — the repayable
/// amount covers the principal. The current policy's term of `24 * 30`
/// falls short of that, which is why a positive principal yields the
/// degenerate zero repayable amount.
pub proof fn lemma_repayable_covers_principal(
    loan_duration: u32,
    loan_interest: u32,
    processing_fee: u32,
    expected_amount: u64,
)
    requires
        loan_duration >= 24 * 365,
    ensures
        spec_borrowed_amount(loan_duration, loan_interest, processing_fee, expected_amount)
            >= expected_amount,
{
    let term = loan_duration as int / ((24 * 365) as int);
    let rate = (loan_interest + processing_fee) as int / 100 + 1;
    assert(term >= 1) by (nonlinear_arith)
        requires
            term == loan_duration as int / ((24 * 365) as int),
            loan_duration >= 24 * 365,
    ;
    assert(rate >= 1);
    assert(term * rate * (expected_amount as int) >= expected_amount as int) by (nonlinear_arith)
        requires
            term >= 1,
            rate >= 1,
            expected_amount >= 0,
    ;
}

/// Law: after a successful `InitLoan` the repayable amount covers the
/// principal — stated for the zero principal, the only one for which it
/// holds under the current policy constants: their term factor is zero, so
/// any positive principal yields a repayable amount of zero, below the
/// principal.
pub proof fn lemma_init_amount_covers_principal(
    program_id: Seq<u8>,
    a: InitLoanAccounts,
    record: Seq<u8>,
    amount: u64,
    l1: LoanV,
)
    requires
        spec_process_init(program_id, a, record, amount) == Ok::<LoanV, LoanError>(l1),
        amount == 0,
    ensures
        l1.amount >= l1.expected_amount,
{
}

/// Law: `InitLoan` is rejected as already initialized when applied to the
/// record a successful `InitLoan` left behind, however the rest of the new
/// request looks, provided the new request passes the checks that precede
/// the record read.
pub proof fn lemma_reinit_rejected(
    program_id: Seq<u8>,
    a1: InitLoanAccounts,
    record: Seq<u8>,
    amount1: u64,
    l1: LoanV,
    a2: InitLoanAccounts,
    amount2: u64,
)
    requires
        spec_process_init(program_id, a1, record, amount1) == Ok::<LoanV, LoanError>(l1),
        a2.initializer.is_signer,
        a2.fee_escrow.owner@ == a2.initializer.key@,
        a2.borrower_receive.owner@ == a2.token_service@,
        a2.loan_account.owner@ == program_id,
        spec_rent_ok(a2.loan_account),
        a2.loan_account.lamports >= spec_application_fee(a2.initializer.key@, amount2) * amount2,
    ensures
        spec_process_init(program_id, a2, spec_pack_loan(l1), amount2) == Err::<LoanV, LoanError>(
            LoanError::AlreadyInitialized,
        ),
{
    broadcast use vstd::array::group_array_axioms;

    assert(l1.wf());
    lemma_record_round_trip(l1);
}

/// Law: `GuaranteeLoan` is rejected unless the record is exactly in the
/// stage that immediately precedes its target stage (when every check
/// before the stage check passes).
pub proof fn lemma_guarantee_needs_initialized_stage(
    program_id: Seq<u8>,
    a: GuaranteeLoanAccounts,
    record: Seq<u8>,
    l0: LoanV,
)
    requires
        a.guarantor.is_signer,
        a.loan_account.owner@ == program_id,
        spec_rent_ok(a.loan_account),
        spec_unpack_loan(record) == Ok::<LoanV, LoanError>(l0),
        l0.initialized,
        l0.status != LoanStatus::Initialized,
    ensures
        spec_process_guarantee(program_id, a, record) == Err::<LoanV, LoanError>(
            LoanError::InvalidStateForOperation,
        ),
{
}

/// Law: `AcceptLoan` is rejected unless the record is exactly in the stage
/// that immediately precedes its target stage (when every check before the
/// stage check passes).
pub proof fn lemma_accept_needs_guaranteed_stage(
    program_id: Seq<u8>,
    a: AcceptLoanAccounts,
    record: Seq<u8>,
    l0: LoanV,
)
    requires
        a.lender.is_signer,
        a.lender_repayment.owner@ == a.token_service@,
        a.loan_account.owner@ == program_id,
        spec_rent_ok(a.loan_account),
        spec_rent_ok(a.lender_repayment),
        spec_unpack_loan(record) == Ok::<LoanV, LoanError>(l0),
        l0.initialized,
        l0.status != LoanStatus::Guaranteed,
    ensures
        spec_process_accept(program_id, a, record) == Err::<LoanV, LoanError>(
            LoanError::InvalidStateForOperation,
        ),
{
}

/// Law: `RepayLoan` is rejected unless the record is exactly in the stage
/// that immediately precedes its target stage (when the payer signed).
pub proof fn lemma_repay_needs_accepted_stage(a: RepayLoanAccounts, record: Seq<u8>, l0: LoanV)
    requires
        a.payer.is_signer,
        spec_unpack_loan(record) == Ok::<LoanV, LoanError>(l0),
        l0.initialized,
        l0.status != LoanStatus::Accepted,
    ensures
        spec_process_repay(a, record) == Err::<LoanV, LoanError>(
            LoanError::InvalidStateForOperation,
        ),
{
}

/// Law: whichever of the four operations is requested, a request whose
/// initiating identity did not sign is rejected with the missing-signature
/// error.
pub proof fn lemma_unsigned_rejected(
    program_id: Seq<u8>,
    accounts: Seq<AccountFacts>,
    record: Seq<u8>,
    instruction_data: Seq<u8>,
    i: LoanInstruction,
)
    requires
        spec_unpack_instruction(instruction_data) == Ok::<LoanInstruction, LoanError>(i),
        accounts.len() >= spec_required_accounts(i),
        !accounts[0].is_signer,
    ensures
        spec_process(program_id, accounts, record, instruction_data) == Err::<LoanV, LoanError>(
            LoanError::MissingSignature,
        ),
{
}

/// Law: `AcceptLoan` presenting a receive account other than the one the
/// record holds is rejected as not authorized (when every earlier check
/// passes).
pub proof fn lemma_accept_unrecorded_receive_rejected(
    program_id: Seq<u8>,
    a: AcceptLoanAccounts,
    record: Seq<u8>,
    l0: LoanV,
)
    requires
        a.lender.is_signer,
        a.lender_repayment.owner@ == a.token_service@,
        a.loan_account.owner@ == program_id,
        spec_rent_ok(a.loan_account),
        spec_rent_ok(a.lender_repayment),
        spec_unpack_loan(record) == Ok::<LoanV, LoanError>(l0),
        l0.initialized,
        l0.status == LoanStatus::Guaranteed,
        a.borrower_receive.key@ != l0.borrower_receive_account,
    ensures
        spec_process_accept(program_id, a, record) == Err::<LoanV, LoanError>(
            LoanError::NotAuthorized,
        ),
{
}

/// Law: `RepayLoan` presenting any account that does not match the
/// identity recorded at its earlier stage is rejected as not authorized
/// (when every earlier check passes).
pub proof fn lemma_repay_unrecorded_account_rejected(
    a: RepayLoanAccounts,
    record: Seq<u8>,
    l0: LoanV,
)
    requires
        a.payer.is_signer,
        spec_unpack_loan(record) == Ok::<LoanV, LoanError>(l0),
        l0.initialized,
        l0.status == LoanStatus::Accepted,
        a.payer_token.lamports >= l0.amount,
        Some(a.guarantor.key@) != l0.guarantor || Some(a.guarantor_repayment.key@)
            != l0.guarantor_repayment_account || Some(a.collateral.key@) != l0.collateral_account
            || Some(a.lender.key@) != l0.lender || Some(a.lender_repayment.key@)
            != l0.lender_repayment_account,
    ensures
        spec_process_repay(a, record) == Err::<LoanV, LoanError>(LoanError::NotAuthorized),
{
}

/// Law: an `InitLoan` whose record account cannot cover the application
/// fee is rejected for insufficient funds, before the record is even read
/// (when every earlier check passes).
pub proof fn lemma_init_insufficient_funds_rejected(
    program_id: Seq<u8>,
    a: InitLoanAccounts,
    record: Seq<u8>,
    amount: u64,
)
    requires
        a.initializer.is_signer,
        a.fee_escrow.owner@ == a.initializer.key@,
        a.borrower_receive.owner@ == a.token_service@,
        a.loan_account.owner@ == program_id,
        spec_rent_ok(a.loan_account),
        a.loan_account.lamports < spec_application_fee(a.initializer.key@, amount) * amount,
    ensures
        spec_process_init(program_id, a, record, amount) == Err::<LoanV, LoanError>(
            LoanError::InsufficientFunds,
        ),
{
}

/// Law: a `GuaranteeLoan` whose collateral account does not cover the
/// repayable amount is rejected for insufficient funds (when every earlier
/// check passes).
pub proof fn lemma_guarantee_insufficient_funds_rejected(
    program_id: Seq<u8>,
    a: GuaranteeLoanAccounts,
    record: Seq<u8>,
    l0: LoanV,
)
    requires
        a.guarantor.is_signer,
        a.loan_account.owner@ == program_id,
        spec_rent_ok(a.loan_account),
        spec_unpack_loan(record) == Ok::<LoanV, LoanError>(l0),
        l0.initialized,
        l0.status == LoanStatus::Initialized,
        a.collateral.lamports < l0.amount,
    ensures
        spec_process_guarantee(program_id, a, record) == Err::<LoanV, LoanError>(
            LoanError::InsufficientFunds,
        ),
{
}

/// Law: an `AcceptLoan` whose transfer account does not cover the
/// principal is rejected for insufficient funds (when every earlier check
/// passes).
pub proof fn lemma_accept_insufficient_funds_rejected(
    program_id: Seq<u8>,
    a: AcceptLoanAccounts,
    record: Seq<u8>,
    l0: LoanV,
)
    requires
        a.lender.is_signer,
        a.lender_repayment.owner@ == a.token_service@,
        a.loan_account.owner@ == program_id,
        spec_rent_ok(a.loan_account),
        spec_rent_ok(a.lender_repayment),
        spec_unpack_loan(record) == Ok::<LoanV, LoanError>(l0),
        l0.initialized,
        l0.status == LoanStatus::Guaranteed,
        a.borrower_receive.key@ == l0.borrower_receive_account,
        a.lender_transfer.lamports < l0.expected_amount,
    ensures
        spec_process_accept(program_id, a, record) == Err::<LoanV, LoanError>(
            LoanError::InsufficientFunds,
        ),
{
}

/// Law: a `RepayLoan` whose payer account does not cover the repayable
/// amount is rejected for insufficient funds (when the payer signed and
/// the record is in the right stage).
pub proof fn lemma_repay_insufficient_funds_rejected(
    a: RepayLoanAccounts,
    record: Seq<u8>,
    l0: LoanV,
)
    requires
        a.payer.is_signer,
        spec_unpack_loan(record) == Ok::<LoanV, LoanError>(l0),
        l0.initialized,
        l0.status == LoanStatus::Accepted,
        a.payer_token.lamports < l0.amount,
    ensures
        spec_process_repay(a, record) == Err::<LoanV, LoanError>(LoanError::InsufficientFunds),
{
}

} // verus!
