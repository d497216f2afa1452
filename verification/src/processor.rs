//! The loan state machine: one pure, total function per lifecycle
//! operation.
//!
//! Each operation takes the facts the host runtime states about the
//! presented accounts, the packed loan record, and the operation's payload,
//! checks every authorization and precondition, and either returns the new
//! record together with the custody and transfer actions the host's
//! value-transfer service must perform, or one tagged error and no actions
//! at all: a failed check never mutates anything.

use vstd::prelude::*;

use crate::custodian::{custodian_of, find_custodian};
use crate::error::LoanError;
use crate::identity::{identity_eq, option_identity_eq, Identity};
use crate::instruction::{spec_unpack_instruction, LoanInstruction};
use crate::state::{spec_unpack_loan, Loan, LoanStatus, LoanV};
use crate::utils::{compute_repayment_shares, get_application_fee, get_borrowed_amount,
    get_duration, get_guarantor_share, get_interest_rate, get_lender_share, get_processing_fee,
    spec_application_fee, spec_borrowed_amount, spec_duration, spec_guarantor_share,
    spec_interest_rate, spec_lender_share, spec_party_share, spec_processing_fee};

verus! {

/// The facts the host runtime states about one presented account: its
/// address, its owner, its balance, whether its holder signed the current
/// operation, and the host's minimum-balance threshold for its storage
/// size.
#[derive(Clone, Copy, Debug)]
pub struct AccountFacts {
    /// The account's address.
    pub key: Identity,
    /// The identity that owns the account.
    pub owner: Identity,
    /// The account's balance.
    pub lamports: u64,
    /// Whether the account's holder signed the current operation.
    pub is_signer: bool,
    /// The host's minimum balance for the account to stay stored.
    pub minimum_balance: u64,
}

/// Whether an account meets the host's minimum-balance threshold.
pub open spec fn spec_rent_ok(a: AccountFacts) -> bool {
    a.lamports >= a.minimum_balance
}

/// One request to the host's value-transfer service.
#[derive(Clone, Copy, Debug, PartialEq)]
pub enum EscrowAction {
    /// Reassign ownership of `account` to `new_owner`, authorized by
    /// `authority` — by the custodian's publicly reproducible derivation
    /// when `by_custodian` holds, by `authority`'s signature otherwise.
    Reassign {
        /// The account whose ownership moves.
        account: Identity,
        /// The identity that owns the account afterwards.
        new_owner: Identity,
        /// The identity that authorizes the reassignment.
        authority: Identity,
        /// Whether the custodian itself authorizes the reassignment.
        by_custodian: bool,
    },
    /// Move `amount` from `source` to `destination`, authorized by
    /// `authority`'s signature.
    Transfer {
        /// The account the value leaves.
        source: Identity,
        /// The account the value reaches.
        destination: Identity,
        /// The identity that authorizes the transfer.
        authority: Identity,
        /// The amount moved.
        amount: u64,
    },
}

/// The outcome of one successfully applied operation: the new loan record
/// to commit, and the custody and transfer actions to perform.
#[derive(Debug, PartialEq)]
pub struct LoanStep {
    /// The new loan record.
    pub loan: Loan,
    /// The value-transfer requests, in order.
    pub actions: Vec<EscrowAction>,
}

/// The accounts `InitLoan` expects.
#[derive(Clone, Copy, Debug)]
pub struct InitLoanAccounts {
    /// The borrower initializing the loan; must sign.
    pub initializer: AccountFacts,
    /// The account that paid the processing fee, to be placed in custody.
    pub fee_escrow: AccountFacts,
    /// The borrower's account that will receive the borrowed funds.
    pub borrower_receive: AccountFacts,
    /// The account holding the loan record.
    pub loan_account: AccountFacts,
    /// The identity of the expected value-transfer service.
    pub token_service: Identity,
}

/// The accounts `GuaranteeLoan` expects.
#[derive(Clone, Copy, Debug)]
pub struct GuaranteeLoanAccounts {
    /// The guarantor; must sign.
    pub guarantor: AccountFacts,
    /// The account holding the collateral, to be placed in custody.
    pub collateral: AccountFacts,
    /// The account that will receive the guarantor's share, to be placed in
    /// custody.
    pub guarantor_repayment: AccountFacts,
    /// The account holding the loan record.
    pub loan_account: AccountFacts,
}

/// The accounts `AcceptLoan` expects.
#[derive(Clone, Copy, Debug)]
pub struct AcceptLoanAccounts {
    /// The lender; must sign.
    pub lender: AccountFacts,
    /// The lender's account the principal leaves.
    pub lender_transfer: AccountFacts,
    /// The account that will receive the lender's share, to be placed in
    /// custody.
    pub lender_repayment: AccountFacts,
    /// The borrower's account that receives the principal.
    pub borrower_receive: AccountFacts,
    /// The account holding the loan record.
    pub loan_account: AccountFacts,
    /// The identity of the expected value-transfer service.
    pub token_service: Identity,
}

/// The accounts `RepayLoan` expects.
#[derive(Clone, Copy, Debug)]
pub struct RepayLoanAccounts {
    /// The payer; must sign.
    pub payer: AccountFacts,
    /// The payer's account the repayment leaves.
    pub payer_token: AccountFacts,
    /// The guarantor recorded when the loan was guaranteed.
    pub guarantor: AccountFacts,
    /// The custodied collateral account, to be released to the guarantor.
    pub collateral: AccountFacts,
    /// The custodied guarantor-repayment account.
    pub guarantor_repayment: AccountFacts,
    /// The lender recorded when the loan was accepted.
    pub lender: AccountFacts,
    /// The custodied lender-repayment account.
    pub lender_repayment: AccountFacts,
    /// The account holding the loan record.
    pub loan_account: AccountFacts,
}

/// What `InitLoan` returns for every input: the first failed check's error,
/// or the record as initialization commits it.
pub open spec fn spec_process_init(
    program_id: Seq<u8>,
    a: InitLoanAccounts,
    record: Seq<u8>,
    amount: u64,
) -> Result<LoanV, LoanError> {
    if !a.initializer.is_signer {
        Err(LoanError::MissingSignature)
    } else if a.fee_escrow.owner@ != a.initializer.key@ {
        Err(LoanError::IncorrectOwnership)
    } else if a.borrower_receive.owner@ != a.token_service@ {
        Err(LoanError::IncorrectOwnership)
    } else if a.loan_account.owner@ != program_id {
        Err(LoanError::IncorrectOwnership)
    } else if !spec_rent_ok(a.loan_account) {
        Err(LoanError::BelowMinimumBalance)
    } else if a.loan_account.lamports < spec_application_fee(a.initializer.key@, amount) * amount {
        Err(LoanError::InsufficientFunds)
    } else {
        match spec_unpack_loan(record) {
            Err(e) => Err(e),
            Ok(l) => if l.initialized {
                Err(LoanError::AlreadyInitialized)
            } else {
                Ok(
                    LoanV {
                        initialized: true,
                        status: LoanStatus::Initialized,
                        initializer: a.initializer.key@,
                        fee_escrow_account: a.fee_escrow.key@,
                        borrower_receive_account: a.borrower_receive.key@,
                        expected_amount: amount,
                        interest_rate: spec_interest_rate(a.initializer.key@, amount),
                        duration: spec_duration(a.initializer.key@, amount),
                        amount: spec_borrowed_amount(
                            spec_duration(a.initializer.key@, amount),
                            spec_interest_rate(a.initializer.key@, amount),
                            spec_processing_fee(
                                a.initializer.key@,
                                amount,
                                spec_duration(a.initializer.key@, amount),
                                spec_interest_rate(a.initializer.key@, amount),
                            ),
                            amount,
                        ) as u64,
                        ..l
                    },
                )
            },
        }
    }
}

/// The actions a successful `InitLoan` requests: the fee-escrow account
/// moves into the custodian's ownership, authorized by the initializer.
pub open spec fn spec_init_actions(
    program_id: Seq<u8>,
    a: InitLoanAccounts,
    actions: Seq<EscrowAction>,
) -> bool {
    &&& actions.len() == 1
    &&& actions[0] matches EscrowAction::Reassign { account, new_owner, authority, by_custodian }
        && account == a.fee_escrow.key && Some(new_owner@) == custodian_of(program_id) && authority
        == a.initializer.key && !by_custodian
}

/// What `GuaranteeLoan` returns for every input.
pub open spec fn spec_process_guarantee(
    program_id: Seq<u8>,
    a: GuaranteeLoanAccounts,
    record: Seq<u8>,
) -> Result<LoanV, LoanError> {
    if !a.guarantor.is_signer {
        Err(LoanError::MissingSignature)
    } else if a.loan_account.owner@ != program_id {
        Err(LoanError::IncorrectOwnership)
    } else if !spec_rent_ok(a.loan_account) {
        Err(LoanError::BelowMinimumBalance)
    } else {
        match spec_unpack_loan(record) {
            Err(e) => Err(e),
            Ok(l) => if !l.initialized {
                Err(LoanError::NotInitialized)
            } else if l.status != LoanStatus::Initialized {
                Err(LoanError::InvalidStateForOperation)
            } else if a.collateral.lamports < l.amount {
                Err(LoanError::InsufficientFunds)
            } else if !spec_rent_ok(a.guarantor_repayment) {
                Err(LoanError::BelowMinimumBalance)
            } else {
                Ok(
                    LoanV {
                        status: LoanStatus::Guaranteed,
                        guarantor: Some(a.guarantor.key@),
                        collateral_account: Some(a.collateral.key@),
                        guarantor_repayment_account: Some(a.guarantor_repayment.key@),
                        ..l
                    },
                )
            },
        }
    }
}

/// The actions a successful `GuaranteeLoan` requests: the collateral and
/// guarantor-repayment accounts move into the custodian's ownership,
/// authorized by the guarantor.
pub open spec fn spec_guarantee_actions(
    program_id: Seq<u8>,
    a: GuaranteeLoanAccounts,
    actions: Seq<EscrowAction>,
) -> bool {
    &&& actions.len() == 2
    &&& actions[0] matches EscrowAction::Reassign { account, new_owner, authority, by_custodian }
        && account == a.collateral.key && Some(new_owner@) == custodian_of(program_id) && authority
        == a.guarantor.key && !by_custodian
    &&& actions[1] matches EscrowAction::Reassign { account, new_owner, authority, by_custodian }
        && account == a.guarantor_repayment.key && Some(new_owner@) == custodian_of(program_id)
        && authority == a.guarantor.key && !by_custodian
}

/// What `AcceptLoan` returns for every input.
pub open spec fn spec_process_accept(
    program_id: Seq<u8>,
    a: AcceptLoanAccounts,
    record: Seq<u8>,
) -> Result<LoanV, LoanError> {
    if !a.lender.is_signer {
        Err(LoanError::MissingSignature)
    } else if a.lender_repayment.owner@ != a.token_service@ {
        Err(LoanError::IncorrectOwnership)
    } else if a.loan_account.owner@ != program_id {
        Err(LoanError::IncorrectOwnership)
    } else if !spec_rent_ok(a.loan_account) {
        Err(LoanError::BelowMinimumBalance)
    } else if !spec_rent_ok(a.lender_repayment) {
        Err(LoanError::BelowMinimumBalance)
    } else {
        match spec_unpack_loan(record) {
            Err(e) => Err(e),
            Ok(l) => if !l.initialized {
                Err(LoanError::NotInitialized)
            } else if l.status != LoanStatus::Guaranteed {
                Err(LoanError::InvalidStateForOperation)
            } else if a.borrower_receive.key@ != l.borrower_receive_account {
                Err(LoanError::NotAuthorized)
            } else if a.lender_transfer.lamports < l.expected_amount {
                Err(LoanError::InsufficientFunds)
            } else {
                Ok(
                    LoanV {
                        status: LoanStatus::Accepted,
                        lender: Some(a.lender.key@),
                        lender_repayment_account: Some(a.lender_repayment.key@),
                        ..l
                    },
                )
            },
        }
    }
}

/// The actions a successful `AcceptLoan` requests: the lender-repayment
/// account moves into the custodian's ownership, and the principal moves
/// from the lender's transfer account to the borrower's receive account,
/// both authorized by the lender.
pub open spec fn spec_accept_actions(
    program_id: Seq<u8>,
    a: AcceptLoanAccounts,
    l: LoanV,
    actions: Seq<EscrowAction>,
) -> bool {
    &&& actions.len() == 2
    &&& actions[0] matches EscrowAction::Reassign { account, new_owner, authority, by_custodian }
        && account == a.lender_repayment.key && Some(new_owner@) == custodian_of(program_id)
        && authority == a.lender.key && !by_custodian
    &&& actions[1] matches EscrowAction::Transfer { source, destination, authority, amount }
        && source == a.lender_transfer.key && destination == a.borrower_receive.key && authority
        == a.lender.key && amount == l.expected_amount
}

/// What `RepayLoan` returns for every input.
pub open spec fn spec_process_repay(a: RepayLoanAccounts, record: Seq<u8>) -> Result<
    LoanV,
    LoanError,
> {
    if !a.payer.is_signer {
        Err(LoanError::MissingSignature)
    } else {
        match spec_unpack_loan(record) {
            Err(e) => Err(e),
            Ok(l) => if !l.initialized {
                Err(LoanError::NotInitialized)
            } else if l.status != LoanStatus::Accepted {
                Err(LoanError::InvalidStateForOperation)
            } else if a.payer_token.lamports < l.amount {
                Err(LoanError::InsufficientFunds)
            } else if Some(a.guarantor.key@) != l.guarantor {
                Err(LoanError::NotAuthorized)
            } else if Some(a.guarantor_repayment.key@) != l.guarantor_repayment_account {
                Err(LoanError::NotAuthorized)
            } else if Some(a.collateral.key@) != l.collateral_account {
                Err(LoanError::NotAuthorized)
            } else if Some(a.lender.key@) != l.lender {
                Err(LoanError::NotAuthorized)
            } else if Some(a.lender_repayment.key@) != l.lender_repayment_account {
                Err(LoanError::NotAuthorized)
            } else {
                Ok(LoanV { status: LoanStatus::Repaid, ..l })
            },
        }
    }
}

/// The actions a successful `RepayLoan` requests, computed over the record
/// `l` the operation started from: the payer funds the guarantor-repayment
/// and lender-repayment accounts with the interest split, then the
/// custodian releases the collateral and both repayment accounts to their
/// beneficiaries, authorizing itself by its reproducible derivation.
pub open spec fn spec_repay_actions(
    program_id: Seq<u8>,
    a: RepayLoanAccounts,
    l: LoanV,
    actions: Seq<EscrowAction>,
) -> bool {
    let fee_pct = spec_processing_fee(l.initializer, l.expected_amount, l.duration, l.interest_rate);
    &&& actions.len() == 5
    &&& actions[0] matches EscrowAction::Transfer { source, destination, authority, amount }
        && source == a.payer_token.key && destination == a.guarantor_repayment.key && authority
        == a.payer.key && amount == spec_party_share(
        l.amount,
        l.expected_amount,
        fee_pct,
        spec_guarantor_share(a.guarantor.key@, l.amount),
    )
    &&& actions[1] matches EscrowAction::Transfer { source, destination, authority, amount }
        && source == a.payer_token.key && destination == a.lender_repayment.key && authority
        == a.payer.key && amount == l.expected_amount + spec_party_share(
        l.amount,
        l.expected_amount,
        fee_pct,
        spec_lender_share(a.lender.key@, l.amount),
    )
    &&& actions[2] matches EscrowAction::Reassign { account, new_owner, authority, by_custodian }
        && account == a.collateral.key && new_owner == a.guarantor.key && Some(authority@)
        == custodian_of(program_id) && by_custodian
    &&& actions[3] matches EscrowAction::Reassign { account, new_owner, authority, by_custodian }
        && account == a.guarantor_repayment.key && new_owner == a.guarantor.key && Some(authority@)
        == custodian_of(program_id) && by_custodian
    &&& actions[4] matches EscrowAction::Reassign { account, new_owner, authority, by_custodian }
        && account == a.lender_repayment.key && new_owner == a.lender.key && Some(authority@)
        == custodian_of(program_id) && by_custodian
}

/// Starts a loan: checks the borrower's signature, the ownership of the
/// fee, receive and record accounts and the record account's balances,
/// computes the rate, term and total repayable amount from the policy,
/// writes the borrower's identities and amounts into the record, and places
/// the fee-escrow account in custody.
pub fn process_init_loan(
    program_id: &Identity,
    accounts: &InitLoanAccounts,
    record: &[u8],
    amount: u64,
) -> (r: Result<LoanStep, LoanError>)
    requires
        custodian_of(program_id@) is Some,
    ensures
        match r {
            Ok(step) => spec_process_init(program_id@, *accounts, record@, amount) == Ok::<
                LoanV,
                LoanError,
            >(step.loan@) && spec_init_actions(program_id@, *accounts, step.actions@),
            Err(e) => spec_process_init(program_id@, *accounts, record@, amount) == Err::<
                LoanV,
                LoanError,
            >(e),
        },
{
    if !accounts.initializer.is_signer {
        return Err(LoanError::MissingSignature);
    }
    if !identity_eq(&accounts.fee_escrow.owner, &accounts.initializer.key) {
        return Err(LoanError::IncorrectOwnership);
    }
    if !identity_eq(&accounts.borrower_receive.owner, &accounts.token_service) {
        return Err(LoanError::IncorrectOwnership);
    }
    if !identity_eq(&accounts.loan_account.owner, program_id) {
        return Err(LoanError::IncorrectOwnership);
    }
    if accounts.loan_account.lamports < accounts.loan_account.minimum_balance {
        return Err(LoanError::BelowMinimumBalance);
    }
    let fee = get_application_fee(&accounts.initializer.key, amount) * amount;
    if accounts.loan_account.lamports < fee {
        return Err(LoanError::InsufficientFunds);
    }
    let loan_info = match Loan::unpack_from_slice(record) {
        Ok(l) => l,
        Err(e) => {
            return Err(e);
        },
    };
    if loan_info.is_initialized() {
        return Err(LoanError::AlreadyInitialized);
    }
    let interest_rate = get_interest_rate(&accounts.initializer.key, amount);
    let duration = get_duration(&accounts.initializer.key, amount);
    proof {
        let fee = spec_processing_fee(accounts.initializer.key@, amount, duration, interest_rate);
        assert(duration == 720);
        let term = duration as int / ((24 * 365) as int);
        assert(term == 720int / 8760int);
        assert(term == 0);
        assert(term * ((interest_rate + fee) as int / 100 + 1) * (amount as int) == 0)
            by (nonlinear_arith)
            requires
                term == 0,
        ;
        assert(spec_borrowed_amount(duration, interest_rate, fee, amount) == 0);
    }
    let borrowed = get_borrowed_amount(&accounts.initializer.key, amount, duration, interest_rate);
    let custodian = match find_custodian(program_id) {
        Some(c) => c,
        None => {
            return vstd::pervasive::unreached();
        },
    };
    let new_loan = Loan {
        initialized: true,
        status: LoanStatus::Initialized,
        initializer: accounts.initializer.key,
        fee_escrow_account: accounts.fee_escrow.key,
        borrower_receive_account: accounts.borrower_receive.key,
        expected_amount: amount,
        interest_rate,
        duration,
        amount: borrowed,
        ..loan_info
    };
    let mut actions: Vec<EscrowAction> = Vec::new();
    actions.push(
        EscrowAction::Reassign {
            account: accounts.fee_escrow.key,
            new_owner: custodian,
            authority: accounts.initializer.key,
            by_custodian: false,
        },
    );
    proof {
        let expected = spec_process_init(program_id@, *accounts, record@, amount);
        assert(expected is Ok && expected->Ok_0 =~~= new_loan@);
    }
    Ok(LoanStep { loan: new_loan, actions })
}

/// Guarantees a loan: checks the guarantor's signature, the record
/// account's ownership and balance, the record's stage, the collateral
/// balance and the repayment account's minimum balance, records the
/// guarantor's identities, and places the collateral and guarantor
/// repayment accounts in custody.
pub fn process_guarantee_loan(
    program_id: &Identity,
    accounts: &GuaranteeLoanAccounts,
    record: &[u8],
) -> (r: Result<LoanStep, LoanError>)
    requires
        custodian_of(program_id@) is Some,
    ensures
        match r {
            Ok(step) => spec_process_guarantee(program_id@, *accounts, record@) == Ok::<
                LoanV,
                LoanError,
            >(step.loan@) && spec_guarantee_actions(program_id@, *accounts, step.actions@),
            Err(e) => spec_process_guarantee(program_id@, *accounts, record@) == Err::<
                LoanV,
                LoanError,
            >(e),
        },
{
    if !accounts.guarantor.is_signer {
        return Err(LoanError::MissingSignature);
    }
    if !identity_eq(&accounts.loan_account.owner, program_id) {
        return Err(LoanError::IncorrectOwnership);
    }
    if accounts.loan_account.lamports < accounts.loan_account.minimum_balance {
        return Err(LoanError::BelowMinimumBalance);
    }
    let loan_data = match Loan::unpack_from_slice(record) {
        Ok(l) => l,
        Err(e) => {
            return Err(e);
        },
    };
    if !loan_data.is_initialized() {
        return Err(LoanError::NotInitialized);
    }
    if !matches!(loan_data.status, LoanStatus::Initialized) {
        return Err(LoanError::InvalidStateForOperation);
    }
    if accounts.collateral.lamports < loan_data.amount {
        return Err(LoanError::InsufficientFunds);
    }
    if accounts.guarantor_repayment.lamports < accounts.guarantor_repayment.minimum_balance {
        return Err(LoanError::BelowMinimumBalance);
    }
    let custodian = match find_custodian(program_id) {
        Some(c) => c,
        None => {
            return vstd::pervasive::unreached();
        },
    };
    let new_loan = Loan {
        status: LoanStatus::Guaranteed,
        guarantor: Some(accounts.guarantor.key),
        collateral_account: Some(accounts.collateral.key),
        guarantor_repayment_account: Some(accounts.guarantor_repayment.key),
        ..loan_data
    };
    let mut actions: Vec<EscrowAction> = Vec::new();
    actions.push(
        EscrowAction::Reassign {
            account: accounts.collateral.key,
            new_owner: custodian,
            authority: accounts.guarantor.key,
            by_custodian: false,
        },
    );
    actions.push(
        EscrowAction::Reassign {
            account: accounts.guarantor_repayment.key,
            new_owner: custodian,
            authority: accounts.guarantor.key,
            by_custodian: false,
        },
    );
    proof {
        let expected = spec_process_guarantee(program_id@, *accounts, record@);
        assert(expected is Ok && expected->Ok_0 =~~= new_loan@);
    }
    Ok(LoanStep { loan: new_loan, actions })
}

/// Accepts a loan: checks the lender's signature, the repayment account's
/// ownership and minimum balance, the record account's ownership and
/// balance, the record's stage, that the presented receive account is the
/// recorded one and that the lender's transfer account covers the
/// principal; records the lender's identities, places the lender-repayment
/// account in custody, and moves the principal to the borrower.
pub fn process_accept_loan(
    program_id: &Identity,
    accounts: &AcceptLoanAccounts,
    record: &[u8],
) -> (r: Result<LoanStep, LoanError>)
    requires
        custodian_of(program_id@) is Some,
    ensures
        match r {
            Ok(step) => spec_process_accept(program_id@, *accounts, record@) == Ok::<
                LoanV,
                LoanError,
            >(step.loan@) && (spec_unpack_loan(record@) matches Ok(l0) && spec_accept_actions(
                program_id@,
                *accounts,
                l0,
                step.actions@,
            )),
            Err(e) => spec_process_accept(program_id@, *accounts, record@) == Err::<
                LoanV,
                LoanError,
            >(e),
        },
{
    if !accounts.lender.is_signer {
        return Err(LoanError::MissingSignature);
    }
    if !identity_eq(&accounts.lender_repayment.owner, &accounts.token_service) {
        return Err(LoanError::IncorrectOwnership);
    }
    if !identity_eq(&accounts.loan_account.owner, program_id) {
        return Err(LoanError::IncorrectOwnership);
    }
    if accounts.loan_account.lamports < accounts.loan_account.minimum_balance {
        return Err(LoanError::BelowMinimumBalance);
    }
    if accounts.lender_repayment.lamports < accounts.lender_repayment.minimum_balance {
        return Err(LoanError::BelowMinimumBalance);
    }
    let loan_data = match Loan::unpack_from_slice(record) {
        Ok(l) => l,
        Err(e) => {
            return Err(e);
        },
    };
    if !loan_data.is_initialized() {
        return Err(LoanError::NotInitialized);
    }
    if !matches!(loan_data.status, LoanStatus::Guaranteed) {
        return Err(LoanError::InvalidStateForOperation);
    }
    if !identity_eq(&accounts.borrower_receive.key, &loan_data.borrower_receive_account) {
        return Err(LoanError::NotAuthorized);
    }
    if accounts.lender_transfer.lamports < loan_data.expected_amount {
        return Err(LoanError::InsufficientFunds);
    }
    let custodian = match find_custodian(program_id) {
        Some(c) => c,
        None => {
            return vstd::pervasive::unreached();
        },
    };
    let new_loan = Loan {
        status: LoanStatus::Accepted,
        lender: Some(accounts.lender.key),
        lender_repayment_account: Some(accounts.lender_repayment.key),
        ..loan_data
    };
    let mut actions: Vec<EscrowAction> = Vec::new();
    actions.push(
        EscrowAction::Reassign {
            account: accounts.lender_repayment.key,
            new_owner: custodian,
            authority: accounts.lender.key,
            by_custodian: false,
        },
    );
    actions.push(
        EscrowAction::Transfer {
            source: accounts.lender_transfer.key,
            destination: accounts.borrower_receive.key,
            authority: accounts.lender.key,
            amount: loan_data.expected_amount,
        },
    );
    proof {
        let expected = spec_process_accept(program_id@, *accounts, record@);
        assert(expected is Ok && expected->Ok_0 =~~= new_loan@);
    }
    Ok(LoanStep { loan: new_loan, actions })
}

/// Repays a loan: checks the payer's signature, the record's stage, the
/// payer's balance, and that every presented account matches the identity
/// recorded at its earlier stage; splits the interest between the protocol,
/// the lender and the guarantor, funds the two repayment accounts, and
/// releases every custodied account to its beneficiary.
pub fn process_repay_loan(
    program_id: &Identity,
    accounts: &RepayLoanAccounts,
    record: &[u8],
) -> (r: Result<LoanStep, LoanError>)
    requires
        custodian_of(program_id@) is Some,
        spec_unpack_loan(record@) matches Ok(l) ==> (l.initialized && l.status
            == LoanStatus::Accepted ==> l.expected_amount <= l.amount),
    ensures
        match r {
            Ok(step) => spec_process_repay(*accounts, record@) == Ok::<LoanV, LoanError>(step.loan@)
                && (spec_unpack_loan(record@) matches Ok(l0) && spec_repay_actions(
                program_id@,
                *accounts,
                l0,
                step.actions@,
            )),
            Err(e) => spec_process_repay(*accounts, record@) == Err::<LoanV, LoanError>(e),
        },
{
    if !accounts.payer.is_signer {
        return Err(LoanError::MissingSignature);
    }
    let loan_data = match Loan::unpack_from_slice(record) {
        Ok(l) => l,
        Err(e) => {
            return Err(e);
        },
    };
    if !loan_data.is_initialized() {
        return Err(LoanError::NotInitialized);
    }
    if !matches!(loan_data.status, LoanStatus::Accepted) {
        return Err(LoanError::InvalidStateForOperation);
    }
    if accounts.payer_token.lamports < loan_data.amount {
        return Err(LoanError::InsufficientFunds);
    }
    if !option_identity_eq(&Some(accounts.guarantor.key), &loan_data.guarantor) {
        return Err(LoanError::NotAuthorized);
    }
    if !option_identity_eq(
        &Some(accounts.guarantor_repayment.key),
        &loan_data.guarantor_repayment_account,
    ) {
        return Err(LoanError::NotAuthorized);
    }
    if !option_identity_eq(&Some(accounts.collateral.key), &loan_data.collateral_account) {
        return Err(LoanError::NotAuthorized);
    }
    if !option_identity_eq(&Some(accounts.lender.key), &loan_data.lender) {
        return Err(LoanError::NotAuthorized);
    }
    if !option_identity_eq(
        &Some(accounts.lender_repayment.key),
        &loan_data.lender_repayment_account,
    ) {
        return Err(LoanError::NotAuthorized);
    }
    let fee_pct = get_processing_fee(
        &loan_data.initializer,
        loan_data.expected_amount,
        loan_data.duration,
        loan_data.interest_rate,
    );
    let lender_pct = get_lender_share(&accounts.lender.key, loan_data.amount);
    let guarantor_pct = get_guarantor_share(&accounts.guarantor.key, loan_data.amount);
    let shares = compute_repayment_shares(
        loan_data.amount,
        loan_data.expected_amount,
        fee_pct,
        lender_pct,
        guarantor_pct,
    );
    let custodian = match find_custodian(program_id) {
        Some(c) => c,
        None => {
            return vstd::pervasive::unreached();
        },
    };
    let new_loan = Loan { status: LoanStatus::Repaid, ..loan_data };
    let mut actions: Vec<EscrowAction> = Vec::new();
    actions.push(
        EscrowAction::Transfer {
            source: accounts.payer_token.key,
            destination: accounts.guarantor_repayment.key,
            authority: accounts.payer.key,
            amount: shares.2,
        },
    );
    actions.push(
        EscrowAction::Transfer {
            source: accounts.payer_token.key,
            destination: accounts.lender_repayment.key,
            authority: accounts.payer.key,
            amount: shares.1,
        },
    );
    actions.push(
        EscrowAction::Reassign {
            account: accounts.collateral.key,
            new_owner: accounts.guarantor.key,
            authority: custodian,
            by_custodian: true,
        },
    );
    actions.push(
        EscrowAction::Reassign {
            account: accounts.guarantor_repayment.key,
            new_owner: accounts.guarantor.key,
            authority: custodian,
            by_custodian: true,
        },
    );
    actions.push(
        EscrowAction::Reassign {
            account: accounts.lender_repayment.key,
            new_owner: accounts.lender.key,
            authority: custodian,
            by_custodian: true,
        },
    );
    proof {
        let expected = spec_process_repay(*accounts, record@);
        assert(expected is Ok && expected->Ok_0 =~~= new_loan@);
    }
    Ok(LoanStep { loan: new_loan, actions })
}

/// How many accounts each operation expects, in the positional order the
/// operation functions document.
pub open spec fn spec_required_accounts(i: LoanInstruction) -> int {
    match i {
        LoanInstruction::InitLoan { .. } => 5,
        LoanInstruction::GuaranteeLoan => 4,
        LoanInstruction::AcceptLoan => 6,
        LoanInstruction::RepayLoan => 8,
    }
}

/// The `InitLoan` accounts at their positions in the presented list.
pub open spec fn spec_init_accounts(s: Seq<AccountFacts>) -> InitLoanAccounts {
    InitLoanAccounts {
        initializer: s[0],
        fee_escrow: s[1],
        borrower_receive: s[2],
        loan_account: s[3],
        token_service: s[4].key,
    }
}

/// The `GuaranteeLoan` accounts at their positions in the presented list.
pub open spec fn spec_guarantee_accounts(s: Seq<AccountFacts>) -> GuaranteeLoanAccounts {
    GuaranteeLoanAccounts {
        guarantor: s[0],
        collateral: s[1],
        guarantor_repayment: s[2],
        loan_account: s[3],
    }
}

/// The `AcceptLoan` accounts at their positions in the presented list.
pub open spec fn spec_accept_accounts(s: Seq<AccountFacts>) -> AcceptLoanAccounts {
    AcceptLoanAccounts {
        lender: s[0],
        lender_transfer: s[1],
        lender_repayment: s[2],
        borrower_receive: s[3],
        loan_account: s[4],
        token_service: s[5].key,
    }
}

/// The `RepayLoan` accounts at their positions in the presented list.
pub open spec fn spec_repay_accounts(s: Seq<AccountFacts>) -> RepayLoanAccounts {
    RepayLoanAccounts {
        payer: s[0],
        payer_token: s[1],
        guarantor: s[2],
        collateral: s[3],
        guarantor_repayment: s[4],
        lender: s[5],
        lender_repayment: s[6],
        loan_account: s[7],
    }
}

/// What one full dispatch returns for every input: the decoded operation
/// applied to the accounts at its expected positions, or the decode error;
/// a request that presents too few accounts for its operation is malformed.
pub open spec fn spec_process(
    program_id: Seq<u8>,
    accounts: Seq<AccountFacts>,
    record: Seq<u8>,
    instruction_data: Seq<u8>,
) -> Result<LoanV, LoanError> {
    match spec_unpack_instruction(instruction_data) {
        Err(e) => Err(e),
        Ok(i) => if accounts.len() < spec_required_accounts(i) {
            Err(LoanError::DecodeError)
        } else {
            match i {
                LoanInstruction::InitLoan { amount } => spec_process_init(
                    program_id,
                    spec_init_accounts(accounts),
                    record,
                    amount,
                ),
                LoanInstruction::GuaranteeLoan => spec_process_guarantee(
                    program_id,
                    spec_guarantee_accounts(accounts),
                    record,
                ),
                LoanInstruction::AcceptLoan => spec_process_accept(
                    program_id,
                    spec_accept_accounts(accounts),
                    record,
                ),
                LoanInstruction::RepayLoan => spec_process_repay(
                    spec_repay_accounts(accounts),
                    record,
                ),
            }
        },
    }
}

/// The actions one full dispatch requests, per decoded operation.
pub open spec fn spec_process_actions(
    program_id: Seq<u8>,
    accounts: Seq<AccountFacts>,
    record: Seq<u8>,
    instruction_data: Seq<u8>,
    actions: Seq<EscrowAction>,
) -> bool {
    match spec_unpack_instruction(instruction_data) {
        Err(_) => true,
        Ok(i) => match i {
            LoanInstruction::InitLoan { .. } => spec_init_actions(
                program_id,
                spec_init_accounts(accounts),
                actions,
            ),
            LoanInstruction::GuaranteeLoan => spec_guarantee_actions(
                program_id,
                spec_guarantee_accounts(accounts),
                actions,
            ),
            LoanInstruction::AcceptLoan => spec_unpack_loan(record) matches Ok(l0)
                && spec_accept_actions(program_id, spec_accept_accounts(accounts), l0, actions),
            LoanInstruction::RepayLoan => spec_unpack_loan(record) matches Ok(l0)
                && spec_repay_actions(program_id, spec_repay_accounts(accounts), l0, actions),
        },
    }
}

/// The loan state machine's entry point.
pub struct Processor;

impl Processor {
    /// Decodes the operation bytes and applies the operation to the
    /// accounts presented, positionally, in the order each operation
    /// documents.
    pub fn process(
        program_id: &Identity,
        accounts: &Vec<AccountFacts>,
        record: &[u8],
        instruction_data: &[u8],
    ) -> (r: Result<LoanStep, LoanError>)
        requires
            custodian_of(program_id@) is Some,
            spec_unpack_loan(record@) matches Ok(l) ==> (l.initialized && l.status
                == LoanStatus::Accepted ==> l.expected_amount <= l.amount),
        ensures
            match r {
                Ok(step) => spec_process(program_id@, accounts@, record@, instruction_data@) == Ok::<
                    LoanV,
                    LoanError,
                >(step.loan@) && spec_process_actions(
                    program_id@,
                    accounts@,
                    record@,
                    instruction_data@,
                    step.actions@,
                ),
                Err(e) => spec_process(program_id@, accounts@, record@, instruction_data@) == Err::<
                    LoanV,
                    LoanError,
                >(e),
            },
    {
        let instruction = match LoanInstruction::unpack(instruction_data) {
            Ok(i) => i,
            Err(e) => {
                return Err(e);
            },
        };
        match instruction {
            LoanInstruction::InitLoan { amount } => {
                if accounts.len() < 5 {
                    return Err(LoanError::DecodeError);
                }
                let a = InitLoanAccounts {
                    initializer: accounts[0],
                    fee_escrow: accounts[1],
                    borrower_receive: accounts[2],
                    loan_account: accounts[3],
                    token_service: accounts[4].key,
                };
                process_init_loan(program_id, &a, record, amount)
            },
            LoanInstruction::GuaranteeLoan => {
                if accounts.len() < 4 {
                    return Err(LoanError::DecodeError);
                }
                let a = GuaranteeLoanAccounts {
                    guarantor: accounts[0],
                    collateral: accounts[1],
                    guarantor_repayment: accounts[2],
                    loan_account: accounts[3],
                };
                process_guarantee_loan(program_id, &a, record)
            },
            LoanInstruction::AcceptLoan => {
                if accounts.len() < 6 {
                    return Err(LoanError::DecodeError);
                }
                let a = AcceptLoanAccounts {
                    lender: accounts[0],
                    lender_transfer: accounts[1],
                    lender_repayment: accounts[2],
                    borrower_receive: accounts[3],
                    loan_account: accounts[4],
                    token_service: accounts[5].key,
                };
                process_accept_loan(program_id, &a, record)
            },
            LoanInstruction::RepayLoan => {
                if accounts.len() < 8 {
                    return Err(LoanError::DecodeError);
                }
                let a = RepayLoanAccounts {
                    payer: accounts[0],
                    payer_token: accounts[1],
                    guarantor: accounts[2],
                    collateral: accounts[3],
                    guarantor_repayment: accounts[4],
                    lender: accounts[5],
                    lender_repayment: accounts[6],
                    loan_account: accounts[7],
                };
                process_repay_loan(program_id, &a, record)
            },
        }
    }
}

/// Runs one operation end to end, first deriving the custodian identity for
/// this protocol identity; yields nothing in the statistically negligible
/// case that no custodian identity can be derived, and performs no work
/// then.
pub fn try_process(
    program_id: &Identity,
    accounts: &Vec<AccountFacts>,
    record: &[u8],
    instruction_data: &[u8],
) -> (r: Option<Result<LoanStep, LoanError>>)
    requires
        spec_unpack_loan(record@) matches Ok(l) ==> (l.initialized && l.status
            == LoanStatus::Accepted ==> l.expected_amount <= l.amount),
    ensures
        match r {
            Some(res) => custodian_of(program_id@) is Some && match res {
                Ok(step) => spec_process(program_id@, accounts@, record@, instruction_data@) == Ok::<
                    LoanV,
                    LoanError,
                >(step.loan@) && spec_process_actions(
                    program_id@,
                    accounts@,
                    record@,
                    instruction_data@,
                    step.actions@,
                ),
                Err(e) => spec_process(program_id@, accounts@, record@, instruction_data@) == Err::<
                    LoanV,
                    LoanError,
                >(e),
            },
            None => custodian_of(program_id@) is None,
        },
{
    match find_custodian(program_id) {
        Some(_) => Some(Processor::process(program_id, accounts, record, instruction_data)),
        None => None,
    }
}

} // verus!
