//! Tests of the four lifecycle operations, their authorization and
//! precondition checks, and the custody actions they request.

use mosh_love_oov::error::LoanError;
use mosh_love_oov::identity::Identity;
use mosh_love_oov::instruction::LoanInstruction;
use mosh_love_oov::processor::{
    process_accept_loan, process_guarantee_loan, process_init_loan, process_repay_loan,
    try_process, AcceptLoanAccounts, AccountFacts, EscrowAction, GuaranteeLoanAccounts,
    InitLoanAccounts, Processor, RepayLoanAccounts,
};
use mosh_love_oov::state::{Loan, LoanStatus};

fn id(b: u8) -> Identity {
    Identity::new([b; 32])
}

fn acct(key: u8, owner: u8, lamports: u64, is_signer: bool, minimum_balance: u64) -> AccountFacts {
    AccountFacts {
        key: id(key),
        owner: id(owner),
        lamports,
        is_signer,
        minimum_balance,
    }
}

/// The custodian identity the protocol must derive, reproduced
/// independently through the host's own derivation.
fn expected_custodian(program_id: &Identity) -> Identity {
    let program = solana_program::pubkey::Pubkey::new_from_array(program_id.bytes);
    let (pda, _bump) = solana_program::pubkey::Pubkey::find_program_address(&[b"loan"], &program);
    Identity::new(pda.to_bytes())
}

const PROGRAM: u8 = 90;
const TOKEN_SERVICE: u8 = 99;

fn init_accounts() -> InitLoanAccounts {
    InitLoanAccounts {
        initializer: acct(1, 0, 0, true, 0),
        fee_escrow: acct(2, 1, 50000, false, 0),
        borrower_receive: acct(3, TOKEN_SERVICE, 0, false, 0),
        loan_account: acct(4, PROGRAM, 2000000, false, 1000),
        token_service: id(TOKEN_SERVICE),
    }
}

fn initialized_record() -> Vec<u8> {
    let step = process_init_loan(&id(PROGRAM), &init_accounts(), &vec![0u8; 302], 13337).unwrap();
    step.loan.pack_to_vec()
}

fn guarantee_accounts() -> GuaranteeLoanAccounts {
    GuaranteeLoanAccounts {
        guarantor: acct(10, 0, 0, true, 0),
        collateral: acct(11, 10, 100000, false, 0),
        guarantor_repayment: acct(12, 10, 5000, false, 1000),
        loan_account: acct(4, PROGRAM, 2000000, false, 1000),
    }
}

fn guaranteed_record() -> Vec<u8> {
    let step =
        process_guarantee_loan(&id(PROGRAM), &guarantee_accounts(), &initialized_record()).unwrap();
    step.loan.pack_to_vec()
}

fn accept_accounts() -> AcceptLoanAccounts {
    AcceptLoanAccounts {
        lender: acct(20, 0, 0, true, 0),
        lender_transfer: acct(21, 20, 100000, false, 0),
        lender_repayment: acct(22, TOKEN_SERVICE, 5000, false, 1000),
        borrower_receive: acct(3, TOKEN_SERVICE, 0, false, 0),
        loan_account: acct(4, PROGRAM, 2000000, false, 1000),
        token_service: id(TOKEN_SERVICE),
    }
}

fn accepted_record() -> Vec<u8> {
    // A record as the earlier stages leave it, with the repayable amount of
    // the worked repayment example.
    Loan {
        initialized: true,
        status: LoanStatus::Accepted,
        initializer: id(1),
        fee_escrow_account: id(2),
        borrower_receive_account: id(3),
        guarantor: Some(id(10)),
        collateral_account: Some(id(11)),
        guarantor_repayment_account: Some(id(12)),
        lender: Some(id(20)),
        lender_repayment_account: Some(id(22)),
        expected_amount: 13337,
        amount: 20000,
        interest_rate: 9,
        duration: 720,
    }
    .pack_to_vec()
}

fn repay_accounts() -> RepayLoanAccounts {
    RepayLoanAccounts {
        payer: acct(30, 0, 0, true, 0),
        payer_token: acct(31, 30, 20000, false, 0),
        guarantor: acct(10, 0, 0, false, 0),
        collateral: acct(11, 0, 100000, false, 0),
        guarantor_repayment: acct(12, 0, 5000, false, 1000),
        lender: acct(20, 0, 0, false, 0),
        lender_repayment: acct(22, 0, 5000, false, 1000),
        loan_account: acct(4, PROGRAM, 2000000, false, 1000),
    }
}

#[test]
fn init_loan_succeeds_and_escrows_the_fee_account() {
    let program_id = id(PROGRAM);
    let step = process_init_loan(&program_id, &init_accounts(), &vec![0u8; 302], 13337).unwrap();

    assert!(step.loan.initialized);
    assert_eq!(step.loan.status, LoanStatus::Initialized);
    assert_eq!(step.loan.initializer, id(1));
    assert_eq!(step.loan.fee_escrow_account, id(2));
    assert_eq!(step.loan.borrower_receive_account, id(3));
    assert_eq!(step.loan.guarantor, None);
    assert_eq!(step.loan.collateral_account, None);
    assert_eq!(step.loan.guarantor_repayment_account, None);
    assert_eq!(step.loan.lender, None);
    assert_eq!(step.loan.lender_repayment_account, None);
    assert_eq!(step.loan.expected_amount, 13337);
    assert_eq!(step.loan.interest_rate, 9);
    assert_eq!(step.loan.duration, 24 * 30);
    // The literal repayable-amount formula floors the 720-hour term to zero
    // years, so the whole amount degenerates to zero.
    assert_eq!(step.loan.amount, 0);

    let custodian = expected_custodian(&program_id);
    assert_ne!(custodian, program_id);
    assert_eq!(
        step.actions,
        vec![EscrowAction::Reassign {
            account: id(2),
            new_owner: custodian,
            authority: id(1),
            by_custodian: false,
        }]
    );
}

#[test]
fn init_loan_rejects_bad_requests() {
    let program_id = id(PROGRAM);
    let record = vec![0u8; 302];

    let mut a = init_accounts();
    a.initializer.is_signer = false;
    assert_eq!(
        process_init_loan(&program_id, &a, &record, 13337),
        Err(LoanError::MissingSignature)
    );

    let mut a = init_accounts();
    a.fee_escrow.owner = id(7);
    assert_eq!(
        process_init_loan(&program_id, &a, &record, 13337),
        Err(LoanError::IncorrectOwnership)
    );

    let mut a = init_accounts();
    a.borrower_receive.owner = id(7);
    assert_eq!(
        process_init_loan(&program_id, &a, &record, 13337),
        Err(LoanError::IncorrectOwnership)
    );

    let mut a = init_accounts();
    a.loan_account.owner = id(7);
    assert_eq!(
        process_init_loan(&program_id, &a, &record, 13337),
        Err(LoanError::IncorrectOwnership)
    );

    let mut a = init_accounts();
    a.loan_account.lamports = 999;
    assert_eq!(
        process_init_loan(&program_id, &a, &record, 13337),
        Err(LoanError::BelowMinimumBalance)
    );

    // Enough to stay stored, not enough to cover the application fee.
    let mut a = init_accounts();
    a.loan_account.lamports = 13336;
    assert_eq!(
        process_init_loan(&program_id, &a, &record, 13337),
        Err(LoanError::InsufficientFunds)
    );

    assert_eq!(
        process_init_loan(&program_id, &init_accounts(), &vec![1u8; 302], 13337),
        Err(LoanError::CorruptRecord)
    );
}

#[test]
fn init_loan_rejects_a_second_initialization() {
    let program_id = id(PROGRAM);
    let record = initialized_record();
    assert_eq!(
        process_init_loan(&program_id, &init_accounts(), &record, 13337),
        Err(LoanError::AlreadyInitialized)
    );
}

#[test]
fn guarantee_loan_succeeds_and_escrows_collateral_and_repayment() {
    let program_id = id(PROGRAM);
    let step =
        process_guarantee_loan(&program_id, &guarantee_accounts(), &initialized_record()).unwrap();

    assert_eq!(step.loan.status, LoanStatus::Guaranteed);
    assert_eq!(step.loan.guarantor, Some(id(10)));
    assert_eq!(step.loan.collateral_account, Some(id(11)));
    assert_eq!(step.loan.guarantor_repayment_account, Some(id(12)));
    assert_eq!(step.loan.initializer, id(1));
    assert_eq!(step.loan.expected_amount, 13337);

    let custodian = expected_custodian(&program_id);
    assert_eq!(
        step.actions,
        vec![
            EscrowAction::Reassign {
                account: id(11),
                new_owner: custodian,
                authority: id(10),
                by_custodian: false,
            },
            EscrowAction::Reassign {
                account: id(12),
                new_owner: custodian,
                authority: id(10),
                by_custodian: false,
            },
        ]
    );
}

#[test]
fn guarantee_loan_rejects_bad_requests() {
    let program_id = id(PROGRAM);
    let record = initialized_record();

    let mut a = guarantee_accounts();
    a.guarantor.is_signer = false;
    assert_eq!(
        process_guarantee_loan(&program_id, &a, &record),
        Err(LoanError::MissingSignature)
    );

    let mut a = guarantee_accounts();
    a.loan_account.owner = id(7);
    assert_eq!(
        process_guarantee_loan(&program_id, &a, &record),
        Err(LoanError::IncorrectOwnership)
    );

    let mut a = guarantee_accounts();
    a.loan_account.lamports = 999;
    assert_eq!(
        process_guarantee_loan(&program_id, &a, &record),
        Err(LoanError::BelowMinimumBalance)
    );

    assert_eq!(
        process_guarantee_loan(&program_id, &guarantee_accounts(), &vec![0u8; 302]),
        Err(LoanError::NotInitialized)
    );

    assert_eq!(
        process_guarantee_loan(&program_id, &guarantee_accounts(), &guaranteed_record()),
        Err(LoanError::InvalidStateForOperation)
    );

    // The collateral must cover the repayable amount before any custody
    // reassignment is requested.
    let mut a = guarantee_accounts();
    a.collateral.lamports = 19999;
    assert_eq!(
        process_guarantee_loan(&program_id, &a, &accepted_record_at(LoanStatus::Initialized)),
        Err(LoanError::InsufficientFunds)
    );

    let mut a = guarantee_accounts();
    a.guarantor_repayment.lamports = 999;
    assert_eq!(
        process_guarantee_loan(&program_id, &a, &record),
        Err(LoanError::BelowMinimumBalance)
    );
}

/// The worked record, moved to the given stage.
fn accepted_record_at(status: LoanStatus) -> Vec<u8> {
    let mut bytes = accepted_record();
    let mut loan = Loan::unpack_from_slice(&bytes).unwrap();
    loan.status = status;
    bytes = loan.pack_to_vec();
    bytes
}

#[test]
fn accept_loan_succeeds_escrows_repayment_and_funds_the_borrower() {
    let program_id = id(PROGRAM);
    let step = process_accept_loan(&program_id, &accept_accounts(), &guaranteed_record()).unwrap();

    assert_eq!(step.loan.status, LoanStatus::Accepted);
    assert_eq!(step.loan.lender, Some(id(20)));
    assert_eq!(step.loan.lender_repayment_account, Some(id(22)));
    assert_eq!(step.loan.guarantor, Some(id(10)));

    let custodian = expected_custodian(&program_id);
    assert_eq!(
        step.actions,
        vec![
            EscrowAction::Reassign {
                account: id(22),
                new_owner: custodian,
                authority: id(20),
                by_custodian: false,
            },
            EscrowAction::Transfer {
                source: id(21),
                destination: id(3),
                authority: id(20),
                amount: 13337,
            },
        ]
    );
}

#[test]
fn accept_loan_rejects_bad_requests() {
    let program_id = id(PROGRAM);
    let record = guaranteed_record();

    let mut a = accept_accounts();
    a.lender.is_signer = false;
    assert_eq!(
        process_accept_loan(&program_id, &a, &record),
        Err(LoanError::MissingSignature)
    );

    let mut a = accept_accounts();
    a.lender_repayment.owner = id(7);
    assert_eq!(
        process_accept_loan(&program_id, &a, &record),
        Err(LoanError::IncorrectOwnership)
    );

    assert_eq!(
        process_accept_loan(&program_id, &accept_accounts(), &initialized_record()),
        Err(LoanError::InvalidStateForOperation)
    );

    // The presented receive account must be the one recorded at
    // initialization.
    let mut a = accept_accounts();
    a.borrower_receive.key = id(7);
    assert_eq!(
        process_accept_loan(&program_id, &a, &record),
        Err(LoanError::NotAuthorized)
    );

    // The lender's transfer account must cover the principal before any
    // transfer is requested.
    let mut a = accept_accounts();
    a.lender_transfer.lamports = 13336;
    assert_eq!(
        process_accept_loan(&program_id, &a, &record),
        Err(LoanError::InsufficientFunds)
    );
}

#[test]
fn repay_loan_splits_interest_funds_repayments_and_releases_escrow() {
    let program_id = id(PROGRAM);
    let step = process_repay_loan(&program_id, &repay_accounts(), &accepted_record()).unwrap();

    assert_eq!(step.loan.status, LoanStatus::Repaid);
    assert_eq!(step.loan.guarantor, Some(id(10)));
    assert_eq!(step.loan.amount, 20000);

    // Interest 6663: the protocol's share is 66, the guarantor and the
    // lender each receive half of the remaining 6597, floored; the lender
    // also receives the principal back.
    let custodian = expected_custodian(&program_id);
    assert_eq!(
        step.actions,
        vec![
            EscrowAction::Transfer {
                source: id(31),
                destination: id(12),
                authority: id(30),
                amount: 3298,
            },
            EscrowAction::Transfer {
                source: id(31),
                destination: id(22),
                authority: id(30),
                amount: 13337 + 3298,
            },
            EscrowAction::Reassign {
                account: id(11),
                new_owner: id(10),
                authority: custodian,
                by_custodian: true,
            },
            EscrowAction::Reassign {
                account: id(12),
                new_owner: id(10),
                authority: custodian,
                by_custodian: true,
            },
            EscrowAction::Reassign {
                account: id(22),
                new_owner: id(20),
                authority: custodian,
                by_custodian: true,
            },
        ]
    );
}

#[test]
fn repay_loan_rejects_bad_requests() {
    let program_id = id(PROGRAM);
    let record = accepted_record();

    let mut a = repay_accounts();
    a.payer.is_signer = false;
    assert_eq!(
        process_repay_loan(&program_id, &a, &record),
        Err(LoanError::MissingSignature)
    );

    assert_eq!(
        process_repay_loan(&program_id, &repay_accounts(), &vec![0u8; 302]),
        Err(LoanError::NotInitialized)
    );

    assert_eq!(
        process_repay_loan(&program_id, &repay_accounts(), &guaranteed_record()),
        Err(LoanError::InvalidStateForOperation)
    );

    // The payer must cover the whole repayable amount before any transfer
    // or release is requested.
    let mut a = repay_accounts();
    a.payer_token.lamports = 19999;
    assert_eq!(
        process_repay_loan(&program_id, &a, &record),
        Err(LoanError::InsufficientFunds)
    );

    // Every presented account must match the identity recorded at its
    // earlier stage.
    let mut a = repay_accounts();
    a.guarantor.key = id(7);
    assert_eq!(
        process_repay_loan(&program_id, &a, &record),
        Err(LoanError::NotAuthorized)
    );

    let mut a = repay_accounts();
    a.guarantor_repayment.key = id(7);
    assert_eq!(
        process_repay_loan(&program_id, &a, &record),
        Err(LoanError::NotAuthorized)
    );

    let mut a = repay_accounts();
    a.collateral.key = id(7);
    assert_eq!(
        process_repay_loan(&program_id, &a, &record),
        Err(LoanError::NotAuthorized)
    );

    let mut a = repay_accounts();
    a.lender.key = id(7);
    assert_eq!(
        process_repay_loan(&program_id, &a, &record),
        Err(LoanError::NotAuthorized)
    );

    let mut a = repay_accounts();
    a.lender_repayment.key = id(7);
    assert_eq!(
        process_repay_loan(&program_id, &a, &record),
        Err(LoanError::NotAuthorized)
    );
}

#[test]
fn dispatch_runs_a_full_lifecycle_with_monotone_status() {
    let program_id = id(PROGRAM);
    // A zero principal keeps the repayable amount at zero, which the
    // payer's empty account can cover at repayment.
    let mut record = vec![0u8; 302];
    let mut ranks: Vec<u8> = vec![Loan::unpack_from_slice(&record).unwrap().status.to_code()];

    let steps: Vec<(Vec<AccountFacts>, Vec<u8>)> = vec![
        (
            vec![
                acct(1, 0, 0, true, 0),
                acct(2, 1, 50000, false, 0),
                acct(3, TOKEN_SERVICE, 0, false, 0),
                acct(4, PROGRAM, 2000000, false, 1000),
                acct(TOKEN_SERVICE, 0, 0, false, 0),
            ],
            LoanInstruction::InitLoan { amount: 0 }.pack_into_vec(),
        ),
        (
            vec![
                acct(10, 0, 0, true, 0),
                acct(11, 10, 100000, false, 0),
                acct(12, 10, 5000, false, 1000),
                acct(4, PROGRAM, 2000000, false, 1000),
            ],
            LoanInstruction::GuaranteeLoan.pack_into_vec(),
        ),
        (
            vec![
                acct(20, 0, 0, true, 0),
                acct(21, 20, 100000, false, 0),
                acct(22, TOKEN_SERVICE, 5000, false, 1000),
                acct(3, TOKEN_SERVICE, 0, false, 0),
                acct(4, PROGRAM, 2000000, false, 1000),
                acct(TOKEN_SERVICE, 0, 0, false, 0),
            ],
            LoanInstruction::AcceptLoan.pack_into_vec(),
        ),
        (
            vec![
                acct(30, 0, 0, true, 0),
                acct(31, 30, 20000, false, 0),
                acct(10, 0, 0, false, 0),
                acct(11, 0, 100000, false, 0),
                acct(12, 0, 5000, false, 1000),
                acct(20, 0, 0, false, 0),
                acct(22, 0, 5000, false, 1000),
                acct(4, PROGRAM, 2000000, false, 1000),
            ],
            LoanInstruction::RepayLoan.pack_into_vec(),
        ),
    ];

    for (accounts, instruction_data) in steps {
        let step = Processor::process(&program_id, &accounts, &record, &instruction_data).unwrap();
        record = step.loan.pack_to_vec();
        ranks.push(step.loan.status.to_code());
    }

    assert_eq!(ranks, vec![0, 1, 2, 3, 4]);
}

#[test]
fn dispatch_rejects_malformed_requests() {
    let program_id = id(PROGRAM);
    let record = vec![0u8; 302];

    assert!(matches!(
        Processor::process(&program_id, &vec![], &record, &[9]),
        Err(LoanError::DecodeError)
    ));

    // Too few accounts for the decoded operation.
    let accounts = vec![acct(1, 0, 0, true, 0)];
    assert!(matches!(
        Processor::process(
            &program_id,
            &accounts,
            &record,
            &LoanInstruction::GuaranteeLoan.pack_into_vec()
        ),
        Err(LoanError::DecodeError)
    ));
}

#[test]
fn try_process_derives_a_custodian_and_runs() {
    let program_id = id(PROGRAM);
    let record = initialized_record();
    let accounts = vec![
        acct(10, 0, 0, true, 0),
        acct(11, 10, 100000, false, 0),
        acct(12, 10, 5000, false, 1000),
        acct(4, PROGRAM, 2000000, false, 1000),
    ];
    let result = try_process(
        &program_id,
        &accounts,
        &record,
        &LoanInstruction::GuaranteeLoan.pack_into_vec(),
    );
    let step = result.unwrap().unwrap();
    assert_eq!(step.loan.status, LoanStatus::Guaranteed);
    assert_eq!(step.actions.len(), 2);
}
