//! The persistent loan record: a fixed-layout structure holding all state
//! for one loan agreement, with its packed byte codec.

use vstd::bytes::{spec_u32_from_le_bytes, spec_u32_to_le_bytes, spec_u64_from_le_bytes,
    spec_u64_to_le_bytes, u32_from_le_bytes, u32_to_le_bytes, u64_from_le_bytes, u64_to_le_bytes};
use vstd::prelude::*;
use vstd::slice::slice_subrange;

use crate::error::LoanError;
use crate::identity::{read_identity, spec_option_view, Identity};
use crate::utils::{pack_coption_key, push_identity, spec_coption_bytes, spec_coption_ok,
    spec_coption_value, unpack_coption_key};

verus! {

/// The lifecycle stage of a loan. Stages are strictly ordered and a record
/// never moves back: Pending < Initialized < Guaranteed < Accepted <
/// Repaid/Cancelled.
#[derive(Clone, Copy, Debug, PartialEq, Eq, Structural)]
pub enum LoanStatus {
    /// The record exists (zero-filled) but no operation has touched it.
    Pending,
    /// `InitLoan` has succeeded.
    Initialized,
    /// `GuaranteeLoan` has succeeded: collateral is in custody.
    Guaranteed,
    /// `AcceptLoan` has succeeded: the principal has moved to the borrower.
    Accepted,
    /// `RepayLoan` has succeeded; terminal.
    Repaid,
    /// Declared terminal stage that no operation currently produces.
    Cancelled,
}

/// The byte that encodes a lifecycle stage.
pub open spec fn spec_status_code(s: LoanStatus) -> u8 {
    match s {
        LoanStatus::Pending => 0,
        LoanStatus::Initialized => 1,
        LoanStatus::Guaranteed => 2,
        LoanStatus::Accepted => 3,
        LoanStatus::Repaid => 4,
        LoanStatus::Cancelled => 5,
    }
}

/// Whether a byte encodes some lifecycle stage.
pub open spec fn spec_status_code_ok(c: u8) -> bool {
    c <= 5
}

/// The lifecycle stage a valid byte encodes (`Pending` on an invalid byte).
pub open spec fn spec_status_of_code(c: u8) -> LoanStatus {
    if c == 1 {
        LoanStatus::Initialized
    } else if c == 2 {
        LoanStatus::Guaranteed
    } else if c == 3 {
        LoanStatus::Accepted
    } else if c == 4 {
        LoanStatus::Repaid
    } else if c == 5 {
        LoanStatus::Cancelled
    } else {
        LoanStatus::Pending
    }
}

impl LoanStatus {
    /// The position of the stage in the lifecycle order.
    pub open spec fn rank(self) -> int {
        spec_status_code(self) as int
    }

    /// Encodes the stage as its status byte.
    pub fn to_code(&self) -> (r: u8)
        ensures
            r == spec_status_code(*self),
    {
        match self {
            LoanStatus::Pending => 0,
            LoanStatus::Initialized => 1,
            LoanStatus::Guaranteed => 2,
            LoanStatus::Accepted => 3,
            LoanStatus::Repaid => 4,
            LoanStatus::Cancelled => 5,
        }
    }

    /// Decodes a status byte; an unknown byte decodes to nothing.
    pub fn from_code(c: u8) -> (r: Option<LoanStatus>)
        ensures
            r == if spec_status_code_ok(c) {
                Some(spec_status_of_code(c))
            } else {
                None::<LoanStatus>
            },
    {
        match c {
            0 => Some(LoanStatus::Pending),
            1 => Some(LoanStatus::Initialized),
            2 => Some(LoanStatus::Guaranteed),
            3 => Some(LoanStatus::Accepted),
            4 => Some(LoanStatus::Repaid),
            5 => Some(LoanStatus::Cancelled),
            _ => None,
        }
    }
}

/// The mathematical content of a loan record: what the packed bytes mean,
/// with identities as raw byte sequences.
#[verifier::ext_equal]
pub struct LoanV {
    /// True once `InitLoan` has succeeded.
    pub initialized: bool,
    /// The current lifecycle stage.
    pub status: LoanStatus,
    /// The borrower who created the loan.
    pub initializer: Seq<u8>,
    /// The account that paid the processing fee, later placed in custody.
    pub fee_escrow_account: Seq<u8>,
    /// The account that receives the borrowed funds.
    pub borrower_receive_account: Seq<u8>,
    /// The guarantor, once one commits collateral.
    pub guarantor: Option<Seq<u8>>,
    /// The collateral-holding account placed in custody.
    pub collateral_account: Option<Seq<u8>>,
    /// The account that receives the guarantor's share at repayment.
    pub guarantor_repayment_account: Option<Seq<u8>>,
    /// The lender, once one accepts the loan.
    pub lender: Option<Seq<u8>>,
    /// The account that receives the lender's share at repayment.
    pub lender_repayment_account: Option<Seq<u8>>,
    /// The principal requested by the borrower.
    pub expected_amount: u64,
    /// The total repayable amount, computed once at initialization.
    pub amount: u64,
    /// The annualized interest rate, in integer percentage units.
    pub interest_rate: u32,
    /// The loan term.
    pub duration: u32,
}

impl LoanV {
    /// Every identity the record holds has the fixed width.
    pub open spec fn wf(self) -> bool {
        &&& self.initializer.len() == 32
        &&& self.fee_escrow_account.len() == 32
        &&& self.borrower_receive_account.len() == 32
        &&& (self.guarantor matches Some(id) ==> id.len() == 32)
        &&& (self.collateral_account matches Some(id) ==> id.len() == 32)
        &&& (self.guarantor_repayment_account matches Some(id) ==> id.len() == 32)
        &&& (self.lender matches Some(id) ==> id.len() == 32)
        &&& (self.lender_repayment_account matches Some(id) ==> id.len() == 32)
    }

    /// A record that no operation has initialized is still at the first
    /// lifecycle stage; bootstrap zero-fills it.
    pub open spec fn consistent(self) -> bool {
        !self.initialized ==> self.status == LoanStatus::Pending
    }
}

/// The persistent loan record.
#[derive(Clone, Copy, Debug, PartialEq)]
pub struct Loan {
    /// True once `InitLoan` has succeeded.
    pub initialized: bool,
    /// The current lifecycle stage.
    pub status: LoanStatus,
    /// The borrower who created the loan.
    pub initializer: Identity,
    /// The account that paid the processing fee, later placed in custody.
    pub fee_escrow_account: Identity,
    /// The account that receives the borrowed funds.
    pub borrower_receive_account: Identity,
    /// The guarantor, once one commits collateral.
    pub guarantor: Option<Identity>,
    /// The collateral-holding account placed in custody.
    pub collateral_account: Option<Identity>,
    /// The account that receives the guarantor's share at repayment.
    pub guarantor_repayment_account: Option<Identity>,
    /// The lender, once one accepts the loan.
    pub lender: Option<Identity>,
    /// The account that receives the lender's share at repayment.
    pub lender_repayment_account: Option<Identity>,
    /// The principal requested by the borrower.
    pub expected_amount: u64,
    /// The total repayable amount, computed once at initialization.
    pub amount: u64,
    /// The annualized interest rate, in integer percentage units.
    pub interest_rate: u32,
    /// The loan term.
    pub duration: u32,
}

impl View for Loan {
    type V = LoanV;

    open spec fn view(&self) -> LoanV {
        LoanV {
            initialized: self.initialized,
            status: self.status,
            initializer: self.initializer@,
            fee_escrow_account: self.fee_escrow_account@,
            borrower_receive_account: self.borrower_receive_account@,
            guarantor: spec_option_view(self.guarantor),
            collateral_account: spec_option_view(self.collateral_account),
            guarantor_repayment_account: spec_option_view(self.guarantor_repayment_account),
            lender: spec_option_view(self.lender),
            lender_repayment_account: spec_option_view(self.lender_repayment_account),
            expected_amount: self.expected_amount,
            amount: self.amount,
            interest_rate: self.interest_rate,
            duration: self.duration,
        }
    }
}

/// The packed encoding of a loan record. Every field is written
/// unconditionally at its constant offset; absent optional identities are
/// written as a zero tag with a zeroed body.
pub open spec fn spec_pack_loan(l: LoanV) -> Seq<u8> {
    seq![if l.initialized { 1u8 } else { 0u8 }, spec_status_code(l.status)] + l.initializer
        + l.fee_escrow_account + l.borrower_receive_account + spec_coption_bytes(l.guarantor)
        + spec_coption_bytes(l.collateral_account) + spec_coption_bytes(
        l.guarantor_repayment_account,
    ) + spec_coption_bytes(l.lender) + spec_coption_bytes(l.lender_repayment_account)
        + spec_u64_to_le_bytes(l.expected_amount) + spec_u64_to_le_bytes(l.amount)
        + spec_u32_to_le_bytes(l.interest_rate) + spec_u32_to_le_bytes(l.duration)
}

/// Whether a byte buffer holds a well-formed loan record: long enough, with
/// valid initialized, status and presence-tag bytes.
pub open spec fn spec_loan_bytes_ok(s: Seq<u8>) -> bool {
    &&& s.len() >= 302
    &&& (s[0] == 0 || s[0] == 1)
    &&& spec_status_code_ok(s[1])
    &&& spec_coption_ok(s.subrange(98, 134))
    &&& spec_coption_ok(s.subrange(134, 170))
    &&& spec_coption_ok(s.subrange(170, 206))
    &&& spec_coption_ok(s.subrange(206, 242))
    &&& spec_coption_ok(s.subrange(242, 278))
}

/// The record a well-formed byte buffer holds.
pub open spec fn spec_loan_of_bytes(s: Seq<u8>) -> LoanV {
    LoanV {
        initialized: s[0] == 1,
        status: spec_status_of_code(s[1]),
        initializer: s.subrange(2, 34),
        fee_escrow_account: s.subrange(34, 66),
        borrower_receive_account: s.subrange(66, 98),
        guarantor: spec_coption_value(s.subrange(98, 134)),
        collateral_account: spec_coption_value(s.subrange(134, 170)),
        guarantor_repayment_account: spec_coption_value(s.subrange(170, 206)),
        lender: spec_coption_value(s.subrange(206, 242)),
        lender_repayment_account: spec_coption_value(s.subrange(242, 278)),
        expected_amount: spec_u64_from_le_bytes(s.subrange(278, 286)),
        amount: spec_u64_from_le_bytes(s.subrange(286, 294)),
        interest_rate: spec_u32_from_le_bytes(s.subrange(294, 298)),
        duration: spec_u32_from_le_bytes(s.subrange(298, 302)),
    }
}

/// Decoding a loan record from a byte buffer: the record the buffer holds,
/// or `CorruptRecord` if the buffer is too short or a tag byte is invalid.
pub open spec fn spec_unpack_loan(s: Seq<u8>) -> Result<LoanV, LoanError> {
    if spec_loan_bytes_ok(s) {
        Ok(spec_loan_of_bytes(s))
    } else {
        Err(LoanError::CorruptRecord)
    }
}

impl Loan {
    /// The packed width of a loan record, in bytes.
    pub const LEN: usize = 302;

    /// Whether `InitLoan` has succeeded on this record.
    pub fn is_initialized(&self) -> (r: bool)
        ensures
            r == self@.initialized,
    {
        self.initialized
    }

    /// Decodes a loan record from the leading bytes of a buffer.
    pub fn unpack_from_slice(src: &[u8]) -> (r: Result<Loan, LoanError>)
        ensures
            match r {
                Ok(l) => spec_unpack_loan(src@) == Ok::<LoanV, LoanError>(l@),
                Err(e) => spec_unpack_loan(src@) == Err::<LoanV, LoanError>(e),
            },
    {
        if src.len() < 302 {
            return Err(LoanError::CorruptRecord);
        }
        let initialized = if src[0] == 0 {
            false
        } else if src[0] == 1 {
            true
        } else {
            return Err(LoanError::CorruptRecord);
        };
        let status = match LoanStatus::from_code(src[1]) {
            Some(st) => st,
            None => {
                return Err(LoanError::CorruptRecord);
            },
        };
        let initializer = read_identity(src, 2);
        let fee_escrow_account = read_identity(src, 34);
        let borrower_receive_account = read_identity(src, 66);
        let guarantor = match unpack_coption_key(src, 98) {
            Ok(o) => o,
            Err(e) => {
                return Err(e);
            },
        };
        let collateral_account = match unpack_coption_key(src, 134) {
            Ok(o) => o,
            Err(e) => {
                return Err(e);
            },
        };
        let guarantor_repayment_account = match unpack_coption_key(src, 170) {
            Ok(o) => o,
            Err(e) => {
                return Err(e);
            },
        };
        let lender = match unpack_coption_key(src, 206) {
            Ok(o) => o,
            Err(e) => {
                return Err(e);
            },
        };
        let lender_repayment_account = match unpack_coption_key(src, 242) {
            Ok(o) => o,
            Err(e) => {
                return Err(e);
            },
        };
        let expected_amount = u64_from_le_bytes(slice_subrange(src, 278, 286));
        let amount = u64_from_le_bytes(slice_subrange(src, 286, 294));
        let interest_rate = u32_from_le_bytes(slice_subrange(src, 294, 298));
        let duration = u32_from_le_bytes(slice_subrange(src, 298, 302));
        let loan = Loan {
            initialized,
            status,
            initializer,
            fee_escrow_account,
            borrower_receive_account,
            guarantor,
            collateral_account,
            guarantor_repayment_account,
            lender,
            lender_repayment_account,
            expected_amount,
            amount,
            interest_rate,
            duration,
        };
        proof {
            assert(loan@ =~~= spec_loan_of_bytes(src@));
        }
        Ok(loan)
    }

    /// Encodes the record into a fresh packed byte vector.
    pub fn pack_to_vec(&self) -> (r: Vec<u8>)
        ensures
            r@ == spec_pack_loan(self@),
            r@.len() == 302,
    {
        let mut out: Vec<u8> = Vec::new();
        out.push(if self.initialized {
            1u8
        } else {
            0u8
        });
        out.push(self.status.to_code());
        push_identity(&mut out, &self.initializer);
        push_identity(&mut out, &self.fee_escrow_account);
        push_identity(&mut out, &self.borrower_receive_account);
        pack_coption_key(&self.guarantor, &mut out);
        pack_coption_key(&self.collateral_account, &mut out);
        pack_coption_key(&self.guarantor_repayment_account, &mut out);
        pack_coption_key(&self.lender, &mut out);
        pack_coption_key(&self.lender_repayment_account, &mut out);
        let mut expected_bytes = u64_to_le_bytes(self.expected_amount);
        out.append(&mut expected_bytes);
        let mut amount_bytes = u64_to_le_bytes(self.amount);
        out.append(&mut amount_bytes);
        let mut rate_bytes = u32_to_le_bytes(self.interest_rate);
        out.append(&mut rate_bytes);
        let mut duration_bytes = u32_to_le_bytes(self.duration);
        out.append(&mut duration_bytes);
        proof {
            assert(out@ =~= spec_pack_loan(self@));
        }
        out
    }

    /// Writes the packed record over the leading bytes of a buffer, leaving
    /// any bytes past the fixed width unchanged.
    pub fn pack_into_slice(&self, dst: &mut Vec<u8>)
        requires
            old(dst)@.len() >= 302,
        ensures
            final(dst)@.len() == old(dst)@.len(),
            final(dst)@ == spec_pack_loan(self@) + old(dst)@.skip(302),
    {
        let enc = self.pack_to_vec();
        let mut i: usize = 0;
        while i < 302
            invariant
                i <= 302,
                enc@ == spec_pack_loan(self@),
                enc@.len() == 302,
                dst@.len() == old(dst)@.len() >= 302,
                forall|j: int| 0 <= j < i ==> dst@[j] == enc@[j],
                forall|j: int| i <= j < dst@.len() ==> dst@[j] == old(dst)@[j],
            decreases 302 - i,
        {
            let b = enc[i];
            dst[i] = b;
            i = i + 1;
        }
        proof {
            assert(dst@ =~= spec_pack_loan(self@) + old(dst)@.skip(302));
        }
    }
}

/// Law: the record codec round-trips. Decoding the encoding of any loan
/// record yields a record equal in all fields to the original, for every
/// status and every combination of present and absent optional identities.
#[verifier::spinoff_prover]
#[verifier::rlimit(100)]
pub proof fn lemma_record_round_trip(l: LoanV)
    requires
        l.wf(),
    ensures
        spec_unpack_loan(spec_pack_loan(l)) == Ok::<LoanV, LoanError>(l),
{
    vstd::bytes::lemma_auto_spec_u64_to_from_le_bytes();
    vstd::bytes::lemma_auto_spec_u32_to_from_le_bytes();
    let s = spec_pack_loan(l);
    assert(s.len() == 302);
    assert(s.subrange(2, 34) =~= l.initializer);
    assert(s.subrange(34, 66) =~= l.fee_escrow_account);
    assert(s.subrange(66, 98) =~= l.borrower_receive_account);
    assert(s.subrange(98, 134) =~= spec_coption_bytes(l.guarantor));
    assert(s.subrange(134, 170) =~= spec_coption_bytes(l.collateral_account));
    assert(s.subrange(170, 206) =~= spec_coption_bytes(l.guarantor_repayment_account));
    assert(s.subrange(206, 242) =~= spec_coption_bytes(l.lender));
    assert(s.subrange(242, 278) =~= spec_coption_bytes(l.lender_repayment_account));
    assert(s.subrange(278, 286) =~= spec_u64_to_le_bytes(l.expected_amount));
    assert(s.subrange(286, 294) =~= spec_u64_to_le_bytes(l.amount));
    assert(s.subrange(294, 298) =~= spec_u32_to_le_bytes(l.interest_rate));
    assert(s.subrange(298, 302) =~= spec_u32_to_le_bytes(l.duration));
    lemma_coption_round_trip(l.guarantor);
    lemma_coption_round_trip(l.collateral_account);
    lemma_coption_round_trip(l.guarantor_repayment_account);
    lemma_coption_round_trip(l.lender);
    lemma_coption_round_trip(l.lender_repayment_account);
    assert(spec_loan_bytes_ok(s));
    assert(spec_loan_of_bytes(s) =~~= l);
}

/// Law: the optional-identity codec round-trips for identities of the fixed
/// width.
pub proof fn lemma_coption_round_trip(o: Option<Seq<u8>>)
    requires
        o matches Some(id) ==> id.len() == 32,
    ensures
        spec_coption_ok(spec_coption_bytes(o)),
        spec_coption_value(spec_coption_bytes(o)) == o,
{
    let s = spec_coption_bytes(o);
    match o {
        Some(id) => {
            assert(s.subrange(4, 36) =~= id);
        },
        None => {},
    }
}

} // verus!
