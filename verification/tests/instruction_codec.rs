//! Tests of the operation wire codec.

use mosh_love_oov::error::LoanError;
use mosh_love_oov::instruction::LoanInstruction;

#[test]
fn unpack_init_loan() {
    let mut data = vec![0u8];
    data.extend_from_slice(&13337u64.to_le_bytes());
    assert_eq!(
        LoanInstruction::unpack(&data),
        Ok(LoanInstruction::InitLoan { amount: 13337 })
    );
}

#[test]
fn unpack_ignores_trailing_bytes() {
    let mut data = vec![0u8];
    data.extend_from_slice(&7u64.to_le_bytes());
    data.extend_from_slice(&[9, 9, 9]);
    assert_eq!(
        LoanInstruction::unpack(&data),
        Ok(LoanInstruction::InitLoan { amount: 7 })
    );
    assert_eq!(
        LoanInstruction::unpack(&[1, 42]),
        Ok(LoanInstruction::GuaranteeLoan)
    );
}

#[test]
fn unpack_simple_tags() {
    assert_eq!(
        LoanInstruction::unpack(&[1]),
        Ok(LoanInstruction::GuaranteeLoan)
    );
    assert_eq!(LoanInstruction::unpack(&[2]), Ok(LoanInstruction::AcceptLoan));
    assert_eq!(LoanInstruction::unpack(&[3]), Ok(LoanInstruction::RepayLoan));
}

#[test]
fn unpack_empty_buffer_is_rejected() {
    assert_eq!(LoanInstruction::unpack(&[]), Err(LoanError::DecodeError));
}

#[test]
fn unpack_unknown_tag_is_rejected() {
    assert_eq!(LoanInstruction::unpack(&[4]), Err(LoanError::DecodeError));
    assert_eq!(LoanInstruction::unpack(&[255, 0, 0]), Err(LoanError::DecodeError));
}

#[test]
fn unpack_short_payload_is_rejected() {
    assert_eq!(
        LoanInstruction::unpack(&[0, 1, 2, 3, 4, 5, 6]),
        Err(LoanError::DecodeError)
    );
}

#[test]
fn pack_init_loan_exact_bytes() {
    let encoded = LoanInstruction::InitLoan { amount: 13337 }.pack_into_vec();
    assert_eq!(encoded, vec![0u8, 0x19, 0x34, 0, 0, 0, 0, 0, 0]);
}

#[test]
fn pack_simple_tags_exact_bytes() {
    assert_eq!(LoanInstruction::GuaranteeLoan.pack_into_vec(), vec![1u8]);
    assert_eq!(LoanInstruction::AcceptLoan.pack_into_vec(), vec![2u8]);
    assert_eq!(LoanInstruction::RepayLoan.pack_into_vec(), vec![3u8]);
}

#[test]
fn wire_codec_round_trips() {
    let ops = vec![
        LoanInstruction::InitLoan { amount: 0 },
        LoanInstruction::InitLoan { amount: u64::MAX },
        LoanInstruction::GuaranteeLoan,
        LoanInstruction::AcceptLoan,
        LoanInstruction::RepayLoan,
    ];
    for op in ops {
        let encoded = op.pack_into_vec();
        assert_eq!(LoanInstruction::unpack(&encoded), Ok(op));
    }
}
