use rent_share::codec::{decode_account, encode_account, RECORD_LEN};
use rent_share::error::ProgramError;
use rent_share::processor::{CallContext, Effect, Processor};
use rent_share::state::{AgreementStatus, Duration, Pubkey, RentShareAccount};

fn key(n: u64) -> Pubkey {
    Pubkey { w0: n, w1: 0, w2: 0, w3: 0 }
}

fn empty_slot() -> Vec<u8> {
    vec![0u8; RECORD_LEN]
}

fn base_ctx() -> CallContext {
    CallContext {
        agreement_owned_by_program: true,
        agreement_lamports: 10_000,
        rent_exemption_minimum: 1_000,
        payee_key: key(1),
        payer_key: key(2),
        payer_is_signer: true,
        payer_lamports: 100_000,
    }
}

fn initialize_active(ctx: &CallContext, rent_amount: u64, duration: u64) -> Vec<u8> {
    let mut data = empty_slot();
    Processor::initialize_rent_contract(
        ctx,
        &mut data,
        key(1),
        key(2),
        0,
        rent_amount,
        duration,
        Duration::Months.code(),
    )
    .unwrap();
    data
}

fn record_with_status(status: AgreementStatus, remaining: u64) -> Vec<u8> {
    let rec = RentShareAccount {
        status: status.code(),
        payee_pubkey: key(1),
        payer_pubkey: key(2),
        deposit: 0,
        rent_amount: 100,
        duration: 3,
        duration_unit: Duration::Months.code(),
        remaining_payments: remaining,
    };
    encode_account(&rec)
}

#[test]
fn initialize_sets_fields_and_activates() {
    let ctx = base_ctx();
    let mut data = empty_slot();
    let r = Processor::initialize_rent_contract(
        &ctx,
        &mut data,
        key(7),
        key(8),
        250,
        100,
        12,
        Duration::Months.code(),
    );
    assert_eq!(r, Ok(()));
    let rec = decode_account(&data).unwrap();
    assert_eq!(rec.status, AgreementStatus::Active.code());
    assert_eq!(rec.payee_pubkey, key(7));
    assert_eq!(rec.payer_pubkey, key(8));
    assert_eq!(rec.deposit, 250);
    assert_eq!(rec.rent_amount, 100);
    assert_eq!(rec.duration, 12);
    assert_eq!(rec.duration_unit, Duration::Months.code());
    assert_eq!(rec.remaining_payments, 12);
}

#[test]
fn initialize_rejects_already_initialized() {
    let ctx = base_ctx();
    let mut data = initialize_active(&ctx, 100, 12);
    let before = data.clone();
    let r = Processor::initialize_rent_contract(
        &ctx,
        &mut data,
        key(7),
        key(8),
        0,
        999,
        5,
        Duration::Months.code(),
    );
    assert_eq!(r, Err(ProgramError::AccountAlreadyInitialized));
    assert_eq!(data, before);
}

#[test]
fn initialize_requires_program_ownership() {
    let mut ctx = base_ctx();
    ctx.agreement_owned_by_program = false;
    let mut data = empty_slot();
    let before = data.clone();
    let r = Processor::initialize_rent_contract(
        &ctx,
        &mut data,
        key(7),
        key(8),
        0,
        100,
        12,
        0,
    );
    assert_eq!(r, Err(ProgramError::IncorrectProgramId));
    assert_eq!(data, before);
}

#[test]
fn initialize_requires_rent_exemption() {
    let mut ctx = base_ctx();
    ctx.agreement_lamports = 999;
    ctx.rent_exemption_minimum = 1_000;
    let mut data = empty_slot();
    let before = data.clone();
    let r = Processor::initialize_rent_contract(
        &ctx,
        &mut data,
        key(7),
        key(8),
        0,
        100,
        12,
        0,
    );
    assert_eq!(r, Err(ProgramError::AccountNotRentExempt));
    assert_eq!(data, before);
}

#[test]
fn initialize_rejects_wrong_size_slot() {
    let ctx = base_ctx();
    let mut data = vec![0u8; RECORD_LEN - 1];
    let before = data.clone();
    let r = Processor::initialize_rent_contract(
        &ctx,
        &mut data,
        key(7),
        key(8),
        0,
        100,
        12,
        0,
    );
    assert_eq!(r, Err(ProgramError::InvalidAccountData));
    assert_eq!(data, before);
}

#[test]
fn initialize_with_zero_duration_stays_active() {
    let ctx = base_ctx();
    let data = initialize_active(&ctx, 100, 0);
    let rec = decode_account(&data).unwrap();
    assert_eq!(rec.status, AgreementStatus::Active.code());
    assert_eq!(rec.remaining_payments, 0);
}

#[test]
fn pay_rent_rejects_amount_mismatch() {
    let ctx = base_ctx();
    let data = initialize_active(&ctx, 100, 3);
    let r = Processor::pay_rent(&ctx, &data, 99);
    assert_eq!(
        r.map(|_| ()),
        Err(ProgramError::Custom(101))
    );
}

#[test]
fn full_payment_schedule_completes() {
    let ctx = base_ctx();
    let mut data = initialize_active(&ctx, 100, 3);
    assert_eq!(decode_account(&data).unwrap().remaining_payments, 3);
    for expected_remaining in [2u64, 1, 0] {
        let effect = Processor::pay_rent(&ctx, &data, 100).unwrap();
        match effect {
            Effect::Transfer { amount, new_data } => {
                assert_eq!(amount, 100);
                data = new_data;
            }
            other => panic!("expected a transfer, got {:?}", other),
        }
        let rec = decode_account(&data).unwrap();
        assert_eq!(rec.remaining_payments, expected_remaining);
        if expected_remaining == 0 {
            assert_eq!(rec.status, AgreementStatus::Completed.code());
        } else {
            assert_eq!(rec.status, AgreementStatus::Active.code());
        }
    }
    let fourth = Processor::pay_rent(&ctx, &data, 100);
    assert_eq!(fourth.map(|_| ()), Err(ProgramError::Custom(100)));
}

#[test]
fn pay_rent_rejects_completed_agreement() {
    let ctx = base_ctx();
    let data = record_with_status(AgreementStatus::Completed, 0);
    let r = Processor::pay_rent(&ctx, &data, 100);
    assert_eq!(r.map(|_| ()), Err(ProgramError::Custom(100)));
}

#[test]
fn pay_rent_rejects_terminated_agreement() {
    let ctx = base_ctx();
    let data = record_with_status(AgreementStatus::Terminated, 0);
    let r = Processor::pay_rent(&ctx, &data, 100);
    assert_eq!(r.map(|_| ()), Err(ProgramError::Custom(102)));
}

#[test]
fn terminate_early_then_pay_fails() {
    let ctx = base_ctx();
    let mut data = initialize_active(&ctx, 100, 3);
    let r = Processor::terminate_early(&ctx, &mut data);
    assert_eq!(r, Ok(()));
    let rec = decode_account(&data).unwrap();
    assert_eq!(rec.status, AgreementStatus::Terminated.code());
    assert_eq!(rec.remaining_payments, 0);
    let pay = Processor::pay_rent(&ctx, &data, 100);
    assert_eq!(pay.map(|_| ()), Err(ProgramError::Custom(102)));
}

#[test]
fn self_payment_is_noop_whatever_the_record() {
    let mut ctx = base_ctx();
    ctx.payer_key = key(5);
    ctx.payee_key = key(5);
    for data in [
        Vec::new(),
        record_with_status(AgreementStatus::Completed, 0),
        record_with_status(AgreementStatus::Terminated, 0),
    ] {
        let r = Processor::pay_rent(&ctx, &data, 100).unwrap();
        assert!(matches!(r, Effect::SelfPayment), "got {:?}", r);
    }
}

#[test]
fn pay_rent_rejects_insufficient_funds() {
    let mut ctx = base_ctx();
    ctx.payer_lamports = 99;
    let data = initialize_active(&base_ctx(), 100, 3);
    let r = Processor::pay_rent(&ctx, &data, 100);
    assert_eq!(r.map(|_| ()), Err(ProgramError::InsufficientFunds));
}

#[test]
fn pay_rent_requires_signer() {
    let mut ctx = base_ctx();
    ctx.payer_is_signer = false;
    let data = initialize_active(&base_ctx(), 100, 3);
    let r = Processor::pay_rent(&ctx, &data, 100);
    assert_eq!(r.map(|_| ()), Err(ProgramError::MissingRequiredSignature));
}

#[test]
fn pay_rent_requires_ownership() {
    let mut ctx = base_ctx();
    ctx.agreement_owned_by_program = false;
    let data = initialize_active(&base_ctx(), 100, 3);
    let r = Processor::pay_rent(&ctx, &data, 100);
    assert_eq!(r.map(|_| ()), Err(ProgramError::IncorrectProgramId));
}

#[test]
fn pay_rent_rejects_payee_mismatch() {
    let mut ctx = base_ctx();
    ctx.payee_key = key(42);
    let data = initialize_active(&base_ctx(), 100, 3);
    let r = Processor::pay_rent(&ctx, &data, 100);
    assert_eq!(r.map(|_| ()), Err(ProgramError::InvalidAccountData));
}

#[test]
fn pay_rent_rejects_uninitialized() {
    let ctx = base_ctx();
    let data = empty_slot();
    let r = Processor::pay_rent(&ctx, &data, 100);
    assert_eq!(r.map(|_| ()), Err(ProgramError::UninitializedAccount));
}

#[test]
fn pay_rent_rejects_wrong_size_slot() {
    let ctx = base_ctx();
    let data = vec![0u8; RECORD_LEN + 1];
    let r = Processor::pay_rent(&ctx, &data, 100);
    assert_eq!(r.map(|_| ()), Err(ProgramError::InvalidAccountData));
}

#[test]
fn terminate_rejects_uninitialized() {
    let ctx = base_ctx();
    let mut data = empty_slot();
    let r = Processor::terminate_early(&ctx, &mut data);
    assert_eq!(r, Err(ProgramError::UninitializedAccount));
}

#[test]
fn terminate_rejects_completed() {
    let ctx = base_ctx();
    let mut data = record_with_status(AgreementStatus::Completed, 0);
    let before = data.clone();
    let r = Processor::terminate_early(&ctx, &mut data);
    assert_eq!(r, Err(ProgramError::Custom(100)));
    assert_eq!(data, before);
}

#[test]
fn terminate_rejects_terminated() {
    let ctx = base_ctx();
    let mut data = record_with_status(AgreementStatus::Terminated, 0);
    let r = Processor::terminate_early(&ctx, &mut data);
    assert_eq!(r, Err(ProgramError::Custom(102)));
}

#[test]
fn terminate_requires_ownership() {
    let mut ctx = base_ctx();
    ctx.agreement_owned_by_program = false;
    let mut data = initialize_active(&base_ctx(), 100, 3);
    let before = data.clone();
    let r = Processor::terminate_early(&ctx, &mut data);
    assert_eq!(r, Err(ProgramError::IncorrectProgramId));
    assert_eq!(data, before);
}

#[test]
fn process_dispatches_initialize() {
    let ctx = base_ctx();
    let mut data = empty_slot();
    let mut instr = vec![0u8];
    instr.extend_from_slice(&key(7).w0.to_le_bytes());
    instr.extend_from_slice(&[0u8; 24]);
    instr.extend_from_slice(&key(8).w0.to_le_bytes());
    instr.extend_from_slice(&[0u8; 24]);
    instr.extend_from_slice(&250u64.to_le_bytes());
    instr.extend_from_slice(&100u64.to_le_bytes());
    instr.extend_from_slice(&12u64.to_le_bytes());
    instr.push(Duration::Months.code());
    let r = Processor::process(&ctx, &mut data, &instr).unwrap();
    assert!(matches!(r, Effect::Persisted));
    let rec = decode_account(&data).unwrap();
    assert_eq!(rec.status, AgreementStatus::Active.code());
    assert_eq!(rec.payee_pubkey, key(7));
    assert_eq!(rec.payer_pubkey, key(8));
    assert_eq!(rec.deposit, 250);
    assert_eq!(rec.remaining_payments, 12);
}

#[test]
fn process_dispatches_pay_rent() {
    let ctx = base_ctx();
    let mut data = initialize_active(&ctx, 100, 3);
    let before = data.clone();
    let mut instr = vec![1u8];
    instr.extend_from_slice(&100u64.to_le_bytes());
    let r = Processor::process(&ctx, &mut data, &instr).unwrap();
    assert_eq!(data, before);
    match r {
        Effect::Transfer { amount, new_data } => {
            assert_eq!(amount, 100);
            let rec = decode_account(&new_data).unwrap();
            assert_eq!(rec.remaining_payments, 2);
        }
        other => panic!("expected a transfer, got {:?}", other),
    }
}

#[test]
fn process_dispatches_terminate() {
    let ctx = base_ctx();
    let mut data = initialize_active(&ctx, 100, 3);
    let r = Processor::process(&ctx, &mut data, &vec![2u8]).unwrap();
    assert!(matches!(r, Effect::Persisted));
    let rec = decode_account(&data).unwrap();
    assert_eq!(rec.status, AgreementStatus::Terminated.code());
}

#[test]
fn process_rejects_bad_instruction() {
    let ctx = base_ctx();
    let mut data = initialize_active(&ctx, 100, 3);
    let before = data.clone();
    let r = Processor::process(&ctx, &mut data, &vec![9u8]);
    assert_eq!(r.map(|_| ()), Err(ProgramError::InvalidInstructionData));
    assert_eq!(data, before);
}
