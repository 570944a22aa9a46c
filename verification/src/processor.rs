//! The transition engine: it dispatches the three typed operations, gates
//! each behind the authorization and precondition rules, applies the status
//! transitions, and persists the result into the agreement slot's buffer.
//!
//! Every check happens strictly before any record mutation: a rejected
//! operation leaves the persisted bytes byte-for-byte unchanged. The one
//! external step, the value transfer of a payment, is handed back to the
//! caller as an [`Effect::Transfer`]: the caller moves the funds and writes
//! the returned bytes into the slot only when that transfer succeeded, so a
//! failed transfer also leaves the record unchanged.
//!
//! The hosting environment supplies its determinations as the plain fields
//! of a [`CallContext`]: whether the slot is owned by this program's logic,
//! the slot's balance and the rent-exemption threshold for its size, the
//! call-time payee and payer identities, whether the payer authorized the
//! call, and the payer's spendable balance.
//!
//! Early termination runs no signer check: only a payment's payer is ever
//! authenticated, so any caller able to name the slot can
//! terminate the agreement.

use crate::codec::{decode_account, decode_spec, encode_account, encode_spec, RECORD_LEN};
use crate::error::{ProgramError, RentShareError};
use crate::instruction::{unpack_spec, RentShareInstruction};
use crate::state::{
    initialized_record, record_after_payment, terminated_record, Pubkey, RentShareAccount,
    STATUS_COMPLETED, STATUS_TERMINATED, STATUS_UNINITIALIZED,
};
use vstd::prelude::*;

verus! {

/// The hosting environment's determinations for one call, as plain values.
#[derive(Clone, Copy, Debug, PartialEq, Eq, Structural)]
pub struct CallContext {
    /// Whether the agreement storage slot is controlled by this program's
    /// logic (the host's ownership assertion).
    pub agreement_owned_by_program: bool,
    /// Balance currently backing the agreement storage slot.
    pub agreement_lamports: u64,
    /// Minimum balance the slot must hold, for its size, to be exempt from
    /// reclamation; supplied by the host's rent-exemption source.
    pub rent_exemption_minimum: u64,
    /// Identity supplied at call time as the payment's recipient.
    pub payee_key: Pubkey,
    /// Identity supplied at call time as the payment's source.
    pub payer_key: Pubkey,
    /// Whether the payer presented proof of authorization for the call
    /// (the host's signer assertion).
    pub payer_is_signer: bool,
    /// The payer's current spendable balance.
    pub payer_lamports: u64,
}

/// What a successful operation asks of the caller.
#[derive(Debug)]
pub enum Effect {
    /// The record was updated in place; nothing is left to do.
    Persisted,
    /// The payment was from an identity to itself: deliberately a no-op,
    /// with no value transfer and no record mutation.
    SelfPayment,
    /// The caller must move `amount` from payer to payee and, only when
    /// that transfer succeeds, write `new_data` into the agreement slot.
    Transfer {
        /// Amount to move from payer to payee.
        amount: u64,
        /// The record bytes to persist on transfer success.
        new_data: Vec<u8>,
    },
}

/// The outcome a payment call decides on: a rejection, the self-payment
/// no-op, or a transfer followed by persisting the given record bytes.
pub enum PayRentModel {
    /// The operation fails with this error; nothing is transferred and the
    /// record is unchanged.
    Reject(ProgramError),
    /// Payer and payee are the same identity: succeed with no transfer and
    /// no record mutation.
    SelfPayment,
    /// Transfer the asserted amount and persist these record bytes.
    Transfer(Seq<u8>),
}

/// The ordered decision cascade of a payment, exactly as the engine runs
/// it: ownership, signer, balance, the self-payment short circuit, record
/// shape, initialization, payee match, the two terminal statuses, and the
/// amount match; past every gate, the transfer and the stepped record.
pub open spec fn pay_rent_spec(ctx: CallContext, data: Seq<u8>, rent_amount: u64) -> PayRentModel {
    if !ctx.agreement_owned_by_program {
        PayRentModel::Reject(ProgramError::IncorrectProgramId)
    } else if !ctx.payer_is_signer {
        PayRentModel::Reject(ProgramError::MissingRequiredSignature)
    } else if ctx.payer_lamports < rent_amount {
        PayRentModel::Reject(ProgramError::InsufficientFunds)
    } else if ctx.payer_key == ctx.payee_key {
        PayRentModel::SelfPayment
    } else if data.len() != RECORD_LEN {
        PayRentModel::Reject(ProgramError::InvalidAccountData)
    } else {
        let r = decode_spec(data);
        if r.status == STATUS_UNINITIALIZED {
            PayRentModel::Reject(ProgramError::UninitializedAccount)
        } else if r.payee_pubkey != ctx.payee_key {
            PayRentModel::Reject(ProgramError::InvalidAccountData)
        } else if r.status == STATUS_COMPLETED {
            PayRentModel::Reject(
                ProgramError::Custom(RentShareError::RentAlreadyPaidInFull.code_spec()),
            )
        } else if r.status == STATUS_TERMINATED {
            PayRentModel::Reject(
                ProgramError::Custom(RentShareError::RentAgreementTerminated.code_spec()),
            )
        } else if r.rent_amount != rent_amount {
            PayRentModel::Reject(
                ProgramError::Custom(RentShareError::RentPaymentAmountMismatch.code_spec()),
            )
        } else {
            PayRentModel::Transfer(encode_spec(record_after_payment(r)))
        }
    }
}

/// A payment that reaches its transfer decrements a positive count. The
/// one way to present a payable record with nothing remaining is an
/// agreement initialized with a duration of zero (or a hand-crafted
/// buffer); on such input the decrement would underflow, so the engine
/// asks its callers to keep it out.
pub open spec fn pay_rent_decrement_safe(ctx: CallContext, data: Seq<u8>, rent_amount: u64) -> bool {
    pay_rent_spec(ctx, data, rent_amount) is Transfer ==> decode_spec(
        data,
    ).remaining_payments >= 1
}

/// The slot bytes Initialize persists, or the error rejecting it: the slot
/// must be owned by this logic, rent-exempt, of the exact record size, and
/// not already initialized; then the freshly initialized record is written.
pub open spec fn initialize_spec(
    ctx: CallContext,
    data: Seq<u8>,
    payee_pubkey: Pubkey,
    payer_pubkey: Pubkey,
    deposit: u64,
    rent_amount: u64,
    duration: u64,
    duration_unit: u8,
) -> Result<Seq<u8>, ProgramError> {
    if !ctx.agreement_owned_by_program {
        Err(ProgramError::IncorrectProgramId)
    } else if ctx.agreement_lamports < ctx.rent_exemption_minimum {
        Err(ProgramError::AccountNotRentExempt)
    } else if data.len() != RECORD_LEN {
        Err(ProgramError::InvalidAccountData)
    } else if decode_spec(data).status != STATUS_UNINITIALIZED {
        Err(ProgramError::AccountAlreadyInitialized)
    } else {
        Ok(
            encode_spec(
                initialized_record(
                    payee_pubkey,
                    payer_pubkey,
                    deposit,
                    rent_amount,
                    duration,
                    duration_unit,
                ),
            ),
        )
    }
}

/// The slot bytes TerminateEarly persists, or the error rejecting it: the
/// slot must be owned by this logic and hold an initialized record that is
/// neither completed nor terminated; then the terminated record is written.
pub open spec fn terminate_spec(ctx: CallContext, data: Seq<u8>) -> Result<Seq<u8>, ProgramError> {
    if !ctx.agreement_owned_by_program {
        Err(ProgramError::IncorrectProgramId)
    } else if data.len() != RECORD_LEN {
        Err(ProgramError::InvalidAccountData)
    } else {
        let r = decode_spec(data);
        if r.status == STATUS_UNINITIALIZED {
            Err(ProgramError::UninitializedAccount)
        } else if r.status == STATUS_COMPLETED {
            Err(ProgramError::Custom(RentShareError::RentAlreadyPaidInFull.code_spec()))
        } else if r.status == STATUS_TERMINATED {
            Err(ProgramError::Custom(RentShareError::RentAgreementTerminated.code_spec()))
        } else {
            Ok(encode_spec(terminated_record(r)))
        }
    }
}

/// Whether a payment's result and the slot's bytes after the call stand
/// exactly as [`pay_rent_spec`] decides: the decided error, or the no-op,
/// or the transfer request carrying the decided bytes — and in every case
/// the slot itself untouched.
pub open spec fn pay_rent_post(
    ctx: CallContext,
    data: Seq<u8>,
    rent_amount: u64,
    r: Result<Effect, ProgramError>,
) -> bool {
    match pay_rent_spec(ctx, data, rent_amount) {
        PayRentModel::Reject(e) => r matches Err(e2) && e2 == e,
        PayRentModel::SelfPayment => r matches Ok(eff) && eff is SelfPayment,
        PayRentModel::Transfer(d) => r matches Ok(eff) && eff matches Effect::Transfer {
            amount,
            new_data,
        } && amount == rent_amount && new_data@ == d,
    }
}

/// The state machine over the three operations.
pub struct Processor;

impl Processor {
    /// Initializes the rent contract with the agreed terms and persists the
    /// initial record in the agreement slot, exactly as
    /// [`initialize_spec`] decides; on any rejection the slot's bytes are
    /// unchanged.
    pub fn initialize_rent_contract(
        ctx: &CallContext,
        data: &mut Vec<u8>,
        payee_pubkey: Pubkey,
        payer_pubkey: Pubkey,
        deposit: u64,
        rent_amount: u64,
        duration: u64,
        duration_unit: u8,
    ) -> (r: Result<(), ProgramError>)
        ensures
            match initialize_spec(
                *ctx,
                old(data)@,
                payee_pubkey,
                payer_pubkey,
                deposit,
                rent_amount,
                duration,
                duration_unit,
            ) {
                Ok(d) => r is Ok && final(data)@ == d,
                Err(e) => r matches Err(e2) && e2 == e && final(data)@ == old(data)@,
            },
    {
        if !ctx.agreement_owned_by_program {
            return Err(ProgramError::IncorrectProgramId);
        }
        if ctx.agreement_lamports < ctx.rent_exemption_minimum {
            return Err(ProgramError::AccountNotRentExempt);
        }
        let rent_data = match decode_account(data) {
            Ok(rec) => rec,
            Err(e) => {
                return Err(e);
            },
        };
        if rent_data.is_initialized() {
            return Err(ProgramError::AccountAlreadyInitialized);
        }
        let new_record = RentShareAccount {
            status: crate::state::AgreementStatus::Active.code(),
            payee_pubkey,
            payer_pubkey,
            deposit,
            rent_amount,
            duration,
            duration_unit,
            remaining_payments: duration,
        };
        let encoded = encode_account(&new_record);
        *data = encoded;
        Ok(())
    }

    /// Runs a payment's decision cascade and, past every gate, asks the
    /// caller for the value transfer: the result stands exactly as
    /// [`pay_rent_spec`] decides (see [`pay_rent_post`]). This function
    /// itself never mutates the slot; the caller persists the returned
    /// bytes only when the transfer succeeded.
    pub fn pay_rent(ctx: &CallContext, data: &Vec<u8>, rent_amount: u64) -> (r: Result<
        Effect,
        ProgramError,
    >)
        requires
            pay_rent_decrement_safe(*ctx, data@, rent_amount),
        ensures
            pay_rent_post(*ctx, data@, rent_amount, r),
            r matches Ok(eff) ==> !(eff is Persisted),
    {
        if !ctx.agreement_owned_by_program {
            return Err(ProgramError::IncorrectProgramId);
        }
        if !ctx.payer_is_signer {
            return Err(ProgramError::MissingRequiredSignature);
        }
        if ctx.payer_lamports < rent_amount {
            return Err(ProgramError::InsufficientFunds);
        }
        if ctx.payer_key == ctx.payee_key {
            return Ok(Effect::SelfPayment);
        }
        let mut rent_data = match decode_account(data) {
            Ok(rec) => rec,
            Err(e) => {
                return Err(e);
            },
        };
        if !rent_data.is_initialized() {
            return Err(ProgramError::UninitializedAccount);
        }
        if rent_data.payee_pubkey != ctx.payee_key {
            return Err(ProgramError::InvalidAccountData);
        }
        if rent_data.is_complete() {
            return Err(ProgramError::from(RentShareError::RentAlreadyPaidInFull));
        }
        if rent_data.is_terminated() {
            return Err(ProgramError::from(RentShareError::RentAgreementTerminated));
        }
        if rent_data.rent_amount != rent_amount {
            return Err(ProgramError::from(RentShareError::RentPaymentAmountMismatch));
        }
        rent_data.remaining_payments = rent_data.remaining_payments - 1;
        if rent_data.remaining_payments == 0 {
            rent_data.status = crate::state::AgreementStatus::Completed.code();
        }
        let new_data = encode_account(&rent_data);
        Ok(Effect::Transfer { amount: rent_amount, new_data })
    }

    /// Terminates the agreement early and persists the terminated record,
    /// exactly as [`terminate_spec`] decides; on any rejection the slot's
    /// bytes are unchanged. No value moves, and no signer is demanded (see
    /// the module notes).
    pub fn terminate_early(ctx: &CallContext, data: &mut Vec<u8>) -> (r: Result<(), ProgramError>)
        ensures
            match terminate_spec(*ctx, old(data)@) {
                Ok(d) => r is Ok && final(data)@ == d,
                Err(e) => r matches Err(e2) && e2 == e && final(data)@ == old(data)@,
            },
    {
        if !ctx.agreement_owned_by_program {
            return Err(ProgramError::IncorrectProgramId);
        }
        let mut rent_data = match decode_account(data) {
            Ok(rec) => rec,
            Err(e) => {
                return Err(e);
            },
        };
        if !rent_data.is_initialized() {
            return Err(ProgramError::UninitializedAccount);
        }
        if rent_data.is_complete() {
            return Err(ProgramError::from(RentShareError::RentAlreadyPaidInFull));
        }
        if rent_data.is_terminated() {
            return Err(ProgramError::from(RentShareError::RentAgreementTerminated));
        }
        rent_data.remaining_payments = 0;
        rent_data.status = crate::state::AgreementStatus::Terminated.code();
        let encoded = encode_account(&rent_data);
        *data = encoded;
        Ok(())
    }

    /// Decodes the instruction bytes and dispatches the operation: the
    /// result and the slot's bytes after the call stand exactly as the
    /// decoded operation's own specification decides, and a buffer that
    /// decodes to no operation is rejected with its decoding error, the
    /// slot untouched.
    pub fn process(ctx: &CallContext, data: &mut Vec<u8>, instruction_data: &Vec<u8>) -> (r: Result<
        Effect,
        ProgramError,
    >)
        requires
            unpack_spec(instruction_data@) matches Ok(i) ==> (i matches
                RentShareInstruction::PayRent { rent_amount } ==> pay_rent_decrement_safe(
                *ctx,
                old(data)@,
                rent_amount,
            )),
        ensures
            match unpack_spec(instruction_data@) {
                Err(e) => r matches Err(e2) && e2 == e && final(data)@ == old(data)@,
                Ok(instr) => match instr {
                    RentShareInstruction::InitializeRentContract {
                        payee_pubkey,
                        payer_pubkey,
                        deposit,
                        rent_amount,
                        duration,
                        duration_unit,
                    } => match initialize_spec(
                        *ctx,
                        old(data)@,
                        payee_pubkey,
                        payer_pubkey,
                        deposit,
                        rent_amount,
                        duration,
                        duration_unit,
                    ) {
                        Ok(d) => r matches Ok(eff) && eff is Persisted && final(data)@ == d,
                        Err(e) => r matches Err(e2) && e2 == e && final(data)@ == old(data)@,
                    },
                    RentShareInstruction::PayRent { rent_amount } => final(data)@ == old(data)@
                        && pay_rent_post(*ctx, old(data)@, rent_amount, r),
                    RentShareInstruction::TerminateEarly {  } => match terminate_spec(
                        *ctx,
                        old(data)@,
                    ) {
                        Ok(d) => r matches Ok(eff) && eff is Persisted && final(data)@ == d,
                        Err(e) => r matches Err(e2) && e2 == e && final(data)@ == old(data)@,
                    },
                },
            },
    {
        let instruction = match RentShareInstruction::unpack(instruction_data) {
            Ok(i) => i,
            Err(e) => {
                return Err(e);
            },
        };
        match instruction {
            RentShareInstruction::InitializeRentContract {
                payee_pubkey,
                payer_pubkey,
                deposit,
                rent_amount,
                duration,
                duration_unit,
            } => {
                match Self::initialize_rent_contract(
                    ctx,
                    data,
                    payee_pubkey,
                    payer_pubkey,
                    deposit,
                    rent_amount,
                    duration,
                    duration_unit,
                ) {
                    Ok(_) => Ok(Effect::Persisted),
                    Err(e) => Err(e),
                }
            },
            RentShareInstruction::PayRent { rent_amount } => Self::pay_rent(
                ctx,
                data,
                rent_amount,
            ),
            RentShareInstruction::TerminateEarly {  } => {
                match Self::terminate_early(ctx, data) {
                    Ok(_) => Ok(Effect::Persisted),
                    Err(e) => Err(e),
                }
            },
        }
    }
}

/// Initialize on an empty (never-initialized) slot persists a record whose
/// status is `Active`, whose remaining payment count equals the full agreed
/// duration, and whose every recorded field equals the operation's inputs.
pub proof fn lemma_initialize_sets_agreed_fields(
    ctx: CallContext,
    data: Seq<u8>,
    payee_pubkey: Pubkey,
    payer_pubkey: Pubkey,
    deposit: u64,
    rent_amount: u64,
    duration: u64,
    duration_unit: u8,
)
    requires
        initialize_spec(
            ctx,
            data,
            payee_pubkey,
            payer_pubkey,
            deposit,
            rent_amount,
            duration,
            duration_unit,
        ) is Ok,
    ensures
        initialize_spec(
            ctx,
            data,
            payee_pubkey,
            payer_pubkey,
            deposit,
            rent_amount,
            duration,
            duration_unit,
        ) matches Ok(d) && decode_spec(d) == (initialized_record(
            payee_pubkey,
            payer_pubkey,
            deposit,
            rent_amount,
            duration,
            duration_unit,
        )),
        initialized_record(
            payee_pubkey,
            payer_pubkey,
            deposit,
            rent_amount,
            duration,
            duration_unit,
        ).status == crate::state::STATUS_ACTIVE,
        initialized_record(
            payee_pubkey,
            payer_pubkey,
            deposit,
            rent_amount,
            duration,
            duration_unit,
        ).remaining_payments == duration,
{
    crate::codec::lemma_decode_encode(
        initialized_record(payee_pubkey, payer_pubkey, deposit, rent_amount, duration, duration_unit),
    );
}

/// Initialize on a slot that already holds an initialized record is
/// rejected with `AccountAlreadyInitialized` (the engine's contract then
/// guarantees the record bytes are unchanged).
pub proof fn lemma_initialize_rejects_initialized(
    ctx: CallContext,
    data: Seq<u8>,
    payee_pubkey: Pubkey,
    payer_pubkey: Pubkey,
    deposit: u64,
    rent_amount: u64,
    duration: u64,
    duration_unit: u8,
)
    requires
        ctx.agreement_owned_by_program,
        ctx.agreement_lamports >= ctx.rent_exemption_minimum,
        data.len() == RECORD_LEN,
        decode_spec(data).status != STATUS_UNINITIALIZED,
    ensures
        initialize_spec(
            ctx,
            data,
            payee_pubkey,
            payer_pubkey,
            deposit,
            rent_amount,
            duration,
            duration_unit,
        ) == Err::<Seq<u8>, ProgramError>(ProgramError::AccountAlreadyInitialized),
{
}

/// A payment whose asserted amount differs from the stored per-period rent
/// is rejected with `RentPaymentAmountMismatch` (code 101): no transfer is
/// asked for and the record is unchanged.
pub proof fn lemma_pay_rejects_amount_mismatch(ctx: CallContext, data: Seq<u8>, rent_amount: u64)
    requires
        ctx.agreement_owned_by_program,
        ctx.payer_is_signer,
        ctx.payer_lamports >= rent_amount,
        ctx.payer_key != ctx.payee_key,
        data.len() == RECORD_LEN,
        decode_spec(data).status != STATUS_UNINITIALIZED,
        decode_spec(data).payee_pubkey == ctx.payee_key,
        decode_spec(data).status != STATUS_COMPLETED,
        decode_spec(data).status != STATUS_TERMINATED,
        decode_spec(data).rent_amount != rent_amount,
    ensures
        pay_rent_spec(ctx, data, rent_amount) == PayRentModel::Reject(
            ProgramError::Custom(RentShareError::RentPaymentAmountMismatch.code_spec()),
        ),
{
}

/// A payment against a completed agreement is rejected with
/// `RentAlreadyPaidInFull` (code 100), and one against a terminated
/// agreement with `RentAgreementTerminated` (code 102): no transfer is
/// asked for in either case.
pub proof fn lemma_pay_rejects_terminal_status(ctx: CallContext, data: Seq<u8>, rent_amount: u64)
    requires
        ctx.agreement_owned_by_program,
        ctx.payer_is_signer,
        ctx.payer_lamports >= rent_amount,
        ctx.payer_key != ctx.payee_key,
        data.len() == RECORD_LEN,
        decode_spec(data).payee_pubkey == ctx.payee_key,
    ensures
        decode_spec(data).status == STATUS_COMPLETED ==> pay_rent_spec(ctx, data, rent_amount)
            == PayRentModel::Reject(
            ProgramError::Custom(RentShareError::RentAlreadyPaidInFull.code_spec()),
        ),
        decode_spec(data).status == STATUS_TERMINATED ==> pay_rent_spec(ctx, data, rent_amount)
            == PayRentModel::Reject(
            ProgramError::Custom(RentShareError::RentAgreementTerminated.code_spec()),
        ),
{
}

/// A payment whose payer identity equals its payee identity succeeds as a
/// no-op — no value transfer, no record mutation — whatever the agreement's
/// status or the slot's content, because the short circuit precedes every
/// record check.
pub proof fn lemma_pay_self_payment(ctx: CallContext, data: Seq<u8>, rent_amount: u64)
    requires
        ctx.agreement_owned_by_program,
        ctx.payer_is_signer,
        ctx.payer_lamports >= rent_amount,
        ctx.payer_key == ctx.payee_key,
    ensures
        pay_rent_spec(ctx, data, rent_amount) == PayRentModel::SelfPayment,
{
}

/// A payment by a payer whose spendable balance is below the asserted
/// amount is rejected with `InsufficientFunds` before any transfer is
/// attempted, whatever the slot holds.
pub proof fn lemma_pay_rejects_insufficient_funds(ctx: CallContext, data: Seq<u8>, rent_amount: u64)
    requires
        ctx.agreement_owned_by_program,
        ctx.payer_is_signer,
        ctx.payer_lamports < rent_amount,
    ensures
        pay_rent_spec(ctx, data, rent_amount) == PayRentModel::Reject(
            ProgramError::InsufficientFunds,
        ),
{
}

/// One accepted payment, at the byte level: on the encoded image of an
/// `Active` record with payments outstanding, a payment of the stored rent
/// amount passes every gate and asks for a transfer followed by persisting
/// exactly the stepped record's image.
pub proof fn lemma_pay_rent_step(ctx: CallContext, r: RentShareAccount)
    requires
        ctx.agreement_owned_by_program,
        ctx.payer_is_signer,
        ctx.payer_lamports >= r.rent_amount,
        ctx.payer_key != ctx.payee_key,
        ctx.payee_key == r.payee_pubkey,
        r.status == crate::state::STATUS_ACTIVE,
        r.remaining_payments >= 1,
    ensures
        pay_rent_spec(ctx, encode_spec(r), r.rent_amount) == PayRentModel::Transfer(
            encode_spec(record_after_payment(r)),
        ),
        pay_rent_decrement_safe(ctx, encode_spec(r), r.rent_amount),
{
    crate::codec::lemma_encode_len(r);
    crate::codec::lemma_decode_encode(r);
}

/// Paying a freshly initialized agreement `duration` times in sequence:
/// the `n`th call is accepted, asks for a transfer, and persists a record
/// with `duration - n` periods outstanding; the final call completes the
/// agreement.
pub proof fn lemma_pay_rent_sequence(ctx: CallContext, r: RentShareAccount, n: nat)
    requires
        ctx.agreement_owned_by_program,
        ctx.payer_is_signer,
        ctx.payer_lamports >= r.rent_amount,
        ctx.payer_key != ctx.payee_key,
        ctx.payee_key == r.payee_pubkey,
        r.status == crate::state::STATUS_ACTIVE,
        r.remaining_payments == r.duration,
        1 <= n <= r.duration,
    ensures
        pay_rent_spec(
            ctx,
            encode_spec(crate::state::record_after_payments(r, (n - 1) as nat)),
            r.rent_amount,
        ) == PayRentModel::Transfer(
            encode_spec(crate::state::record_after_payments(r, n)),
        ),
        crate::state::record_after_payments(r, n).remaining_payments == r.duration - n,
        n < r.duration ==> crate::state::record_after_payments(r, n).status
            == crate::state::STATUS_ACTIVE,
        n == r.duration ==> crate::state::record_after_payments(r, n).status
            == crate::state::STATUS_COMPLETED,
{
    let prev = crate::state::record_after_payments(r, (n - 1) as nat);
    crate::state::lemma_payment_progression(r, (n - 1) as nat);
    crate::state::lemma_payment_progression(r, n);
    lemma_pay_rent_step(ctx, prev);
}

/// A terminal record never changes again: against a slot holding a
/// completed or terminated record, Initialize and TerminateEarly are
/// rejected outright, and a payment never asks for a transfer or for new
/// bytes to be persisted (it is rejected, or, for a self-payment, succeeds
/// without touching the record).
pub proof fn lemma_terminal_records_are_immutable(
    ctx: CallContext,
    data: Seq<u8>,
    payee_pubkey: Pubkey,
    payer_pubkey: Pubkey,
    deposit: u64,
    rent_amount: u64,
    duration: u64,
    duration_unit: u8,
    amount: u64,
)
    requires
        data.len() == RECORD_LEN,
        decode_spec(data).status == STATUS_COMPLETED || decode_spec(data).status
            == STATUS_TERMINATED,
    ensures
        initialize_spec(
            ctx,
            data,
            payee_pubkey,
            payer_pubkey,
            deposit,
            rent_amount,
            duration,
            duration_unit,
        ) is Err,
        terminate_spec(ctx, data) is Err,
        !(pay_rent_spec(ctx, data, amount) is Transfer),
{
}

/// Terminating an `Active` agreement persists a `Terminated` record with
/// nothing left to pay, and a subsequent payment against that record (by a
/// payer distinct from the payee) is rejected with
/// `RentAgreementTerminated`.
pub proof fn lemma_terminate_then_pay(ctx: CallContext, data: Seq<u8>, rent_amount: u64)
    requires
        ctx.agreement_owned_by_program,
        data.len() == RECORD_LEN,
        decode_spec(data).status == crate::state::STATUS_ACTIVE,
        ctx.payer_is_signer,
        ctx.payer_lamports >= rent_amount,
        ctx.payer_key != ctx.payee_key,
        ctx.payee_key == decode_spec(data).payee_pubkey,
    ensures
        terminate_spec(ctx, data) == Ok::<Seq<u8>, ProgramError>(
            encode_spec(terminated_record(decode_spec(data))),
        ),
        terminated_record(decode_spec(data)).status == STATUS_TERMINATED,
        terminated_record(decode_spec(data)).remaining_payments == 0,
        pay_rent_spec(
            ctx,
            encode_spec(terminated_record(decode_spec(data))),
            rent_amount,
        ) == PayRentModel::Reject(
            ProgramError::Custom(RentShareError::RentAgreementTerminated.code_spec()),
        ),
{
    crate::codec::lemma_encode_len(terminated_record(decode_spec(data)));
    crate::codec::lemma_decode_encode(terminated_record(decode_spec(data)));
}

} // verus!
