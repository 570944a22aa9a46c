//! The persisted agreement record and its status model.
//!
//! A [`RentShareAccount`] occupies a pre-allocated, fixed-size storage slot.
//! Its lifecycle is an ordered progression with no cycles:
//! `Uninitialized -> Active -> {Completed, Terminated}`, and the two final
//! states are terminal. The status is persisted as a single byte; the
//! predicates and spec functions here are the reference for what each code
//! means and for how each operation transforms a record.

use vstd::prelude::*;

verus! {

/// Status code of a slot that has never been initialized.
pub const STATUS_UNINITIALIZED: u8 = 0;

/// Status code of an initialized agreement with payments outstanding.
pub const STATUS_ACTIVE: u8 = 1;

/// Status code of an agreement whose every period has been paid.
pub const STATUS_COMPLETED: u8 = 2;

/// Status code of an agreement terminated before completion.
pub const STATUS_TERMINATED: u8 = 3;

/// A 32-byte public identity, held as four little-endian 64-bit words.
///
/// The wire and record layouts both spell an identity as 32 bytes; the four
/// words are those bytes read as little-endian integers at offsets 0, 8, 16
/// and 24, so the representation is a bijection with the byte form.
#[derive(Clone, Copy, Debug, PartialEq, Eq, Structural)]
pub struct Pubkey {
    /// Bytes 0..8 of the identity, little-endian.
    pub w0: u64,
    /// Bytes 8..16 of the identity, little-endian.
    pub w1: u64,
    /// Bytes 16..24 of the identity, little-endian.
    pub w2: u64,
    /// Bytes 24..32 of the identity, little-endian.
    pub w3: u64,
}

/// The lifecycle state of an agreement.
#[derive(Clone, Copy, Debug, PartialEq, Eq, Structural)]
pub enum AgreementStatus {
    /// The slot has never been populated.
    Uninitialized,
    /// The agreement is in force and payments are outstanding.
    Active,
    /// Every agreed period has been paid; terminal.
    Completed,
    /// The agreement was ended early; terminal.
    Terminated,
}

impl AgreementStatus {
    /// The single byte that persists this status.
    pub open spec fn code_spec(self) -> u8 {
        match self {
            AgreementStatus::Uninitialized => STATUS_UNINITIALIZED,
            AgreementStatus::Active => STATUS_ACTIVE,
            AgreementStatus::Completed => STATUS_COMPLETED,
            AgreementStatus::Terminated => STATUS_TERMINATED,
        }
    }

    /// Returns the single byte that persists this status.
    pub fn code(self) -> (c: u8)
        ensures
            c == self.code_spec(),
    {
        match self {
            AgreementStatus::Uninitialized => STATUS_UNINITIALIZED,
            AgreementStatus::Active => STATUS_ACTIVE,
            AgreementStatus::Completed => STATUS_COMPLETED,
            AgreementStatus::Terminated => STATUS_TERMINATED,
        }
    }
}

/// The unit of time that one agreed period stands for.
#[derive(Clone, Copy, Debug, PartialEq, Eq, Structural)]
pub enum Duration {
    /// Each period is one month.
    Months,
}

impl Duration {
    /// The single byte that persists this unit.
    pub open spec fn code_spec(self) -> u8 {
        match self {
            Duration::Months => 0,
        }
    }

    /// Returns the single byte that persists this unit.
    pub fn code(self) -> (c: u8)
        ensures
            c == self.code_spec(),
    {
        match self {
            Duration::Months => 0,
        }
    }
}

/// The rent agreement record persisted in the agreement storage slot.
#[derive(Clone, Copy, Debug, PartialEq, Eq, Structural)]
pub struct RentShareAccount {
    /// Current lifecycle state, as a status code byte.
    pub status: u8,
    /// Identity that receives payments; immutable after initialization.
    pub payee_pubkey: Pubkey,
    /// Identity that makes payments; immutable after initialization.
    pub payer_pubkey: Pubkey,
    /// Recorded deposit amount; informational, never moved by this core.
    pub deposit: u64,
    /// Required payment amount per period.
    pub rent_amount: u64,
    /// Total number of periods agreed.
    pub duration: u64,
    /// Unit of the duration, as a unit code byte.
    pub duration_unit: u8,
    /// Periods left to be paid.
    pub remaining_payments: u64,
}

impl RentShareAccount {
    /// Whether the record has been populated: any status but `Uninitialized`.
    pub fn is_initialized(&self) -> (b: bool)
        ensures
            b == (self.status != STATUS_UNINITIALIZED),
    {
        self.status != AgreementStatus::Uninitialized.code()
    }

    /// Whether every agreed period has been paid.
    pub fn is_complete(&self) -> (b: bool)
        ensures
            b == (self.status == STATUS_COMPLETED),
    {
        self.status == AgreementStatus::Completed.code()
    }

    /// Whether the agreement was terminated before completion.
    pub fn is_terminated(&self) -> (b: bool)
        ensures
            b == (self.status == STATUS_TERMINATED),
    {
        self.status == AgreementStatus::Terminated.code()
    }
}

/// The structural invariant of every record this engine writes:
/// `remaining_payments` never exceeds `duration`, and both terminal states
/// imply that nothing remains to be paid.
pub open spec fn record_wf(r: RentShareAccount) -> bool {
    &&& r.remaining_payments <= r.duration
    &&& r.status == STATUS_COMPLETED ==> r.remaining_payments == 0
    &&& r.status == STATUS_TERMINATED ==> r.remaining_payments == 0
}

/// The record that the Initialize operation writes: `Active`, with
/// `remaining_payments` equal to the full agreed duration and every other
/// field taken from the operation's inputs.
pub open spec fn initialized_record(
    payee_pubkey: Pubkey,
    payer_pubkey: Pubkey,
    deposit: u64,
    rent_amount: u64,
    duration: u64,
    duration_unit: u8,
) -> RentShareAccount {
    RentShareAccount {
        status: STATUS_ACTIVE,
        payee_pubkey,
        payer_pubkey,
        deposit,
        rent_amount,
        duration,
        duration_unit,
        remaining_payments: duration,
    }
}

/// The record after one successful rent payment: one fewer period remains,
/// and the status flips to `Completed` exactly when the count reaches zero.
/// (A record with nothing remaining is left unchanged; the engine never
/// applies a payment to such a record.)
pub open spec fn record_after_payment(r: RentShareAccount) -> RentShareAccount {
    if r.remaining_payments == 0 {
        r
    } else {
        RentShareAccount {
            status: if r.remaining_payments == 1 {
                STATUS_COMPLETED
            } else {
                r.status
            },
            remaining_payments: (r.remaining_payments - 1) as u64,
            ..r
        }
    }
}

/// The record after early termination: `Terminated`, nothing left to pay,
/// every other field unchanged.
pub open spec fn terminated_record(r: RentShareAccount) -> RentShareAccount {
    RentShareAccount { status: STATUS_TERMINATED, remaining_payments: 0, ..r }
}

/// The record after `n` successive successful rent payments.
pub open spec fn record_after_payments(r: RentShareAccount, n: nat) -> RentShareAccount
    decreases n,
{
    if n == 0 {
        r
    } else {
        record_after_payment(record_after_payments(r, (n - 1) as nat))
    }
}

/// Paid in sequence from a freshly initialized agreement, the `n`th payment
/// leaves `duration - n` periods outstanding; the record stays `Active`
/// until the final payment, which completes it, and no other field ever
/// changes.
pub proof fn lemma_payment_progression(r: RentShareAccount, n: nat)
    requires
        r.status == STATUS_ACTIVE,
        r.remaining_payments == r.duration,
        n <= r.duration,
    ensures
        record_after_payments(r, n).remaining_payments == r.duration - n,
        n == 0 || n < r.duration ==> record_after_payments(r, n).status == STATUS_ACTIVE,
        1 <= n && n == r.duration ==> record_after_payments(r, n).status == STATUS_COMPLETED,
        record_after_payments(r, n).payee_pubkey == r.payee_pubkey,
        record_after_payments(r, n).payer_pubkey == r.payer_pubkey,
        record_after_payments(r, n).deposit == r.deposit,
        record_after_payments(r, n).rent_amount == r.rent_amount,
        record_after_payments(r, n).duration == r.duration,
        record_after_payments(r, n).duration_unit == r.duration_unit,
    decreases n,
{
    if n > 0 {
        lemma_payment_progression(r, (n - 1) as nat);
    }
}

/// Initialization establishes the record invariant, and both mutating
/// transitions preserve it.
pub proof fn lemma_transitions_preserve_wf(
    payee_pubkey: Pubkey,
    payer_pubkey: Pubkey,
    deposit: u64,
    rent_amount: u64,
    duration: u64,
    duration_unit: u8,
    r: RentShareAccount,
)
    ensures
        record_wf(
            initialized_record(
                payee_pubkey,
                payer_pubkey,
                deposit,
                rent_amount,
                duration,
                duration_unit,
            ),
        ),
        record_wf(r) ==> record_wf(record_after_payment(r)),
        record_wf(r) ==> record_wf(terminated_record(r)),
{
}

} // verus!
