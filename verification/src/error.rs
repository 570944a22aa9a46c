//! The two error tiers of the agreement core.
//!
//! Host-level failures ([`ProgramError`]) originate from environment checks:
//! ownership, rent exemption, malformed records, initialization state,
//! signatures, balances, and malformed instruction bytes. Domain-level
//! failures ([`RentShareError`]) originate from the transition engine's own
//! business rules and carry fixed numeric codes starting at 100, kept
//! disjoint from the host-level space.

use vstd::prelude::*;

verus! {

/// A domain-level failure of the rent agreement's business rules.
///
/// Each variant has a documented fixed numeric code (see
/// [`RentShareError::code_spec`]); the mapping is explicit so that it cannot
/// shift if variants are ever reordered.
#[derive(Clone, Copy, Debug, PartialEq, Eq, Structural)]
pub enum RentShareError {
    /// Every agreed period has already been paid.
    RentAlreadyPaidInFull,
    /// The asserted payment does not match the agreed per-period amount.
    RentPaymentAmountMismatch,
    /// The agreement was terminated before completion.
    RentAgreementTerminated,
}

/// A host-level failure reported by an environment check, or a domain-level
/// failure carried through as [`ProgramError::Custom`] with its numeric code.
#[derive(Clone, Copy, Debug, PartialEq, Eq, Structural)]
pub enum ProgramError {
    /// The agreement storage slot is not controlled by this program's logic.
    IncorrectProgramId,
    /// The slot's balance is below the rent-exemption threshold for its size.
    AccountNotRentExempt,
    /// A buffer could not be interpreted as the fixed-layout record, or a
    /// call-time identity does not match the stored one.
    InvalidAccountData,
    /// The slot already holds an initialized record.
    AccountAlreadyInitialized,
    /// The slot does not hold an initialized record yet.
    UninitializedAccount,
    /// The payer did not present proof of authorization for the call.
    MissingRequiredSignature,
    /// The payer's spendable balance is below the asserted amount.
    InsufficientFunds,
    /// The instruction bytes do not decode to any operation.
    InvalidInstructionData,
    /// A domain-level failure, by its numeric code.
    Custom(u32),
}

impl RentShareError {
    /// The fixed numeric code of this domain error.
    pub open spec fn code_spec(self) -> u32 {
        match self {
            RentShareError::RentAlreadyPaidInFull => 100,
            RentShareError::RentPaymentAmountMismatch => 101,
            RentShareError::RentAgreementTerminated => 102,
        }
    }

    /// Returns the fixed numeric code of this domain error.
    pub fn error_code(self) -> (code: u32)
        ensures
            code == self.code_spec(),
    {
        match self {
            RentShareError::RentAlreadyPaidInFull => 100,
            RentShareError::RentPaymentAmountMismatch => 101,
            RentShareError::RentAgreementTerminated => 102,
        }
    }
}

impl From<RentShareError> for ProgramError {
    fn from(e: RentShareError) -> (r: Self) {
        ProgramError::Custom(e.error_code())
    }
}

impl vstd::std_specs::convert::FromSpecImpl<RentShareError> for ProgramError {
    open spec fn obeys_from_spec() -> bool {
        true
    }

    open spec fn from_spec(e: RentShareError) -> Self {
        ProgramError::Custom(e.code_spec())
    }
}

} // verus!
