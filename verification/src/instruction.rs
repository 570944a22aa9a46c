//! The instruction decoder: an opaque byte buffer becomes exactly one of
//! three typed operations, or fails with `InvalidInstructionData`.
//!
//! Byte 0 is the discriminant tag: `0 = InitializeRentContract`,
//! `1 = PayRent`, `2 = TerminateEarly`. Each tag's payload sits at fixed
//! offsets in the remaining bytes; the total length is checked against the
//! tag's expected size before any field is read, so a truncated buffer is
//! rejected outright rather than read out of bounds. Decoding is pure and
//! performs no validation beyond length and shape.

use crate::codec::{le64, pubkey_from_bytes, read_pubkey, read_u64_le};
use crate::error::ProgramError;
use crate::state::Pubkey;
use vstd::prelude::*;

verus! {

/// Total byte length of an `InitializeRentContract` instruction: the tag,
/// two 32-byte identities, three 8-byte amounts, and the unit byte.
pub const INITIALIZE_INSTRUCTION_LEN: usize = 90;

/// Total byte length of a `PayRent` instruction: the tag and one 8-byte
/// amount.
pub const PAY_RENT_INSTRUCTION_LEN: usize = 9;

/// A typed operation on a rent agreement.
#[derive(Clone, Copy, Debug, PartialEq, Eq, Structural)]
pub enum RentShareInstruction {
    /// Initialize the rent contract with the agreed terms and persist the
    /// initial record in the agreement slot.
    InitializeRentContract {
        /// Identity that will receive the payments.
        payee_pubkey: Pubkey,
        /// Identity that will make the payments.
        payer_pubkey: Pubkey,
        /// Deposit amount to record.
        deposit: u64,
        /// Required payment amount per period.
        rent_amount: u64,
        /// Total number of periods agreed.
        duration: u64,
        /// Unit code of the duration.
        duration_unit: u8,
    },
    /// Pay one period's rent from payer to payee.
    PayRent {
        /// The amount the caller asserts it is paying.
        rent_amount: u64,
    },
    /// Terminate the agreement early, violating the terms.
    TerminateEarly {},
}

/// The operation spelled by an instruction buffer, or the error rejecting
/// it: an empty buffer, an unknown tag, or a payload shorter than the tag's
/// fixed layout all fail with `InvalidInstructionData`.
pub open spec fn unpack_spec(b: Seq<u8>) -> Result<RentShareInstruction, ProgramError> {
    if b.len() == 0 {
        Err(ProgramError::InvalidInstructionData)
    } else if b[0] == 0 {
        if b.len() >= INITIALIZE_INSTRUCTION_LEN {
            Ok(
                RentShareInstruction::InitializeRentContract {
                    payee_pubkey: pubkey_from_bytes(b.subrange(1, 33)),
                    payer_pubkey: pubkey_from_bytes(b.subrange(33, 65)),
                    deposit: le64(b.subrange(65, 73)),
                    rent_amount: le64(b.subrange(73, 81)),
                    duration: le64(b.subrange(81, 89)),
                    duration_unit: b[89],
                },
            )
        } else {
            Err(ProgramError::InvalidInstructionData)
        }
    } else if b[0] == 1 {
        if b.len() >= PAY_RENT_INSTRUCTION_LEN {
            Ok(RentShareInstruction::PayRent { rent_amount: le64(b.subrange(1, 9)) })
        } else {
            Err(ProgramError::InvalidInstructionData)
        }
    } else if b[0] == 2 {
        Ok(RentShareInstruction::TerminateEarly {  })
    } else {
        Err(ProgramError::InvalidInstructionData)
    }
}

impl RentShareInstruction {
    /// Decodes an instruction buffer into its typed operation, exactly as
    /// [`unpack_spec`] spells it.
    pub fn unpack(input: &Vec<u8>) -> (r: Result<RentShareInstruction, ProgramError>)
        ensures
            r == unpack_spec(input@),
    {
        if input.len() == 0 {
            return Err(ProgramError::InvalidInstructionData);
        }
        let tag = input[0];
        if tag == 0 {
            if input.len() < INITIALIZE_INSTRUCTION_LEN {
                return Err(ProgramError::InvalidInstructionData);
            }
            let payee_pubkey = read_pubkey(input, 1);
            let payer_pubkey = read_pubkey(input, 33);
            let deposit = Self::unpack_u64(input, 65)?;
            let rent_amount = Self::unpack_u64(input, 73)?;
            let duration = Self::unpack_u64(input, 81)?;
            let duration_unit = input[89];
            Ok(
                RentShareInstruction::InitializeRentContract {
                    payee_pubkey,
                    payer_pubkey,
                    deposit,
                    rent_amount,
                    duration,
                    duration_unit,
                },
            )
        } else if tag == 1 {
            let rent_amount = Self::unpack_u64(input, 1)?;
            Ok(RentShareInstruction::PayRent { rent_amount })
        } else if tag == 2 {
            Ok(RentShareInstruction::TerminateEarly {  })
        } else {
            Err(ProgramError::InvalidInstructionData)
        }
    }

    /// Reads the unsigned 64-bit integer stored little-endian at `start`,
    /// or fails with `InvalidInstructionData` when fewer than eight bytes
    /// remain there.
    pub fn unpack_u64(input: &Vec<u8>, start: usize) -> (r: Result<u64, ProgramError>)
        ensures
            start + 8 <= input@.len() ==> r == Ok::<u64, ProgramError>(
                le64(input@.subrange(start as int, start as int + 8)),
            ),
            start + 8 > input@.len() ==> r == Err::<u64, ProgramError>(
                ProgramError::InvalidInstructionData,
            ),
    {
        if input.len() >= 8 && start <= input.len() - 8 {
            Ok(read_u64_le(input, start))
        } else {
            Err(ProgramError::InvalidInstructionData)
        }
    }
}

} // verus!
