//! An on-ledger rent (lease) agreement: a deterministic state machine that
//! tracks a recurring payment obligation between a payer (renter) and a
//! payee (owner).
//!
//! The crate covers the whole decode -> validate -> transition -> persist
//! pipeline over plain values and byte buffers:
//!
//! * [`instruction`] turns an opaque byte buffer into one of three typed
//!   operations;
//! * [`state`] holds the fixed-layout agreement record and its status model;
//! * [`codec`] encodes and decodes that record into its fixed 98-byte layout;
//! * [`processor`] gates each operation behind the authorization and
//!   precondition rules and applies the status transitions;
//! * [`error`] holds the host-level and domain-level error taxonomies.
//!
//! The hosting environment (account storage, ownership and signature
//! verification, the rent-exemption threshold, and the actual value
//! transfer) is an external collaborator: callers hand its determinations in
//! as plain values and perform the transfer that a successful payment asks
//! for.

pub mod codec;
pub mod error;
pub mod instruction;
pub mod processor;
pub mod state;
