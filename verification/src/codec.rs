//! Deterministic, fixed-size encoding of the agreement record.
//!
//! The persisted layout, in declared field order, is
//! `status:u8, payee:32B, payer:32B, deposit:u64LE, rent_amount:u64LE,
//! duration:u64LE, duration_unit:u8, remaining_payments:u64LE`,
//! [`RECORD_LEN`] (98) bytes in all. A slot of any other size fails to
//! decode; encoding always yields exactly this size, so a record is written
//! back in place without resizing. [`lemma_decode_encode`] proves the pair
//! is a round trip.

use crate::error::ProgramError;
use crate::state::{Pubkey, RentShareAccount};
use vstd::prelude::*;

verus! {

/// Exact size in bytes of the encoded agreement record.
pub const RECORD_LEN: usize = 98;

/// The unsigned 64-bit integer spelled by eight little-endian bytes.
pub open spec fn le64(b: Seq<u8>) -> u64
    recommends
        b.len() == 8,
{
    (b[0] as u64) | (b[1] as u64) << 8 | (b[2] as u64) << 16 | (b[3] as u64) << 24 | (
    b[4] as u64) << 32 | (b[5] as u64) << 40 | (b[6] as u64) << 48 | (b[7] as u64) << 56
}

/// The eight little-endian bytes that spell an unsigned 64-bit integer.
pub open spec fn u64_le_bytes(v: u64) -> Seq<u8> {
    seq![
        (v & 0xff) as u8,
        ((v >> 8) & 0xff) as u8,
        ((v >> 16) & 0xff) as u8,
        ((v >> 24) & 0xff) as u8,
        ((v >> 32) & 0xff) as u8,
        ((v >> 40) & 0xff) as u8,
        ((v >> 48) & 0xff) as u8,
        ((v >> 56) & 0xff) as u8,
    ]
}

/// Reading back the little-endian bytes of a value yields the value.
pub proof fn lemma_le64_roundtrip(v: u64)
    ensures
        le64(u64_le_bytes(v)) == v,
{
    assert(((v & 0xff) as u8 as u64) | (((v >> 8) & 0xff) as u8 as u64) << 8 | (((v >> 16)
        & 0xff) as u8 as u64) << 16 | (((v >> 24) & 0xff) as u8 as u64) << 24 | (((v >> 32)
        & 0xff) as u8 as u64) << 32 | (((v >> 40) & 0xff) as u8 as u64) << 40 | (((v >> 48)
        & 0xff) as u8 as u64) << 48 | (((v >> 56) & 0xff) as u8 as u64) << 56 == v)
        by (bit_vector);
}

/// The identity whose 32 bytes are the given sequence, read as four
/// little-endian words.
pub open spec fn pubkey_from_bytes(b: Seq<u8>) -> Pubkey
    recommends
        b.len() == 32,
{
    Pubkey {
        w0: le64(b.subrange(0, 8)),
        w1: le64(b.subrange(8, 16)),
        w2: le64(b.subrange(16, 24)),
        w3: le64(b.subrange(24, 32)),
    }
}

/// The 32 bytes of an identity, its four words each little-endian.
pub open spec fn pubkey_bytes(p: Pubkey) -> Seq<u8> {
    u64_le_bytes(p.w0) + u64_le_bytes(p.w1) + u64_le_bytes(p.w2) + u64_le_bytes(p.w3)
}

/// Reading back the 32 bytes of an identity yields the identity.
pub proof fn lemma_pubkey_roundtrip(p: Pubkey)
    ensures
        pubkey_bytes(p).len() == 32,
        pubkey_from_bytes(pubkey_bytes(p)) == p,
{
    let b = pubkey_bytes(p);
    assert(b.subrange(0, 8) =~= u64_le_bytes(p.w0));
    assert(b.subrange(8, 16) =~= u64_le_bytes(p.w1));
    assert(b.subrange(16, 24) =~= u64_le_bytes(p.w2));
    assert(b.subrange(24, 32) =~= u64_le_bytes(p.w3));
    lemma_le64_roundtrip(p.w0);
    lemma_le64_roundtrip(p.w1);
    lemma_le64_roundtrip(p.w2);
    lemma_le64_roundtrip(p.w3);
}

/// The exact byte image of a record in the persisted layout.
#[verifier::opaque]
pub open spec fn encode_spec(r: RentShareAccount) -> Seq<u8> {
    seq![r.status] + pubkey_bytes(r.payee_pubkey) + pubkey_bytes(r.payer_pubkey) + u64_le_bytes(
        r.deposit,
    ) + u64_le_bytes(r.rent_amount) + u64_le_bytes(r.duration) + seq![r.duration_unit]
        + u64_le_bytes(r.remaining_payments)
}

/// The record spelled by a buffer of exactly [`RECORD_LEN`] bytes.
#[verifier::opaque]
pub open spec fn decode_spec(b: Seq<u8>) -> RentShareAccount
    recommends
        b.len() == RECORD_LEN,
{
    RentShareAccount {
        status: b[0],
        payee_pubkey: pubkey_from_bytes(b.subrange(1, 33)),
        payer_pubkey: pubkey_from_bytes(b.subrange(33, 65)),
        deposit: le64(b.subrange(65, 73)),
        rent_amount: le64(b.subrange(73, 81)),
        duration: le64(b.subrange(81, 89)),
        duration_unit: b[89],
        remaining_payments: le64(b.subrange(90, 98)),
    }
}

/// The encoded image always has the fixed record size.
pub proof fn lemma_encode_len(r: RentShareAccount)
    ensures
        encode_spec(r).len() == RECORD_LEN,
{
    reveal(encode_spec);
}

/// Decoding the byte image of a record yields that record: the codec is a
/// round trip, so persisting and re-loading never loses a field.
pub proof fn lemma_decode_encode(r: RentShareAccount)
    ensures
        decode_spec(encode_spec(r)) == r,
{
    reveal(encode_spec);
    reveal(decode_spec);
    let e = encode_spec(r);
    assert(e.subrange(1, 33) =~= pubkey_bytes(r.payee_pubkey));
    assert(e.subrange(33, 65) =~= pubkey_bytes(r.payer_pubkey));
    assert(e.subrange(65, 73) =~= u64_le_bytes(r.deposit));
    assert(e.subrange(73, 81) =~= u64_le_bytes(r.rent_amount));
    assert(e.subrange(81, 89) =~= u64_le_bytes(r.duration));
    assert(e.subrange(90, 98) =~= u64_le_bytes(r.remaining_payments));
    lemma_pubkey_roundtrip(r.payee_pubkey);
    lemma_pubkey_roundtrip(r.payer_pubkey);
    lemma_le64_roundtrip(r.deposit);
    lemma_le64_roundtrip(r.rent_amount);
    lemma_le64_roundtrip(r.duration);
    lemma_le64_roundtrip(r.remaining_payments);
}

/// Reads the unsigned 64-bit integer stored little-endian at `start`.
pub fn read_u64_le(data: &Vec<u8>, start: usize) -> (v: u64)
    requires
        start + 8 <= data@.len(),
    ensures
        v == le64(data@.subrange(start as int, start as int + 8)),
{
    let ghost s: int = start as int;
    proof { assert(start + 8 <= data.len()); }
    let v = (data[start] as u64) | (data[start + 1] as u64) << 8 | (data[start + 2] as u64) << 16
        | (data[start + 3] as u64) << 24 | (data[start + 4] as u64) << 32 | (data[start
        + 5] as u64) << 40 | (data[start + 6] as u64) << 48 | (data[start + 7] as u64) << 56;
    proof {
        let b = data@.subrange(s, s + 8);
        assert(b[0] == data@[s] && b[1] == data@[s + 1] && b[2] == data@[s + 2] && b[3] == data@[s
            + 3] && b[4] == data@[s + 4] && b[5] == data@[s + 5] && b[6] == data@[s + 6] && b[7]
            == data@[s + 7]);
    }
    v
}

/// Appends the eight little-endian bytes of `v`.
pub fn push_u64_le(out: &mut Vec<u8>, v: u64)
    ensures
        final(out)@ == old(out)@ + u64_le_bytes(v),
{
    out.push((v & 0xff) as u8);
    out.push(((v >> 8) & 0xff) as u8);
    out.push(((v >> 16) & 0xff) as u8);
    out.push(((v >> 24) & 0xff) as u8);
    out.push(((v >> 32) & 0xff) as u8);
    out.push(((v >> 40) & 0xff) as u8);
    out.push(((v >> 48) & 0xff) as u8);
    out.push(((v >> 56) & 0xff) as u8);
    proof {
        assert(out@ =~= old(out)@ + u64_le_bytes(v));
    }
}

/// Reads the 32-byte identity stored at `start`.
pub fn read_pubkey(data: &Vec<u8>, start: usize) -> (p: Pubkey)
    requires
        start + 32 <= data@.len(),
    ensures
        p == pubkey_from_bytes(data@.subrange(start as int, start as int + 32)),
{
    let ghost s: int = start as int;
    proof { assert(start + 32 <= data.len()); }
    let p = Pubkey {
        w0: read_u64_le(data, start),
        w1: read_u64_le(data, start + 8),
        w2: read_u64_le(data, start + 16),
        w3: read_u64_le(data, start + 24),
    };
    proof {
        let b = data@.subrange(s, s + 32);
        assert(b.subrange(0, 8) =~= data@.subrange(s, s + 8));
        assert(b.subrange(8, 16) =~= data@.subrange(s + 8, s + 16));
        assert(b.subrange(16, 24) =~= data@.subrange(s + 16, s + 24));
        assert(b.subrange(24, 32) =~= data@.subrange(s + 24, s + 32));
    }
    p
}

/// Appends the 32 bytes of an identity.
pub fn push_pubkey(out: &mut Vec<u8>, p: &Pubkey)
    ensures
        final(out)@ == old(out)@ + pubkey_bytes(*p),
{
    push_u64_le(out, p.w0);
    push_u64_le(out, p.w1);
    push_u64_le(out, p.w2);
    push_u64_le(out, p.w3);
    proof {
        assert(out@ =~= old(out)@ + pubkey_bytes(*p));
    }
}

/// Encodes a record into its exact [`RECORD_LEN`]-byte image.
pub fn encode_account(r: &RentShareAccount) -> (out: Vec<u8>)
    ensures
        out@ == encode_spec(*r),
        out@.len() == RECORD_LEN,
{
    let mut out: Vec<u8> = Vec::new();
    out.push(r.status);
    push_pubkey(&mut out, &r.payee_pubkey);
    push_pubkey(&mut out, &r.payer_pubkey);
    push_u64_le(&mut out, r.deposit);
    push_u64_le(&mut out, r.rent_amount);
    push_u64_le(&mut out, r.duration);
    out.push(r.duration_unit);
    push_u64_le(&mut out, r.remaining_payments);
    proof {
        reveal(encode_spec);
        assert(out@ =~= encode_spec(*r));
    }
    out
}

/// Decodes the record held by a buffer, which must have exactly the fixed
/// record size; a buffer of any other size fails with `InvalidAccountData`.
pub fn decode_account(data: &Vec<u8>) -> (r: Result<RentShareAccount, ProgramError>)
    ensures
        data@.len() == RECORD_LEN ==> r == Ok::<RentShareAccount, ProgramError>(
            decode_spec(data@),
        ),
        data@.len() != RECORD_LEN ==> r == Err::<RentShareAccount, ProgramError>(
            ProgramError::InvalidAccountData,
        ),
{
    if data.len() != RECORD_LEN {
        return Err(ProgramError::InvalidAccountData);
    }
    let r = RentShareAccount {
        status: data[0],
        payee_pubkey: read_pubkey(data, 1),
        payer_pubkey: read_pubkey(data, 33),
        deposit: read_u64_le(data, 65),
        rent_amount: read_u64_le(data, 73),
        duration: read_u64_le(data, 81),
        duration_unit: data[89],
        remaining_payments: read_u64_le(data, 90),
    };
    proof {
        reveal(decode_spec);
    }
    Ok(r)
}

} // verus!
