//! Commitments and the combination of revealed secrets, both built on the
//! Blake2x256 hash of the ink! environment.

use vstd::prelude::*;
use crate::primitives::{AccountId, Digest};

verus! {

/// How many participants a commit-reveal round needs before it may reveal
/// and before it may finalize.
pub const MIN_RANDOMNESS_PARTICIPANTS: u32 = 2;

/// Why a cryptographic or randomness operation was refused.
#[derive(Debug, Clone, Copy, PartialEq, Eq, Structural)]
pub enum CryptoError {
    /// The round is not in the phase the operation needs, a deadline has
    /// passed or not yet passed, or the account is not entitled to act.
    InvalidRandomnessPhase,
    /// A revealed secret does not hash to the account's commitment.
    CommitMismatch,
    /// Too few participants took part for the round to go on.
    InsufficientReveals,
}

/// The Blake2x256 digest (32 bytes) of `input`.
pub uninterp spec fn blake2x256(input: Seq<u8>) -> Seq<u8>;

/// Calls `ink::env::hash_bytes::<Blake2x256>`; its contract claims that
/// the 32 bytes written are the Blake2x256 digest of the input, a function
/// of the input bytes alone.
#[verifier::external_body]
fn hash_blake2x256(input: &[u8]) -> (digest: [u8; 32])
    ensures
        digest@ == blake2x256(input@),
{
    let mut digest = [0u8; 32];
    ink::env::hash_bytes::<ink::env::hash::Blake2x256>(input, &mut digest);
    digest
}

/// The commitment an account publishes for a secret: the digest of the
/// secret's bytes followed by the account's bytes.
pub open spec fn commitment_of(secret: Seq<u8>, account: Seq<u8>) -> Seq<u8> {
    blake2x256(secret + account)
}

/// The bytes of `secrets` laid end to end, in order.
pub open spec fn concat_secrets(secrets: Seq<[u8; 32]>) -> Seq<u8>
    decreases secrets.len(),
{
    if secrets.len() == 0 {
        Seq::empty()
    } else {
        concat_secrets(secrets.drop_last()) + secrets.last()@
    }
}

/// The random value that a list of revealed secrets yields: the digest of
/// their bytes laid end to end.
pub open spec fn randomness_of(secrets: Seq<[u8; 32]>) -> Seq<u8> {
    blake2x256(concat_secrets(secrets))
}

/// Appends the 32 bytes of `bytes` to `out`.
fn append_bytes32(out: &mut Vec<u8>, bytes: &[u8; 32])
    ensures
        final(out)@ == old(out)@ + bytes@,
{
    let ghost start = out@;
    let mut i: usize = 0;
    while i < 32
        invariant
            0 <= i <= 32,
            bytes@.len() == 32,
            out@ == start + bytes@.subrange(0, i as int),
        decreases 32 - i,
    {
        out.push(bytes[i]);
        assert(bytes@.subrange(0, i + 1) =~= bytes@.subrange(0, i as int).push(bytes@[i as int]));
        i = i + 1;
    }
    assert(bytes@.subrange(0, 32) =~= bytes@);
}

/// The commitment of `account` to `secret`.
pub fn compute_commitment(secret: &[u8; 32], account: &AccountId) -> (commitment: Digest)
    ensures
        commitment@ == commitment_of(secret@, account@),
{
    let mut preimage: Vec<u8> = Vec::new();
    append_bytes32(&mut preimage, secret);
    append_bytes32(&mut preimage, &account.0);
    Digest(hash_blake2x256(preimage.as_slice()))
}

/// Whether `commitment` is the commitment of `account` to `secret`.
pub fn verify_commitment(secret: &[u8; 32], account: &AccountId, commitment: &Digest) -> (ok: bool)
    ensures
        ok == (commitment@ == commitment_of(secret@, account@)),
{
    let expected = compute_commitment(secret, account);
    expected == *commitment
}

/// Combines revealed secrets into the round's random value.
pub fn finalize_randomness(secrets: &[[u8; 32]]) -> (random: Digest)
    ensures
        random@ == randomness_of(secrets@),
{
    let mut bytes: Vec<u8> = Vec::new();
    let mut i: usize = 0;
    while i < secrets.len()
        invariant
            0 <= i <= secrets@.len(),
            bytes@ == concat_secrets(secrets@.take(i as int)),
        decreases secrets@.len() - i,
    {
        append_bytes32(&mut bytes, &secrets[i]);
        assert(secrets@.take(i + 1).drop_last() =~= secrets@.take(i as int));
        i = i + 1;
    }
    assert(secrets@.take(secrets@.len() as int) =~= secrets@);
    Digest(hash_blake2x256(bytes.as_slice()))
}

} // verus!
