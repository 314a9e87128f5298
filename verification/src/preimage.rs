//! The preimage verifier: does a disclosed secret hash to a hashlock?

use crate::bytes::same_bytes;
use soroban_sdk::{Bytes, Env};
use vstd::prelude::*;

verus! {

/// Length in bytes of a hashlock, which is a SHA-256 digest.
pub const HASHLOCK_LEN: usize = 32;

/// The host environment, carried through to the hashing call and never
/// looked into.
#[verifier::external_type_specification]
#[verifier::external_body]
pub struct ExEnv(Env);

/// The SHA-256 digest of `data`.
pub uninterp spec fn sha256(data: Seq<u8>) -> Seq<u8>;

/// Calls `soroban_sdk::crypto::Crypto::sha256` on a copy of `data` made with
/// `Bytes::from_slice`, and reads the 32-byte result out with
/// `Hash::to_array`. Trusted: the result is the SHA-256 digest of `data`,
/// which is always 32 bytes long. The host charges the call to its budget
/// and aborts when that is exhausted.
#[verifier::external_body]
pub(crate) fn host_sha256(env: &Env, data: &[u8]) -> (digest: Vec<u8>)
    ensures
        digest@ == sha256(data@),
        digest@.len() == HASHLOCK_LEN,
{
    env.crypto().sha256(&Bytes::from_slice(env, data)).to_array().to_vec()
}

/// Bytewise comparison of a computed digest with a hashlock.
pub fn digest_matches(digest: &[u8], hashlock: &[u8]) -> (same: bool)
    ensures
        same == (digest@ == hashlock@),
{
    same_bytes(digest, hashlock)
}

/// Whether `preimage` hashes to `hashlock`.
pub fn verify(env: &Env, preimage: &[u8], hashlock: &[u8]) -> (valid: bool)
    ensures
        valid == (sha256(preimage@) == hashlock@),
{
    let computed = host_sha256(env, preimage);
    digest_matches(computed.as_slice(), hashlock)
}

} // verus!
