//! Suite descriptors: a domain-separation identifier, a challenge length, a
//! curve and a hash function.
use vstd::prelude::*;

use crate::curve::CurveKind;

verus! {

/// What SHA-512 returns on `input`.
pub uninterp spec fn sha512_of(input: Seq<u8>) -> Seq<u8>;

/// What BLAKE2b (64-byte output) returns on `input`.
pub uninterp spec fn blake2b_of(input: Seq<u8>) -> Seq<u8>;

/// Relies on `sha2::Sha512`: a 64-byte digest that depends on the input alone.
#[verifier::external_body]
fn sha512(input: &[u8]) -> (r: [u8; 64])
    ensures
        r@ == sha512_of(input@),
        r@.len() == 64,
{
    let mut h = [0u8; 64];
    h.copy_from_slice(&<sha2::Sha512 as sha2::Digest>::digest(input));
    h
}

/// Relies on `blake2b_simd::blake2b`: a 64-byte digest (the default output
/// length) that depends on the input alone.
#[verifier::external_body]
fn blake2(input: &[u8]) -> (r: [u8; 64])
    ensures
        r@ == blake2b_of(input@),
        r@.len() == 64,
{
    *blake2b_simd::blake2b(input).as_array()
}

/// The hash functions a suite can be configured with. Both give 64 bytes.
#[derive(Clone, Copy, Debug, PartialEq, Eq, Structural)]
pub enum HashKind {
    Sha512,
    Blake2b,
}

/// The digest of `input` under the hash function `h`.
pub open spec fn digest_of(h: HashKind, input: Seq<u8>) -> Seq<u8> {
    match h {
        HashKind::Sha512 => sha512_of(input),
        HashKind::Blake2b => blake2b_of(input),
    }
}

/// A fixed cryptographic configuration. Values derived under one suite never
/// interoperate with those of another: `id` separates their domains.
#[derive(Clone, Copy, Debug, PartialEq, Eq, Structural)]
pub struct Suite {
    pub id: u8,
    pub challenge_len: usize,
    pub curve: CurveKind,
    pub hasher: HashKind,
}

impl Suite {
    /// The suite's hash function applied to `data`.
    pub fn hash(&self, data: &[u8]) -> (r: [u8; 64])
        ensures
            r@ == digest_of(self.hasher, data@),
            r@.len() == 64,
    {
        match self.hasher {
            HashKind::Sha512 => sha512(data),
            HashKind::Blake2b => blake2(data),
        }
    }
}

pub const BANDERSNATCH_BLAKE2_SUITE_ID: u8 = 0x33;

pub const BANDERSNATCH_BLAKE2_CHALLENGE_LEN: usize = 32;

/// The suite over the Bandersnatch curve (twisted Edwards model), with
/// domain identifier 0x33, 32-byte challenges and SHA-512 as its hash.
#[derive(Clone, Copy, Debug)]
pub struct BandersnatchBlake2;

/// The descriptor of the Bandersnatch suite.
pub open spec fn bandersnatch_blake2_spec() -> Suite {
    Suite {
        id: 0x33,
        challenge_len: 32,
        curve: CurveKind::Bandersnatch,
        hasher: HashKind::Sha512,
    }
}

impl BandersnatchBlake2 {
    /// The suite's descriptor.
    pub fn suite() -> (s: Suite)
        ensures
            s == bandersnatch_blake2_spec(),
    {
        Suite {
            id: BANDERSNATCH_BLAKE2_SUITE_ID,
            challenge_len: BANDERSNATCH_BLAKE2_CHALLENGE_LEN,
            curve: CurveKind::Bandersnatch,
            hasher: HashKind::Sha512,
        }
    }

    /// The suite's hash function: SHA-512.
    pub fn hash(data: &[u8]) -> (r: [u8; 64])
        ensures
            r@ == sha512_of(data@),
    {
        sha512(data)
    }
}

} // verus!
