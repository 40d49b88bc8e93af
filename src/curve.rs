//! The curves that suites are instantiated over, and the one operation on
//! their points that hash-to-curve needs: decode a candidate and clear its
//! cofactor. A point is held as its compressed encoding.
use vstd::prelude::*;

verus! {

/// The curve group of a suite.
#[derive(Clone, Copy, Debug, PartialEq, Eq, Structural)]
pub enum CurveKind {
    /// Bandersnatch, in twisted Edwards form.
    Bandersnatch,
    /// Ed25519, in twisted Edwards form.
    Ed25519,
}

/// A point on the curve of some suite, as its compressed encoding.
#[derive(Clone, Debug, PartialEq, Eq)]
pub struct AffinePoint {
    pub curve: CurveKind,
    pub encoding: Vec<u8>,
}

/// Whether `bytes` begin with the compressed encoding of a Bandersnatch point
/// (any point on the curve, not only of the prime-order subgroup).
pub uninterp spec fn bandersnatch_decodes(bytes: Seq<u8>) -> bool;

/// The compressed encoding of the Bandersnatch point decoded from `bytes`,
/// multiplied by the cofactor.
pub uninterp spec fn bandersnatch_cleared(bytes: Seq<u8>) -> Seq<u8>;

/// Whether `bytes` begin with the compressed encoding of an Ed25519 point
/// (any point on the curve, not only of the prime-order subgroup).
pub uninterp spec fn ed25519_decodes(bytes: Seq<u8>) -> bool;

/// The compressed encoding of the Ed25519 point decoded from `bytes`,
/// multiplied by the cofactor.
pub uninterp spec fn ed25519_cleared(bytes: Seq<u8>) -> Seq<u8>;

/// Relies on `AffineRepr::clear_cofactor` for Bandersnatch points, after
/// `CanonicalDeserialize::deserialize_compressed_unchecked`, which fails or
/// succeeds on the bytes alone; the result is written back with
/// `CanonicalSerialize::serialize_compressed`.
#[verifier::external_body]
fn bandersnatch_decode_cleared(bytes: &[u8]) -> (r: Option<Vec<u8>>)
    ensures
        r.is_some() == bandersnatch_decodes(bytes@),
        r matches Some(e) ==> e@ == bandersnatch_cleared(bytes@),
{
    let p = <ark_ed_on_bls12_381_bandersnatch::EdwardsAffine as ark_serialize::CanonicalDeserialize>::deserialize_compressed_unchecked(bytes).ok()?;
    let q = ark_ec::AffineRepr::clear_cofactor(&p);
    let mut out: Vec<u8> = Vec::new();
    ark_serialize::CanonicalSerialize::serialize_compressed(&q, &mut out).ok()?;
    Some(out)
}

/// Relies on `AffineRepr::clear_cofactor` for Ed25519 points, after
/// `CanonicalDeserialize::deserialize_compressed_unchecked`, which fails or
/// succeeds on the bytes alone; the result is written back with
/// `CanonicalSerialize::serialize_compressed`.
#[verifier::external_body]
fn ed25519_decode_cleared(bytes: &[u8]) -> (r: Option<Vec<u8>>)
    ensures
        r.is_some() == ed25519_decodes(bytes@),
        r matches Some(e) ==> e@ == ed25519_cleared(bytes@),
{
    let p = <ark_ed25519::EdwardsAffine as ark_serialize::CanonicalDeserialize>::deserialize_compressed_unchecked(bytes).ok()?;
    let q = ark_ec::AffineRepr::clear_cofactor(&p);
    let mut out: Vec<u8> = Vec::new();
    ark_serialize::CanonicalSerialize::serialize_compressed(&q, &mut out).ok()?;
    Some(out)
}

/// Relies on `PrimeField::MODULUS_BIT_SIZE` of Bandersnatch's base field (the
/// scalar field of BLS12-381, a 255-bit prime).
#[verifier::external_body]
fn bandersnatch_modulus_bits() -> (r: u32)
    ensures
        r == 255,
{
    <ark_ed_on_bls12_381_bandersnatch::Fq as ark_ff::PrimeField>::MODULUS_BIT_SIZE
}

/// Relies on `PrimeField::MODULUS_BIT_SIZE` of Ed25519's base field (the prime
/// 2^255 - 19).
#[verifier::external_body]
fn ed25519_modulus_bits() -> (r: u32)
    ensures
        r == 255,
{
    <ark_ed25519::Fq as ark_ff::PrimeField>::MODULUS_BIT_SIZE
}

/// Whether `bytes` begin with the encoding of a point of `curve`.
pub open spec fn decodes_on(curve: CurveKind, bytes: Seq<u8>) -> bool {
    match curve {
        CurveKind::Bandersnatch => bandersnatch_decodes(bytes),
        CurveKind::Ed25519 => ed25519_decodes(bytes),
    }
}

/// The encoding of the point of `curve` decoded from `bytes`, multiplied by
/// the cofactor.
pub open spec fn cleared_on(curve: CurveKind, bytes: Seq<u8>) -> Seq<u8> {
    match curve {
        CurveKind::Bandersnatch => bandersnatch_cleared(bytes),
        CurveKind::Ed25519 => ed25519_cleared(bytes),
    }
}

/// The byte length of the base-field modulus of `curve`: its bit size
/// divided by eight, rounded down.
pub open spec fn modulus_byte_len(curve: CurveKind) -> nat {
    match curve {
        CurveKind::Bandersnatch => 255nat / 8,
        CurveKind::Ed25519 => 255nat / 8,
    }
}

impl CurveKind {
    /// Decodes the compressed point at the start of `bytes`, allowing any
    /// point on the curve, and projects it into the prime-order subgroup by
    /// multiplying it by the cofactor.
    pub fn decode_cleared(self, bytes: &[u8]) -> (r: Option<AffinePoint>)
        ensures
            r.is_some() == decodes_on(self, bytes@),
            r matches Some(p) ==> p.curve == self && p.encoding@ == cleared_on(self, bytes@),
    {
        let enc = match self {
            CurveKind::Bandersnatch => bandersnatch_decode_cleared(bytes),
            CurveKind::Ed25519 => ed25519_decode_cleared(bytes),
        };
        match enc {
            Some(encoding) => Some(AffinePoint { curve: self, encoding }),
            None => None,
        }
    }

    /// The byte length of the curve's base-field modulus.
    pub fn modulus_byte_len(self) -> (r: usize)
        ensures
            r == modulus_byte_len(self),
    {
        let bits = match self {
            CurveKind::Bandersnatch => bandersnatch_modulus_bits(),
            CurveKind::Ed25519 => ed25519_modulus_bits(),
        };
        (bits / 8) as usize
    }
}

} // verus!
