//! Hash-to-curve by try-and-increment: hash the data with a counter until the
//! digest decodes to a curve point, then clear the cofactor.
use vstd::prelude::*;

use crate::curve::{cleared_on, decodes_on, modulus_byte_len, AffinePoint};
use crate::suite::{digest_of, Suite};

verus! {

pub const DOM_SEP_FRONT: u8 = 0x01;

pub const DOM_SEP_BACK: u8 = 0x00;

/// The number of counters tried before giving up.
pub const TAI_ATTEMPTS: u16 = 256;

/// The bytes hashed at counter `ctr`: `id || 0x01 || data || ctr || 0x00`.
pub open spec fn tai_buffer(id: u8, data: Seq<u8>, ctr: u8) -> Seq<u8> {
    seq![id, 0x01u8] + data + seq![ctr, 0x00u8]
}

/// The digest computed at counter `ctr`.
pub open spec fn tai_digest(suite: Suite, data: Seq<u8>, ctr: int) -> Seq<u8> {
    digest_of(suite.hasher, tai_buffer(suite.id, data, ctr as u8))
}

/// The first counter from `ctr` on, below 256, whose digest decodes to a
/// point of the suite's curve.
pub open spec fn first_decoding_from(suite: Suite, data: Seq<u8>, ctr: int) -> Option<int>
    decreases 256 - ctr,
{
    if ctr < 0 || ctr >= 256 {
        None
    } else if decodes_on(suite.curve, tai_digest(suite, data, ctr)) {
        Some(ctr)
    } else {
        first_decoding_from(suite, data, ctr + 1)
    }
}

/// The counter at which try-and-increment stops with a point, if any. A
/// digest shorter than the base-field modulus gives none.
pub open spec fn tai_counter(suite: Suite, data: Seq<u8>) -> Option<int> {
    if 64 < modulus_byte_len(suite.curve) {
        None
    } else {
        first_decoding_from(suite, data, 0)
    }
}

/// The encoding of the point that try-and-increment maps `data` to under
/// `suite`, if any.
pub open spec fn hash_to_curve_spec(suite: Suite, data: Seq<u8>) -> Option<Seq<u8>> {
    match tai_counter(suite, data) {
        Some(c) => Some(cleared_on(suite.curve, tai_digest(suite, data, c))),
        None => None,
    }
}

/// What `hash_to_curve_tai` may return on `suite` and `data`.
pub open spec fn tai_result(suite: Suite, data: Seq<u8>, r: Option<AffinePoint>) -> bool {
    &&& r.is_some() == hash_to_curve_spec(suite, data).is_some()
    &&& r matches Some(p) ==> p.curve == suite.curve && hash_to_curve_spec(suite, data) == Some(
        p.encoding@,
    )
}

/// Hash-to-curve is deterministic: two results on the same suite and data
/// are the same point on the same curve, or both absent.
pub proof fn lemma_hash_to_curve_deterministic(
    suite: Suite,
    data: Seq<u8>,
    r1: Option<AffinePoint>,
    r2: Option<AffinePoint>,
)
    requires
        tai_result(suite, data, r1),
        tai_result(suite, data, r2),
    ensures
        r1.is_some() == r2.is_some(),
        r1 matches Some(p1) ==> (r2 matches Some(p2) && p1.curve == p2.curve && p1.encoding@
            == p2.encoding@),
{
}

/// Domain separation: under suites with different identifiers, the bytes
/// hashed for the same data never coincide, whatever the counters.
pub proof fn lemma_domain_separation(s1: Suite, s2: Suite, data: Seq<u8>, c1: u8, c2: u8)
    requires
        s1.id != s2.id,
    ensures
        tai_buffer(s1.id, data, c1) != tai_buffer(s2.id, data, c2),
{
    assert(tai_buffer(s1.id, data, c1)[0] == s1.id);
    assert(tai_buffer(s2.id, data, c2)[0] == s2.id);
}

fn tai_buffer_exec(id: u8, data: &[u8], ctr: u8) -> (r: Vec<u8>)
    ensures
        r@ == tai_buffer(id, data@, ctr),
{
    let mut buf: Vec<u8> = Vec::new();
    buf.push(id);
    buf.push(DOM_SEP_FRONT);
    buf.extend_from_slice(data);
    buf.push(ctr);
    buf.push(DOM_SEP_BACK);
    assert(buf@ =~= tai_buffer(id, data@, ctr));
    buf
}

/// Maps `data` to a point of the prime-order subgroup of the suite's curve
/// (try-and-increment). For counters 0 to 255 it hashes
/// `id || 0x01 || data || ctr || 0x00`; the first digest that decodes to a
/// point on the curve gives the result, multiplied by the cofactor. Returns
/// `None` when no counter gives a point, or when the suite's digest is
/// shorter than the curve's base-field modulus.
pub fn hash_to_curve_tai(suite: &Suite, data: &[u8]) -> (r: Option<AffinePoint>)
    ensures
        tai_result(*suite, data@, r),
{
    let mod_size = suite.curve.modulus_byte_len();
    let mut ctr: u16 = 0;
    while ctr < TAI_ATTEMPTS
        invariant
            ctr <= 256,
            mod_size == modulus_byte_len(suite.curve),
            first_decoding_from(*suite, data@, 0) == first_decoding_from(*suite, data@, ctr as int),
        decreases 256 - ctr,
    {
        let buf = tai_buffer_exec(suite.id, data, ctr as u8);
        let hash = suite.hash(buf.as_slice());
        if hash.as_slice().len() < mod_size {
            return None;
        }
        if let Some(pt) = suite.curve.decode_cleared(hash.as_slice()) {
            return Some(pt);
        }
        ctr = ctr + 1;
    }
    None
}

} // verus!
