//! The wire codec.
//!
//! Converts commitment parameters and initialization requests to and from a
//! flat, self-describing byte encoding: every field is length-prefixed with
//! a little-endian 64-bit byte count, and points and scalars appear as
//! their canonical fixed-size encodings. The point at infinity has no such
//! encoding, so encoding a value that contains one fails with an explicit
//! error rather than a panic.
//!
//! Decoding of `Params` is the exact inverse of encoding. Decoding of
//! `InitRequest` is intentionally unsupported for now: the proof blob's
//! external codec has no decode path, and this module rejects the attempt
//! explicitly instead of appearing to round-trip.

use vstd::prelude::*;

use crate::curve::{Point, PointV, Scalar, POINT_BYTES, SCALAR_BYTES, pts_view, pts_wf};
use crate::errors::{DecodingError, EncodingError};
use crate::params::{MAX_COUNTERS, Params};

verus! {

/// Offset of the blinding base's bytes in an encoded `Params`.
pub const OFF_H: usize = 8;

/// Offset of the endomorphism field's length prefix.
pub const OFF_ENDO_PREFIX: usize = 8 + POINT_BYTES;

/// Offset of the endomorphism constant's bytes.
pub const OFF_ENDO: usize = 8 + POINT_BYTES + 8;

/// Offset of the commitment table's length prefix.
pub const OFF_TABLE_PREFIX: usize = 8 + POINT_BYTES + 8 + SCALAR_BYTES;

/// Offset of the commitment table's bytes.
pub const OFF_TABLE: usize = 8 + POINT_BYTES + 8 + SCALAR_BYTES + 8;

/// Exact length of an encoded `Params`: three length prefixes, the two
/// fixed-size fields and the fixed-capacity commitment table.
pub const PARAMS_WIRE_BYTES: usize = 8 + POINT_BYTES + 8 + SCALAR_BYTES + 8 + MAX_COUNTERS
    * POINT_BYTES;

/// The eight little-endian bytes of `n`.
pub open spec fn u64_le(n: u64) -> Seq<u8> {
    seq![
        (n & 0xff) as u8,
        ((n >> 8) & 0xff) as u8,
        ((n >> 16) & 0xff) as u8,
        ((n >> 24) & 0xff) as u8,
        ((n >> 32) & 0xff) as u8,
        ((n >> 40) & 0xff) as u8,
        ((n >> 48) & 0xff) as u8,
        ((n >> 56) & 0xff) as u8,
    ]
}

/// Writes the eight little-endian bytes of `n`.
pub fn encode_u64_le(n: u64) -> (r: Vec<u8>)
    ensures
        r@ == u64_le(n),
        r@.len() == 8,
{
    let mut out: Vec<u8> = Vec::new();
    out.push((n & 0xff) as u8);
    out.push(((n >> 8) & 0xff) as u8);
    out.push(((n >> 16) & 0xff) as u8);
    out.push(((n >> 24) & 0xff) as u8);
    out.push(((n >> 32) & 0xff) as u8);
    out.push(((n >> 40) & 0xff) as u8);
    out.push(((n >> 48) & 0xff) as u8);
    out.push(((n >> 56) & 0xff) as u8);
    proof {
        assert(out@ =~= u64_le(n));
    }
    out
}

/// The coordinate bytes of a point sequence, concatenated in order.
pub open spec fn points_flat(ps: Seq<PointV>) -> Seq<u8>
    decreases ps.len(),
{
    if ps.len() == 0 {
        Seq::empty()
    } else {
        points_flat(ps.drop_last()) + ps.last().bytes
    }
}

/// Length of the concatenation of a well-formed point sequence.
pub proof fn lemma_points_flat_len(ps: Seq<PointV>)
    requires
        pts_wf(ps),
    ensures
        points_flat(ps).len() == ps.len() * POINT_BYTES,
    decreases ps.len(),
{
    if ps.len() > 0 {
        assert(pts_wf(ps.drop_last()));
        lemma_points_flat_len(ps.drop_last());
    }
}

/// Concatenating fixed-width point encodings is injective on the
/// coordinate bytes.
pub proof fn lemma_points_flat_injective(s1: Seq<PointV>, s2: Seq<PointV>)
    requires
        s1.len() == s2.len(),
        pts_wf(s1),
        pts_wf(s2),
        points_flat(s1) == points_flat(s2),
    ensures
        forall|i: int| 0 <= i < s1.len() ==> (#[trigger] s1[i]).bytes == s2[i].bytes,
    decreases s1.len(),
{
    if s1.len() > 0 {
        let d1 = s1.drop_last();
        let d2 = s2.drop_last();
        assert(pts_wf(d1));
        assert(pts_wf(d2));
        lemma_points_flat_len(d1);
        lemma_points_flat_len(d2);
        let f1 = points_flat(s1);
        let f2 = points_flat(s2);
        assert(f1 == points_flat(d1) + s1.last().bytes);
        assert(f2 == points_flat(d2) + s2.last().bytes);
        assert(s1.last().bytes =~= s2.last().bytes) by {
            assert forall|i: int| 0 <= i < POINT_BYTES implies s1.last().bytes[i]
                == s2.last().bytes[i] by {
                assert(s1.last().bytes[i] == f1[points_flat(d1).len() + i]);
                assert(s2.last().bytes[i] == f2[points_flat(d2).len() + i]);
            }
        }
        assert(points_flat(d1) =~= points_flat(d2)) by {
            assert forall|i: int| 0 <= i < points_flat(d1).len() implies points_flat(d1)[i]
                == points_flat(d2)[i] by {
                assert(points_flat(d1)[i] == f1[i]);
                assert(points_flat(d2)[i] == f2[i]);
            }
        }
        lemma_points_flat_injective(d1, d2);
        assert forall|i: int| 0 <= i < s1.len() implies (#[trigger] s1[i]).bytes
            == s2[i].bytes by {
            if i < s1.len() - 1 {
                assert(s1[i] == d1[i]);
                assert(s2[i] == d2[i]);
            }
        }
    }
}

/// A `Params` value is encodable when none of its points is the point at
/// infinity (the fixed-size encoding cannot represent it).
pub open spec fn params_encodable(p: Params) -> bool {
    &&& !p.h@.infinity
    &&& forall|i: int|
        0 <= i < p.lagrange_commitments@.len() ==> !(#[trigger] pts_view(
            p.lagrange_commitments@,
        )[i]).infinity
}

/// The wire bytes of a `Params` value: `h`, `endo` and the commitment
/// table, each length-prefixed, in that order.
pub open spec fn spec_encode_params(p: Params) -> Seq<u8> {
    u64_le(POINT_BYTES as u64) + p.h@.bytes + u64_le(SCALAR_BYTES as u64) + p.endo@ + u64_le(
        (MAX_COUNTERS * POINT_BYTES) as u64,
    ) + points_flat(pts_view(p.lagrange_commitments@))
}

/// The three length prefixes of an encoded `Params` carry the canonical
/// field widths.
pub open spec fn params_prefixes_ok(b: Seq<u8>) -> bool {
    &&& b.subrange(0, 8) == u64_le(POINT_BYTES as u64)
    &&& b.subrange(OFF_ENDO_PREFIX as int, OFF_ENDO_PREFIX as int + 8) == u64_le(
        SCALAR_BYTES as u64,
    )
    &&& b.subrange(OFF_TABLE_PREFIX as int, OFF_TABLE_PREFIX as int + 8) == u64_le(
        (MAX_COUNTERS * POINT_BYTES) as u64,
    )
}

/// Appends `src` to `out`.
pub fn push_bytes(out: &mut Vec<u8>, src: &Vec<u8>)
    ensures
        final(out)@ == old(out)@ + src@,
{
    proof {
        assert(old(out)@ + src@.subrange(0, 0) =~= old(out)@);
    }
    let mut i: usize = 0;
    while i < src.len()
        invariant
            i <= src@.len(),
            out@ == old(out)@ + src@.subrange(0, i as int),
        decreases src@.len() - i,
    {
        out.push(src[i]);
        i = i + 1;
        proof {
            assert(old(out)@ + src@.subrange(0, i as int) =~= (old(out)@ + src@.subrange(
                0,
                i as int - 1,
            )).push(src@[i as int - 1]));
        }
    }
    proof {
        assert(src@.subrange(0, src@.len() as int) =~= src@);
    }
}

/// Encodes commitment parameters for transmission.
///
/// Fails — with an explicit error, never a panic — exactly when some point
/// of the value is the point at infinity.
pub fn encode_params(p: &Params) -> (r: Result<Vec<u8>, EncodingError>)
    requires
        p.wf(),
    ensures
        r is Ok <==> params_encodable(*p),
        r matches Ok(b) ==> b@ == spec_encode_params(*p),
        !params_encodable(*p) ==> r == Err::<Vec<u8>, EncodingError>(
            EncodingError::PointAtInfinity,
        ),
{
    if p.h.infinity {
        return Err(EncodingError::PointAtInfinity);
    }
    let n = p.lagrange_commitments.len();
    let mut i: usize = 0;
    while i < n
        invariant
            n == p.lagrange_commitments@.len(),
            i <= n,
            forall|j: int|
                0 <= j < i ==> !(#[trigger] pts_view(p.lagrange_commitments@)[j]).infinity,
        decreases n - i,
    {
        if p.lagrange_commitments[i].infinity {
            proof {
                assert(pts_view(p.lagrange_commitments@)[i as int].infinity);
            }
            return Err(EncodingError::PointAtInfinity);
        }
        i = i + 1;
    }
    let mut out: Vec<u8> = Vec::new();
    let mut pre_h = encode_u64_le(POINT_BYTES as u64);
    out.append(&mut pre_h);
    push_bytes(&mut out, &p.h.data);
    let mut pre_endo = encode_u64_le(SCALAR_BYTES as u64);
    out.append(&mut pre_endo);
    push_bytes(&mut out, &p.endo.data);
    let mut pre_table = encode_u64_le((MAX_COUNTERS * POINT_BYTES) as u64);
    out.append(&mut pre_table);
    let ghost prefix = out@;
    proof {
        assert(prefix + points_flat(pts_view(p.lagrange_commitments@).subrange(0, 0)) =~= prefix);
    }
    let mut k: usize = 0;
    while k < n
        invariant
            n == p.lagrange_commitments@.len(),
            k <= n,
            out@ == prefix + points_flat(pts_view(p.lagrange_commitments@).subrange(0, k as int)),
        decreases n - k,
    {
        push_bytes(&mut out, &p.lagrange_commitments[k].data);
        k = k + 1;
        proof {
            let s = pts_view(p.lagrange_commitments@);
            assert(s.subrange(0, k as int).drop_last() =~= s.subrange(0, k as int - 1));
            assert(s.subrange(0, k as int).last() == s[k as int - 1]);
        }
    }
    proof {
        assert(pts_view(p.lagrange_commitments@).subrange(0, n as int) =~= pts_view(
            p.lagrange_commitments@,
        ));
        assert(out@ =~= spec_encode_params(*p));
    }
    Ok(out)
}

/// True when the bytes of `b` starting at `start` equal `expect`.
fn bytes_match(b: &Vec<u8>, start: usize, expect: &Vec<u8>) -> (r: bool)
    requires
        start + expect@.len() <= b@.len(),
    ensures
        r <==> b@.subrange(start as int, start as int + expect@.len() as int) == expect@,
{
    let n = expect.len();
    let total = b.len();
    let mut i: usize = 0;
    while i < n
        invariant
            n == expect@.len(),
            i <= n,
            total == b@.len(),
            start + n <= total,
            forall|j: int| 0 <= j < i ==> b@[start + j] == expect@[j],
        decreases n - i,
    {
        if b[start + i] != expect[i] {
            proof {
                let sub = b@.subrange(start as int, start as int + n as int);
                assert(sub[i as int] != expect@[i as int]);
            }
            return false;
        }
        i = i + 1;
    }
    proof {
        assert(b@.subrange(start as int, start as int + n as int) =~= expect@);
    }
    true
}

/// Copies `len` bytes of `b` starting at `start`.
fn copy_range(b: &Vec<u8>, start: usize, len: usize) -> (r: Vec<u8>)
    requires
        start + len <= b@.len(),
    ensures
        r@ == b@.subrange(start as int, start as int + len as int),
{
    let mut out: Vec<u8> = Vec::new();
    let total = b.len();
    let mut i: usize = 0;
    while i < len
        invariant
            i <= len,
            total == b@.len(),
            start + len <= total,
            out@ == b@.subrange(start as int, start as int + i as int),
        decreases len - i,
    {
        out.push(b[start + i]);
        i = i + 1;
        proof {
            assert(b@.subrange(start as int, start as int + i as int) =~= b@.subrange(
                start as int,
                start as int + i as int - 1,
            ).push(b@[start + i - 1]));
        }
    }
    out
}

/// Decodes commitment parameters from wire bytes: the exact inverse of
/// [`encode_params`].
///
/// Reports a too-short or too-long input distinctly from a length prefix
/// that disagrees with the canonical field widths; on success the returned
/// value encodes back to exactly the input.
pub fn decode_params(b: &Vec<u8>) -> (r: Result<Params, DecodingError>)
    ensures
        b@.len() < PARAMS_WIRE_BYTES ==> r == Err::<Params, DecodingError>(DecodingError::TooShort),
        b@.len() > PARAMS_WIRE_BYTES ==> r == Err::<Params, DecodingError>(DecodingError::TooLong),
        b@.len() == PARAMS_WIRE_BYTES && !params_prefixes_ok(b@) ==> r == Err::<
            Params,
            DecodingError,
        >(DecodingError::BadFieldLength),
        r is Ok <==> (b@.len() == PARAMS_WIRE_BYTES && params_prefixes_ok(b@)),
        r matches Ok(p) ==> p.wf() && params_encodable(p) && spec_encode_params(p) == b@,
{
    if b.len() < PARAMS_WIRE_BYTES {
        return Err(DecodingError::TooShort);
    }
    if b.len() > PARAMS_WIRE_BYTES {
        return Err(DecodingError::TooLong);
    }
    let pre_h = encode_u64_le(POINT_BYTES as u64);
    let pre_endo = encode_u64_le(SCALAR_BYTES as u64);
    let pre_table = encode_u64_le((MAX_COUNTERS * POINT_BYTES) as u64);
    if !bytes_match(b, 0, &pre_h) {
        return Err(DecodingError::BadFieldLength);
    }
    if !bytes_match(b, OFF_ENDO_PREFIX, &pre_endo) {
        return Err(DecodingError::BadFieldLength);
    }
    if !bytes_match(b, OFF_TABLE_PREFIX, &pre_table) {
        return Err(DecodingError::BadFieldLength);
    }
    let h = Point { infinity: false, data: copy_range(b, OFF_H, POINT_BYTES) };
    let endo = Scalar { data: copy_range(b, OFF_ENDO, SCALAR_BYTES) };
    let mut comms: Vec<Point> = Vec::new();
    let mut k: usize = 0;
    while k < MAX_COUNTERS
        invariant
            k <= MAX_COUNTERS,
            comms@.len() == k,
            b@.len() == PARAMS_WIRE_BYTES,
            forall|j: int|
                0 <= j < k ==> !(#[trigger] pts_view(comms@)[j]).infinity && pts_view(
                    comms@,
                )[j].bytes.len() == POINT_BYTES,
            points_flat(pts_view(comms@)) == b@.subrange(
                OFF_TABLE as int,
                OFF_TABLE as int + k * POINT_BYTES,
            ),
        decreases MAX_COUNTERS - k,
    {
        let pt = Point {
            infinity: false,
            data: copy_range(b, OFF_TABLE + k * POINT_BYTES, POINT_BYTES),
        };
        let ghost prev = comms@;
        comms.push(pt);
        k = k + 1;
        proof {
            assert(pts_view(comms@) =~= pts_view(prev).push(pt@));
            assert(pts_view(comms@).drop_last() =~= pts_view(prev));
            assert(points_flat(pts_view(comms@)) == points_flat(pts_view(prev)) + pt@.bytes);
            assert(b@.subrange(OFF_TABLE as int, OFF_TABLE as int + k * POINT_BYTES) =~= b@
                .subrange(OFF_TABLE as int, OFF_TABLE as int + (k - 1) * POINT_BYTES) + b@.subrange(
                OFF_TABLE as int + (k - 1) * POINT_BYTES,
                OFF_TABLE as int + k * POINT_BYTES,
            ));
            assert forall|j: int|
                0 <= j < k implies !(#[trigger] pts_view(comms@)[j]).infinity && pts_view(
                comms@,
            )[j].bytes.len() == POINT_BYTES by {
                if j < k - 1 {
                    assert(pts_view(comms@)[j] == pts_view(prev)[j]);
                }
            }
        }
    }
    let p = Params { h, endo, lagrange_commitments: comms };
    proof {
        assert(spec_encode_params(p) =~= b@);
    }
    Ok(p)
}

/// Byte-level determinism: the encoding of commitment parameters is a
/// function of the parameter values alone, so parameters built from the
/// same inputs encode to byte-identical wire messages.
pub proof fn lemma_params_encoding_deterministic(p: Params, q: Params)
    requires
        p.h@ == q.h@,
        p.endo@ == q.endo@,
        pts_view(p.lagrange_commitments@) == pts_view(q.lagrange_commitments@),
    ensures
        spec_encode_params(p) == spec_encode_params(q),
{
}

/// Part of the round trip for `Params` (with [`lemma_params_encoding_injective`]):
/// every encoding of well-formed, encodable parameters has the exact wire
/// length and the canonical length prefixes, so [`decode_params`] accepts it.
pub proof fn lemma_params_wire_shape(p: Params)
    requires
        p.wf(),
        params_encodable(p),
    ensures
        spec_encode_params(p).len() == PARAMS_WIRE_BYTES,
        params_prefixes_ok(spec_encode_params(p)),
{
    lemma_points_flat_len(pts_view(p.lagrange_commitments@));
    let b = spec_encode_params(p);
    assert(b.subrange(0, 8) =~= u64_le(POINT_BYTES as u64));
    assert(b.subrange(OFF_ENDO_PREFIX as int, OFF_ENDO_PREFIX as int + 8) =~= u64_le(
        SCALAR_BYTES as u64,
    ));
    assert(b.subrange(OFF_TABLE_PREFIX as int, OFF_TABLE_PREFIX as int + 8) =~= u64_le(
        (MAX_COUNTERS * POINT_BYTES) as u64,
    ));
}

/// Part of the round trip for `Params` (with [`lemma_params_wire_shape`]):
/// the encoding is injective, so whatever [`decode_params`] returns for an
/// encoding — which by its contract encodes back to the same bytes — is the
/// encoded value itself: same blinding base, same endomorphism constant,
/// same commitment table in the same order.
pub proof fn lemma_params_encoding_injective(p: Params, q: Params)
    requires
        p.wf(),
        q.wf(),
        params_encodable(p),
        params_encodable(q),
        spec_encode_params(p) == spec_encode_params(q),
    ensures
        p.h@ == q.h@,
        p.endo@ == q.endo@,
        pts_view(p.lagrange_commitments@) == pts_view(q.lagrange_commitments@),
{
    let bp = spec_encode_params(p);
    let bq = spec_encode_params(q);
    let sp = pts_view(p.lagrange_commitments@);
    let sq = pts_view(q.lagrange_commitments@);
    lemma_points_flat_len(sp);
    lemma_points_flat_len(sq);
    assert(p.h@.bytes =~= q.h@.bytes) by {
        assert(forall|i: int| 0 <= i < POINT_BYTES ==> p.h@.bytes[i] == bp[8 + i]);
        assert(forall|i: int| 0 <= i < POINT_BYTES ==> q.h@.bytes[i] == bq[8 + i]);
    }
    assert(p.h@ =~= q.h@);
    assert(p.endo@ =~= q.endo@) by {
        assert(forall|i: int| 0 <= i < SCALAR_BYTES ==> p.endo@[i] == bp[OFF_ENDO + i]);
        assert(forall|i: int| 0 <= i < SCALAR_BYTES ==> q.endo@[i] == bq[OFF_ENDO + i]);
    }
    assert(points_flat(sp) =~= points_flat(sq)) by {
        assert(forall|i: int|
            0 <= i < points_flat(sp).len() ==> points_flat(sp)[i] == bp[OFF_TABLE + i]);
        assert(forall|i: int|
            0 <= i < points_flat(sq).len() ==> points_flat(sq)[i] == bq[OFF_TABLE + i]);
    }
    lemma_points_flat_injective(sp, sq);
    assert(sp =~~= sq);
}

/// A user's initialization request: the accumulator commitment point and
/// the opaque proof blob that the external proof engine serialized.
#[derive(Debug, PartialEq, Eq)]
pub struct InitRequest {
    pub acc: Point,
    pub proof_bytes: Vec<u8>,
}

impl InitRequest {
    pub open spec fn wf(&self) -> bool {
        self.acc.wf()
    }
}

/// An `InitRequest` is encodable when its accumulator is not the point at
/// infinity.
pub open spec fn init_request_encodable(q: InitRequest) -> bool {
    !q.acc@.infinity
}

/// The wire bytes of an `InitRequest`: the accumulator point and the proof
/// blob, each length-prefixed, in that order.
pub open spec fn spec_encode_init_request(q: InitRequest) -> Seq<u8> {
    u64_le(POINT_BYTES as u64) + q.acc@.bytes + u64_le(q.proof_bytes@.len() as u64)
        + q.proof_bytes@
}

/// Encodes an initialization request for transmission.
///
/// Succeeds for every valid request; fails — with an explicit error, never
/// a panic — exactly when the accumulator is the point at infinity.
pub fn encode_init_request(q: &InitRequest) -> (r: Result<Vec<u8>, EncodingError>)
    requires
        q.wf(),
        q.proof_bytes@.len() <= 0xffff_ffff,
    ensures
        r is Ok <==> init_request_encodable(*q),
        r matches Ok(b) ==> b@ == spec_encode_init_request(*q),
        !init_request_encodable(*q) ==> r == Err::<Vec<u8>, EncodingError>(
            EncodingError::PointAtInfinity,
        ),
{
    if q.acc.infinity {
        return Err(EncodingError::PointAtInfinity);
    }
    let mut out: Vec<u8> = Vec::new();
    let mut pre_acc = encode_u64_le(POINT_BYTES as u64);
    out.append(&mut pre_acc);
    push_bytes(&mut out, &q.acc.data);
    let mut pre_proof = encode_u64_le(q.proof_bytes.len() as u64);
    out.append(&mut pre_proof);
    push_bytes(&mut out, &q.proof_bytes);
    proof {
        assert(out@ =~= spec_encode_init_request(*q));
    }
    Ok(out)
}

/// Decoding an `InitRequest` is not supported yet: the external codec of
/// the proof blob has no decode path, and this direction is rejected
/// explicitly — for every input — rather than left to return corrupted
/// data.
pub fn decode_init_request(bytes: &Vec<u8>) -> (r: Result<InitRequest, DecodingError>)
    ensures
        r == Err::<InitRequest, DecodingError>(DecodingError::UnsupportedProofDecode),
{
    Err(DecodingError::UnsupportedProofDecode)
}

} // verus!
