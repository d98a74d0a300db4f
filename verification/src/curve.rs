//! Byte-level model of the two curve groups' values.
//!
//! The external curve layer serializes affine points and scalars into
//! canonical fixed-size encodings; everything this library decides about a
//! point or a scalar it decides from that encoding (or from the explicit
//! point-at-infinity flag, which the fixed-size encoding cannot represent).

use vstd::prelude::*;

verus! {

/// Length in bytes of the canonical affine encoding of a curve point
/// (both coordinates, fixed width).
pub const POINT_BYTES: usize = 64;

/// Length in bytes of the canonical encoding of a scalar.
pub const SCALAR_BYTES: usize = 32;

/// Mathematical value of a [`Point`]: the infinity flag and the coordinate bytes.
pub struct PointV {
    pub infinity: bool,
    pub bytes: Seq<u8>,
}

impl PointV {
    /// A point value is well formed when its coordinate encoding has the
    /// canonical width.
    pub open spec fn wf(self) -> bool {
        self.bytes.len() == POINT_BYTES
    }
}

/// A curve point, carried as its canonical affine coordinate bytes plus an
/// explicit point-at-infinity flag (the identity has no coordinate encoding).
#[derive(Debug, PartialEq, Eq)]
pub struct Point {
    pub infinity: bool,
    pub data: Vec<u8>,
}

impl View for Point {
    type V = PointV;

    open spec fn view(&self) -> PointV {
        PointV { infinity: self.infinity, bytes: self.data@ }
    }
}

impl Point {
    pub open spec fn wf(&self) -> bool {
        self@.wf()
    }
}

/// A scalar of one of the two scalar fields, in canonical byte encoding.
#[derive(Debug, PartialEq, Eq)]
pub struct Scalar {
    pub data: Vec<u8>,
}

impl View for Scalar {
    type V = Seq<u8>;

    open spec fn view(&self) -> Seq<u8> {
        self.data@
    }
}

impl Scalar {
    pub open spec fn wf(&self) -> bool {
        self@.len() == SCALAR_BYTES
    }
}

/// View of a sequence of points.
pub open spec fn pts_view(s: Seq<Point>) -> Seq<PointV> {
    s.map_values(|p: Point| p@)
}

/// All points of a sequence are well formed.
pub open spec fn pts_wf(s: Seq<PointV>) -> bool {
    forall|i: int| 0 <= i < s.len() ==> (#[trigger] s[i]).wf()
}

/// Copies a byte vector.
pub fn copy_bytes(src: &Vec<u8>) -> (r: Vec<u8>)
    ensures
        r@ == src@,
{
    let mut out: Vec<u8> = Vec::new();
    let mut i: usize = 0;
    while i < src.len()
        invariant
            i <= src@.len(),
            out@ == src@.subrange(0, i as int),
        decreases src@.len() - i,
    {
        out.push(src[i]);
        i = i + 1;
        proof {
            assert(out@ =~= src@.subrange(0, i as int));
        }
    }
    proof {
        assert(out@ =~= src@);
    }
    out
}

/// Copies a point.
pub fn copy_point(p: &Point) -> (r: Point)
    ensures
        r@ == p@,
{
    Point { infinity: p.infinity, data: copy_bytes(&p.data) }
}

/// Copies a scalar.
pub fn copy_scalar(s: &Scalar) -> (r: Scalar)
    ensures
        r@ == s@,
{
    Scalar { data: copy_bytes(&s.data) }
}

/// Copies a sequence of points.
pub fn copy_points(ps: &Vec<Point>) -> (r: Vec<Point>)
    ensures
        pts_view(r@) == pts_view(ps@),
        r@.len() == ps@.len(),
{
    let mut out: Vec<Point> = Vec::new();
    let mut i: usize = 0;
    while i < ps.len()
        invariant
            i <= ps@.len(),
            out@.len() == i,
            forall|j: int| 0 <= j < i ==> (#[trigger] out@[j])@ == ps@[j]@,
        decreases ps@.len() - i,
    {
        let p = copy_point(&ps[i]);
        out.push(p);
        i = i + 1;
    }
    proof {
        assert(pts_view(out@) =~= pts_view(ps@));
    }
    out
}

} // verus!
