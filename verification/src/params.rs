//! The commitment parameter builder.
//!
//! A structured reference string (SRS) is a public sequence of curve points
//! plus a blinding base `h`. From an SRS of at least the capacity-derived
//! minimum size, the external commitment engine derives — deterministically,
//! by an FFT over a power-of-two evaluation domain — one Lagrange-basis
//! commitment per slot of the counter capacity. This module validates the
//! capacity arithmetic and assembles the per-curve [`Params`] value.

use vstd::prelude::*;

use crate::curve::{Point, PointV, Scalar, pts_view, pts_wf};
use crate::errors::ConfigurationError;

verus! {

/// Maximum number of counters a single accumulator may track. Fixes the
/// Lagrange table length and the minimum SRS size.
pub const MAX_COUNTERS: usize = 64;

/// `2^e`.
pub open spec fn pow2(e: nat) -> nat
    decreases e,
{
    if e == 0 {
        1
    } else {
        2 * pow2((e - 1) as nat)
    }
}

/// `ceil(log2(n))` for `n >= 1`: the least `e` with `pow2(e) >= n`.
pub open spec fn clog2(n: nat) -> nat
    decreases n,
{
    if n <= 1 {
        0
    } else {
        1 + clog2(((n + 1) / 2) as nat)
    }
}

/// `pow2(e)` exceeds `e`.
pub proof fn lemma_pow2_gt(e: nat)
    ensures
        pow2(e) > e,
    decreases e,
{
    if e > 0 {
        lemma_pow2_gt((e - 1) as nat);
    }
}

/// `pow2` is monotone.
pub proof fn lemma_pow2_mono(a: nat, b: nat)
    requires
        a <= b,
    ensures
        pow2(a) <= pow2(b),
    decreases b,
{
    if a < b {
        lemma_pow2_mono(a, (b - 1) as nat);
    }
}

/// `pow2(clog2(n))` reaches `n`.
pub proof fn lemma_clog2_reaches(n: nat)
    requires
        n >= 1,
    ensures
        pow2(clog2(n)) >= n,
    decreases n,
{
    if n > 1 {
        let m = ((n + 1) / 2) as nat;
        lemma_clog2_reaches(m);
    }
}

/// `clog2(n)` is the least exponent whose power of two reaches `n`.
pub proof fn lemma_clog2_least(n: nat, e: nat)
    requires
        n >= 1,
        pow2(e) >= n,
    ensures
        e >= clog2(n),
    decreases n,
{
    if n > 1 {
        let m = ((n + 1) / 2) as nat;
        assert(pow2(0) == 1);
        assert(e >= 1) by {
            if e == 0 {
                assert(pow2(e) == 1);
            }
        }
        assert(pow2(e) == 2 * pow2((e - 1) as nat));
        assert(pow2((e - 1) as nat) >= m);
        lemma_clog2_least(m, (e - 1) as nat);
    }
}

/// Minimum SRS size for the scheme's counter capacity:
/// `2^ceil(log2(MAX_COUNTERS))`.
pub open spec fn min_srs_size() -> nat {
    pow2(clog2(MAX_COUNTERS as nat))
}

/// Ceiling log base two: the least `r` with `2^r >= n`.
pub fn ceil_log2(n: usize) -> (r: usize)
    requires
        1 <= n <= 0x4000_0000,
    ensures
        r == clog2(n as nat),
        pow2(r as nat) >= n,
{
    let mut e: usize = 0;
    let mut p: usize = 1;
    while p < n
        invariant
            1 <= n <= 0x4000_0000,
            p == pow2(e as nat),
            e as nat > 0 ==> pow2((e - 1) as nat) < n,
            p < 0x8000_0000,
        decreases 2 * n - p,
    {
        proof {
            lemma_pow2_gt(e as nat);
        }
        p = p * 2;
        e = e + 1;
    }
    proof {
        lemma_clog2_reaches(n as nat);
        lemma_clog2_least(n as nat, e as nat);
        if clog2(n as nat) < e as nat {
            lemma_pow2_mono(clog2(n as nat), (e - 1) as nat);
            assert(false);
        }
    }
    e
}

/// `2^ceil(log2(n))`: `n` rounded up to a power of two.
pub fn ceil_pow2(n: usize) -> (r: usize)
    requires
        1 <= n <= 0x4000_0000,
    ensures
        r == pow2(clog2(n as nat)),
        r >= n,
{
    let mut e: usize = 0;
    let mut p: usize = 1;
    while p < n
        invariant
            1 <= n <= 0x4000_0000,
            p == pow2(e as nat),
            e as nat > 0 ==> pow2((e - 1) as nat) < n,
            p < 0x8000_0000,
        decreases 2 * n - p,
    {
        proof {
            lemma_pow2_gt(e as nat);
        }
        p = p * 2;
        e = e + 1;
    }
    proof {
        lemma_clog2_reaches(n as nat);
        lemma_clog2_least(n as nat, e as nat);
        if clog2(n as nat) < e as nat {
            lemma_pow2_mono(clog2(n as nat), (e - 1) as nat);
            assert(false);
        }
    }
    p
}

/// A structured reference string over one curve group: the commitment basis
/// points `g` and the blinding base `h`.
#[derive(Debug, PartialEq, Eq)]
pub struct Srs {
    pub g: Vec<Point>,
    pub h: Point,
}

impl Srs {
    pub open spec fn wf(&self) -> bool {
        &&& self.h.wf()
        &&& pts_wf(pts_view(self.g@))
    }
}

/// Per-curve commitment parameters: the blinding base, the group's
/// endomorphism constant and exactly [`MAX_COUNTERS`] Lagrange-basis
/// commitments.
#[derive(Debug, PartialEq, Eq)]
pub struct Params {
    pub h: Point,
    pub endo: Scalar,
    pub lagrange_commitments: Vec<Point>,
}

impl Params {
    pub open spec fn wf(&self) -> bool {
        &&& self.h.wf()
        &&& self.endo.wf()
        &&& self.lagrange_commitments@.len() == MAX_COUNTERS
        &&& pts_wf(pts_view(self.lagrange_commitments@))
    }
}

/// The builder's output is this pure function of its inputs: the blinding
/// base and endomorphism constant are taken over unchanged, and the
/// engine-derived Lagrange table becomes the commitment table.
pub open spec fn params_built_from(
    p: Params,
    h: PointV,
    endo: Seq<u8>,
    lagrange: Seq<PointV>,
) -> bool {
    &&& p.h@ == h
    &&& p.endo@ == endo
    &&& pts_view(p.lagrange_commitments@) == lagrange
}

impl Params {
    /// Builds the commitment parameters for one curve group.
    ///
    /// `srs` is the group's structured reference string, `endo` its
    /// endomorphism constant, and `lagrange` the Lagrange-basis commitments
    /// that the external commitment engine derived from `srs` for a
    /// capacity of [`MAX_COUNTERS`] counters. Fails with a configuration
    /// error — never a truncated table — when the SRS is smaller than
    /// `2^ceil(log2(MAX_COUNTERS))` or the derived table does not have
    /// exactly [`MAX_COUNTERS`] entries.
    pub fn new(srs: &Srs, endo: &Scalar, lagrange: &Vec<Point>) -> (r: Result<
        Params,
        ConfigurationError,
    >)
        requires
            srs.wf(),
            endo.wf(),
            pts_wf(pts_view(lagrange@)),
        ensures
            r is Ok <==> (srs.g@.len() >= min_srs_size() && lagrange@.len() == MAX_COUNTERS),
            r matches Ok(p) ==> p.wf() && params_built_from(
                p,
                srs.h@,
                endo@,
                pts_view(lagrange@),
            ),
            srs.g@.len() < min_srs_size() ==> r == Err::<Params, ConfigurationError>(
                ConfigurationError::SrsTooSmall,
            ),
            srs.g@.len() >= min_srs_size() && lagrange@.len() != MAX_COUNTERS ==> r == Err::<
                Params,
                ConfigurationError,
            >(ConfigurationError::CapacityMismatch),
    {
        let required = ceil_pow2(MAX_COUNTERS);
        if srs.g.len() < required {
            return Err(ConfigurationError::SrsTooSmall);
        }
        if lagrange.len() != MAX_COUNTERS {
            return Err(ConfigurationError::CapacityMismatch);
        }
        Ok(Params {
            h: crate::curve::copy_point(&srs.h),
            endo: crate::curve::copy_scalar(endo),
            lagrange_commitments: crate::curve::copy_points(lagrange),
        })
    }
}

/// Determinism of the parameter builder: any two parameter values built
/// from the same blinding base, endomorphism constant and engine-derived
/// Lagrange table are equal, field for field.
pub proof fn lemma_params_builder_deterministic(
    p: Params,
    q: Params,
    h: PointV,
    endo: Seq<u8>,
    lagrange: Seq<PointV>,
)
    requires
        params_built_from(p, h, endo, lagrange),
        params_built_from(q, h, endo, lagrange),
    ensures
        p.h@ == q.h@,
        p.endo@ == q.endo@,
        pts_view(p.lagrange_commitments@) == pts_view(q.lagrange_commitments@),
{
}

} // verus!
