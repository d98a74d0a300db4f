//! The Schnorr signer factory.
//!
//! A signer pairs the sponge (transcript) constants of the auxiliary
//! curve's base field with that curve's endomorphism constant, so that
//! signing can use the endomorphism-based scalar-decomposition speedup.
//! It is stateless beyond these constants and safely shared between
//! concurrent signing operations.

use vstd::prelude::*;

use crate::curve::Scalar;

verus! {

/// Sponge (Poseidon-style transcript) constants for one field: the round
/// constants and the rows of the MDS matrix, as canonical field-element
/// encodings.
#[derive(Debug, PartialEq, Eq)]
pub struct SpongeParams {
    pub round_constants: Vec<Scalar>,
    pub mds: Vec<Scalar>,
}

impl SpongeParams {
    pub open spec fn wf(&self) -> bool {
        &&& forall|i: int|
            0 <= i < self.round_constants@.len() ==> (#[trigger] self.round_constants@[i]).wf()
        &&& forall|i: int| 0 <= i < self.mds@.len() ==> (#[trigger] self.mds@[i]).wf()
    }
}

/// A Schnorr-style signer over the auxiliary curve: sponge constants plus
/// the curve's endomorphism constant, nothing more.
#[derive(Debug, PartialEq, Eq)]
pub struct Signer {
    pub sponge: SpongeParams,
    pub endo: Scalar,
}

impl Signer {
    pub open spec fn wf(&self) -> bool {
        &&& self.sponge.wf()
        &&& self.endo.wf()
    }
}

/// Builds a signer from the sponge constants and the endomorphism constant
/// of the curve it will operate over, with no other effect.
///
/// The pairing is preserved exactly: the signer holds precisely the two
/// inputs. The endomorphism constant must have been derived for the very
/// curve group the signer will sign over; a constant of the wrong curve is
/// a fatal configuration bug that no runtime check here can detect.
pub fn make_signer(sponge: SpongeParams, endo: Scalar) -> (s: Signer)
    requires
        sponge.wf(),
        endo.wf(),
    ensures
        s.sponge == sponge,
        s.endo == endo,
        s.wf(),
{
    Signer { sponge, endo }
}

} // verus!
