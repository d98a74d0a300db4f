//! Issuer bootstrap and commitment-parameter derivation for a
//! privacy-preserving counter-attestation scheme.
//!
//! The library covers the issuer-side one-time setup: deriving per-curve
//! commitment parameters (a blinding base, an endomorphism constant and a
//! fixed-capacity table of Lagrange-basis commitments), building the Schnorr
//! signer, assembling the long-lived `UpdateAuthority`, and the wire codec
//! for the proof-carrying messages. Curve points and scalars are carried as
//! their canonical fixed-size byte encodings; the elliptic-curve arithmetic,
//! the polynomial-commitment engine and the circuit compiler are external
//! capabilities whose deterministic outputs enter through the bootstrap
//! inputs.

use vstd::prelude::*;

pub mod curve;
pub mod errors;
pub mod params;
pub mod signer;
pub mod issuer;
pub mod codec;

verus! {

/// Returns the version tag of the scheme library.
pub fn version() -> (r: String)
    ensures
        r@ == "bba_lib:0.1"@,
{
    "bba_lib:0.1".to_string()
}

} // verus!
