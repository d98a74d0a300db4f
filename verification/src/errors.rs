//! Error taxonomy of the bootstrap and the wire codec.
//!
//! Configuration problems abort the bootstrap before any partially built
//! authority exists; codec problems are recoverable and reported to the
//! caller of the encode or decode entry point.

use vstd::prelude::*;

verus! {

/// A fatal setup problem: the bootstrap must abort without exposing any
/// partially initialized authority.
#[derive(Clone, Copy, Debug, PartialEq, Eq)]
pub enum ConfigurationError {
    /// A structured reference string is smaller than the capacity-derived
    /// minimum its consumer needs.
    SrsTooSmall,
    /// A derived table's length does not match the capacity it was
    /// requested for.
    CapacityMismatch,
}

/// A value could not be converted to its canonical wire bytes.
#[derive(Clone, Copy, Debug, PartialEq, Eq)]
pub enum EncodingError {
    /// The point at infinity has no fixed-size coordinate encoding.
    PointAtInfinity,
}

/// Wire bytes could not be converted back into a value.
#[derive(Clone, Copy, Debug, PartialEq, Eq)]
pub enum DecodingError {
    /// The input ends before the encoding does.
    TooShort,
    /// Bytes remain after the encoding ends.
    TooLong,
    /// A length prefix disagrees with the canonical field width.
    BadFieldLength,
    /// The proof blob's external codec has no decode path yet; decoding a
    /// message that carries one is rejected rather than guessed at.
    UnsupportedProofDecode,
}

/// Why `init_issuer` failed: a configuration problem, or the secure
/// randomness source refusing to produce the signing key material.
#[derive(Clone, Copy, Debug, PartialEq, Eq)]
pub enum BootstrapError {
    Configuration(ConfigurationError),
    Randomness,
}

} // verus!
