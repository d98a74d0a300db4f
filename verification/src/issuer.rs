//! The issuer bootstrap.
//!
//! `init_issuer` folds the outputs of the external curve, commitment and
//! circuit-compilation capabilities into one long-lived, immutable
//! [`UpdateAuthority`]: the issuer signing key (drawn here, from the secure
//! randomness source, exactly once), the Schnorr signer, the group-to-curve
//! map, the Lagrange-commitment tables for both reference strings, and the
//! two verifying keys. It either returns a fully valid authority or fails
//! atomically with a configuration or randomness error — no partially
//! initialized authority is ever exposed.

use vstd::prelude::*;

use rand_core::RngCore;

use crate::curve::{Point, Scalar, SCALAR_BYTES, pts_view, pts_wf, copy_scalar};
use crate::errors::{BootstrapError, ConfigurationError};
use crate::params::{MAX_COUNTERS, Params, Srs, ceil_pow2, min_srs_size};
use crate::signer::{Signer, SpongeParams, make_signer};

verus! {

/// Constants of the deterministic group-to-curve map that the commitment
/// scheme uses to hash arbitrary data onto the primary curve.
#[derive(Debug, PartialEq, Eq)]
pub struct GroupMapParams {
    pub constants: Vec<Scalar>,
}

impl GroupMapParams {
    pub open spec fn wf(&self) -> bool {
        forall|i: int| 0 <= i < self.constants@.len() ==> (#[trigger] self.constants@[i]).wf()
    }
}

/// A circuit verifying key, as the opaque blob the external circuit
/// compiler derived from the corresponding proving key.
#[derive(Debug, PartialEq, Eq)]
pub struct VerifierKey {
    pub data: Vec<u8>,
}

/// The deterministic outputs of the external capabilities that the
/// bootstrap folds together: the ephemeral auxiliary-curve SRS, the
/// auxiliary curve's endomorphism constant, the sponge constants, the
/// group-to-curve map, the engine-derived Lagrange tables for all three
/// reference strings, and the two compiled verifying keys.
#[derive(Debug, PartialEq, Eq)]
pub struct EngineSetup {
    /// Fresh SRS over the auxiliary curve, sized to the counter capacity;
    /// ephemeral to bootstrap.
    pub aux_srs: Srs,
    /// Endomorphism constant of the auxiliary curve.
    pub endo: Scalar,
    /// Sponge constants of the auxiliary curve's base field.
    pub sponge: SpongeParams,
    /// Group-to-curve map constants for the primary curve.
    pub group_map: GroupMapParams,
    /// Lagrange-basis commitments the engine derived from `aux_srs` for
    /// the counter capacity.
    pub aux_lagrange: Vec<Point>,
    /// Lagrange-basis commitments derived from the ordinary primary SRS.
    pub lagrange: Vec<Point>,
    /// Lagrange-basis commitments derived from the big primary SRS.
    pub big_lagrange: Vec<Point>,
    /// Verifying key of the initialization circuit, compiled against the
    /// big SRS and the auxiliary Lagrange table.
    pub init_vk: VerifierKey,
    /// Verifying key of the update circuit, compiled against the ordinary
    /// SRS.
    pub update_vk: VerifierKey,
}

impl EngineSetup {
    pub open spec fn wf(&self) -> bool {
        &&& self.aux_srs.wf()
        &&& self.endo.wf()
        &&& self.sponge.wf()
        &&& self.group_map.wf()
        &&& pts_wf(pts_view(self.aux_lagrange@))
        &&& pts_wf(pts_view(self.lagrange@))
        &&& pts_wf(pts_view(self.big_lagrange@))
    }
}

/// The issuer's long-lived capability object. Immutable after bootstrap;
/// the signing key is secret and never serialized.
#[derive(Debug, PartialEq, Eq)]
pub struct UpdateAuthority {
    /// Secret Schnorr signing key.
    pub signing_key: Scalar,
    /// The signer paired with the auxiliary curve's endomorphism constant.
    pub signer: Signer,
    /// Group-to-curve map constants for the primary curve.
    pub group_map: GroupMapParams,
    /// Auxiliary-curve Lagrange table, sized to the counter capacity.
    pub lgr_comms: Vec<Point>,
    /// Primary-curve Lagrange table of the ordinary SRS, paired with
    /// `update_vk`.
    pub other_lgr_comms: Vec<Point>,
    /// Primary-curve Lagrange table of the big SRS, paired with `init_vk`.
    pub big_other_lgr_comms: Vec<Point>,
    /// Verifying key of the initialization circuit.
    pub init_vk: VerifierKey,
    /// Verifying key of the update circuit.
    pub update_vk: VerifierKey,
}

impl UpdateAuthority {
    pub open spec fn wf(&self) -> bool {
        &&& self.signing_key.wf()
        &&& self.signer.wf()
        &&& self.group_map.wf()
        &&& self.lgr_comms@.len() == MAX_COUNTERS
        &&& pts_wf(pts_view(self.lgr_comms@))
        &&& pts_wf(pts_view(self.other_lgr_comms@))
        &&& pts_wf(pts_view(self.big_other_lgr_comms@))
    }
}

/// Every reference string is at least the capacity-derived minimum size.
pub open spec fn srs_sizes_ok(srs: &Srs, big_srs: &Srs, setup: &EngineSetup) -> bool {
    &&& big_srs.g@.len() >= min_srs_size()
    &&& srs.g@.len() >= min_srs_size()
    &&& setup.aux_srs.g@.len() >= min_srs_size()
}

/// Every engine-derived Lagrange table has the length of the domain it was
/// derived for: the counter capacity for the auxiliary table, the SRS size
/// for the two primary tables.
pub open spec fn lagrange_tables_ok(srs: &Srs, big_srs: &Srs, setup: &EngineSetup) -> bool {
    &&& setup.aux_lagrange@.len() == MAX_COUNTERS
    &&& setup.lagrange@.len() == srs.g@.len()
    &&& setup.big_lagrange@.len() == big_srs.g@.len()
}

/// All configuration checks of the bootstrap.
pub open spec fn bootstrap_config_ok(srs: &Srs, big_srs: &Srs, setup: &EngineSetup) -> bool {
    &&& srs_sizes_ok(srs, big_srs, setup)
    &&& lagrange_tables_ok(srs, big_srs, setup)
}

/// Relies on `rand_core::OsRng::try_fill_bytes`: on success the whole
/// buffer has been overwritten with bytes from the operating system's
/// cryptographically secure randomness source; on failure that source is
/// unavailable and no byte of it may be used.
#[verifier::external_body]
fn os_random_bytes(n: usize) -> (r: Result<Vec<u8>, rand_core::Error>)
    ensures
        r matches Ok(b) ==> b@.len() == n,
{
    let mut buf = vec![0u8; n];
    match rand_core::OsRng.try_fill_bytes(&mut buf) {
        Ok(()) => Ok(buf),
        Err(e) => Err(e),
    }
}

/// Declares the randomness source's error type so the bootstrap can
/// receive and map it.
#[verifier::external_type_specification]
#[verifier::external_body]
pub struct ExRandError(rand_core::Error);

/// Bootstraps the issuer.
///
/// `srs` and `big_srs` are the primary-curve reference strings for the
/// update and the (larger) initialization circuit; `setup` carries the
/// deterministic outputs of the external engine (see [`EngineSetup`]).
/// The one nondeterministic step is the signing-key draw from the secure
/// randomness source, performed here exactly once, after every
/// configuration check has passed.
///
/// Fails atomically: an undersized reference string or a mis-sized
/// Lagrange table yields a configuration error, an unavailable randomness
/// source a randomness error, and in either case no authority — partial or
/// otherwise — is returned. On success the authority holds exactly the
/// inputs it was assembled from: each verifying key sits beside the
/// Lagrange table of the reference string it was compiled against.
pub fn init_issuer(srs: &Srs, big_srs: &Srs, setup: EngineSetup) -> (r: Result<
    UpdateAuthority,
    BootstrapError,
>)
    requires
        srs.wf(),
        big_srs.wf(),
        setup.wf(),
    ensures
        !srs_sizes_ok(srs, big_srs, &setup) ==> r == Err::<UpdateAuthority, BootstrapError>(
            BootstrapError::Configuration(ConfigurationError::SrsTooSmall),
        ),
        srs_sizes_ok(srs, big_srs, &setup) && !lagrange_tables_ok(srs, big_srs, &setup) ==> r
            == Err::<UpdateAuthority, BootstrapError>(
            BootstrapError::Configuration(ConfigurationError::CapacityMismatch),
        ),
        bootstrap_config_ok(srs, big_srs, &setup) ==> (r is Ok || r == Err::<
            UpdateAuthority,
            BootstrapError,
        >(BootstrapError::Randomness)),
        r matches Ok(a) ==> {
            &&& bootstrap_config_ok(srs, big_srs, &setup)
            &&& a.wf()
            &&& a.signer.sponge == setup.sponge
            &&& a.signer.endo@ == setup.endo@
            &&& a.group_map == setup.group_map
            &&& pts_view(a.lgr_comms@) == pts_view(setup.aux_lagrange@)
            &&& a.other_lgr_comms == setup.lagrange
            &&& a.big_other_lgr_comms == setup.big_lagrange
            &&& a.init_vk == setup.init_vk
            &&& a.update_vk == setup.update_vk
            &&& a.signing_key@.len() == SCALAR_BYTES
        },
{
    let required = ceil_pow2(MAX_COUNTERS);
    if big_srs.g.len() < required {
        return Err(BootstrapError::Configuration(ConfigurationError::SrsTooSmall));
    }
    if srs.g.len() < required {
        return Err(BootstrapError::Configuration(ConfigurationError::SrsTooSmall));
    }
    if setup.aux_srs.g.len() < required {
        return Err(BootstrapError::Configuration(ConfigurationError::SrsTooSmall));
    }

    // Auxiliary-curve commitment parameters, sized to the counter capacity.
    let aux_params = match Params::new(&setup.aux_srs, &setup.endo, &setup.aux_lagrange) {
        Ok(p) => p,
        Err(e) => {
            return Err(BootstrapError::Configuration(e));
        },
    };

    if setup.lagrange.len() != srs.g.len() {
        return Err(BootstrapError::Configuration(ConfigurationError::CapacityMismatch));
    }
    if setup.big_lagrange.len() != big_srs.g.len() {
        return Err(BootstrapError::Configuration(ConfigurationError::CapacityMismatch));
    }

    let endo = copy_scalar(&setup.endo);
    let signer = make_signer(setup.sponge, endo);

    // The single entropy draw of the bootstrap.
    let signing_key = match os_random_bytes(SCALAR_BYTES) {
        Ok(data) => Scalar { data },
        Err(_) => {
            return Err(BootstrapError::Randomness);
        },
    };

    Ok(UpdateAuthority {
        signing_key,
        signer,
        group_map: setup.group_map,
        lgr_comms: aux_params.lagrange_commitments,
        other_lgr_comms: setup.lagrange,
        big_other_lgr_comms: setup.big_lagrange,
        init_vk: setup.init_vk,
        update_vk: setup.update_vk,
    })
}

} // verus!
