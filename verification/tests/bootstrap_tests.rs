use bba_lib::curve::{Point, Scalar, POINT_BYTES, SCALAR_BYTES};
use bba_lib::errors::{BootstrapError, ConfigurationError};
use bba_lib::issuer::{init_issuer, EngineSetup, GroupMapParams, VerifierKey};
use bba_lib::params::{ceil_log2, ceil_pow2, Params, Srs, MAX_COUNTERS};
use bba_lib::signer::{make_signer, SpongeParams};
use bba_lib::version;

fn make_point(seed: u8) -> Point {
    Point {
        infinity: false,
        data: (0..POINT_BYTES as u32)
            .map(|i| seed.wrapping_add(i as u8))
            .collect(),
    }
}

fn make_scalar(seed: u8) -> Scalar {
    Scalar {
        data: (0..SCALAR_BYTES as u32)
            .map(|i| seed.wrapping_mul(5).wrapping_add(i as u8))
            .collect(),
    }
}

fn make_srs(size: usize) -> Srs {
    Srs {
        g: (0..size).map(|i| make_point(i as u8)).collect(),
        h: make_point(77),
    }
}

fn make_table(len: usize) -> Vec<Point> {
    (0..len).map(|i| make_point(40u8.wrapping_add(i as u8))).collect()
}

fn make_sponge() -> SpongeParams {
    SpongeParams {
        round_constants: (0..4).map(make_scalar).collect(),
        mds: (10..13).map(make_scalar).collect(),
    }
}

fn make_setup(srs_len: usize, big_srs_len: usize) -> EngineSetup {
    EngineSetup {
        aux_srs: make_srs(MAX_COUNTERS),
        endo: make_scalar(2),
        sponge: make_sponge(),
        group_map: GroupMapParams {
            constants: (20..24).map(make_scalar).collect(),
        },
        aux_lagrange: make_table(MAX_COUNTERS),
        lagrange: make_table(srs_len),
        big_lagrange: make_table(big_srs_len),
        init_vk: VerifierKey { data: vec![1, 1, 2, 3] },
        update_vk: VerifierKey { data: vec![5, 8, 13, 21] },
    }
}

#[test]
fn capacity_arithmetic() {
    // MAX_COUNTERS is already a power of two, so the minimum SRS size is
    // MAX_COUNTERS itself.
    assert_eq!(MAX_COUNTERS, 64);
    assert_eq!(ceil_log2(MAX_COUNTERS), 6);
    assert_eq!(ceil_pow2(MAX_COUNTERS), 64);
    assert_eq!(ceil_log2(1), 0);
    assert_eq!(ceil_pow2(3), 4);
    assert_eq!(ceil_log2(65), 7);
    assert_eq!(ceil_pow2(65), 128);
}

#[test]
fn params_from_oversized_srs() {
    // An SRS of size 128 is enough for a capacity of 64: exactly 64
    // Lagrange commitments come back.
    let srs = make_srs(128);
    let p = Params::new(&srs, &make_scalar(3), &make_table(MAX_COUNTERS)).unwrap();
    assert_eq!(p.lagrange_commitments.len(), MAX_COUNTERS);
    assert_eq!(p.h, srs.h);
}

#[test]
fn params_from_exact_srs() {
    let srs = make_srs(64);
    let p = Params::new(&srs, &make_scalar(3), &make_table(MAX_COUNTERS)).unwrap();
    assert_eq!(p.lagrange_commitments.len(), MAX_COUNTERS);
}

#[test]
fn params_from_undersized_srs() {
    // An SRS of size 32 is below the minimum of 64: a configuration error,
    // never a truncated table.
    let srs = make_srs(32);
    assert_eq!(
        Params::new(&srs, &make_scalar(3), &make_table(MAX_COUNTERS)),
        Err(ConfigurationError::SrsTooSmall)
    );
}

#[test]
fn params_table_capacity_mismatch() {
    let srs = make_srs(64);
    assert_eq!(
        Params::new(&srs, &make_scalar(3), &make_table(MAX_COUNTERS - 1)),
        Err(ConfigurationError::CapacityMismatch)
    );
    assert_eq!(
        Params::new(&srs, &make_scalar(3), &make_table(MAX_COUNTERS + 1)),
        Err(ConfigurationError::CapacityMismatch)
    );
}

#[test]
fn bootstrap_success() {
    let srs = make_srs(256);
    let big_srs = make_srs(512);
    let setup = make_setup(256, 512);
    let authority = init_issuer(&srs, &big_srs, make_setup(256, 512)).unwrap();
    // The signing key was drawn from the secure source at the canonical width.
    assert_eq!(authority.signing_key.data.len(), SCALAR_BYTES);
    // The signer is paired with the auxiliary endomorphism constant.
    assert_eq!(authority.signer.endo, setup.endo);
    // Each verifying key sits beside the table of the SRS it was compiled
    // against, and the tables are taken over unchanged.
    assert_eq!(authority.lgr_comms, setup.aux_lagrange);
    assert_eq!(authority.other_lgr_comms.len(), srs.g.len());
    assert_eq!(authority.big_other_lgr_comms.len(), big_srs.g.len());
    assert_eq!(authority.init_vk.data, setup.init_vk.data);
    assert_eq!(authority.update_vk.data, setup.update_vk.data);
}

#[test]
fn bootstrap_fresh_keys_differ() {
    // Two bootstraps are not interchangeable: each draws its own key.
    let srs = make_srs(64);
    let big_srs = make_srs(128);
    let a1 = init_issuer(&srs, &big_srs, make_setup(64, 128)).unwrap();
    let a2 = init_issuer(&srs, &big_srs, make_setup(64, 128)).unwrap();
    assert_ne!(a1.signing_key.data, a2.signing_key.data);
}

#[test]
fn bootstrap_undersized_big_srs() {
    // A big SRS sized for half the capacity aborts the bootstrap atomically:
    // an error comes back, never a partially built authority.
    let srs = make_srs(64);
    let big_srs = make_srs(MAX_COUNTERS / 2);
    let r = init_issuer(&srs, &big_srs, make_setup(64, MAX_COUNTERS / 2));
    assert_eq!(
        r,
        Err(BootstrapError::Configuration(
            ConfigurationError::SrsTooSmall
        ))
    );
}

#[test]
fn bootstrap_undersized_ordinary_srs() {
    let srs = make_srs(16);
    let big_srs = make_srs(128);
    let r = init_issuer(&srs, &big_srs, make_setup(16, 128));
    assert_eq!(
        r,
        Err(BootstrapError::Configuration(
            ConfigurationError::SrsTooSmall
        ))
    );
}

#[test]
fn bootstrap_mis_sized_table() {
    let srs = make_srs(64);
    let big_srs = make_srs(128);
    // The ordinary table claims a different domain size than its SRS.
    let mut setup = make_setup(64, 128);
    setup.lagrange = make_table(63);
    let r = init_issuer(&srs, &big_srs, setup);
    assert_eq!(
        r,
        Err(BootstrapError::Configuration(
            ConfigurationError::CapacityMismatch
        ))
    );
}

#[test]
fn signer_factory_pairs_inputs() {
    let sponge = make_sponge();
    let endo = make_scalar(2);
    let signer = make_signer(make_sponge(), make_scalar(2));
    assert_eq!(signer.endo, endo);
    assert_eq!(
        signer.sponge.round_constants.len(),
        sponge.round_constants.len()
    );
    assert_eq!(signer.sponge.mds.len(), sponge.mds.len());
}

#[test]
fn version_tag() {
    assert_eq!(version(), "bba_lib:0.1");
}
