use bba_lib::codec::{
    decode_init_request, decode_params, encode_init_request, encode_params, encode_u64_le,
    InitRequest, PARAMS_WIRE_BYTES,
};
use bba_lib::curve::{Point, Scalar, POINT_BYTES, SCALAR_BYTES};
use bba_lib::errors::{DecodingError, EncodingError};
use bba_lib::params::{Params, Srs, MAX_COUNTERS};

fn make_point(seed: u8) -> Point {
    Point {
        infinity: false,
        data: (0..POINT_BYTES as u32)
            .map(|i| seed.wrapping_add(i as u8))
            .collect(),
    }
}

fn make_scalar(seed: u8) -> Scalar {
    Scalar {
        data: (0..SCALAR_BYTES as u32)
            .map(|i| seed.wrapping_mul(3).wrapping_add(i as u8))
            .collect(),
    }
}

fn make_srs(size: usize) -> Srs {
    Srs {
        g: (0..size).map(|i| make_point(i as u8)).collect(),
        h: make_point(201),
    }
}

fn make_table(len: usize) -> Vec<Point> {
    (0..len).map(|i| make_point(100u8.wrapping_add(i as u8))).collect()
}

fn build_params() -> Params {
    let srs = make_srs(128);
    let endo = make_scalar(7);
    let table = make_table(MAX_COUNTERS);
    Params::new(&srs, &endo, &table).expect("well-sized inputs must build")
}

#[test]
fn params_roundtrip() {
    let p = build_params();
    let bytes = encode_params(&p).expect("no point at infinity");
    assert_eq!(bytes.len(), PARAMS_WIRE_BYTES);
    let q = decode_params(&bytes).expect("own encoding must decode");
    assert_eq!(p.h, q.h);
    assert_eq!(p.endo, q.endo);
    assert_eq!(p.lagrange_commitments, q.lagrange_commitments);
    let bytes_again = encode_params(&q).expect("decoded value must re-encode");
    assert_eq!(bytes, bytes_again);
}

#[test]
fn params_encoding_deterministic() {
    let srs = make_srs(64);
    let endo = make_scalar(9);
    let table = make_table(MAX_COUNTERS);
    let p1 = Params::new(&srs, &endo, &table).unwrap();
    let p2 = Params::new(&srs, &endo, &table).unwrap();
    let b1 = encode_params(&p1).unwrap();
    let b2 = encode_params(&p2).unwrap();
    assert_eq!(b1, b2);
}

#[test]
fn encode_params_rejects_infinity() {
    let mut p = build_params();
    p.h.infinity = true;
    assert_eq!(encode_params(&p), Err(EncodingError::PointAtInfinity));
    let mut q = build_params();
    q.lagrange_commitments[17].infinity = true;
    assert_eq!(encode_params(&q), Err(EncodingError::PointAtInfinity));
}

#[test]
fn decode_params_wrong_lengths() {
    assert_eq!(
        decode_params(&Vec::new()),
        Err(DecodingError::TooShort)
    );
    let short = vec![0u8; PARAMS_WIRE_BYTES - 1];
    assert_eq!(decode_params(&short), Err(DecodingError::TooShort));
    let long = vec![0u8; PARAMS_WIRE_BYTES + 1];
    assert_eq!(decode_params(&long), Err(DecodingError::TooLong));
}

#[test]
fn decode_params_bad_prefix() {
    let p = build_params();
    let mut bytes = encode_params(&p).unwrap();
    // Corrupt the first length prefix: it no longer names the point width.
    bytes[0] = bytes[0].wrapping_add(1);
    assert_eq!(decode_params(&bytes), Err(DecodingError::BadFieldLength));
}

#[test]
fn encoded_params_layout() {
    let p = build_params();
    let bytes = encode_params(&p).unwrap();
    // Three length-prefixed fields in fixed order: h, endo, table.
    assert_eq!(&bytes[0..8], &encode_u64_le(POINT_BYTES as u64)[..]);
    assert_eq!(&bytes[8..72], &p.h.data[..]);
    assert_eq!(&bytes[72..80], &encode_u64_le(SCALAR_BYTES as u64)[..]);
    assert_eq!(&bytes[80..112], &p.endo.data[..]);
    assert_eq!(
        &bytes[112..120],
        &encode_u64_le((MAX_COUNTERS * POINT_BYTES) as u64)[..]
    );
    assert_eq!(
        &bytes[120..184],
        &p.lagrange_commitments[0].data[..]
    );
}

#[test]
fn init_request_serde() {
    let req = InitRequest {
        acc: make_point(55),
        proof_bytes: vec![1, 2, 3, 4, 5],
    };
    let bytes = encode_init_request(&req).expect("valid request must encode");
    // acc prefix + acc + proof prefix + proof
    assert_eq!(bytes.len(), 8 + POINT_BYTES + 8 + 5);
    // Decode support for the proof blob does not exist yet: the decode
    // direction must fail explicitly, not corrupt data.
    assert_eq!(
        decode_init_request(&bytes),
        Err(DecodingError::UnsupportedProofDecode)
    );
}

#[test]
fn init_request_exact_bytes() {
    let acc = Point {
        infinity: false,
        data: vec![0xab; POINT_BYTES],
    };
    let req = InitRequest {
        acc,
        proof_bytes: vec![0x10, 0x20, 0x30],
    };
    let bytes = encode_init_request(&req).unwrap();
    let mut expected = vec![64, 0, 0, 0, 0, 0, 0, 0];
    expected.extend(std::iter::repeat(0xab).take(POINT_BYTES));
    expected.extend([3, 0, 0, 0, 0, 0, 0, 0]);
    expected.extend([0x10, 0x20, 0x30]);
    assert_eq!(bytes, expected);
}

#[test]
fn init_request_rejects_infinity_acc() {
    let req = InitRequest {
        acc: Point {
            infinity: true,
            data: vec![0; POINT_BYTES],
        },
        proof_bytes: vec![],
    };
    assert_eq!(
        encode_init_request(&req),
        Err(EncodingError::PointAtInfinity)
    );
}

#[test]
fn u64_le_layout() {
    assert_eq!(encode_u64_le(0), vec![0; 8]);
    assert_eq!(
        encode_u64_le(0x0102030405060708),
        vec![8, 7, 6, 5, 4, 3, 2, 1]
    );
}
