//! Tests for the versioned option-record decoder: forward and backward
//! compatibility under the zero-extension rule.

use blazesym_c::err::blaze_err;
use blazesym_c::opts::BLAZE_NORMALIZER_OPTS_SIZE;
use blazesym_c::opts::BLAZE_NORMALIZE_OPTS_SIZE;
use blazesym_c::opts::blaze_normalize_opts;
use blazesym_c::opts::blaze_normalizer_opts;
use blazesym_c::opts::decode_normalize_opts;
use blazesym_c::opts::decode_normalizer_opts;

/// A normalizer-options record of `len` bytes whose size field matches
/// `len`, with all other bytes zero.
fn normalizer_record(len: usize) -> Vec<u8> {
    let mut v = vec![0u8; len];
    let size = (len as u64).to_le_bytes();
    for (i, b) in size.iter().enumerate() {
        if i < v.len() {
            v[i] = *b;
        }
    }
    v
}

/// A per-call options record of `len` bytes whose size field matches
/// `len`, with all other bytes zero.
fn normalize_record(len: usize) -> Vec<u8> {
    normalizer_record(len)
}

/// A caller declaring exactly the size the implementation understands
/// decodes successfully, with the fields read from their offsets.
#[test]
fn normalizer_opts_exact_size() {
    let mut buf = normalizer_record(BLAZE_NORMALIZER_OPTS_SIZE);
    buf[8] = 1; // cache_maps
    buf[10] = 1; // cache_build_ids
    let opts = decode_normalizer_opts(&buf).unwrap();
    assert_eq!(opts.type_size, 16);
    assert!(opts.cache_maps);
    assert!(!opts.build_ids);
    assert!(opts.cache_build_ids);
    assert_eq!(opts.reserved, [0u8; 5]);
}

/// An older caller declaring a valid sub-prefix decodes successfully
/// with the uncovered trailing fields defaulted to zero.
#[test]
fn normalizer_opts_shorter_caller_accepted() {
    let mut buf = normalizer_record(11);
    buf[8] = 1; // cache_maps
    let opts = decode_normalizer_opts(&buf).unwrap();
    assert_eq!(opts.type_size, 11);
    assert!(opts.cache_maps);
    assert!(!opts.build_ids);
    assert!(!opts.cache_build_ids);
    assert_eq!(opts.reserved, [0u8; 5]);
}

/// A caller declaring less than the required fields is rejected.
#[test]
fn normalizer_opts_too_short_rejected() {
    let buf = normalizer_record(10);
    assert_eq!(
        decode_normalizer_opts(&buf).unwrap_err(),
        blaze_err::BLAZE_ERR_INVALID_INPUT
    );
    let empty: Vec<u8> = Vec::new();
    assert_eq!(
        decode_normalizer_opts(&empty).unwrap_err(),
        blaze_err::BLAZE_ERR_INVALID_INPUT
    );
}

/// A newer caller declaring extra bytes is accepted as long as every
/// extra byte is zero, and rejected as soon as one is not.
#[test]
fn normalizer_opts_longer_caller() {
    let mut buf = normalizer_record(20);
    buf[9] = 1; // build_ids
    let opts = decode_normalizer_opts(&buf).unwrap();
    assert!(opts.build_ids);
    assert_eq!(opts.type_size, 20);

    let mut bad = normalizer_record(20);
    bad[17] = 1;
    assert_eq!(
        decode_normalizer_opts(&bad).unwrap_err(),
        blaze_err::BLAZE_ERR_INVALID_INPUT
    );
}

/// The per-call record decodes its two flags from their offsets.
#[test]
fn normalize_opts_exact_size() {
    let mut buf = normalize_record(BLAZE_NORMALIZE_OPTS_SIZE);
    buf[8] = 1; // sorted_addrs
    let opts = decode_normalize_opts(&buf).unwrap();
    assert_eq!(opts.type_size, 16);
    assert!(opts.sorted_addrs);
    assert!(!opts.map_files);
    assert_eq!(opts.reserved, [0u8; 6]);
}

/// The per-call record honors the same shorter/longer rules.
#[test]
fn normalize_opts_compat_rules() {
    let mut buf = normalize_record(10);
    buf[9] = 1; // map_files
    let opts = decode_normalize_opts(&buf).unwrap();
    assert!(opts.map_files);
    assert!(!opts.sorted_addrs);

    let buf = normalize_record(9);
    assert_eq!(
        decode_normalize_opts(&buf).unwrap_err(),
        blaze_err::BLAZE_ERR_INVALID_INPUT
    );

    let ok_long = normalize_record(24);
    assert!(decode_normalize_opts(&ok_long).is_ok());

    let mut bad_long = normalize_record(24);
    bad_long[23] = 0xff;
    assert_eq!(
        decode_normalize_opts(&bad_long).unwrap_err(),
        blaze_err::BLAZE_ERR_INVALID_INPUT
    );
}

/// The defaults declare the size this implementation understands and
/// leave every option off.
#[test]
fn opts_defaults() {
    let d = blaze_normalizer_opts::default();
    assert_eq!(d.type_size, 16);
    assert!(!d.cache_maps && !d.build_ids && !d.cache_build_ids);
    assert_eq!(d.reserved, [0u8; 5]);

    let d = blaze_normalize_opts::default();
    assert_eq!(d.type_size, 16);
    assert!(!d.sorted_addrs && !d.map_files);
    assert_eq!(d.reserved, [0u8; 6]);
}
