//! Tests for the variant marshaler, the result aggregator and the
//! teardown protocol.

use blazesym_c::meta::Apk;
use blazesym_c::meta::Elf;
use blazesym_c::meta::Unknown;
use blazesym_c::meta::UserMeta;
use blazesym_c::meta::blaze_user_meta;
use blazesym_c::meta::blaze_user_meta_apk;
use blazesym_c::meta::blaze_user_meta_elf;
use blazesym_c::meta::blaze_user_meta_kind;
use blazesym_c::meta::blaze_user_meta_unknown;
use blazesym_c::meta::blaze_user_meta_variant;
use blazesym_c::output::NormalizedBatch;
use blazesym_c::output::blaze_normalized_user_output;
use blazesym_c::output::blaze_user_output_free;
use blazesym_c::err::CallStatus;
use blazesym_c::err::blaze_err;
use blazesym_c::reason::blaze_normalize_reason;

/// Check that we can convert an unknown entity into its marshaled
/// record and back.
#[test]
fn unknown_conversion() {
    let unknown = Unknown {
        reason: blaze_normalize_reason::BLAZE_NORMALIZE_REASON_UNSUPPORTED,
    };

    let unknown_c = blaze_user_meta_unknown::from(unknown);
    assert_eq!(
        unknown_c.reason,
        blaze_normalize_reason::BLAZE_NORMALIZE_REASON_UNSUPPORTED
    );
    assert_eq!(unknown_c.reserved, [0u8; 7]);
    let back = unknown_c.free();
    assert_eq!(
        back.reason,
        blaze_normalize_reason::BLAZE_NORMALIZE_REASON_UNSUPPORTED
    );

    let meta = UserMeta::Unknown(Unknown {
        reason: blaze_normalize_reason::BLAZE_NORMALIZE_REASON_UNSUPPORTED,
    });
    let meta_c = blaze_user_meta::from(meta);
    assert_eq!(meta_c.kind, blaze_user_meta_kind::BLAZE_USER_META_UNKNOWN);
    let _ = meta_c.free();
}

/// Check that we can convert an APK entity into its marshaled record
/// and back: the record holds a NUL-terminated deep copy of the path,
/// and releasing restores the entity exactly.
#[test]
fn apk_conversion() {
    let apk = Apk {
        path: b"/tmp/archive.apk".to_vec(),
    };

    let apk_c = blaze_user_meta_apk::from(apk);
    assert_eq!(apk_c.path, b"/tmp/archive.apk\0".to_vec());
    assert_eq!(apk_c.reserved, [0u8; 8]);
    let back = apk_c.free();
    assert_eq!(back.path, b"/tmp/archive.apk".to_vec());

    let meta = UserMeta::Apk(Apk {
        path: b"/tmp/archive.apk".to_vec(),
    });
    let meta_c = blaze_user_meta::from(meta);
    assert_eq!(meta_c.kind, blaze_user_meta_kind::BLAZE_USER_META_APK);
    match meta_c.free() {
        UserMeta::Apk(a) => assert_eq!(a.path, b"/tmp/archive.apk".to_vec()),
        _ => panic!("wrong variant reconstructed"),
    }
}

/// Check that we can convert an ELF entity into its marshaled record
/// and back: the build ID is copied beside its recorded length, and
/// releasing restores the entity exactly.
#[test]
fn elf_conversion() {
    let elf = Elf {
        path: b"/tmp/file.so".to_vec(),
        build_id: Some(vec![0x01, 0x02, 0x03, 0x04]),
    };

    let elf_c = blaze_user_meta_elf::from(elf);
    assert_eq!(elf_c.path, b"/tmp/file.so\0".to_vec());
    assert_eq!(elf_c.build_id_len, 4);
    assert_eq!(elf_c.build_id, Some(vec![0x01, 0x02, 0x03, 0x04]));
    let back = elf_c.free();
    assert_eq!(back.path, b"/tmp/file.so".to_vec());
    assert_eq!(back.build_id, Some(vec![0x01, 0x02, 0x03, 0x04]));

    let meta = UserMeta::Elf(Elf {
        path: b"/tmp/file.so".to_vec(),
        build_id: Some(vec![0x01, 0x02, 0x03, 0x04]),
    });
    let meta_c = blaze_user_meta::from(meta);
    assert_eq!(meta_c.kind, blaze_user_meta_kind::BLAZE_USER_META_ELF);
    let _ = meta_c.free();
}

/// An absent build ID is marshaled as an absent buffer with length
/// zero — the pairing the teardown relies on.
#[test]
fn elf_absent_build_id_pairing() {
    let elf = Elf {
        path: b"/usr/lib/libc.so.6".to_vec(),
        build_id: None,
    };
    let elf_c = blaze_user_meta_elf::from(elf);
    assert_eq!(elf_c.build_id_len, 0);
    assert!(elf_c.build_id.is_none());
    let back = elf_c.free();
    assert!(back.build_id.is_none());
}

/// The aggregator marshals each distinct entity once, in engine order,
/// and each output pair in input order; every index stays within the
/// metadata table, and the whole result tears down in one call.
#[test]
fn aggregator_structure() {
    let batch = NormalizedBatch {
        meta: vec![
            UserMeta::Unknown(Unknown {
                reason: blaze_normalize_reason::BLAZE_NORMALIZE_REASON_UNMAPPED,
            }),
            UserMeta::Elf(Elf {
                path: b"/usr/lib/libc.so.6".to_vec(),
                build_id: Some(vec![0xaa, 0xbb]),
            }),
            UserMeta::Apk(Apk {
                path: b"/data/app/base.apk".to_vec(),
            }),
        ],
        outputs: vec![(0x1000, 1), (0x0, 0), (0x2000, 2), (0x1080, 1)],
    };

    let result = blaze_normalized_user_output::from(batch);
    assert_eq!(result.meta_cnt, 3);
    assert_eq!(result.output_cnt, 4);
    assert_eq!(result.metas.len(), 3);
    assert_eq!(result.outputs.len(), 4);

    // Output records keep the input order and their table indices.
    let pairs: Vec<(u64, usize)> = result
        .outputs
        .iter()
        .map(|o| (o.output, o.meta_idx))
        .collect();
    assert_eq!(pairs, vec![(0x1000, 1), (0x0, 0), (0x2000, 2), (0x1080, 1)]);
    for o in &result.outputs {
        assert!(o.meta_idx < result.meta_cnt);
    }

    // The table keeps the engine's order, one record per entity.
    assert_eq!(
        result.metas[0].kind,
        blaze_user_meta_kind::BLAZE_USER_META_UNKNOWN
    );
    assert_eq!(result.metas[1].kind, blaze_user_meta_kind::BLAZE_USER_META_ELF);
    assert_eq!(result.metas[2].kind, blaze_user_meta_kind::BLAZE_USER_META_APK);
    match &result.metas[1].variant {
        blaze_user_meta_variant::elf(e) => {
            assert_eq!(e.path, b"/usr/lib/libc.so.6\0".to_vec());
            assert_eq!(e.build_id_len, 2);
            assert_eq!(e.build_id, Some(vec![0xaa, 0xbb]));
        }
        _ => panic!("kind and variant disagree"),
    }

    let mut status = CallStatus::new();
    blaze_user_output_free(result, &mut status);
    assert_eq!(status.last(), blaze_err::BLAZE_ERR_OK);
}

/// An empty batch aggregates to an empty, well-formed result.
#[test]
fn aggregator_empty() {
    let batch = NormalizedBatch {
        meta: Vec::new(),
        outputs: Vec::new(),
    };
    let result = blaze_normalized_user_output::from(batch);
    assert_eq!(result.meta_cnt, 0);
    assert_eq!(result.output_cnt, 0);
    let mut status = CallStatus::new();
    blaze_user_output_free(result, &mut status);
    assert_eq!(status.last(), blaze_err::BLAZE_ERR_OK);
}

/// The executable well-formedness check accepts every produced result
/// and rejects a record whose discriminant disagrees with its variant.
#[test]
fn wf_check() {
    let batch = NormalizedBatch {
        meta: vec![UserMeta::Apk(Apk {
            path: b"/data/app/base.apk".to_vec(),
        })],
        outputs: vec![(0x10, 0)],
    };
    let result = blaze_normalized_user_output::from(batch);
    assert!(result.check_wf());

    let mangled = blaze_normalized_user_output {
        meta_cnt: result.meta_cnt,
        metas: result
            .metas
            .iter()
            .map(|m| blaze_user_meta {
                kind: blaze_user_meta_kind::BLAZE_USER_META_UNKNOWN,
                variant: match &m.variant {
                    blaze_user_meta_variant::apk(a) => {
                        blaze_user_meta_variant::apk(blaze_user_meta_apk {
                            path: a.path.clone(),
                            reserved: a.reserved,
                        })
                    }
                    _ => panic!("unexpected variant"),
                },
            })
            .collect(),
        output_cnt: result.output_cnt,
        outputs: result.outputs.clone(),
        reserved: result.reserved,
    };
    assert!(!mangled.check_wf());
    let mut status = CallStatus::new();
    blaze_user_output_free(result, &mut status);
    assert_eq!(status.last(), blaze_err::BLAZE_ERR_OK);
}
