//! The boundary entry points: handle management and address
//! normalization.
//!
//! The normalization engine itself — virtual-memory-map acquisition,
//! build-identifier extraction and interval matching — is the external
//! collaborator `blazesym`; this module invokes it through a narrow set
//! of trusted declarations, converts its results into plain owned
//! values, and hands those to the verified marshaler and aggregator.
//! Every entry point records its outcome in a [`CallStatus`] cell, on
//! success and on failure alike.

use vstd::prelude::*;

use blazesym::normalize::Reason;
use blazesym::normalize::UserMeta as EngineMeta;
use blazesym::ErrorKind;

use crate::err::CallStatus;
use crate::err::blaze_err;
use crate::meta::Apk;
use crate::meta::Elf;
use crate::meta::Unknown;
use crate::meta::UserMeta;
use crate::opts::decode_normalize_opts;
use crate::opts::decode_normalizer_opts;
use crate::opts::normalize_opts_ok;
use crate::opts::normalizer_opts_ok;
use crate::output::NormalizedBatch;
use crate::output::blaze_normalized_user_output;
use crate::reason::blaze_normalize_reason;

verus! {

/// blazesym's `Normalizer` is the engine handle; the library treats it
/// as an opaque value exclusively owned by the caller.
#[verifier::external_type_specification]
#[verifier::external_body]
pub struct ExNormalizer(blazesym::normalize::Normalizer);

/// blazesym's per-address meta information; opaque until converted to
/// a resolved entity of this library.
#[verifier::external_type_specification]
#[verifier::external_body]
pub struct ExEngineMeta<'src>(EngineMeta<'src>);

/// blazesym's error value; opaque, classified through its kind.
#[verifier::external_type_specification]
#[verifier::external_body]
pub struct ExError(blazesym::Error);

/// Relies on blazesym's `Normalizer::new`: constructs an engine handle
/// in the default configuration; it performs no normalization work.
#[verifier::external_body]
fn engine_new() -> blazesym::normalize::Normalizer {
    blazesym::normalize::Normalizer::new()
}

/// Relies on blazesym's `Builder`: constructs an engine handle with
/// virtual-memory-map caching, build ID reading and build ID caching
/// enabled as given — the engine honors build ID caching only together
/// with build ID reading; it performs no normalization work.
#[verifier::external_body]
fn engine_build(cache_maps: bool, build_ids: bool, cache_build_ids: bool)
    -> blazesym::normalize::Normalizer {
    blazesym::normalize::Normalizer::builder()
        .enable_vma_caching(cache_maps)
        .enable_build_ids(build_ids)
        .enable_build_id_caching(cache_build_ids)
        .build()
}

/// Relies on blazesym's `Normalizer::normalize_user_addrs_opts`: its
/// documentation promises one output record per input address, in the
/// exact input order, and its construction of the result shows that
/// every output record's index points into the returned meta list.
/// What is resolved depends on the process' memory map, so nothing
/// else is assumed of the outcome.
#[verifier::external_body]
fn engine_normalize<'a>(
    normalizer: &'a blazesym::normalize::Normalizer,
    pid: u32,
    addrs: &Vec<u64>,
    sorted_addrs: bool,
    map_files: bool,
) -> (r: Result<(Vec<EngineMeta<'a>>, Vec<(u64, usize)>), blazesym::Error>)
    ensures
        r matches Ok(out) ==> out.1@.len() == addrs@.len() && (forall|i: int|
            0 <= i < out.1@.len() ==> (#[trigger] out.1@[i]).1 < out.0@.len()),
{
    let mut opts = blazesym::normalize::NormalizeOpts::default();
    opts.sorted_addrs = sorted_addrs;
    opts.map_files = map_files;
    match normalizer.normalize_user_addrs_opts(pid.into(), addrs.as_slice(), &opts) {
        Ok(o) => Ok((o.meta, o.outputs)),
        Err(e) => Err(e),
    }
}

/// Relies on blazesym's `Error::kind`: classifies an engine error onto
/// this library's code space; no engine error classifies as success.
#[verifier::external_body]
fn engine_error_code(err: &blazesym::Error) -> (r: blaze_err)
    ensures
        r != blaze_err::BLAZE_ERR_OK,
{
    match err.kind() {
        ErrorKind::NotFound => blaze_err::BLAZE_ERR_NOT_FOUND,
        ErrorKind::PermissionDenied => blaze_err::BLAZE_ERR_PERMISSION_DENIED,
        ErrorKind::AlreadyExists => blaze_err::BLAZE_ERR_ALREADY_EXISTS,
        ErrorKind::WouldBlock => blaze_err::BLAZE_ERR_WOULD_BLOCK,
        ErrorKind::InvalidInput => blaze_err::BLAZE_ERR_INVALID_INPUT,
        ErrorKind::InvalidData => blaze_err::BLAZE_ERR_INVALID_DATA,
        ErrorKind::InvalidDwarf => blaze_err::BLAZE_ERR_INVALID_DWARF,
        ErrorKind::TimedOut => blaze_err::BLAZE_ERR_TIMED_OUT,
        ErrorKind::WriteZero => blaze_err::BLAZE_ERR_WRITE_ZERO,
        ErrorKind::Unsupported => blaze_err::BLAZE_ERR_UNSUPPORTED,
        ErrorKind::UnexpectedEof => blaze_err::BLAZE_ERR_UNEXPECTED_EOF,
        ErrorKind::OutOfMemory => blaze_err::BLAZE_ERR_OUT_OF_MEMORY,
        _ => blaze_err::BLAZE_ERR_OTHER,
    }
}

/// Relies on blazesym's `UserMeta` file-backed variants: copies the
/// path bytes — and for an ELF entry the optional build ID — into
/// independently owned buffers; yields nothing for any other variant.
#[verifier::external_body]
fn engine_meta_file(meta: &EngineMeta<'_>) -> Option<UserMeta> {
    match meta {
        EngineMeta::Apk(a) => Some(UserMeta::Apk(Apk {
            path: a.path.clone().into_os_string().into_encoded_bytes(),
        })),
        EngineMeta::Elf(e) => Some(UserMeta::Elf(Elf {
            path: e.path.clone().into_os_string().into_encoded_bytes(),
            build_id: e.build_id.as_ref().map(|b| b.to_vec()),
        })),
        _ => None,
    }
}

/// Relies on blazesym's `Unknown::reason`: reads the failure reason of
/// an unknown-address entry; yields nothing for any other variant and
/// for a reason outside the closed set this boundary exposes.
#[verifier::external_body]
fn engine_meta_reason(meta: &EngineMeta<'_>) -> Option<blaze_normalize_reason> {
    match meta {
        EngineMeta::Unknown(u) => match u.reason {
            Reason::Unmapped => Some(
                blaze_normalize_reason::BLAZE_NORMALIZE_REASON_UNMAPPED,
            ),
            Reason::MissingComponent => Some(
                blaze_normalize_reason::BLAZE_NORMALIZE_REASON_MISSING_COMPONENT,
            ),
            Reason::Unsupported => Some(
                blaze_normalize_reason::BLAZE_NORMALIZE_REASON_UNSUPPORTED,
            ),
            _ => None,
        },
        _ => None,
    }
}

/// Convert the engine's meta entries into resolved entities of this
/// library, in order, checking the upstream data invariants on each:
/// a variant or reason outside the closed set, a path with an embedded
/// NUL byte, or an empty-but-present build ID yields `None`.
fn collect_entities(raw: &Vec<EngineMeta<'_>>) -> (r: Option<Vec<UserMeta>>)
    ensures
        r matches Some(v) ==> v@.len() == raw@.len() && (forall|i: int|
            0 <= i < v@.len() ==> (#[trigger] v@[i])@.valid()),
{
    let mut out: Vec<UserMeta> = Vec::new();
    let mut i: usize = 0;
    while i < raw.len()
        invariant
            i <= raw@.len(),
            out@.len() == i,
            forall|j: int| 0 <= j < i ==> (#[trigger] out@[j])@.valid(),
        decreases raw@.len() - i,
    {
        let ent = match engine_meta_file(&raw[i]) {
            Some(e) => e,
            None => match engine_meta_reason(&raw[i]) {
                Some(rc) => UserMeta::Unknown(Unknown { reason: rc }),
                None => {
                    return None;
                },
            },
        };
        if !ent.check_valid() {
            return None;
        }
        out.push(ent);
        i = i + 1;
    }
    Some(out)
}

/// The shared normalization path: invoke the engine, convert and check
/// its batch, aggregate it, and record the outcome.
fn normalize_impl(
    normalizer: &blazesym::normalize::Normalizer,
    pid: u32,
    addrs: &Vec<u64>,
    sorted_addrs: bool,
    map_files: bool,
    status: &mut CallStatus,
) -> (r: Option<blaze_normalized_user_output>)
    ensures
        (final(status).code == blaze_err::BLAZE_ERR_OK) == (r is Some),
        r matches Some(out) ==> out.wf() && out.output_cnt == addrs@.len() && out.outputs@.len()
            == addrs@.len(),
{
    match engine_normalize(normalizer, pid, addrs, sorted_addrs, map_files) {
        Err(e) => {
            status.set(engine_error_code(&e));
            None
        },
        Ok((raw_metas, outputs)) => match collect_entities(&raw_metas) {
            None => {
                status.set(blaze_err::BLAZE_ERR_INVALID_DATA);
                None
            },
            Some(meta) => {
                let batch = NormalizedBatch { meta, outputs };
                let out = blaze_normalized_user_output::from(batch);
                status.set(blaze_err::BLAZE_ERR_OK);
                Some(out)
            },
        },
    }
}

/// Create an engine handle in the default configuration.
///
/// The handle is exclusively owned by the caller until released
/// through [`blaze_normalizer_free`], exactly once. The call cannot
/// fail; it records success in the status cell all the same, as every
/// entry point does.
pub fn blaze_normalizer_new(status: &mut CallStatus) -> (r: blazesym::normalize::Normalizer)
    ensures
        final(status).code == blaze_err::BLAZE_ERR_OK,
{
    let normalizer = engine_new();
    status.set(blaze_err::BLAZE_ERR_OK);
    normalizer
}

/// Create an engine handle from a caller-supplied, size-prefixed
/// options record.
///
/// The record is validated and decoded under the zero-extension rule;
/// a malformed record yields no handle and records
/// `BLAZE_ERR_INVALID_INPUT`. The handle is exclusively owned by the
/// caller until released through [`blaze_normalizer_free`], exactly
/// once.
pub fn blaze_normalizer_new_opts(opts: &Vec<u8>, status: &mut CallStatus) -> (r: Option<
    blazesym::normalize::Normalizer,
>)
    ensures
        (r is Some) == normalizer_opts_ok(opts@),
        (final(status).code == blaze_err::BLAZE_ERR_OK) == (r is Some),
        r is None ==> final(status).code == blaze_err::BLAZE_ERR_INVALID_INPUT,
{
    match decode_normalizer_opts(opts) {
        Err(e) => {
            status.set(e);
            None
        },
        Ok(o) => {
            let normalizer = engine_build(o.cache_maps, o.build_ids, o.cache_build_ids);
            status.set(blaze_err::BLAZE_ERR_OK);
            Some(normalizer)
        },
    }
}

/// Release an engine handle.
///
/// The handle's resources — including any engine-internal caches — are
/// reclaimed transitively by the engine's own teardown; nothing else
/// is touched. Like every entry point, the call records its outcome —
/// here always success — in the status cell.
pub fn blaze_normalizer_free(normalizer: blazesym::normalize::Normalizer, status: &mut CallStatus)
    ensures
        final(status).code == blaze_err::BLAZE_ERR_OK,
{
    let _ = normalizer;
    status.set(blaze_err::BLAZE_ERR_OK);
}

/// Normalize a list of user space addresses, with default per-call
/// options.
///
/// `pid` names the process the addresses belong to; `0` denotes the
/// calling process. On success the produced result is well-formed —
/// one output record per input address, in input order, every record's
/// index pointing into the metadata table — the result is handed to
/// the caller, who must release it through
/// [`crate::output::blaze_user_output_free`] exactly once, and the
/// status cell records success. On failure nothing is returned and the
/// status cell records the reason. Engine data that violates the
/// upstream invariants this boundary depends on — a meta variant or
/// reason outside the closed set, a path with an embedded NUL byte, a
/// present-but-empty build ID — is rejected as a whole with
/// `BLAZE_ERR_INVALID_DATA` rather than terminating the process: a
/// verified function never aborts.
pub fn blaze_normalize_user_addrs(
    normalizer: &blazesym::normalize::Normalizer,
    pid: u32,
    addrs: &Vec<u64>,
    status: &mut CallStatus,
) -> (r: Option<blaze_normalized_user_output>)
    ensures
        (final(status).code == blaze_err::BLAZE_ERR_OK) == (r is Some),
        r matches Some(out) ==> out.wf() && out.output_cnt == addrs@.len(),
{
    normalize_impl(normalizer, pid, addrs, false, false, status)
}

/// Normalize a list of user space addresses under a caller-supplied,
/// size-prefixed per-call options record.
///
/// The record is validated and decoded under the zero-extension rule;
/// a malformed record yields nothing and records
/// `BLAZE_ERR_INVALID_INPUT` without invoking the engine. Addresses
/// claimed sorted must in fact be in non-decreasing order; the engine
/// reports a violation, which this layer surfaces verbatim. Otherwise
/// the behavior, including the rejection of invariant-violating engine
/// data with `BLAZE_ERR_INVALID_DATA`, is that of
/// [`blaze_normalize_user_addrs`].
pub fn blaze_normalize_user_addrs_opts(
    normalizer: &blazesym::normalize::Normalizer,
    pid: u32,
    addrs: &Vec<u64>,
    opts: &Vec<u8>,
    status: &mut CallStatus,
) -> (r: Option<blaze_normalized_user_output>)
    ensures
        !normalize_opts_ok(opts@) ==> r is None && final(status).code
            == blaze_err::BLAZE_ERR_INVALID_INPUT,
        (final(status).code == blaze_err::BLAZE_ERR_OK) == (r is Some),
        r matches Some(out) ==> out.wf() && out.output_cnt == addrs@.len(),
{
    match decode_normalize_opts(opts) {
        Err(e) => {
            status.set(e);
            None
        },
        Ok(o) => normalize_impl(normalizer, pid, addrs, o.sorted_addrs, o.map_files, status),
    }
}

} // verus!
