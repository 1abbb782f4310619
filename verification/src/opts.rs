//! Versioned, size-prefixed option records and their decoder.
//!
//! An option record is self-describing: its first field holds the byte
//! size the caller compiled against, followed by fixed-order scalar
//! fields and reserved padding. The decoder accepts records from both
//! older and newer callers under a zero-extension rule:
//!
//! * a shorter record is accepted as long as it covers every field the
//!   implementation depends on; the uncovered trailing fields read as
//!   zero / `false`;
//! * a longer record is accepted only if every byte beyond the size the
//!   implementation understands is zero — a newer caller that set a
//!   field this implementation does not know is rejected rather than
//!   silently misread.

use vstd::prelude::*;

use crate::err::blaze_err;

verus! {

/// The byte size of the normalizer-options record this implementation
/// understands.
pub const BLAZE_NORMALIZER_OPTS_SIZE: usize = 16;

/// The prefix of the normalizer-options record that covers every field
/// the implementation depends on (everything before the reserved
/// padding). A caller declaring less than this is rejected.
pub const BLAZE_NORMALIZER_OPTS_REQUIRED: usize = 11;

/// The byte size of the per-call options record this implementation
/// understands.
pub const BLAZE_NORMALIZE_OPTS_SIZE: usize = 16;

/// The prefix of the per-call options record that covers every field
/// the implementation depends on.
pub const BLAZE_NORMALIZE_OPTS_REQUIRED: usize = 10;

/// Options for configuring normalizer handles.
///
/// Record layout: `type_size` in bytes 0..8 (little endian), one byte
/// per `bool` field at offsets 8, 9 and 10, reserved padding in bytes
/// 11..16.
#[derive(Debug)]
pub struct blaze_normalizer_opts {
    /// The size of this record as the caller declared it.
    pub type_size: usize,
    /// Whether or not to cache the process' virtual-memory-map
    /// contents.
    ///
    /// Enabling this is not generally recommended: addresses falling
    /// into mappings added after caching may not normalize
    /// successfully, and there is no reasonable way of detecting
    /// staleness.
    pub cache_maps: bool,
    /// Whether to read and report build IDs as part of normalization.
    pub build_ids: bool,
    /// Whether to cache build IDs; only meaningful when build ID
    /// reading is enabled in the first place.
    pub cache_build_ids: bool,
    /// Unused bytes available for future expansion; must be zero.
    pub reserved: [u8; 5],
}

/// Options influencing one normalization call.
///
/// Record layout: `type_size` in bytes 0..8 (little endian), one byte
/// per `bool` field at offsets 8 and 9, reserved padding in bytes
/// 10..16.
#[derive(Debug)]
pub struct blaze_normalize_opts {
    /// The size of this record as the caller declared it.
    pub type_size: usize,
    /// Whether or not the addresses are already sorted in ascending
    /// order.
    ///
    /// Normalization always happens on sorted addresses; when they are
    /// sorted already the engine does not need to sort and later
    /// restore the original ordering.
    pub sorted_addrs: bool,
    /// Whether to report `map_files` entry paths instead of the
    /// symbolic paths mentioned in the virtual memory map.
    pub map_files: bool,
    /// Unused bytes available for future expansion; must be zero.
    pub reserved: [u8; 6],
}

impl Default for blaze_normalizer_opts {
    /// The default configuration: everything off, declared at the size
    /// this implementation understands.
    fn default() -> (r: Self)
        ensures
            r.type_size == BLAZE_NORMALIZER_OPTS_SIZE,
            !r.cache_maps,
            !r.build_ids,
            !r.cache_build_ids,
            forall|j: int| 0 <= j < 5 ==> r.reserved[j] == 0,
    {
        blaze_normalizer_opts {
            type_size: BLAZE_NORMALIZER_OPTS_SIZE,
            cache_maps: false,
            build_ids: false,
            cache_build_ids: false,
            reserved: [0u8; 5],
        }
    }
}

impl Default for blaze_normalize_opts {
    /// The default configuration: everything off, declared at the size
    /// this implementation understands.
    fn default() -> (r: Self)
        ensures
            r.type_size == BLAZE_NORMALIZE_OPTS_SIZE,
            !r.sorted_addrs,
            !r.map_files,
            forall|j: int| 0 <= j < 6 ==> r.reserved[j] == 0,
    {
        blaze_normalize_opts {
            type_size: BLAZE_NORMALIZE_OPTS_SIZE,
            sorted_addrs: false,
            map_files: false,
            reserved: [0u8; 6],
        }
    }
}

/// The byte a caller's record reads at position `i` under the
/// zero-extension rule: bytes the record does not cover read as zero.
pub open spec fn ext_byte(b: Seq<u8>, i: int) -> u8 {
    if 0 <= i < b.len() {
        b[i]
    } else {
        0
    }
}

/// The value of the little-endian eight-byte field at `off`,
/// zero-extended.
pub open spec fn le_u64_at(b: Seq<u8>, off: int) -> nat {
    (ext_byte(b, off) + ext_byte(b, off + 1) * 0x100 + ext_byte(b, off + 2) * 0x1_0000
        + ext_byte(b, off + 3) * 0x100_0000 + ext_byte(b, off + 4) * 0x1_0000_0000
        + ext_byte(b, off + 5) * 0x100_0000_0000 + ext_byte(b, off + 6) * 0x1_0000_0000_0000
        + ext_byte(b, off + 7) * 0x100_0000_0000_0000) as nat
}

/// Whether a caller record of these bytes is acceptable for an
/// implementation that depends on the first `required` bytes and
/// understands the first `size` bytes: the record covers every required
/// field, and every byte beyond the understood size is zero.
pub open spec fn record_ok(b: Seq<u8>, required: int, size: int) -> bool {
    b.len() >= required && (forall|i: int| size <= i < b.len() ==> b[i] == 0)
}

/// Whether these bytes decode as a normalizer-options record.
pub open spec fn normalizer_opts_ok(b: Seq<u8>) -> bool {
    record_ok(b, BLAZE_NORMALIZER_OPTS_REQUIRED as int, BLAZE_NORMALIZER_OPTS_SIZE as int)
}

/// Whether these bytes decode as a per-call options record.
pub open spec fn normalize_opts_ok(b: Seq<u8>) -> bool {
    record_ok(b, BLAZE_NORMALIZE_OPTS_REQUIRED as int, BLAZE_NORMALIZE_OPTS_SIZE as int)
}

/// Read the little-endian eight-byte field at `off`, zero-extending
/// past the end of the record.
fn read_le_u64(buf: &Vec<u8>, off: usize) -> (r: u64)
    requires
        off + 8 <= usize::MAX,
    ensures
        r == le_u64_at(buf@, off as int),
{
    (covered_byte(buf, off) as u64) + (covered_byte(buf, off + 1) as u64) * 0x100
        + (covered_byte(buf, off + 2) as u64) * 0x1_0000
        + (covered_byte(buf, off + 3) as u64) * 0x100_0000
        + (covered_byte(buf, off + 4) as u64) * 0x1_0000_0000
        + (covered_byte(buf, off + 5) as u64) * 0x100_0000_0000
        + (covered_byte(buf, off + 6) as u64) * 0x1_0000_0000_0000
        + (covered_byte(buf, off + 7) as u64) * 0x100_0000_0000_0000
}

/// Check that every byte of `buf` at positions `from..` is zero.
fn tail_is_zero(buf: &Vec<u8>, from: usize) -> (r: bool)
    ensures
        r == (forall|i: int| from <= i < buf@.len() ==> buf@[i] == 0),
{
    let mut i: usize = from;
    while i < buf.len()
        invariant
            from <= i,
            forall|j: int| from <= j < i ==> buf@[j] == 0,
        decreases buf@.len() - i,
    {
        if buf[i] != 0 {
            return false;
        }
        i = i + 1;
    }
    true
}

/// The byte of `buf` at `i`, or zero where the record does not cover
/// `i`.
fn covered_byte(buf: &Vec<u8>, i: usize) -> (r: u8)
    ensures
        r == ext_byte(buf@, i as int),
{
    if i < buf.len() {
        buf[i]
    } else {
        0
    }
}

/// Decode a caller-supplied normalizer-options record.
///
/// The buffer is the caller's record in full: its length is the
/// declared extent, and the leading size field is carried into the
/// decoded value verbatim, not re-checked against that length.
///
/// Rejects with `BLAZE_ERR_INVALID_INPUT` exactly when the record does
/// not cover the required fields or a byte beyond the understood size
/// is non-zero; otherwise yields the decoded options with any field the
/// record did not cover read as zero / `false`.
pub fn decode_normalizer_opts(buf: &Vec<u8>) -> (r: Result<blaze_normalizer_opts, blaze_err>)
    ensures
        r is Ok <==> normalizer_opts_ok(buf@),
        r matches Err(e) ==> e == blaze_err::BLAZE_ERR_INVALID_INPUT,
        r matches Ok(o) ==> {
            &&& le_u64_at(buf@, 0) <= usize::MAX ==> o.type_size == le_u64_at(buf@, 0)
            &&& o.cache_maps == (ext_byte(buf@, 8) != 0)
            &&& o.build_ids == (ext_byte(buf@, 9) != 0)
            &&& o.cache_build_ids == (ext_byte(buf@, 10) != 0)
            &&& forall|j: int| 0 <= j < 5 ==> o.reserved[j] == ext_byte(buf@, 11 + j)
        },
{
    if buf.len() < BLAZE_NORMALIZER_OPTS_REQUIRED {
        return Err(blaze_err::BLAZE_ERR_INVALID_INPUT);
    }
    if !tail_is_zero(buf, BLAZE_NORMALIZER_OPTS_SIZE) {
        return Err(blaze_err::BLAZE_ERR_INVALID_INPUT);
    }
    let size64 = read_le_u64(buf, 0);
    Ok(blaze_normalizer_opts {
        type_size: #[verifier::truncate] (size64 as usize),
        cache_maps: buf[8] != 0,
        build_ids: buf[9] != 0,
        cache_build_ids: buf[10] != 0,
        reserved: [
            covered_byte(buf, 11),
            covered_byte(buf, 12),
            covered_byte(buf, 13),
            covered_byte(buf, 14),
            covered_byte(buf, 15),
        ],
    })
}

/// Decode a caller-supplied per-call options record.
///
/// The buffer is the caller's record in full: its length is the
/// declared extent, and the leading size field is carried into the
/// decoded value verbatim, not re-checked against that length.
///
/// Rejects with `BLAZE_ERR_INVALID_INPUT` exactly when the record does
/// not cover the required fields or a byte beyond the understood size
/// is non-zero; otherwise yields the decoded options with any field the
/// record did not cover read as zero / `false`.
pub fn decode_normalize_opts(buf: &Vec<u8>) -> (r: Result<blaze_normalize_opts, blaze_err>)
    ensures
        r is Ok <==> normalize_opts_ok(buf@),
        r matches Err(e) ==> e == blaze_err::BLAZE_ERR_INVALID_INPUT,
        r matches Ok(o) ==> {
            &&& le_u64_at(buf@, 0) <= usize::MAX ==> o.type_size == le_u64_at(buf@, 0)
            &&& o.sorted_addrs == (ext_byte(buf@, 8) != 0)
            &&& o.map_files == (ext_byte(buf@, 9) != 0)
            &&& forall|j: int| 0 <= j < 6 ==> o.reserved[j] == ext_byte(buf@, 10 + j)
        },
{
    if buf.len() < BLAZE_NORMALIZE_OPTS_REQUIRED {
        return Err(blaze_err::BLAZE_ERR_INVALID_INPUT);
    }
    if !tail_is_zero(buf, BLAZE_NORMALIZE_OPTS_SIZE) {
        return Err(blaze_err::BLAZE_ERR_INVALID_INPUT);
    }
    let size64 = read_le_u64(buf, 0);
    Ok(blaze_normalize_opts {
        type_size: #[verifier::truncate] (size64 as usize),
        sorted_addrs: buf[8] != 0,
        map_files: buf[9] != 0,
        reserved: [
            covered_byte(buf, 10),
            covered_byte(buf, 11),
            covered_byte(buf, 12),
            covered_byte(buf, 13),
            covered_byte(buf, 14),
            covered_byte(buf, 15),
        ],
    })
}

} // verus!
