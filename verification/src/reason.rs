//! The closed set of reasons why one address failed to normalize.

use vstd::prelude::*;

verus! {

/// The reason why normalization failed for an address.
///
/// The reason is generally only meant as a hint. Reasons reported may
/// change over time and, hence, should not be relied upon for the
/// correctness of the application.
#[derive(Clone, Copy, Debug, PartialEq, Eq, Structural)]
pub enum blaze_normalize_reason {
    /// The absolute address was not found in the corresponding process'
    /// virtual memory map.
    BLAZE_NORMALIZE_REASON_UNMAPPED,
    /// The virtual-memory-map entry corresponding to the address does
    /// not have a component (file system path, object, ...) associated
    /// with it.
    BLAZE_NORMALIZE_REASON_MISSING_COMPONENT,
    /// The address belonged to an entity that is currently unsupported.
    BLAZE_NORMALIZE_REASON_UNSUPPORTED,
}

/// The NUL-terminated text the engine associates with a reason.
pub uninterp spec fn reason_cstr(reason: blaze_normalize_reason) -> Seq<u8>;

/// Retrieve a textual representation of a normalization failure reason.
///
/// The text has static lifetime and is NUL terminated, so that a caller
/// can hand it on as a C string without copying or freeing it.
///
/// Relies on blazesym's `Reason::as_bytes`: for each reason it returns
/// a fixed, non-empty, NUL-terminated static byte string describing
/// that reason, depending on nothing but the reason itself.
#[verifier::external_body]
pub fn blaze_normalize_reason_str(reason: blaze_normalize_reason) -> (r: &'static [u8])
    ensures
        r@ == reason_cstr(reason),
        r@.len() > 0,
        r@[r@.len() - 1] == 0,
{
    match reason {
        blaze_normalize_reason::BLAZE_NORMALIZE_REASON_UNMAPPED => {
            blazesym::normalize::Reason::Unmapped.as_bytes()
        },
        blaze_normalize_reason::BLAZE_NORMALIZE_REASON_MISSING_COMPONENT => {
            blazesym::normalize::Reason::MissingComponent.as_bytes()
        },
        blaze_normalize_reason::BLAZE_NORMALIZE_REASON_UNSUPPORTED => {
            blazesym::normalize::Reason::Unsupported.as_bytes()
        },
    }
}

/// The reason a raw wire code denotes: codes count the variants in
/// declaration order, and every other code falls outside the closed
/// set.
pub open spec fn reason_of_code(code: u8) -> Option<blaze_normalize_reason> {
    if code == 0 {
        Some(blaze_normalize_reason::BLAZE_NORMALIZE_REASON_UNMAPPED)
    } else if code == 1 {
        Some(blaze_normalize_reason::BLAZE_NORMALIZE_REASON_MISSING_COMPONENT)
    } else if code == 2 {
        Some(blaze_normalize_reason::BLAZE_NORMALIZE_REASON_UNSUPPORTED)
    } else {
        None
    }
}

/// Decode a raw reason code; a code outside the closed set yields
/// nothing.
pub fn reason_from_code(code: u8) -> (r: Option<blaze_normalize_reason>)
    ensures
        r == reason_of_code(code),
{
    match code {
        0 => Some(blaze_normalize_reason::BLAZE_NORMALIZE_REASON_UNMAPPED),
        1 => Some(blaze_normalize_reason::BLAZE_NORMALIZE_REASON_MISSING_COMPONENT),
        2 => Some(blaze_normalize_reason::BLAZE_NORMALIZE_REASON_UNSUPPORTED),
        _ => None,
    }
}

/// The fixed NUL-terminated text reported for a reason code outside
/// the closed set: the bytes of `unknown reason`, terminated.
pub open spec fn unknown_reason_text() -> Seq<u8> {
    seq![
        117u8, 110u8, 107u8, 110u8, 111u8, 119u8, 110u8, 32u8, 114u8, 101u8, 97u8, 115u8,
        111u8, 110u8, 0u8,
    ]
}

/// Retrieve the text for a raw reason code. The call never fails: a
/// known code yields that reason's text, and every code outside the
/// closed set yields the one fixed unknown-reason text.
pub fn blaze_normalize_reason_code_str(code: u8) -> (r: Vec<u8>)
    ensures
        reason_of_code(code) matches Some(reason) ==> r@ == reason_cstr(reason),
        reason_of_code(code) is None ==> r@ == unknown_reason_text(),
        r@.len() > 0,
        r@[r@.len() - 1] == 0,
{
    match reason_from_code(code) {
        Some(reason) => copy_bytes(blaze_normalize_reason_str(reason)),
        None => unknown_reason_str(),
    }
}

/// The fixed unknown-reason text as an owned buffer.
fn unknown_reason_str() -> (r: Vec<u8>)
    ensures
        r@ == unknown_reason_text(),
{
    let mut v: Vec<u8> = Vec::new();
    v.push(117);
    v.push(110);
    v.push(107);
    v.push(110);
    v.push(111);
    v.push(119);
    v.push(110);
    v.push(32);
    v.push(114);
    v.push(101);
    v.push(97);
    v.push(115);
    v.push(111);
    v.push(110);
    v.push(0);
    proof {
        assert(v@ =~= unknown_reason_text());
    }
    v
}

/// Copy a byte slice into an owned buffer.
fn copy_bytes(s: &[u8]) -> (r: Vec<u8>)
    ensures
        r@ == s@,
{
    let mut v: Vec<u8> = Vec::new();
    let mut i: usize = 0;
    while i < s.len()
        invariant
            i <= s@.len(),
            v@ =~= s@.take(i as int),
        decreases s@.len() - i,
    {
        v.push(s[i]);
        i = i + 1;
    }
    proof {
        assert(v@ =~= s@);
    }
    v
}

} // verus!
