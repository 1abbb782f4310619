//! Resolved entities and their flat, caller-consumable records.
//!
//! A resolved entity is the outcome of attributing one address: to an
//! APK, to an ELF file, or to a failure reason. The marshaler converts
//! an entity into a record of fixed shape — a discriminant plus the
//! payload of that variant — deep-copying every variable-length payload
//! into an independently owned buffer. The companion `free` operation
//! reverses the conversion exactly, so allocation and release always go
//! through matched code paths.

use vstd::prelude::*;

use crate::reason::blaze_normalize_reason;

verus! {

/// Whether a byte sequence is free of NUL bytes, and hence
/// representable as a NUL-terminated C string without loss.
pub open spec fn nul_free(s: Seq<u8>) -> bool {
    forall|i: int| 0 <= i < s.len() ==> s[i] != 0
}

/// The view of an optional byte buffer.
pub open spec fn opt_bytes_view(o: Option<Vec<u8>>) -> Option<Seq<u8>> {
    match o {
        Some(b) => Some(b@),
        None => None,
    }
}

// ---------------------------------------------------------------------
// Resolved entities: the internal representation handed over by the
// engine, as plain owned values.
// ---------------------------------------------------------------------

/// Meta information about an APK.
#[derive(Debug)]
pub struct Apk {
    /// The canonical absolute path to the APK, including its name, as
    /// raw bytes without a terminator.
    pub path: Vec<u8>,
}

/// Meta information about an ELF file.
#[derive(Debug)]
pub struct Elf {
    /// The path to the ELF file, as raw bytes without a terminator.
    pub path: Vec<u8>,
    /// The ELF file's build ID, if available; an available build ID is
    /// never empty.
    pub build_id: Option<Vec<u8>>,
}

/// Meta information about an address whose origin could not be
/// determined.
#[derive(Debug)]
pub struct Unknown {
    /// The reason why normalization failed.
    pub reason: blaze_normalize_reason,
}

/// A resolved entity: the outcome of attributing one address.
#[derive(Debug)]
pub enum UserMeta {
    /// The address belongs to an APK file.
    Apk(Apk),
    /// The address belongs to an ELF file.
    Elf(Elf),
    /// The address' origin is unknown.
    Unknown(Unknown),
}

/// The mathematical model of an APK entity.
#[verifier::ext_equal]
pub struct ApkModel {
    pub path: Seq<u8>,
}

/// The mathematical model of an ELF entity.
#[verifier::ext_equal]
pub struct ElfModel {
    pub path: Seq<u8>,
    pub build_id: Option<Seq<u8>>,
}

/// The mathematical model of a resolved entity.
#[verifier::ext_equal]
pub enum MetaModel {
    Apk(ApkModel),
    Elf(ElfModel),
    Unknown(blaze_normalize_reason),
}

impl View for UserMeta {
    type V = MetaModel;

    open spec fn view(&self) -> MetaModel {
        match self {
            UserMeta::Apk(a) => MetaModel::Apk(ApkModel { path: a.path@ }),
            UserMeta::Elf(e) => MetaModel::Elf(
                ElfModel { path: e.path@, build_id: opt_bytes_view(e.build_id) },
            ),
            UserMeta::Unknown(u) => MetaModel::Unknown(u.reason),
        }
    }
}

impl MetaModel {
    /// Whether the entity honors the upstream data invariants this
    /// boundary depends on: paths carry no embedded NUL byte, and a
    /// present build ID is non-empty.
    pub open spec fn valid(self) -> bool {
        match self {
            MetaModel::Apk(a) => nul_free(a.path),
            MetaModel::Elf(e) => nul_free(e.path) && (e.build_id matches Some(b) ==> b.len()
                > 0),
            MetaModel::Unknown(_) => true,
        }
    }
}

// ---------------------------------------------------------------------
// Marshaled records: the flat shape handed across the boundary.
// ---------------------------------------------------------------------

/// The valid variant kind in [`blaze_user_meta`].
#[derive(Clone, Copy, Debug, PartialEq, Eq, Structural)]
pub enum blaze_user_meta_kind {
    /// The unknown variant is valid.
    BLAZE_USER_META_UNKNOWN,
    /// The APK variant is valid.
    BLAZE_USER_META_APK,
    /// The ELF variant is valid.
    BLAZE_USER_META_ELF,
}

/// The marshaled record of an [`Apk`] entity.
#[derive(Debug)]
pub struct blaze_user_meta_apk {
    /// The canonical absolute path to the APK, including its name, as
    /// an owned NUL-terminated byte string. This member is always
    /// present.
    pub path: Vec<u8>,
    /// Unused member available for future expansion.
    pub reserved: [u8; 8],
}

/// The marshaled record of an [`Elf`] entity.
#[derive(Debug)]
pub struct blaze_user_meta_elf {
    /// The path to the ELF file, as an owned NUL-terminated byte
    /// string. This member is always present.
    pub path: Vec<u8>,
    /// The length of the build ID, in bytes.
    pub build_id_len: usize,
    /// The optional build ID of the ELF file, if found; absent exactly
    /// when `build_id_len` is zero.
    pub build_id: Option<Vec<u8>>,
    /// Unused member available for future expansion.
    pub reserved: [u8; 8],
}

/// The marshaled record of an [`Unknown`] entity.
#[derive(Debug)]
pub struct blaze_user_meta_unknown {
    /// The reason why normalization failed.
    ///
    /// The provided reason is a best guess, hinting at what ultimately
    /// prevented the normalization from being successful.
    pub reason: blaze_normalize_reason,
    /// Unused member available for future expansion.
    pub reserved: [u8; 7],
}

/// The actual variant data in [`blaze_user_meta`].
#[derive(Debug)]
pub enum blaze_user_meta_variant {
    /// Valid on [`blaze_user_meta_kind::BLAZE_USER_META_APK`].
    apk(blaze_user_meta_apk),
    /// Valid on [`blaze_user_meta_kind::BLAZE_USER_META_ELF`].
    elf(blaze_user_meta_elf),
    /// Valid on [`blaze_user_meta_kind::BLAZE_USER_META_UNKNOWN`].
    unknown(blaze_user_meta_unknown),
}

/// A marshaled resolved entity: a discriminant plus the payload of the
/// variant the discriminant names.
#[derive(Debug)]
pub struct blaze_user_meta {
    /// The variant kind that is present.
    pub kind: blaze_user_meta_kind,
    /// The actual variant with its data.
    pub variant: blaze_user_meta_variant,
}

/// The model of a marshaled APK record.
#[verifier::ext_equal]
pub struct ApkRec {
    pub path: Seq<u8>,
}

/// The model of a marshaled ELF record.
#[verifier::ext_equal]
pub struct ElfRec {
    pub path: Seq<u8>,
    pub build_id_len: nat,
    pub build_id: Option<Seq<u8>>,
}

/// The model of a marshaled unknown-entity record.
#[verifier::ext_equal]
pub struct UnknownRec {
    pub reason: blaze_normalize_reason,
}

/// The model of the variant data of a marshaled record.
#[verifier::ext_equal]
pub enum VariantRec {
    apk(ApkRec),
    elf(ElfRec),
    unknown(UnknownRec),
}

/// The model of a marshaled resolved entity.
#[verifier::ext_equal]
pub struct MetaRec {
    pub kind: blaze_user_meta_kind,
    pub variant: VariantRec,
}

impl View for blaze_user_meta_apk {
    type V = ApkRec;

    open spec fn view(&self) -> ApkRec {
        ApkRec { path: self.path@ }
    }
}

impl View for blaze_user_meta_elf {
    type V = ElfRec;

    open spec fn view(&self) -> ElfRec {
        ElfRec {
            path: self.path@,
            build_id_len: self.build_id_len as nat,
            build_id: opt_bytes_view(self.build_id),
        }
    }
}

impl View for blaze_user_meta_unknown {
    type V = UnknownRec;

    open spec fn view(&self) -> UnknownRec {
        UnknownRec { reason: self.reason }
    }
}

impl View for blaze_user_meta {
    type V = MetaRec;

    open spec fn view(&self) -> MetaRec {
        MetaRec {
            kind: self.kind,
            variant: match &self.variant {
                blaze_user_meta_variant::apk(a) => VariantRec::apk(a@),
                blaze_user_meta_variant::elf(e) => VariantRec::elf(e@),
                blaze_user_meta_variant::unknown(u) => VariantRec::unknown(u@),
            },
        }
    }
}

// ---------------------------------------------------------------------
// Well-formedness: what every record crossing the boundary satisfies.
// ---------------------------------------------------------------------

/// Whether a marshaled path buffer is a proper C string: non-empty,
/// NUL-terminated, with no interior NUL.
pub open spec fn cstr_wf(path: Seq<u8>) -> bool {
    path.len() > 0 && path.last() == 0 && nul_free(path.drop_last())
}

/// Well-formedness of a marshaled APK record.
pub open spec fn apk_rec_wf(a: ApkRec) -> bool {
    cstr_wf(a.path)
}

/// Well-formedness of a marshaled ELF record: the path is a proper C
/// string, and the build-identifier buffer is absent exactly when the
/// length field is zero — never a dangling buffer with zero length.
pub open spec fn elf_rec_wf(e: ElfRec) -> bool {
    &&& cstr_wf(e.path)
    &&& (e.build_id is None <==> e.build_id_len == 0)
    &&& (e.build_id matches Some(b) ==> b.len() == e.build_id_len)
}

/// Well-formedness of a marshaled entity: the discriminant names the
/// variant that is actually present, and the payload is well-formed.
pub open spec fn meta_rec_wf(m: MetaRec) -> bool {
    match m.variant {
        VariantRec::apk(a) => m.kind == blaze_user_meta_kind::BLAZE_USER_META_APK
            && apk_rec_wf(a),
        VariantRec::elf(e) => m.kind == blaze_user_meta_kind::BLAZE_USER_META_ELF
            && elf_rec_wf(e),
        VariantRec::unknown(_) => m.kind == blaze_user_meta_kind::BLAZE_USER_META_UNKNOWN,
    }
}

// ---------------------------------------------------------------------
// Marshaling, in specification and in executable form.
// ---------------------------------------------------------------------

/// What marshaling a resolved entity produces.
pub open spec fn marshal_entity(m: MetaModel) -> MetaRec {
    match m {
        MetaModel::Apk(a) => MetaRec {
            kind: blaze_user_meta_kind::BLAZE_USER_META_APK,
            variant: VariantRec::apk(ApkRec { path: a.path.push(0) }),
        },
        MetaModel::Elf(e) => MetaRec {
            kind: blaze_user_meta_kind::BLAZE_USER_META_ELF,
            variant: VariantRec::elf(
                ElfRec {
                    path: e.path.push(0),
                    build_id_len: match e.build_id {
                        Some(b) => b.len(),
                        None => 0,
                    },
                    build_id: e.build_id,
                },
            ),
        },
        MetaModel::Unknown(reason) => MetaRec {
            kind: blaze_user_meta_kind::BLAZE_USER_META_UNKNOWN,
            variant: VariantRec::unknown(UnknownRec { reason }),
        },
    }
}

/// What releasing a marshaled record reconstructs.
pub open spec fn unmarshal_entity(m: MetaRec) -> MetaModel {
    match m.variant {
        VariantRec::apk(a) => MetaModel::Apk(ApkModel { path: a.path.drop_last() }),
        VariantRec::elf(e) => MetaModel::Elf(
            ElfModel { path: e.path.drop_last(), build_id: e.build_id },
        ),
        VariantRec::unknown(u) => MetaModel::Unknown(u.reason),
    }
}

/// Law: releasing reverses marshaling exactly — for every resolved
/// entity, the entity reconstructed from its marshaled record is the
/// entity itself, so teardown releases precisely what marshaling
/// acquired.
pub proof fn lemma_marshal_round_trip(m: MetaModel)
    ensures
        unmarshal_entity(marshal_entity(m)) == m,
{
    match m {
        MetaModel::Apk(a) => {
            assert(a.path.push(0).drop_last() =~= a.path);
            assert(unmarshal_entity(marshal_entity(m)) =~~= m);
        },
        MetaModel::Elf(e) => {
            assert(e.path.push(0).drop_last() =~= e.path);
            assert(unmarshal_entity(marshal_entity(m)) =~~= m);
        },
        MetaModel::Unknown(_) => {},
    }
}

/// Law: marshaling a valid entity yields a well-formed record — in
/// particular, for an ELF record the build-identifier buffer is absent
/// exactly when its length field is zero.
pub proof fn lemma_marshal_wf(m: MetaModel)
    requires
        m.valid(),
    ensures
        meta_rec_wf(marshal_entity(m)),
{
    match m {
        MetaModel::Apk(a) => {
            assert(a.path.push(0).drop_last() =~= a.path);
        },
        MetaModel::Elf(e) => {
            assert(e.path.push(0).drop_last() =~= e.path);
        },
        MetaModel::Unknown(_) => {},
    }
}

/// Check that a byte buffer is a proper C string: non-empty,
/// NUL-terminated, with no interior NUL.
pub fn is_cstr(v: &Vec<u8>) -> (r: bool)
    ensures
        r == cstr_wf(v@),
{
    if v.len() == 0 {
        return false;
    }
    if v[v.len() - 1] != 0 {
        return false;
    }
    let mut i: usize = 0;
    while i < v.len() - 1
        invariant
            v@.len() > 0,
            i <= v@.len() - 1,
            forall|j: int| 0 <= j < i ==> v@[j] != 0,
        decreases v@.len() - i,
    {
        if v[i] == 0 {
            proof {
                assert(v@.drop_last()[i as int] == 0);
            }
            return false;
        }
        i = i + 1;
    }
    true
}

/// Check that a byte buffer is free of NUL bytes.
pub fn is_nul_free(v: &Vec<u8>) -> (r: bool)
    ensures
        r == nul_free(v@),
{
    let mut i: usize = 0;
    while i < v.len()
        invariant
            i <= v@.len(),
            forall|j: int| 0 <= j < i ==> v@[j] != 0,
        decreases v@.len() - i,
    {
        if v[i] == 0 {
            return false;
        }
        i = i + 1;
    }
    true
}

impl UserMeta {
    /// Check that this entity honors the upstream data invariants, so
    /// that it can be marshaled.
    pub fn check_valid(&self) -> (r: bool)
        ensures
            r == self@.valid(),
    {
        match self {
            UserMeta::Apk(a) => is_nul_free(&a.path),
            UserMeta::Elf(e) => {
                if !is_nul_free(&e.path) {
                    false
                } else {
                    match &e.build_id {
                        Some(b) => b.len() > 0,
                        None => true,
                    }
                }
            },
            UserMeta::Unknown(_) => true,
        }
    }
}

impl blaze_user_meta_apk {
    /// Marshal an APK entity, deep-copying its path into an owned
    /// NUL-terminated buffer.
    pub fn from(apk: Apk) -> (r: Self)
        requires
            nul_free(apk.path@),
        ensures
            r@ == (ApkRec { path: apk.path@.push(0) }),
            apk_rec_wf(r@),
            forall|j: int| 0 <= j < 8 ==> r.reserved[j] == 0,
    {
        let ghost orig: Seq<u8> = apk.path@;
        let mut path = apk.path;
        path.push(0);
        let r = blaze_user_meta_apk { path, reserved: [0u8; 8] };
        proof {
            assert(r@.path.drop_last() =~= orig);
        }
        r
    }

    /// Release a marshaled APK record by reconstructing the owned
    /// entity it was produced from; the entity's normal teardown then
    /// runs.
    pub fn free(self) -> (r: Apk)
        requires
            apk_rec_wf(self@),
        ensures
            r@ == (ApkModel { path: self@.path.drop_last() }),
    {
        let mut path = self.path;
        let _ = path.pop();
        Apk { path }
    }
}

impl blaze_user_meta_elf {
    /// Marshal an ELF entity, deep-copying its path into an owned
    /// NUL-terminated buffer and recording the build-identifier length
    /// beside the optional buffer.
    pub fn from(elf: Elf) -> (r: Self)
        requires
            nul_free(elf.path@),
            (elf.build_id matches Some(b) ==> b@.len() > 0),
        ensures
            r@ == (ElfRec {
                path: elf.path@.push(0),
                build_id_len: match opt_bytes_view(elf.build_id) {
                    Some(b) => b.len(),
                    None => 0,
                },
                build_id: opt_bytes_view(elf.build_id),
            }),
            elf_rec_wf(r@),
            forall|j: int| 0 <= j < 8 ==> r.reserved[j] == 0,
    {
        let ghost orig: Seq<u8> = elf.path@;
        let mut path = elf.path;
        path.push(0);
        let build_id_len = match &elf.build_id {
            Some(b) => b.len(),
            None => 0,
        };
        let r = blaze_user_meta_elf {
            path,
            build_id_len,
            build_id: elf.build_id,
            reserved: [0u8; 8],
        };
        proof {
            assert(r@.path.drop_last() =~= orig);
        }
        r
    }

    /// Release a marshaled ELF record by reconstructing the owned
    /// entity it was produced from; the entity's normal teardown then
    /// runs, releasing the path and the build-identifier buffer.
    pub fn free(self) -> (r: Elf)
        requires
            elf_rec_wf(self@),
        ensures
            r@ == (ElfModel { path: self@.path.drop_last(), build_id: self@.build_id }),
    {
        let mut path = self.path;
        let _ = path.pop();
        Elf { path, build_id: self.build_id }
    }
}

impl blaze_user_meta_unknown {
    /// Marshal an unknown-entity record; it owns no resources.
    pub fn from(unknown: Unknown) -> (r: Self)
        ensures
            r@ == (UnknownRec { reason: unknown.reason }),
            forall|j: int| 0 <= j < 7 ==> r.reserved[j] == 0,
    {
        blaze_user_meta_unknown { reason: unknown.reason, reserved: [0u8; 7] }
    }

    /// Release an unknown-entity record; there is nothing to free.
    pub fn free(self) -> (r: Unknown)
        ensures
            r@ == (UnknownRec { reason: self@.reason }),
    {
        Unknown { reason: self.reason }
    }
}

impl blaze_user_meta {
    /// Marshal a resolved entity into a discriminated record, handing
    /// ownership of the copied payload to the caller.
    pub fn from(meta: UserMeta) -> (r: Self)
        requires
            meta@.valid(),
        ensures
            r@ == marshal_entity(meta@),
            meta_rec_wf(r@),
    {
        proof {
            lemma_marshal_wf(meta@);
        }
        match meta {
            UserMeta::Apk(apk) => blaze_user_meta {
                kind: blaze_user_meta_kind::BLAZE_USER_META_APK,
                variant: blaze_user_meta_variant::apk(blaze_user_meta_apk::from(apk)),
            },
            UserMeta::Elf(elf) => blaze_user_meta {
                kind: blaze_user_meta_kind::BLAZE_USER_META_ELF,
                variant: blaze_user_meta_variant::elf(blaze_user_meta_elf::from(elf)),
            },
            UserMeta::Unknown(unknown) => blaze_user_meta {
                kind: blaze_user_meta_kind::BLAZE_USER_META_UNKNOWN,
                variant: blaze_user_meta_variant::unknown(
                    blaze_user_meta_unknown::from(unknown),
                ),
            },
        }
    }

    /// Check that this record is well-formed: the discriminant names
    /// the present variant and the payload honors its invariants.
    pub fn check_wf(&self) -> (r: bool)
        ensures
            r == meta_rec_wf(self@),
    {
        match &self.variant {
            blaze_user_meta_variant::apk(a) => self.kind
                == blaze_user_meta_kind::BLAZE_USER_META_APK && is_cstr(&a.path),
            blaze_user_meta_variant::elf(e) => {
                if self.kind != blaze_user_meta_kind::BLAZE_USER_META_ELF {
                    false
                } else if !is_cstr(&e.path) {
                    false
                } else {
                    match &e.build_id {
                        Some(b) => e.build_id_len != 0 && b.len() == e.build_id_len,
                        None => e.build_id_len == 0,
                    }
                }
            },
            blaze_user_meta_variant::unknown(_) => self.kind
                == blaze_user_meta_kind::BLAZE_USER_META_UNKNOWN,
        }
    }

    /// Release a marshaled entity by reconstructing the owned entity it
    /// was produced from, so that every nested owned buffer is released
    /// through the same shape it was acquired in.
    pub fn free(self) -> (r: UserMeta)
        requires
            meta_rec_wf(self@),
        ensures
            r@ == unmarshal_entity(self@),
    {
        match self.variant {
            blaze_user_meta_variant::apk(a) => UserMeta::Apk(a.free()),
            blaze_user_meta_variant::elf(e) => UserMeta::Elf(e.free()),
            blaze_user_meta_variant::unknown(u) => UserMeta::Unknown(u.free()),
        }
    }
}

// ---------------------------------------------------------------------
// Entity-model views.
// ---------------------------------------------------------------------

impl View for Apk {
    type V = ApkModel;

    open spec fn view(&self) -> ApkModel {
        ApkModel { path: self.path@ }
    }
}

impl View for Elf {
    type V = ElfModel;

    open spec fn view(&self) -> ElfModel {
        ElfModel { path: self.path@, build_id: opt_bytes_view(self.build_id) }
    }
}

impl View for Unknown {
    type V = UnknownRec;

    open spec fn view(&self) -> UnknownRec {
        UnknownRec { reason: self.reason }
    }
}

} // verus!
