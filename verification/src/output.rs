//! The result aggregator and the teardown protocol.
//!
//! The aggregator is a pure structural transform: given the engine's
//! ordered batch — a deduplicated metadata list and one `(value,
//! table-index)` pair per input address — it marshals each metadata
//! entity once, in the order the engine emitted them, and each output
//! pair in input order. It performs no interval matching and no
//! deduplication of its own.
//!
//! The teardown protocol releases a produced result through exactly one
//! symmetric path: every table entry's owned payloads first, then the
//! table and the output array themselves.

use vstd::prelude::*;

use crate::err::CallStatus;
use crate::err::blaze_err;
use crate::meta::UserMeta;
use crate::meta::blaze_user_meta;
use crate::meta::marshal_entity;
use crate::meta::meta_rec_wf;

verus! {

/// A file offset or non-normalized address along with an index into
/// the associated metadata table.
#[derive(Clone, Copy, Debug, PartialEq, Eq, Structural)]
pub struct blaze_normalized_output {
    /// The file offset or non-normalized address.
    pub output: u64,
    /// The index into the associated metadata table.
    pub meta_idx: usize,
}

impl vstd::std_specs::convert::FromSpecImpl<(u64, usize)> for blaze_normalized_output {
    open spec fn obeys_from_spec() -> bool {
        true
    }

    open spec fn from_spec(v: (u64, usize)) -> Self {
        blaze_normalized_output { output: v.0, meta_idx: v.1 }
    }
}

impl From<(u64, usize)> for blaze_normalized_output {
    fn from(v: (u64, usize)) -> (r: Self) {
        blaze_normalized_output { output: v.0, meta_idx: v.1 }
    }
}

/// The engine's ordered normalization batch, as plain owned values:
/// the deduplicated metadata list and one `(value, table-index)` pair
/// per input address, in input order.
#[derive(Debug)]
pub struct NormalizedBatch {
    /// The resolved entities, deduplicated by the engine.
    pub meta: Vec<UserMeta>,
    /// One `(file offset or address, metadata index)` pair per input
    /// address, in input order.
    pub outputs: Vec<(u64, usize)>,
}

impl NormalizedBatch {
    /// Whether the batch honors the engine contract this boundary
    /// depends on: every output record points into the metadata list,
    /// and every entity can be marshaled.
    pub open spec fn wf(&self) -> bool {
        &&& forall|i: int|
            0 <= i < self.outputs@.len() ==> (#[trigger] self.outputs@[i]).1 < self.meta@.len()
        &&& forall|i: int| 0 <= i < self.meta@.len() ==> (#[trigger] self.meta@[i])@.valid()
    }
}

/// An object representing normalized addresses: the metadata table and
/// the output array, each a single owned allocation, plus their
/// lengths.
#[derive(Debug)]
pub struct blaze_normalized_user_output {
    /// The number of records present in `metas`.
    pub meta_cnt: usize,
    /// The metadata table: `meta_cnt` marshaled entities.
    pub metas: Vec<blaze_user_meta>,
    /// The number of records present in `outputs`.
    pub output_cnt: usize,
    /// The output array: `output_cnt` records, in input order.
    pub outputs: Vec<blaze_normalized_output>,
    /// Unused member available for future expansion.
    pub reserved: [u8; 8],
}

impl blaze_normalized_user_output {
    /// Well-formedness of a produced result: the recorded counts match
    /// the collections, every output record's index points into the
    /// metadata table, and every table entry is a well-formed marshaled
    /// record.
    pub open spec fn wf(&self) -> bool {
        &&& self.meta_cnt == self.metas@.len()
        &&& self.output_cnt == self.outputs@.len()
        &&& forall|i: int|
            0 <= i < self.outputs@.len() ==> (#[trigger] self.outputs@[i]).meta_idx
                < self.metas@.len()
        &&& forall|i: int| 0 <= i < self.metas@.len() ==> meta_rec_wf((#[trigger] self.metas@[i])@)
    }

    /// Check that this result is well-formed, so that it can be handed
    /// to the teardown protocol.
    pub fn check_wf(&self) -> (r: bool)
        ensures
            r == self.wf(),
    {
        if self.meta_cnt != self.metas.len() || self.output_cnt != self.outputs.len() {
            return false;
        }
        let mut i: usize = 0;
        while i < self.outputs.len()
            invariant
                i <= self.outputs@.len(),
                forall|j: int|
                    0 <= j < i ==> (#[trigger] self.outputs@[j]).meta_idx < self.metas@.len(),
            decreases self.outputs@.len() - i,
        {
            if self.outputs[i].meta_idx >= self.metas.len() {
                return false;
            }
            i = i + 1;
        }
        let mut k: usize = 0;
        while k < self.metas.len()
            invariant
                k <= self.metas@.len(),
                forall|j: int| 0 <= j < k ==> meta_rec_wf((#[trigger] self.metas@[j])@),
            decreases self.metas@.len() - k,
        {
            if !self.metas[k].check_wf() {
                return false;
            }
            k = k + 1;
        }
        true
    }

    /// Aggregate an engine batch into a caller-consumable result.
    ///
    /// Each metadata entity is marshaled once, in the order the engine
    /// emitted them; each output pair is converted in input order; no
    /// entry is reordered, dropped or added.
    pub fn from(batch: NormalizedBatch) -> (r: Self)
        requires
            batch.wf(),
        ensures
            r.wf(),
            r.meta_cnt == batch.meta@.len(),
            r.output_cnt == batch.outputs@.len(),
            forall|i: int|
                0 <= i < batch.meta@.len() ==> (#[trigger] r.metas@[i])@ == marshal_entity(
                    batch.meta@[i]@,
                ),
            forall|i: int|
                0 <= i < batch.outputs@.len() ==> (#[trigger] r.outputs@[i]).output
                    == batch.outputs@[i].0 && r.outputs@[i].meta_idx == batch.outputs@[i].1,
            forall|j: int| 0 <= j < 8 ==> r.reserved[j] == 0,
    {
        let ghost metas0: Seq<UserMeta> = batch.meta@;
        let meta_cnt = batch.meta.len();
        let mut pending = batch.meta;
        let mut metas: Vec<blaze_user_meta> = Vec::new();
        let mut i: usize = 0;
        while i < meta_cnt
            invariant
                i <= meta_cnt,
                meta_cnt == metas0.len(),
                pending@ =~= metas0.skip(i as int),
                metas@.len() == i,
                forall|j: int| 0 <= j < metas0.len() ==> (#[trigger] metas0[j])@.valid(),
                forall|j: int|
                    0 <= j < i ==> (#[trigger] metas@[j])@ == marshal_entity(metas0[j]@),
                forall|j: int| 0 <= j < i ==> meta_rec_wf((#[trigger] metas@[j])@),
            decreases meta_cnt - i,
        {
            let m = pending.remove(0);
            assert(m == metas0[i as int]);
            metas.push(blaze_user_meta::from(m));
            i = i + 1;
            proof {
                assert(pending@ =~= metas0.skip(i as int));
            }
        }
        let output_cnt = batch.outputs.len();
        let mut outputs: Vec<blaze_normalized_output> = Vec::new();
        let mut k: usize = 0;
        while k < output_cnt
            invariant
                k <= output_cnt,
                output_cnt == batch.outputs@.len(),
                outputs@.len() == k,
                forall|j: int|
                    0 <= j < k ==> (#[trigger] outputs@[j]).output == batch.outputs@[j].0
                        && outputs@[j].meta_idx == batch.outputs@[j].1,
            decreases output_cnt - k,
        {
            let pair = batch.outputs[k];
            outputs.push(blaze_normalized_output::from(pair));
            k = k + 1;
        }
        blaze_normalized_user_output { meta_cnt, metas, output_cnt, outputs, reserved: [0u8; 8] }
    }
}

/// Free a result object.
///
/// The teardown runs the companion release operation over every
/// metadata table entry — reconstructing and dropping the owned entity,
/// so nested owned buffers are released through the same shape they
/// were acquired in — before the table's own backing allocation and
/// the output array are released. Both steps always happen together:
/// a partial teardown cannot be expressed. Like every entry point, the
/// call records its outcome — here always success — in the status
/// cell.
pub fn blaze_user_output_free(output: blaze_normalized_user_output, status: &mut CallStatus)
    requires
        output.wf(),
    ensures
        final(status).code == blaze_err::BLAZE_ERR_OK,
{
    let mut metas = output.metas;
    while metas.len() > 0
        invariant
            forall|j: int| 0 <= j < metas@.len() ==> meta_rec_wf((#[trigger] metas@[j])@),
        decreases metas@.len(),
    {
        if let Some(m) = metas.pop() {
            let _ = m.free();
        }
    }
    status.set(blaze_err::BLAZE_ERR_OK);
}

} // verus!
