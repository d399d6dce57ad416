//! A height-indexed store of versioned metadata records.
//!
//! The store has three pieces: a table from block height to metadata
//! record, a pointer to the highest height the table holds, and a cell for
//! the height last recorded on the data-availability layer. The table is
//! append-only: a record, once written for a height, is never replaced. The
//! recorded-height cell lives apart from the table; neither is changed by
//! an operation on the other.
use std::collections::HashMap;
use vstd::prelude::*;

use crate::height::BlockHeight;
use crate::metadata::{ConversionError, MetadataRecord, V1Metadata};

verus! {

broadcast use vstd::std_specs::hash::group_hash_axioms;

/// What a store holds, as mathematics: the table and the recorded height.
#[verifier::ext_equal]
pub struct StoreModel {
    /// The record written for each height that has one.
    pub table: Map<BlockHeight, MetadataRecord>,
    /// The height last recorded on the data-availability layer, if any.
    pub recorded: Option<BlockHeight>,
}

impl StoreModel {
    /// The store nothing was ever written to.
    pub open spec fn empty() -> StoreModel {
        StoreModel { table: Map::empty(), recorded: None }
    }

    /// The record written for exactly `height`, if there is one.
    pub open spec fn lookup(self, height: BlockHeight) -> Option<MetadataRecord> {
        if self.table.contains_key(height) {
            Some(self.table[height])
        } else {
            None
        }
    }

    /// `height` has a record and no greater height has one.
    pub open spec fn is_latest(self, height: BlockHeight) -> bool {
        &&& self.table.contains_key(height)
        &&& forall|other: BlockHeight| #[trigger]
            self.table.contains_key(other) ==> other <= height
    }

    /// The greatest height that has a record, if any height has one.
    pub open spec fn latest(self) -> Option<BlockHeight> {
        if exists|height: BlockHeight| self.is_latest(height) {
            Some(choose|height: BlockHeight| self.is_latest(height))
        } else {
            None
        }
    }

    /// The store after an attempt to write `record` at `height`: the
    /// record is added where the height had none, and nothing changes
    /// where it had one.
    pub open spec fn write(self, height: BlockHeight, record: MetadataRecord) -> StoreModel {
        if self.table.contains_key(height) {
            self
        } else {
            StoreModel { table: self.table.insert(height, record), recorded: self.recorded }
        }
    }

    /// The store after `height` was recorded on the data-availability
    /// layer.
    pub open spec fn record(self, height: BlockHeight) -> StoreModel {
        StoreModel { table: self.table, recorded: Some(height) }
    }
}

/// At most one height is the latest, and `latest` names it.
pub proof fn lemma_latest_is_unique(model: StoreModel, height: BlockHeight)
    requires
        model.is_latest(height),
    ensures
        model.latest() == Some(height),
{
    let chosen = choose|h: BlockHeight| model.is_latest(h);
    assert(model.table.contains_key(chosen) && model.table.contains_key(height));
}

/// `latest` is absent exactly when the table is empty, and otherwise names
/// a height that has a record and bounds every height that has one.
pub proof fn lemma_latest_characterised(model: StoreModel)
    ensures
        model.latest() matches Some(height) ==> model.is_latest(height),
        model.latest() is None <==> model.table.dom() =~= Set::<BlockHeight>::empty(),
{
    if model.latest() is None {
        if exists|h: BlockHeight| model.table.contains_key(h) {
            let witness = choose|h: BlockHeight| model.table.contains_key(h);
            let top = lemma_greatest_below(model, witness, u32::MAX);
            assert(model.is_latest(top));
        }
    } else {
        let chosen = choose|h: BlockHeight| model.is_latest(h);
        assert(model.table.contains_key(chosen));
    }
}

/// Among the heights up to `bound`, if one has a record, one of them is
/// the greatest with a record.
proof fn lemma_greatest_below(model: StoreModel, witness: BlockHeight, bound: BlockHeight) -> (top:
    BlockHeight)
    requires
        model.table.contains_key(witness),
        witness <= bound,
    ensures
        model.table.contains_key(top),
        top <= bound,
        forall|other: BlockHeight| #[trigger]
            model.table.contains_key(other) && other <= bound ==> other <= top,
    decreases bound - witness,
{
    if model.table.contains_key(bound) {
        bound
    } else {
        lemma_greatest_below(model, witness, (bound - 1) as BlockHeight)
    }
}

/// The height `latest` names after a write at `height`: the greater of the
/// height written and the latest height before.
pub open spec fn raised_to(before: Option<BlockHeight>, height: BlockHeight) -> Option<
    BlockHeight,
> {
    match before {
        Some(top) => if top < height {
            Some(height)
        } else {
            Some(top)
        },
        None => Some(height),
    }
}

/// A write moves the latest height up to the height written, or leaves it
/// where it was if it already lay at or above that height. In particular,
/// after a write at a height that no earlier write exceeded, the latest
/// height is the height written.
pub proof fn law_latest_after_write(model: StoreModel, height: BlockHeight, record: MetadataRecord)
    ensures
        model.write(height, record).latest() == raised_to(model.latest(), height),
        (forall|other: BlockHeight| #[trigger]
            model.table.contains_key(other) ==> other <= height) ==> model.write(
            height,
            record,
        ).latest() == Some(height),
{
    let after = model.write(height, record);
    let top = raised_to(model.latest(), height)->Some_0;
    lemma_latest_characterised(model);
    assert(after.table.contains_key(top));
    assert forall|other: BlockHeight| #[trigger]
        after.table.contains_key(other) implies other <= top by {
        if other != height {
            assert(model.table.dom().contains(other));
        }
    }
    lemma_latest_is_unique(after, top);
}

/// A lookup after a write finds the record just written at its own height,
/// unless that height already had one, and finds at every other height
/// what was there before.
pub proof fn law_lookup_after_write(
    model: StoreModel,
    height: BlockHeight,
    record: MetadataRecord,
    asked: BlockHeight,
)
    ensures
        asked != height ==> model.write(height, record).lookup(asked) == model.lookup(asked),
        !model.table.contains_key(height) ==> model.write(height, record).lookup(height) == Some(
            record,
        ),
        model.table.contains_key(height) ==> model.write(height, record).lookup(height)
            == model.lookup(height),
{
}

/// A V1 record reads back as it was written: a lookup at its height finds
/// it, and narrowing what was found gives the payload written, field for
/// field. A record of another version reads back as one that does not
/// narrow.
pub proof fn law_written_record_reads_back(
    model: StoreModel,
    height: BlockHeight,
    record: MetadataRecord,
    payload: V1Metadata,
)
    requires
        !model.table.contains_key(height),
    ensures
        model.write(height, record).lookup(height) == Some(record),
        record == MetadataRecord::V1(payload) ==> model.write(height, record).lookup(
            height,
        )->Some_0.narrowed() == Ok::<V1Metadata, ConversionError>(payload),
        record !is V1 ==> model.write(height, record).lookup(height)->Some_0.narrowed() is Err,
{
}

/// The table and the recorded-height cell are independent: a write leaves
/// the recorded height as it was, and recording a height leaves every
/// lookup and the latest height as they were.
pub proof fn law_table_and_cell_are_independent(
    model: StoreModel,
    height: BlockHeight,
    record: MetadataRecord,
    recorded: BlockHeight,
    asked: BlockHeight,
)
    ensures
        model.write(height, record).recorded == model.recorded,
        model.record(recorded).table == model.table,
        model.record(recorded).lookup(asked) == model.lookup(asked),
        model.record(recorded).latest() == model.latest(),
        model.record(recorded).recorded == Some(recorded),
        model.write(height, record).record(recorded) == model.record(recorded).write(
            height,
            record,
        ),
{
    let renamed = model.record(recorded);
    assert forall|h: BlockHeight| renamed.is_latest(h) == model.is_latest(h) by {}
}

/// Why a write was turned down.
#[derive(Clone, Copy, Debug, PartialEq, Eq, Structural)]
pub enum WriteError {
    /// The height already has a record, and records are never replaced.
    AlreadyWritten { height: BlockHeight },
}

/// A height-indexed store of metadata records, kept in memory.
#[derive(Clone, Debug)]
pub struct MetadataStore {
    records: HashMap<BlockHeight, MetadataRecord>,
    latest: Option<BlockHeight>,
    recorded: Option<BlockHeight>,
}

impl View for MetadataStore {
    type V = StoreModel;

    closed spec fn view(&self) -> StoreModel {
        StoreModel { table: self.records@, recorded: self.recorded }
    }
}

impl MetadataStore {
    /// The latest-height pointer agrees with the table: it is absent for
    /// the empty table and otherwise names the greatest height that has a
    /// record.
    pub closed spec fn wf(&self) -> bool {
        match self.latest {
            Some(height) => self@.is_latest(height),
            None => self@.table.dom() =~= Set::<BlockHeight>::empty(),
        }
    }

    /// Creates a store with no record and no recorded height.
    pub fn new() -> (store: MetadataStore)
        ensures
            store.wf(),
            store@ == StoreModel::empty(),
    {
        MetadataStore { records: HashMap::new(), latest: None, recorded: None }
    }

    /// Returns the record written for exactly `height`, or nothing where
    /// that height was never written. A neighbouring height never stands
    /// in.
    pub fn get_metadata(&self, height: BlockHeight) -> (found: Option<MetadataRecord>)
        ensures
            found == self@.lookup(height),
            found matches Some(record) ==> self@.table.contains_key(height) && self@.table[height]
                == record,
            found is None <==> !self@.table.contains_key(height),
    {
        match self.records.get(&height) {
            Some(record) => Some(*record),
            None => None,
        }
    }

    /// Returns the greatest height that has a record, or nothing for the
    /// empty table.
    pub fn latest_height(&self) -> (latest: Option<BlockHeight>)
        requires
            self.wf(),
        ensures
            latest == self@.latest(),
            latest matches Some(height) ==> self@.is_latest(height),
            latest is None <==> self@.table.dom() =~= Set::<BlockHeight>::empty(),
    {
        proof {
            lemma_latest_characterised(self@);
            if let Some(height) = self.latest {
                lemma_latest_is_unique(self@, height);
            }
        }
        self.latest
    }

    /// Returns the height last recorded on the data-availability layer, or
    /// nothing where none was ever recorded. The table has no say in it.
    pub fn get_recorded_height(&self) -> (recorded: Option<BlockHeight>)
        ensures
            recorded == self@.recorded,
    {
        self.recorded
    }

    /// Writes `record` at `height`.
    ///
    /// Succeeds exactly when the height has no record yet; the table then
    /// gains this one entry and the latest-height pointer moves up to
    /// `height` if it lay below. A height that already has a record keeps
    /// it: the write fails with [`WriteError::AlreadyWritten`] and the
    /// store is as before. The recorded height is untouched either way.
    pub fn set_metadata(&mut self, height: BlockHeight, record: MetadataRecord) -> (result: Result<
        (),
        WriteError,
    >)
        requires
            old(self).wf(),
        ensures
            final(self).wf(),
            final(self)@ == old(self)@.write(height, record),
            final(self)@.recorded == old(self)@.recorded,
            final(self)@.latest() == raised_to(old(self)@.latest(), height),
            !old(self)@.table.contains_key(height) ==> result == Ok::<(), WriteError>(())
                && final(self)@.table == old(self)@.table.insert(height, record),
            old(self)@.table.contains_key(height) ==> result == Err::<(), WriteError>(
                WriteError::AlreadyWritten { height },
            ) && final(self)@ == old(self)@,
    {
        proof {
            law_latest_after_write(self@, height, record);
        }
        if self.records.contains_key(&height) {
            return Err(WriteError::AlreadyWritten { height });
        }
        let raised: bool = match self.latest {
            Some(top) => top < height,
            None => true,
        };
        self.records.insert(height, record);
        if raised {
            self.latest = Some(height);
        }
        Ok(())
    }

    /// Sets the height last recorded on the data-availability layer. The
    /// table and its latest-height pointer are untouched.
    pub fn set_recorded_height(&mut self, height: BlockHeight)
        requires
            old(self).wf(),
        ensures
            final(self).wf(),
            final(self)@ == old(self)@.record(height),
            final(self)@.table == old(self)@.table,
            final(self)@.recorded == Some(height),
    {
        self.recorded = Some(height);
    }
}

} // verus!
