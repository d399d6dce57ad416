//! What a store holds after a sequence of writes.
//!
//! The laws here speak of whole histories: of every height that was ever
//! written, of heights that never were, and of the recorded height while
//! any number of records is written.
use vstd::prelude::*;

use crate::height::BlockHeight;
use crate::metadata::MetadataRecord;
use crate::store::{law_latest_after_write, lemma_latest_characterised, StoreModel};

verus! {

/// One write to the table: a height and the record meant for it.
pub type Write = (BlockHeight, MetadataRecord);

/// The store after the writes were attempted on `start`, first to last.
pub open spec fn replay(start: StoreModel, writes: Seq<Write>) -> StoreModel
    decreases writes.len(),
{
    if writes.len() == 0 {
        start
    } else {
        replay(start, writes.drop_last()).write(writes.last().0, writes.last().1)
    }
}

/// The write at `index` is the first at its height.
pub open spec fn is_first_at_its_height(writes: Seq<Write>, index: int) -> bool {
    &&& 0 <= index < writes.len()
    &&& forall|earlier: int| 0 <= earlier < index ==> (#[trigger] writes[earlier]).0
        != writes[index].0
}

/// No write goes to `height`.
pub open spec fn never_written(writes: Seq<Write>, height: BlockHeight) -> bool {
    forall|index: int| 0 <= index < writes.len() ==> (#[trigger] writes[index]).0 != height
}

/// Replaying writes changes the table only at heights that are written.
proof fn lemma_replay_domain(start: StoreModel, writes: Seq<Write>, height: BlockHeight)
    ensures
        replay(start, writes).table.contains_key(height) <==> start.table.contains_key(height)
            || !never_written(writes, height),
        never_written(writes, height) ==> replay(start, writes).lookup(height) == start.lookup(
            height,
        ),
    decreases writes.len(),
{
    if writes.len() > 0 {
        let before = writes.drop_last();
        lemma_replay_domain(start, before, height);
        if never_written(writes, height) {
            assert forall|index: int| 0 <= index < before.len() implies (#[trigger] before[index]).0
                != height by {
                assert(before[index] == writes[index]);
            }
            assert(writes[writes.len() - 1].0 != height);
        } else {
            let index = choose|index: int|
                0 <= index < writes.len() && (#[trigger] writes[index]).0 == height;
            if index < before.len() {
                assert(before[index] == writes[index]);
                assert(!never_written(before, height));
            }
        }
        if !never_written(before, height) {
            let index = choose|index: int|
                0 <= index < before.len() && (#[trigger] before[index]).0 == height;
            assert(before[index] == writes[index]);
        }
    }
}

/// Every height that was written holds the record of its first write: a
/// lookup finds exactly that record, whatever was written afterwards, at
/// this height or any other.
pub proof fn law_first_write_is_kept(start: StoreModel, writes: Seq<Write>, index: int)
    requires
        is_first_at_its_height(writes, index),
        !start.table.contains_key(writes[index].0),
    ensures
        replay(start, writes).lookup(writes[index].0) == Some(writes[index].1),
    decreases writes.len(),
{
    let before = writes.drop_last();
    let height = writes[index].0;
    if index == writes.len() - 1 {
        assert forall|earlier: int| 0 <= earlier < before.len() implies (
        #[trigger] before[earlier]).0 != height by {
            assert(before[earlier] == writes[earlier]);
        }
        lemma_replay_domain(start, before, height);
    } else {
        assert(before[index] == writes[index]);
        assert forall|earlier: int| 0 <= earlier < index implies (#[trigger] before[earlier]).0
            != before[index].0 by {
            assert(before[earlier] == writes[earlier]);
        }
        law_first_write_is_kept(start, before, index);
    }
}

/// A height that was never written holds what it held at the start; in a
/// store that started empty it holds nothing, however near the heights
/// that were written lie.
pub proof fn law_unwritten_heights_are_untouched(
    start: StoreModel,
    writes: Seq<Write>,
    height: BlockHeight,
)
    requires
        never_written(writes, height),
    ensures
        replay(start, writes).lookup(height) == start.lookup(height),
        replay(StoreModel::empty(), writes).lookup(height) is None,
{
    lemma_replay_domain(start, writes, height);
    lemma_replay_domain(StoreModel::empty(), writes, height);
}

/// The recorded height is as it was at the start, however many records
/// are written.
pub proof fn law_writes_keep_recorded_height(start: StoreModel, writes: Seq<Write>)
    ensures
        replay(start, writes).recorded == start.recorded,
    decreases writes.len(),
{
    if writes.len() > 0 {
        law_writes_keep_recorded_height(start, writes.drop_last());
    }
}

/// The latest height of a store that started empty is the greatest height
/// written: absent without a write, and otherwise the height of one of the
/// writes, which none of them exceeds.
pub proof fn law_latest_is_greatest_written(writes: Seq<Write>)
    ensures
        writes.len() == 0 <==> replay(StoreModel::empty(), writes).latest() is None,
        replay(StoreModel::empty(), writes).latest() matches Some(top) ==> {
            &&& exists|index: int| 0 <= index < writes.len() && (#[trigger] writes[index]).0 == top
            &&& forall|index: int| 0 <= index < writes.len() ==> (#[trigger] writes[index]).0 <= top
        },
    decreases writes.len(),
{
    let end = replay(StoreModel::empty(), writes);
    if writes.len() == 0 {
        lemma_latest_characterised(end);
    } else {
        let before = writes.drop_last();
        let middle = replay(StoreModel::empty(), before);
        let last = writes.last();
        law_latest_is_greatest_written(before);
        law_latest_after_write(middle, last.0, last.1);
        let top = end.latest()->Some_0;
        assert(writes[writes.len() - 1] == last);
        if top != last.0 {
            let index = choose|index: int|
                0 <= index < before.len() && (#[trigger] before[index]).0 == top;
            assert(writes[index] == before[index]);
        }
        assert forall|index: int| 0 <= index < writes.len() implies (#[trigger] writes[index]).0
            <= top by {
            if index < before.len() {
                assert(writes[index] == before[index]);
            }
        }
    }
}

/// After a write at a height that no earlier write exceeded, the latest
/// height is the height just written.
pub proof fn law_rising_write_becomes_latest(
    writes: Seq<Write>,
    height: BlockHeight,
    record: MetadataRecord,
)
    requires
        forall|index: int| 0 <= index < writes.len() ==> (#[trigger] writes[index]).0 <= height,
    ensures
        replay(StoreModel::empty(), writes.push((height, record))).latest() == Some(height),
{
    let extended = writes.push((height, record));
    law_latest_is_greatest_written(extended);
    let top = replay(StoreModel::empty(), extended).latest()->Some_0;
    assert(extended[writes.len() as int].0 == height);
    let index = choose|index: int|
        0 <= index < extended.len() && (#[trigger] extended[index]).0 == top;
    if index < writes.len() {
        assert(extended[index] == writes[index]);
    }
}

} // verus!
