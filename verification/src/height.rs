//! Block heights and the arithmetic of going back a number of blocks.
use vstd::prelude::*;

verus! {

/// The position of a block in the chain.
pub type BlockHeight = u32;

/// A request to go further back than the chain is long.
#[derive(Clone, Copy, Debug, PartialEq, Eq, Structural)]
pub struct OffsetOutOfRange {
    /// The height the offset was counted from.
    pub anchor: BlockHeight,
    /// The number of blocks to go back.
    pub number_of_blocks: u32,
}

/// The height `number_of_blocks` below `anchor`, where there is one.
pub open spec fn height_before(anchor: BlockHeight, number_of_blocks: u32) -> Result<
    BlockHeight,
    OffsetOutOfRange,
> {
    if number_of_blocks <= anchor {
        Ok((anchor - number_of_blocks) as BlockHeight)
    } else {
        Err(OffsetOutOfRange { anchor, number_of_blocks })
    }
}

/// Computes the height that lies `number_of_blocks` below `anchor`.
///
/// The result is `anchor - number_of_blocks` exactly whenever that is a
/// height, that is whenever `number_of_blocks <= anchor`. A larger offset
/// is turned down with [`OffsetOutOfRange`]; the subtraction never wraps.
pub fn previous_height(anchor: BlockHeight, number_of_blocks: u32) -> (result: Result<
    BlockHeight,
    OffsetOutOfRange,
>)
    ensures
        result == height_before(anchor, number_of_blocks),
        number_of_blocks <= anchor ==> result == Ok::<BlockHeight, OffsetOutOfRange>(
            (anchor - number_of_blocks) as BlockHeight,
        ),
        number_of_blocks > anchor ==> result == Err::<BlockHeight, OffsetOutOfRange>(
            OffsetOutOfRange { anchor, number_of_blocks },
        ),
{
    match anchor.checked_sub(number_of_blocks) {
        Some(height) => Ok(height),
        None => Err(OffsetOutOfRange { anchor, number_of_blocks }),
    }
}

/// Going back is exact and stays within the chain: the height found lies
/// at or below the anchor, and adding the offset again gives the anchor.
pub proof fn law_previous_height_is_exact(anchor: BlockHeight, number_of_blocks: u32)
    ensures
        height_before(anchor, number_of_blocks) matches Ok(height) ==> height <= anchor && height
            + number_of_blocks == anchor,
        height_before(anchor, number_of_blocks) is Err <==> number_of_blocks > anchor,
        height_before(anchor, 0) == Ok::<BlockHeight, OffsetOutOfRange>(anchor),
{
}

} // verus!
