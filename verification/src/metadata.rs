//! Versioned gas-price metadata records.
//!
//! A record is tagged by the schema version it was written under. Only the
//! V1 payload is ever inspected; a record of any other version has to be
//! turned down explicitly, never read as if it were V1.
use vstd::prelude::*;

verus! {

/// The schema version a metadata record was written under.
#[derive(Clone, Copy, Debug, PartialEq, Eq, Structural)]
pub enum SchemaVersion {
    V0,
    V1,
}

/// Payload of a record written under schema version 0.
#[derive(Clone, Copy, Debug, PartialEq, Eq, Structural)]
pub struct V0Metadata {
    /// The gas price to cover the execution of the next block.
    pub new_exec_price: u64,
    /// The lowest execution gas price the algorithm allows.
    pub _min_exec_gas_price: u64,
    /// How far, in percent, the execution gas price moves in one block.
    pub _exec_gas_price_change_percent: u64,
    /// The height of the block the price was computed for.
    pub l2_block_height: u32,
    /// The fullness, in percent of block capacity, around which the price
    /// goes up or down.
    pub _l2_block_fullness_threshold_percent: u64,
}

/// Payload of a record written under schema version 1.
#[derive(Clone, Copy, Debug, PartialEq, Eq, Structural)]
pub struct V1Metadata {
    /// The scaled gas price to cover the execution of the next block.
    pub new_scaled_exec_price: u64,
    /// The height of the next block.
    pub l2_block_height: u32,
    /// The scaled gas price to cover the data-availability commitment of
    /// the next block.
    pub new_scaled_da_gas_price: u64,
    /// The factor both prices are scaled by.
    pub gas_price_factor: u64,
    /// The reward collected so far from the data-availability part of the
    /// price.
    pub total_da_rewards: u128,
    /// The cost of recording blocks as of the last recorded block.
    pub latest_known_total_da_cost: u128,
    /// The last profit.
    pub last_profit: i128,
    /// The profit before the last.
    pub second_to_last_profit: i128,
    /// The latest known cost per byte of recording blocks.
    pub latest_da_cost_per_byte: u128,
    /// The bytes of all blocks not yet recorded.
    pub unrecorded_block_bytes: u128,
}

/// A metadata record as the store keeps it: a payload tagged with its
/// schema version.
#[derive(Clone, Copy, Debug, PartialEq, Eq, Structural)]
pub enum MetadataRecord {
    V0(V0Metadata),
    V1(V1Metadata),
}

/// Why a record could not be narrowed to a payload.
#[derive(Clone, Copy, Debug, PartialEq, Eq, Structural)]
pub enum ConversionError {
    /// The record was written under `found`, not under the version asked
    /// for.
    SchemaMismatch { found: SchemaVersion },
}

impl MetadataRecord {
    /// The schema version of a record.
    pub open spec fn spec_version(self) -> SchemaVersion {
        match self {
            MetadataRecord::V0(_) => SchemaVersion::V0,
            MetadataRecord::V1(_) => SchemaVersion::V1,
        }
    }

    /// The V1 payload of a record, or the mismatch that forbids reading
    /// one.
    pub open spec fn narrowed(self) -> Result<V1Metadata, ConversionError> {
        match self {
            MetadataRecord::V1(payload) => Ok(payload),
            _ => Err(ConversionError::SchemaMismatch { found: self.spec_version() }),
        }
    }

    /// Returns the schema version the record was written under.
    pub fn version(&self) -> (version: SchemaVersion)
        ensures
            version == self.spec_version(),
            (version == SchemaVersion::V0) <==> (*self is V0),
            (version == SchemaVersion::V1) <==> (*self is V1),
    {
        match self {
            MetadataRecord::V0(_) => SchemaVersion::V0,
            MetadataRecord::V1(_) => SchemaVersion::V1,
        }
    }

    /// Narrows the record to its V1 payload.
    ///
    /// A V1 record always yields its payload, field for field as it was
    /// stored. A record of any other version always fails with
    /// [`ConversionError::SchemaMismatch`], naming the version found.
    pub fn as_v1(&self) -> (result: Result<V1Metadata, ConversionError>)
        ensures
            result == self.narrowed(),
            result is Ok <==> *self is V1,
            result matches Ok(payload) ==> *self == MetadataRecord::V1(payload),
            result matches Err(error) ==> error == (ConversionError::SchemaMismatch {
                found: self.spec_version(),
            }),
    {
        match self {
            MetadataRecord::V1(payload) => Ok(*payload),
            MetadataRecord::V0(_) => Err(
                ConversionError::SchemaMismatch { found: SchemaVersion::V0 },
            ),
        }
    }
}

/// Narrowing undoes tagging: a payload wrapped as a V1 record narrows back
/// to the same payload, and a V0 record never narrows.
pub proof fn law_narrowing_inverts_tagging(v1: V1Metadata, v0: V0Metadata)
    ensures
        MetadataRecord::V1(v1).narrowed() == Ok::<V1Metadata, ConversionError>(v1),
        MetadataRecord::V0(v0).narrowed() == Err::<V1Metadata, ConversionError>(
            ConversionError::SchemaMismatch { found: SchemaVersion::V0 },
        ),
{
}

} // verus!
