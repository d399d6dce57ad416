//! The commands of the inspector, what they report and how they fail.
use vstd::prelude::*;

use crate::height::{BlockHeight, OffsetOutOfRange};
use crate::metadata::{ConversionError, MetadataRecord, V1Metadata};

verus! {

/// A command as given on the command line: what to inspect, and the
/// database to inspect it in.
#[derive(Clone, Debug, PartialEq, Eq)]
pub enum Command {
    /// Gets the latest stored metadata in the gas price database.
    GetGasPriceMetadata {
        /// Path to the database.
        db_path: String,
    },
    /// Gets the latest recorded height in the gas price database.
    GetDaRecordedHeight {
        /// Path to the database.
        db_path: String,
    },
    /// Shows the metadata at the latest height and a number of blocks
    /// before it.
    MetadataDiff {
        /// Path to the database.
        db_path: String,
        /// Number of blocks to go back.
        number_of_blocks: u32,
    },
}

/// What a command asks of a store, once the store is open.
#[derive(Clone, Copy, Debug, PartialEq, Eq, Structural)]
pub enum Request {
    /// The record at the latest height.
    GasPriceMetadata,
    /// The height last recorded on the data-availability layer.
    DaRecordedHeight,
    /// The V1 payloads at the latest height and `number_of_blocks` below
    /// it.
    MetadataDiff { number_of_blocks: u32 },
}

/// What a command that succeeded has to show.
#[derive(Clone, Copy, Debug, PartialEq, Eq, Structural)]
pub enum Report {
    /// The record at the latest height.
    Metadata(MetadataRecord),
    /// The height last recorded on the data-availability layer.
    RecordedHeight(BlockHeight),
    /// The V1 payloads at the latest height and at the height the offset
    /// led to.
    Diff { current: V1Metadata, previous: V1Metadata },
}

/// Why a command failed. Every failure ends the command; none is retried
/// and none is papered over with a default.
#[derive(Clone, Copy, Debug, PartialEq, Eq, Structural)]
pub enum CommandError {
    /// The storage engine could not carry out a read.
    StorageRead,
    /// The storage engine answered another question than the one asked.
    UnexpectedReply,
    /// The store has no latest height: no record was ever written.
    NoLatestHeight,
    /// The store has no record at its latest height.
    NoMetadata { height: BlockHeight },
    /// No height was ever recorded on the data-availability layer.
    NoRecordedHeight,
    /// The offset reaches below the first block.
    OffsetOutOfRange(OffsetOutOfRange),
    /// The store has no record at the latest height, where the diff starts.
    NoCurrentMetadata { height: BlockHeight },
    /// The record at the latest height is not a V1 record.
    CurrentNotV1(ConversionError),
    /// The store has no record at the height the offset led to.
    NoPreviousMetadata { height: BlockHeight },
    /// The record at the height the offset led to is not a V1 record.
    PreviousNotV1(ConversionError),
}

impl Command {
    /// The database path of a command.
    pub open spec fn path(self) -> String {
        match self {
            Command::GetGasPriceMetadata { db_path } => db_path,
            Command::GetDaRecordedHeight { db_path } => db_path,
            Command::MetadataDiff { db_path, .. } => db_path,
        }
    }

    /// What a command asks of the store at its path.
    pub open spec fn asks(self) -> Request {
        match self {
            Command::GetGasPriceMetadata { .. } => Request::GasPriceMetadata,
            Command::GetDaRecordedHeight { .. } => Request::DaRecordedHeight,
            Command::MetadataDiff { number_of_blocks, .. } => Request::MetadataDiff {
                number_of_blocks,
            },
        }
    }

    /// Returns the path of the database the command is to inspect.
    pub fn db_path(&self) -> (path: &String)
        ensures
            *path == self.path(),
    {
        match self {
            Command::GetGasPriceMetadata { db_path } => db_path,
            Command::GetDaRecordedHeight { db_path } => db_path,
            Command::MetadataDiff { db_path, .. } => db_path,
        }
    }

    /// Returns what the command asks of the store, the path left aside.
    pub fn request(&self) -> (request: Request)
        ensures
            request == self.asks(),
    {
        match self {
            Command::GetGasPriceMetadata { .. } => Request::GasPriceMetadata,
            Command::GetDaRecordedHeight { .. } => Request::DaRecordedHeight,
            Command::MetadataDiff { number_of_blocks, .. } => Request::MetadataDiff {
                number_of_blocks: *number_of_blocks,
            },
        }
    }
}

impl CommandError {
    /// The message of each failure.
    pub open spec fn text(self) -> Seq<char> {
        match self {
            CommandError::StorageRead => "Failed to read from the database"@,
            CommandError::UnexpectedReply => "Unexpected reply from the database"@,
            CommandError::NoLatestHeight => "Failed to get latest height"@,
            CommandError::NoMetadata { .. } => "Failed to get metadata"@,
            CommandError::NoRecordedHeight => "No recorded height"@,
            CommandError::OffsetOutOfRange(_) => "Number of blocks exceeds latest height"@,
            CommandError::NoCurrentMetadata { .. } => "Failed to get current metadata"@,
            CommandError::CurrentNotV1(_) => "Couldn't convert current metadata to v1"@,
            CommandError::NoPreviousMetadata { .. } => "Failed to get old metadata"@,
            CommandError::PreviousNotV1(_) => "Couldn't convert old metadata to v1"@,
        }
    }

    /// Returns the message to show for the failure.
    pub fn message(&self) -> (message: &'static str)
        ensures
            message@ == self.text(),
    {
        match self {
            CommandError::StorageRead => "Failed to read from the database",
            CommandError::UnexpectedReply => "Unexpected reply from the database",
            CommandError::NoLatestHeight => "Failed to get latest height",
            CommandError::NoMetadata { .. } => "Failed to get metadata",
            CommandError::NoRecordedHeight => "No recorded height",
            CommandError::OffsetOutOfRange(_) => "Number of blocks exceeds latest height",
            CommandError::NoCurrentMetadata { .. } => "Failed to get current metadata",
            CommandError::CurrentNotV1(_) => "Couldn't convert current metadata to v1",
            CommandError::NoPreviousMetadata { .. } => "Failed to get old metadata",
            CommandError::PreviousNotV1(_) => "Couldn't convert old metadata to v1",
        }
    }
}

} // verus!
