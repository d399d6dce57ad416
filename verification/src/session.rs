//! The conversation between one command and a storage engine.
//!
//! A command never touches storage itself. It is carried out as a session:
//! the session names the one query it waits on, the caller puts that query
//! to the storage engine and hands the reply back, and the session either
//! moves to its next stage or ends with the command's result. Every
//! decision of a command is taken here; the caller only reads.
//!
//! [`run`] holds a session against a [`MetadataStore`], and its result is
//! stated outright by [`outcome`], with no word of stages or replies.
use vstd::prelude::*;

use crate::command::{CommandError, Report, Request};
use crate::height::{height_before, previous_height, BlockHeight};
use crate::metadata::{MetadataRecord, V1Metadata};
use crate::store::{lemma_latest_characterised, MetadataStore, StoreModel};

verus! {

/// A question put to the storage engine.
#[derive(Clone, Copy, Debug, PartialEq, Eq, Structural)]
pub enum Query {
    /// Which is the greatest height that has a record?
    LatestHeight,
    /// Which record was written for exactly this height?
    Metadata { height: BlockHeight },
    /// Which height was last recorded on the data-availability layer?
    RecordedHeight,
}

/// The storage engine's answer to a query.
#[derive(Clone, Copy, Debug, PartialEq, Eq, Structural)]
pub enum Reply {
    /// The latest height, or none for an empty table.
    LatestHeight(Option<BlockHeight>),
    /// The record at the height asked for, or none where none was written.
    Metadata(Option<MetadataRecord>),
    /// The recorded height, or none where none was ever recorded.
    RecordedHeight(Option<BlockHeight>),
    /// The read could not be carried out.
    Failed,
}

/// Where a session stands: what it has learnt and what it waits on.
#[derive(Clone, Copy, Debug, PartialEq, Eq, Structural)]
pub enum Stage {
    /// The latest metadata is wanted; the latest height is awaited.
    LatestForMetadata,
    /// The latest metadata is wanted; the record at `height` is awaited.
    MetadataAt { height: BlockHeight },
    /// The recorded height is wanted and awaited.
    Recorded,
    /// A diff is wanted; the latest height is awaited.
    LatestForDiff { number_of_blocks: u32 },
    /// A diff between `latest` and `previous` is wanted; the record at
    /// `latest` is awaited.
    CurrentForDiff { latest: BlockHeight, previous: BlockHeight },
    /// A diff is wanted and its first half is `current`; the record at
    /// `previous` is awaited.
    PreviousForDiff { current: V1Metadata, previous: BlockHeight },
}

/// What a session does after a reply.
#[derive(Clone, Copy, Debug, PartialEq, Eq)]
pub enum Step {
    /// It goes on: the query of this stage is to be answered next.
    Ask(Stage),
    /// It is over, with this result.
    Done(Result<Report, CommandError>),
}

impl Stage {
    /// The query a stage waits on.
    pub open spec fn awaited(self) -> Query {
        match self {
            Stage::LatestForMetadata => Query::LatestHeight,
            Stage::MetadataAt { height } => Query::Metadata { height },
            Stage::Recorded => Query::RecordedHeight,
            Stage::LatestForDiff { .. } => Query::LatestHeight,
            Stage::CurrentForDiff { latest, .. } => Query::Metadata { height: latest },
            Stage::PreviousForDiff { previous, .. } => Query::Metadata { height: previous },
        }
    }

    /// The greatest number of queries a session at this stage still puts,
    /// the awaited one included.
    pub open spec fn queries_left(self) -> nat {
        match self {
            Stage::LatestForMetadata => 2,
            Stage::MetadataAt { .. } => 1,
            Stage::Recorded => 1,
            Stage::LatestForDiff { .. } => 3,
            Stage::CurrentForDiff { .. } => 2,
            Stage::PreviousForDiff { .. } => 1,
        }
    }

    /// Returns the query the caller has to put to the storage engine.
    pub fn query(&self) -> (query: Query)
        ensures
            query == self.awaited(),
    {
        match self {
            Stage::LatestForMetadata => Query::LatestHeight,
            Stage::MetadataAt { height } => Query::Metadata { height: *height },
            Stage::Recorded => Query::RecordedHeight,
            Stage::LatestForDiff { .. } => Query::LatestHeight,
            Stage::CurrentForDiff { latest, .. } => Query::Metadata { height: *latest },
            Stage::PreviousForDiff { previous, .. } => Query::Metadata { height: *previous },
        }
    }
}

/// The stage a request starts in.
pub open spec fn first_stage(request: Request) -> Stage {
    match request {
        Request::GasPriceMetadata => Stage::LatestForMetadata,
        Request::DaRecordedHeight => Stage::Recorded,
        Request::MetadataDiff { number_of_blocks } => Stage::LatestForDiff { number_of_blocks },
    }
}

/// What a session at `stage` does when its query is answered by `reply`.
///
/// A failed read ends every session with [`CommandError::StorageRead`]: it
/// is never taken for an absent value. An absent value ends the session
/// with the failure that names what was absent. A reply to another query
/// than the awaited one ends it with [`CommandError::UnexpectedReply`].
pub open spec fn next_step(stage: Stage, reply: Reply) -> Step {
    match (stage, reply) {
        (_, Reply::Failed) => Step::Done(Err(CommandError::StorageRead)),
        (Stage::LatestForMetadata, Reply::LatestHeight(None)) => Step::Done(
            Err(CommandError::NoLatestHeight),
        ),
        (Stage::LatestForMetadata, Reply::LatestHeight(Some(height))) => Step::Ask(
            Stage::MetadataAt { height },
        ),
        (Stage::MetadataAt { height }, Reply::Metadata(None)) => Step::Done(
            Err(CommandError::NoMetadata { height }),
        ),
        (Stage::MetadataAt { .. }, Reply::Metadata(Some(record))) => Step::Done(
            Ok(Report::Metadata(record)),
        ),
        (Stage::Recorded, Reply::RecordedHeight(None)) => Step::Done(
            Err(CommandError::NoRecordedHeight),
        ),
        (Stage::Recorded, Reply::RecordedHeight(Some(height))) => Step::Done(
            Ok(Report::RecordedHeight(height)),
        ),
        (Stage::LatestForDiff { .. }, Reply::LatestHeight(None)) => Step::Done(
            Err(CommandError::NoLatestHeight),
        ),
        (
            Stage::LatestForDiff { number_of_blocks },
            Reply::LatestHeight(Some(latest)),
        ) => match height_before(latest, number_of_blocks) {
            Ok(previous) => Step::Ask(Stage::CurrentForDiff { latest, previous }),
            Err(error) => Step::Done(Err(CommandError::OffsetOutOfRange(error))),
        },
        (Stage::CurrentForDiff { latest, .. }, Reply::Metadata(None)) => Step::Done(
            Err(CommandError::NoCurrentMetadata { height: latest }),
        ),
        (
            Stage::CurrentForDiff { previous, .. },
            Reply::Metadata(Some(record)),
        ) => match record.narrowed() {
            Ok(current) => Step::Ask(Stage::PreviousForDiff { current, previous }),
            Err(error) => Step::Done(Err(CommandError::CurrentNotV1(error))),
        },
        (Stage::PreviousForDiff { previous, .. }, Reply::Metadata(None)) => Step::Done(
            Err(CommandError::NoPreviousMetadata { height: previous }),
        ),
        (
            Stage::PreviousForDiff { current, .. },
            Reply::Metadata(Some(record)),
        ) => match record.narrowed() {
            Ok(previous) => Step::Done(Ok(Report::Diff { current, previous })),
            Err(error) => Step::Done(Err(CommandError::PreviousNotV1(error))),
        },
        _ => Step::Done(Err(CommandError::UnexpectedReply)),
    }
}

/// Opens the session of a request: returns the stage whose query is to be
/// answered first.
pub fn begin(request: Request) -> (stage: Stage)
    ensures
        stage == first_stage(request),
        stage.queries_left() <= 3,
{
    match request {
        Request::GasPriceMetadata => Stage::LatestForMetadata,
        Request::DaRecordedHeight => Stage::Recorded,
        Request::MetadataDiff { number_of_blocks } => Stage::LatestForDiff { number_of_blocks },
    }
}

/// Takes the reply to the query that `stage` waited on and decides how the
/// session goes on.
///
/// The session either asks once more, from a stage with fewer queries
/// left, or is done. A failed read always ends it with
/// [`CommandError::StorageRead`].
pub fn advance(stage: Stage, reply: Reply) -> (step: Step)
    ensures
        step == next_step(stage, reply),
        step matches Step::Ask(next) ==> next.queries_left() < stage.queries_left(),
        reply is Failed ==> step == Step::Done(Err(CommandError::StorageRead)),
{
    match reply {
        Reply::Failed => Step::Done(Err(CommandError::StorageRead)),
        Reply::LatestHeight(latest) => match stage {
            Stage::LatestForMetadata => match latest {
                Some(height) => Step::Ask(Stage::MetadataAt { height }),
                None => Step::Done(Err(CommandError::NoLatestHeight)),
            },
            Stage::LatestForDiff { number_of_blocks } => match latest {
                Some(latest) => match previous_height(latest, number_of_blocks) {
                    Ok(previous) => Step::Ask(Stage::CurrentForDiff { latest, previous }),
                    Err(error) => Step::Done(Err(CommandError::OffsetOutOfRange(error))),
                },
                None => Step::Done(Err(CommandError::NoLatestHeight)),
            },
            _ => Step::Done(Err(CommandError::UnexpectedReply)),
        },
        Reply::Metadata(found) => match stage {
            Stage::MetadataAt { height } => match found {
                Some(record) => Step::Done(Ok(Report::Metadata(record))),
                None => Step::Done(Err(CommandError::NoMetadata { height })),
            },
            Stage::CurrentForDiff { latest, previous } => match found {
                Some(record) => match record.as_v1() {
                    Ok(payload) => Step::Ask(
                        Stage::PreviousForDiff { current: payload, previous },
                    ),
                    Err(error) => Step::Done(Err(CommandError::CurrentNotV1(error))),
                },
                None => Step::Done(Err(CommandError::NoCurrentMetadata { height: latest })),
            },
            Stage::PreviousForDiff { current, previous } => match found {
                Some(record) => match record.as_v1() {
                    Ok(payload) => Step::Done(Ok(Report::Diff { current, previous: payload })),
                    Err(error) => Step::Done(Err(CommandError::PreviousNotV1(error))),
                },
                None => Step::Done(Err(CommandError::NoPreviousMetadata { height: previous })),
            },
            _ => Step::Done(Err(CommandError::UnexpectedReply)),
        },
        Reply::RecordedHeight(recorded) => match stage {
            Stage::Recorded => match recorded {
                Some(height) => Step::Done(Ok(Report::RecordedHeight(height))),
                None => Step::Done(Err(CommandError::NoRecordedHeight)),
            },
            _ => Step::Done(Err(CommandError::UnexpectedReply)),
        },
    }
}

/// The result of a request on a store, stated outright.
///
/// * The latest metadata is the record at the latest height; without a
///   latest height there is none.
/// * The recorded height is what the cell holds; an empty cell is a
///   failure.
/// * A diff is anchored at the latest height and reaches
///   `number_of_blocks` below it. It fails without a latest height, for an
///   offset that reaches below the first block, for a record at the latest
///   height that is not V1, for a height below that has no record, and for
///   a record there that is not V1, in this order.
pub open spec fn outcome(model: StoreModel, request: Request) -> Result<Report, CommandError> {
    match request {
        Request::GasPriceMetadata => match model.latest() {
            Some(height) => Ok(Report::Metadata(model.table[height])),
            None => Err(CommandError::NoLatestHeight),
        },
        Request::DaRecordedHeight => match model.recorded {
            Some(height) => Ok(Report::RecordedHeight(height)),
            None => Err(CommandError::NoRecordedHeight),
        },
        Request::MetadataDiff { number_of_blocks } => match model.latest() {
            Some(latest) => match height_before(latest, number_of_blocks) {
                Ok(height) => match model.table[latest].narrowed() {
                    Ok(current) => match model.lookup(height) {
                        Some(record) => match record.narrowed() {
                            Ok(previous) => Ok(Report::Diff { current, previous }),
                            Err(error) => Err(CommandError::PreviousNotV1(error)),
                        },
                        None => Err(CommandError::NoPreviousMetadata { height }),
                    },
                    Err(error) => Err(CommandError::CurrentNotV1(error)),
                },
                Err(error) => Err(CommandError::OffsetOutOfRange(error)),
            },
            None => Err(CommandError::NoLatestHeight),
        },
    }
}

/// The reply a store gives to a query: what it holds, and never a failure.
pub open spec fn faithful_reply(model: StoreModel, query: Query) -> Reply {
    match query {
        Query::LatestHeight => Reply::LatestHeight(model.latest()),
        Query::Metadata { height } => Reply::Metadata(model.lookup(height)),
        Query::RecordedHeight => Reply::RecordedHeight(model.recorded),
    }
}

/// The result a session ends with when it stands at `stage` and every
/// query is answered by `engine`.
pub open spec fn conclusion(engine: spec_fn(Query) -> Reply, stage: Stage) -> Result<
    Report,
    CommandError,
>
    decreases stage.queries_left(),
{
    match next_step(stage, engine(stage.awaited())) {
        Step::Ask(next) => conclusion(engine, next),
        Step::Done(result) => result,
    }
}

/// Every session is short: a step that asks again leaves fewer queries to
/// put, and no session puts more than three.
pub proof fn law_sessions_are_short(request: Request, stage: Stage, reply: Reply)
    ensures
        0 < first_stage(request).queries_left() <= 3,
        0 < stage.queries_left() <= 3,
        next_step(stage, reply) matches Step::Ask(next) ==> next.queries_left()
            < stage.queries_left(),
{
}

/// A failed read is never taken for an absent value: whatever the stage,
/// it ends the session with the storage failure.
pub proof fn law_failed_reads_surface(stage: Stage)
    ensures
        next_step(stage, Reply::Failed) == Step::Done(Err(CommandError::StorageRead)),
{
}

/// Held against an engine that answers every query as the store would, a
/// session ends with the outcome of its request on that store.
pub proof fn law_session_reaches_outcome(
    model: StoreModel,
    engine: spec_fn(Query) -> Reply,
    request: Request,
)
    requires
        forall|query: Query| #[trigger] engine(query) == faithful_reply(model, query),
    ensures
        conclusion(engine, first_stage(request)) == outcome(model, request),
{
    lemma_latest_characterised(model);
    reveal_with_fuel(conclusion, 4);
    match request {
        Request::GasPriceMetadata => {
            assert(engine(Query::LatestHeight) == faithful_reply(model, Query::LatestHeight));
            if let Some(height) = model.latest() {
                let query = Query::Metadata { height };
                assert(engine(query) == faithful_reply(model, query));
            }
        },
        Request::DaRecordedHeight => {
            assert(engine(Query::RecordedHeight) == faithful_reply(model, Query::RecordedHeight));
        },
        Request::MetadataDiff { number_of_blocks } => {
            assert(engine(Query::LatestHeight) == faithful_reply(model, Query::LatestHeight));
            if let Some(latest) = model.latest() {
                let query = Query::Metadata { height: latest };
                assert(engine(query) == faithful_reply(model, query));
                if let Ok(height) = height_before(latest, number_of_blocks) {
                    let query = Query::Metadata { height };
                    assert(engine(query) == faithful_reply(model, query));
                }
            }
        },
    }
}

/// On a store, a command for the latest metadata fails only where no
/// record was ever written, and a diff over no blocks shows the latest V1
/// record twice.
pub proof fn law_outcomes_on_a_store(model: StoreModel, payload: V1Metadata)
    ensures
        outcome(model, Request::GasPriceMetadata) is Err <==> model.table.dom()
            =~= Set::<BlockHeight>::empty(),
        outcome(model, Request::GasPriceMetadata) is Err ==> outcome(
            model,
            Request::GasPriceMetadata,
        ) == Err::<Report, CommandError>(CommandError::NoLatestHeight),
        outcome(model, Request::DaRecordedHeight) is Ok <==> model.recorded is Some,
        (model.latest() matches Some(height) && model.table[height] == MetadataRecord::V1(
            payload,
        )) ==> outcome(model, Request::MetadataDiff { number_of_blocks: 0 }) == Ok::<
            Report,
            CommandError,
        >(Report::Diff { current: payload, previous: payload }),
{
    lemma_latest_characterised(model);
}

/// Answers a query from what the store holds.
pub fn answer(store: &MetadataStore, query: Query) -> (reply: Reply)
    requires
        store.wf(),
    ensures
        reply == faithful_reply(store@, query),
        reply !is Failed,
{
    match query {
        Query::LatestHeight => Reply::LatestHeight(store.latest_height()),
        Query::Metadata { height } => Reply::Metadata(store.get_metadata(height)),
        Query::RecordedHeight => Reply::RecordedHeight(store.get_recorded_height()),
    }
}

/// Carries out a request on a store.
///
/// The session of the request is held against the store, one query after
/// another, until it is done. The result is the [`outcome`] of the request
/// on what the store holds; the store itself is only read.
pub fn run(store: &MetadataStore, request: Request) -> (result: Result<Report, CommandError>)
    requires
        store.wf(),
    ensures
        result == outcome(store@, request),
{
    let ghost engine = |query: Query| faithful_reply(store@, query);
    proof {
        law_session_reaches_outcome(store@, engine, request);
    }
    let mut stage = begin(request);
    loop
        invariant
            store.wf(),
            engine == (|query: Query| faithful_reply(store@, query)),
            conclusion(engine, stage) == outcome(store@, request),
        decreases stage.queries_left(),
    {
        let reply = answer(store, stage.query());
        assert(reply == engine(stage.awaited()));
        match advance(stage, reply) {
            Step::Ask(next) => {
                stage = next;
            },
            Step::Done(result) => {
                return result;
            },
        }
    }
}

} // verus!
