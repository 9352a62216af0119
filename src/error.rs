use vstd::prelude::*;

use crate::write::MutationOp;

verus! {

/// Every way a request can be refused by this layer.
#[derive(Debug, Clone, PartialEq, Eq)]
pub enum KvError {
    /// The (prefix, start, end) combination names no selector.
    InvalidRange,
    /// A start key outside the keyspace of the prefix.
    StartNotInPrefix,
    /// An end key outside the keyspace of the prefix.
    EndNotInPrefix,
    /// An explicit range whose start sorts after its end.
    StartAfterEnd,
    /// A cursor boundary key that does not extend the selector's common prefix.
    InvalidBoundaryKey,
    /// A cursor that is not valid URL-safe base64.
    InvalidCursor,
    /// A cursor that would move the scan outside the selector's explicit bounds.
    CursorOutOfBounds,
    /// A selector boundary longer than the read key limit.
    ReadKeyTooLarge,
    /// A key longer than the write key limit.
    WriteKeyTooLarge,
    /// A value longer than the value limit.
    ValueTooLarge,
    /// An enqueue payload longer than the value limit.
    EnqueuePayloadTooLarge,
    /// More ranges in one snapshot read than allowed.
    TooManyRanges,
    /// More entries requested over one snapshot read than allowed.
    TooManyEntries,
    /// A read range with a limit of zero.
    ZeroLimit,
    /// More checks in one atomic write than allowed.
    TooManyChecks,
    /// More mutations and enqueues in one atomic write than allowed.
    TooManyMutations,
    /// An empty key in a check or a mutation.
    EmptyKey,
    /// Keys, values and payloads of one atomic write over the total budget.
    TotalMutationSizeTooLarge,
    /// Mutation keys of one atomic write over the total key budget.
    TotalKeySizeTooLarge,
    /// More watched keys than allowed.
    TooManyWatchedKeys,
    /// A mutation kind that takes no value was given one; it carries the kind.
    MutationWithValue(MutationOp),
    /// A mutation kind that needs a value was given none; it carries the kind.
    MutationWithoutValue(MutationOp),
    /// A versionstamp whose text is not twenty characters long.
    InvalidVersionstampLength,
    /// A versionstamp whose text is not hexadecimal.
    InvalidVersionstamp,
    /// An absolute time past the range of millisecond timestamps.
    TimestampOutOfRange,
    /// A queue message handle that is unknown or already finished.
    MessageNotFound,
}

} // verus!
